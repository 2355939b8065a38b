use vstd::prelude::*;

use crate::bytes::{opt_bytes, opt_slice_bytes};

verus! {

/// A DER-encoded certificate.
#[derive(Clone, Debug, PartialEq, Eq)]
pub struct Certificate(pub Vec<u8>);

/// A certificate chain, leaf first, with the key that signs for it and the optional
/// stapled OCSP response and SCT list. The signing key type `K` is whatever signing
/// backend the server plugs in.
pub struct CertifiedKey<K> {
    pub cert: Vec<Certificate>,
    pub key: K,
    pub ocsp: Option<Vec<u8>>,
    pub sct_list: Option<Vec<u8>>,
}

/// A read-only view over a `CertifiedKey` for one handshake: it borrows the chain, the
/// key and the OCSP and SCT buffers and copies none of them.
pub struct ActiveCertifiedKey<'a, K> {
    key: &'a CertifiedKey<K>,
    ocsp: Option<&'a [u8]>,
    sct_list: Option<&'a [u8]>,
}

/// The borrowed contents of an optional buffer.
fn borrow_buffer(o: &Option<Vec<u8>>) -> (r: Option<&[u8]>)
    ensures
        opt_slice_bytes(r) == opt_bytes(*o),
{
    match o {
        Some(v) => Some(v.as_slice()),
        None => None,
    }
}

impl<'a, K> ActiveCertifiedKey<'a, K> {
    /// The record this view borrows from.
    pub closed spec fn spec_record(&self) -> CertifiedKey<K> {
        *self.key
    }

    /// The OCSP response this view hands out.
    pub closed spec fn spec_ocsp(&self) -> Option<Seq<u8>> {
        opt_slice_bytes(self.ocsp)
    }

    /// The SCT list this view hands out.
    pub closed spec fn spec_sct_list(&self) -> Option<Seq<u8>> {
        opt_slice_bytes(self.sct_list)
    }

    /// The certificate chain this view hands out.
    pub open spec fn spec_chain(&self) -> Seq<Certificate> {
        self.spec_record().cert@
    }

    /// This view borrows from `rec` and hands out exactly its OCSP and SCT buffers.
    pub open spec fn is_view_of(&self, rec: CertifiedKey<K>) -> bool {
        &&& self.spec_record() == rec
        &&& self.spec_ocsp() == opt_bytes(rec.ocsp)
        &&& self.spec_sct_list() == opt_bytes(rec.sct_list)
    }

    /// Builds the view over `key` for one handshake.
    pub fn from_certified_key(key: &'a CertifiedKey<K>) -> (r: ActiveCertifiedKey<'a, K>)
        ensures
            r.is_view_of(*key),
    {
        ActiveCertifiedKey {
            key,
            ocsp: borrow_buffer(&key.ocsp),
            sct_list: borrow_buffer(&key.sct_list),
        }
    }

    /// Returns the certificate chain, leaf first, as the record stores it.
    pub fn get_cert(&self) -> (r: &[Certificate])
        ensures
            r@ == self.spec_chain(),
    {
        self.key.cert.as_slice()
    }

    /// Returns the signing key.
    pub fn get_key(&self) -> (r: &K)
        ensures
            *r == self.spec_record().key,
    {
        &self.key.key
    }

    /// Returns the stapled OCSP response, if the record has one.
    pub fn get_ocsp(&self) -> (r: Option<&[u8]>)
        ensures
            opt_slice_bytes(r) == self.spec_ocsp(),
    {
        self.ocsp
    }

    /// Returns the SCT list, if the record has one.
    pub fn get_sct_list(&self) -> (r: Option<&[u8]>)
        ensures
            opt_slice_bytes(r) == self.spec_sct_list(),
    {
        self.sct_list
    }
}

/// A view hands out the chain of the record it was built from, unchanged and in order.
pub proof fn lemma_view_keeps_chain<K>(v: ActiveCertifiedKey<'_, K>, rec: CertifiedKey<K>)
    requires
        v.is_view_of(rec),
    ensures
        v.spec_chain() == rec.cert@,
{
}

/// A view has an OCSP response exactly when its record has one, with the same bytes, and
/// likewise an SCT list.
pub proof fn lemma_view_keeps_buffers<K>(v: ActiveCertifiedKey<'_, K>, rec: CertifiedKey<K>)
    requires
        v.is_view_of(rec),
    ensures
        rec.ocsp is None <==> v.spec_ocsp() is None,
        rec.sct_list is None <==> v.spec_sct_list() is None,
        rec.ocsp is Some ==> v.spec_ocsp() == Some(rec.ocsp->0@),
        rec.sct_list is Some ==> v.spec_sct_list() == Some(rec.sct_list->0@),
{
}

} // verus!
