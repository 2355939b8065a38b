use vstd::prelude::*;

use crate::bytes::{bytes_equal, bytes_start_with, opt_bytes};

verus! {

/// How a declared protocol identifier is compared with a client's offer.
#[derive(Clone, Copy, Debug, PartialEq, Eq, Structural)]
pub enum AlpnProtocolMatcher {
    /// The offer must equal the declared identifier byte for byte.
    Absolute,
    /// The offer must start with the declared identifier.
    Prefix,
}

/// Whether the offered candidate `c` satisfies mode `m` against the declared identifier `d`.
pub open spec fn protocol_matches(m: AlpnProtocolMatcher, d: Seq<u8>, c: Seq<u8>) -> bool {
    match m {
        AlpnProtocolMatcher::Absolute => c == d,
        AlpnProtocolMatcher::Prefix => d.is_prefix_of(c),
    }
}

/// The first element of `offered` that satisfies mode `m` against `d`, if any.
pub open spec fn first_match(m: AlpnProtocolMatcher, d: Seq<u8>, offered: Seq<Seq<u8>>) -> Option<
    Seq<u8>,
>
    decreases offered.len(),
{
    if offered.len() == 0 {
        None
    } else if protocol_matches(m, d, offered[0]) {
        Some(offered[0])
    } else {
        first_match(m, d, offered.drop_first())
    }
}

/// The byte sequences of a list of borrowed slices.
pub open spec fn offered_view(offered: Seq<&[u8]>) -> Seq<Seq<u8>> {
    offered.map_values(|p: &[u8]| p@)
}

impl AlpnProtocolMatcher {
    /// Whether `candidate` satisfies this mode against the declared identifier.
    fn matches(&self, declared: &[u8], candidate: &[u8]) -> (r: bool)
        ensures
            r == protocol_matches(*self, declared@, candidate@),
    {
        match self {
            AlpnProtocolMatcher::Absolute => bytes_equal(declared, candidate),
            AlpnProtocolMatcher::Prefix => bytes_start_with(candidate, declared),
        }
    }

    /// Returns a copy of the first client protocol that satisfies this mode against
    /// `offered_protocol`, scanning `client_protocols` in the order given.
    pub fn find_match(&self, offered_protocol: &[u8], client_protocols: &Vec<&[u8]>) -> (r:
        Option<Vec<u8>>)
        ensures
            opt_bytes(r) == first_match(*self, offered_protocol@, offered_view(client_protocols@)),
    {
        let ghost all = offered_view(client_protocols@);
        let mut i: usize = 0;
        assert(all.subrange(0, all.len() as int) =~= all);
        while i < client_protocols.len()
            invariant
                0 <= i <= client_protocols@.len(),
                all == offered_view(client_protocols@),
                first_match(*self, offered_protocol@, all) == first_match(
                    *self,
                    offered_protocol@,
                    all.subrange(i as int, all.len() as int),
                ),
            decreases client_protocols@.len() - i,
        {
            let candidate: &[u8] = client_protocols[i];
            assert(all.subrange(i as int, all.len() as int).drop_first() =~= all.subrange(
                i + 1,
                all.len() as int,
            ));
            if self.matches(offered_protocol, candidate) {
                return Some(vstd::slice::slice_to_vec(candidate));
            }
            i = i + 1;
        }
        assert(all.subrange(i as int, all.len() as int) =~= Seq::<Seq<u8>>::empty());
        None
    }
}

/// A protocol identifier that the server supports, with the mode used to match it
/// against the identifiers a client offers.
#[derive(Clone, Debug)]
pub struct AlpnProtocol {
    protocol: Vec<u8>,
    matcher: AlpnProtocolMatcher,
}

impl AlpnProtocol {
    /// The declared protocol identifier.
    pub closed spec fn spec_protocol(&self) -> Seq<u8> {
        self.protocol@
    }

    /// The mode used to match the declared identifier.
    pub closed spec fn spec_matcher(&self) -> AlpnProtocolMatcher {
        self.matcher
    }

    /// Returns the raw bytes of the declared protocol identifier.
    pub fn get_protocol(&self) -> (r: &[u8])
        ensures
            r@ == self.spec_protocol(),
    {
        self.protocol.as_slice()
    }

    /// Returns a copy of the first protocol of `client_protocols` (in the client's order)
    /// that this declaration matches, or `None` when none does.
    pub fn find_match(&self, client_protocols: &Vec<&[u8]>) -> (r: Option<Vec<u8>>)
        ensures
            opt_bytes(r) == first_match(
                self.spec_matcher(),
                self.spec_protocol(),
                offered_view(client_protocols@),
            ),
    {
        self.matcher.find_match(self.protocol.as_slice(), client_protocols)
    }

    /// Declares `protocol`, matched against any offer that starts with it.
    pub fn new_prefix_protocol(protocol: Vec<u8>) -> (r: Self)
        ensures
            r.spec_protocol() == protocol@,
            r.spec_matcher() == AlpnProtocolMatcher::Prefix,
    {
        AlpnProtocol { protocol, matcher: AlpnProtocolMatcher::Prefix }
    }

    /// Declares `protocol`, matched only against an identical offer.
    pub fn new_absolute_protocol(protocol: Vec<u8>) -> (r: Self)
        ensures
            r.spec_protocol() == protocol@,
            r.spec_matcher() == AlpnProtocolMatcher::Absolute,
    {
        AlpnProtocol { protocol, matcher: AlpnProtocolMatcher::Absolute }
    }
}

impl From<Vec<u8>> for AlpnProtocol {
    /// A bare identifier is matched exactly.
    fn from(proto: Vec<u8>) -> (r: Self)
        ensures
            r.spec_protocol() == proto@,
            r.spec_matcher() == AlpnProtocolMatcher::Absolute,
    {
        AlpnProtocol { protocol: proto, matcher: AlpnProtocolMatcher::Absolute }
    }
}

impl vstd::std_specs::convert::FromSpecImpl<Vec<u8>> for AlpnProtocol {
    open spec fn obeys_from_spec() -> bool {
        true
    }

    closed spec fn from_spec(proto: Vec<u8>) -> AlpnProtocol {
        AlpnProtocol { protocol: proto, matcher: AlpnProtocolMatcher::Absolute }
    }
}

/// In absolute mode a match is found exactly when the offered list holds the declared
/// identifier, and what is found is then that identifier; bytes are compared as they are,
/// so case matters.
pub proof fn lemma_absolute_finds_equal(d: Seq<u8>, offered: Seq<Seq<u8>>)
    ensures
        first_match(AlpnProtocolMatcher::Absolute, d, offered) is Some <==> offered.contains(d),
        first_match(AlpnProtocolMatcher::Absolute, d, offered) is Some ==> first_match(
            AlpnProtocolMatcher::Absolute,
            d,
            offered,
        )->0 == d,
    decreases offered.len(),
{
    if offered.len() > 0 && offered[0] != d {
        lemma_absolute_finds_equal(d, offered.drop_first());
        if offered.drop_first().contains(d) {
            let k = choose|k: int| 0 <= k < offered.drop_first().len() && offered.drop_first()[k] == d;
            assert(offered[k + 1] == d);
        }
        if offered.contains(d) {
            let k = choose|k: int| 0 <= k < offered.len() && offered[k] == d;
            assert(offered.drop_first()[k - 1] == d);
        }
    } else if offered.len() > 0 {
        assert(offered[0] == d);
    }
}

/// An empty declared identifier in prefix mode matches every candidate, so it picks the
/// first offered protocol whenever one is offered.
pub proof fn lemma_empty_prefix_matches_any(offered: Seq<Seq<u8>>)
    ensures
        forall|c: Seq<u8>| protocol_matches(AlpnProtocolMatcher::Prefix, Seq::empty(), c),
        offered.len() > 0 ==> first_match(AlpnProtocolMatcher::Prefix, Seq::empty(), offered)
            == Some(offered[0]),
{
    assert forall|c: Seq<u8>| protocol_matches(AlpnProtocolMatcher::Prefix, Seq::empty(), c) by {
        assert(c.subrange(0, 0) =~= Seq::<u8>::empty());
    }
}

/// When several offered protocols match, the one earliest in the offered list wins: if
/// the candidate at index `i` matches and none before it does, it is the result.
pub proof fn lemma_first_in_list_wins(
    m: AlpnProtocolMatcher,
    d: Seq<u8>,
    offered: Seq<Seq<u8>>,
    i: int,
)
    requires
        0 <= i < offered.len(),
        protocol_matches(m, d, offered[i]),
        forall|j: int| 0 <= j < i ==> !protocol_matches(m, d, #[trigger] offered[j]),
    ensures
        first_match(m, d, offered) == Some(offered[i]),
    decreases i,
{
    if i > 0 {
        assert(!protocol_matches(m, d, offered[0]));
        lemma_first_in_list_wins(m, d, offered.drop_first(), i - 1);
    }
}

/// A match is always one of the offered candidates, byte for byte, and satisfies the mode
/// against the declared identifier; under prefix mode it may be longer than that identifier.
pub proof fn lemma_match_is_offered(m: AlpnProtocolMatcher, d: Seq<u8>, offered: Seq<Seq<u8>>)
    ensures
        first_match(m, d, offered) is Some ==> offered.contains(first_match(m, d, offered)->0)
            && protocol_matches(m, d, first_match(m, d, offered)->0),
        first_match(m, d, offered) is None <==> forall|j: int|
            0 <= j < offered.len() ==> !protocol_matches(m, d, #[trigger] offered[j]),
    decreases offered.len(),
{
    if offered.len() > 0 {
        lemma_match_is_offered(m, d, offered.drop_first());
        if !protocol_matches(m, d, offered[0]) {
            if let Some(x) = first_match(m, d, offered) {
                let k = choose|k: int| 0 <= k < offered.drop_first().len() && offered.drop_first()[k] == x;
                assert(offered[k + 1] == x);
            }
            assert forall|j: int| 0 <= j < offered.len() && (forall|k: int|
                0 <= k < offered.drop_first().len() ==> !protocol_matches(m, d, #[trigger] offered.drop_first()[k]))
                implies !protocol_matches(m, d, #[trigger] offered[j]) by {
                if j > 0 {
                    assert(offered[j] == offered.drop_first()[j - 1]);
                }
            }
        }
    }
}

} // verus!
