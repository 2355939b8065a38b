use tls_handshake::alpn::AlpnProtocol;

fn offer(list: &[&'static [u8]]) -> Vec<&'static [u8]> {
    list.to_vec()
}

#[test]
fn absolute_finds_equal_offer() {
    let p = AlpnProtocol::new_absolute_protocol(b"h2".to_vec());
    let r = p.find_match(&offer(&[b"http/1.1", b"h2"]));
    assert_eq!(r, Some(b"h2".to_vec()));
}

#[test]
fn absolute_is_case_sensitive() {
    let p = AlpnProtocol::new_absolute_protocol(b"h2".to_vec());
    assert_eq!(p.find_match(&offer(&[b"H2"])), None);
}

#[test]
fn absolute_rejects_longer_offer() {
    let p = AlpnProtocol::new_absolute_protocol(b"foo".to_vec());
    assert_eq!(p.find_match(&offer(&[b"foobar"])), None);
}

#[test]
fn absolute_no_match() {
    let p = AlpnProtocol::new_absolute_protocol(b"h2".to_vec());
    assert_eq!(p.find_match(&offer(&[b"http/1.1"])), None);
}

#[test]
fn prefix_takes_first_in_list() {
    let p = AlpnProtocol::new_prefix_protocol(b"foo".to_vec());
    let r = p.find_match(&offer(&[b"foobar", b"foo", b"bar"]));
    assert_eq!(r, Some(b"foobar".to_vec()));
}

#[test]
fn prefix_offer_order_decides_winner() {
    let p = AlpnProtocol::new_prefix_protocol(b"a".to_vec());
    let r = p.find_match(&offer(&[b"abc", b"ab"]));
    assert_eq!(r, Some(b"abc".to_vec()));
}

#[test]
fn prefix_returns_offered_bytes() {
    let p = AlpnProtocol::new_prefix_protocol(b"foo".to_vec());
    let r = p.find_match(&offer(&[b"bar", b"foo/2"])).unwrap();
    assert_eq!(r, b"foo/2".to_vec());
    assert_ne!(r, p.get_protocol().to_vec());
}

#[test]
fn prefix_longer_than_offer_never_matches() {
    let p = AlpnProtocol::new_prefix_protocol(b"foobar".to_vec());
    assert_eq!(p.find_match(&offer(&[b"foo", b"fo"])), None);
}

#[test]
fn empty_prefix_matches_first_offer() {
    let p = AlpnProtocol::new_prefix_protocol(Vec::new());
    assert_eq!(p.find_match(&offer(&[b"x", b"h2"])), Some(b"x".to_vec()));
    assert_eq!(p.find_match(&offer(&[b"", b"h2"])), Some(Vec::new()));
}

#[test]
fn empty_offer_list_matches_nothing() {
    let p = AlpnProtocol::new_prefix_protocol(Vec::new());
    assert_eq!(p.find_match(&Vec::new()), None);
    let q = AlpnProtocol::new_absolute_protocol(b"h2".to_vec());
    assert_eq!(q.find_match(&Vec::new()), None);
}

#[test]
fn empty_absolute_matches_only_empty_offer() {
    let p = AlpnProtocol::new_absolute_protocol(Vec::new());
    assert_eq!(p.find_match(&offer(&[b"h2"])), None);
    assert_eq!(p.find_match(&offer(&[b"h2", b""])), Some(Vec::new()));
}

#[test]
fn get_protocol_returns_declared_bytes() {
    let p = AlpnProtocol::new_prefix_protocol(b"spdy/".to_vec());
    assert_eq!(p.get_protocol(), b"spdy/");
}

#[test]
fn from_bytes_is_absolute() {
    let p = AlpnProtocol::from(b"h2".to_vec());
    assert_eq!(p.get_protocol(), b"h2");
    assert_eq!(p.find_match(&offer(&[b"h2c", b"h2"])), Some(b"h2".to_vec()));
}
