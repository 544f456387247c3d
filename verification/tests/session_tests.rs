use moq_player::session::FingerprintError;
use moq_player::session::HexError;
use moq_player::session::SessionError;
use moq_player::session::parse_fingerprint;
use moq_player::session::prepare_connect;
use moq_player::session::trim;

#[test]
fn trim_removes_surrounding_whitespace() {
    assert_eq!(trim("  abc\n"), "abc");
    assert_eq!(trim("abc"), "abc");
    assert_eq!(trim(" \r\n\t "), "");
    assert_eq!(trim(""), "");
    assert_eq!(trim("a b"), "a b");
}

#[test]
fn fingerprint_decodes_hex_body() {
    let bytes = parse_fingerprint("  0aFf\n").expect("valid body");
    assert_eq!(bytes, vec![0x0a, 0xff]);
}

#[test]
fn fingerprint_rejects_odd_length() {
    match parse_fingerprint("abc") {
        Err(FingerprintError::Hex(e)) => assert_eq!(e, HexError::OddLength),
        _ => panic!("expected an odd-length error"),
    }
}

#[test]
fn fingerprint_rejects_bad_digit() {
    match parse_fingerprint("zz") {
        Err(FingerprintError::Hex(e)) => assert_eq!(e, HexError::InvalidDigit),
        _ => panic!("expected a digit error"),
    }
}

#[test]
fn connect_plans_secure_endpoint() {
    let plan = prepare_connect("https://relay.example.com/room").expect("valid endpoint");
    assert_eq!(plan.endpoint.scheme, "https");
    assert_eq!(plan.endpoint.host, Some("relay.example.com".to_owned()));
    assert_eq!(plan.fingerprint_url, None);
    assert!(!plan.policy.allow_pooling);
    assert!(plan.policy.low_latency);
    assert!(plan.policy.require_unreliable);
}

#[test]
fn connect_normalizes_scheme_case() {
    // The parser lowercases the scheme, so an upper-case secure scheme is
    // accepted; an endpoint handed back unparsed would be refused here.
    let plan = prepare_connect("HTTPS://relay.example.com/room").expect("valid endpoint");
    assert_eq!(plan.endpoint.scheme, "https");
}

#[test]
fn connect_bootstraps_fingerprint_on_localhost() {
    let plan = prepare_connect("https://localhost:4443/watch").expect("valid endpoint");
    assert_eq!(
        plan.fingerprint_url,
        Some("https://localhost:4443/fingerprint".to_owned()),
    );
}

#[test]
fn connect_rejects_insecure_scheme() {
    match prepare_connect("http://relay.example.com/room") {
        Err(SessionError::InvalidScheme) => {},
        _ => panic!("expected a scheme error"),
    }
}

#[test]
fn connect_rejects_non_url() {
    match prepare_connect("not a url") {
        Err(SessionError::InvalidUrl) => {},
        _ => panic!("expected a URL error"),
    }
}
