use frontend::token::{expired_at, expiry_decision, is_token_expired, payload_segment, read_expiry, split_bytes};

#[test]
fn split_keeps_empty_pieces() {
    let parts = split_bytes(b"a..b.", b'.');
    assert_eq!(parts, vec![b"a".to_vec(), vec![], b"b".to_vec(), vec![]]);
    assert_eq!(split_bytes(b"", b'.'), vec![Vec::<u8>::new()]);
}

#[test]
fn payload_segment_needs_three_parts() {
    assert_eq!(payload_segment("h.p.s"), Some(b"p".to_vec()));
    assert_eq!(payload_segment("h.p"), None);
    assert_eq!(payload_segment("h.p.s.x"), None);
}

#[test]
fn expiry_read_from_payload() {
    assert_eq!(read_expiry("h.eyJleHAiOjEwMDB9.s"), Some(1000));
    assert_eq!(read_expiry("h.eyJleHAiOjE3MDAwMDAwMDAsICJhIjoxfQ.s"), Some(1700000000));
    // payloads whose encoding uses the URL-safe symbols `_` and `-`
    assert_eq!(read_expiry("h.eyJleHAiOjEwMDAsImsiOiI_Pz4ifQ.s"), Some(1000));
    assert_eq!(read_expiry("h.eyJleHAiOjEwMDAsImsiOiJ-fn4ifQ.s"), Some(1000));
    // no exp claim, non-numeric exp, not an object
    assert_eq!(read_expiry("h.eyJzdWIiOiJ4In0.s"), None);
    assert_eq!(read_expiry("h.eyJleHAiOiJzb29uIn0.s"), None);
    assert_eq!(read_expiry("h.WzEsMl0.s"), None);
    // not unpadded base64url (padding, standard-alphabet symbols, bad symbol)
    assert_eq!(read_expiry("h.eyJzdWIiOiJ4In0=.s"), None);
    assert_eq!(read_expiry("h.eyJleHAiOjEwMDAsImsiOiI/Pz4ifQ.s"), None);
    assert_eq!(read_expiry("h.e$Jz.s"), None);
    // base64url of bytes that are not UTF-8
    assert_eq!(read_expiry("h.__79.s"), None);
}

#[test]
fn expiry_compares_seconds_with_milliseconds() {
    assert!(!expired_at(1000, 1_000_000));
    assert!(expired_at(1000, 1_000_001));
    assert!(!expired_at(u64::MAX, u64::MAX));
    assert!(expiry_decision(None, 0));
    assert!(!expiry_decision(Some(5), 5000));
}

#[test]
fn token_expiry_end_to_end() {
    let token = "h.eyJleHAiOjEwMDB9.s";
    assert!(!is_token_expired(token, 999_000));
    assert!(!is_token_expired(token, 1_000_000));
    assert!(is_token_expired(token, 1_000_001));
    // once expired, stays expired
    assert!(is_token_expired(token, 2_000_000));
}

#[test]
fn unpadded_jwt_payload_not_yet_expired() {
    // payload {"exp":10}: 5 s is not past 10 s, 11 s is
    assert!(!is_token_expired("h.eyJleHAiOjEwfQ.s", 5000));
    assert!(!is_token_expired("h.eyJleHAiOjEwfQ.s", 10_000));
    assert!(is_token_expired("h.eyJleHAiOjEwfQ.s", 11_000));
}

#[test]
fn malformed_tokens_are_expired() {
    assert!(is_token_expired("", 0));
    assert!(is_token_expired("abc", 0));
    assert!(is_token_expired("a.b", 0));
    assert!(is_token_expired("h.eyJzdWIiOiJ4In0.s", 0));
}
