//! Expiry check of a JSON Web Token: the token is split at `.`, the middle
//! segment is decoded as base64url without padding (as JWTs carry it),
//! read as UTF-8 JSON, and its `exp` claim (in seconds) is compared with the
//! current time.

use vstd::prelude::*;
use vstd::utf8::{decode_utf8, encode_utf8, valid_utf8};
use crate::codec::{base64url_nopad_decode, decode_base64url_nopad, string_from_utf8};
use crate::json::{json_u64_member, read_u64_member};

verus! {

/// The pieces of `s` between occurrences of `sep`, in order (what
/// `str::split` with a single-character pattern yields). There is always at
/// least one piece; `n` separators give `n + 1` pieces.
pub open spec fn split_on(s: Seq<u8>, sep: u8) -> Seq<Seq<u8>>
    decreases s.len(),
{
    if s.len() == 0 {
        seq![Seq::<u8>::empty()]
    } else {
        let rest = split_on(s.drop_last(), sep);
        if s.last() == sep {
            rest.push(Seq::<u8>::empty())
        } else {
            rest.update(rest.len() - 1, rest.last().push(s.last()))
        }
    }
}

proof fn lemma_split_on_nonempty(s: Seq<u8>, sep: u8)
    ensures
        split_on(s, sep).len() >= 1,
    decreases s.len(),
{
    if s.len() > 0 {
        lemma_split_on_nonempty(s.drop_last(), sep);
    }
}

/// The contents of each vector of `vs`.
pub open spec fn views_of(vs: Seq<Vec<u8>>) -> Seq<Seq<u8>> {
    vs.map_values(|v: Vec<u8>| v@)
}

/// Splits `s` at every byte equal to `sep`.
pub fn split_bytes(s: &[u8], sep: u8) -> (parts: Vec<Vec<u8>>)
    ensures
        views_of(parts@) == split_on(s@, sep),
{
    let mut parts: Vec<Vec<u8>> = Vec::new();
    let mut cur: Vec<u8> = Vec::new();
    let mut i: usize = 0;
    while i < s.len()
        invariant
            i <= s.len(),
            views_of(parts@).push(cur@) == split_on(s@.take(i as int), sep),
        decreases s.len() - i,
    {
        let ghost before = views_of(parts@).push(cur@);
        proof {
            lemma_split_on_nonempty(s@.take(i as int), sep);
        }
        assert(s@.take(i + 1).drop_last() =~= s@.take(i as int));
        if s[i] == sep {
            let done = cur;
            parts.push(done);
            cur = Vec::new();
            assert(views_of(parts@).push(cur@) =~= before.push(Seq::<u8>::empty()));
        } else {
            cur.push(s[i]);
            assert(views_of(parts@).push(cur@) =~= before.update(
                before.len() - 1,
                before.last().push(s[i as int]),
            ));
        }
        i = i + 1;
    }
    assert(s@.take(i as int) =~= s@);
    parts.push(cur);
    parts
}

/// The byte `.` that separates the segments of a token.
pub open spec fn dot() -> u8 {
    0x2E
}

/// The name of the expiry claim, `exp`.
pub open spec fn exp_key() -> Seq<char> {
    seq!['e', 'x', 'p']
}

/// The base64url payload segment of a token: the middle one of exactly three
/// `.`-separated segments.
pub open spec fn payload_segment_of(token: Seq<u8>) -> Option<Seq<u8>> {
    let parts = split_on(token, dot());
    if parts.len() == 3 {
        Some(parts[1])
    } else {
        None
    }
}

/// The `exp` claim of a token whose UTF-8 bytes are `token`, when the
/// token has three segments, its payload decodes as unpadded base64url into
/// UTF-8 JSON, and that JSON has an `exp` member that is a `u64`.
pub open spec fn expiry_claim(token: Seq<u8>) -> Option<u64> {
    match payload_segment_of(token) {
        None => None,
        Some(segment) => match base64url_nopad_decode(segment) {
            None => None,
            Some(payload) => if valid_utf8(payload) {
                match json_u64_member(decode_utf8(payload), exp_key()) {
                    Some(Some(exp)) => Some(exp),
                    _ => None,
                }
            } else {
                None
            },
        },
    }
}

/// A token whose expiry is `exp` seconds is expired at `now_ms`
/// milliseconds when `now_ms / 1000 > exp`, i.e. `now_ms > 1000 * exp`.
pub open spec fn expired_at_spec(exp: u64, now_ms: u64) -> bool {
    now_ms > exp * 1000
}

/// The decision once the claim is known: a token without a readable `exp`
/// claim counts as expired.
pub open spec fn expiry_decision_spec(exp: Option<u64>, now_ms: u64) -> bool {
    match exp {
        Some(e) => expired_at_spec(e, now_ms),
        None => true,
    }
}

/// Whether the token with UTF-8 bytes `token` is expired at `now_ms`.
pub open spec fn token_expired(token: Seq<u8>, now_ms: u64) -> bool {
    expiry_decision_spec(expiry_claim(token), now_ms)
}

/// Whether a token expiring at `exp` seconds is expired at `now_ms`
/// milliseconds.
pub fn expired_at(exp: u64, now_ms: u64) -> (b: bool)
    ensures
        b == expired_at_spec(exp, now_ms),
        b == (now_ms as int > exp as int * 1000),
{
    (now_ms as u128) > (exp as u128) * 1000
}

/// Whether a token is expired given its `exp` claim, if it has one.
pub fn expiry_decision(exp: Option<u64>, now_ms: u64) -> (b: bool)
    ensures
        b == expiry_decision_spec(exp, now_ms),
{
    match exp {
        Some(e) => expired_at(e, now_ms),
        None => true,
    }
}

/// The payload segment of `token`, when it has exactly three segments.
pub fn payload_segment(token: &str) -> (seg: Option<Vec<u8>>)
    ensures
        match seg {
            Some(v) => payload_segment_of(encode_utf8(token@)) == Some(v@),
            None => payload_segment_of(encode_utf8(token@)) is None,
        },
{
    let parts = split_bytes(token.as_bytes(), 0x2E);
    if parts.len() != 3 {
        return None;
    }
    assert(views_of(parts@)[1] == parts[1]@);
    let mut seg: Vec<u8> = Vec::new();
    let mut i: usize = 0;
    while i < parts[1].len()
        invariant
            parts.len() == 3,
            i <= parts[1].len(),
            seg@ == parts[1]@.take(i as int),
        decreases parts[1].len() - i,
    {
        seg.push(parts[1][i]);
        i = i + 1;
    }
    assert(parts[1]@.take(i as int) =~= parts[1]@);
    Some(seg)
}

/// The `exp` claim of `token`, if it has a readable one.
pub fn read_expiry(token: &str) -> (exp: Option<u64>)
    ensures
        exp == expiry_claim(encode_utf8(token@)),
{
    let segment = match payload_segment(token) {
        Some(s) => s,
        None => return None,
    };
    let payload = match decode_base64url_nopad(segment.as_slice()) {
        Ok(p) => p,
        Err(_) => return None,
    };
    let json_text = match string_from_utf8(payload) {
        Ok(t) => t,
        Err(_) => return None,
    };
    proof {
        reveal_strlit("exp");
        assert("exp"@ =~= exp_key());
    }
    match read_u64_member(json_text.as_str(), "exp") {
        Ok(Some(exp)) => Some(exp),
        _ => None,
    }
}

/// Whether the access token `token` is expired at `now_ms` milliseconds
/// since the epoch. A token that is not three `.`-separated segments, whose
/// payload is not unpadded base64url of UTF-8 JSON, or that has no `u64` `exp`
/// claim, counts as expired.
pub fn is_token_expired(token: &str, now_ms: u64) -> (expired: bool)
    ensures
        expired == token_expired(encode_utf8(token@), now_ms),
{
    expiry_decision(read_expiry(token), now_ms)
}

/// Once expired, a token stays expired: expiry is monotone in time.
pub proof fn law_expiry_monotone(token: Seq<u8>, t1: u64, t2: u64)
    requires
        t1 <= t2,
        token_expired(token, t1),
    ensures
        token_expired(token, t2),
{
}

/// A token whose `exp` claim is `exp` seconds is expired at `now_ms`
/// milliseconds exactly when the current time in seconds is strictly past
/// `exp`, i.e. `now_ms > 1000 * exp`, for every time and every claim.
pub proof fn law_expiry_is_time_past_exp(token: Seq<u8>, exp: u64, now_ms: u64)
    requires
        expiry_claim(token) == Some(exp),
    ensures
        token_expired(token, now_ms) <==> now_ms as int > exp as int * 1000,
        expired_at_spec(exp, now_ms) <==> now_ms as int > exp as int * 1000,
{
}

/// A token with no readable `exp` claim is expired at every time.
pub proof fn law_no_claim_expired(token: Seq<u8>, now_ms: u64)
    requires
        expiry_claim(token) is None,
    ensures
        token_expired(token, now_ms),
{
}

/// A token that does not have exactly three segments is expired at every
/// time.
pub proof fn law_malformed_token_expired(token: Seq<u8>, now_ms: u64)
    requires
        split_on(token, dot()).len() != 3,
    ensures
        token_expired(token, now_ms),
{
}

} // verus!
