//! Byte-level decoding done by outside code: unpadded base64url, the
//! encoding of JSON Web Token segments (the `base64` crate), and UTF-8
//! validation (`String::from_utf8`).

use base64::Engine;
use vstd::prelude::*;
use vstd::utf8::{decode_utf8, valid_utf8};

verus! {

/// `base64::DecodeError`, carried through unchanged.
#[verifier::external_type_specification]
#[verifier::external_body]
pub struct ExDecodeError(base64::DecodeError);

/// `std::string::FromUtf8Error`, carried through unchanged.
#[verifier::external_type_specification]
#[verifier::external_body]
pub struct ExFromUtf8Error(std::string::FromUtf8Error);

/// What `base64::engine::general_purpose::URL_SAFE_NO_PAD.decode` gives
/// for `input`: `None` when it rejects the input (symbols outside the
/// URL-safe alphabet `A-Z a-z 0-9 - _`, any `=` padding, a bad length or
/// non-zero trailing bits), else the decoded bytes.
pub uninterp spec fn base64url_nopad_decode(input: Seq<u8>) -> Option<Seq<u8>>;

/// Calls `URL_SAFE_NO_PAD.decode` of the `base64` crate. The contract claims
/// only that the outcome is the one `base64url_nopad_decode` names for the
/// input bytes; what that function is, is not stated here.
#[verifier::external_body]
pub(crate) fn decode_base64url_nopad(input: &[u8]) -> (r: Result<Vec<u8>, base64::DecodeError>)
    ensures
        match r {
            Ok(bytes) => base64url_nopad_decode(input@) == Some(bytes@),
            Err(_) => base64url_nopad_decode(input@) is None,
        },
{
    base64::engine::general_purpose::URL_SAFE_NO_PAD.decode(input)
}

/// Calls `String::from_utf8`: it succeeds exactly on valid UTF-8, and the
/// string holds the decoded characters.
#[verifier::external_body]
pub(crate) fn string_from_utf8(bytes: Vec<u8>) -> (r: Result<String, std::string::FromUtf8Error>)
    ensures
        match r {
            Ok(s) => valid_utf8(bytes@) && s@ == decode_utf8(bytes@),
            Err(_) => !valid_utf8(bytes@),
        },
{
    String::from_utf8(bytes)
}

} // verus!
