//! Base64, as the `base64` crate decodes it.

use vstd::prelude::*;

verus! {

/// The bytes that the `base64` crate's `STANDARD` engine decodes from a text:
/// the standard alphabet, with padding required. Nothing where it refuses.
pub uninterp spec fn standard_base64(text: Seq<char>) -> Option<Seq<u8>>;

/// The bytes that the `base64` crate's `URL_SAFE_NO_PAD` engine decodes from a
/// text: the URL-safe alphabet, with padding refused. Nothing where it refuses.
pub uninterp spec fn url_safe_base64(text: Seq<char>) -> Option<Seq<u8>>;

/// The view of decoded bytes, where there are any.
pub open spec fn opt_bytes(decoded: Option<Vec<u8>>) -> Option<Seq<u8>> {
    match decoded {
        Some(bytes) => Some(bytes@),
        None => None,
    }
}

/// `base64::engine::general_purpose::STANDARD.decode(text)`.
#[verifier::external_body]
fn standard_decode(text: &str) -> (r: Option<Vec<u8>>)
    ensures
        r is Some <==> standard_base64(text@) is Some,
        r matches Some(bytes) ==> standard_base64(text@) == Some(bytes@),
{
    match base64::Engine::decode(&base64::engine::general_purpose::STANDARD, text) {
        Ok(bytes) => Some(bytes),
        Err(_) => None,
    }
}

/// `base64::engine::general_purpose::URL_SAFE_NO_PAD.decode(text)`.
#[verifier::external_body]
fn url_safe_decode(text: &str) -> (r: Option<Vec<u8>>)
    ensures
        r is Some <==> url_safe_base64(text@) is Some,
        r matches Some(bytes) ==> url_safe_base64(text@) == Some(bytes@),
{
    match base64::Engine::decode(&base64::engine::general_purpose::URL_SAFE_NO_PAD, text) {
        Ok(bytes) => Some(bytes),
        Err(_) => None,
    }
}

/// Decodes standard base64 with padding.
pub fn decode_standard(text: &str) -> (r: Option<Vec<u8>>)
    ensures
        r is Some <==> standard_base64(text@) is Some,
        r matches Some(bytes) ==> standard_base64(text@) == Some(bytes@),
{
    standard_decode(text)
}

/// The bytes of a token segment: URL-safe base64 without padding, or else
/// standard base64.
pub open spec fn segment_bytes(text: Seq<char>) -> Option<Seq<u8>> {
    match url_safe_base64(text) {
        Some(bytes) => Some(bytes),
        None => standard_base64(text),
    }
}

/// Decodes a token segment: as URL-safe base64 without padding, or else as
/// standard base64.
pub fn decode_segment(text: &str) -> (r: Option<Vec<u8>>)
    ensures
        r is Some <==> segment_bytes(text@) is Some,
        r matches Some(bytes) ==> segment_bytes(text@) == Some(bytes@),
{
    match url_safe_decode(text) {
        Some(bytes) => Some(bytes),
        None => standard_decode(text),
    }
}

} // verus!
