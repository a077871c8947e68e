//! Padded standard base64 on the wire, with a size guard on decoding.
use base64::Engine;
use vstd::prelude::*;

use crate::error::DecodeIssue;

verus! {

/// What `base64`'s standard padded engine decodes `text` to (`None` when it refuses it).
pub uninterp spec fn base64_decoded(text: Seq<char>) -> Option<Seq<u8>>;

/// What `base64`'s standard padded engine encodes `bytes` to.
pub uninterp spec fn base64_encoded(bytes: Seq<u8>) -> Seq<char>;

/// The largest payload size a configuration may allow.
pub const PAYLOAD_LIMIT: usize = 1073741824;

/// Length of the padded encoding of `n` bytes.
pub open spec fn encoded_len(n: nat) -> nat {
    4 * ((n + 2) / 3)
}

/// Decoding with the size guard: texts longer than any encoding of `max`
/// bytes are refused before decoding.
pub open spec fn decode_spec(text: Seq<char>, max: nat) -> Result<Seq<u8>, DecodeIssue> {
    if text.len() > encoded_len(max) {
        Err(DecodeIssue::TooLarge)
    } else {
        match base64_decoded(text) {
            None => Err(DecodeIssue::Malformed),
            Some(b) => if b.len() > max {
                Err(DecodeIssue::TooLarge)
            } else {
                Ok(b)
            },
        }
    }
}

/// Relies on `base64::engine::general_purpose::STANDARD.decode`, which accepts
/// only the standard alphabet with canonical padding.
#[verifier::external_body]
fn base64_decode(text: &str) -> (r: Option<Vec<u8>>)
    ensures
        r matches Some(d) ==> base64_decoded(text@) == Some(d@),
        r is None ==> base64_decoded(text@) is None,
{
    base64::engine::general_purpose::STANDARD.decode(text).ok()
}

/// Relies on `base64::engine::general_purpose::STANDARD.encode`: padded output
/// of `4 * ceil(n / 3)` characters, which the same engine decodes back.
#[verifier::external_body]
fn base64_encode(bytes: &[u8]) -> (r: String)
    requires
        bytes@.len() <= PAYLOAD_LIMIT + 64,
    ensures
        r@ == base64_encoded(bytes@),
        r@.len() == encoded_len(bytes@.len() as nat),
        base64_decoded(r@) == Some(bytes@),
{
    base64::engine::general_purpose::STANDARD.encode(bytes)
}

/// Decodes `text`, refusing malformed encodings and payloads over `max` bytes.
pub fn decode(text: &str, max: usize) -> (r: Result<Vec<u8>, DecodeIssue>)
    requires
        max <= PAYLOAD_LIMIT,
    ensures
        r matches Ok(b) ==> decode_spec(text@, max as nat) == Ok::<Seq<u8>, DecodeIssue>(b@),
        r matches Err(e) ==> decode_spec(text@, max as nat) == Err::<Seq<u8>, DecodeIssue>(e),
{
    let n: usize = text.unicode_len();
    let bound: usize = 4 * ((max + 2) / 3);
    if n > bound {
        return Err(DecodeIssue::TooLarge);
    }
    match base64_decode(text) {
        None => Err(DecodeIssue::Malformed),
        Some(b) => {
            if b.len() > max {
                Err(DecodeIssue::TooLarge)
            } else {
                Ok(b)
            }
        },
    }
}

/// Encodes `bytes` as padded standard base64.
pub fn encode(bytes: &[u8]) -> (r: String)
    requires
        bytes@.len() <= PAYLOAD_LIMIT + 64,
    ensures
        r@ == base64_encoded(bytes@),
        r@.len() == encoded_len(bytes@.len() as nat),
        base64_decoded(r@) == Some(bytes@),
{
    base64_encode(bytes)
}

} // verus!
