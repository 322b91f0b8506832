//! Text fields: bytes that must be valid UTF-8.
use vstd::prelude::*;
use vstd::utf8::{decode_utf8, valid_utf8};

verus! {

/// Relies on std::str::from_utf8: it succeeds exactly on valid UTF-8, and the
/// string it returns holds the decoded characters.
#[verifier::external_body]
fn utf8_str(b: &[u8]) -> (r: Option<&str>)
    ensures
        r is Some <==> valid_utf8(b@),
        r matches Some(t) ==> t@ == decode_utf8(b@),
{
    match std::str::from_utf8(b) {
        Ok(t) => Some(t),
        Err(_) => None,
    }
}

/// Decodes `b` as UTF-8 text; `None` where it is not valid UTF-8.
pub fn utf8_text(b: &[u8]) -> (r: Option<String>)
    ensures
        r is Some <==> valid_utf8(b@),
        r matches Some(t) ==> t@ == decode_utf8(b@),
{
    match utf8_str(b) {
        Some(t) => Some(t.to_owned()),
        None => None,
    }
}

} // verus!
