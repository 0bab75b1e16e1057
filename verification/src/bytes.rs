//! Turning the bytes of a Redis field into text.
use vstd::prelude::*;
use vstd::utf8::{decode_utf8, valid_utf8};

verus! {

/// What `String::from_utf8_lossy` makes of a byte sequence: the decoded text, with each
/// invalid sequence replaced by U+FFFD.
pub uninterp spec fn lossy_utf8_text(bytes: Seq<u8>) -> Seq<char>;

/// The text `String::from_utf8_lossy` makes of bytes: valid UTF-8 decodes as it is
/// (nothing is replaced), anything else as `lossy_utf8_text` says.
pub open spec fn lossy_decode(bytes: Seq<u8>) -> Seq<char> {
    if valid_utf8(bytes) { decode_utf8(bytes) } else { lossy_utf8_text(bytes) }
}

/// Calls `String::from_utf8_lossy` and takes the result as an owned `String`.
/// Claimed: for valid UTF-8 (the documented case in which nothing is replaced) the
/// text is exactly the decoded text; for other bytes it is `lossy_utf8_text` of them.
#[verifier::external_body]
pub(crate) fn text_from_bytes_lossy(bytes: &[u8]) -> (text: String)
    ensures
        valid_utf8(bytes@) ==> text@ == decode_utf8(bytes@),
        !valid_utf8(bytes@) ==> text@ == lossy_utf8_text(bytes@),
{
    String::from_utf8_lossy(bytes).to_string()
}

/// Calls `String::from_utf8` on a copy of the bytes.
/// Claimed: it succeeds exactly on valid UTF-8, and then gives the decoded text.
#[verifier::external_body]
pub(crate) fn text_from_bytes(bytes: &[u8]) -> (text: Option<String>)
    ensures
        text is Some <==> valid_utf8(bytes@),
        text matches Some(t) ==> t@ == decode_utf8(bytes@),
{
    String::from_utf8(bytes.to_vec()).ok()
}

} // verus!
