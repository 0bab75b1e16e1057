//! HTTP status codes, read through `reqwest::StatusCode`.
use vstd::prelude::*;
use crate::text::nat_digits;

verus! {

/// The reason phrase `reqwest::StatusCode` prints after the number: the canonical
/// reason of a registered code, `<unknown status code>` for any other.
pub uninterp spec fn http_reason_phrase(code: u16) -> Seq<char>;

/// Status codes that `reqwest::StatusCode::from_u16` accepts.
pub open spec fn valid_status_code(code: u16) -> bool {
    100 <= code <= 999
}

/// Calls `reqwest::StatusCode::from_u16` and `StatusCode::is_success`.
/// Claimed: codes 100 to 999 are accepted, others refused; an accepted code is a
/// success exactly when it lies in 200..=299, as the source tests.
#[verifier::external_body]
fn reqwest_is_success(code: u16) -> (success: Option<bool>)
    ensures
        success is Some <==> valid_status_code(code),
        success matches Some(s) ==> s == (200 <= code < 300),
{
    let status = reqwest::StatusCode::from_u16(code).ok()?;
    Some(status.is_success())
}

/// Whether a status code is a success (2xx).
pub fn status_is_success(code: u16) -> (success: bool)
    requires
        valid_status_code(code),
    ensures
        success == (200 <= code < 300),
{
    match reqwest_is_success(code) {
        Some(s) => s,
        None => false,
    }
}

/// Calls `reqwest::StatusCode::from_u16` and formats the status with `to_string`.
/// Claimed: codes 100 to 999 are accepted, others refused; the source writes the
/// number, a space and the reason phrase, which is left to `http_reason_phrase`.
#[verifier::external_body]
fn reqwest_status_line(code: u16) -> (line: Option<String>)
    ensures
        line is Some <==> valid_status_code(code),
        line matches Some(l) ==> l@ == nat_digits(code as nat) + seq![' '] + http_reason_phrase(code),
{
    let status = reqwest::StatusCode::from_u16(code).ok()?;
    Some(status.to_string())
}

/// The status line of a code, as `reqwest` prints it: number, space, reason phrase.
pub fn status_line(code: u16) -> (line: String)
    requires
        valid_status_code(code),
    ensures
        line@ == nat_digits(code as nat) + seq![' '] + http_reason_phrase(code),
{
    match reqwest_status_line(code) {
        Some(l) => l,
        None => String::new(),
    }
}

} // verus!
