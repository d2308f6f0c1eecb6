//! HTTP status codes: which ones count as success, and how a failing one is
//! worded. Both answers come from `attohttpc`.

use vstd::prelude::*;
use vstd::string::StringExecFns;

verus! {

/// The text that `Display` writes for the `attohttpc::Error` of kind
/// `StatusCode` that holds the status `code`: the error that
/// `Response::error_for_status` returns for a response with that status.
pub uninterp spec fn status_error_text(code: u16) -> Seq<char>;

/// Whether `code` can be a status code at all: three digits.
pub open spec fn is_status_code(code: u16) -> bool {
    100 <= code <= 999
}

/// Whether `code` is in the success class, 200 to 299.
pub open spec fn is_success(code: u16) -> bool {
    200 <= code < 300
}

/// The reason given for a response that is refused for its status `code`.
pub open spec fn refusal_text(code: u16) -> Seq<char> {
    if is_status_code(code) {
        status_error_text(code)
    } else {
        "Unexpected error."@
    }
}

/// Calls `StatusCode::from_u16` and, on the status it gives,
/// `StatusCode::is_success`.
///
/// Trusted: `from_u16` accepts exactly the numbers 100 to 999, and
/// `is_success` holds exactly of 200 to 299.
#[verifier::external_body]
fn status_is_success(code: u16) -> (ok: Option<bool>)
    ensures
        ok is Some <==> is_status_code(code),
        ok matches Some(success) ==> success == is_success(code),
{
    match attohttpc::StatusCode::from_u16(code) {
        Ok(status) => Some(status.is_success()),
        Err(_) => None,
    }
}

/// Calls `StatusCode::from_u16`, wraps the status it gives in
/// `ErrorKind::StatusCode` as `Response::error_for_status` does, and formats
/// the `attohttpc::Error` made of it with its `Display`.
///
/// Trusted: `from_u16` accepts exactly the numbers 100 to 999, and the text
/// depends on the number alone. What the text says is not stated.
#[verifier::external_body]
fn status_error_message(code: u16) -> (message: Option<String>)
    ensures
        message is Some <==> is_status_code(code),
        message matches Some(text) ==> text@ == status_error_text(code),
{
    match attohttpc::StatusCode::from_u16(code) {
        Ok(status) => Some(attohttpc::Error::from(attohttpc::ErrorKind::StatusCode(status)).to_string()),
        Err(_) => None,
    }
}

/// Whether a response with status `code` is taken: only the success class
/// is, and a number that is no status code is in no class.
pub fn accepts(code: u16) -> (ok: bool)
    ensures
        ok == is_success(code),
{
    match status_is_success(code) {
        Some(success) => success,
        None => false,
    }
}

/// The reason to give for `worded`, the wording of a refused status, if
/// there is one.
pub fn refusal_from(worded: Option<String>) -> (reason: String)
    ensures
        reason@ == match worded {
            Some(text) => text@,
            None => "Unexpected error."@,
        },
{
    match worded {
        Some(text) => text,
        None => String::from_str("Unexpected error."),
    }
}

/// The reason to give when a response is refused for its status `code`.
pub fn refusal(code: u16) -> (reason: String)
    ensures
        reason@ == refusal_text(code),
{
    refusal_from(status_error_message(code))
}

} // verus!
