//! The greeter endpoint: what the gateway answers once the greeter service
//! has replied.

use vstd::prelude::*;
use crate::error::AppError;

verus! {

/// The text that answers a failed greeting call.
pub open spec fn request_error_text() -> Seq<char> {
    "request error"@
}

/// The body of the greeter endpoint's answer: the message of the greeter's
/// reply where the call succeeded, `request error` where it failed.
pub fn greeter_reply(result: Result<String, AppError>) -> (body: String)
    ensures
        match result {
            Ok(m) => body@ == m@,
            Err(_) => body@ == request_error_text(),
        },
{
    match result {
        Ok(message) => message,
        Err(_) => String::from_str("request error"),
    }
}

} // verus!
