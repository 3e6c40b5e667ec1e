//! The status code and body that a handler answers with.

use vstd::prelude::*;
use actix_web::http::StatusCode;

verus! {

#[verifier::external_type_specification]
#[verifier::external_body]
pub struct ExStatusCode(actix_web::http::StatusCode);

/// The number an HTTP status stands for.
pub uninterp spec fn status_number(s: StatusCode) -> u16;

/// The HTTP status for a numeric code, if it is a valid one.
///
/// Trusted: calls `StatusCode::from_u16`, which fails exactly on codes below
/// 100 or from 1000 on, the failure turned into `None`, and otherwise wraps
/// the number itself, which `status_number` gives back.
#[verifier::external_body]
fn status_code_from_u16(code: u16) -> (r: Option<StatusCode>)
    ensures
        r.is_some() == (100 <= code && code < 1000),
        r matches Some(s) ==> status_number(s) == code,
{
    StatusCode::from_u16(code).ok()
}

/// Whether a number is a valid HTTP status code.
pub open spec fn valid_status(code: u16) -> bool {
    100 <= code && code < 1000
}

/// A handler's answer: the numeric status, the body text, and the HTTP status.
#[derive(Debug)]
pub struct ApiResponse {
    pub status_code: u16,
    pub body: String,
    pub response_code: StatusCode,
}

/// Whether a response has this status, as its number and as the HTTP status it sends, and this body.
pub open spec fn answers(r: ApiResponse, code: u16, body: Seq<char>) -> bool {
    r.status_code == code && status_number(r.response_code) == code && r.body@ == body
}

impl ApiResponse {
    /// A response with this status and body.
    pub fn new(status_code: u16, body: String) -> (r: Self)
        requires
            valid_status(status_code),
        ensures
            answers(r, status_code, body@),
    {
        let response_code = status_code_from_u16(status_code).unwrap();
        ApiResponse { status_code, body, response_code }
    }

    /// A server-error response carrying `response` as its body.
    pub fn new_from_macro(response: String) -> (r: Self)
        ensures
            answers(r, 500, response@),
    {
        let response_code = status_code_from_u16(500).unwrap();
        ApiResponse { status_code: 500, body: response, response_code }
    }
}

} // verus!
