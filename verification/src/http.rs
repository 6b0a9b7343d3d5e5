//! Response statuses and the error answer that every endpoint may give.

use vstd::prelude::*;

verus! {

/// The HTTP statuses that the endpoints answer with.
#[derive(Clone, Copy, Debug, PartialEq, Eq, Structural)]
pub enum HttpStatus {
    Success,
    Created,
    NoContent,
    BadRequest,
    Unauthorized,
    Forbidden,
    NotFound,
    Conflict,
    InternalServerError,
}

impl HttpStatus {
    pub open spec fn spec_code(&self) -> u16 {
        match self {
            HttpStatus::Success => 200,
            HttpStatus::Created => 201,
            HttpStatus::NoContent => 204,
            HttpStatus::BadRequest => 400,
            HttpStatus::Unauthorized => 401,
            HttpStatus::Forbidden => 403,
            HttpStatus::NotFound => 404,
            HttpStatus::Conflict => 409,
            HttpStatus::InternalServerError => 500,
        }
    }

    /// The numeric status code.
    #[verifier::when_used_as_spec(spec_code)]
    pub fn code(&self) -> (c: u16)
        ensures
            c == self.spec_code(),
    {
        match self {
            HttpStatus::Success => 200,
            HttpStatus::Created => 201,
            HttpStatus::NoContent => 204,
            HttpStatus::BadRequest => 400,
            HttpStatus::Unauthorized => 401,
            HttpStatus::Forbidden => 403,
            HttpStatus::NotFound => 404,
            HttpStatus::Conflict => 409,
            HttpStatus::InternalServerError => 500,
        }
    }
}

/// A refused request: the status and the message sent back as the body.
pub struct ApiError {
    pub status: HttpStatus,
    pub message: String,
}

pub struct ApiErrorView {
    pub status: HttpStatus,
    pub message: Seq<char>,
}

impl View for ApiError {
    type V = ApiErrorView;

    open spec fn view(&self) -> ApiErrorView {
        ApiErrorView { status: self.status, message: self.message@ }
    }
}

pub open spec fn refusal(status: HttpStatus, message: Seq<char>) -> ApiErrorView {
    ApiErrorView { status, message }
}

/// Builds a refusal from a literal message.
pub fn refuse(status: HttpStatus, message: &str) -> (e: ApiError)
    ensures
        e@ == refusal(status, message@),
{
    ApiError { status, message: String::from_str(message) }
}

pub open spec fn internal_error_view() -> ApiErrorView {
    refusal(HttpStatus::InternalServerError, "internal server error"@)
}

/// The answer to a failed database call: a 500 whose body says no more than
/// "internal server error" (the cause goes to the log).
pub fn internal_error() -> (e: ApiError)
    ensures
        e@ == internal_error_view(),
{
    refuse(HttpStatus::InternalServerError, "internal server error")
}

} // verus!
