//! Errors of calls to the Exact Online API.

use vstd::prelude::*;
use crate::http::reqwest_error_text;
use crate::text::{decimal, u64_to_decimal};

verus! {

/// Errors of a call to the Exact Online API.
pub enum ExactError {
    /// The request could not be sent or its answer not read.
    Reqwest(reqwest::Error),
    BadRequest,
    Forbidden,
    NotFound,
    Timeout,
    Ratelimit,
    ServiceUnavailable,
    /// Any other unsuccessful status.
    Other(u16),
}

pub type ExactResult<T> = Result<T, ExactError>;

/// The text of an error other than `Reqwest`.
pub open spec fn exact_error_message(e: ExactError) -> Seq<char> {
    match e {
        ExactError::Reqwest(_) => "Request error: "@,
        ExactError::BadRequest => "Bad Request"@,
        ExactError::Forbidden => "Forbidden"@,
        ExactError::NotFound => "Not found"@,
        ExactError::Timeout => "Timeout"@,
        ExactError::Ratelimit => "Rate limit"@,
        ExactError::ServiceUnavailable => "Service unavailable"@,
        ExactError::Other(v) => "Other error with status: "@ + decimal(v as nat),
    }
}

impl ExactError {
    /// The error's text. For `Reqwest` it is `"Request error: "` followed by
    /// reqwest's own text of the error.
    pub fn message(&self) -> (m: String)
        ensures
            !(self is Reqwest) ==> m@ == exact_error_message(*self),
            self is Reqwest ==> m@.len() >= "Request error: "@.len() && m@.subrange(
                0,
                "Request error: "@.len() as int,
            ) == "Request error: "@,
    {
        match self {
            ExactError::Reqwest(e) => {
                let mut m = String::from_str("Request error: ");
                let t = reqwest_error_text(e);
                m.append(t.as_str());
                assert(m@.subrange(0, "Request error: "@.len() as int) =~= "Request error: "@);
                m
            },
            ExactError::BadRequest => String::from_str("Bad Request"),
            ExactError::Forbidden => String::from_str("Forbidden"),
            ExactError::NotFound => String::from_str("Not found"),
            ExactError::Timeout => String::from_str("Timeout"),
            ExactError::Ratelimit => String::from_str("Rate limit"),
            ExactError::ServiceUnavailable => String::from_str("Service unavailable"),
            ExactError::Other(v) => {
                let mut m = String::from_str("Other error with status: ");
                let d = u64_to_decimal(*v as u64);
                m.append(d.as_str());
                m
            },
        }
    }
}

} // verus!
