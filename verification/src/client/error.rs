//! Errors of the client library.

use vstd::prelude::*;
use crate::http::reqwest_error_text;
use crate::server::error::AuthClientError;

verus! {

#[verifier::external_type_specification]
#[verifier::external_body]
pub struct ExSerdeQsError(serde_qs::Error);

#[verifier::external_type_specification]
#[verifier::external_body]
pub struct ExDecodeError(reqwest_protobuf::DecodeError);

/// Calls `<serde_qs::Error as Display>::fmt` through `format!`. What the
/// text says is left to serde_qs and not stated.
#[verifier::external_body]
fn serde_qs_error_text(e: &serde_qs::Error) -> String {
    format!("{}", e)
}

/// Calls `<reqwest_protobuf::DecodeError as Display>::fmt` through
/// `format!`. What the text says is left to reqwest_protobuf and not stated.
#[verifier::external_body]
fn decode_error_text(e: &reqwest_protobuf::DecodeError) -> String {
    format!("{}", e)
}

/// Errors of a call to the web service.
pub enum ExactApiError {
    Reqwest(reqwest::Error),
    Auth(AuthClientError),
    SerdeQs(serde_qs::Error),
    Decode(reqwest_protobuf::DecodeError),
}

/// The part of an error's text that comes before the text of the error it
/// wraps.
pub open spec fn api_error_prefix(e: ExactApiError) -> Seq<char> {
    match e {
        ExactApiError::Reqwest(_) => "Request error: "@,
        ExactApiError::Auth(_) => "Auth error: "@,
        ExactApiError::SerdeQs(_) => "Serialization error: "@,
        ExactApiError::Decode(_) => "Protobuf decoding error: "@,
    }
}

impl ExactApiError {
    /// The error's text: [`api_error_prefix`], then the text of the error it
    /// wraps (for `Auth`, the text that the authorization error carries).
    pub fn message(&self) -> (m: String)
        ensures
            m@.len() >= api_error_prefix(*self).len(),
            m@.subrange(0, api_error_prefix(*self).len() as int) == api_error_prefix(*self),
            self matches ExactApiError::Auth(a) ==> m@ == api_error_prefix(*self) + a.message@,
    {
        let (mut m, t) = match self {
            ExactApiError::Reqwest(e) => (String::from_str("Request error: "), reqwest_error_text(e)),
            ExactApiError::Auth(a) => (String::from_str("Auth error: "), a.message.clone()),
            ExactApiError::SerdeQs(e) => (String::from_str("Serialization error: "), serde_qs_error_text(e)),
            ExactApiError::Decode(e) => (String::from_str("Protobuf decoding error: "), decode_error_text(e)),
        };
        let ghost p = m@;
        m.append(t.as_str());
        assert(m@.subrange(0, p.len() as int) =~= p);
        m
    }
}

} // verus!
