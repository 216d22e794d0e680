//! Errors of the web service and the answers they turn into.

use vstd::prelude::*;
use crate::requests::error::{exact_error_message, ExactError};

verus! {

/// What went wrong in the authorization client.
#[derive(Debug, Clone, Copy, PartialEq, Eq)]
pub enum AuthClientErrorKind {
    /// The authorization service could not be reached.
    Reqwest,
    UnknownToken,
    MissingScopes,
    ProtocolError,
    EncodeDecodeError,
}

/// An error of the authorization client, with its text.
pub struct AuthClientError {
    pub kind: AuthClientErrorKind,
    pub message: String,
}

/// A request that the authorization layer turned away, with the status of
/// the answer that it gives.
pub struct AuthRejection {
    pub status: u16,
}

/// An error of the Exact authorization client, with its text.
pub struct ExactAuthError {
    pub message: String,
}

/// Errors of the web service.
pub enum WebError {
    AuthClient(AuthClientError),
    AuthError(AuthRejection),
    ExactAuthClient(ExactAuthError),
    ExactApi(ExactError),
    NotFound,
    BadRequest,
    BadRequestMsg(String),
}

pub type WebResult<T> = Result<T, WebError>;

pub const STATUS_BAD_REQUEST: u16 = 400;
pub const STATUS_FORBIDDEN: u16 = 403;
pub const STATUS_NOT_FOUND: u16 = 404;
pub const STATUS_TOO_MANY_REQUESTS: u16 = 429;
pub const STATUS_INTERNAL_SERVER_ERROR: u16 = 500;
pub const STATUS_BAD_GATEWAY: u16 = 502;

/// The status that an error of the Exact API is answered with.
pub open spec fn exact_error_status(e: ExactError) -> u16 {
    match e {
        ExactError::NotFound => STATUS_NOT_FOUND,
        ExactError::Reqwest(_) => STATUS_BAD_GATEWAY,
        ExactError::Forbidden => STATUS_FORBIDDEN,
        ExactError::Ratelimit => STATUS_TOO_MANY_REQUESTS,
        ExactError::Timeout => STATUS_BAD_GATEWAY,
        ExactError::ServiceUnavailable => STATUS_BAD_GATEWAY,
        ExactError::BadRequest => STATUS_INTERNAL_SERVER_ERROR,
        ExactError::Other(_) => STATUS_BAD_GATEWAY,
    }
}

/// The status that an error of the authorization client is answered with.
pub open spec fn auth_client_status(k: AuthClientErrorKind) -> u16 {
    match k {
        AuthClientErrorKind::Reqwest => STATUS_BAD_GATEWAY,
        AuthClientErrorKind::UnknownToken => STATUS_FORBIDDEN,
        AuthClientErrorKind::MissingScopes => STATUS_FORBIDDEN,
        AuthClientErrorKind::ProtocolError => STATUS_INTERNAL_SERVER_ERROR,
        AuthClientErrorKind::EncodeDecodeError => STATUS_INTERNAL_SERVER_ERROR,
    }
}

/// The status that an error is answered with.
pub open spec fn error_status(e: WebError) -> u16 {
    match e {
        WebError::AuthError(r) => r.status,
        WebError::NotFound => STATUS_NOT_FOUND,
        WebError::BadRequest => STATUS_BAD_REQUEST,
        WebError::BadRequestMsg(_) => STATUS_BAD_REQUEST,
        WebError::ExactAuthClient(_) => STATUS_BAD_GATEWAY,
        WebError::AuthClient(a) => auth_client_status(a.kind),
        WebError::ExactApi(x) => exact_error_status(x),
    }
}

/// The text of an error (for an Exact API error that failed in reqwest, the
/// part before reqwest's own text).
pub open spec fn error_message(e: WebError) -> Seq<char> {
    match e {
        WebError::AuthClient(a) => "Authorization error: "@ + a.message@,
        WebError::AuthError(_) => "Authorization failed"@,
        WebError::ExactAuthClient(x) => "Exact authorization client error: "@ + x.message@,
        WebError::ExactApi(x) => "Exact API error: "@ + exact_error_message(x),
        WebError::NotFound => "Not found"@,
        WebError::BadRequest => "Bad request"@,
        WebError::BadRequestMsg(m) => "Bad request: "@ + m@,
    }
}

/// How an error is answered.
pub enum ErrorResponse {
    /// With the answer that the authorization layer builds for its own
    /// rejection.
    Delegated,
    /// With this status and the error's text as the body.
    Plain { status: u16, body: String },
}

/// Whether an error is an Exact API error that failed in reqwest.
pub open spec fn is_transport_error(e: WebError) -> bool {
    e matches WebError::ExactApi(ExactError::Reqwest(_))
}

/// The status that each error is answered with: the rejection's own status
/// for an authorization rejection; 404 for not found; 400 for a bad request;
/// 502 for the Exact authorization client; for the authorization client, 502
/// when unreachable, 403 for an unknown token or missing scopes, 500 for a
/// protocol or encoding error; for the Exact API, 404 for not found, 403 for
/// forbidden, 429 for the rate limit, 500 for a bad request, 502 otherwise.
pub open spec fn status_table(e: WebError, s: u16) -> bool {
    match e {
        WebError::AuthError(r) => s == r.status,
        WebError::NotFound => s == 404,
        WebError::BadRequest => s == 400,
        WebError::BadRequestMsg(_) => s == 400,
        WebError::ExactAuthClient(_) => s == 502,
        WebError::AuthClient(a) => match a.kind {
            AuthClientErrorKind::Reqwest => s == 502,
            AuthClientErrorKind::UnknownToken => s == 403,
            AuthClientErrorKind::MissingScopes => s == 403,
            AuthClientErrorKind::ProtocolError => s == 500,
            AuthClientErrorKind::EncodeDecodeError => s == 500,
        },
        WebError::ExactApi(x) => match x {
            ExactError::NotFound => s == 404,
            ExactError::Forbidden => s == 403,
            ExactError::Ratelimit => s == 429,
            ExactError::BadRequest => s == 500,
            ExactError::Reqwest(_) => s == 502,
            ExactError::Timeout => s == 502,
            ExactError::ServiceUnavailable => s == 502,
            ExactError::Other(_) => s == 502,
        },
    }
}

/// Every error is answered with the status that [`status_table`] gives it.
pub proof fn lemma_error_status_table(e: WebError)
    ensures
        status_table(e, error_status(e)),
{
}

impl WebError {
    /// The status that the error is answered with.
    pub fn status_code(&self) -> (s: u16)
        ensures
            s == error_status(*self),
            status_table(*self, s),
    {
        match self {
            WebError::AuthError(r) => r.status,
            WebError::NotFound => STATUS_NOT_FOUND,
            WebError::BadRequest | WebError::BadRequestMsg(_) => STATUS_BAD_REQUEST,
            WebError::ExactAuthClient(_) => STATUS_BAD_GATEWAY,
            WebError::AuthClient(a) => match a.kind {
                AuthClientErrorKind::Reqwest => STATUS_BAD_GATEWAY,
                AuthClientErrorKind::UnknownToken | AuthClientErrorKind::MissingScopes => {
                    STATUS_FORBIDDEN
                },
                AuthClientErrorKind::ProtocolError | AuthClientErrorKind::EncodeDecodeError => {
                    STATUS_INTERNAL_SERVER_ERROR
                },
            },
            WebError::ExactApi(x) => match x {
                ExactError::NotFound => STATUS_NOT_FOUND,
                ExactError::Reqwest(_) => STATUS_BAD_GATEWAY,
                ExactError::Forbidden => STATUS_FORBIDDEN,
                ExactError::Ratelimit => STATUS_TOO_MANY_REQUESTS,
                ExactError::Timeout => STATUS_BAD_GATEWAY,
                ExactError::ServiceUnavailable => STATUS_BAD_GATEWAY,
                ExactError::BadRequest => STATUS_INTERNAL_SERVER_ERROR,
                ExactError::Other(_) => STATUS_BAD_GATEWAY,
            },
        }
    }

    /// The error's text. For an Exact API error that failed in reqwest, the
    /// text starts as [`error_message`] says and goes on with reqwest's text.
    pub fn message(&self) -> (m: String)
        ensures
            !is_transport_error(*self) ==> m@ == error_message(*self),
            is_transport_error(*self) ==> m@.len() >= error_message(*self).len() && m@.subrange(
                0,
                error_message(*self).len() as int,
            ) == error_message(*self),
    {
        match self {
            WebError::AuthClient(a) => {
                let mut m = String::from_str("Authorization error: ");
                m.append(a.message.as_str());
                m
            },
            WebError::AuthError(_) => String::from_str("Authorization failed"),
            WebError::ExactAuthClient(x) => {
                let mut m = String::from_str("Exact authorization client error: ");
                m.append(x.message.as_str());
                m
            },
            WebError::ExactApi(x) => {
                let mut m = String::from_str("Exact API error: ");
                let inner = x.message();
                m.append(inner.as_str());
                proof {
                    let p = "Exact API error: "@;
                    if x is Reqwest {
                        let q = exact_error_message(*x);
                        assert(m@.subrange(0, (p.len() + q.len()) as int) =~= p + q) by {
                            assert(m@ =~= p + inner@);
                            assert(inner@.subrange(0, q.len() as int) == q);
                        }
                    }
                }
                m
            },
            WebError::NotFound => String::from_str("Not found"),
            WebError::BadRequest => String::from_str("Bad request"),
            WebError::BadRequestMsg(msg) => {
                let mut m = String::from_str("Bad request: ");
                m.append(msg.as_str());
                m
            },
        }
    }

    /// How the error is answered: an authorization rejection with its own
    /// answer, any other error with its status and its text.
    pub fn error_response(&self) -> (r: ErrorResponse)
        ensures
            self is AuthError ==> r is Delegated,
            !(self is AuthError) ==> (r matches ErrorResponse::Plain { status, body } && status
                == error_status(*self) && (!is_transport_error(*self) ==> body@ == error_message(
                *self,
            )) && (is_transport_error(*self) ==> body@.len() >= error_message(*self).len()
                && body@.subrange(0, error_message(*self).len() as int) == error_message(*self))),
    {
        match self {
            WebError::AuthError(_) => ErrorResponse::Delegated,
            _ => ErrorResponse::Plain { status: self.status_code(), body: self.message() },
        }
    }
}

} // verus!
