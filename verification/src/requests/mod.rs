//! Requests against the Exact Online REST API: paths, status handling,
//! paging and the records that come back.

pub mod accounts;
pub mod contact;
pub mod error;
pub mod filter;
pub mod me;

use vstd::prelude::*;
use crate::http::{build_client, HttpClient};
use crate::requests::error::{ExactError, ExactResult};

verus! {

/// Host that every Exact Online API path is relative to.
pub const BASE_URI: &'static str = "https://start.exactonline.nl";

/// The characters of [`BASE_URI`].
pub open spec fn base_uri() -> Seq<char> {
    BASE_URI@
}

/// A handle on the Exact Online API for one access token.
pub struct Api {
    token: String,
}

impl Api {
    /// The access token that requests carry.
    pub closed spec fn token_view(&self) -> Seq<char> {
        self.token@
    }

    pub fn new(token: String) -> (api: Api)
        ensures
            api.token_view() == token@,
    {
        Api { token }
    }

    /// The access token, sent as the bearer of every request.
    pub fn token(&self) -> (t: &String)
        ensures
            t@ == self.token_view(),
    {
        &self.token
    }
}

/// The full URL of an API path.
pub fn get_path(path: &str) -> (url: String)
    ensures
        url@ == base_uri() + path@,
{
    let mut url = String::from_str(BASE_URI);
    url.append(path);
    url
}

/// Whether an HTTP status is a success (2xx).
pub open spec fn is_success(status: u16) -> bool {
    200 <= status <= 299
}

/// The error that an unsuccessful status stands for.
pub open spec fn status_error(status: u16) -> ExactError {
    if status == 400 {
        ExactError::BadRequest
    } else if status == 403 {
        ExactError::Forbidden
    } else if status == 404 {
        ExactError::NotFound
    } else if status == 408 {
        ExactError::Timeout
    } else if status == 429 {
        ExactError::Ratelimit
    } else if status == 503 {
        ExactError::ServiceUnavailable
    } else {
        ExactError::Other(status)
    }
}

/// Whether `r` is the outcome that Exact's status `status` stands for: `Ok`
/// exactly for 200 to 299; `BadRequest` exactly for 400, `Forbidden` for 403,
/// `NotFound` for 404, `Timeout` for 408, `Ratelimit` for 429,
/// `ServiceUnavailable` for 503; `Other` with the status itself for every
/// other status.
pub open spec fn status_outcome(status: u16, r: ExactResult<()>) -> bool {
    &&& (r is Ok <==> 200 <= status <= 299)
    &&& (r matches Err(ExactError::BadRequest) <==> status == 400)
    &&& (r matches Err(ExactError::Forbidden) <==> status == 403)
    &&& (r matches Err(ExactError::NotFound) <==> status == 404)
    &&& (r matches Err(ExactError::Timeout) <==> status == 408)
    &&& (r matches Err(ExactError::Ratelimit) <==> status == 429)
    &&& (r matches Err(ExactError::ServiceUnavailable) <==> status == 503)
    &&& (!(200 <= status <= 299) && status != 400 && status != 403 && status != 404 && status
        != 408 && status != 429 && status != 503) ==> r == Err::<(), ExactError>(
        ExactError::Other(status),
    )
    &&& !(r is Err && r->Err_0 is Reqwest)
}

/// The error that a status stands for is the one [`status_outcome`] names.
pub proof fn lemma_status_error_table(status: u16)
    requires
        !is_success(status),
    ensures
        status_outcome(status, Err(status_error(status))),
{
}

/// Accepts a response status: `Ok` for a success, else the error that the
/// status stands for.
pub fn check_status(status: u16) -> (r: ExactResult<()>)
    ensures
        is_success(status) ==> r is Ok,
        !is_success(status) ==> r == Err::<(), ExactError>(status_error(status)),
        status_outcome(status, r),
{
    if 200 <= status && status <= 299 {
        return Ok(());
    }
    match status {
        400 => Err(ExactError::BadRequest),
        403 => Err(ExactError::Forbidden),
        404 => Err(ExactError::NotFound),
        408 => Err(ExactError::Timeout),
        429 => Err(ExactError::Ratelimit),
        503 => Err(ExactError::ServiceUnavailable),
        v => Err(ExactError::Other(v)),
    }
}

/// The user agent that requests to Exact carry, for a release `version`.
pub open spec fn user_agent_text(version: Seq<char>) -> Seq<char> {
    "MrFriendly ExactAPI v"@ + version
}

/// The user agent that requests to Exact carry, for a release `version`.
pub fn user_agent(version: &str) -> (ua: String)
    ensures
        ua@ == user_agent_text(version@),
{
    let mut ua = String::from_str("MrFriendly ExactAPI v");
    ua.append(version);
    ua
}

/// An HTTP client that sends the user agent of release `version`. A failure
/// to build one is a `Reqwest` error.
pub fn client(version: &str) -> (r: Result<HttpClient, ExactError>)
    ensures
        r is Err ==> r->Err_0 is Reqwest,
        r matches Ok(c) ==> c.user_agent() == user_agent_text(version@),
{
    let ua = user_agent(version);
    match build_client(ua.as_str()) {
        Ok(c) => Ok(c),
        Err(e) => Err(ExactError::Reqwest(e)),
    }
}

/// The JSON envelope of an Exact answer: `{ "d": { "results": [...] } }`.
pub struct ExactResponse<T> {
    pub d: ResponseData<T>,
}

/// The body of an Exact answer: one page of records, and the link to the
/// next page where there is one.
pub struct ResponseData<T> {
    pub results: Vec<T>,
    pub next: Option<String>,
}

impl<T> ExactResponse<T> {
    /// The records of the answer.
    pub fn into_results(self) -> (r: Vec<T>)
        ensures
            r@ == self.d.results@,
    {
        self.d.results
    }
}

} // verus!
