//! Client library of the web service: URLs of its routes and the decoding of
//! its answers.

pub mod account;
pub mod contact;
pub mod error;

use vstd::prelude::*;
use crate::http::{build_client, HttpClient};

verus! {

/// A client of the web service at `base_url`.
#[derive(Clone)]
pub struct ExactApiClient {
    base_url: String,
    client: HttpClient,
}

impl ExactApiClient {
    /// The address of the web service.
    pub closed spec fn base_url_view(&self) -> Seq<char> {
        self.base_url@
    }

    /// A client of the service at `base_url` whose requests carry
    /// `user_agent`; the error of `reqwest` where no HTTP client can be built.
    pub fn new(base_url: String, user_agent: &str) -> (r: Result<ExactApiClient, reqwest::Error>)
        ensures
            r is Ok ==> r->Ok_0.base_url_view() == base_url@,
            r is Ok ==> r->Ok_0.http_client().user_agent() == user_agent@,
    {
        match build_client(user_agent) {
            Ok(client) => Ok(ExactApiClient { base_url, client }),
            Err(e) => Err(e),
        }
    }

    /// The URL of a path of the service.
    pub fn get_url(&self, path: &str) -> (url: String)
        ensures
            url@ == self.base_url_view() + path@,
    {
        let mut url = self.base_url.clone();
        url.append(path);
        url
    }

    /// The HTTP client that this value holds.
    pub closed spec fn http_client(&self) -> HttpClient {
        self.client
    }

    /// The HTTP client that requests go through: the one this value holds,
    /// which sends the user agent it was made with.
    pub fn http(&self) -> (c: &reqwest::Client)
        ensures
            *c == self.http_client().reqwest_client(),
    {
        self.client.inner()
    }
}

/// The query part of a list URL: `?` and the serialized filter, or nothing.
pub open spec fn query_suffix(serialized: Option<Seq<char>>) -> Seq<char> {
    match serialized {
        Some(s) => "?"@ + s,
        None => Seq::<char>::empty(),
    }
}

/// The query part of a list URL, as [`query_suffix`] says.
pub fn query_suffix_exec(serialized: Option<&str>) -> (q: String)
    ensures
        q@ == query_suffix(crate::requests::accounts::opt_view(serialized)),
{
    match serialized {
        Some(s) => {
            let mut q = String::from_str("?");
            q.append(s);
            q
        },
        None => String::new(),
    }
}

} // verus!
