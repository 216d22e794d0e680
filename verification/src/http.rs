//! The HTTP client type of `reqwest`, and building one.

use vstd::prelude::*;

verus! {

#[verifier::external_type_specification]
#[verifier::external_body]
pub struct ExReqwestClient(reqwest::Client);

#[verifier::external_type_specification]
#[verifier::external_body]
pub struct ExReqwestError(reqwest::Error);

/// `reqwest::Client::clone`: a handle on the same connection pool. Nothing
/// is stated of the copy, which is as opaque as the client itself.
pub assume_specification[ <reqwest::Client as std::clone::Clone>::clone ](client: &reqwest::Client) -> reqwest::Client;

/// An HTTP client of `reqwest`, with the user agent that every request it
/// sends carries.
#[derive(Clone)]
pub struct HttpClient {
    client: reqwest::Client,
    user_agent: Ghost<Seq<char>>,
}

impl HttpClient {
    /// The user agent that every request of this client carries.
    pub closed spec fn user_agent(&self) -> Seq<char> {
        self.user_agent@
    }

    /// The `reqwest` client itself.
    pub closed spec fn reqwest_client(&self) -> reqwest::Client {
        self.client
    }

    /// The `reqwest` client that requests go through.
    pub fn inner(&self) -> (c: &reqwest::Client)
        ensures
            *c == self.reqwest_client(),
    {
        &self.client
    }
}

/// Calls `reqwest::Client::builder().user_agent(user_agent).build()`. The
/// builder puts `user_agent` among the default headers that the built client
/// sends with every request, so a built client carries it. Whether building
/// succeeds rests on the header value and on the machine (TLS backend, system
/// proxies), and which error comes back is not stated.
#[verifier::external_body]
pub(crate) fn build_client(user_agent: &str) -> (r: Result<HttpClient, reqwest::Error>)
    ensures
        r matches Ok(c) ==> c.user_agent() == user_agent@,
{
    match reqwest::Client::builder().user_agent(user_agent).build() {
        Ok(client) => Ok(HttpClient { client, user_agent: Ghost(user_agent@) }),
        Err(e) => Err(e),
    }
}

/// Calls `<reqwest::Error as Display>::fmt` through `format!`. What the text
/// says is left to reqwest and not stated.
#[verifier::external_body]
pub(crate) fn reqwest_error_text(e: &reqwest::Error) -> String {
    format!("{}", e)
}

} // verus!
