use vstd::prelude::*;

verus! {

/// Where the service finds the authorization services.
#[derive(Debug, Clone, PartialEq)]
pub struct Config {
    pub exactauth_host: String,
    pub mrauth_host: String,
}

} // verus!
