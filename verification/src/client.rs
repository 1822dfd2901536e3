//! Client configuration handed to every dispatch: the service host and the
//! bearer token.  The transport connection itself lives outside this crate
//! and receives a fully prepared request.

use vstd::prelude::*;

verus! {

/// Configuration used to aim and authenticate every request.
#[derive(Debug, Clone, PartialEq, Eq)]
pub struct Client {
    /// Service host, without a scheme prefix.
    pub host: String,
    /// API key placed in the bearer authorization header.
    pub authentication: String,
}

impl Client {
    pub fn new(host: String, authentication: String) -> (r: Client)
        ensures
            r.host@ == host@,
            r.authentication@ == authentication@,
    {
        Client { host, authentication }
    }
}

} // verus!
