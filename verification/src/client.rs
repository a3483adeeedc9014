//! The handle for the remote game service. The service itself — HTTP,
//! authentication, pagination — lives outside this crate; the engine only
//! keeps the credential the caller connects with, and fixes the one page
//! request the system list is fetched with.

use vstd::prelude::*;

verus! {

/// A handle on the remote game service, holding the bearer credential the
/// caller authenticates with.
#[derive(Clone, Debug, PartialEq)]
pub struct SpaceTradersClient {
    pub token: String,
}

impl SpaceTradersClient {
    /// Make a handle around the given API credential.
    pub fn new(api_token: String) -> (c: SpaceTradersClient)
        ensures
            c.token == api_token,
    {
        SpaceTradersClient { token: api_token }
    }
}

/// The fixed page request the system list is fetched with: the first page,
/// twenty systems.
pub fn systems_page_request() -> (pr: (i32, i32))
    ensures
        pr.0 == 1,
        pr.1 == 20,
{
    (1, 20)
}

} // verus!
