//! The HTTP transport of the client, from `reqwest`.

use crate::error::Error;
use std::time::Duration;
use vstd::prelude::*;

verus! {

#[verifier::external_type_specification]
#[verifier::external_body]
pub struct ExHttpClient(reqwest::Client);

/// Relies on `reqwest::ClientBuilder`: a client with the given request
/// timeout (milliseconds, as `Duration::from_millis`) and idle-connection
/// limit per host; when building fails, the transport error, keeping
/// `reqwest::Error::is_timeout` and `reqwest::Error::is_connect`.
#[verifier::external_body]
pub fn http_client(timeout_millis: u64, max_idle_per_host: usize) -> (r: Result<reqwest::Client, Error>)
    ensures
        r is Err ==> r->Err_0 is Http,
{
    reqwest::Client::builder().timeout(Duration::from_millis(timeout_millis)).pool_max_idle_per_host(
        max_idle_per_host,
    ).build().map_err(|e| Error::Http { timeout: e.is_timeout(), connect: e.is_connect() })
}

} // verus!
