//! The request handlers and the answers to failed requests.

pub mod auth;
pub mod session;
pub mod sync;

use crate::models::{ApiError, ApiResponse, SyncResponse};
use vstd::prelude::*;

verus! {

/// An error with the one message `error_message`.
pub fn build_api_error(error_message: &str) -> (e: ApiError)
    ensures
        e.messages() == seq![error_message@],
{
    let mut errors: Vec<String> = Vec::new();
    errors.push(error_message.to_owned());
    let e = ApiError { errors };
    assert(e.messages() =~= seq![error_message@]);
    e
}

/// The answer to a request that could not be understood (400).
pub fn bad_request() -> (r: ApiResponse<SyncResponse>)
    ensures
        r matches Err(e) && e.messages() == seq!["Bad request"@],
{
    Err(build_api_error("Bad request"))
}

/// The answer to a request that could not be authenticated (401).
pub fn unauthorized() -> (r: ApiResponse<SyncResponse>)
    ensures
        r matches Err(e) && e.messages() == seq!["Unauthorized"@],
{
    Err(build_api_error("Unauthorized"))
}

/// The answer to a request for which there is no route (404).
pub fn not_found() -> (r: ApiResponse<SyncResponse>)
    ensures
        r matches Err(e) && e.messages() == seq!["Not found"@],
{
    Err(build_api_error("Not found"))
}

/// The answer to a request that failed on the server (500).
pub fn server_error() -> (r: ApiResponse<SyncResponse>)
    ensures
        r matches Err(e) && e.messages() == seq!["Server error"@],
{
    Err(build_api_error("Server error"))
}

} // verus!
