//! Session handlers: they answer without touching any session.

use crate::models::{ApiResponse, Status};
use vstd::prelude::*;

verus! {

/// Ends the session `uuid`: answers 204 No Content.
pub fn delete_session(uuid: String) -> (r: ApiResponse<Status>)
    ensures
        r matches Ok(s) && s.code == 204,
{
    Ok(Status::no_content())
}

/// Ends every other session: answers 204 No Content.
pub fn delete_sessions() -> (r: ApiResponse<Status>)
    ensures
        r matches Ok(s) && s.code == 204,
{
    Ok(Status::no_content())
}

/// Lists the sessions: answers 200 OK.
pub fn get_sessions() -> (r: ApiResponse<Status>)
    ensures
        r matches Ok(s) && s.code == 200,
{
    Ok(Status::ok())
}

/// Refreshes a session with `refresh_token`: answers 200 OK.
pub fn refresh_session(refresh_token: String) -> (r: ApiResponse<Status>)
    ensures
        r matches Ok(s) && s.code == 200,
{
    Ok(Status::ok())
}

} // verus!
