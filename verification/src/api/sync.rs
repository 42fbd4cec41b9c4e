//! The item synchronisation handler.

use crate::api::build_api_error;
use crate::models::{ApiResponse, Item, Sync, SyncResponse};
use vstd::prelude::*;

verus! {

/// Answers a synchronisation request once its items were given to the store:
/// `inserted` is the first stored row, or `None` where the store refused
/// them. On success the client's items are answered as saved; else the
/// request fails with "Error syncing item".
pub fn sync(request: Sync, inserted: Option<Item>) -> (r: ApiResponse<SyncResponse>)
    ensures
        inserted is None ==> (r matches Err(e) && e.messages() == seq!["Error syncing item"@]),
        inserted is Some ==> r == Ok::<SyncResponse, crate::models::ApiError>(SyncResponse {
            retrieved_items: None,
            saved_items: Some(request.items),
            unsaved: None,
            sync_token: None,
        }),
{
    match inserted {
        Some(_item) => Ok(SyncResponse {
            saved_items: Some(request.items),
            retrieved_items: None,
            unsaved: None,
            sync_token: None,
        }),
        None => Err(build_api_error("Error syncing item")),
    }
}

} // verus!
