//! Removing a file locally and in the cloud.
use vstd::prelude::*;
use crate::cloud::{first_named, find_named, item_views, status_error, CloudItem};
use crate::error::{ErrorCode, VfsError, VfsResult};
use crate::read::file_missing_message;
use crate::text::{concat, signed_decimal};

verus! {

/// The id of the file `name` in the listing of its folder: that of the first
/// item of that name ("" if it has none); `PathNotFound` when no item has
/// that name; the listing's error when it failed.
pub fn remote_file_id(listing: VfsResult<Vec<CloudItem>>, name: &str) -> (r: VfsResult<String>)
    ensures
        match listing {
            Err(e) => r == Err::<String, VfsError>(e),
            Ok(items) => match first_named(item_views(items@), name@) {
                Some(i) => (r matches Ok(id) && Some(id@) == match item_views(items@)[i].id {
                    Some(x) => Some(x),
                    None => Some(Seq::<char>::empty()),
                }),
                None => (r matches Err(e) && e.code == ErrorCode::PathNotFound
                    && e.message@ == file_missing_message(name@)),
            },
        },
{
    let items = listing?;
    proof {
        crate::cloud::lemma_first_named_found(item_views(items@), name@);
    }
    match find_named(&items, name) {
        Some(i) => {
            proof {
                assert(item_views(items@)[i as int] == items@[i as int]@);
            }
            match &items[i].id {
                Some(x) => Ok(x.clone()),
                None => Ok(String::new()),
            }
        },
        None => {
            let head = concat("File '", name);
            let message = concat(head.as_str(), "' not found in cloud");
            Err(VfsError { code: ErrorCode::PathNotFound, message })
        },
    }
}

/// Whether a delete request succeeded: status 200 or 204; any other status
/// is a `NetworkError`.
pub fn delete_status(status: i32) -> (r: VfsResult<bool>)
    ensures
        (status == 200 || status == 204) ==> r == Ok::<bool, VfsError>(true),
        !(status == 200 || status == 204) ==> (r matches Err(e) && e.code == ErrorCode::NetworkError
            && e.message@ == "Delete failed with status: "@ + signed_decimal(status as int)),
{
    if status != 204 && status != 200 {
        return Err(status_error("Delete failed with status: ", status));
    }
    Ok(true)
}

/// Whether the cloud copy counts as deleted: a failed deletion counts as not deleted.
pub fn cloud_deleted(outcome: VfsResult<bool>) -> (r: bool)
    ensures
        r == (outcome == Ok::<bool, VfsError>(true)),
{
    match outcome {
        Ok(b) => b,
        Err(_) => false,
    }
}

/// A removal succeeds when either copy was deleted.
pub fn rm_outcome(local_deleted: bool, cloud_deleted: bool) -> (r: bool)
    ensures
        r == (local_deleted || cloud_deleted),
{
    local_deleted || cloud_deleted
}

} // verus!
