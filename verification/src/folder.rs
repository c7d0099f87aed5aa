//! Folder management: the target path of a folder creation, the outcome
//! mapping of create and rename, and the search stub.

use vstd::prelude::*;
use crate::models::{CreateFolderRequest, SearchRequest};
use crate::response::{ApiError, FsError};
use crate::text::join_path;

verus! {

/// The single path a folder-creation request asks the filesystem to
/// create: base path and folder name joined by one separator. Exactly one
/// directory level is created there; missing parents are not.
pub fn create_folder_target(req: &CreateFolderRequest) -> (target: String)
    ensures
        target@ == req.path@ + "/"@ + req.folder_name@,
{
    join_path(req.path.as_str(), req.folder_name.as_str())
}

/// Turns the outcome of creating the folder into the response: a fixed
/// success message, and any failure — an already existing target
/// included — folded into one internal error.
pub fn create_folder(outcome: Result<(), FsError>) -> (r: Result<String, ApiError>)
    ensures
        outcome is Ok <==> r is Ok,
        r is Ok ==> r->Ok_0@ == "Success"@,
        r is Err ==> r->Err_0 == ApiError::Internal,
{
    match outcome {
        Ok(()) => Ok("Success".to_owned()),
        Err(_) => Err(ApiError::Internal),
    }
}

/// Turns the outcome of renaming a folder into the response: a fixed
/// success message, and any failure — a missing source, an existing
/// destination, a cross-device move — folded into one internal error.
pub fn rename_folder(outcome: Result<(), FsError>) -> (r: Result<String, ApiError>)
    ensures
        outcome is Ok <==> r is Ok,
        r is Ok ==> r->Ok_0@ == "Success"@,
        r is Err ==> r->Err_0 == ApiError::Internal,
{
    match outcome {
        Ok(()) => Ok("Success".to_owned()),
        Err(_) => Err(ApiError::Internal),
    }
}

/// The search endpoint is a stub: whatever the query, it answers with a
/// fixed placeholder and touches no file.
pub fn search_files(_req: &SearchRequest) -> (r: String)
    ensures
        r@ == "Search results"@,
{
    "Search results".to_owned()
}

} // verus!
