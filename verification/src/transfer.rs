//! Download and delete: both act on one file path and draw the one
//! distinction the server ever reports precisely, an absent file against
//! any other filesystem failure.

use vstd::prelude::*;
use vstd::string::StringExecFns;
use crate::models::DownloadFileRequest;
use crate::response::{ApiError, FsError};

verus! {

/// A successful download: the bytes of the file and the headers that ship
/// it as a binary attachment.
pub struct DownloadResponse {
    pub content_type: String,
    pub content_disposition: String,
    pub body: Vec<u8>,
}

/// Turns the outcome of reading the requested file into the response: the
/// full bytes as an attachment whose suggested filename is the requested
/// path string exactly as given (no basename extraction); an absent file
/// is not-found, any other read failure an internal error.
pub fn download_file(req: &DownloadFileRequest, read: Result<Vec<u8>, FsError>) -> (r: Result<
    DownloadResponse,
    ApiError,
>)
    ensures
        read is Ok <==> r is Ok,
        r is Ok ==> r->Ok_0.body@ == read->Ok_0@,
        r is Ok ==> r->Ok_0.content_type@ == "application/octet-stream"@,
        r is Ok ==> r->Ok_0.content_disposition@ == "attachment; filename=\""@ + req.file_path@
            + "\""@,
        read matches Err(e) ==> r is Err && r->Err_0 == (if e == FsError::NotFound {
            ApiError::NotFound
        } else {
            ApiError::Internal
        }),
{
    match read {
        Ok(bytes) => {
            let mut disposition = "attachment; filename=\"".to_owned();
            disposition.append(req.file_path.as_str());
            disposition.append("\"");
            Ok(
                DownloadResponse {
                    content_type: "application/octet-stream".to_owned(),
                    content_disposition: disposition,
                    body: bytes,
                },
            )
        },
        Err(FsError::NotFound) => Err(ApiError::NotFound),
        Err(FsError::Other) => Err(ApiError::Internal),
    }
}

/// Turns the outcome of removing the requested file into the response: a
/// fixed success message, not-found for an absent file, an internal error
/// for any other failure (a directory, for one, cannot be removed this
/// way and surfaces here).
pub fn delete_file(outcome: Result<(), FsError>) -> (r: Result<String, ApiError>)
    ensures
        outcome is Ok <==> r is Ok,
        r is Ok ==> r->Ok_0@ == "File deleted successfully"@,
        outcome matches Err(e) ==> r is Err && r->Err_0 == (if e == FsError::NotFound {
            ApiError::NotFound
        } else {
            ApiError::Internal
        }),
{
    match outcome {
        Ok(()) => Ok("File deleted successfully".to_owned()),
        Err(FsError::NotFound) => Err(ApiError::NotFound),
        Err(FsError::Other) => Err(ApiError::Internal),
    }
}

} // verus!
