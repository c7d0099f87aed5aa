//! The request bodies of the endpoints. The I/O layer decodes JSON (or a
//! multipart form) into these plain values before any handler logic runs.

use vstd::prelude::*;

verus! {

/// Body of a listing request: the directory to list, defaulting to the
/// current directory when absent.
pub struct GetListFileAndFolderRequest {
    pub path: Option<String>,
}

/// Shape of an upload form: an optional target folder path and the file
/// content. Uploads actually arrive as a multipart stream of parts; this
/// struct documents the form's fields.
pub struct UploadFileRequest {
    pub path: Option<String>,
    pub file: String,
}

/// Body of a folder-creation request: the base path and the name of the
/// one folder level to create inside it.
pub struct CreateFolderRequest {
    pub path: String,
    pub folder_name: String,
}

/// Body of a download request: the path of the file to return.
pub struct DownloadFileRequest {
    pub file_path: String,
}

/// Body of a delete request: the path of the file to remove.
pub struct DeleteFileRequest {
    pub file_path: String,
}

/// Body of a folder-rename request: the current path and the new one.
pub struct RenameFolderRequest {
    pub folder_name: String,
    pub new_folder_name: String,
}

/// Body of a search request: the free-text query.
pub struct SearchRequest {
    pub query: String,
}

/// Body of a sorted-listing request: the directory to list, defaulting to
/// the current directory when absent.
pub struct SortOptionRequest {
    pub option: Option<String>,
}

} // verus!
