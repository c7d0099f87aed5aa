//! Core logic of a small HTTP file server: directory listings with kind
//! tags, a sorted listing variant, folder creation and renaming targets,
//! the multipart upload state machine, download/delete outcomes, and the
//! mapping from filesystem failures to HTTP status codes.
//!
//! All filesystem and network I/O lives outside this crate; these functions
//! take the values such I/O produces (directory children, file bytes,
//! success or failure of a filesystem call) and compute the response.

pub mod folder;
pub mod listing;
pub mod models;
pub mod response;
pub mod text;
pub mod transfer;
pub mod upload;
