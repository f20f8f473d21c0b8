//! Paginated retrieval of a channel's video metadata and its export as a
//! comma-separated table.
//!
//! The library holds the decisions: how a request is addressed, what each
//! response means for the fetch, how a response body is read, and what the
//! exported table contains. Network and file access belong to the caller.

pub mod json;
pub mod video;
pub mod error;
pub mod page;
pub mod fetch;
pub mod replay;
pub mod export;
pub mod outcome;
