//! What a run comes to once the fetch is over: whether a table is to be
//! written, and with what content.

use vstd::prelude::*;
use crate::error::{ExportError, FetchError};
use crate::export::{csv_table, write_to_csv};
use crate::video::{VideoItem, item_views};

verus! {

/// The channel whose videos are fetched.
pub const CHANNEL_ID: &'static str = "UCBRxDSTfr2aJVODDh4WG_7g";

/// The environment variable that supplies the API credential.
pub const API_KEY_VARIABLE: &'static str = "YOUTUBE_API_KEY";

/// The path of the file the table is written to.
pub const OUTPUT_PATH: &'static str = "francesco_ciulla_videos.csv";

/// The end of a run.
#[derive(Debug, Clone, PartialEq, Eq)]
pub enum Outcome {
    /// The fetch failed. No file is to be written.
    FetchFailed(FetchError),
    /// The fetch succeeded and found nothing. No file is to be written.
    NoVideos,
    /// `count` videos were fetched; `table` is the content of the file.
    Exported { count: usize, table: Vec<u8> },
    /// `count` videos were fetched, but no table could be made of them.
    ExportFailed { count: usize, error: ExportError },
}

impl Outcome {
    /// The content of the output file, if one is to be written.
    pub open spec fn file(self) -> Option<Seq<u8>> {
        match self {
            Outcome::Exported { table, .. } => Some(table@),
            _ => None,
        }
    }

    /// The number of videos the fetch delivered, if it succeeded.
    pub open spec fn fetched(self) -> Option<nat> {
        match self {
            Outcome::FetchFailed(_) => None,
            Outcome::NoVideos => Some(0),
            Outcome::Exported { count, .. } => Some(count as nat),
            Outcome::ExportFailed { count, .. } => Some(count as nat),
        }
    }

    /// The table to write to [`OUTPUT_PATH`], if there is one.
    pub fn table(&self) -> (bytes: Option<&Vec<u8>>)
        ensures
            match bytes {
                Some(table) => self.file() == Some(table@),
                None => self.file() is None,
            },
    {
        match self {
            Outcome::Exported { table, .. } => Some(table),
            _ => None,
        }
    }
}

/// Decides how a run ends. A failed fetch is passed on and an empty
/// result is reported as such; in neither case is there a file. Otherwise
/// the videos are exported: the file holds exactly their table, or, where
/// the encoding of the table fails, there is no file and the failure is
/// reported.
pub fn conclude(fetched: Result<Vec<VideoItem>, FetchError>) -> (outcome: Outcome)
    ensures
        match fetched {
            Err(error) => {
                &&& outcome matches Outcome::FetchFailed(passed) && passed@ == error@
                &&& outcome.file() is None
            },
            Ok(videos) => {
                &&& outcome.fetched() == Some(videos@.len())
                &&& videos@.len() == 0 <==> outcome is NoVideos
                &&& videos@.len() == 0 ==> outcome.file() is None
                &&& videos@.len() > 0 ==> match csv_table(item_views(videos@)) {
                    Ok(bytes) => outcome matches Outcome::Exported { table, .. } && table@
                        == bytes,
                    Err(message) => outcome matches Outcome::ExportFailed {
                        error: ExportError::Writer { detail },
                        ..
                    } && detail@ == message,
                }
            },
        },
{
    match fetched {
        Err(error) => Outcome::FetchFailed(error),
        Ok(videos) => {
            let count = videos.len();
            if count == 0 {
                Outcome::NoVideos
            } else {
                match write_to_csv(videos) {
                    Ok(table) => Outcome::Exported { count, table },
                    Err(error) => Outcome::ExportFailed { count, error },
                }
            }
        },
    }
}

} // verus!
