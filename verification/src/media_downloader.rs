//! The worker that downloads the media of ordinary tasks.
use vstd::prelude::*;

verus! {

/// How the worker of the ordinary downloader ended.
#[derive(Debug, PartialEq, Eq)]
pub struct DownloaderWorkerSummary {
    pub stopped: bool,
    pub join_failed: Option<String>,
}

} // verus!
