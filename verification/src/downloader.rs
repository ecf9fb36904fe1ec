//! The outcome records of segment downloads.
use vstd::prelude::*;

verus! {

/// One finished download.
#[derive(Debug, Clone)]
pub struct DownloadResult {
    pub url: String,
    pub file_path: String,
    pub size: u64,
    pub duration_ms: u64,
    pub retry_count: u32,
}

/// Totals over the downloads of a recording.
#[derive(Debug, Clone, Default)]
pub struct DownloadStats {
    pub total_downloads: u64,
    pub successful_downloads: u64,
    pub failed_downloads: u64,
    pub total_bytes: u64,
    pub total_duration_ms: u64,
    pub retry_count: u64,
}

} // verus!
