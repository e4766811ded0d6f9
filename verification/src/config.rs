//! The resolved configuration the pipeline consumes.
//!
//! The library receives a fully-resolved configuration: the download path is
//! already expanded and absolutized, and the aspect-ratio tolerance is given
//! in thousandths of the ratio unit, so every field is a plain value.

use vstd::prelude::*;
use crate::paths::{joined, join_path};
use crate::sort::Sort;

verus! {

/// Behaviour of the command-line run itself.
#[derive(Debug, Clone)]
pub struct Run {
    pub hold_on_job_done: bool,
}

/// What to download, from where, and into which root.
#[derive(Debug, Clone)]
pub struct Downloads {
    pub subreddits: Vec<String>,
    pub sort: Sort,
    /// Resolved download root.
    pub path: String,
    /// Connect timeout, in milliseconds.
    pub timeout: u64,
    /// Total-transfer timeout, in milliseconds.
    pub download_timeout: u64,
    /// Whether adult posts may become candidates.
    pub nsfw: bool,
    /// Whether an existing destination file is overwritten.
    pub proceed_download_on_file_exist: bool,
}

/// The aspect-ratio window: a target `width_aspect : height_aspect` ratio
/// and an inclusive tolerance around it.
#[derive(Debug, Clone)]
pub struct AspectRatio {
    pub enable: bool,
    pub width_aspect: u32,
    pub height_aspect: u32,
    /// Tolerance around the target ratio, in thousandths of the ratio unit:
    /// `500` accepts ratios within half a unit of the target.
    pub ratio_range: u32,
}

/// The smallest acceptable image dimensions, both bounds inclusive.
#[derive(Debug, Clone)]
pub struct MinimumSize {
    pub enable: bool,
    pub minimum_width: u32,
    pub minimum_height: u32,
}

/// Settings common users have no need to change.
#[derive(Debug, Clone)]
pub struct Advanced {
    pub user_agent: String,
}

/// The consolidated link view over every downloaded file.
#[derive(Debug, Clone)]
pub struct SymbolicLink {
    pub enable: bool,
    pub use_custom_path: bool,
    pub custom_path: String,
}

/// The full configuration, shared read-only across the whole batch.
#[derive(Debug, Clone)]
pub struct Config {
    pub run: Run,
    pub downloads: Downloads,
    pub aspect_ratio: AspectRatio,
    pub minimum_size: MinimumSize,
    pub advanced: Advanced,
    pub symbolic_link: SymbolicLink,
}

impl Config {
    /// The resolved download root.
    pub fn get_download_path(&self) -> (r: String)
        ensures
            r@ == self.downloads.path@,
    {
        self.downloads.path.clone()
    }

    /// The directory each configured subreddit's images are stored under,
    /// in configuration order.
    pub fn subreddit_dirs(&self) -> (r: Vec<String>)
        ensures
            r@.len() == self.downloads.subreddits@.len(),
            forall|i: int|
                0 <= i < r@.len() ==> r@[i]@ == joined(
                    self.downloads.path@,
                    #[trigger] self.downloads.subreddits@[i]@,
                ),
    {
        let mut dirs: Vec<String> = Vec::new();
        let mut i: usize = 0;
        while i < self.downloads.subreddits.len()
            invariant
                0 <= i <= self.downloads.subreddits@.len(),
                dirs@.len() == i,
                forall|j: int|
                    0 <= j < i ==> dirs@[j]@ == joined(
                        self.downloads.path@,
                        #[trigger] self.downloads.subreddits@[j]@,
                    ),
            decreases self.downloads.subreddits@.len() - i,
        {
            let d = join_path(self.downloads.path.as_str(), self.downloads.subreddits[i].as_str());
            dirs.push(d);
            i = i + 1;
        }
        dirs
    }
}

} // verus!
