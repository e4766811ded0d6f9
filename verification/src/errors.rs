//! The error taxonomy of the pipeline.
//!
//! Every failure is local to one subreddit or one candidate, is reported
//! with enough context to diagnose without a re-run, and never aborts the
//! batch. The `detail` fields carry what the unverified edge saw.

use vstd::prelude::*;
use vstd::string::StringExecFns;

verus! {

/// Why a listing could not be turned into candidates.
#[derive(Debug, Clone)]
pub enum FetchCause {
    /// The request failed or timed out, retries included.
    Network(String),
    /// The response arrived but did not decode as a listing.
    Decode(String),
}

/// A subreddit's listing could not be retrieved or decoded; that
/// subreddit's batch is skipped and other subreddits proceed unaffected.
#[derive(Debug, Clone)]
pub struct ListingFetchError {
    pub subreddit: String,
    pub cause: FetchCause,
}

/// An image could not be retrieved after the retries were exhausted; the
/// candidate is given up without touching its siblings.
#[derive(Debug, Clone)]
pub struct ImageFetchError {
    pub subreddit: String,
    pub url: String,
    pub detail: String,
}

/// A destination file could not be created, written, or flushed; whatever
/// was written stays as it is.
#[derive(Debug, Clone)]
pub struct StorageError {
    pub subreddit: String,
    pub path: String,
    pub detail: String,
}

/// A link or its containing directory could not be created; the stored
/// file itself stands.
#[derive(Debug, Clone)]
pub struct LinkError {
    pub target: String,
    pub detail: String,
}

impl ListingFetchError {
    /// A readable account: which subreddit, and what went wrong.
    pub fn message(&self) -> (r: String)
        ensures
            self.cause matches FetchCause::Network(d) ==> r@ == "["@ + self.subreddit@
                + "] failed to fetch listing: "@ + d@,
            self.cause matches FetchCause::Decode(d) ==> r@ == "["@ + self.subreddit@
                + "] failed to decode listing: "@ + d@,
    {
        let mut s = String::from_str("[");
        s.append(self.subreddit.as_str());
        match &self.cause {
            FetchCause::Network(d) => {
                s.append("] failed to fetch listing: ");
                s.append(d.as_str());
            },
            FetchCause::Decode(d) => {
                s.append("] failed to decode listing: ");
                s.append(d.as_str());
            },
        }
        s
    }
}

impl ImageFetchError {
    /// A readable account: subreddit, source URL, and what went wrong.
    pub fn message(&self) -> (r: String)
        ensures
            r@ == "["@ + self.subreddit@ + "] failed to fetch image from "@ + self.url@ + ": "@
                + self.detail@,
    {
        let mut s = String::from_str("[");
        s.append(self.subreddit.as_str());
        s.append("] failed to fetch image from ");
        s.append(self.url.as_str());
        s.append(": ");
        s.append(self.detail.as_str());
        s
    }
}

impl StorageError {
    /// A readable account: subreddit, destination path, and what went wrong.
    pub fn message(&self) -> (r: String)
        ensures
            r@ == "["@ + self.subreddit@ + "] failed to store image at "@ + self.path@ + ": "@
                + self.detail@,
    {
        let mut s = String::from_str("[");
        s.append(self.subreddit.as_str());
        s.append("] failed to store image at ");
        s.append(self.path.as_str());
        s.append(": ");
        s.append(self.detail.as_str());
        s
    }
}

impl LinkError {
    /// A readable account: link path and what went wrong.
    pub fn message(&self) -> (r: String)
        ensures
            r@ == "failed to create link at "@ + self.target@ + ": "@ + self.detail@,
    {
        let mut s = String::from_str("failed to create link at ");
        s.append(self.target.as_str());
        s.append(": ");
        s.append(self.detail.as_str());
        s
    }
}

} // verus!
