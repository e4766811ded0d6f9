//! Verified core of a subreddit image downloader.
//!
//! The library holds the decision logic of the pipeline: turning a listing
//! into download candidates, the retry policy, the skip-if-exists rule,
//! destination and link path derivation, and the batch report. All network
//! and filesystem work stays outside, in unverified callers that feed plain
//! values in and carry the decisions out.

pub mod candidates;
pub mod config;
pub mod errors;
pub mod fetch;
pub mod filters;
pub mod link;
pub mod listing;
pub mod meta;
pub mod orchestrator;
pub mod paths;
pub mod report;
pub mod retry;
pub mod sort;
pub mod urls;
