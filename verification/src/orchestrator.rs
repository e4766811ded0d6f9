//! The stages one subreddit and one candidate move through.
//!
//! The batch driver performs the outside work — one fetch, one store, one
//! link at a time — and feeds what happened back in; these transition
//! tables are the whole of its control flow, so the order of stages is
//! fixed here: a candidate's fetch completes before its store begins, and
//! its store before its link is attempted.

use vstd::prelude::*;
use crate::report::Outcome;

verus! {

/// The stage one subreddit's work is in.
#[derive(Debug, Clone, Copy, PartialEq, Eq, Structural)]
pub enum SubredditState {
    Pending,
    Listing,
    ListingFailed,
    Listed,
    Downloading,
    Done,
}

/// What just happened to one subreddit's work.
#[derive(Debug, Clone, Copy, PartialEq, Eq, Structural)]
pub enum SubredditEvent {
    ListingStarted,
    ListingFetched,
    ListingFetchFailed,
    DownloadsStarted,
    DownloadsFinished,
}

/// The next stage of one subreddit, or nothing when the event does not
/// belong to the stage.
pub open spec fn subreddit_step_view(s: SubredditState, e: SubredditEvent) -> Option<
    SubredditState,
> {
    match (s, e) {
        (SubredditState::Pending, SubredditEvent::ListingStarted) => Some(SubredditState::Listing),
        (SubredditState::Listing, SubredditEvent::ListingFetched) => Some(SubredditState::Listed),
        (SubredditState::Listing, SubredditEvent::ListingFetchFailed) => Some(
            SubredditState::ListingFailed,
        ),
        (SubredditState::Listed, SubredditEvent::DownloadsStarted) => Some(
            SubredditState::Downloading,
        ),
        (SubredditState::Downloading, SubredditEvent::DownloadsFinished) => Some(
            SubredditState::Done,
        ),
        _ => None,
    }
}

/// Advance one subreddit's stage by one event.
pub fn subreddit_step(s: SubredditState, e: SubredditEvent) -> (t: Option<SubredditState>)
    ensures
        t == subreddit_step_view(s, e),
{
    match (s, e) {
        (SubredditState::Pending, SubredditEvent::ListingStarted) => Some(SubredditState::Listing),
        (SubredditState::Listing, SubredditEvent::ListingFetched) => Some(SubredditState::Listed),
        (SubredditState::Listing, SubredditEvent::ListingFetchFailed) => Some(
            SubredditState::ListingFailed,
        ),
        (SubredditState::Listed, SubredditEvent::DownloadsStarted) => Some(
            SubredditState::Downloading,
        ),
        (SubredditState::Downloading, SubredditEvent::DownloadsFinished) => Some(
            SubredditState::Done,
        ),
        _ => None,
    }
}

/// The stage one candidate's pipeline is in.
#[derive(Debug, Clone, Copy, PartialEq, Eq, Structural)]
pub enum CandidateState {
    Pending,
    Fetching,
    FetchSkipped,
    FetchFailed,
    Fetched,
    Storing,
    StoreFailed,
    Stored,
    LinkAttempted,
}

/// What just happened to one candidate.
#[derive(Debug, Clone, Copy, PartialEq, Eq, Structural)]
pub enum CandidateEvent {
    /// Its destination was derived and the fetch is being decided.
    FetchStarted,
    /// The destination already exists and overwriting is off.
    DestinationOccupied,
    /// Every fetch try failed.
    FetchExhausted,
    /// The image bytes arrived.
    ImageFetched,
    /// The bytes are being written out.
    StoreStarted,
    /// The write or flush failed.
    WriteFailed,
    /// The destination file is complete.
    ImageStored,
    /// The best-effort link step ran, successfully or not.
    LinkFinished,
}

/// The next stage of one candidate, or nothing when the event does not
/// belong to the stage.
pub open spec fn candidate_step_view(s: CandidateState, e: CandidateEvent) -> Option<
    CandidateState,
> {
    match (s, e) {
        (CandidateState::Pending, CandidateEvent::FetchStarted) => Some(CandidateState::Fetching),
        (CandidateState::Fetching, CandidateEvent::DestinationOccupied) => Some(
            CandidateState::FetchSkipped,
        ),
        (CandidateState::Fetching, CandidateEvent::FetchExhausted) => Some(
            CandidateState::FetchFailed,
        ),
        (CandidateState::Fetching, CandidateEvent::ImageFetched) => Some(CandidateState::Fetched),
        (CandidateState::Fetched, CandidateEvent::StoreStarted) => Some(CandidateState::Storing),
        (CandidateState::Storing, CandidateEvent::WriteFailed) => Some(CandidateState::StoreFailed),
        (CandidateState::Storing, CandidateEvent::ImageStored) => Some(CandidateState::Stored),
        (CandidateState::Stored, CandidateEvent::LinkFinished) => Some(
            CandidateState::LinkAttempted,
        ),
        _ => None,
    }
}

/// Advance one candidate's stage by one event.
pub fn candidate_step(s: CandidateState, e: CandidateEvent) -> (t: Option<CandidateState>)
    ensures
        t == candidate_step_view(s, e),
{
    match (s, e) {
        (CandidateState::Pending, CandidateEvent::FetchStarted) => Some(CandidateState::Fetching),
        (CandidateState::Fetching, CandidateEvent::DestinationOccupied) => Some(
            CandidateState::FetchSkipped,
        ),
        (CandidateState::Fetching, CandidateEvent::FetchExhausted) => Some(
            CandidateState::FetchFailed,
        ),
        (CandidateState::Fetching, CandidateEvent::ImageFetched) => Some(CandidateState::Fetched),
        (CandidateState::Fetched, CandidateEvent::StoreStarted) => Some(CandidateState::Storing),
        (CandidateState::Storing, CandidateEvent::WriteFailed) => Some(CandidateState::StoreFailed),
        (CandidateState::Storing, CandidateEvent::ImageStored) => Some(CandidateState::Stored),
        (CandidateState::Stored, CandidateEvent::LinkFinished) => Some(
            CandidateState::LinkAttempted,
        ),
        _ => None,
    }
}

/// Whether a candidate stage is terminal: nothing more happens to it.
pub open spec fn candidate_terminal(s: CandidateState) -> bool {
    match s {
        CandidateState::FetchSkipped => true,
        CandidateState::FetchFailed => true,
        CandidateState::StoreFailed => true,
        CandidateState::LinkAttempted => true,
        _ => false,
    }
}

/// The outcome a terminal candidate stage counts as; a candidate whose
/// link was merely attempted still counts as a success.
pub open spec fn terminal_outcome_view(s: CandidateState) -> Option<Outcome> {
    match s {
        CandidateState::FetchSkipped => Some(Outcome::Skip),
        CandidateState::FetchFailed => Some(Outcome::Failure),
        CandidateState::StoreFailed => Some(Outcome::Failure),
        CandidateState::LinkAttempted => Some(Outcome::Success),
        _ => None,
    }
}

/// The outcome of a terminal candidate stage, and nothing for a stage
/// still under way.
pub fn terminal_outcome(s: CandidateState) -> (o: Option<Outcome>)
    ensures
        o == terminal_outcome_view(s),
        o is Some <==> candidate_terminal(s),
{
    match s {
        CandidateState::FetchSkipped => Some(Outcome::Skip),
        CandidateState::FetchFailed => Some(Outcome::Failure),
        CandidateState::StoreFailed => Some(Outcome::Failure),
        CandidateState::LinkAttempted => Some(Outcome::Success),
        _ => None,
    }
}

/// A terminal candidate stage admits no further event.
pub proof fn lemma_terminal_stays(s: CandidateState, e: CandidateEvent)
    requires
        candidate_terminal(s),
    ensures
        candidate_step_view(s, e) is None,
{
}

/// A candidate is only ever stored after a completed fetch, and its link
/// is only ever attempted after a completed store: the stage order is
/// fixed.
pub proof fn lemma_stage_order(s: CandidateState, e: CandidateEvent)
    ensures
        candidate_step_view(s, e) == Some(CandidateState::Storing) ==> s == CandidateState::Fetched,
        candidate_step_view(s, e) == Some(CandidateState::LinkAttempted) ==> s
            == CandidateState::Stored,
        candidate_step_view(s, e) == Some(CandidateState::Stored) ==> s == CandidateState::Storing,
{
}

} // verus!
