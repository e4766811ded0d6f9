//! The batch report: per-subreddit counts of what happened.
//!
//! Every unit of work ends as a success, a skip, or a failure, and the
//! report never loses one silently: each recording bumps exactly one count.

use vstd::prelude::*;
use crate::errors::{ImageFetchError, LinkError, StorageError};

verus! {

/// The terminal outcome of one unit of work.
#[derive(Debug, Clone, Copy, PartialEq, Eq, Structural)]
pub enum Outcome {
    Success,
    Skip,
    Failure,
}

/// How one candidate's pipeline ended.
#[derive(Debug, Clone)]
pub enum CandidateResult {
    /// The image was fetched and stored; the link step may still have
    /// failed, which does not retract the stored file.
    Stored { filename: String, link_error: Option<LinkError> },
    /// The destination already existed and overwriting is off.
    SkippedExisting { filename: String },
    /// The image could not be fetched after the retries were exhausted.
    FetchFailed { error: ImageFetchError },
    /// The image was fetched but could not be written out.
    StoreFailed { error: StorageError },
}

/// The outcome a candidate result counts as: a stored file is a success
/// even when its best-effort link failed.
pub open spec fn outcome_view(r: CandidateResult) -> Outcome {
    match r {
        CandidateResult::Stored { .. } => Outcome::Success,
        CandidateResult::SkippedExisting { .. } => Outcome::Skip,
        CandidateResult::FetchFailed { .. } => Outcome::Failure,
        CandidateResult::StoreFailed { .. } => Outcome::Failure,
    }
}

/// Classify one candidate result.
pub fn outcome_of(r: &CandidateResult) -> (o: Outcome)
    ensures
        o == outcome_view(*r),
{
    match r {
        CandidateResult::Stored { .. } => Outcome::Success,
        CandidateResult::SkippedExisting { .. } => Outcome::Skip,
        CandidateResult::FetchFailed { .. } => Outcome::Failure,
        CandidateResult::StoreFailed { .. } => Outcome::Failure,
    }
}

/// The counts for one subreddit.
#[derive(Debug, Clone)]
pub struct SubredditReport {
    pub subreddit: String,
    pub succeeded: u64,
    pub skipped: u64,
    pub failed: u64,
}

impl SubredditReport {
    /// A fresh report for one subreddit, with nothing counted yet.
    pub fn new(subreddit: String) -> (r: SubredditReport)
        ensures
            r.subreddit == subreddit,
            r.succeeded == 0,
            r.skipped == 0,
            r.failed == 0,
    {
        SubredditReport { subreddit, succeeded: 0, skipped: 0, failed: 0 }
    }

    /// Count one outcome: exactly the matching count goes up by one and
    /// the others stand.
    pub fn record(&mut self, o: Outcome)
        requires
            o == Outcome::Success ==> old(self).succeeded < u64::MAX,
            o == Outcome::Skip ==> old(self).skipped < u64::MAX,
            o == Outcome::Failure ==> old(self).failed < u64::MAX,
        ensures
            final(self).subreddit == old(self).subreddit,
            final(self).succeeded == old(self).succeeded + (if o == Outcome::Success { 1int } else { 0int }),
            final(self).skipped == old(self).skipped + (if o == Outcome::Skip { 1int } else { 0int }),
            final(self).failed == old(self).failed + (if o == Outcome::Failure { 1int } else { 0int }),
    {
        match o {
            Outcome::Success => {
                self.succeeded = self.succeeded + 1;
            },
            Outcome::Skip => {
                self.skipped = self.skipped + 1;
            },
            Outcome::Failure => {
                self.failed = self.failed + 1;
            },
        }
    }
}

/// The sum of the succeeded counts of a sequence of reports.
pub open spec fn sum_succeeded(rs: Seq<SubredditReport>) -> int
    decreases rs.len(),
{
    if rs.len() == 0 {
        0
    } else {
        sum_succeeded(rs.drop_last()) + rs.last().succeeded
    }
}

/// The sum of the skipped counts of a sequence of reports.
pub open spec fn sum_skipped(rs: Seq<SubredditReport>) -> int
    decreases rs.len(),
{
    if rs.len() == 0 {
        0
    } else {
        sum_skipped(rs.drop_last()) + rs.last().skipped
    }
}

/// The sum of the failed counts of a sequence of reports.
pub open spec fn sum_failed(rs: Seq<SubredditReport>) -> int
    decreases rs.len(),
{
    if rs.len() == 0 {
        0
    } else {
        sum_failed(rs.drop_last()) + rs.last().failed
    }
}

/// No sum of counts is negative.
proof fn lemma_sums_nonneg(rs: Seq<SubredditReport>)
    ensures
        sum_succeeded(rs) >= 0,
        sum_skipped(rs) >= 0,
        sum_failed(rs) >= 0,
    decreases rs.len(),
{
    if rs.len() > 0 {
        lemma_sums_nonneg(rs.drop_last());
    }
}

/// Each partial sum is bounded by the full sum: all counts are nonnegative.
proof fn lemma_partial_sums_bounded(rs: Seq<SubredditReport>, i: int)
    requires
        0 <= i <= rs.len(),
    ensures
        sum_succeeded(rs.take(i)) <= sum_succeeded(rs),
        sum_skipped(rs.take(i)) <= sum_skipped(rs),
        sum_failed(rs.take(i)) <= sum_failed(rs),
        sum_succeeded(rs.take(i)) >= 0,
        sum_skipped(rs.take(i)) >= 0,
        sum_failed(rs.take(i)) >= 0,
    decreases rs.len(),
{
    lemma_sums_nonneg(rs.take(i));
    if i == rs.len() {
        assert(rs.take(i) =~= rs);
    } else {
        assert(rs.take(i) =~= rs.drop_last().take(i));
        lemma_partial_sums_bounded(rs.drop_last(), i);
    }
}

/// The batch's final report: the counts of every subreddit it processed.
#[derive(Debug, Clone)]
pub struct BatchReport {
    pub reports: Vec<SubredditReport>,
}

impl BatchReport {
    /// An empty report.
    pub fn new() -> (r: BatchReport)
        ensures
            r.reports@.len() == 0,
    {
        BatchReport { reports: Vec::new() }
    }

    /// Append one subreddit's counts.
    pub fn push(&mut self, report: SubredditReport)
        ensures
            final(self).reports@ == old(self).reports@.push(report),
    {
        self.reports.push(report);
    }

    /// The batch totals, as `(succeeded, skipped, failed)`.
    pub fn totals(&self) -> (t: (u64, u64, u64))
        requires
            sum_succeeded(self.reports@) <= u64::MAX,
            sum_skipped(self.reports@) <= u64::MAX,
            sum_failed(self.reports@) <= u64::MAX,
        ensures
            t.0 == sum_succeeded(self.reports@),
            t.1 == sum_skipped(self.reports@),
            t.2 == sum_failed(self.reports@),
    {
        let mut succeeded: u64 = 0;
        let mut skipped: u64 = 0;
        let mut failed: u64 = 0;
        let mut i: usize = 0;
        while i < self.reports.len()
            invariant
                0 <= i <= self.reports@.len(),
                sum_succeeded(self.reports@) <= u64::MAX,
                sum_skipped(self.reports@) <= u64::MAX,
                sum_failed(self.reports@) <= u64::MAX,
                succeeded == sum_succeeded(self.reports@.take(i as int)),
                skipped == sum_skipped(self.reports@.take(i as int)),
                failed == sum_failed(self.reports@.take(i as int)),
            decreases self.reports@.len() - i,
        {
            proof {
                assert(self.reports@.take(i as int + 1).drop_last() =~= self.reports@.take(
                    i as int,
                ));
                assert(self.reports@.take(i as int + 1).last() == self.reports@[i as int]);
                lemma_partial_sums_bounded(self.reports@, i as int + 1);
            }
            let r = &self.reports[i];
            succeeded = succeeded + r.succeeded;
            skipped = skipped + r.skipped;
            failed = failed + r.failed;
            i = i + 1;
        }
        proof {
            assert(self.reports@.take(self.reports@.len() as int) =~= self.reports@);
        }
        (succeeded, skipped, failed)
    }
}

} // verus!
