//! The skip-unless-overwrite rule, and why a rerun downloads nothing.
//!
//! A candidate whose destination already exists is skipped unless
//! overwriting is switched on; that skip is an outcome, not an error, and
//! it is what makes a second run over an unchanged listing idempotent.

use vstd::prelude::*;
use crate::meta::{DownloadMeta, MetaView};
use crate::paths::{file_location, path_exists};

verus! {

/// What to do about one candidate.
#[derive(Debug, Clone, Copy, PartialEq, Eq, Structural)]
pub enum FetchDecision {
    /// Fetch the image and store it.
    Download,
    /// The destination is already there and overwriting is off: leave it.
    Skip,
}

/// Decide one candidate from the state of its destination: skip exactly
/// when the file exists and overwriting is off.
pub fn decide_fetch(file_exists: bool, overwrite_existing: bool) -> (d: FetchDecision)
    ensures
        d == FetchDecision::Skip <==> (file_exists && !overwrite_existing),
{
    if file_exists && !overwrite_existing {
        FetchDecision::Skip
    } else {
        FetchDecision::Download
    }
}

/// One candidate's destination and the decision its current existence
/// yields.
#[derive(Debug, Clone)]
pub struct FetchPlan {
    pub destination: String,
    pub decision: FetchDecision,
}

/// Plan one candidate: derive its destination under the root and test the
/// disk. The destination is pinned exactly; the decision depends on what
/// is on disk, of which only this much holds: with overwriting on it is
/// always `Download`, and a `Skip` can only come from overwriting being
/// off.
pub fn plan_fetch(meta: &DownloadMeta, root: &str, overwrite_existing: bool) -> (p: FetchPlan)
    ensures
        p.destination@ == file_location(root@, meta.subreddit_name@, meta.filename@),
        overwrite_existing ==> p.decision == FetchDecision::Download,
        p.decision == FetchDecision::Skip ==> !overwrite_existing,
{
    let destination = meta.get_file_location(root);
    let exists = path_exists(destination.as_str());
    let decision = decide_fetch(exists, overwrite_existing);
    FetchPlan { destination, decision }
}

/// The destination of one candidate under a root.
pub open spec fn dest_of(m: MetaView, root: Seq<char>) -> Seq<char> {
    file_location(root, m.subreddit_name, m.filename)
}

/// The source URLs one run fetches, in order: those of the candidates
/// whose destination is absent, and all of them when overwriting.
pub open spec fn fetched_urls(
    metas: Seq<MetaView>,
    root: Seq<char>,
    existing: Set<Seq<char>>,
    overwrite: bool,
) -> Seq<Seq<char>>
    decreases metas.len(),
{
    if metas.len() == 0 {
        Seq::empty()
    } else {
        fetched_urls(metas.drop_last(), root, existing, overwrite) + (if overwrite
            || !existing.contains(dest_of(metas.last(), root)) {
            seq![metas.last().url]
        } else {
            Seq::<Seq<char>>::empty()
        })
    }
}

/// The files present after one run: whatever was present before, plus
/// every candidate's destination — stored now, or already there and
/// skipped.
pub open spec fn after_run(metas: Seq<MetaView>, root: Seq<char>, existing: Set<Seq<char>>) -> Set<
    Seq<char>,
>
    decreases metas.len(),
{
    if metas.len() == 0 {
        existing
    } else {
        after_run(metas.drop_last(), root, existing).insert(dest_of(metas.last(), root))
    }
}

/// After a run, every candidate's destination is present, and nothing that
/// was present has gone.
pub proof fn lemma_after_run_complete(metas: Seq<MetaView>, root: Seq<char>, existing: Set<Seq<char>>)
    ensures
        forall|i: int|
            0 <= i < metas.len() ==> after_run(metas, root, existing).contains(
                dest_of(#[trigger] metas[i], root),
            ),
        forall|p: Seq<char>| existing.contains(p) ==> after_run(metas, root, existing).contains(p),
    decreases metas.len(),
{
    if metas.len() > 0 {
        lemma_after_run_complete(metas.drop_last(), root, existing);
        assert(forall|i: int|
            0 <= i < metas.len() - 1 ==> metas.drop_last()[i] == #[trigger] metas[i]);
    }
}

/// With overwriting off, a run whose candidates' destinations are all
/// already present fetches nothing.
pub proof fn lemma_all_present_fetches_nothing(
    metas: Seq<MetaView>,
    root: Seq<char>,
    existing: Set<Seq<char>>,
)
    requires
        forall|i: int|
            0 <= i < metas.len() ==> existing.contains(dest_of(#[trigger] metas[i], root)),
    ensures
        fetched_urls(metas, root, existing, false).len() == 0,
    decreases metas.len(),
{
    if metas.len() > 0 {
        assert(forall|i: int|
            0 <= i < metas.len() - 1 ==> metas.drop_last()[i] == #[trigger] metas[i]);
        lemma_all_present_fetches_nothing(metas.drop_last(), root, existing);
        assert(metas[metas.len() - 1] == metas.last());
    }
}

/// Idempotence of the pipeline: a second run over the same unchanged
/// candidates, with overwriting off, issues no image fetch at all.
pub proof fn lemma_second_run_fetches_nothing(
    metas: Seq<MetaView>,
    root: Seq<char>,
    existing: Set<Seq<char>>,
)
    ensures
        fetched_urls(metas, root, after_run(metas, root, existing), false).len() == 0,
{
    lemma_after_run_complete(metas, root, existing);
    lemma_all_present_fetches_nothing(metas, root, after_run(metas, root, existing));
}

} // verus!
