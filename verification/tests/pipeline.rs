use ridit::config::{Advanced, AspectRatio, Config, Downloads, MinimumSize, Run, SymbolicLink};
use ridit::errors::{FetchCause, ImageFetchError, LinkError, ListingFetchError, StorageError};
use ridit::fetch::{decide_fetch, plan_fetch, FetchDecision};
use ridit::link::link_plan;
use ridit::meta::DownloadMeta;
use ridit::orchestrator::{
    candidate_step, subreddit_step, terminal_outcome, CandidateEvent, CandidateState,
    SubredditEvent, SubredditState,
};
use ridit::report::{outcome_of, BatchReport, CandidateResult, Outcome, SubredditReport};
use ridit::sort::Sort;

fn config_with_link(enable: bool, use_custom_path: bool, custom_path: &str) -> Config {
    Config {
        run: Run { hold_on_job_done: false },
        downloads: Downloads {
            subreddits: vec!["wallpapers".to_string(), "earthporn".to_string()],
            sort: Sort::Hot,
            path: "/data/ridit".to_string(),
            timeout: 5000,
            download_timeout: 30000,
            nsfw: true,
            proceed_download_on_file_exist: false,
        },
        aspect_ratio: AspectRatio { enable: false, width_aspect: 16, height_aspect: 9, ratio_range: 500 },
        minimum_size: MinimumSize { enable: false, minimum_width: 0, minimum_height: 0 },
        advanced: Advanced { user_agent: "ridit".to_string() },
        symbolic_link: SymbolicLink {
            enable,
            use_custom_path,
            custom_path: custom_path.to_string(),
        },
    }
}

fn meta_named(filename: &str) -> DownloadMeta {
    DownloadMeta {
        url: format!("https://i.example.com/{}", filename),
        subreddit_name: "wallpapers".to_string(),
        image_height: 2160,
        image_width: 3840,
        post_link: String::new(),
        nsfw: false,
        filename: filename.to_string(),
        title: String::new(),
        author: String::new(),
    }
}

#[test]
fn existing_destination_without_overwrite_is_skipped() {
    assert_eq!(decide_fetch(true, false), FetchDecision::Skip);
}

#[test]
fn absent_destination_is_downloaded() {
    assert_eq!(decide_fetch(false, false), FetchDecision::Download);
    assert_eq!(decide_fetch(false, true), FetchDecision::Download);
}

#[test]
fn overwrite_downloads_even_over_an_existing_file() {
    assert_eq!(decide_fetch(true, true), FetchDecision::Download);
}

#[test]
fn plan_derives_destination_and_downloads_the_absent() {
    let m = meta_named("pic.jpg");
    let p = plan_fetch(&m, "/nonexistent-ridit-test-root", false);
    assert_eq!(p.destination, "/nonexistent-ridit-test-root/wallpapers/pic.jpg");
    assert_eq!(p.decision, FetchDecision::Download);
}

#[test]
fn joined_link_sits_under_the_download_root() {
    let cfg = config_with_link(true, false, "");
    let m = meta_named("foo.jpg");
    let plan = link_plan(&cfg, &m).expect("link feature is on");
    assert_eq!(plan.directory, "/data/ridit/_joined");
    assert_eq!(plan.link_path, "/data/ridit/_joined/foo.jpg");
    assert_eq!(plan.source, "/data/ridit/wallpapers/foo.jpg");
}

#[test]
fn custom_link_directory_is_used_verbatim() {
    let cfg = config_with_link(true, true, "/slideshow");
    let m = meta_named("foo.jpg");
    let plan = link_plan(&cfg, &m).expect("link feature is on");
    assert_eq!(plan.directory, "/slideshow");
    assert_eq!(plan.link_path, "/slideshow/foo.jpg");
    assert_eq!(plan.source, "/data/ridit/wallpapers/foo.jpg");
}

#[test]
fn disabled_link_feature_plans_nothing() {
    let cfg = config_with_link(false, false, "");
    let m = meta_named("foo.jpg");
    assert!(link_plan(&cfg, &m).is_none());
}

#[test]
fn download_path_and_subreddit_dirs_follow_the_config() {
    let cfg = config_with_link(false, false, "");
    assert_eq!(cfg.get_download_path(), "/data/ridit");
    let dirs = cfg.subreddit_dirs();
    assert_eq!(dirs, vec!["/data/ridit/wallpapers".to_string(), "/data/ridit/earthporn".to_string()]);
}

#[test]
fn a_stored_file_counts_as_success_even_with_a_failed_link() {
    let ok = CandidateResult::Stored { filename: "a.jpg".to_string(), link_error: None };
    assert_eq!(outcome_of(&ok), Outcome::Success);
    let with_failed_link = CandidateResult::Stored {
        filename: "a.jpg".to_string(),
        link_error: Some(LinkError {
            target: "/data/ridit/_joined/a.jpg".to_string(),
            detail: "already exists".to_string(),
        }),
    };
    assert_eq!(outcome_of(&with_failed_link), Outcome::Success);
}

#[test]
fn skips_and_failures_are_classified() {
    let skip = CandidateResult::SkippedExisting { filename: "a.jpg".to_string() };
    assert_eq!(outcome_of(&skip), Outcome::Skip);
    let fetch_failed = CandidateResult::FetchFailed {
        error: ImageFetchError {
            subreddit: "wallpapers".to_string(),
            url: "https://i.example.com/a.jpg".to_string(),
            detail: "timed out".to_string(),
        },
    };
    assert_eq!(outcome_of(&fetch_failed), Outcome::Failure);
    let store_failed = CandidateResult::StoreFailed {
        error: StorageError {
            subreddit: "wallpapers".to_string(),
            path: "/data/ridit/wallpapers/a.jpg".to_string(),
            detail: "disk full".to_string(),
        },
    };
    assert_eq!(outcome_of(&store_failed), Outcome::Failure);
}

#[test]
fn report_counts_each_outcome_once() {
    let mut r = SubredditReport::new("wallpapers".to_string());
    r.record(Outcome::Success);
    r.record(Outcome::Success);
    r.record(Outcome::Skip);
    r.record(Outcome::Failure);
    assert_eq!(r.subreddit, "wallpapers");
    assert_eq!(r.succeeded, 2);
    assert_eq!(r.skipped, 1);
    assert_eq!(r.failed, 1);
}

#[test]
fn batch_totals_sum_over_subreddits() {
    let mut batch = BatchReport::new();
    let mut a = SubredditReport::new("wallpapers".to_string());
    a.record(Outcome::Success);
    a.record(Outcome::Skip);
    let mut b = SubredditReport::new("earthporn".to_string());
    b.record(Outcome::Success);
    b.record(Outcome::Failure);
    b.record(Outcome::Failure);
    batch.push(a);
    batch.push(b);
    assert_eq!(batch.totals(), (2, 1, 2));
}

#[test]
fn subreddit_stages_follow_the_listing_flow() {
    assert_eq!(
        subreddit_step(SubredditState::Pending, SubredditEvent::ListingStarted),
        Some(SubredditState::Listing)
    );
    assert_eq!(
        subreddit_step(SubredditState::Listing, SubredditEvent::ListingFetched),
        Some(SubredditState::Listed)
    );
    assert_eq!(
        subreddit_step(SubredditState::Listing, SubredditEvent::ListingFetchFailed),
        Some(SubredditState::ListingFailed)
    );
    assert_eq!(
        subreddit_step(SubredditState::Listed, SubredditEvent::DownloadsStarted),
        Some(SubredditState::Downloading)
    );
    assert_eq!(
        subreddit_step(SubredditState::Downloading, SubredditEvent::DownloadsFinished),
        Some(SubredditState::Done)
    );
    // A failed listing is terminal for the subreddit.
    assert_eq!(
        subreddit_step(SubredditState::ListingFailed, SubredditEvent::DownloadsStarted),
        None
    );
}

#[test]
fn candidate_stages_fetch_store_then_link() {
    assert_eq!(
        candidate_step(CandidateState::Pending, CandidateEvent::FetchStarted),
        Some(CandidateState::Fetching)
    );
    assert_eq!(
        candidate_step(CandidateState::Fetching, CandidateEvent::ImageFetched),
        Some(CandidateState::Fetched)
    );
    assert_eq!(
        candidate_step(CandidateState::Fetched, CandidateEvent::StoreStarted),
        Some(CandidateState::Storing)
    );
    assert_eq!(
        candidate_step(CandidateState::Storing, CandidateEvent::ImageStored),
        Some(CandidateState::Stored)
    );
    assert_eq!(
        candidate_step(CandidateState::Stored, CandidateEvent::LinkFinished),
        Some(CandidateState::LinkAttempted)
    );
    // A store can only begin on fetched bytes.
    assert_eq!(candidate_step(CandidateState::Pending, CandidateEvent::StoreStarted), None);
    assert_eq!(candidate_step(CandidateState::FetchSkipped, CandidateEvent::StoreStarted), None);
}

#[test]
fn terminal_candidate_stages_have_their_outcome() {
    assert_eq!(terminal_outcome(CandidateState::FetchSkipped), Some(Outcome::Skip));
    assert_eq!(terminal_outcome(CandidateState::FetchFailed), Some(Outcome::Failure));
    assert_eq!(terminal_outcome(CandidateState::StoreFailed), Some(Outcome::Failure));
    assert_eq!(terminal_outcome(CandidateState::LinkAttempted), Some(Outcome::Success));
    assert_eq!(terminal_outcome(CandidateState::Storing), None);
}

#[test]
fn error_messages_carry_their_context() {
    let listing = ListingFetchError {
        subreddit: "wallpapers".to_string(),
        cause: FetchCause::Network("timed out".to_string()),
    };
    assert_eq!(listing.message(), "[wallpapers] failed to fetch listing: timed out");
    let decode = ListingFetchError {
        subreddit: "wallpapers".to_string(),
        cause: FetchCause::Decode("unexpected end of input".to_string()),
    };
    assert_eq!(
        decode.message(),
        "[wallpapers] failed to decode listing: unexpected end of input"
    );
    let image = ImageFetchError {
        subreddit: "wallpapers".to_string(),
        url: "https://i.example.com/a.jpg".to_string(),
        detail: "connection refused".to_string(),
    };
    assert_eq!(
        image.message(),
        "[wallpapers] failed to fetch image from https://i.example.com/a.jpg: connection refused"
    );
    let storage = StorageError {
        subreddit: "wallpapers".to_string(),
        path: "/data/ridit/wallpapers/a.jpg".to_string(),
        detail: "permission denied".to_string(),
    };
    assert_eq!(
        storage.message(),
        "[wallpapers] failed to store image at /data/ridit/wallpapers/a.jpg: permission denied"
    );
    let link = LinkError {
        target: "/data/ridit/_joined/a.jpg".to_string(),
        detail: "already exists".to_string(),
    };
    assert_eq!(
        link.message(),
        "failed to create link at /data/ridit/_joined/a.jpg: already exists"
    );
}

#[test]
fn empty_batch_totals_are_zero() {
    let batch = BatchReport::new();
    assert_eq!(batch.totals(), (0, 0, 0));
    let empty = SubredditReport::new("wallpapers".to_string());
    assert_eq!(empty.succeeded, 0);
    assert_eq!(empty.skipped, 0);
    assert_eq!(empty.failed, 0);
}
