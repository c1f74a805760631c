//! Enumerate, filter, fetch and unpack the repositories of one account.
//!
//! The library holds the decisions of the pipeline: which records are kept,
//! how a failing request is retried, how pages are walked, which branch
//! archives are tried, where archive entries land, and how outcomes are
//! tallied. The network, the filesystem and the scheduling of tasks stay with
//! the caller, which feeds the results of that work back in.
mod archive;
mod filter;
mod listing;
mod progress;
mod record;
mod retry;

pub use archive::{
    archive_url, branch_candidates, lemma_default_branch_tried_once, strip_top_dir, FetchStep,
    Retrieval,
};
pub use filter::{
    compile_pattern, filter_repos, lemma_filter_sound_and_complete, repo_passes, InvalidPattern,
    NamePattern,
};
pub use listing::{
    bearer, decimal, listing_url, needs_quota_check, quota_is_low, rate_limit_url, Listing,
    LOW_QUOTA, PAGE_SIZE,
};
pub use progress::{lemma_tally_counts_and_order, ProgressLine, ProgressTracker, Stats};
pub use record::RepoInfo;
pub use retry::{
    is_rate_limited, is_success, lemma_backoff_leaves_room, lemma_other_status_not_retried,
    Attempt, RetryDecision, RetryPolicy, MAX_RETRIES, RETRY_DELAY_MS,
};
