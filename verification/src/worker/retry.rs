//! What to do when processing a job fails: retry later, or give up.
use vstd::prelude::*;
use crate::models::JobRow;
use crate::service::{source_dir, source_dir_of};
use crate::text::to_owned;

verus! {

/// How long the worker waits between two polls of the queue, in milliseconds.
pub const POLL_INTERVAL_MS: u64 = 1000;

/// The retry delays, in seconds, by retry number.
pub open spec fn backoff_schedule() -> Seq<i64> {
    seq![10i64, 30i64, 90i64]
}

/// The place in the schedule used after a failed attempt, given the job's
/// attempt count: one before the count, at most the last place. A count
/// of 0 uses the first place; a negative count (which no stored job has)
/// uses the last, as a conversion of a negative count to an index does.
pub open spec fn backoff_index_of(attempt_count: int) -> int {
    if attempt_count == 0 {
        0
    } else if attempt_count < 0 {
        2
    } else if attempt_count - 1 < 2 {
        attempt_count - 1
    } else {
        2
    }
}

/// The retry delay, in seconds, after an attempt fails.
pub open spec fn backoff_for(attempt_count: int) -> i64 {
    backoff_schedule()[backoff_index_of(attempt_count)]
}

/// The retry delay, in seconds, after attempt number `attempt_count` failed.
pub fn backoff_seconds(attempt_count: i32) -> (b: i64)
    ensures
        b == backoff_for(attempt_count as int),
{
    let idx: usize = if attempt_count == 0 {
        0
    } else if attempt_count < 0 {
        2
    } else if attempt_count - 1 < 2 {
        (attempt_count - 1) as usize
    } else {
        2
    };
    if idx == 0 {
        10
    } else if idx == 1 {
        30
    } else {
        90
    }
}

/// What to do after processing a job failed.
pub enum FailurePlan {
    /// Put the job back in the queue, due after `backoff_seconds`.
    Retry { job_id: String, error: String, backoff_seconds: i64 },
    /// Give up: mark the video and the job failed and delete the source.
    GiveUp { job_id: String, video_id: String, stage: String, error: String, source_dir: String },
}

/// The plan after processing `job` failed at `stage` with `error`: retry
/// while attempts remain, with the scheduled delay; otherwise give up.
pub fn handle_failure(job: &JobRow, stage: &str, error: &str) -> (plan: FailurePlan)
    ensures
        job.attempt_count < job.max_attempts <==> plan is Retry,
        match plan {
            FailurePlan::Retry { job_id, error: e, backoff_seconds } => {
                &&& job_id@ == job.id@
                &&& e@ == error@
                &&& backoff_seconds == backoff_for(job.attempt_count as int)
            },
            FailurePlan::GiveUp { job_id, video_id, stage: s, error: e, source_dir } => {
                &&& job_id@ == job.id@
                &&& video_id@ == job.video_id@
                &&& s@ == stage@
                &&& e@ == error@
                &&& source_dir@ == source_dir_of(job.video_id@)
            },
        },
{
    if job.attempt_count < job.max_attempts {
        FailurePlan::Retry {
            job_id: to_owned(job.id.as_str()),
            error: to_owned(error),
            backoff_seconds: backoff_seconds(job.attempt_count),
        }
    } else {
        FailurePlan::GiveUp {
            job_id: to_owned(job.id.as_str()),
            video_id: to_owned(job.video_id.as_str()),
            stage: to_owned(stage),
            error: to_owned(error),
            source_dir: source_dir(job.video_id.as_str()),
        }
    }
}

} // verus!
