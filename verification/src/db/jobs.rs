//! What each write to the `jobs` table does to a job record.
use vstd::prelude::*;
use crate::models::{JobRecord, JobRow};
use crate::text::{concat, lemma_lex_total, lemma_lex_transitive, lex_le, lex_lt, str_eq, str_lex_le, to_owned};
use crate::utils::{clock_seconds, format_utc_seconds, in_utc_range, rfc3339_utc, EARLIEST_UTC_SECONDS, LATEST_UTC_SECONDS};

verus! {

/// Attempts a job gets before it fails for good.
pub const DEFAULT_MAX_ATTEMPTS: i32 = 3;

/// The idempotency key of the processing job of a video.
pub open spec fn idempotency_key_of(video_id: Seq<char>) -> Seq<char> {
    "process_video:"@ + video_id
}

/// The idempotency key of the processing job of a video:
/// `process_video:` followed by the video's identifier.
pub fn idempotency_key(video_id: &str) -> (key: String)
    ensures
        key@ == idempotency_key_of(video_id@),
{
    concat("process_video:", video_id)
}

/// The record a new processing job is stored with.
pub open spec fn new_job_record(job_id: Seq<char>, video_id: Seq<char>, source_path: Seq<char>, now: Seq<char>) -> JobRecord {
    JobRecord {
        id: job_id,
        job_type: "process_video"@,
        video_id,
        source_path,
        status: "pending"@,
        attempt_count: 0,
        max_attempts: DEFAULT_MAX_ATTEMPTS as int,
        scheduled_at: now,
        locked_at: None,
        worker_id: None,
        last_error: None,
        idempotency_key: idempotency_key_of(video_id),
        created_at: now,
        updated_at: now,
    }
}

/// The record to insert for a new processing job, due at once.
pub fn insert(job_id: &str, video_id: &str, source_path: &str, now: &str) -> (job: JobRow)
    ensures
        job@ == new_job_record(job_id@, video_id@, source_path@, now@),
{
    JobRow {
        id: to_owned(job_id),
        job_type: to_owned("process_video"),
        video_id: to_owned(video_id),
        source_path: to_owned(source_path),
        status: to_owned("pending"),
        attempt_count: 0,
        max_attempts: DEFAULT_MAX_ATTEMPTS,
        scheduled_at: to_owned(now),
        locked_at: None,
        worker_id: None,
        last_error: None,
        idempotency_key: idempotency_key(video_id),
        created_at: to_owned(now),
        updated_at: to_owned(now),
    }
}

/// Claimed by a worker: in progress, locked, one more attempt counted.
pub open spec fn claimed_record(j: JobRecord, worker_id: Seq<char>, now: Seq<char>) -> JobRecord {
    JobRecord {
        status: "in_progress"@,
        locked_at: Some(now),
        worker_id: Some(worker_id),
        attempt_count: j.attempt_count + 1,
        updated_at: now,
        ..j
    }
}

/// The record of a pending job once a worker claims it.
pub fn claim_pending(job: &JobRow, worker_id: &str, now: &str) -> (row: JobRow)
    requires
        job.attempt_count < i32::MAX,
    ensures
        row@ == claimed_record(job@, worker_id@, now@),
{
    let mut row = job.copy();
    row.status = to_owned("in_progress");
    row.locked_at = Some(to_owned(now));
    row.worker_id = Some(to_owned(worker_id));
    row.attempt_count = job.attempt_count + 1;
    row.updated_at = to_owned(now);
    row
}

/// Finished: status `done`.
pub open spec fn done_record(j: JobRecord, now: Seq<char>) -> JobRecord {
    JobRecord { status: "done"@, updated_at: now, ..j }
}

/// The record of a job that finished.
pub fn mark_done(job: &JobRow, now: &str) -> (row: JobRow)
    ensures
        row@ == done_record(job@, now@),
{
    let mut row = job.copy();
    row.status = to_owned("done");
    row.updated_at = to_owned(now);
    row
}

/// Failed for good: status `failed`, the last error recorded.
pub open spec fn failed_job_record(j: JobRecord, error: Seq<char>, now: Seq<char>) -> JobRecord {
    JobRecord { status: "failed"@, last_error: Some(error), updated_at: now, ..j }
}

/// The record of a job that failed for good.
pub fn mark_failed(job: &JobRow, error: &str, now: &str) -> (row: JobRow)
    ensures
        row@ == failed_job_record(job@, error@, now@),
{
    let mut row = job.copy();
    row.status = to_owned("failed");
    row.last_error = Some(to_owned(error));
    row.updated_at = to_owned(now);
    row
}

/// Back to pending with the lock released, the error recorded and a new due time.
pub open spec fn rescheduled_record(j: JobRecord, error: Seq<char>, scheduled_at: Seq<char>, now: Seq<char>) -> JobRecord {
    JobRecord {
        status: "pending"@,
        locked_at: None,
        worker_id: None,
        last_error: Some(error),
        scheduled_at,
        updated_at: now,
        ..j
    }
}

/// The record of a job put back in the queue at time `now_seconds`, due
/// `backoff_seconds` later.
pub fn reschedule_at(job: &JobRow, error: &str, backoff_seconds: i64, now_seconds: i64) -> (row: JobRow)
    requires
        in_utc_range(now_seconds as int),
        in_utc_range(now_seconds + backoff_seconds),
    ensures
        row@ == rescheduled_record(job@, error@, rfc3339_utc(now_seconds + backoff_seconds),
            rfc3339_utc(now_seconds as int)),
{
    let mut row = job.copy();
    row.status = to_owned("pending");
    row.locked_at = None;
    row.worker_id = None;
    row.last_error = Some(to_owned(error));
    row.scheduled_at = format_utc_seconds(now_seconds + backoff_seconds);
    row.updated_at = format_utc_seconds(now_seconds);
    row
}

/// The record of a job put back in the queue at time `now_seconds`, due
/// `backoff_seconds` later; `None` exactly when that due time is beyond the
/// times `chrono` holds.
pub fn reschedule_from(job: &JobRow, error: &str, backoff_seconds: i64, now_seconds: i64) -> (res: Option<JobRow>)
    requires
        in_utc_range(now_seconds as int),
    ensures
        res is Some <==> in_utc_range(now_seconds + backoff_seconds),
        res matches Some(row) ==> row@ == rescheduled_record(job@, error@,
            rfc3339_utc(now_seconds + backoff_seconds), rfc3339_utc(now_seconds as int)),
{
    let due: i128 = now_seconds as i128 + backoff_seconds as i128;
    if EARLIEST_UTC_SECONDS as i128 <= due && due <= LATEST_UTC_SECONDS as i128 {
        Some(reschedule_at(job, error, backoff_seconds, now_seconds))
    } else {
        None
    }
}

/// The record of a job put back in the queue now, due `backoff_seconds`
/// from now; `None` exactly when that due time is beyond the times `chrono`
/// holds (the clock reads no earlier than the epoch, so a delay that is not
/// negative fails only past the end of `chrono`'s range).
pub fn reschedule(job: &JobRow, error: &str, backoff_seconds: i64) -> (res: Option<JobRow>)
    ensures
        exists|t: int| #[trigger] in_utc_range(t) && 0 <= t && ({
            &&& res is Some <==> in_utc_range(t + backoff_seconds)
            &&& res matches Some(row) ==> row@ == rescheduled_record(job@, error@,
                rfc3339_utc(t + backoff_seconds), rfc3339_utc(t))
        }),
{
    let t = clock_seconds();
    reschedule_from(job, error, backoff_seconds, t)
}

/// How long a worker's lock on a job holds without a refresh, in seconds.
pub const LOCK_TIMEOUT_SECONDS: i64 = 900;

/// How often a worker refreshes the lock of the job it processes, in seconds.
pub const HEARTBEAT_INTERVAL_SECONDS: u64 = 30;

/// Whether a job may be claimed at time `now`: a pending job that is due,
/// or a job in progress whose lock is older than `lock_cutoff` (its worker
/// is gone). A job whose attempt count cannot grow is never claimed.
pub open spec fn is_claimable(j: JobRecord, now: Seq<char>, lock_cutoff: Option<Seq<char>>) -> bool {
    &&& j.attempt_count < i32::MAX
    &&& {
        ||| j.status == "pending"@ && lex_le(j.scheduled_at, now)
        ||| j.status == "in_progress"@ && lock_cutoff is Some && j.locked_at is Some
            && lex_lt(j.locked_at.unwrap(), lock_cutoff.unwrap())
    }
}

/// Whether a job may be claimed at time `now`.
pub fn claimable(job: &JobRow, now: &str, lock_cutoff: Option<&str>) -> (res: bool)
    ensures
        res == is_claimable(job@, now@, match lock_cutoff { Some(c) => Some(c@), None => None }),
{
    proof {
        reveal_strlit("pending");
        reveal_strlit("in_progress");
    }
    assert("pending"@.len() != "in_progress"@.len());
    if job.attempt_count == i32::MAX {
        return false;
    }
    if str_eq(job.status.as_str(), "pending") {
        return str_lex_le(job.scheduled_at.as_str(), now);
    }
    if str_eq(job.status.as_str(), "in_progress") {
        match (&job.locked_at, lock_cutoff) {
            (Some(l), Some(c)) => {
                return str_lex_le(l.as_str(), c) && !str_eq(l.as_str(), c);
            },
            _ => {
                return false;
            },
        }
    }
    false
}

/// The views of a list of jobs.
pub open spec fn job_views(jobs: Seq<JobRow>) -> Seq<JobRecord> {
    jobs.map_values(|j: JobRow| j@)
}

/// Whether job `i` is the claimable job due first (the earliest in the
/// list among those due at the same time).
pub open spec fn is_next_job(jobs: Seq<JobRecord>, i: int, now: Seq<char>, lock_cutoff: Option<Seq<char>>) -> bool {
    &&& 0 <= i < jobs.len()
    &&& is_claimable(jobs[i], now, lock_cutoff)
    &&& forall|k: int| 0 <= k < jobs.len() && is_claimable(#[trigger] jobs[k], now, lock_cutoff)
        ==> lex_le(jobs[i].scheduled_at, jobs[k].scheduled_at)
    &&& forall|k: int| 0 <= k < i && is_claimable(#[trigger] jobs[k], now, lock_cutoff)
        ==> !lex_le(jobs[k].scheduled_at, jobs[i].scheduled_at)
}

/// The claimable job due first, if any.
pub fn pick_next_job(jobs: &[JobRow], now: &str, lock_cutoff: Option<&str>) -> (res: Option<usize>)
    ensures
        match res {
            Some(i) => is_next_job(job_views(jobs@), i as int, now@,
                match lock_cutoff { Some(c) => Some(c@), None => None }),
            None => forall|k: int| 0 <= k < jobs@.len() ==> !is_claimable(#[trigger] job_views(jobs@)[k], now@,
                match lock_cutoff { Some(c) => Some(c@), None => None }),
        },
{
    let ghost cut = match lock_cutoff { Some(c) => Some(c@), None => None };
    let ghost js = job_views(jobs@);
    let mut best: Option<usize> = None;
    let mut i: usize = 0;
    while i < jobs.len()
        invariant
            js == job_views(jobs@),
            cut == match lock_cutoff { Some(c) => Some(c@), None => None },
            i <= jobs@.len(),
            match best {
                Some(b) => b < i && is_claimable(js[b as int], now@, cut)
                    && (forall|k: int| 0 <= k < i && is_claimable(#[trigger] js[k], now@, cut)
                        ==> lex_le(js[b as int].scheduled_at, js[k].scheduled_at))
                    && (forall|k: int| 0 <= k < b && is_claimable(#[trigger] js[k], now@, cut)
                        ==> !lex_le(js[k].scheduled_at, js[b as int].scheduled_at)),
                None => forall|k: int| 0 <= k < i ==> !is_claimable(#[trigger] js[k], now@, cut),
            },
        decreases jobs@.len() - i,
    {
        assert(js[i as int] == jobs@[i as int]@);
        if claimable(&jobs[i], now, lock_cutoff) {
            match best {
                None => {
                    proof {
                        lemma_lex_total(js[i as int].scheduled_at, js[i as int].scheduled_at);
                    }
                    best = Some(i);
                },
                Some(b) => {
                    assert(js[b as int] == jobs@[b as int]@);
                    let keep = str_lex_le(jobs[b].scheduled_at.as_str(), jobs[i].scheduled_at.as_str());
                    if keep {
                        assert forall|k: int| 0 <= k < i + 1 && is_claimable(#[trigger] js[k], now@, cut)
                            implies lex_le(js[b as int].scheduled_at, js[k].scheduled_at) by {
                            if k == i {
                                assert(js[b as int].scheduled_at == jobs@[b as int].scheduled_at@);
                            }
                        }
                    } else {
                        proof {
                            lemma_lex_total(js[b as int].scheduled_at, js[i as int].scheduled_at);
                            assert forall|k: int| 0 <= k < i + 1 && is_claimable(#[trigger] js[k], now@, cut)
                                implies lex_le(js[i as int].scheduled_at, js[k].scheduled_at) by {
                                if k < i {
                                    lemma_lex_transitive(js[i as int].scheduled_at, js[b as int].scheduled_at, js[k].scheduled_at);
                                } else {
                                    lemma_lex_total(js[i as int].scheduled_at, js[i as int].scheduled_at);
                                }
                            }
                            assert forall|k: int| 0 <= k < i && is_claimable(#[trigger] js[k], now@, cut)
                                implies !lex_le(js[k].scheduled_at, js[i as int].scheduled_at) by {
                                if lex_le(js[k].scheduled_at, js[i as int].scheduled_at) {
                                    lemma_lex_transitive(js[b as int].scheduled_at, js[k].scheduled_at, js[i as int].scheduled_at);
                                }
                            }
                        }
                        best = Some(i);
                    }
                },
            }
        } else {
            assert(!is_claimable(js[i as int], now@, cut));
        }
        i = i + 1;
    }
    best
}

/// The job a worker claims at time `now_seconds`, and its claimed record:
/// the claimable job due first, where a lock older than the lock timeout
/// counts as gone.
pub fn claim_next_at(jobs: &[JobRow], worker_id: &str, now_seconds: i64) -> (res: Option<(usize, JobRow)>)
    requires
        in_utc_range(now_seconds as int),
    ensures
        ({
            let now = rfc3339_utc(now_seconds as int);
            let cut = if in_utc_range(now_seconds - LOCK_TIMEOUT_SECONDS) {
                Some(rfc3339_utc(now_seconds - LOCK_TIMEOUT_SECONDS))
            } else {
                None
            };
            match res {
                Some((i, row)) => is_next_job(job_views(jobs@), i as int, now, cut)
                    && row@ == claimed_record(jobs@[i as int]@, worker_id@, now),
                None => forall|k: int| 0 <= k < jobs@.len() ==> !is_claimable(#[trigger] job_views(jobs@)[k], now, cut),
            }
        }),
{
    let now = format_utc_seconds(now_seconds);
    let cutoff = if now_seconds >= EARLIEST_UTC_SECONDS + LOCK_TIMEOUT_SECONDS {
        Some(format_utc_seconds(now_seconds - LOCK_TIMEOUT_SECONDS))
    } else {
        None
    };
    let picked = match &cutoff {
        Some(c) => pick_next_job(jobs, now.as_str(), Some(c.as_str())),
        None => pick_next_job(jobs, now.as_str(), None),
    };
    match picked {
        None => None,
        Some(i) => {
            assert(job_views(jobs@)[i as int] == jobs@[i as int]@);
            let row = claim_pending(&jobs[i], worker_id, now.as_str());
            Some((i, row))
        },
    }
}

/// The job a worker claims now among `jobs`, and its claimed record.
pub fn claim_next(jobs: &[JobRow], worker_id: &str) -> (res: Option<(usize, JobRow)>)
    ensures
        exists|t: int| #[trigger] in_utc_range(t) && ({
            let now = rfc3339_utc(t);
            let cut = if in_utc_range(t - LOCK_TIMEOUT_SECONDS) {
                Some(rfc3339_utc(t - LOCK_TIMEOUT_SECONDS))
            } else {
                None
            };
            match res {
                Some((i, row)) => is_next_job(job_views(jobs@), i as int, now, cut)
                    && row@ == claimed_record(jobs@[i as int]@, worker_id@, now),
                None => forall|k: int| 0 <= k < jobs@.len() ==> !is_claimable(#[trigger] job_views(jobs@)[k], now, cut),
            }
        }),
{
    let t = clock_seconds();
    claim_next_at(jobs, worker_id, t)
}

/// The lock refreshed at `now`: only for a job in progress held by this worker.
pub open spec fn refreshed_lock(j: JobRecord, worker_id: Seq<char>, now: Seq<char>) -> Option<JobRecord> {
    if j.status == "in_progress"@ && j.worker_id == Some(worker_id) {
        Some(JobRecord { locked_at: Some(now), updated_at: now, ..j })
    } else {
        None
    }
}

/// The record of a job whose worker is still processing it, with its lock
/// refreshed; `None` when the job is no longer this worker's.
pub fn refresh_lock(job: &JobRow, worker_id: &str, now: &str) -> (res: Option<JobRow>)
    ensures
        match res {
            Some(r) => refreshed_lock(job@, worker_id@, now@) == Some(r@),
            None => refreshed_lock(job@, worker_id@, now@) is None,
        },
{
    let held = match &job.worker_id {
        Some(w) => str_eq(w.as_str(), worker_id),
        None => false,
    };
    if str_eq(job.status.as_str(), "in_progress") && held {
        let mut row = job.copy();
        row.locked_at = Some(to_owned(now));
        row.updated_at = to_owned(now);
        Some(row)
    } else {
        None
    }
}

/// A failed job queued again for a new source: pending, due now, attempts
/// counted afresh, no lock and no error.
pub open spec fn requeued_record(j: JobRecord, source_path: Seq<char>, now: Seq<char>) -> JobRecord {
    JobRecord {
        source_path,
        status: "pending"@,
        attempt_count: 0,
        scheduled_at: now,
        locked_at: None,
        worker_id: None,
        last_error: None,
        updated_at: now,
        ..j
    }
}

/// What to store for the processing job of an uploaded source.
pub enum JobWrite {
    /// No job exists for the video: insert this one.
    Insert(JobRow),
    /// The video's job failed: store it queued again.
    Requeue(JobRow),
    /// The video already has a live or finished job: store nothing.
    Keep,
}

/// What to store for the processing job of a video whose source is now at
/// `source_path`, given the job already stored under the video's
/// idempotency key, if any: a new job when there is none, the failed job
/// queued again for the new source, and nothing otherwise.
pub fn job_for_upload(existing: Option<&JobRow>, job_id: &str, video_id: &str, source_path: &str, now: &str) -> (w: JobWrite)
    ensures
        match existing {
            None => w matches JobWrite::Insert(j) && j@ == new_job_record(job_id@, video_id@, source_path@, now@),
            Some(e) => if e.status@ == "failed"@ {
                w matches JobWrite::Requeue(j) && j@ == requeued_record(e@, source_path@, now@)
            } else {
                w is Keep
            },
        },
{
    match existing {
        None => JobWrite::Insert(insert(job_id, video_id, source_path, now)),
        Some(e) => {
            if str_eq(e.status.as_str(), "failed") {
                let mut row = e.copy();
                row.source_path = to_owned(source_path);
                row.status = to_owned("pending");
                row.attempt_count = 0;
                row.scheduled_at = to_owned(now);
                row.locked_at = None;
                row.worker_id = None;
                row.last_error = None;
                row.updated_at = to_owned(now);
                JobWrite::Requeue(row)
            } else {
                JobWrite::Keep
            }
        },
    }
}

} // verus!
