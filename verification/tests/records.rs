use streamdrop::db;
use streamdrop::utils::{EARLIEST_UTC_SECONDS, LATEST_UTC_SECONDS};
use streamdrop::errors::AppError;
use streamdrop::models::VideoRow;

fn ok(r: Result<VideoRow, AppError>) -> VideoRow {
    match r {
        Ok(v) => v,
        Err(e) => panic!("refused: {}", e.message()),
    }
}
use streamdrop::models::{JobStatus, ProcessingStage, VideoStatus};

#[test]
fn new_video_record() {
    let v = db::videos::insert("vid_1", "T", "a.mp4", 5, "video/mp4", "shr_1", "t0");
    assert_eq!(v.status, "uploading");
    assert_eq!(v.upload_initiated_at, "t0");
    assert_eq!(v.created_at, "t0");
    assert_eq!(v.updated_at, "t0");
    assert_eq!(v.source_path, None);
}

#[test]
fn video_lifecycle_writes() {
    let v = db::videos::insert("vid_1", "T", "a.mp4", 5, "video/mp4", "shr_1", "t0");
    let v = ok(db::videos::mark_upload_complete(&v, "p", "t1"));
    assert_eq!(VideoStatus::parse(&v.status), Some(VideoStatus::Processing));
    let v = db::videos::mark_processing_started(&v, "t2");
    assert_eq!(v.processing_started_at.as_deref(), Some("t2"));
    let v = ok(db::videos::update_status(&v, "processing", Some("probing"), "t3"));
    assert_eq!(v.processing_stage.as_deref(), Some("probing"));
    let p = ok(db::videos::mark_playable(&v, "t4"));
    assert_eq!(p.status, "playable");
    assert_eq!(p.processing_stage, None);
    assert_eq!(p.processing_completed_at.as_deref(), Some("t4"));
    let f = ok(db::videos::mark_failed(&v, "transcoding", "boom", "t5"));
    assert_eq!(f.status, "failed");
    assert_eq!(f.failure_stage.as_deref(), Some("transcoding"));
    assert_eq!(f.failure_reason.as_deref(), Some("boom"));
    assert_eq!(f.error_code.as_deref(), Some("PROCESSING_FAILED"));
    assert_eq!(f.error_message.as_deref(), Some("boom"));
    assert_eq!(f.failed_at.as_deref(), Some("t5"));
    let r = ok(db::videos::reset_for_reupload(&f, "t6"));
    assert_eq!(r.status, "uploading");
    assert_eq!(r.source_path, None);
    assert_eq!(r.processing_started_at, None);
    assert_eq!(r.error_code, None);
    assert_eq!(r.updated_at, "t6");
    assert_eq!(r.id, "vid_1");
}

#[test]
fn job_lifecycle_writes() {
    let j = db::jobs::insert("job_1", "vid_1", "p", "t0");
    assert_eq!(j.status, "pending");
    assert_eq!(j.scheduled_at, "t0");
    let c = db::jobs::claim_pending(&j, "worker_1", "t1");
    assert_eq!(c.status, "in_progress");
    assert_eq!(c.attempt_count, 1);
    assert_eq!(c.locked_at.as_deref(), Some("t1"));
    assert_eq!(c.worker_id.as_deref(), Some("worker_1"));
    let r = db::jobs::reschedule_at(&c, "err", 10, 1_772_973_296);
    assert_eq!(r.status, "pending");
    assert_eq!(r.locked_at, None);
    assert_eq!(r.worker_id, None);
    assert_eq!(r.last_error.as_deref(), Some("err"));
    assert_eq!(r.attempt_count, 1);
    assert_eq!(r.scheduled_at, "2026-03-08T12:35:06Z");
    assert_eq!(r.updated_at, "2026-03-08T12:34:56Z");
    let d = db::jobs::mark_done(&c, "t3");
    assert_eq!(d.status, "done");
    let f = db::jobs::mark_failed(&c, "final", "t4");
    assert_eq!(f.status, "failed");
    assert_eq!(f.last_error.as_deref(), Some("final"));
}

#[test]
fn one_key_per_video() {
    assert_eq!(db::jobs::idempotency_key("vid_1"), "process_video:vid_1");
    assert_eq!(db::jobs::idempotency_key("vid_1"), db::jobs::idempotency_key("vid_1"));
    assert_ne!(db::jobs::idempotency_key("vid_1"), db::jobs::idempotency_key("vid_2"));
}

#[test]
fn status_texts_round_trip() {
    for s in [VideoStatus::Uploading, VideoStatus::Processing, VideoStatus::Playable, VideoStatus::Failed] {
        assert_eq!(VideoStatus::parse(s.as_str()), Some(s));
    }
    for s in [JobStatus::Pending, JobStatus::InProgress, JobStatus::Done, JobStatus::Failed] {
        assert_eq!(JobStatus::parse(s.as_str()), Some(s));
    }
    assert_eq!(VideoStatus::parse("Playable"), None);
    assert_eq!(ProcessingStage::Queued.as_str(), "queued");
    assert_eq!(ProcessingStage::Publishing.as_str(), "publishing");
    assert_eq!(JobStatus::InProgress.as_str(), "in_progress");
}

fn refusal(r: Result<VideoRow, AppError>) -> (u16, String) {
    match r {
        Ok(_) => panic!("expected a refusal"),
        Err(e) => (e.status_code(), e.message().to_string()),
    }
}

#[test]
fn invalid_transitions_are_refused() {
    let up = db::videos::insert("vid_1", "T", "a.mp4", 5, "video/mp4", "shr_1", "t0");
    assert_eq!(refusal(db::videos::mark_playable(&up, "t1")), (409, "Invalid status transition: uploading -> playable".to_string()));
    assert_eq!(refusal(db::videos::mark_failed(&up, "probing", "x", "t1")).0, 409);
    assert_eq!(refusal(db::videos::reset_for_reupload(&up, "t1")).0, 409);
    let proc = ok(db::videos::mark_upload_complete(&up, "p", "t1"));
    assert_eq!(refusal(db::videos::mark_upload_complete(&proc, "p", "t2")), (409, "Invalid status transition: processing -> processing".to_string()));
    let failed = ok(db::videos::mark_failed(&proc, "probing", "x", "t2"));
    assert_eq!(refusal(db::videos::mark_playable(&failed, "t3")), (409, "Invalid status transition: failed -> playable".to_string()));
    assert_eq!(refusal(db::videos::update_status(&failed, "processing", Some("probing"), "t3")), (409, "Invalid status transition: failed -> processing".to_string()));
    assert_eq!(refusal(db::videos::update_status(&proc, "done", None, "t3")), (409, "Invalid status transition: processing -> done".to_string()));
    let playable = ok(db::videos::mark_playable(&proc, "t3"));
    assert_eq!(refusal(db::videos::mark_failed(&playable, "publishing", "x", "t4")).0, 409);
    assert!(db::videos::update_status(&proc, "processing", Some("transcoding"), "t4").is_ok());
}

fn job(id: &str, status: &str, scheduled_at: &str, locked_at: Option<&str>) -> streamdrop::models::JobRow {
    let mut j = db::jobs::insert(id, "vid_1", "p", scheduled_at);
    j.status = status.to_string();
    j.locked_at = locked_at.map(|l| l.to_string());
    j
}

// 2026-03-08T12:34:56Z
const NOW: i64 = 1_772_973_296;

#[test]
fn claim_takes_the_due_pending_job_first() {
    let jobs = vec![
        job("job_a", "pending", "2026-03-08T12:40:00Z", None),
        job("job_b", "pending", "2026-03-08T12:30:00Z", None),
        job("job_c", "pending", "2026-03-08T12:20:00Z", None),
        job("job_d", "done", "2026-03-08T12:00:00Z", None),
    ];
    let (i, row) = db::jobs::claim_next_at(&jobs, "worker_1", NOW).unwrap();
    assert_eq!(i, 2);
    assert_eq!(row.id, "job_c");
    assert_eq!(row.status, "in_progress");
    assert_eq!(row.attempt_count, 1);
    assert_eq!(row.worker_id.as_deref(), Some("worker_1"));
    assert_eq!(row.locked_at.as_deref(), Some("2026-03-08T12:34:56Z"));
}

#[test]
fn jobs_not_yet_due_are_left_alone() {
    let jobs = vec![job("job_a", "pending", "2026-03-08T12:35:06Z", None)];
    assert!(db::jobs::claim_next_at(&jobs, "worker_1", NOW).is_none());
    assert!(db::jobs::claim_next_at(&jobs, "worker_1", NOW + 10).is_some());
}

#[test]
fn stale_locks_are_reclaimed_fresh_ones_are_not() {
    let fresh = vec![job("job_a", "in_progress", "2026-03-08T12:00:00Z", Some("2026-03-08T12:20:00Z"))];
    assert!(db::jobs::claim_next_at(&fresh, "worker_2", NOW).is_none());
    let stale = vec![job("job_a", "in_progress", "2026-03-08T12:00:00Z", Some("2026-03-08T12:19:55Z"))];
    let (_, row) = db::jobs::claim_next_at(&stale, "worker_2", NOW).unwrap();
    assert_eq!(row.worker_id.as_deref(), Some("worker_2"));
    assert_eq!(row.locked_at.as_deref(), Some("2026-03-08T12:34:56Z"));
}

#[test]
fn claim_now_reads_the_clock() {
    let jobs = vec![job("job_a", "pending", "2000-01-01T00:00:00Z", None)];
    assert!(db::jobs::claim_next(&jobs, "w").is_some());
    let later = vec![job("job_a", "pending", "9999-01-01T00:00:00Z", None)];
    assert!(db::jobs::claim_next(&later, "w").is_none());
}

#[test]
fn heartbeat_refreshes_only_own_lock() {
    let c = db::jobs::claim_pending(&db::jobs::insert("job_1", "vid_1", "p", "t0"), "worker_1", "t1");
    let r = db::jobs::refresh_lock(&c, "worker_1", "t2").unwrap();
    assert_eq!(r.locked_at.as_deref(), Some("t2"));
    assert_eq!(r.updated_at, "t2");
    assert!(db::jobs::refresh_lock(&c, "worker_2", "t2").is_none());
    assert!(db::jobs::refresh_lock(&db::jobs::mark_done(&c, "t3"), "worker_1", "t4").is_none());
}

#[test]
fn reschedule_now_is_due_after_the_backoff() {
    let c = db::jobs::claim_pending(&db::jobs::insert("job_1", "vid_1", "p", "t0"), "w", "t1");
    let r = db::jobs::reschedule(&c, "err", 30).unwrap();
    assert!(r.updated_at < r.scheduled_at, "{} {}", r.updated_at, r.scheduled_at);
    assert!(db::jobs::reschedule(&c, "err", i64::MAX / 1000).is_none());
}

#[test]
fn upload_job_is_inserted_requeued_or_kept() {
    match db::jobs::job_for_upload(None, "job_1", "vid_1", "p1", "t0") {
        db::jobs::JobWrite::Insert(j) => assert_eq!(j.idempotency_key, "process_video:vid_1"),
        _ => panic!("expected an insert"),
    }
    let pending = db::jobs::insert("job_1", "vid_1", "p1", "t0");
    assert!(matches!(db::jobs::job_for_upload(Some(&pending), "job_2", "vid_1", "p2", "t1"), db::jobs::JobWrite::Keep));
    let failed = db::jobs::mark_failed(&db::jobs::claim_pending(&pending, "w", "t1"), "boom", "t2");
    match db::jobs::job_for_upload(Some(&failed), "job_2", "vid_1", "p2", "t3") {
        db::jobs::JobWrite::Requeue(j) => {
            assert_eq!(j.id, "job_1");
            assert_eq!(j.status, "pending");
            assert_eq!(j.source_path, "p2");
            assert_eq!(j.attempt_count, 0);
            assert_eq!(j.scheduled_at, "t3");
            assert_eq!(j.last_error, None);
        },
        _ => panic!("expected a requeue"),
    }
}

#[test]
fn utc_range_is_chronos() {
    assert_eq!(chrono::DateTime::<chrono::Utc>::MIN_UTC.timestamp(), EARLIEST_UTC_SECONDS);
    assert_eq!(chrono::DateTime::<chrono::Utc>::MAX_UTC.timestamp(), LATEST_UTC_SECONDS);
    assert!(chrono::DateTime::from_timestamp(EARLIEST_UTC_SECONDS, 0).is_some());
    assert!(chrono::DateTime::from_timestamp(LATEST_UTC_SECONDS, 0).is_some());
    assert!(chrono::DateTime::from_timestamp(EARLIEST_UTC_SECONDS - 1, 0).is_none());
    assert!(chrono::DateTime::from_timestamp(LATEST_UTC_SECONDS + 1, 0).is_none());
    let first = chrono::DateTime::from_timestamp(EARLIEST_UTC_SECONDS, 0).unwrap().date_naive();
    assert_eq!(first, chrono::NaiveDate::MIN);
    assert_eq!(chrono::Datelike::ordinal(&first), 1);
    assert_eq!(chrono::Datelike::year(&first), -262143);
}

#[test]
fn reschedule_from_a_given_time() {
    let c = db::jobs::claim_pending(&db::jobs::insert("job_1", "vid_1", "p", "t0"), "w", "t1");
    let r = db::jobs::reschedule_from(&c, "err", 90, NOW).unwrap();
    assert_eq!(r.scheduled_at, "2026-03-08T12:36:26Z");
    assert_eq!(r.updated_at, "2026-03-08T12:34:56Z");
    assert_eq!(r.status, "pending");
    assert_eq!(r.attempt_count, 1);
    assert!(db::jobs::reschedule_from(&c, "err", 1, LATEST_UTC_SECONDS).is_none());
    assert!(db::jobs::reschedule_from(&c, "err", 0, LATEST_UTC_SECONDS).is_some());
    assert!(db::jobs::reschedule(&c, "err", 0).is_some());
}

#[test]
fn equal_due_times_go_in_list_order() {
    let jobs = vec![
        job("job_a", "pending", "2026-03-08T12:30:00Z", None),
        job("job_b", "pending", "2026-03-08T12:20:00Z", None),
        job("job_c", "pending", "2026-03-08T12:20:00Z", None),
    ];
    assert_eq!(db::jobs::pick_next_job(&jobs, "2026-03-08T12:34:56Z", None), Some(1));
}
