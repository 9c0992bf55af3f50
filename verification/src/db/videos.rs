//! What each write to the `videos` table does to a video record.
use vstd::prelude::*;
use crate::errors::AppError;
use crate::models::{allowed_video_transition, parse_video_status, video_status_text, VideoRecord, VideoRow, VideoStatus};
use crate::text::{push_str, to_owned};

verus! {

/// The message a refused status change is answered with.
pub open spec fn transition_message(from: Seq<char>, to: Seq<char>) -> Seq<char> {
    "Invalid status transition: "@ + from + " -> "@ + to
}

/// Why a video in status `from` may not move to `to`, as status code and
/// message, or `None` when the video state machine allows the move.
pub open spec fn transition_refusal(from: Seq<char>, to: VideoStatus) -> Option<(u16, Seq<char>)> {
    if parse_video_status(from) is Some && allowed_video_transition(parse_video_status(from).unwrap(), to) {
        None
    } else {
        Some((409u16, transition_message(from, video_status_text(to))))
    }
}

/// Why a video in status `from` may not be set to the status named `to`
/// (staying in the same status is allowed), or `None` when it may.
pub open spec fn status_change_refusal(from: Seq<char>, to: Seq<char>) -> Option<(u16, Seq<char>)> {
    if parse_video_status(from) is Some && parse_video_status(to) is Some && (
        parse_video_status(from) == parse_video_status(to)
        || allowed_video_transition(parse_video_status(from).unwrap(), parse_video_status(to).unwrap()))
    {
        None
    } else {
        Some((409u16, transition_message(from, to)))
    }
}

/// Whether `res` is the record `expected`, or the refusal `refusal` describes.
pub open spec fn write_matches(res: Result<VideoRow, AppError>, refusal: Option<(u16, Seq<char>)>, expected: VideoRecord) -> bool {
    match res {
        Ok(r) => refusal is None && r@ == expected,
        Err(e) => refusal == Some((e.spec_status_code(), e.spec_message())),
    }
}

/// Whether the state machine allows a move.
pub fn transition_allowed(from: VideoStatus, to: VideoStatus) -> (res: bool)
    ensures
        res == allowed_video_transition(from, to),
{
    match (from, to) {
        (VideoStatus::Uploading, VideoStatus::Processing) => true,
        (VideoStatus::Processing, VideoStatus::Playable) => true,
        (VideoStatus::Processing, VideoStatus::Failed) => true,
        (VideoStatus::Failed, VideoStatus::Uploading) => true,
        _ => false,
    }
}

fn refuse(from: &str, to: &str) -> (e: AppError)
    ensures
        e.spec_status_code() == 409,
        e.spec_message() == transition_message(from@, to@),
{
    let mut m = to_owned("Invalid status transition: ");
    push_str(&mut m, from);
    push_str(&mut m, " -> ");
    push_str(&mut m, to);
    AppError::Conflict(m)
}

/// Refuses a move of a video in status `from` to `to` that the state machine forbids.
pub fn check_transition(from: &str, to: VideoStatus) -> (res: Result<(), AppError>)
    ensures
        match res {
            Ok(()) => transition_refusal(from@, to) is None,
            Err(e) => transition_refusal(from@, to) == Some((e.spec_status_code(), e.spec_message())),
        },
{
    match VideoStatus::parse(from) {
        Some(f) => {
            if transition_allowed(f, to) {
                return Ok(());
            }
        },
        None => {},
    }
    Err(refuse(from, to.as_str()))
}

/// The record a new video is stored with: status `uploading`, no stage,
/// no source, no error, every timestamp `now`.
pub open spec fn new_video_record(
    id: Seq<char>,
    title: Seq<char>,
    filename: Seq<char>,
    size_bytes: int,
    mime_type: Seq<char>,
    share_token: Seq<char>,
    now: Seq<char>,
) -> VideoRecord {
    VideoRecord {
        id,
        title,
        filename,
        size_bytes,
        mime_type,
        status: "uploading"@,
        share_token,
        processing_stage: None,
        source_path: None,
        error_code: None,
        error_message: None,
        upload_initiated_at: now,
        upload_completed_at: None,
        processing_started_at: None,
        processing_completed_at: None,
        failed_at: None,
        failure_stage: None,
        failure_reason: None,
        created_at: now,
        updated_at: now,
    }
}

/// The record to insert for a newly created video. Whether its id or share
/// token is already taken is for the store to refuse (its unique indexes).
pub fn insert(
    id: &str,
    title: &str,
    filename: &str,
    size_bytes: i64,
    mime_type: &str,
    share_token: &str,
    now: &str,
) -> (row: VideoRow)
    ensures
        row@ == new_video_record(id@, title@, filename@, size_bytes as int, mime_type@, share_token@, now@),
{
    VideoRow {
        id: to_owned(id),
        title: to_owned(title),
        filename: to_owned(filename),
        size_bytes,
        mime_type: to_owned(mime_type),
        status: to_owned("uploading"),
        share_token: to_owned(share_token),
        processing_stage: None,
        source_path: None,
        error_code: None,
        error_message: None,
        upload_initiated_at: to_owned(now),
        upload_completed_at: None,
        processing_started_at: None,
        processing_completed_at: None,
        failed_at: None,
        failure_stage: None,
        failure_reason: None,
        created_at: to_owned(now),
        updated_at: to_owned(now),
    }
}

/// The source is stored: status `processing`, stage `queued`, the source
/// path and the completion time recorded.
pub open spec fn upload_complete_record(v: VideoRecord, source_path: Seq<char>, now: Seq<char>) -> VideoRecord {
    VideoRecord {
        status: "processing"@,
        processing_stage: Some("queued"@),
        source_path: Some(source_path),
        upload_completed_at: Some(now),
        updated_at: now,
        ..v
    }
}

/// The record after its source upload completed; refused unless the video
/// is `uploading`.
pub fn mark_upload_complete(video: &VideoRow, source_path: &str, now: &str) -> (res: Result<VideoRow, AppError>)
    ensures
        write_matches(res, transition_refusal(video.status@, VideoStatus::Processing), upload_complete_record(video@, source_path@, now@)),
{
    match check_transition(video.status.as_str(), VideoStatus::Processing) {
        Err(e) => return Err(e),
        Ok(()) => {},
    }
    let mut row = video.copy();
    row.status = to_owned("processing");
    row.processing_stage = Some(to_owned("queued"));
    row.source_path = Some(to_owned(source_path));
    row.upload_completed_at = Some(to_owned(now));
    row.updated_at = to_owned(now);
    Ok(row)
}

/// Status and stage set to the given values.
pub open spec fn status_record(v: VideoRecord, status: Seq<char>, stage: Option<Seq<char>>, now: Seq<char>) -> VideoRecord {
    VideoRecord { status, processing_stage: stage, updated_at: now, ..v }
}

/// The record with its status and processing stage replaced; refused unless
/// the new status is the current one or one the state machine allows next.
pub fn update_status(video: &VideoRow, status: &str, processing_stage: Option<&str>, now: &str) -> (res: Result<VideoRow, AppError>)
    ensures
        write_matches(res, status_change_refusal(video.status@, status@), status_record(
            video@,
            status@,
            match processing_stage { Some(s) => Some(s@), None => None },
            now@,
        )),
{
    let allowed = match (VideoStatus::parse(video.status.as_str()), VideoStatus::parse(status)) {
        (Some(f), Some(t)) => f == t || transition_allowed(f, t),
        _ => false,
    };
    if !allowed {
        return Err(refuse(video.status.as_str(), status));
    }
    let mut row = video.copy();
    row.status = to_owned(status);
    row.processing_stage = match processing_stage {
        Some(s) => Some(to_owned(s)),
        None => None,
    };
    row.updated_at = to_owned(now);
    Ok(row)
}

/// Processing start time recorded.
pub open spec fn processing_started_record(v: VideoRecord, now: Seq<char>) -> VideoRecord {
    VideoRecord { processing_started_at: Some(now), updated_at: now, ..v }
}

/// The record once a worker starts processing it.
pub fn mark_processing_started(video: &VideoRow, now: &str) -> (row: VideoRow)
    ensures
        row@ == processing_started_record(video@, now@),
{
    let mut row = video.copy();
    row.processing_started_at = Some(to_owned(now));
    row.updated_at = to_owned(now);
    row
}

/// Status `playable`, no stage, completion time recorded.
pub open spec fn playable_record(v: VideoRecord, now: Seq<char>) -> VideoRecord {
    VideoRecord {
        status: "playable"@,
        processing_stage: None,
        processing_completed_at: Some(now),
        updated_at: now,
        ..v
    }
}

/// The record once its stream is published; refused unless the video is
/// `processing`.
pub fn mark_playable(video: &VideoRow, now: &str) -> (res: Result<VideoRow, AppError>)
    ensures
        write_matches(res, transition_refusal(video.status@, VideoStatus::Playable), playable_record(video@, now@)),
{
    match check_transition(video.status.as_str(), VideoStatus::Playable) {
        Err(e) => return Err(e),
        Ok(()) => {},
    }
    let mut row = video.copy();
    row.status = to_owned("playable");
    row.processing_stage = None;
    row.processing_completed_at = Some(to_owned(now));
    row.updated_at = to_owned(now);
    Ok(row)
}

/// Status `failed`, the failing stage and reason recorded, error code
/// `PROCESSING_FAILED` with the reason as message.
pub open spec fn failed_record(v: VideoRecord, failure_stage: Seq<char>, failure_reason: Seq<char>, now: Seq<char>) -> VideoRecord {
    VideoRecord {
        status: "failed"@,
        processing_stage: None,
        failed_at: Some(now),
        failure_stage: Some(failure_stage),
        failure_reason: Some(failure_reason),
        error_code: Some("PROCESSING_FAILED"@),
        error_message: Some(failure_reason),
        updated_at: now,
        ..v
    }
}

/// The record after processing failed for good; refused unless the video
/// is `processing`.
pub fn mark_failed(video: &VideoRow, failure_stage: &str, failure_reason: &str, now: &str) -> (res: Result<VideoRow, AppError>)
    ensures
        write_matches(res, transition_refusal(video.status@, VideoStatus::Failed), failed_record(video@, failure_stage@, failure_reason@, now@)),
{
    match check_transition(video.status.as_str(), VideoStatus::Failed) {
        Err(e) => return Err(e),
        Ok(()) => {},
    }
    let mut row = video.copy();
    row.status = to_owned("failed");
    row.processing_stage = None;
    row.failed_at = Some(to_owned(now));
    row.failure_stage = Some(to_owned(failure_stage));
    row.failure_reason = Some(to_owned(failure_reason));
    row.error_code = Some(to_owned("PROCESSING_FAILED"));
    row.error_message = Some(to_owned(failure_reason));
    row.updated_at = to_owned(now);
    Ok(row)
}

/// Status `uploading` with every trace of the previous attempt cleared.
pub open spec fn reset_record(v: VideoRecord, now: Seq<char>) -> VideoRecord {
    VideoRecord {
        status: "uploading"@,
        processing_stage: None,
        source_path: None,
        error_code: None,
        error_message: None,
        upload_completed_at: None,
        processing_started_at: None,
        processing_completed_at: None,
        failed_at: None,
        failure_stage: None,
        failure_reason: None,
        updated_at: now,
        ..v
    }
}

/// The record of a failed video made ready for a new upload; refused unless
/// the video is `failed`.
pub fn reset_for_reupload(video: &VideoRow, now: &str) -> (res: Result<VideoRow, AppError>)
    ensures
        write_matches(res, transition_refusal(video.status@, VideoStatus::Uploading), reset_record(video@, now@)),
{
    match check_transition(video.status.as_str(), VideoStatus::Uploading) {
        Err(e) => return Err(e),
        Ok(()) => {},
    }
    let mut row = video.copy();
    row.status = to_owned("uploading");
    row.processing_stage = None;
    row.source_path = None;
    row.error_code = None;
    row.error_message = None;
    row.upload_completed_at = None;
    row.processing_started_at = None;
    row.processing_completed_at = None;
    row.failed_at = None;
    row.failure_stage = None;
    row.failure_reason = None;
    row.updated_at = to_owned(now);
    Ok(row)
}

} // verus!
