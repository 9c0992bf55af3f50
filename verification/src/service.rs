//! The decisions behind each API call: validation, state checks, and the
//! records and answers each call produces.
use vstd::prelude::*;
use crate::config::{has_supported_extension, is_supported_mime, spec_has_supported_extension, supported_mime_types, MAX_UPLOAD_BYTES};
use crate::db;
use crate::db::jobs::{new_job_record, requeued_record, JobWrite};
use crate::db::videos::{new_video_record, reset_record, transition_refusal, upload_complete_record};
use crate::dto::{CreateVideoRequest, CreateVideoResponse, PlaybackInfo, ShareResponse, UploadSourceResponse, VideoStatusResponse};
use crate::errors::AppError;
use crate::models::{lemma_status_texts, opt_view, JobRow, VideoRow, VideoStatus};
use crate::text::{concat, decimal, i64_to_decimal, push_str, signed_decimal, str_eq, to_owned};
use crate::utils::{in_utc_range, rfc3339_utc, generate_job_id, generate_share_token, generate_video_id, is_prefixed_id, now_iso};

verus! {

/// The error a creation request is refused with, as status code and
/// message, or `None` when it is accepted. The checks run in this order:
/// missing fields, size, MIME type, extension.
pub open spec fn create_request_error(
    title: Seq<char>,
    filename: Seq<char>,
    size_bytes: int,
    mime_type: Seq<char>,
) -> Option<(u16, Seq<char>)> {
    if title.len() == 0 || filename.len() == 0 || mime_type.len() == 0 {
        Some((400u16, "Missing required fields"@))
    } else if size_bytes > MAX_UPLOAD_BYTES {
        Some((413u16, "File size "@ + signed_decimal(size_bytes) + " exceeds maximum of "@ + decimal(MAX_UPLOAD_BYTES as nat) + " bytes"@))
    } else if !supported_mime_types().contains(mime_type) {
        Some((415u16, "Unsupported MIME type: "@ + mime_type))
    } else if !spec_has_supported_extension(filename) {
        Some((415u16, "Unsupported file extension: "@ + filename))
    } else {
        None
    }
}

/// Whether `res` is the outcome that `expected` describes.
pub open spec fn outcome_matches(res: Result<(), AppError>, expected: Option<(u16, Seq<char>)>) -> bool {
    match res {
        Ok(()) => expected is None,
        Err(e) => expected == Some((e.spec_status_code(), e.spec_message())),
    }
}

/// Checks a creation request before anything is stored.
pub fn validate_create_request(request: &CreateVideoRequest) -> (res: Result<(), AppError>)
    ensures
        outcome_matches(res, create_request_error(
            request.title@, request.filename@, request.size_bytes as int, request.mime_type@)),
{
    if request.title.as_str().is_empty() || request.filename.as_str().is_empty() || request.mime_type.as_str().is_empty() {
        return Err(AppError::BadRequest(to_owned("Missing required fields")));
    }
    if request.size_bytes > MAX_UPLOAD_BYTES {
        let mut m = to_owned("File size ");
        let n = i64_to_decimal(request.size_bytes);
        push_str(&mut m, n.as_str());
        push_str(&mut m, " exceeds maximum of ");
        let max = i64_to_decimal(MAX_UPLOAD_BYTES);
        push_str(&mut m, max.as_str());
        push_str(&mut m, " bytes");
        return Err(AppError::PayloadTooLarge(m));
    }
    if !is_supported_mime(request.mime_type.as_str()) {
        return Err(AppError::UnsupportedMedia(concat("Unsupported MIME type: ", request.mime_type.as_str())));
    }
    if !has_supported_extension(request.filename.as_str()) {
        return Err(AppError::UnsupportedMedia(concat("Unsupported file extension: ", request.filename.as_str())));
    }
    Ok(())
}

/// The error an upload to a video in the given status is refused with, or
/// `None` when the upload may proceed (`uploading` or `failed`).
pub open spec fn upload_state_error(status: Seq<char>) -> Option<(u16, Seq<char>)> {
    if status == "processing"@ || status == "playable"@ {
        Some((409u16, "SOURCE_ALREADY_UPLOADED"@))
    } else if status == "uploading"@ || status == "failed"@ {
        None
    } else {
        Some((500u16, "Unexpected video status: "@ + status))
    }
}

/// Checks that a video may receive its source file.
pub fn validate_upload_state(video: &VideoRow) -> (res: Result<(), AppError>)
    ensures
        outcome_matches(res, upload_state_error(video.status@)),
{
    let s = video.status.as_str();
    if str_eq(s, "processing") || str_eq(s, "playable") {
        Err(AppError::Conflict(to_owned("SOURCE_ALREADY_UPLOADED")))
    } else if str_eq(s, "uploading") || str_eq(s, "failed") {
        Ok(())
    } else {
        Err(AppError::Internal(concat("Unexpected video status: ", s)))
    }
}

/// The message of the error answered for an unknown video.
pub open spec fn video_not_found_message(video_id: Seq<char>) -> Seq<char> {
    "Video "@ + video_id + " not found"@
}

/// The looked-up video, or `NotFound` when there is none.
pub fn get_video_or_404(video: Option<VideoRow>, video_id: &str) -> (res: Result<VideoRow, AppError>)
    ensures
        match video {
            Some(v) => res matches Ok(r) && r@ == v@,
            None => res matches Err(e) && e.spec_status_code() == 404
                && e.spec_message() == video_not_found_message(video_id@),
        },
{
    match video {
        Some(v) => Ok(v),
        None => {
            let mut m = concat("Video ", video_id);
            push_str(&mut m, " not found");
            Err(AppError::NotFound(m))
        },
    }
}

/// A new video: its record to insert and the answer to the caller.
pub struct CreatedVideo {
    pub row: VideoRow,
    pub response: CreateVideoResponse,
}

/// Validates a creation request and, when it is accepted, makes the video's
/// record (fresh identifier and share token, status `uploading`) and the answer.
pub fn create_video(request: &CreateVideoRequest) -> (res: Result<CreatedVideo, AppError>)
    ensures
        create_request_error(request.title@, request.filename@, request.size_bytes as int, request.mime_type@) is None
            <==> res is Ok,
        match res {
            Ok(c) => {
                &&& is_prefixed_id(c.row.id@, "vid_"@)
                &&& is_prefixed_id(c.row.share_token@, "shr_"@)
                &&& exists|t: int| #[trigger] in_utc_range(t) && c.row.created_at@ == rfc3339_utc(t)
                &&& c.row@ == new_video_record(c.row.id@, request.title@, request.filename@,
                    request.size_bytes as int, request.mime_type@, c.row.share_token@, c.row.created_at@)
                &&& c.response.video_id@ == c.row.id@
                &&& c.response.share_token@ == c.row.share_token@
                &&& c.response.status@ == "uploading"@
                &&& c.response.max_upload_bytes == MAX_UPLOAD_BYTES
            },
            Err(e) => create_request_error(request.title@, request.filename@, request.size_bytes as int,
                request.mime_type@) == Some((e.spec_status_code(), e.spec_message())),
        },
{
    match validate_create_request(request) {
        Err(e) => return Err(e),
        Ok(()) => {},
    }
    let video_id = generate_video_id();
    let share_token = generate_share_token();
    let now = now_iso();
    let row = db::videos::insert(
        video_id.as_str(),
        request.title.as_str(),
        request.filename.as_str(),
        request.size_bytes,
        request.mime_type.as_str(),
        share_token.as_str(),
        now.as_str(),
    );
    let response = CreateVideoResponse {
        video_id,
        share_token,
        status: to_owned("uploading"),
        max_upload_bytes: MAX_UPLOAD_BYTES,
    };
    Ok(CreatedVideo { row, response })
}

/// Checks that a video may receive its source and, for a failed video,
/// resets its record for the new attempt. The result is the record to
/// continue with.
pub fn begin_upload(video: &VideoRow, now: &str) -> (res: Result<VideoRow, AppError>)
    ensures
        upload_state_error(video.status@) is None <==> res is Ok,
        match res {
            Ok(r) => if video.status@ == "failed"@ { r@ == reset_record(video@, now@) } else { r@ == video@ },
            Err(e) => upload_state_error(video.status@) == Some((e.spec_status_code(), e.spec_message())),
        },
{
    match validate_upload_state(video) {
        Err(e) => return Err(e),
        Ok(()) => {},
    }
    if str_eq(video.status.as_str(), "failed") {
        proof { lemma_status_texts(); }
        db::videos::reset_for_reupload(video, now)
    } else {
        Ok(video.copy())
    }
}

/// The part of a file name after its last `.`, or the whole name when it has none.
pub open spec fn file_extension(name: Seq<char>) -> Seq<char>
    decreases name.len(),
{
    if name.len() == 0 {
        name
    } else if name.last() == '.' {
        Seq::empty()
    } else {
        file_extension(name.drop_last()).push(name.last())
    }
}

/// The directory an uploaded source is stored in.
pub open spec fn source_dir_of(video_id: Seq<char>) -> Seq<char> {
    "storage/originals/"@ + video_id
}

/// The directory a video's uploaded source is stored in.
pub fn source_dir(video_id: &str) -> (dir: String)
    ensures
        dir@ == source_dir_of(video_id@),
{
    concat("storage/originals/", video_id)
}

/// The path an uploaded source is stored at.
pub open spec fn source_path_of(video_id: Seq<char>, filename: Seq<char>) -> Seq<char> {
    source_dir_of(video_id) + "/source."@ + file_extension(filename)
}

/// The extension of a file name: the text after its last `.`, or the whole
/// name when it has none.
pub fn extension_of(filename: &str) -> (ext: String)
    ensures
        ext@ == file_extension(filename@),
{
    let cs = crate::text::chars_of(filename);
    let mut start: usize = cs.len();
    assert(filename@.subrange(0, start as int) =~= filename@);
    assert(filename@.subrange(start as int, cs@.len() as int) =~= Seq::<char>::empty());
    while start > 0 && cs[start - 1] != '.'
        invariant
            cs@ == filename@,
            start <= cs@.len(),
            file_extension(filename@) == file_extension(filename@.subrange(0, start as int))
                + filename@.subrange(start as int, cs@.len() as int),
        decreases start,
    {
        let ghost pre = filename@.subrange(0, start as int);
        assert(pre.drop_last() == filename@.subrange(0, start - 1));
        assert(filename@.subrange(start - 1, cs@.len() as int)
            == seq![pre.last()] + filename@.subrange(start as int, cs@.len() as int));
        start = start - 1;
    }
    proof {
        let pre = filename@.subrange(0, start as int);
        if start > 0 {
            assert(pre.last() == '.');
        } else {
            assert(pre.len() == 0);
        }
        assert(file_extension(pre) =~= Seq::<char>::empty());
    }
    crate::text::string_from_slice(cs.as_slice(), start, cs.len())
}

/// Where a video's uploaded source goes: its directory and file path.
pub struct SourceLocation {
    pub dir_path: String,
    pub file_path: String,
}

/// The directory `storage/originals/{id}` and the path
/// `storage/originals/{id}/source.{ext}` for a video's upload.
pub fn source_location(video: &VideoRow) -> (loc: SourceLocation)
    ensures
        loc.dir_path@ == source_dir_of(video.id@),
        loc.file_path@ == source_path_of(video.id@, video.filename@),
{
    let dir_path = source_dir(video.id.as_str());
    let mut file_path = to_owned(dir_path.as_str());
    push_str(&mut file_path, "/source.");
    let ext = extension_of(video.filename.as_str());
    push_str(&mut file_path, ext.as_str());
    SourceLocation { dir_path, file_path }
}

/// Whether a multipart field, by its name, carries the uploaded file.
pub fn is_upload_field(name: Option<&str>) -> (res: bool)
    ensures
        res == (match name { Some(n) => n@ == "file"@, None => false }),
{
    match name {
        Some(n) => str_eq(n, "file"),
        None => false,
    }
}

/// Counts one more received chunk of `chunk_len` bytes into `total`.
/// Refuses with `PayloadTooLarge` once the total would exceed the limit.
pub fn accept_chunk(total: i64, chunk_len: usize) -> (res: Result<i64, AppError>)
    requires
        0 <= total <= MAX_UPLOAD_BYTES,
    ensures
        total + chunk_len <= MAX_UPLOAD_BYTES <==> res is Ok,
        match res {
            Ok(t) => t == total + chunk_len,
            Err(e) => e.spec_status_code() == 413 && e.spec_message() == "Uploaded file exceeds 1GB limit"@,
        },
{
    let sum: i128 = total as i128 + chunk_len as i128;
    if sum > MAX_UPLOAD_BYTES as i128 {
        Err(AppError::PayloadTooLarge(to_owned("Uploaded file exceeds 1GB limit")))
    } else {
        Ok(sum as i64)
    }
}

/// Refuses an upload in which no byte of the file arrived.
pub fn check_received(total: i64) -> (res: Result<(), AppError>)
    ensures
        total != 0 <==> res is Ok,
        match res {
            Ok(()) => true,
            Err(e) => e.spec_status_code() == 400 && e.spec_message() == "No file data received"@,
        },
{
    if total == 0 {
        Err(AppError::BadRequest(to_owned("No file data received")))
    } else {
        Ok(())
    }
}

/// What a stored upload produces: the video's new record, what to store for
/// its job, and the answer.
pub struct CompletedUpload {
    pub video: VideoRow,
    pub job: JobWrite,
    pub response: UploadSourceResponse,
}

/// Whether `w` is what is stored for the job of `video_id` once its source is
/// at `path`, given the job already stored under its idempotency key: a new
/// job when there is none, the failed job queued again, nothing otherwise.
pub open spec fn job_write_matches(w: JobWrite, existing: Option<JobRow>, video_id: Seq<char>, path: Seq<char>, now: Seq<char>) -> bool {
    match existing {
        None => w matches JobWrite::Insert(j) && is_prefixed_id(j.id@, "job_"@)
            && j@ == new_job_record(j.id@, video_id, path, now),
        Some(e) => if e.status@ == "failed"@ {
            w matches JobWrite::Requeue(j) && j@ == requeued_record(e@, path, now)
        } else {
            w is Keep
        },
    }
}

/// Once the source is stored at `file_path`: the video's record moves to
/// `processing` (stage `queued`), its job is made or queued again, and the
/// answer reports `processing`. Refused, with nothing to store, for a video
/// whose source was already uploaded (409) or that is not `uploading`.
pub fn upload_source(video: &VideoRow, existing_job: Option<&JobRow>, file_path: &str, now: &str) -> (res: Result<CompletedUpload, AppError>)
    ensures
        (upload_state_error(video.status@) is None && transition_refusal(video.status@, VideoStatus::Processing) is None)
            <==> res is Ok,
        match res {
            Ok(c) => {
                &&& c.video@ == upload_complete_record(video@, file_path@, now@)
                &&& job_write_matches(c.job, match existing_job { Some(e) => Some(*e), None => None },
                    video.id@, file_path@, now@)
                &&& c.response.video_id@ == video.id@
                &&& c.response.status@ == "processing"@
                &&& c.response.upload_completed_at@ == now@
            },
            Err(e) => match upload_state_error(video.status@) {
                Some(x) => x == (e.spec_status_code(), e.spec_message()),
                None => transition_refusal(video.status@, VideoStatus::Processing)
                    == Some((e.spec_status_code(), e.spec_message())),
            },
        },
{
    match validate_upload_state(video) {
        Err(e) => return Err(e),
        Ok(()) => {},
    }
    let updated = match db::videos::mark_upload_complete(video, file_path, now) {
        Err(e) => return Err(e),
        Ok(v) => v,
    };
    let job_id = generate_job_id();
    let job = db::jobs::job_for_upload(existing_job, job_id.as_str(), video.id.as_str(), file_path, now);
    let response = UploadSourceResponse {
        video_id: to_owned(video.id.as_str()),
        status: to_owned("processing"),
        upload_completed_at: to_owned(now),
    };
    Ok(CompletedUpload { video: updated, job, response })
}

/// The answer to a status request for a known video: its fields as stored.
pub open spec fn status_response_matches(r: VideoStatusResponse, v: VideoRow) -> bool {
    &&& r.video_id@ == v.id@
    &&& r.status@ == v.status@
    &&& opt_view(r.processing_stage) == opt_view(v.processing_stage)
    &&& r.share_token@ == v.share_token@
    &&& r.updated_at@ == v.updated_at@
    &&& opt_view(r.error_code) == opt_view(v.error_code)
    &&& opt_view(r.error_message) == opt_view(v.error_message)
}

/// The status of a video, or `NotFound` when the lookup found none.
pub fn get_video_status(video: Option<VideoRow>, video_id: &str) -> (res: Result<VideoStatusResponse, AppError>)
    ensures
        match video {
            Some(v) => res matches Ok(r) && status_response_matches(r, v),
            None => res matches Err(e) && e.spec_status_code() == 404
                && e.spec_message() == video_not_found_message(video_id@),
        },
{
    match get_video_or_404(video, video_id) {
        Err(e) => Err(e),
        Ok(v) => Ok(VideoStatusResponse {
            video_id: v.id,
            status: v.status,
            processing_stage: v.processing_stage,
            share_token: v.share_token,
            updated_at: v.updated_at,
            error_code: v.error_code,
            error_message: v.error_message,
        }),
    }
}

/// The public URL of a video's master playlist.
pub open spec fn hls_url_of(share_token: Seq<char>) -> Seq<char> {
    "/media/hls/"@ + share_token + "/master.m3u8"@
}

/// The answer for a known share token: the video's public fields, and a
/// stream URL exactly when it is playable.
pub open spec fn share_response_matches(r: ShareResponse, v: VideoRow) -> bool {
    &&& r.video_id@ == v.id@
    &&& r.title@ == v.title@
    &&& r.status@ == v.status@
    &&& opt_view(r.processing_stage) == opt_view(v.processing_stage)
    &&& r.created_at@ == v.created_at@
    &&& opt_view(r.playback.hls_url) == if v.status@ == "playable"@ { Some(hls_url_of(v.share_token@)) } else { None }
}

/// The message of the error answered for an unknown share token.
pub open spec fn share_not_found_message() -> Seq<char> {
    "SHARE_NOT_FOUND"@
}

/// What a share link shows, or `NotFound` when the lookup by token found none.
pub fn get_share(video: Option<VideoRow>) -> (res: Result<ShareResponse, AppError>)
    ensures
        match video {
            Some(v) => res matches Ok(r) && share_response_matches(r, v),
            None => res matches Err(e) && e.spec_status_code() == 404 && e.spec_message() == share_not_found_message(),
        },
{
    match video {
        None => Err(AppError::NotFound(to_owned("SHARE_NOT_FOUND"))),
        Some(v) => {
            let hls_url = if str_eq(v.status.as_str(), "playable") {
                let mut u = concat("/media/hls/", v.share_token.as_str());
                push_str(&mut u, "/master.m3u8");
                Some(u)
            } else {
                None
            };
            Ok(ShareResponse {
                video_id: v.id,
                title: v.title,
                status: v.status,
                processing_stage: v.processing_stage,
                playback: PlaybackInfo { hls_url },
                created_at: v.created_at,
            })
        },
    }
}

} // verus!
