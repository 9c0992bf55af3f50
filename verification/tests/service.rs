use streamdrop::db;
use streamdrop::db::jobs::JobWrite;
use streamdrop::dto::CreateVideoRequest;
use streamdrop::errors::AppError;
use streamdrop::models::VideoRow;
use streamdrop::service::{
    accept_chunk, begin_upload, check_received, create_video, extension_of, get_share, get_video_or_404,
    get_video_status, is_upload_field, source_location, upload_source, validate_create_request,
    validate_upload_state,
};

fn request(title: &str, filename: &str, size: i64, mime: &str) -> CreateVideoRequest {
    CreateVideoRequest {
        title: title.to_string(),
        filename: filename.to_string(),
        size_bytes: size,
        mime_type: mime.to_string(),
    }
}

fn video(status: &str) -> VideoRow {
    let mut v = db::videos::insert("vid_1", "Sample Video", "sample-5s.mp4", 2848208, "video/mp4", "shr_abc", "2026-03-08T12:00:00Z");
    v.status = status.to_string();
    v
}

fn err_of<T>(r: Result<T, AppError>) -> (u16, String) {
    match r {
        Ok(_) => panic!("expected an error"),
        Err(e) => (e.status_code(), e.message().to_string()),
    }
}

#[test]
fn valid_request_is_accepted() {
    assert!(validate_create_request(&request("Sample Video", "sample-5s.mp4", 2848208, "video/mp4")).is_ok());
}

#[test]
fn missing_fields_are_refused_with_400() {
    for r in [request("", "a.mp4", 1, "video/mp4"), request("t", "", 1, "video/mp4"), request("t", "a.mp4", 1, "")] {
        assert_eq!(err_of(validate_create_request(&r)), (400, "Missing required fields".to_string()));
    }
}

#[test]
fn too_large_is_refused_with_413() {
    let r = request("Big", "big.mp4", 2000000000, "video/mp4");
    assert_eq!(
        err_of(validate_create_request(&r)),
        (413, "File size 2000000000 exceeds maximum of 1073741824 bytes".to_string())
    );
}

#[test]
fn size_at_the_limit_is_accepted() {
    assert!(validate_create_request(&request("t", "a.mp4", 1073741824, "video/mp4")).is_ok());
    assert_eq!(err_of(validate_create_request(&request("t", "a.mp4", 1073741825, "video/mp4"))).0, 413);
}

#[test]
fn unsupported_mime_is_refused_with_415() {
    let r = request("Bad", "bad.txt", 1000, "text/plain");
    assert_eq!(err_of(validate_create_request(&r)), (415, "Unsupported MIME type: text/plain".to_string()));
}

#[test]
fn unsupported_extension_is_refused_with_415() {
    let r = request("Bad", "video.exe", 1000, "video/mp4");
    assert_eq!(err_of(validate_create_request(&r)), (415, "Unsupported file extension: video.exe".to_string()));
}

#[test]
fn checks_run_in_order() {
    // Too large and unsupported: the size is reported first.
    let r = request("Bad", "bad.txt", 2000000000, "text/plain");
    assert_eq!(err_of(validate_create_request(&r)).0, 413);
}

#[test]
fn create_video_makes_record_and_answer() {
    let r = request("Sample Video", "sample-5s.mp4", 2848208, "video/mp4");
    let c = match create_video(&r) {
        Ok(c) => c,
        Err(_) => panic!("refused"),
    };
    assert!(c.row.id.starts_with("vid_") && c.row.id.len() == 36);
    assert!(c.row.share_token.starts_with("shr_") && c.row.share_token.len() == 36);
    assert_eq!(c.row.status, "uploading");
    assert_eq!(c.row.title, "Sample Video");
    assert_eq!(c.row.size_bytes, 2848208);
    assert_eq!(c.row.processing_stage, None);
    assert_eq!(c.row.created_at, c.row.updated_at);
    assert_eq!(c.response.video_id, c.row.id);
    assert_eq!(c.response.share_token, c.row.share_token);
    assert_eq!(c.response.status, "uploading");
    assert_eq!(c.response.max_upload_bytes, 1073741824);
}

#[test]
fn create_video_refuses_invalid_request() {
    assert_eq!(err_of(create_video(&request("Bad", "bad.txt", 1000, "text/plain"))).0, 415);
}

#[test]
fn upload_state_rules() {
    assert!(validate_upload_state(&video("uploading")).is_ok());
    assert!(validate_upload_state(&video("failed")).is_ok());
    assert_eq!(err_of(validate_upload_state(&video("processing"))), (409, "SOURCE_ALREADY_UPLOADED".to_string()));
    assert_eq!(err_of(validate_upload_state(&video("playable"))), (409, "SOURCE_ALREADY_UPLOADED".to_string()));
    assert_eq!(err_of(validate_upload_state(&video("weird"))), (500, "Unexpected video status: weird".to_string()));
}

#[test]
fn unknown_video_is_404() {
    assert_eq!(err_of(get_video_or_404(None, "vid_x")), (404, "Video vid_x not found".to_string()));
    assert_eq!(err_of(get_video_status(None, "vid_x")), (404, "Video vid_x not found".to_string()));
    assert!(get_video_or_404(Some(video("uploading")), "vid_1").is_ok());
}

#[test]
fn begin_upload_resets_a_failed_video() {
    let failed = match db::videos::mark_failed(&video("processing"), "probing", "ffprobe failed: x", "t1") {
        Ok(f) => f,
        Err(_) => panic!("refused"),
    };
    let r = match begin_upload(&failed, "t2") {
        Ok(r) => r,
        Err(_) => panic!("refused"),
    };
    assert_eq!(r.status, "uploading");
    assert_eq!(r.error_code, None);
    assert_eq!(r.error_message, None);
    assert_eq!(r.failure_stage, None);
    assert_eq!(r.failure_reason, None);
    assert_eq!(r.failed_at, None);
    assert_eq!(r.updated_at, "t2");
    assert_eq!(r.share_token, "shr_abc");
}

#[test]
fn begin_upload_keeps_an_uploading_video() {
    let v = video("uploading");
    let r = match begin_upload(&v, "t2") {
        Ok(r) => r,
        Err(_) => panic!("refused"),
    };
    assert_eq!(r.status, "uploading");
    assert_eq!(r.updated_at, v.updated_at);
}

#[test]
fn second_upload_is_refused() {
    let done = match upload_source(&video("uploading"), None, "storage/originals/vid_1/source.mp4", "t1") {
        Ok(d) => d,
        Err(_) => panic!("refused"),
    };
    assert_eq!(err_of(begin_upload(&done.video, "t2")), (409, "SOURCE_ALREADY_UPLOADED".to_string()));
    assert_eq!(err_of(upload_source(&done.video, None, "p", "t2")), (409, "SOURCE_ALREADY_UPLOADED".to_string()));
    assert_eq!(err_of(upload_source(&video("playable"), None, "p", "t2")), (409, "SOURCE_ALREADY_UPLOADED".to_string()));
    // A failed video must be reset by `begin_upload` first.
    assert_eq!(
        err_of(upload_source(&video("failed"), None, "p", "t2")),
        (409, "Invalid status transition: failed -> processing".to_string())
    );
}

#[test]
fn extensions_of_file_names() {
    assert_eq!(extension_of("sample-5s.mp4"), "mp4");
    assert_eq!(extension_of("a.b.MKV"), "MKV");
    assert_eq!(extension_of("noext"), "noext");
    assert_eq!(extension_of("trailing."), "");
    assert_eq!(extension_of(""), "");
    for name in ["x.y.z", ".hidden", "../../../etc/shadow"] {
        assert_eq!(extension_of(name), name.rsplit('.').next().unwrap());
    }
}

#[test]
fn source_is_stored_under_the_video_id() {
    let loc = source_location(&video("uploading"));
    assert_eq!(loc.dir_path, "storage/originals/vid_1");
    assert_eq!(loc.file_path, "storage/originals/vid_1/source.mp4");
}

#[test]
fn only_the_file_field_is_read() {
    assert!(is_upload_field(Some("file")));
    assert!(!is_upload_field(Some("title")));
    assert!(!is_upload_field(None));
}

#[test]
fn chunks_are_counted_up_to_the_limit() {
    assert_eq!(accept_chunk(0, 10).ok(), Some(10));
    assert_eq!(accept_chunk(1073741800, 24).ok(), Some(1073741824));
    assert_eq!(err_of(accept_chunk(1073741800, 25)), (413, "Uploaded file exceeds 1GB limit".to_string()));
    assert_eq!(err_of(accept_chunk(0, usize::MAX)).0, 413);
}

#[test]
fn empty_upload_is_refused() {
    assert_eq!(err_of(check_received(0)), (400, "No file data received".to_string()));
    assert!(check_received(5).is_ok());
}

#[test]
fn completed_upload_queues_a_job() {
    let path = "storage/originals/vid_1/source.mp4";
    let done = match upload_source(&video("uploading"), None, path, "2026-03-08T12:34:56Z") {
        Ok(d) => d,
        Err(_) => panic!("refused"),
    };
    let job = match done.job {
        JobWrite::Insert(j) => j,
        _ => panic!("expected a new job"),
    };
    assert_eq!(done.video.status, "processing");
    assert_eq!(done.video.processing_stage.as_deref(), Some("queued"));
    assert_eq!(done.video.source_path.as_deref(), Some(path));
    assert_eq!(done.video.upload_completed_at.as_deref(), Some("2026-03-08T12:34:56Z"));
    assert!(job.id.starts_with("job_"));
    assert_eq!(job.job_type, "process_video");
    assert_eq!(job.status, "pending");
    assert_eq!(job.video_id, "vid_1");
    assert_eq!(job.idempotency_key, "process_video:vid_1");
    assert_eq!(job.attempt_count, 0);
    assert_eq!(job.max_attempts, 3);
    assert_eq!(done.response.video_id, "vid_1");
    assert_eq!(done.response.status, "processing");
    assert_eq!(done.response.upload_completed_at, "2026-03-08T12:34:56Z");
}

#[test]
fn status_mirrors_the_record() {
    let v = match db::videos::update_status(&video("processing"), "processing", Some("transcoding"), "t3") {
        Ok(v) => v,
        Err(_) => panic!("refused"),
    };
    let r = match get_video_status(Some(v), "vid_1") {
        Ok(r) => r,
        Err(_) => panic!("not found"),
    };
    assert_eq!(r.video_id, "vid_1");
    assert_eq!(r.status, "processing");
    assert_eq!(r.processing_stage.as_deref(), Some("transcoding"));
    assert_eq!(r.share_token, "shr_abc");
    assert_eq!(r.updated_at, "t3");
    assert_eq!(r.error_code, None);
}

#[test]
fn share_of_playable_video_has_stream_url() {
    let v = match db::videos::mark_playable(&video("processing"), "t4") {
        Ok(v) => v,
        Err(_) => panic!("refused"),
    };
    let r = match get_share(Some(v)) {
        Ok(r) => r,
        Err(_) => panic!("not found"),
    };
    assert_eq!(r.status, "playable");
    assert_eq!(r.processing_stage, None);
    assert_eq!(r.playback.hls_url.as_deref(), Some("/media/hls/shr_abc/master.m3u8"));
    assert_eq!(r.title, "Sample Video");
    assert_eq!(r.created_at, "2026-03-08T12:00:00Z");
}

#[test]
fn share_of_unfinished_video_has_no_url() {
    for s in ["uploading", "processing", "failed"] {
        let r = match get_share(Some(video(s))) {
            Ok(r) => r,
            Err(_) => panic!("not found"),
        };
        assert_eq!(r.playback.hls_url, None);
        assert_eq!(r.status, s);
    }
}

#[test]
fn unknown_share_token_is_404() {
    assert_eq!(err_of(get_share(None)), (404, "SHARE_NOT_FOUND".to_string()));
}

#[test]
fn error_status_codes() {
    let cases = [
        (AppError::BadRequest("a".into()), 400),
        (AppError::NotFound("a".into()), 404),
        (AppError::Conflict("a".into()), 409),
        (AppError::PayloadTooLarge("a".into()), 413),
        (AppError::UnsupportedMedia("a".into()), 415),
        (AppError::Internal("a".into()), 500),
    ];
    for (e, code) in cases {
        assert_eq!(e.status_code(), code);
        assert_eq!(e.message(), "a");
    }
}

#[test]
fn reupload_of_failed_video_requeues_its_job() {
    let failed_video = video("failed");
    let reset = match begin_upload(&failed_video, "t1") {
        Ok(r) => r,
        Err(_) => panic!("refused"),
    };
    let old_job = db::jobs::mark_failed(&db::jobs::claim_pending(&db::jobs::insert("job_1", "vid_1", "old", "t0"), "w", "t0"), "e", "t0");
    let done = match upload_source(&reset, Some(&old_job), "new", "t2") {
        Ok(d) => d,
        Err(_) => panic!("refused"),
    };
    assert_eq!(done.video.status, "processing");
    assert_eq!(done.video.failure_reason, None);
    match done.job {
        JobWrite::Requeue(j) => {
            assert_eq!(j.status, "pending");
            assert_eq!(j.source_path, "new");
            assert_eq!(j.idempotency_key, "process_video:vid_1");
        },
        _ => panic!("expected a requeue"),
    }
}

#[test]
fn second_enqueue_keeps_the_first_job() {
    let first = db::jobs::insert("job_1", "vid_1", "p1", "t0");
    let done = match upload_source(&video("uploading"), Some(&first), "p2", "t1") {
        Ok(d) => d,
        Err(_) => panic!("refused"),
    };
    assert!(matches!(done.job, JobWrite::Keep));
}
