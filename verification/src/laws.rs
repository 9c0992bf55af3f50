//! Properties of the library as a whole, each stated over the contracts'
//! own spec functions and proved.
use vstd::prelude::*;
use crate::db::jobs::{claimed_record, idempotency_key_of, is_claimable, new_job_record, refreshed_lock, requeued_record, rescheduled_record};
use crate::db::videos::{failed_record, playable_record, reset_record, status_change_refusal, transition_refusal, upload_complete_record};
use crate::models::{lemma_status_texts, allowed_video_transition, parse_video_status, JobRecord, VideoRecord, VideoStatus, ProcessingStage};
use crate::service::{create_request_error, share_response_matches, source_dir_of, status_response_matches, upload_state_error};
use crate::config::spec_has_supported_extension;
use crate::dto::{ShareResponse, VideoStatusResponse};
use crate::models::{opt_view, VideoRow};
use crate::text::{lemma_lex_total, lex_le, lex_lt};
use crate::worker::pipeline::{fits, is_terminal, next, stage_of, well_formed, EffectView, EventView, RunView, Step};
use crate::worker::retry::backoff_for;
use crate::worker::transcode::{dual_args_of, join_path, plan_of, planned_heights, rendition_name_of, single_args_of, TranscodePlan};
use crate::text::decimal;
use crate::worker::probe::ProbeResult;

verus! {

/// Every status change follows the video state machine: each write is
/// accepted exactly when the machine allows its move from the video's
/// current status (uploading→processing, processing→playable,
/// processing→failed, failed→uploading), and an accepted write leaves the
/// video in the target status. A status update is accepted only when it
/// keeps the status or makes an allowed move.
pub proof fn law_writes_follow_state_machine(v: VideoRecord, path: Seq<char>, stage: Seq<char>, reason: Seq<char>,
    status: Seq<char>, now: Seq<char>, to: VideoStatus)
    ensures
        transition_refusal(v.status, to) is None <==>
            (parse_video_status(v.status) is Some && allowed_video_transition(parse_video_status(v.status).unwrap(), to)),
        parse_video_status(upload_complete_record(v, path, now).status) == Some(VideoStatus::Processing),
        parse_video_status(playable_record(v, now).status) == Some(VideoStatus::Playable),
        parse_video_status(failed_record(v, stage, reason, now).status) == Some(VideoStatus::Failed),
        parse_video_status(reset_record(v, now).status) == Some(VideoStatus::Uploading),
        status_change_refusal(v.status, status) is None ==> ({
            let f = parse_video_status(v.status).unwrap();
            let t = parse_video_status(status).unwrap();
            parse_video_status(v.status) is Some && parse_video_status(status) is Some
                && (f == t || allowed_video_transition(f, t))
        }),
{
    lemma_status_texts();
}

/// An upload is accepted exactly for a video that is `uploading` or
/// `failed`; once its source is stored, or once it is playable, a further
/// upload is refused with 409 `SOURCE_ALREADY_UPLOADED`.
pub proof fn law_source_uploaded_once(v: VideoRecord, path: Seq<char>, now: Seq<char>)
    ensures
        upload_state_error(v.status) is None <==>
            (parse_video_status(v.status) == Some(VideoStatus::Uploading)
                || parse_video_status(v.status) == Some(VideoStatus::Failed)),
        upload_state_error(upload_complete_record(v, path, now).status) == Some((409u16, "SOURCE_ALREADY_UPLOADED"@)),
        upload_state_error(playable_record(v, now).status) == Some((409u16, "SOURCE_ALREADY_UPLOADED"@)),
{
    lemma_status_texts();
}

/// A video that failed may be uploaded again, and the reset for the new
/// attempt clears every trace of the failed one while keeping the video's
/// identity (id, share token, title, file metadata, creation times).
pub proof fn law_failed_video_can_retry(v: VideoRecord, stage: Seq<char>, reason: Seq<char>, t1: Seq<char>, t2: Seq<char>)
    ensures
        ({
            let f = failed_record(v, stage, reason, t1);
            let r = reset_record(f, t2);
            &&& upload_state_error(f.status) is None
            &&& transition_refusal(f.status, VideoStatus::Uploading) is None
            &&& parse_video_status(r.status) == Some(VideoStatus::Uploading)
            &&& r.processing_stage is None && r.source_path is None
            &&& r.error_code is None && r.error_message is None
            &&& r.upload_completed_at is None && r.processing_started_at is None
            &&& r.processing_completed_at is None && r.failed_at is None
            &&& r.failure_stage is None && r.failure_reason is None
            &&& r.id == v.id && r.share_token == v.share_token && r.title == v.title
            &&& r.filename == v.filename && r.size_bytes == v.size_bytes && r.mime_type == v.mime_type
            &&& r.created_at == v.created_at && r.upload_initiated_at == v.upload_initiated_at
        }),
{
    lemma_status_texts();
}

/// The idempotency key of a video's processing job names the video: it is
/// the same for the same video and differs between videos.
pub proof fn law_idempotency_key_names_video(a: Seq<char>, b: Seq<char>)
    ensures
        idempotency_key_of(a) == idempotency_key_of(b) <==> a == b,
{
    if idempotency_key_of(a) == idempotency_key_of(b) {
        let p = "process_video:"@;
        assert(a =~= idempotency_key_of(a).subrange(p.len() as int, idempotency_key_of(a).len() as int));
        assert(b =~= idempotency_key_of(b).subrange(p.len() as int, idempotency_key_of(b).len() as int));
    }
}

/// The retry delays follow the schedule 10 s, 30 s, 90 s and never shrink
/// as attempts accumulate.
pub proof fn law_backoff_schedule(a: int, b: int)
    ensures
        backoff_for(1) == 10,
        backoff_for(2) == 30,
        a >= 3 ==> backoff_for(a) == 90,
        10 <= backoff_for(a) <= 90,
        0 <= a <= b ==> backoff_for(a) <= backoff_for(b),
{
}

/// A new job is attempted at most three times: claimed and failed once,
/// it is retried after 10 s; twice, after 30 s; the third failure is final.
pub proof fn law_three_attempts(job_id: Seq<char>, video_id: Seq<char>, source: Seq<char>, w: Seq<char>,
    err: Seq<char>, at1: Seq<char>, at2: Seq<char>, t: Seq<char>)
    ensures
        ({
            let j0 = new_job_record(job_id, video_id, source, t);
            let c1 = claimed_record(j0, w, t);
            let c2 = claimed_record(rescheduled_record(c1, err, at1, t), w, t);
            let c3 = claimed_record(rescheduled_record(c2, err, at2, t), w, t);
            &&& c1.attempt_count < c1.max_attempts && backoff_for(c1.attempt_count) == 10
            &&& c2.attempt_count < c2.max_attempts && backoff_for(c2.attempt_count) == 30
            &&& c3.attempt_count >= c3.max_attempts
        }),
{
}

/// A rescheduled job is pending again, with its lock released and its
/// attempts kept; a claimed one is in progress, locked by its worker, with
/// one attempt more.
pub proof fn law_job_queue_transitions(j: JobRecord, w: Seq<char>, err: Seq<char>, at: Seq<char>, now: Seq<char>)
    ensures
        claimed_record(j, w, now).status == "in_progress"@,
        claimed_record(j, w, now).worker_id == Some(w),
        claimed_record(j, w, now).attempt_count == j.attempt_count + 1,
        rescheduled_record(j, err, at, now).status == "pending"@,
        rescheduled_record(j, err, at, now).locked_at is None,
        rescheduled_record(j, err, at, now).worker_id is None,
        rescheduled_record(j, err, at, now).attempt_count == j.attempt_count,
        rescheduled_record(j, err, at, now).idempotency_key == j.idempotency_key,
{
}

/// No upscaling: every planned rendition is at most as tall as the source;
/// 720p is produced exactly from sources of at least 720 lines, and 360p
/// from every source of at least 360 lines.
pub proof fn law_no_upscaling(p: ProbeResult)
    ensures
        forall|i: int| 0 <= i < planned_heights(plan_of(p)).len() ==> #[trigger] planned_heights(plan_of(p))[i] <= p.height,
        planned_heights(plan_of(p)).contains(720u32) <==> p.height >= 720,
        p.height >= 360 ==> planned_heights(plan_of(p)).contains(360u32),
        p.height < 720 ==> planned_heights(plan_of(p)).len() == 1,
{
    let hs = planned_heights(plan_of(p));
    if p.height >= 720 {
        assert(hs[0] == 720u32);
        assert(hs[1] == 360u32);
    } else {
        assert(hs[0] <= p.height);
        if hs.contains(720u32) {
            let k = choose|k: int| 0 <= k < hs.len() && hs[k] == 720u32;
            assert(k == 0);
        }
        if p.height >= 360 {
            assert(hs[0] == 360u32);
        }
    }
}

/// The rank of a processing stage in the order the worker goes through them.
pub open spec fn stage_rank(s: ProcessingStage) -> int {
    match s {
        ProcessingStage::Queued => 0,
        ProcessingStage::Probing => 1,
        ProcessingStage::Transcoding => 2,
        ProcessingStage::Publishing => 3,
    }
}

/// A failure is reported with the stage of the step that failed, and a
/// step that succeeds never moves the run back to an earlier stage; a
/// stage the worker records is the stage of the step it moves to.
pub proof fn law_stages_in_order(r: RunView, e: EventView)
    requires
        well_formed(r),
        !is_terminal(r.step),
        fits(r.step, e),
    ensures
        ({
            let (r2, eff) = next(r, e);
            &&& (eff matches EffectView::Failed { stage, .. } ==> stage == stage_of(r.step) && r2.step == Step::Failed)
            &&& (r2.step != Step::Failed ==> stage_rank(stage_of(r.step)) <= stage_rank(stage_of(r2.step)))
            &&& (eff matches EffectView::SetStage { stage, .. } ==> stage == stage_of(r2.step))
        }),
{
}

/// The video is marked playable only right after its renditions were moved
/// from the temporary to the public directory, the job is marked done only
/// right after that, and the video's source directory is deleted only once
/// the job is done.
pub proof fn law_playable_only_after_publish(r: RunView, e: EventView)
    requires
        well_formed(r),
        !is_terminal(r.step),
        fits(r.step, e),
    ensures
        next(r, e).1 is MarkPlayable ==> r.step == Step::Publishing && e is Done && e->Done_0 is Ok,
        next(r, e).1 is MarkJobDone ==> r.step == Step::MarkingPlayable && e is Done && e->Done_0 is Ok,
        next(r, e).1 is CleanUpSource ==> r.step == Step::MarkingDone && e is Done && e->Done_0 is Ok
            && next(r, e).1 == (EffectView::CleanUpSource { path: source_dir_of(r.video_id) }),
        next(r, e).0.step == Step::Publishing ==> r.public_dir is Some
            && next(r, e).1 == (EffectView::Rename { from: r.tmp_dir, to: r.public_dir.unwrap() }),
        next(r, e).1 is Finished ==> next(r, e).0.step == Step::Finished && r.step == Step::CleaningUp,
{
}

/// A failed video's re-upload queues its job again: the job keeps its
/// identifier and idempotency key (so the video still has one job), points
/// at the new source, counts attempts afresh, and is claimable at once.
pub proof fn law_reupload_requeues_job(e: JobRecord, path: Seq<char>, now: Seq<char>, cut: Option<Seq<char>>)
    ensures
        ({
            let r = requeued_record(e, path, now);
            &&& r.id == e.id && r.idempotency_key == e.idempotency_key && r.video_id == e.video_id
            &&& r.status == "pending"@ && r.source_path == path && r.attempt_count == 0
            &&& r.locked_at is None && r.worker_id is None
            &&& is_claimable(r, now, cut)
        }),
{
    lemma_lex_total(now, now);
}

/// Retry delays are honoured: a rescheduled job is claimable only once its
/// due time has come.
pub proof fn law_backoff_honoured(j: JobRecord, err: Seq<char>, due: Seq<char>, t: Seq<char>, now: Seq<char>, cut: Option<Seq<char>>)
    ensures
        is_claimable(rescheduled_record(j, err, due, t), now, cut) ==> lex_le(due, now),
{
    reveal_strlit("pending");
    reveal_strlit("in_progress");
    assert("pending"@.len() != "in_progress"@.len());
}

/// Only a due pending job or a job whose lock is older than the cutoff is
/// claimed: a job in progress with a fresh lock, and a finished or failed
/// job, are never claimed.
pub proof fn law_only_due_or_stale_jobs_claimed(j: JobRecord, now: Seq<char>, cut: Option<Seq<char>>)
    ensures
        is_claimable(j, now, cut) ==> j.status == "pending"@ || j.status == "in_progress"@,
        j.status == "in_progress"@ && j.locked_at is Some && cut is Some && !lex_lt(j.locked_at.unwrap(), cut.unwrap())
            ==> !is_claimable(j, now, cut),
        j.status == "done"@ || j.status == "failed"@ ==> !is_claimable(j, now, cut),
{
    reveal_strlit("pending");
    reveal_strlit("in_progress");
    reveal_strlit("done");
    reveal_strlit("failed");
    assert("pending"@.len() != "in_progress"@.len());
    assert("done"@.len() != "pending"@.len() && "done"@.len() != "in_progress"@.len());
    assert("failed"@.len() != "pending"@.len() && "failed"@.len() != "in_progress"@.len());
}

/// The worker that claimed a job can refresh its lock, which then reads the
/// refresh time; another worker cannot.
pub proof fn law_heartbeat_refreshes_own_lock(j: JobRecord, w: Seq<char>, other: Seq<char>, t1: Seq<char>, t2: Seq<char>)
    requires
        other != w,
    ensures
        refreshed_lock(claimed_record(j, w, t1), w, t2) == Some(JobRecord {
            locked_at: Some(t2),
            updated_at: t2,
            ..claimed_record(j, w, t1)
        }),
        refreshed_lock(claimed_record(j, w, t1), other, t2) is None,
{
}

/// Whether a plan encodes the source's audio.
pub open spec fn plan_has_audio(plan: TranscodePlan) -> bool {
    match plan {
        TranscodePlan::Dual { has_audio } => has_audio,
        TranscodePlan::Single { has_audio, .. } => has_audio,
    }
}

/// The rendition plan keeps the probe's audio: whatever the source's
/// height, the renditions carry audio exactly when the source has an audio
/// stream.
pub proof fn law_plan_keeps_audio(p: ProbeResult)
    ensures
        plan_has_audio(plan_of(p)) == p.has_audio,
{
}

/// The dual-rendition command carries audio exactly when the source has it.
/// With audio, the filter graph also splits the audio in two (`[a0]`,
/// `[a1]`), both halves are mapped, encoded as stereo AAC at 128 kbit/s and
/// paired with the two video streams. Without audio, the filter graph is the
/// video split and scale alone, and no argument after the source names an
/// audio stream or the audio codec.
pub proof fn law_dual_command_audio(src: Seq<char>, tmp: Seq<char>, has_audio: bool)
    ensures
        ({
            let a = dual_args_of(src, tmp, has_audio);
            let video = "[0:v]split=2[v720][v360];[v720]scale=-2:720[out720];[v360]scale=-2:360[out360]"@;
            &&& a[3] == "-filter_complex"@
            &&& has_audio ==> {
                &&& a.len() == 38
                &&& a[4] == video + ";[0:a]asplit=2[a0][a1]"@
                &&& a.subrange(5, 13) == seq!["-map"@, "[out720]"@, "-map"@, "[out360]"@, "-map"@, "[a0]"@, "-map"@, "[a1]"@]
                &&& a.subrange(19, 25) == seq!["-c:a"@, "aac"@, "-b:a"@, "128k"@, "-ac"@, "2"@]
                &&& a[33] == "-var_stream_map"@
                &&& a[34] == "v:0,a:0 v:1,a:1"@
            }
            &&& !has_audio ==> {
                &&& a.len() == 28
                &&& a[4] == video
                &&& a[23] == "-var_stream_map"@
                &&& a[24] == "v:0 v:1"@
                &&& forall|i: int| 3 <= i < a.len() ==>
                    #[trigger] a[i] != "-c:a"@ && a[i] != "[a0]"@ && a[i] != "[a1]"@
            }
        }),
{
    let a = dual_args_of(src, tmp, has_audio);
    reveal_strlit("[0:v]split=2[v720][v360];[v720]scale=-2:720[out720];[v360]scale=-2:360[out360]");
    if has_audio {
        assert(a.subrange(5, 13) =~= seq!["-map"@, "[out720]"@, "-map"@, "[out360]"@, "-map"@, "[a0]"@, "-map"@, "[a1]"@]);
        assert(a.subrange(19, 25) =~= seq!["-c:a"@, "aac"@, "-b:a"@, "128k"@, "-ac"@, "2"@]);
        assert(a.len() == 38);
        assert(a[33] == "-var_stream_map"@);
        assert(a[34] == "v:0,a:0 v:1,a:1"@);
    } else {
        assert(a[4] =~= "[0:v]split=2[v720][v360];[v720]scale=-2:720[out720];[v360]scale=-2:360[out360]"@);
        assert(a.len() == 28);
        assert(a[23] == "-var_stream_map"@);
        assert(a[24] == "v:0 v:1"@);
        assert forall|i: int| 3 <= i < a.len() implies
            #[trigger] a[i] != "-c:a"@ && a[i] != "[a0]"@ && a[i] != "[a1]"@ by {
            reveal_strlit("-filter_complex");
            reveal_strlit("-map");
            reveal_strlit("[out720]");
            reveal_strlit("-map");
            reveal_strlit("[out360]");
            reveal_strlit("-c:v");
            reveal_strlit("libx264");
            reveal_strlit("-preset");
            reveal_strlit("fast");
            reveal_strlit("-crf");
            reveal_strlit("28");
            reveal_strlit("-f");
            reveal_strlit("hls");
            reveal_strlit("-hls_time");
            reveal_strlit("4");
            reveal_strlit("-hls_playlist_type");
            reveal_strlit("vod");
            reveal_strlit("-hls_segment_filename");
            reveal_strlit("-var_stream_map");
            reveal_strlit("v:0 v:1");
            reveal_strlit("-master_pl_name");
            reveal_strlit("master.m3u8");
            reveal_strlit("/%v/seg_%03d.ts");
            reveal_strlit("/%v/index.m3u8");
            lemma_not_audio_name(a[i]);
        }
    }
}

/// A single-rendition command carries audio exactly when the source has
/// it: with audio, stereo AAC at 128 kbit/s; without, `-an` and no argument
/// after the source names the audio codec. The video is scaled to the
/// rendition's height.
pub proof fn law_single_command_audio(src: Seq<char>, dir: Seq<char>, height: u32, has_audio: bool)
    ensures
        ({
            let a = single_args_of(src, dir, height, has_audio);
            &&& a[3] == "-vf"@
            &&& a[4] == "scale=-2:"@ + decimal(height as nat)
            &&& has_audio ==> {
                &&& a.len() == 26
                &&& a.subrange(11, 17) == seq!["-c:a"@, "aac"@, "-b:a"@, "128k"@, "-ac"@, "2"@]
            }
            &&& !has_audio ==> {
                &&& a.len() == 21
                &&& a[11] == "-an"@
                &&& forall|i: int| 3 <= i < a.len() ==> #[trigger] a[i] != "-c:a"@
            }
        }),
{
    let a = single_args_of(src, dir, height, has_audio);
    if has_audio {
        assert(a.subrange(11, 17) =~= seq!["-c:a"@, "aac"@, "-b:a"@, "128k"@, "-ac"@, "2"@]);
    } else {
        assert(a.len() == 21);
        assert forall|i: int| 3 <= i < a.len() implies #[trigger] a[i] != "-c:a"@ by {
            reveal_strlit("-vf");
            reveal_strlit("scale=-2:");
            reveal_strlit("-c:v");
            reveal_strlit("libx264");
            reveal_strlit("-preset");
            reveal_strlit("fast");
            reveal_strlit("-crf");
            reveal_strlit("28");
            reveal_strlit("-an");
            reveal_strlit("-f");
            reveal_strlit("hls");
            reveal_strlit("-hls_time");
            reveal_strlit("4");
            reveal_strlit("-hls_playlist_type");
            reveal_strlit("vod");
            reveal_strlit("-hls_segment_filename");
            reveal_strlit("/seg_%03d.ts");
            reveal_strlit("/index.m3u8");
            lemma_not_audio_name(a[i]);
        }
    }
}

/// The probe's audio reaches the transcode command: a run that probes a
/// source and then succeeds at each step runs ffmpeg with the dual-rendition
/// command for a source of at least 720 lines, and otherwise with the
/// command of one rendition (360 lines, or the source's own height below
/// that), in both cases with audio exactly when the probe found an audio
/// stream.
pub proof fn law_probe_reaches_transcode(r: RunView, p: ProbeResult)
    requires
        well_formed(r),
        r.step == Step::Probing,
    ensures
        ({
            let ok = EventView::Done(Ok(()));
            let r1 = next(r, EventView::Probed(Ok(p))).0;
            let r2 = next(r1, ok).0;
            let r3 = next(r2, ok).0;
            let (r4, e4) = next(r3, ok);
            let (r5, e5) = next(r4, ok);
            if p.height >= 720 {
                &&& r5.step == Step::RunningDual
                &&& e5 == EffectView::RunFfmpeg { args: dual_args_of(r.source_path, r.tmp_dir, p.has_audio) }
            } else {
                let h: u32 = if p.height >= 360 { 360 } else { p.height };
                &&& r4.step == Step::RunningSingle
                &&& e4 == EffectView::RunFfmpeg {
                    args: single_args_of(r.source_path, join_path(r.tmp_dir, rendition_name_of(h)), h, p.has_audio),
                }
            }
        }),
{
}

/// Whether a MIME type is one of the five accepted at creation.
pub open spec fn accepted_mime(m: Seq<char>) -> bool {
    ||| m == "video/mp4"@
    ||| m == "video/quicktime"@
    ||| m == "video/webm"@
    ||| m == "video/x-msvideo"@
    ||| m == "video/x-matroska"@
}

/// A creation request with every field present and a size of at most
/// 1 GiB is refused with 415, naming its MIME type, exactly when that type
/// is not one of video/mp4, video/quicktime, video/webm, video/x-msvideo
/// and video/x-matroska, whatever its file name; with an accepted type it is
/// refused with 415, naming the file, exactly when the file name lacks an
/// accepted extension. An accepted request has a title, a file name, an
/// accepted MIME type and extension, and a size of at most 1 GiB.
pub proof fn law_create_request_media(title: Seq<char>, filename: Seq<char>, size_bytes: int, mime_type: Seq<char>)
    ensures
        ({
            let err = create_request_error(title, filename, size_bytes, mime_type);
            let present = title.len() > 0 && filename.len() > 0 && mime_type.len() > 0;
            &&& (present && size_bytes <= 1073741824 && !accepted_mime(mime_type))
                ==> err == Some((415u16, "Unsupported MIME type: "@ + mime_type))
            &&& (present && size_bytes <= 1073741824 && accepted_mime(mime_type) && !spec_has_supported_extension(filename))
                ==> err == Some((415u16, "Unsupported file extension: "@ + filename))
            &&& err is None ==> present && size_bytes <= 1073741824 && accepted_mime(mime_type)
                && spec_has_supported_extension(filename)
        }),
{
    let types = seq!["video/mp4"@, "video/quicktime"@, "video/webm"@, "video/x-msvideo"@, "video/x-matroska"@];
    if types.contains(mime_type) {
        let k = choose|k: int| 0 <= k < types.len() && types[k] == mime_type;
        assert(accepted_mime(mime_type));
    }
    if accepted_mime(mime_type) {
        if mime_type == "video/mp4"@ { assert(types[0] == mime_type); }
        else if mime_type == "video/quicktime"@ { assert(types[1] == mime_type); }
        else if mime_type == "video/webm"@ { assert(types[2] == mime_type); }
        else if mime_type == "video/x-msvideo"@ { assert(types[3] == mime_type); }
        else { assert(types[4] == mime_type); }
    }
}

/// A share link shows the video's stored status and processing stage, the
/// same as a status request on that video answers, and a stream URL,
/// `/media/hls/<share token>/master.m3u8`, exactly when the video is playable.
pub proof fn law_share_shows_stored_state(v: VideoRow, share: ShareResponse, status: VideoStatusResponse)
    requires
        share_response_matches(share, v),
        status_response_matches(status, v),
    ensures
        share.status@ == v.status@,
        opt_view(share.processing_stage) == opt_view(v.processing_stage),
        share.status@ == status.status@,
        opt_view(share.processing_stage) == opt_view(status.processing_stage),
        share.video_id@ == v.id@ && share.title@ == v.title@ && share.created_at@ == v.created_at@,
        share.playback.hls_url is Some <==> v.status@ == "playable"@,
        share.playback.hls_url matches Some(u) ==> u@ == "/media/hls/"@ + v.share_token@ + "/master.m3u8"@,
{
}

/// Text of four characters that names an audio stream or the audio codec
/// (`-c:a`, `[a0]`, `[a1]`) starts with `[` or has `c` second, and has `0`
/// or `1` third or `a` fourth; so text that does neither is none of them.
proof fn lemma_not_audio_name(x: Seq<char>)
    requires
        x.len() != 4 || (x[0] != '[' && x[1] != 'c') || (x[2] != '0' && x[2] != '1' && x[3] != 'a'),
    ensures
        x != "-c:a"@ && x != "[a0]"@ && x != "[a1]"@,
{
    reveal_strlit("-c:a");
    reveal_strlit("[a0]");
    reveal_strlit("[a1]");
    assert("-c:a"@.len() == 4 && "-c:a"@[1] == 'c' && "-c:a"@[3] == 'a');
    assert("[a0]"@.len() == 4 && "[a0]"@[0] == '[' && "[a0]"@[2] == '0');
    assert("[a1]"@.len() == 4 && "[a1]"@[0] == '[' && "[a1]"@[2] == '1');
}

} // verus!
