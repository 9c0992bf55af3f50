use streamdrop::db;
use streamdrop::models::ProcessingStage;
use streamdrop::worker::pipeline::{Effect, Event, JobRun, Step};
use streamdrop::worker::probe::{
    ffprobe_args, interpret_ffmpeg, interpret_ffprobe, probe_result_from, tail_lines, ProbeOutput, ProbeResult,
    ProbeStream, ProcessOutput,
};
use streamdrop::worker::retry::{backoff_seconds, handle_failure, FailurePlan, POLL_INTERVAL_MS};
use streamdrop::worker::transcode::{
    dual_filter, dual_rendition_args, master_playlist, plan_renditions, rename_master_variants, rendition_name,
    single_rendition_args, TranscodePlan,
};

fn output(success: bool, stdout: &str, stderr: &str) -> ProcessOutput {
    ProcessOutput {
        success,
        status_text: "exit status: 1".to_string(),
        stdout: stdout.as_bytes().to_vec(),
        stderr: stderr.as_bytes().to_vec(),
    }
}

#[test]
fn poll_interval_is_one_second() {
    assert_eq!(POLL_INTERVAL_MS, 1000);
}

#[test]
fn backoff_follows_schedule() {
    assert_eq!(backoff_seconds(0), 10);
    assert_eq!(backoff_seconds(1), 10);
    assert_eq!(backoff_seconds(2), 30);
    assert_eq!(backoff_seconds(3), 90);
    assert_eq!(backoff_seconds(100), 90);
    assert_eq!(backoff_seconds(-1), 90);
}

#[test]
fn failures_are_retried_then_final() {
    let j0 = db::jobs::insert("job_1", "vid_1", "p", "t0");
    let c1 = db::jobs::claim_pending(&j0, "w", "t1");
    match handle_failure(&c1, "probing", "e1") {
        FailurePlan::Retry { job_id, error, backoff_seconds } => {
            assert_eq!(job_id, "job_1");
            assert_eq!(error, "e1");
            assert_eq!(backoff_seconds, 10);
        },
        FailurePlan::GiveUp { .. } => panic!("gave up too early"),
    }
    let c2 = db::jobs::claim_pending(&db::jobs::reschedule_at(&c1, "e1", 10, 1_772_973_296), "w", "t3");
    assert!(matches!(handle_failure(&c2, "probing", "e2"), FailurePlan::Retry { backoff_seconds: 30, .. }));
    let c3 = db::jobs::claim_pending(&db::jobs::reschedule_at(&c2, "e2", 30, 1_772_973_306), "w", "t5");
    match handle_failure(&c3, "transcoding", "e3") {
        FailurePlan::GiveUp { job_id, video_id, stage, error, source_dir } => {
            assert_eq!(job_id, "job_1");
            assert_eq!(video_id, "vid_1");
            assert_eq!(stage, "transcoding");
            assert_eq!(error, "e3");
            assert_eq!(source_dir, "storage/originals/vid_1");
        },
        FailurePlan::Retry { .. } => panic!("retried a fourth time"),
    }
}

fn stream(codec: Option<&str>, height: Option<u64>) -> ProbeStream {
    ProbeStream { codec_type: codec.map(|c| c.to_string()), height }
}

#[test]
fn probe_reads_first_video_stream_and_audio() {
    let o = ProbeOutput {
        streams: Some(vec![stream(Some("audio"), None), stream(Some("video"), Some(1080)), stream(Some("video"), Some(240))]),
    };
    assert_eq!(probe_result_from(&o), Ok(ProbeResult { height: 1080, has_audio: true }));
    let o = ProbeOutput { streams: Some(vec![stream(Some("video"), Some(360))]) };
    assert_eq!(probe_result_from(&o), Ok(ProbeResult { height: 360, has_audio: false }));
}

#[test]
fn probe_height_is_truncated_to_32_bits() {
    let o = ProbeOutput { streams: Some(vec![stream(Some("video"), Some((1u64 << 32) + 7))]) };
    assert_eq!(probe_result_from(&o), Ok(ProbeResult { height: 7, has_audio: false }));
}

#[test]
fn probe_errors() {
    assert_eq!(probe_result_from(&ProbeOutput { streams: None }), Err("No streams found in ffprobe output".to_string()));
    let o = ProbeOutput { streams: Some(vec![stream(Some("audio"), None), stream(None, Some(1))]) };
    assert_eq!(probe_result_from(&o), Err("No video stream found".to_string()));
    let o = ProbeOutput { streams: Some(vec![stream(Some("video"), None), stream(Some("video"), Some(720))]) };
    assert_eq!(probe_result_from(&o), Err("No height in video stream".to_string()));
}

#[test]
fn ffprobe_arguments() {
    assert_eq!(
        ffprobe_args("s.mp4"),
        vec!["-v", "quiet", "-print_format", "json", "-show_format", "-show_streams", "s.mp4"]
    );
}

#[test]
fn ffprobe_report_is_parsed() {
    let json = r#"{"streams":[{"index":0,"codec_type":"video","height":720,"width":1280},{"codec_type":"audio","channels":2}],"format":{"duration":"5.0"}}"#;
    let run = Ok(output(true, json, ""));
    assert_eq!(interpret_ffprobe(&run), Ok(ProbeResult { height: 720, has_audio: true }));
}

#[test]
fn ffprobe_report_oddities() {
    // A height that is not an unsigned integer counts as missing.
    let json = r#"{"streams":[{"codec_type":"video","height":"720"}]}"#;
    assert_eq!(interpret_ffprobe(&Ok(output(true, json, ""))), Err("No height in video stream".to_string()));
    // `streams` that is not an array counts as missing.
    let json = r#"{"streams":{}}"#;
    assert_eq!(interpret_ffprobe(&Ok(output(true, json, ""))), Err("No streams found in ffprobe output".to_string()));
}

#[test]
fn ffprobe_failures() {
    assert_eq!(
        interpret_ffprobe(&Err("No such file".to_string())),
        Err("Failed to execute ffprobe: No such file".to_string())
    );
    assert_eq!(
        interpret_ffprobe(&Ok(output(false, "", "Invalid data found"))),
        Err("ffprobe failed: Invalid data found".to_string())
    );
    let bad = ProcessOutput { success: false, status_text: String::new(), stdout: vec![], stderr: vec![0xff, b'x'] };
    assert_eq!(interpret_ffprobe(&Ok(bad)), Err("ffprobe failed: \u{fffd}x".to_string()));
    match interpret_ffprobe(&Ok(output(true, "not json", ""))) {
        Err(m) => assert!(m.starts_with("Failed to parse ffprobe JSON: ") && m.len() > 30, "{m}"),
        Ok(_) => panic!("parsed garbage"),
    }
}

#[test]
fn ffmpeg_outcomes() {
    assert_eq!(interpret_ffmpeg(&Ok(output(true, "", "noise"))), Ok(()));
    assert_eq!(interpret_ffmpeg(&Err("denied".to_string())), Err("Failed to execute ffmpeg: denied".to_string()));
    assert_eq!(
        interpret_ffmpeg(&Ok(output(false, "", "a\nb\n"))),
        Err("ffmpeg exit exit status: 1: a\nb".to_string())
    );
}

#[test]
fn ffmpeg_failure_keeps_last_twenty_lines() {
    let stderr: String = (1..=30).map(|i| format!("line {i}\n")).collect();
    let expected: Vec<String> = (11..=30).map(|i| format!("line {i}")).collect();
    assert_eq!(tail_lines(&stderr, 20), expected.join("\n"));
    assert_eq!(tail_lines("one\r\ntwo", 20), "one\ntwo");
    assert_eq!(tail_lines("", 20), "");
}

#[test]
fn rendition_ladder() {
    let p = |height, has_audio| ProbeResult { height, has_audio };
    assert_eq!(plan_renditions(&p(1080, true)), TranscodePlan::Dual { has_audio: true });
    assert_eq!(plan_renditions(&p(720, false)), TranscodePlan::Dual { has_audio: false });
    assert_eq!(plan_renditions(&p(719, true)), TranscodePlan::Single { height: 360, has_audio: true });
    assert_eq!(plan_renditions(&p(360, true)), TranscodePlan::Single { height: 360, has_audio: true });
    assert_eq!(plan_renditions(&p(240, false)), TranscodePlan::Single { height: 240, has_audio: false });
    assert_eq!(rendition_name(240), "240p");
}

#[test]
fn dual_rendition_command() {
    assert_eq!(
        dual_filter(true),
        "[0:v]split=2[v720][v360];[v720]scale=-2:720[out720];[v360]scale=-2:360[out360];[0:a]asplit=2[a0][a1]"
    );
    let args = dual_rendition_args("src.mp4", "tmp", true);
    let expected = vec![
        "-y", "-i", "src.mp4", "-filter_complex",
        "[0:v]split=2[v720][v360];[v720]scale=-2:720[out720];[v360]scale=-2:360[out360];[0:a]asplit=2[a0][a1]",
        "-map", "[out720]", "-map", "[out360]", "-map", "[a0]", "-map", "[a1]",
        "-c:v", "libx264", "-preset", "fast", "-crf", "28",
        "-c:a", "aac", "-b:a", "128k", "-ac", "2",
        "-f", "hls", "-hls_time", "4", "-hls_playlist_type", "vod",
        "-hls_segment_filename", "tmp/%v/seg_%03d.ts",
        "-var_stream_map", "v:0,a:0 v:1,a:1",
        "-master_pl_name", "master.m3u8", "tmp/%v/index.m3u8",
    ];
    assert_eq!(args, expected);
    let silent = dual_rendition_args("src.mp4", "tmp", false);
    assert!(!silent.iter().any(|a| a == "[a0]" || a == "aac"));
    assert!(silent.contains(&"v:0 v:1".to_string()));
}

#[test]
fn single_rendition_command() {
    let args = single_rendition_args("src.mp4", "tmp/360p", 360, false);
    let expected = vec![
        "-y", "-i", "src.mp4", "-vf", "scale=-2:360",
        "-c:v", "libx264", "-preset", "fast", "-crf", "28", "-an",
        "-f", "hls", "-hls_time", "4", "-hls_playlist_type", "vod",
        "-hls_segment_filename", "tmp/360p/seg_%03d.ts", "tmp/360p/index.m3u8",
    ];
    assert_eq!(args, expected);
    let with_audio = single_rendition_args("src.mp4", "tmp/240p", 240, true);
    assert!(with_audio.contains(&"aac".to_string()) && !with_audio.contains(&"-an".to_string()));
}

#[test]
fn master_playlists() {
    assert_eq!(
        master_playlist(&["360p".to_string()]),
        "#EXTM3U\n#EXT-X-STREAM-INF:BANDWIDTH=500000\n360p/index.m3u8\n"
    );
    assert_eq!(
        master_playlist(&["720p".to_string(), "360p".to_string()]),
        "#EXTM3U\n#EXT-X-STREAM-INF:BANDWIDTH=2500000\n720p/index.m3u8\n#EXT-X-STREAM-INF:BANDWIDTH=500000\n360p/index.m3u8\n"
    );
    assert_eq!(
        master_playlist(&["240p".to_string()]),
        "#EXTM3U\n#EXT-X-STREAM-INF:BANDWIDTH=800000\n240p/index.m3u8\n"
    );
}

#[test]
fn ffmpeg_master_playlist_is_renamed() {
    let ffmpeg = "#EXTM3U\n#EXT-X-VERSION:3\n#EXT-X-STREAM-INF:BANDWIDTH=1400000,RESOLUTION=1280x720\n0/index.m3u8\n\n#EXT-X-STREAM-INF:BANDWIDTH=600000,RESOLUTION=640x360\n1/index.m3u8\n";
    let fixed = rename_master_variants(ffmpeg);
    assert_eq!(fixed, ffmpeg.replace("0/index.m3u8", "720p/index.m3u8").replace("1/index.m3u8", "360p/index.m3u8"));
    assert!(fixed.contains("\n720p/index.m3u8\n") && fixed.contains("\n360p/index.m3u8\n"));
}

/// Runs a job through the pipeline, answering every effect with success,
/// the given probe result, and the given existence of an old public dir.
fn run_all(probe: ProbeResult, public_exists: bool) -> (Vec<String>, Step) {
    let job = db::jobs::claim_pending(&db::jobs::insert("job_1", "vid_1", "src.mp4", "t0"), "w", "t1");
    let (mut run, mut effect) = JobRun::start(&job);
    let mut log = Vec::new();
    loop {
        let event = match &effect {
            Effect::MarkProcessingStarted { video_id } => { log.push(format!("started {video_id}")); Event::Done(Ok(())) },
            Effect::SetStage { stage, .. } => { log.push(format!("stage {}", stage.as_str())); Event::Done(Ok(())) },
            Effect::RunFfprobe { args } => { log.push(format!("ffprobe {}", args.last().unwrap())); Event::Probed(Ok(probe)) },
            Effect::CreateDir { path } => { log.push(format!("mkdir {path}")); Event::Done(Ok(())) },
            Effect::RunFfmpeg { .. } => { log.push("ffmpeg".to_string()); Event::Transcoded(Ok(())) },
            Effect::Rename { from, to } => { log.push(format!("mv {from} {to}")); Event::Done(Ok(())) },
            Effect::ReadFile { path } => { log.push(format!("read {path}")); Event::Read(Ok("0/index.m3u8\n1/index.m3u8\n".to_string())) },
            Effect::WriteFile { path, content } => { log.push(format!("write {path} {content:?}")); Event::Done(Ok(())) },
            Effect::LoadVideo { .. } => { log.push("load".to_string()); Event::Loaded(Ok(Some("shr_abc".to_string()))) },
            Effect::CheckExists { path } => { log.push(format!("exists {path}")); Event::Exists(public_exists) },
            Effect::RemoveDir { path } => { log.push(format!("rm {path}")); Event::Done(Ok(())) },
            Effect::MarkPlayable { .. } => { log.push("playable".to_string()); Event::Done(Ok(())) },
            Effect::MarkJobDone { job_id } => { log.push(format!("done {job_id}")); Event::Done(Ok(())) },
            Effect::CleanUpSource { path } => { log.push(format!("cleanup {path}")); Event::Done(Ok(())) },
            Effect::Finished | Effect::Failed { .. } => break,
        };
        assert!(run.expects(&event));
        let (r, e) = run.advance(event);
        run = r;
        effect = e;
    }
    (log, run.step)
}

#[test]
fn dual_rendition_job_runs_to_playable() {
    let (log, step) = run_all(ProbeResult { height: 1080, has_audio: true }, false);
    assert_eq!(step, Step::Finished);
    let expected = vec![
        "started vid_1",
        "stage probing",
        "ffprobe src.mp4",
        "stage transcoding",
        "mkdir storage/hls/_tmp/vid_1",
        "mkdir storage/hls/_tmp/vid_1/0",
        "mkdir storage/hls/_tmp/vid_1/1",
        "ffmpeg",
        "mv storage/hls/_tmp/vid_1/0 storage/hls/_tmp/vid_1/720p",
        "mv storage/hls/_tmp/vid_1/1 storage/hls/_tmp/vid_1/360p",
        "read storage/hls/_tmp/vid_1/master.m3u8",
        "write storage/hls/_tmp/vid_1/master.m3u8 \"720p/index.m3u8\\n360p/index.m3u8\\n\"",
        "stage publishing",
        "load",
        "exists storage/hls/public/shr_abc",
        "mv storage/hls/_tmp/vid_1 storage/hls/public/shr_abc",
        "playable",
        "done job_1",
        "cleanup storage/originals/vid_1",
    ];
    assert_eq!(log, expected);
}

#[test]
fn single_rendition_job_replaces_old_public_dir() {
    let (log, step) = run_all(ProbeResult { height: 480, has_audio: false }, true);
    assert_eq!(step, Step::Finished);
    assert!(log.contains(&"mkdir storage/hls/_tmp/vid_1/360p".to_string()));
    assert!(log.contains(&"write storage/hls/_tmp/vid_1/master.m3u8 \"#EXTM3U\\n#EXT-X-STREAM-INF:BANDWIDTH=500000\\n360p/index.m3u8\\n\"".to_string()));
    let rm = log.iter().position(|l| l == "rm storage/hls/public/shr_abc").unwrap();
    let mv = log.iter().position(|l| l == "mv storage/hls/_tmp/vid_1 storage/hls/public/shr_abc").unwrap();
    assert!(rm < mv);
}

#[test]
fn failures_report_their_stage() {
    let job = db::jobs::claim_pending(&db::jobs::insert("job_1", "vid_1", "src.mp4", "t0"), "w", "t1");
    let (run, _) = JobRun::start(&job);
    let (run, _) = run.advance(Event::Done(Ok(())));
    let (run, _) = run.advance(Event::Done(Ok(())));
    let (run, effect) = run.advance(Event::Probed(Err("No video stream found".to_string())));
    assert_eq!(run.step, Step::Failed);
    match effect {
        Effect::Failed { stage, error } => {
            assert_eq!(stage, ProcessingStage::Probing);
            assert_eq!(error, "No video stream found");
        },
        _ => panic!("expected a failure"),
    }

    let (run, _) = JobRun::start(&job);
    let (run, effect) = run.advance(Event::Done(Err("database is locked".to_string())));
    match effect {
        Effect::Failed { stage, error } => {
            assert_eq!(stage, ProcessingStage::Probing);
            assert_eq!(error, "DB error: database is locked");
        },
        _ => panic!("expected a failure"),
    }
    assert!(run.is_over());
}

#[test]
fn missing_video_at_publish_fails_in_publishing() {
    let job = db::jobs::claim_pending(&db::jobs::insert("job_1", "vid_1", "src.mp4", "t0"), "w", "t1");
    let (mut run, _) = JobRun::start(&job);
    for event in [
        Event::Done(Ok(())),
        Event::Done(Ok(())),
        Event::Probed(Ok(ProbeResult { height: 200, has_audio: false })),
        Event::Done(Ok(())),
        Event::Done(Ok(())),
        Event::Done(Ok(())),
        Event::Transcoded(Ok(())),
        Event::Done(Ok(())),
        Event::Done(Ok(())),
    ] {
        let (r, _) = run.advance(event);
        run = r;
    }
    assert_eq!(run.step, Step::LoadingVideo);
    let (run, effect) = run.advance(Event::Loaded(Ok(None)));
    assert_eq!(run.step, Step::Failed);
    match effect {
        Effect::Failed { stage, error } => {
            assert_eq!(stage, ProcessingStage::Publishing);
            assert_eq!(error, "Video not found during publish");
        },
        _ => panic!("expected a failure"),
    }
}
