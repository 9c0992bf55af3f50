//! Stored records (videos and jobs), their views, and the status vocabularies.
use vstd::prelude::*;
use crate::text::{str_eq, to_owned};

verus! {

/// A video's lifecycle status.
#[derive(Clone, Copy, Debug, PartialEq, Eq, Structural)]
pub enum VideoStatus {
    Uploading,
    Processing,
    Playable,
    Failed,
}

/// The stage of processing a video is in while its status is `processing`.
#[derive(Clone, Copy, Debug, PartialEq, Eq, Structural)]
pub enum ProcessingStage {
    Queued,
    Probing,
    Transcoding,
    Publishing,
}

/// A processing job's status.
#[derive(Clone, Copy, Debug, PartialEq, Eq, Structural)]
pub enum JobStatus {
    Pending,
    InProgress,
    Done,
    Failed,
}

/// The stored text of a video status.
pub open spec fn video_status_text(s: VideoStatus) -> Seq<char> {
    match s {
        VideoStatus::Uploading => "uploading"@,
        VideoStatus::Processing => "processing"@,
        VideoStatus::Playable => "playable"@,
        VideoStatus::Failed => "failed"@,
    }
}

/// The video status a stored text names, if any.
pub open spec fn parse_video_status(t: Seq<char>) -> Option<VideoStatus> {
    if t == "uploading"@ {
        Some(VideoStatus::Uploading)
    } else if t == "processing"@ {
        Some(VideoStatus::Processing)
    } else if t == "playable"@ {
        Some(VideoStatus::Playable)
    } else if t == "failed"@ {
        Some(VideoStatus::Failed)
    } else {
        None
    }
}

/// The stored text of a processing stage.
pub open spec fn stage_text(s: ProcessingStage) -> Seq<char> {
    match s {
        ProcessingStage::Queued => "queued"@,
        ProcessingStage::Probing => "probing"@,
        ProcessingStage::Transcoding => "transcoding"@,
        ProcessingStage::Publishing => "publishing"@,
    }
}

/// The stored text of a job status.
pub open spec fn job_status_text(s: JobStatus) -> Seq<char> {
    match s {
        JobStatus::Pending => "pending"@,
        JobStatus::InProgress => "in_progress"@,
        JobStatus::Done => "done"@,
        JobStatus::Failed => "failed"@,
    }
}

/// The job status a stored text names, if any.
pub open spec fn parse_job_status(t: Seq<char>) -> Option<JobStatus> {
    if t == "pending"@ {
        Some(JobStatus::Pending)
    } else if t == "in_progress"@ {
        Some(JobStatus::InProgress)
    } else if t == "done"@ {
        Some(JobStatus::Done)
    } else if t == "failed"@ {
        Some(JobStatus::Failed)
    } else {
        None
    }
}

/// The video state machine: the status changes the service may make.
pub open spec fn allowed_video_transition(from: VideoStatus, to: VideoStatus) -> bool {
    ||| from == VideoStatus::Uploading && to == VideoStatus::Processing
    ||| from == VideoStatus::Processing && to == VideoStatus::Playable
    ||| from == VideoStatus::Processing && to == VideoStatus::Failed
    ||| from == VideoStatus::Failed && to == VideoStatus::Uploading
}

/// The stored status texts are distinct and each names its status.
pub proof fn lemma_status_texts()
    ensures
        "uploading"@.len() == 9,
        "processing"@.len() == 10,
        "playable"@.len() == 8,
        "failed"@.len() == 6,
        forall|s: VideoStatus| #[trigger] parse_video_status(video_status_text(s)) == Some(s),
{
    reveal_strlit("uploading");
    reveal_strlit("processing");
    reveal_strlit("playable");
    reveal_strlit("failed");
}

impl VideoStatus {
    /// The stored text of the status.
    pub fn as_str(&self) -> (s: &'static str)
        ensures
            s@ == video_status_text(*self),
    {
        match self {
            VideoStatus::Uploading => "uploading",
            VideoStatus::Processing => "processing",
            VideoStatus::Playable => "playable",
            VideoStatus::Failed => "failed",
        }
    }

    /// The status a stored text names, if any.
    pub fn parse(t: &str) -> (res: Option<VideoStatus>)
        ensures
            res == parse_video_status(t@),
    {
        if str_eq(t, "uploading") {
            Some(VideoStatus::Uploading)
        } else if str_eq(t, "processing") {
            Some(VideoStatus::Processing)
        } else if str_eq(t, "playable") {
            Some(VideoStatus::Playable)
        } else if str_eq(t, "failed") {
            Some(VideoStatus::Failed)
        } else {
            None
        }
    }
}

impl ProcessingStage {
    /// The stored text of the stage.
    pub fn as_str(&self) -> (s: &'static str)
        ensures
            s@ == stage_text(*self),
    {
        match self {
            ProcessingStage::Queued => "queued",
            ProcessingStage::Probing => "probing",
            ProcessingStage::Transcoding => "transcoding",
            ProcessingStage::Publishing => "publishing",
        }
    }
}

impl JobStatus {
    /// The stored text of the job status.
    pub fn as_str(&self) -> (s: &'static str)
        ensures
            s@ == job_status_text(*self),
    {
        match self {
            JobStatus::Pending => "pending",
            JobStatus::InProgress => "in_progress",
            JobStatus::Done => "done",
            JobStatus::Failed => "failed",
        }
    }

    /// The job status a stored text names, if any.
    pub fn parse(t: &str) -> (res: Option<JobStatus>)
        ensures
            res == parse_job_status(t@),
    {
        if str_eq(t, "pending") {
            Some(JobStatus::Pending)
        } else if str_eq(t, "in_progress") {
            Some(JobStatus::InProgress)
        } else if str_eq(t, "done") {
            Some(JobStatus::Done)
        } else if str_eq(t, "failed") {
            Some(JobStatus::Failed)
        } else {
            None
        }
    }
}

/// The characters of an optional string.
pub open spec fn opt_view(o: Option<String>) -> Option<Seq<char>> {
    match o {
        Some(s) => Some(s@),
        None => None,
    }
}

/// A copy of an optional string.
pub fn copy_opt(o: &Option<String>) -> (res: Option<String>)
    ensures
        opt_view(res) == opt_view(*o),
{
    match o {
        Some(s) => Some(to_owned(s.as_str())),
        None => None,
    }
}

/// A stored video record (a row of the `videos` table).
pub struct VideoRow {
    pub id: String,
    pub title: String,
    pub filename: String,
    pub size_bytes: i64,
    pub mime_type: String,
    pub status: String,
    pub share_token: String,
    pub processing_stage: Option<String>,
    pub source_path: Option<String>,
    pub error_code: Option<String>,
    pub error_message: Option<String>,
    pub upload_initiated_at: String,
    pub upload_completed_at: Option<String>,
    pub processing_started_at: Option<String>,
    pub processing_completed_at: Option<String>,
    pub failed_at: Option<String>,
    pub failure_stage: Option<String>,
    pub failure_reason: Option<String>,
    pub created_at: String,
    pub updated_at: String,
}

/// The contents of a video record, as plain values.
pub struct VideoRecord {
    pub id: Seq<char>,
    pub title: Seq<char>,
    pub filename: Seq<char>,
    pub size_bytes: int,
    pub mime_type: Seq<char>,
    pub status: Seq<char>,
    pub share_token: Seq<char>,
    pub processing_stage: Option<Seq<char>>,
    pub source_path: Option<Seq<char>>,
    pub error_code: Option<Seq<char>>,
    pub error_message: Option<Seq<char>>,
    pub upload_initiated_at: Seq<char>,
    pub upload_completed_at: Option<Seq<char>>,
    pub processing_started_at: Option<Seq<char>>,
    pub processing_completed_at: Option<Seq<char>>,
    pub failed_at: Option<Seq<char>>,
    pub failure_stage: Option<Seq<char>>,
    pub failure_reason: Option<Seq<char>>,
    pub created_at: Seq<char>,
    pub updated_at: Seq<char>,
}

impl View for VideoRow {
    type V = VideoRecord;

    open spec fn view(&self) -> VideoRecord {
        VideoRecord {
            id: self.id@,
            title: self.title@,
            filename: self.filename@,
            size_bytes: self.size_bytes as int,
            mime_type: self.mime_type@,
            status: self.status@,
            share_token: self.share_token@,
            processing_stage: opt_view(self.processing_stage),
            source_path: opt_view(self.source_path),
            error_code: opt_view(self.error_code),
            error_message: opt_view(self.error_message),
            upload_initiated_at: self.upload_initiated_at@,
            upload_completed_at: opt_view(self.upload_completed_at),
            processing_started_at: opt_view(self.processing_started_at),
            processing_completed_at: opt_view(self.processing_completed_at),
            failed_at: opt_view(self.failed_at),
            failure_stage: opt_view(self.failure_stage),
            failure_reason: opt_view(self.failure_reason),
            created_at: self.created_at@,
            updated_at: self.updated_at@,
        }
    }
}

impl VideoRow {
    /// A field-by-field copy of the record.
    pub fn copy(&self) -> (res: VideoRow)
        ensures
            res@ == self@,
    {
        VideoRow {
            id: to_owned(self.id.as_str()),
            title: to_owned(self.title.as_str()),
            filename: to_owned(self.filename.as_str()),
            size_bytes: self.size_bytes,
            mime_type: to_owned(self.mime_type.as_str()),
            status: to_owned(self.status.as_str()),
            share_token: to_owned(self.share_token.as_str()),
            processing_stage: copy_opt(&self.processing_stage),
            source_path: copy_opt(&self.source_path),
            error_code: copy_opt(&self.error_code),
            error_message: copy_opt(&self.error_message),
            upload_initiated_at: to_owned(self.upload_initiated_at.as_str()),
            upload_completed_at: copy_opt(&self.upload_completed_at),
            processing_started_at: copy_opt(&self.processing_started_at),
            processing_completed_at: copy_opt(&self.processing_completed_at),
            failed_at: copy_opt(&self.failed_at),
            failure_stage: copy_opt(&self.failure_stage),
            failure_reason: copy_opt(&self.failure_reason),
            created_at: to_owned(self.created_at.as_str()),
            updated_at: to_owned(self.updated_at.as_str()),
        }
    }
}

/// A stored processing job (a row of the `jobs` table).
pub struct JobRow {
    pub id: String,
    pub job_type: String,
    pub video_id: String,
    pub source_path: String,
    pub status: String,
    pub attempt_count: i32,
    pub max_attempts: i32,
    pub scheduled_at: String,
    pub locked_at: Option<String>,
    pub worker_id: Option<String>,
    pub last_error: Option<String>,
    pub idempotency_key: String,
    pub created_at: String,
    pub updated_at: String,
}

/// The contents of a job record, as plain values.
pub struct JobRecord {
    pub id: Seq<char>,
    pub job_type: Seq<char>,
    pub video_id: Seq<char>,
    pub source_path: Seq<char>,
    pub status: Seq<char>,
    pub attempt_count: int,
    pub max_attempts: int,
    pub scheduled_at: Seq<char>,
    pub locked_at: Option<Seq<char>>,
    pub worker_id: Option<Seq<char>>,
    pub last_error: Option<Seq<char>>,
    pub idempotency_key: Seq<char>,
    pub created_at: Seq<char>,
    pub updated_at: Seq<char>,
}

impl View for JobRow {
    type V = JobRecord;

    open spec fn view(&self) -> JobRecord {
        JobRecord {
            id: self.id@,
            job_type: self.job_type@,
            video_id: self.video_id@,
            source_path: self.source_path@,
            status: self.status@,
            attempt_count: self.attempt_count as int,
            max_attempts: self.max_attempts as int,
            scheduled_at: self.scheduled_at@,
            locked_at: opt_view(self.locked_at),
            worker_id: opt_view(self.worker_id),
            last_error: opt_view(self.last_error),
            idempotency_key: self.idempotency_key@,
            created_at: self.created_at@,
            updated_at: self.updated_at@,
        }
    }
}

impl JobRow {
    /// A field-by-field copy of the record.
    pub fn copy(&self) -> (res: JobRow)
        ensures
            res@ == self@,
    {
        JobRow {
            id: to_owned(self.id.as_str()),
            job_type: to_owned(self.job_type.as_str()),
            video_id: to_owned(self.video_id.as_str()),
            source_path: to_owned(self.source_path.as_str()),
            status: to_owned(self.status.as_str()),
            attempt_count: self.attempt_count,
            max_attempts: self.max_attempts,
            scheduled_at: to_owned(self.scheduled_at.as_str()),
            locked_at: copy_opt(&self.locked_at),
            worker_id: copy_opt(&self.worker_id),
            last_error: copy_opt(&self.last_error),
            idempotency_key: to_owned(self.idempotency_key.as_str()),
            created_at: to_owned(self.created_at.as_str()),
            updated_at: to_owned(self.updated_at.as_str()),
        }
    }
}

} // verus!
