//! The processing of one job as a state machine: the library decides each
//! next effect (a store write, a command, a file operation) from the
//! outcome of the previous one; the caller performs the effects.
use vstd::prelude::*;
use crate::models::{JobRow, ProcessingStage};
use crate::service::{source_dir, source_dir_of};
use crate::text::{concat, to_owned};
use crate::worker::probe::{ffprobe_args, ffprobe_args_of, views, ProbeResult};
use crate::worker::transcode::{
    dual_args_of, dual_rendition_args, join_path, master_playlist, master_playlist_of, path_in,
    plan_of, plan_renditions, public_dir, public_dir_of, rename_master_variants, renamed_master_of,
    rendition_name, rendition_name_of, single_args_of, single_rendition_args, tmp_dir, tmp_dir_of,
    TranscodePlan,
};

verus! {

/// Where the processing of a job stands.
#[derive(Clone, Copy, Debug, PartialEq, Eq, Structural)]
pub enum Step {
    MarkingStarted,
    SettingProbing,
    Probing,
    SettingTranscoding,
    CreatingTmp,
    CreatingVariant0,
    CreatingVariant1,
    RunningDual,
    RenamingVariant0,
    RenamingVariant1,
    ReadingMaster,
    WritingMaster,
    CreatingRendition,
    RunningSingle,
    WritingSingleMaster,
    SettingPublishing,
    LoadingVideo,
    CheckingPublic,
    RemovingPublic,
    Publishing,
    MarkingPlayable,
    MarkingDone,
    CleaningUp,
    Finished,
    Failed,
}

/// The processing stage a step belongs to: a failure at that step is
/// reported with this stage.
pub open spec fn stage_of(step: Step) -> ProcessingStage {
    match step {
        Step::MarkingStarted | Step::SettingProbing | Step::Probing => ProcessingStage::Probing,
        Step::SettingTranscoding | Step::CreatingTmp | Step::CreatingVariant0 | Step::CreatingVariant1
        | Step::RunningDual | Step::RenamingVariant0 | Step::RenamingVariant1 | Step::ReadingMaster
        | Step::WritingMaster | Step::CreatingRendition | Step::RunningSingle
        | Step::WritingSingleMaster => ProcessingStage::Transcoding,
        _ => ProcessingStage::Publishing,
    }
}

/// Whether the processing is over.
pub open spec fn is_terminal(step: Step) -> bool {
    step == Step::Finished || step == Step::Failed
}

/// Something the caller must do next.
pub enum Effect {
    /// Record in the video that processing started.
    MarkProcessingStarted { video_id: String },
    /// Set the video's status to `processing` with this stage.
    SetStage { video_id: String, stage: ProcessingStage },
    /// Run ffprobe with these arguments, then report `Probed` with the
    /// outcome read by `interpret_ffprobe`.
    RunFfprobe { args: Vec<String> },
    /// Create a directory and its parents.
    CreateDir { path: String },
    /// Run ffmpeg with these arguments, then report `Transcoded` with the
    /// outcome read by `interpret_ffmpeg`.
    RunFfmpeg { args: Vec<String> },
    /// Rename a file or directory.
    Rename { from: String, to: String },
    /// Read a text file and report `Read`.
    ReadFile { path: String },
    /// Write a text file.
    WriteFile { path: String, content: String },
    /// Look up the video and report `Loaded` with its share token.
    LoadVideo { video_id: String },
    /// Report `Exists` with whether the path exists.
    CheckExists { path: String },
    /// Remove a directory and its contents.
    RemoveDir { path: String },
    /// Mark the video playable.
    MarkPlayable { video_id: String },
    /// Mark the job done.
    MarkJobDone { job_id: String },
    /// Delete the video's source; the outcome does not matter.
    CleanUpSource { path: String },
    /// The video is playable and the job done.
    Finished,
    /// Processing failed at this stage with this error.
    Failed { stage: ProcessingStage, error: String },
}

/// The outcome of the last effect.
pub enum Event {
    /// A store write or a file operation finished, or failed with this error.
    Done(Result<(), String>),
    /// ffprobe was run and its report read.
    Probed(Result<ProbeResult, String>),
    /// ffmpeg was run and its outcome read.
    Transcoded(Result<(), String>),
    /// A file was read.
    Read(Result<String, String>),
    /// The video was looked up: its share token, `None` when it is gone.
    Loaded(Result<Option<String>, String>),
    /// Whether a path exists.
    Exists(bool),
}

/// An effect as plain values.
pub enum EffectView {
    MarkProcessingStarted { video_id: Seq<char> },
    SetStage { video_id: Seq<char>, stage: ProcessingStage },
    RunFfprobe { args: Seq<Seq<char>> },
    CreateDir { path: Seq<char> },
    RunFfmpeg { args: Seq<Seq<char>> },
    Rename { from: Seq<char>, to: Seq<char> },
    ReadFile { path: Seq<char> },
    WriteFile { path: Seq<char>, content: Seq<char> },
    LoadVideo { video_id: Seq<char> },
    CheckExists { path: Seq<char> },
    RemoveDir { path: Seq<char> },
    MarkPlayable { video_id: Seq<char> },
    MarkJobDone { job_id: Seq<char> },
    CleanUpSource { path: Seq<char> },
    Finished,
    Failed { stage: ProcessingStage, error: Seq<char> },
}

impl View for Effect {
    type V = EffectView;

    open spec fn view(&self) -> EffectView {
        match self {
            Effect::MarkProcessingStarted { video_id } => EffectView::MarkProcessingStarted { video_id: video_id@ },
            Effect::SetStage { video_id, stage } => EffectView::SetStage { video_id: video_id@, stage: *stage },
            Effect::RunFfprobe { args } => EffectView::RunFfprobe { args: views(args@) },
            Effect::CreateDir { path } => EffectView::CreateDir { path: path@ },
            Effect::RunFfmpeg { args } => EffectView::RunFfmpeg { args: views(args@) },
            Effect::Rename { from, to } => EffectView::Rename { from: from@, to: to@ },
            Effect::ReadFile { path } => EffectView::ReadFile { path: path@ },
            Effect::WriteFile { path, content } => EffectView::WriteFile { path: path@, content: content@ },
            Effect::LoadVideo { video_id } => EffectView::LoadVideo { video_id: video_id@ },
            Effect::CheckExists { path } => EffectView::CheckExists { path: path@ },
            Effect::RemoveDir { path } => EffectView::RemoveDir { path: path@ },
            Effect::MarkPlayable { video_id } => EffectView::MarkPlayable { video_id: video_id@ },
            Effect::MarkJobDone { job_id } => EffectView::MarkJobDone { job_id: job_id@ },
            Effect::CleanUpSource { path } => EffectView::CleanUpSource { path: path@ },
            Effect::Finished => EffectView::Finished,
            Effect::Failed { stage, error } => EffectView::Failed { stage: *stage, error: error@ },
        }
    }
}

/// An outcome as plain values.
pub enum EventView {
    Done(Result<(), Seq<char>>),
    Probed(Result<ProbeResult, Seq<char>>),
    Transcoded(Result<(), Seq<char>>),
    Read(Result<Seq<char>, Seq<char>>),
    Loaded(Result<Option<Seq<char>>, Seq<char>>),
    Exists(bool),
}

/// The characters of a string result.
pub open spec fn result_view<T>(r: Result<T, String>) -> Result<T, Seq<char>> {
    match r {
        Ok(t) => Ok(t),
        Err(e) => Err(e@),
    }
}

impl View for Event {
    type V = EventView;

    open spec fn view(&self) -> EventView {
        match self {
            Event::Done(r) => EventView::Done(result_view(*r)),
            Event::Probed(r) => EventView::Probed(result_view(*r)),
            Event::Transcoded(r) => EventView::Transcoded(result_view(*r)),
            Event::Read(r) => EventView::Read(match r { Ok(s) => Ok(s@), Err(e) => Err(e@) }),
            Event::Loaded(r) => EventView::Loaded(match r {
                Ok(Some(t)) => Ok(Some(t@)),
                Ok(None) => Ok(None),
                Err(e) => Err(e@),
            }),
            Event::Exists(b) => EventView::Exists(*b),
        }
    }
}

/// Whether an outcome is of the kind the step waits for.
pub open spec fn fits(step: Step, event: EventView) -> bool {
    match step {
        Step::Probing => event is Probed,
        Step::RunningDual | Step::RunningSingle => event is Transcoded,
        Step::ReadingMaster => event is Read,
        Step::LoadingVideo => event is Loaded,
        Step::CheckingPublic => event is Exists,
        Step::CleaningUp => true,
        _ => event is Done,
    }
}

/// The processing of one job.
pub struct JobRun {
    pub job_id: String,
    pub video_id: String,
    pub source_path: String,
    pub tmp_dir: String,
    pub step: Step,
    pub plan: Option<TranscodePlan>,
    pub public_dir: Option<String>,
}

/// A job's processing as plain values.
pub struct RunView {
    pub job_id: Seq<char>,
    pub video_id: Seq<char>,
    pub source_path: Seq<char>,
    pub tmp_dir: Seq<char>,
    pub step: Step,
    pub plan: Option<TranscodePlan>,
    pub public_dir: Option<Seq<char>>,
}

impl View for JobRun {
    type V = RunView;

    open spec fn view(&self) -> RunView {
        RunView {
            job_id: self.job_id@,
            video_id: self.video_id@,
            source_path: self.source_path@,
            tmp_dir: self.tmp_dir@,
            step: self.step,
            plan: self.plan,
            public_dir: match self.public_dir { Some(p) => Some(p@), None => None },
        }
    }
}

/// Whether a step comes after the probe (so the plan is known).
pub open spec fn after_probe(step: Step) -> bool {
    !(step == Step::MarkingStarted || step == Step::SettingProbing || step == Step::Probing)
}

/// Whether a step comes after the share token was read (so the public
/// directory is known).
pub open spec fn after_load(step: Step) -> bool {
    step == Step::CheckingPublic || step == Step::RemovingPublic || step == Step::Publishing
        || step == Step::MarkingPlayable || step == Step::MarkingDone || step == Step::CleaningUp
        || step == Step::Finished
}

/// Whether the plan is the dual-rendition one.
pub open spec fn plan_is_dual(plan: Option<TranscodePlan>) -> bool {
    match plan {
        Some(TranscodePlan::Dual { .. }) => true,
        _ => false,
    }
}

/// Whether the plan is a single rendition.
pub open spec fn plan_is_single(plan: Option<TranscodePlan>) -> bool {
    match plan {
        Some(TranscodePlan::Single { .. }) => true,
        _ => false,
    }
}

/// The invariant of a run: its temporary directory is the video's, the
/// plan is known once probed, the public directory once loaded, and the
/// transcoding steps match the plan.
pub open spec fn well_formed(r: RunView) -> bool {
    &&& r.tmp_dir == tmp_dir_of(r.video_id)
    &&& (after_probe(r.step) && r.step != Step::Failed) ==> r.plan is Some
    &&& after_load(r.step) ==> r.public_dir is Some
    &&& (r.step == Step::CreatingVariant0 || r.step == Step::CreatingVariant1 || r.step == Step::RunningDual
        || r.step == Step::RenamingVariant0 || r.step == Step::RenamingVariant1 || r.step == Step::ReadingMaster
        || r.step == Step::WritingMaster) ==> plan_is_dual(r.plan)
    &&& (r.step == Step::CreatingRendition || r.step == Step::RunningSingle || r.step == Step::WritingSingleMaster)
        ==> plan_is_single(r.plan)
}

/// The run with a new step.
pub open spec fn at(r: RunView, step: Step) -> RunView {
    RunView { step, ..r }
}

/// The run failed at its current step's stage with `error`.
pub open spec fn fail(r: RunView, error: Seq<char>) -> (RunView, EffectView) {
    (at(r, Step::Failed), EffectView::Failed { stage: stage_of(r.step), error })
}

/// A store error as reported.
pub open spec fn db_error(e: Seq<char>) -> Seq<char> {
    "DB error: "@ + e
}

/// The master playlist path of a run's temporary directory.
pub open spec fn master_path_of(r: RunView) -> Seq<char> {
    join_path(r.tmp_dir, "master.m3u8"@)
}

/// The effect that starts transcoding according to the plan.
pub open spec fn start_transcode(r: RunView) -> (RunView, EffectView) {
    match r.plan {
        Some(TranscodePlan::Single { height, .. }) => (
            at(r, Step::CreatingRendition),
            EffectView::CreateDir { path: join_path(r.tmp_dir, rendition_name_of(height)) },
        ),
        _ => (at(r, Step::CreatingVariant0), EffectView::CreateDir { path: join_path(r.tmp_dir, "0"@) }),
    }
}

/// The next step and effect, given the outcome of the last effect.
pub open spec fn next(r: RunView, e: EventView) -> (RunView, EffectView) {
    match r.step {
        Step::MarkingStarted => match e {
            EventView::Done(Ok(())) => (at(r, Step::SettingProbing),
                EffectView::SetStage { video_id: r.video_id, stage: ProcessingStage::Probing }),
            EventView::Done(Err(m)) => fail(r, db_error(m)),
            _ => (r, EffectView::Finished),
        },
        Step::SettingProbing => match e {
            EventView::Done(Ok(())) => (at(r, Step::Probing),
                EffectView::RunFfprobe { args: ffprobe_args_of(r.source_path) }),
            EventView::Done(Err(m)) => fail(r, db_error(m)),
            _ => (r, EffectView::Finished),
        },
        Step::Probing => match e {
            EventView::Probed(Ok(p)) => (RunView { step: Step::SettingTranscoding, plan: Some(plan_of(p)), ..r },
                EffectView::SetStage { video_id: r.video_id, stage: ProcessingStage::Transcoding }),
            EventView::Probed(Err(m)) => fail(r, m),
            _ => (r, EffectView::Finished),
        },
        Step::SettingTranscoding => match e {
            EventView::Done(Ok(())) => (at(r, Step::CreatingTmp), EffectView::CreateDir { path: r.tmp_dir }),
            EventView::Done(Err(m)) => fail(r, db_error(m)),
            _ => (r, EffectView::Finished),
        },
        Step::CreatingTmp => match e {
            EventView::Done(Ok(())) => start_transcode(r),
            EventView::Done(Err(m)) => fail(r, "Failed to create tmp dir: "@ + m),
            _ => (r, EffectView::Finished),
        },
        Step::CreatingVariant0 => match e {
            EventView::Done(Ok(())) => (at(r, Step::CreatingVariant1), EffectView::CreateDir { path: join_path(r.tmp_dir, "1"@) }),
            EventView::Done(Err(m)) => fail(r, "Failed to create variant dir 0: "@ + m),
            _ => (r, EffectView::Finished),
        },
        Step::CreatingVariant1 => match e {
            EventView::Done(Ok(())) => (at(r, Step::RunningDual), EffectView::RunFfmpeg {
                args: dual_args_of(r.source_path, r.tmp_dir, match r.plan {
                    Some(TranscodePlan::Dual { has_audio }) => has_audio,
                    _ => false,
                }),
            }),
            EventView::Done(Err(m)) => fail(r, "Failed to create variant dir 1: "@ + m),
            _ => (r, EffectView::Finished),
        },
        Step::RunningDual => match e {
            EventView::Transcoded(Ok(())) => (at(r, Step::RenamingVariant0),
                EffectView::Rename { from: join_path(r.tmp_dir, "0"@), to: join_path(r.tmp_dir, "720p"@) }),
            EventView::Transcoded(Err(m)) => fail(r, m),
            _ => (r, EffectView::Finished),
        },
        Step::RenamingVariant0 => match e {
            EventView::Done(Ok(())) => (at(r, Step::RenamingVariant1),
                EffectView::Rename { from: join_path(r.tmp_dir, "1"@), to: join_path(r.tmp_dir, "360p"@) }),
            EventView::Done(Err(m)) => fail(r, "Failed to rename variant 0 -> 720p: "@ + m),
            _ => (r, EffectView::Finished),
        },
        Step::RenamingVariant1 => match e {
            EventView::Done(Ok(())) => (at(r, Step::ReadingMaster), EffectView::ReadFile { path: master_path_of(r) }),
            EventView::Done(Err(m)) => fail(r, "Failed to rename variant 1 -> 360p: "@ + m),
            _ => (r, EffectView::Finished),
        },
        Step::ReadingMaster => match e {
            EventView::Read(Ok(c)) => (at(r, Step::WritingMaster),
                EffectView::WriteFile { path: master_path_of(r), content: renamed_master_of(c) }),
            EventView::Read(Err(m)) => fail(r, "Failed to read master playlist: "@ + m),
            _ => (r, EffectView::Finished),
        },
        Step::WritingMaster => match e {
            EventView::Done(Ok(())) => (at(r, Step::SettingPublishing),
                EffectView::SetStage { video_id: r.video_id, stage: ProcessingStage::Publishing }),
            EventView::Done(Err(m)) => fail(r, "Failed to rewrite master playlist: "@ + m),
            _ => (r, EffectView::Finished),
        },
        Step::CreatingRendition => match e {
            EventView::Done(Ok(())) => match r.plan {
                Some(TranscodePlan::Single { height, has_audio }) => (at(r, Step::RunningSingle), EffectView::RunFfmpeg {
                    args: single_args_of(r.source_path, join_path(r.tmp_dir, rendition_name_of(height)), height, has_audio),
                }),
                _ => (r, EffectView::Finished),
            },
            EventView::Done(Err(m)) => fail(r, m),
            _ => (r, EffectView::Finished),
        },
        Step::RunningSingle => match e {
            EventView::Transcoded(Ok(())) => match r.plan {
                Some(TranscodePlan::Single { height, .. }) => (at(r, Step::WritingSingleMaster), EffectView::WriteFile {
                    path: master_path_of(r),
                    content: master_playlist_of(seq![rendition_name_of(height)]),
                }),
                _ => (r, EffectView::Finished),
            },
            EventView::Transcoded(Err(m)) => fail(r, m),
            _ => (r, EffectView::Finished),
        },
        Step::WritingSingleMaster => match e {
            EventView::Done(Ok(())) => (at(r, Step::SettingPublishing),
                EffectView::SetStage { video_id: r.video_id, stage: ProcessingStage::Publishing }),
            EventView::Done(Err(m)) => fail(r, "Failed to write master playlist: "@ + m),
            _ => (r, EffectView::Finished),
        },
        Step::SettingPublishing => match e {
            EventView::Done(Ok(())) => (at(r, Step::LoadingVideo), EffectView::LoadVideo { video_id: r.video_id }),
            EventView::Done(Err(m)) => fail(r, db_error(m)),
            _ => (r, EffectView::Finished),
        },
        Step::LoadingVideo => match e {
            EventView::Loaded(Ok(Some(token))) => (
                RunView { step: Step::CheckingPublic, public_dir: Some(public_dir_of(token)), ..r },
                EffectView::CheckExists { path: public_dir_of(token) },
            ),
            EventView::Loaded(Ok(None)) => fail(r, "Video not found during publish"@),
            EventView::Loaded(Err(m)) => fail(r, db_error(m)),
            _ => (r, EffectView::Finished),
        },
        Step::CheckingPublic => match e {
            EventView::Exists(true) => (at(r, Step::RemovingPublic), EffectView::RemoveDir { path: r.public_dir.unwrap() }),
            EventView::Exists(false) => (at(r, Step::Publishing),
                EffectView::Rename { from: r.tmp_dir, to: r.public_dir.unwrap() }),
            _ => (r, EffectView::Finished),
        },
        Step::RemovingPublic => match e {
            EventView::Done(Ok(())) => (at(r, Step::Publishing),
                EffectView::Rename { from: r.tmp_dir, to: r.public_dir.unwrap() }),
            EventView::Done(Err(m)) => fail(r, "Failed to clean old public dir: "@ + m),
            _ => (r, EffectView::Finished),
        },
        Step::Publishing => match e {
            EventView::Done(Ok(())) => (at(r, Step::MarkingPlayable), EffectView::MarkPlayable { video_id: r.video_id }),
            EventView::Done(Err(m)) => fail(r, "Failed to publish: "@ + m),
            _ => (r, EffectView::Finished),
        },
        Step::MarkingPlayable => match e {
            EventView::Done(Ok(())) => (at(r, Step::MarkingDone), EffectView::MarkJobDone { job_id: r.job_id }),
            EventView::Done(Err(m)) => fail(r, db_error(m)),
            _ => (r, EffectView::Finished),
        },
        Step::MarkingDone => match e {
            EventView::Done(Ok(())) => (at(r, Step::CleaningUp), EffectView::CleanUpSource { path: source_dir_of(r.video_id) }),
            EventView::Done(Err(m)) => fail(r, db_error(m)),
            _ => (r, EffectView::Finished),
        },
        Step::CleaningUp => (at(r, Step::Finished), EffectView::Finished),
        Step::Finished => (r, EffectView::Finished),
        Step::Failed => (r, EffectView::Finished),
    }
}

fn fail_with(run: JobRun, error: String) -> (res: (JobRun, Effect))
    ensures
        (res.0@, res.1@) == fail(run@, error@),
{
    let stage = stage_of_step(run.step);
    (JobRun { step: Step::Failed, ..run }, Effect::Failed { stage, error })
}

/// The processing stage a step belongs to.
pub fn stage_of_step(step: Step) -> (stage: ProcessingStage)
    ensures
        stage == stage_of(step),
{
    match step {
        Step::MarkingStarted | Step::SettingProbing | Step::Probing => ProcessingStage::Probing,
        Step::SettingTranscoding | Step::CreatingTmp | Step::CreatingVariant0 | Step::CreatingVariant1
        | Step::RunningDual | Step::RenamingVariant0 | Step::RenamingVariant1 | Step::ReadingMaster
        | Step::WritingMaster | Step::CreatingRendition | Step::RunningSingle
        | Step::WritingSingleMaster => ProcessingStage::Transcoding,
        _ => ProcessingStage::Publishing,
    }
}

impl JobRun {
    /// The processing of a claimed job, and its first effect: recording
    /// that processing started.
    pub fn start(job: &JobRow) -> (res: (JobRun, Effect))
        ensures
            well_formed(res.0@),
            res.0@ == (RunView {
                job_id: job.id@,
                video_id: job.video_id@,
                source_path: job.source_path@,
                tmp_dir: tmp_dir_of(job.video_id@),
                step: Step::MarkingStarted,
                plan: None,
                public_dir: None,
            }),
            res.1@ == (EffectView::MarkProcessingStarted { video_id: job.video_id@ }),
    {
        let run = JobRun {
            job_id: to_owned(job.id.as_str()),
            video_id: to_owned(job.video_id.as_str()),
            source_path: to_owned(job.source_path.as_str()),
            tmp_dir: tmp_dir(job.video_id.as_str()),
            step: Step::MarkingStarted,
            plan: None,
            public_dir: None,
        };
        let effect = Effect::MarkProcessingStarted { video_id: to_owned(job.video_id.as_str()) };
        (run, effect)
    }

    /// Whether an outcome is of the kind this run waits for.
    pub fn expects(&self, event: &Event) -> (res: bool)
        ensures
            res == fits(self.step, event@),
    {
        match self.step {
            Step::Probing => matches!(event, Event::Probed(_)),
            Step::RunningDual | Step::RunningSingle => matches!(event, Event::Transcoded(_)),
            Step::ReadingMaster => matches!(event, Event::Read(_)),
            Step::LoadingVideo => matches!(event, Event::Loaded(_)),
            Step::CheckingPublic => matches!(event, Event::Exists(_)),
            Step::CleaningUp => true,
            _ => matches!(event, Event::Done(_)),
        }
    }

    /// Whether the processing is over.
    pub fn is_over(&self) -> (res: bool)
        ensures
            res == is_terminal(self.step),
    {
        match self.step {
            Step::Finished | Step::Failed => true,
            _ => false,
        }
    }

    /// The next step and the effect to perform, given the outcome of the
    /// last effect.
    pub fn advance(self, event: Event) -> (res: (JobRun, Effect))
        requires
            well_formed(self@),
            !is_terminal(self.step),
            fits(self.step, event@),
        ensures
            well_formed(res.0@),
            (res.0@, res.1@) == next(self@, event@),
    {
        let run = self;
        match run.step {
            Step::MarkingStarted => match event {
                Event::Done(Ok(())) => {
                    let e = Effect::SetStage { video_id: to_owned(run.video_id.as_str()), stage: ProcessingStage::Probing };
                    (JobRun { step: Step::SettingProbing, ..run }, e)
                },
                Event::Done(Err(m)) => fail_with(run, concat("DB error: ", m.as_str())),
                _ => (run, Effect::Finished),
            },
            Step::SettingProbing => match event {
                Event::Done(Ok(())) => {
                    let e = Effect::RunFfprobe { args: ffprobe_args(run.source_path.as_str()) };
                    (JobRun { step: Step::Probing, ..run }, e)
                },
                Event::Done(Err(m)) => fail_with(run, concat("DB error: ", m.as_str())),
                _ => (run, Effect::Finished),
            },
            Step::Probing => match event {
                Event::Probed(Ok(p)) => {
                    let plan = plan_renditions(&p);
                    let e = Effect::SetStage { video_id: to_owned(run.video_id.as_str()), stage: ProcessingStage::Transcoding };
                    (JobRun { step: Step::SettingTranscoding, plan: Some(plan), ..run }, e)
                },
                Event::Probed(Err(m)) => fail_with(run, m),
                _ => (run, Effect::Finished),
            },
            Step::SettingTranscoding => match event {
                Event::Done(Ok(())) => {
                    let e = Effect::CreateDir { path: to_owned(run.tmp_dir.as_str()) };
                    (JobRun { step: Step::CreatingTmp, ..run }, e)
                },
                Event::Done(Err(m)) => fail_with(run, concat("DB error: ", m.as_str())),
                _ => (run, Effect::Finished),
            },
            Step::CreatingTmp => match event {
                Event::Done(Ok(())) => match run.plan {
                    Some(TranscodePlan::Single { height, .. }) => {
                        let name = rendition_name(height);
                        let e = Effect::CreateDir { path: path_in(run.tmp_dir.as_str(), name.as_str()) };
                        (JobRun { step: Step::CreatingRendition, ..run }, e)
                    },
                    _ => {
                        let e = Effect::CreateDir { path: path_in(run.tmp_dir.as_str(), "0") };
                        (JobRun { step: Step::CreatingVariant0, ..run }, e)
                    },
                },
                Event::Done(Err(m)) => fail_with(run, concat("Failed to create tmp dir: ", m.as_str())),
                _ => (run, Effect::Finished),
            },
            Step::CreatingVariant0 => match event {
                Event::Done(Ok(())) => {
                    let e = Effect::CreateDir { path: path_in(run.tmp_dir.as_str(), "1") };
                    (JobRun { step: Step::CreatingVariant1, ..run }, e)
                },
                Event::Done(Err(m)) => fail_with(run, concat("Failed to create variant dir 0: ", m.as_str())),
                _ => (run, Effect::Finished),
            },
            Step::CreatingVariant1 => match event {
                Event::Done(Ok(())) => {
                    let has_audio = match run.plan {
                        Some(TranscodePlan::Dual { has_audio }) => has_audio,
                        _ => false,
                    };
                    let e = Effect::RunFfmpeg {
                        args: dual_rendition_args(run.source_path.as_str(), run.tmp_dir.as_str(), has_audio),
                    };
                    (JobRun { step: Step::RunningDual, ..run }, e)
                },
                Event::Done(Err(m)) => fail_with(run, concat("Failed to create variant dir 1: ", m.as_str())),
                _ => (run, Effect::Finished),
            },
            Step::RunningDual => match event {
                Event::Transcoded(Ok(())) => {
                    let e = Effect::Rename {
                        from: path_in(run.tmp_dir.as_str(), "0"),
                        to: path_in(run.tmp_dir.as_str(), "720p"),
                    };
                    (JobRun { step: Step::RenamingVariant0, ..run }, e)
                },
                Event::Transcoded(Err(m)) => fail_with(run, m),
                _ => (run, Effect::Finished),
            },
            Step::RenamingVariant0 => match event {
                Event::Done(Ok(())) => {
                    let e = Effect::Rename {
                        from: path_in(run.tmp_dir.as_str(), "1"),
                        to: path_in(run.tmp_dir.as_str(), "360p"),
                    };
                    (JobRun { step: Step::RenamingVariant1, ..run }, e)
                },
                Event::Done(Err(m)) => fail_with(run, concat("Failed to rename variant 0 -> 720p: ", m.as_str())),
                _ => (run, Effect::Finished),
            },
            Step::RenamingVariant1 => match event {
                Event::Done(Ok(())) => {
                    let e = Effect::ReadFile { path: path_in(run.tmp_dir.as_str(), "master.m3u8") };
                    (JobRun { step: Step::ReadingMaster, ..run }, e)
                },
                Event::Done(Err(m)) => fail_with(run, concat("Failed to rename variant 1 -> 360p: ", m.as_str())),
                _ => (run, Effect::Finished),
            },
            Step::ReadingMaster => match event {
                Event::Read(Ok(c)) => {
                    let e = Effect::WriteFile {
                        path: path_in(run.tmp_dir.as_str(), "master.m3u8"),
                        content: rename_master_variants(c.as_str()),
                    };
                    (JobRun { step: Step::WritingMaster, ..run }, e)
                },
                Event::Read(Err(m)) => fail_with(run, concat("Failed to read master playlist: ", m.as_str())),
                _ => (run, Effect::Finished),
            },
            Step::WritingMaster => match event {
                Event::Done(Ok(())) => {
                    let e = Effect::SetStage { video_id: to_owned(run.video_id.as_str()), stage: ProcessingStage::Publishing };
                    (JobRun { step: Step::SettingPublishing, ..run }, e)
                },
                Event::Done(Err(m)) => fail_with(run, concat("Failed to rewrite master playlist: ", m.as_str())),
                _ => (run, Effect::Finished),
            },
            Step::CreatingRendition => match event {
                Event::Done(Ok(())) => match run.plan {
                    Some(TranscodePlan::Single { height, has_audio }) => {
                        let name = rendition_name(height);
                        let dir = path_in(run.tmp_dir.as_str(), name.as_str());
                        let e = Effect::RunFfmpeg {
                            args: single_rendition_args(run.source_path.as_str(), dir.as_str(), height, has_audio),
                        };
                        (JobRun { step: Step::RunningSingle, ..run }, e)
                    },
                    _ => (run, Effect::Finished),
                },
                Event::Done(Err(m)) => fail_with(run, m),
                _ => (run, Effect::Finished),
            },
            Step::RunningSingle => match event {
                Event::Transcoded(Ok(())) => match run.plan {
                    Some(TranscodePlan::Single { height, .. }) => {
                        let names = vec![rendition_name(height)];
                        let content = master_playlist(names.as_slice());
                        proof {
                            assert(views(names@) =~= seq![rendition_name_of(height)]);
                        }
                        let e = Effect::WriteFile { path: path_in(run.tmp_dir.as_str(), "master.m3u8"), content };
                        (JobRun { step: Step::WritingSingleMaster, ..run }, e)
                    },
                    _ => (run, Effect::Finished),
                },
                Event::Transcoded(Err(m)) => fail_with(run, m),
                _ => (run, Effect::Finished),
            },
            Step::WritingSingleMaster => match event {
                Event::Done(Ok(())) => {
                    let e = Effect::SetStage { video_id: to_owned(run.video_id.as_str()), stage: ProcessingStage::Publishing };
                    (JobRun { step: Step::SettingPublishing, ..run }, e)
                },
                Event::Done(Err(m)) => fail_with(run, concat("Failed to write master playlist: ", m.as_str())),
                _ => (run, Effect::Finished),
            },
            Step::SettingPublishing => match event {
                Event::Done(Ok(())) => {
                    let e = Effect::LoadVideo { video_id: to_owned(run.video_id.as_str()) };
                    (JobRun { step: Step::LoadingVideo, ..run }, e)
                },
                Event::Done(Err(m)) => fail_with(run, concat("DB error: ", m.as_str())),
                _ => (run, Effect::Finished),
            },
            Step::LoadingVideo => match event {
                Event::Loaded(Ok(Some(token))) => {
                    let dir = public_dir(token.as_str());
                    let e = Effect::CheckExists { path: to_owned(dir.as_str()) };
                    (JobRun { step: Step::CheckingPublic, public_dir: Some(dir), ..run }, e)
                },
                Event::Loaded(Ok(None)) => fail_with(run, to_owned("Video not found during publish")),
                Event::Loaded(Err(m)) => fail_with(run, concat("DB error: ", m.as_str())),
                _ => (run, Effect::Finished),
            },
            Step::CheckingPublic => {
                let public = match &run.public_dir {
                    Some(p) => to_owned(p.as_str()),
                    None => to_owned(""),
                };
                match event {
                    Event::Exists(true) => (JobRun { step: Step::RemovingPublic, ..run }, Effect::RemoveDir { path: public }),
                    Event::Exists(false) => {
                        let e = Effect::Rename { from: to_owned(run.tmp_dir.as_str()), to: public };
                        (JobRun { step: Step::Publishing, ..run }, e)
                    },
                    _ => (run, Effect::Finished),
                }
            },
            Step::RemovingPublic => match event {
                Event::Done(Ok(())) => {
                    let public = match &run.public_dir {
                        Some(p) => to_owned(p.as_str()),
                        None => to_owned(""),
                    };
                    let e = Effect::Rename { from: to_owned(run.tmp_dir.as_str()), to: public };
                    (JobRun { step: Step::Publishing, ..run }, e)
                },
                Event::Done(Err(m)) => fail_with(run, concat("Failed to clean old public dir: ", m.as_str())),
                _ => (run, Effect::Finished),
            },
            Step::Publishing => match event {
                Event::Done(Ok(())) => {
                    let e = Effect::MarkPlayable { video_id: to_owned(run.video_id.as_str()) };
                    (JobRun { step: Step::MarkingPlayable, ..run }, e)
                },
                Event::Done(Err(m)) => fail_with(run, concat("Failed to publish: ", m.as_str())),
                _ => (run, Effect::Finished),
            },
            Step::MarkingPlayable => match event {
                Event::Done(Ok(())) => {
                    let e = Effect::MarkJobDone { job_id: to_owned(run.job_id.as_str()) };
                    (JobRun { step: Step::MarkingDone, ..run }, e)
                },
                Event::Done(Err(m)) => fail_with(run, concat("DB error: ", m.as_str())),
                _ => (run, Effect::Finished),
            },
            Step::MarkingDone => match event {
                Event::Done(Ok(())) => {
                    let e = Effect::CleanUpSource { path: source_dir(run.video_id.as_str()) };
                    (JobRun { step: Step::CleaningUp, ..run }, e)
                },
                Event::Done(Err(m)) => fail_with(run, concat("DB error: ", m.as_str())),
                _ => (run, Effect::Finished),
            },
            Step::CleaningUp => (JobRun { step: Step::Finished, ..run }, Effect::Finished),
            Step::Finished => (run, Effect::Finished),
            Step::Failed => (run, Effect::Finished),
        }
    }
}

} // verus!
