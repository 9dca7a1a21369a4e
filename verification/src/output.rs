//! Output jobs: a prepared recording and streaming run and what blocks it.

use vstd::prelude::*;
use crate::capture::opt_view;
use crate::order::{non_blank_set, sort_and_dedup, strictly_sorted};
use crate::pipeline::{copy_msgs, MediaPipelinePlan, MediaPipelineValidation, OutputPreflightPlan, PipelineIntent,
    RecordingTargetContract, StreamingTargetContract};
use crate::text::{cat2, decimal, extend_msgs, push_msg, quoted, u64_to_decimal, views};

verus! {

#[derive(Clone, Copy, Debug, PartialEq, Eq, Structural)]
pub enum OutputJobState {
    Idle,
    Preparing,
    Ready,
    Blocked,
    Cancelled,
}

#[derive(Clone, Debug)]
pub struct OutputJobPrepareRequest {
    pub recording_profile_id: Option<String>,
    pub stream_destination_ids: Option<Vec<String>>,
}

#[derive(Clone, Copy, Debug, PartialEq, Eq, Structural)]
pub enum DesignerRuntimeReadinessState {
    Ready,
    Warning,
    Blocked,
}

/// Whether the active scene's output is ready to be rendered.
#[derive(Clone, Debug)]
pub struct SceneOutputReadyDiagnostic {
    pub version: u32,
    pub ready: bool,
    pub state: DesignerRuntimeReadinessState,
    pub active_scene_id: String,
    pub active_scene_name: String,
    pub program_preview_frame_ready: bool,
    pub compositor_render_plan_ready: bool,
    pub output_preflight_ready: bool,
    pub media_pipeline_ready: bool,
    pub detail: String,
    pub blockers: Vec<String>,
    pub warnings: Vec<String>,
}

/// An output job. Timestamps are milliseconds since the Unix epoch (UTC).
#[derive(Clone, Debug)]
pub struct OutputJob {
    pub version: u32,
    pub id: String,
    pub state: OutputJobState,
    pub detail: String,
    pub prepared_at: i64,
    pub updated_at: i64,
    pub request: OutputJobPrepareRequest,
    pub intent: PipelineIntent,
    pub active_scene_id: Option<String>,
    pub active_scene_name: Option<String>,
    pub recording_profile_id: Option<String>,
    pub recording_profile_name: Option<String>,
    pub stream_destination_ids: Vec<String>,
    pub stream_destination_names: Vec<String>,
    pub output_path_preview: Option<String>,
    pub scene_output_ready: bool,
    pub media_pipeline_ready: bool,
    pub output_preflight_ready: bool,
    pub recording_target_ready: bool,
    pub stream_targets_ready: bool,
    pub blockers: Vec<String>,
    pub warnings: Vec<String>,
    pub pipeline_validation: MediaPipelineValidation,
    pub output_preflight_plan: Option<OutputPreflightPlan>,
}

#[derive(Clone, Debug)]
pub struct OutputJobSummary {
    pub id: String,
    pub state: OutputJobState,
    pub detail: String,
    pub active_scene_id: Option<String>,
    pub active_scene_name: Option<String>,
    pub recording_profile_id: Option<String>,
    pub recording_profile_name: Option<String>,
    pub output_path_preview: Option<String>,
    pub stream_destination_count: usize,
    pub blockers: Vec<String>,
    pub warnings: Vec<String>,
    pub updated_at: i64,
}

/// The given messages, or the single fallback message when there are none.
pub open spec fn all_or(source: Seq<Seq<char>>, message: Seq<char>) -> Seq<Seq<char>> {
    if source.len() == 0 {
        seq![message]
    } else {
        source
    }
}

pub fn push_all_or_message(target: &mut Vec<String>, source: &Vec<String>, message: &str)
    ensures
        views(final(target)@) == views(old(target)@) + all_or(views(source@), message@),
{
    if source.len() == 0 {
        push_msg(target, String::from_str(message));
    } else {
        extend_msgs(target, source);
    }
}

pub open spec fn recording_target_of(opp: Option<OutputPreflightPlan>) -> Option<RecordingTargetContract> {
    match opp {
        Some(p) => p.recording_target,
        None => None,
    }
}

pub open spec fn stream_targets_of(opp: Option<OutputPreflightPlan>) -> Seq<StreamingTargetContract> {
    match opp {
        Some(p) => p.streaming_targets@,
        None => seq![],
    }
}

pub open spec fn stream_blockers(ss: Seq<StreamingTargetContract>, k: int) -> Seq<Seq<char>>
    decreases k,
{
    if k <= 0 {
        seq![]
    } else {
        let t = ss[k - 1];
        stream_blockers(ss, k - 1) + if t.ready {
            Seq::<Seq<char>>::empty()
        } else {
            all_or(views(t.errors@), "Stream target "@ + t.destination_name@ + " is not ready."@)
        }
    }
}

pub open spec fn stream_warnings(ss: Seq<StreamingTargetContract>, k: int) -> Seq<Seq<char>>
    decreases k,
{
    if k <= 0 {
        seq![]
    } else {
        stream_warnings(ss, k - 1) + views(ss[k - 1].warnings@)
    }
}

pub open spec fn all_stream_ready(ss: Seq<StreamingTargetContract>) -> bool {
    forall|i: int| 0 <= i < ss.len() ==> (#[trigger] ss[i]).ready
}

/// The blockers of a job, before blank ones are dropped and the rest sorted.
pub open spec fn raw_blockers(pipeline: MediaPipelinePlan, scene: SceneOutputReadyDiagnostic) -> Seq<Seq<char>> {
    let opp = pipeline.config.output_preflight_plan;
    let ss = stream_targets_of(opp);
    (if !scene.ready {
        all_or(views(scene.blockers@), "Scene output readiness is blocked."@)
    } else {
        seq![]
    }) + (if !pipeline.ready {
        all_or(views(pipeline.errors@), "Media pipeline validation is blocked."@)
    } else {
        seq![]
    }) + (match opp {
        Some(p) => if !p.validation.ready {
            all_or(views(p.validation.errors@), "Output preflight validation is blocked."@)
        } else {
            seq![]
        },
        None => seq!["Output preflight plan is unavailable."@],
    }) + (match recording_target_of(opp) {
        Some(t) => if !t.ready {
            all_or(views(t.errors@), "Recording target is not ready."@)
        } else {
            seq![]
        },
        None => seq!["Recording target is missing."@],
    }) + stream_blockers(ss, ss.len() as int)
}

/// The warnings of a job, before blank ones are dropped and the rest sorted.
pub open spec fn raw_warnings(pipeline: MediaPipelinePlan, scene: SceneOutputReadyDiagnostic) -> Seq<Seq<char>> {
    let opp = pipeline.config.output_preflight_plan;
    views(scene.warnings@) + views(pipeline.warnings@) + match opp {
        Some(p) => views(p.validation.warnings@) + (match p.recording_target {
            Some(t) => views(t.warnings@),
            None => seq![],
        }) + stream_warnings(p.streaming_targets@, p.streaming_targets@.len() as int),
        None => seq![],
    }
}

/// Everything that a prepared job needs is ready.
pub open spec fn job_ready(pipeline: MediaPipelinePlan, scene: SceneOutputReadyDiagnostic, blockers: Seq<Seq<char>>) -> bool {
    let opp = pipeline.config.output_preflight_plan;
    &&& scene.ready
    &&& pipeline.ready
    &&& (opp matches Some(p) && p.validation.ready)
    &&& (recording_target_of(opp) matches Some(t) && t.ready)
    &&& all_stream_ready(stream_targets_of(opp))
    &&& blockers.len() == 0
}

} // verus!

verus! {

pub open spec fn destination_ids(ds: Seq<crate::profiles::StreamDestination>) -> Seq<Seq<char>> {
    ds.map_values(|d: crate::profiles::StreamDestination| d.id@)
}

pub open spec fn destination_names(ds: Seq<crate::profiles::StreamDestination>) -> Seq<Seq<char>> {
    ds.map_values(|d: crate::profiles::StreamDestination| d.name@)
}

/// The state and detail of a prepared job.
pub open spec fn prepared_detail(ready: bool, blockers: nat) -> Seq<char> {
    if ready {
        "Dry-run output job is prepared and ready."@
    } else {
        decimal(blockers) + " output job blocker(s) must be resolved."@
    }
}

fn stream_section(ss: &Vec<StreamingTargetContract>, blockers: &mut Vec<String>, warnings: &mut Vec<String>) -> (all_ready: bool)
    ensures
        all_ready == all_stream_ready(ss@),
        views(final(blockers)@) == views(old(blockers)@) + stream_blockers(ss@, ss@.len() as int),
        views(final(warnings)@) == views(old(warnings)@),
{
    let ghost b0 = views(blockers@);
    let mut all_ready = true;
    let mut i: usize = 0;
    while i < ss.len()
        invariant
            i <= ss@.len(),
            views(blockers@) == b0 + stream_blockers(ss@, i as int),
            views(warnings@) == views(old(warnings)@),
            all_ready == (forall|j: int| 0 <= j < i ==> (#[trigger] ss@[j]).ready),
        decreases ss@.len() - i,
    {
        let t = &ss[i];
        if !t.ready {
            let m = quoted("Stream target ", t.destination_name.as_str(), " is not ready.");
            push_all_or_message(blockers, &t.errors, m.as_str());
            all_ready = false;
        }
        i = i + 1;
        assert(views(blockers@) =~= b0 + stream_blockers(ss@, i as int));
    }
    all_ready
}

fn stream_warning_section(ss: &Vec<StreamingTargetContract>, warnings: &mut Vec<String>)
    ensures
        views(final(warnings)@) == views(old(warnings)@) + stream_warnings(ss@, ss@.len() as int),
{
    let ghost w0 = views(warnings@);
    let mut i: usize = 0;
    while i < ss.len()
        invariant
            i <= ss@.len(),
            views(warnings@) == w0 + stream_warnings(ss@, i as int),
        decreases ss@.len() - i,
    {
        extend_msgs(warnings, &ss[i].warnings);
        i = i + 1;
        assert(views(warnings@) =~= w0 + stream_warnings(ss@, i as int));
    }
}

fn collect_blockers(pipeline: &MediaPipelinePlan, scene: &SceneOutputReadyDiagnostic) -> (r: (Vec<String>, bool))
    ensures
        views(r.0@) == raw_blockers(*pipeline, *scene),
        r.1 == all_stream_ready(stream_targets_of(pipeline.config.output_preflight_plan)),
{
    let mut blockers: Vec<String> = Vec::new();
    let mut scratch: Vec<String> = Vec::new();
    assert(views(blockers@) =~= Seq::<Seq<char>>::empty());
    if !scene.ready {
        push_all_or_message(&mut blockers, &scene.blockers, "Scene output readiness is blocked.");
    }
    let ghost s1 = views(blockers@);
    if !pipeline.ready {
        push_all_or_message(&mut blockers, &pipeline.errors, "Media pipeline validation is blocked.");
    }
    let ghost s2 = views(blockers@);
    match &pipeline.config.output_preflight_plan {
        Some(plan) => {
            if !plan.validation.ready {
                push_all_or_message(&mut blockers, &plan.validation.errors, "Output preflight validation is blocked.");
            }
        },
        None => push_msg(&mut blockers, String::from_str("Output preflight plan is unavailable.")),
    }
    let ghost s3 = views(blockers@);
    let recording_target = match &pipeline.config.output_preflight_plan {
        Some(plan) => match &plan.recording_target {
            Some(t) => Some(t),
            None => None,
        },
        None => None,
    };
    match recording_target {
        Some(t) => {
            if !t.ready {
                push_all_or_message(&mut blockers, &t.errors, "Recording target is not ready.");
            }
        },
        None => push_msg(&mut blockers, String::from_str("Recording target is missing.")),
    }
    let ghost s4 = views(blockers@);
    let all_ready = match &pipeline.config.output_preflight_plan {
        Some(plan) => stream_section(&plan.streaming_targets, &mut blockers, &mut scratch),
        None => {
            assert(views(blockers@) =~= views(blockers@) + stream_blockers(Seq::<StreamingTargetContract>::empty(), 0));
            true
        },
    };
    assert(views(blockers@) =~= raw_blockers(*pipeline, *scene));
    (blockers, all_ready)
}

fn collect_warnings(pipeline: &MediaPipelinePlan, scene: &SceneOutputReadyDiagnostic) -> (r: Vec<String>)
    ensures
        views(r@) == raw_warnings(*pipeline, *scene),
{
    let mut warnings: Vec<String> = Vec::new();
    assert(views(warnings@) =~= Seq::<Seq<char>>::empty());
    extend_msgs(&mut warnings, &scene.warnings);
    extend_msgs(&mut warnings, &pipeline.warnings);
    let ghost w2 = views(warnings@);
    match &pipeline.config.output_preflight_plan {
        Some(plan) => {
            extend_msgs(&mut warnings, &plan.validation.warnings);
            match &plan.recording_target {
                Some(t) => extend_msgs(&mut warnings, &t.warnings),
                None => {},
            }
            stream_warning_section(&plan.streaming_targets, &mut warnings);
        },
        None => {},
    }
    assert(views(warnings@) =~= raw_warnings(*pipeline, *scene));
    warnings
}

impl OutputJob {
    /// The job that the pipeline and the scene's output readiness give: its blockers
    /// and warnings are the non-blank messages of every part that is not ready, sorted,
    /// each once; it is ready exactly when every part is ready and nothing blocks it.
    pub fn prepared(
        id: String,
        request: OutputJobPrepareRequest,
        pipeline: &MediaPipelinePlan,
        scene_output_ready: &SceneOutputReadyDiagnostic,
        now: i64,
    ) -> (r: OutputJob)
        ensures
            r.version == 1,
            r.id@ == id@,
            r.request == request,
            opt_view(r.request.recording_profile_id) == opt_view(request.recording_profile_id),
            match (r.request.stream_destination_ids, request.stream_destination_ids) {
                (Some(a), Some(b)) => views(a@) == views(b@),
                (None, None) => true,
                _ => false,
            },
            r.prepared_at == now && r.updated_at == now,
            r.intent == pipeline.config.intent,
            opt_view(r.active_scene_id) == (match pipeline.config.active_scene { Some(s) => Some(s.id@), None => None }),
            opt_view(r.active_scene_name) == (match pipeline.config.active_scene { Some(s) => Some(s.name@), None => None }),
            opt_view(r.recording_profile_id) == (match pipeline.config.recording_profile { Some(p) => Some(p.id@), None => None }),
            opt_view(r.recording_profile_name) == (match pipeline.config.recording_profile { Some(p) => Some(p.name@), None => None }),
            views(r.stream_destination_ids@) == destination_ids(pipeline.config.stream_destinations@),
            views(r.stream_destination_names@) == destination_names(pipeline.config.stream_destinations@),
            opt_view(r.output_path_preview) == (match recording_target_of(pipeline.config.output_preflight_plan) {
                Some(t) => Some(t.output_path_preview@),
                None => None,
            }),
            r.scene_output_ready == scene_output_ready.ready,
            r.media_pipeline_ready == pipeline.ready,
            r.output_preflight_ready == (pipeline.config.output_preflight_plan matches Some(p) && p.validation.ready),
            r.recording_target_ready == (recording_target_of(pipeline.config.output_preflight_plan) matches Some(t) && t.ready),
            r.stream_targets_ready == all_stream_ready(stream_targets_of(pipeline.config.output_preflight_plan)),
            strictly_sorted(views(r.blockers@)),
            views(r.blockers@).to_set() == non_blank_set(raw_blockers(*pipeline, *scene_output_ready)),
            strictly_sorted(views(r.warnings@)),
            views(r.warnings@).to_set() == non_blank_set(raw_warnings(*pipeline, *scene_output_ready)),
            r.pipeline_validation.ready == pipeline.ready,
            views(r.pipeline_validation.warnings@) == views(pipeline.warnings@),
            views(r.pipeline_validation.errors@) == views(pipeline.errors@),
            match (r.output_preflight_plan, pipeline.config.output_preflight_plan) {
                (Some(a), Some(b)) => crate::pipeline::preflight_copy(a, b),
                (None, None) => true,
                _ => false,
            },
            r.state == (if job_ready(*pipeline, *scene_output_ready, views(r.blockers@)) {
                OutputJobState::Ready
            } else {
                OutputJobState::Blocked
            }),
            r.detail@ == prepared_detail(job_ready(*pipeline, *scene_output_ready, views(r.blockers@)), r.blockers@.len()),
    {
        let pipeline_validation = pipeline.validation();
        let output_preflight_plan = match &pipeline.config.output_preflight_plan {
            Some(p) => Some(p.copy()),
            None => None,
        };
        let output_preflight_ready = match &pipeline.config.output_preflight_plan {
            Some(p) => p.validation.ready,
            None => false,
        };
        let recording_target = match &pipeline.config.output_preflight_plan {
            Some(plan) => match &plan.recording_target {
                Some(t) => Some(t),
                None => None,
            },
            None => None,
        };
        let recording_target_ready = match recording_target {
            Some(t) => t.ready,
            None => false,
        };
        let (mut blockers, stream_targets_ready) = collect_blockers(pipeline, scene_output_ready);
        let mut warnings = collect_warnings(pipeline, scene_output_ready);
        sort_and_dedup(&mut blockers);
        sort_and_dedup(&mut warnings);
        let ready = scene_output_ready.ready && pipeline_validation.ready && output_preflight_ready
            && recording_target_ready && stream_targets_ready && blockers.len() == 0;
        let state = if ready { OutputJobState::Ready } else { OutputJobState::Blocked };
        let detail = if ready {
            String::from_str("Dry-run output job is prepared and ready.")
        } else {
            let n = u64_to_decimal(blockers.len() as u64);
            cat2(n.as_str(), " output job blocker(s) must be resolved.")
        };
        let mut ids: Vec<String> = Vec::new();
        let mut names: Vec<String> = Vec::new();
        let ds = &pipeline.config.stream_destinations;
        let mut i: usize = 0;
        while i < ds.len()
            invariant
                i <= ds@.len(),
                views(ids@) == destination_ids(ds@.subrange(0, i as int)),
                views(names@) == destination_names(ds@.subrange(0, i as int)),
            decreases ds@.len() - i,
        {
            push_msg(&mut ids, ds[i].id.clone());
            push_msg(&mut names, ds[i].name.clone());
            assert(destination_ids(ds@.subrange(0, i + 1 as int)) =~= destination_ids(ds@.subrange(0, i as int)).push(ds@[i as int].id@));
            assert(destination_names(ds@.subrange(0, i + 1 as int)) =~= destination_names(ds@.subrange(0, i as int)).push(ds@[i as int].name@));
            i = i + 1;
            assert(views(ids@) =~= destination_ids(ds@.subrange(0, i as int)));
            assert(views(names@) =~= destination_names(ds@.subrange(0, i as int)));
        }
        assert(ds@.subrange(0, ds@.len() as int) =~= ds@);
        OutputJob {
            version: 1,
            id,
            state,
            detail,
            prepared_at: now,
            updated_at: now,
            request,
            intent: pipeline.config.intent,
            active_scene_id: match &pipeline.config.active_scene { Some(s) => Some(s.id.clone()), None => None },
            active_scene_name: match &pipeline.config.active_scene { Some(s) => Some(s.name.clone()), None => None },
            recording_profile_id: match &pipeline.config.recording_profile { Some(p) => Some(p.id.clone()), None => None },
            recording_profile_name: match &pipeline.config.recording_profile { Some(p) => Some(p.name.clone()), None => None },
            stream_destination_ids: ids,
            stream_destination_names: names,
            output_path_preview: match recording_target { Some(t) => Some(t.output_path_preview.clone()), None => None },
            scene_output_ready: scene_output_ready.ready,
            media_pipeline_ready: pipeline_validation.ready,
            output_preflight_ready,
            recording_target_ready,
            stream_targets_ready,
            blockers,
            warnings,
            pipeline_validation,
            output_preflight_plan,
        }
    }
}

} // verus!

verus! {

impl OutputJob {
    /// The job before anything has been prepared.
    pub fn idle(now: i64) -> (r: OutputJob)
        ensures
            r.version == 1,
            r.id@ == "output-job-idle"@,
            r.state == OutputJobState::Idle,
            r.detail@ == "No output job has been prepared."@,
            r.prepared_at == now && r.updated_at == now,
            r.request.recording_profile_id is None && r.request.stream_destination_ids is None,
            r.intent == PipelineIntent::Recording,
            r.active_scene_id is None && r.active_scene_name is None,
            r.recording_profile_id is None && r.recording_profile_name is None,
            r.stream_destination_ids@.len() == 0 && r.stream_destination_names@.len() == 0,
            r.output_path_preview is None,
            !r.scene_output_ready && !r.media_pipeline_ready && !r.output_preflight_ready,
            !r.recording_target_ready && r.stream_targets_ready,
            r.blockers@.len() == 0 && r.warnings@.len() == 0,
            !r.pipeline_validation.ready,
            r.pipeline_validation.warnings@.len() == 0 && r.pipeline_validation.errors@.len() == 0,
            r.output_preflight_plan is None,
    {
        OutputJob {
            version: 1,
            id: String::from_str("output-job-idle"),
            state: OutputJobState::Idle,
            detail: String::from_str("No output job has been prepared."),
            prepared_at: now,
            updated_at: now,
            request: OutputJobPrepareRequest { recording_profile_id: None, stream_destination_ids: None },
            intent: PipelineIntent::Recording,
            active_scene_id: None,
            active_scene_name: None,
            recording_profile_id: None,
            recording_profile_name: None,
            stream_destination_ids: Vec::new(),
            stream_destination_names: Vec::new(),
            output_path_preview: None,
            scene_output_ready: false,
            media_pipeline_ready: false,
            output_preflight_ready: false,
            recording_target_ready: false,
            stream_targets_ready: true,
            blockers: Vec::new(),
            warnings: Vec::new(),
            pipeline_validation: MediaPipelineValidation { ready: false, warnings: Vec::new(), errors: Vec::new() },
            output_preflight_plan: None,
        }
    }

    /// The job, cancelled: only its state, detail and update time change.
    pub fn cancelled(self, now: i64) -> (r: OutputJob)
        ensures
            r == (OutputJob { state: OutputJobState::Cancelled, detail: r.detail, updated_at: now, ..self }),
            r.detail@ == "Prepared output job was cancelled."@,
    {
        let mut job = self;
        job.state = OutputJobState::Cancelled;
        job.detail = String::from_str("Prepared output job was cancelled.");
        job.updated_at = now;
        job
    }

    /// The job's summary: its identity, state and messages, with the number of stream
    /// destinations.
    pub fn summary(&self) -> (r: OutputJobSummary)
        ensures
            r.id == self.id,
            r.state == self.state,
            r.detail == self.detail,
            r.active_scene_id == self.active_scene_id,
            r.active_scene_name == self.active_scene_name,
            r.recording_profile_id == self.recording_profile_id,
            r.recording_profile_name == self.recording_profile_name,
            r.output_path_preview == self.output_path_preview,
            r.stream_destination_count == self.stream_destination_ids@.len(),
            r.blockers@ == self.blockers@,
            r.warnings@ == self.warnings@,
            r.updated_at == self.updated_at,
    {
        OutputJobSummary {
            id: self.id.clone(),
            state: self.state,
            detail: self.detail.clone(),
            active_scene_id: crate::text::copy_opt(&self.active_scene_id),
            active_scene_name: crate::text::copy_opt(&self.active_scene_name),
            recording_profile_id: crate::text::copy_opt(&self.recording_profile_id),
            recording_profile_name: crate::text::copy_opt(&self.recording_profile_name),
            output_path_preview: crate::text::copy_opt(&self.output_path_preview),
            stream_destination_count: self.stream_destination_ids.len(),
            blockers: crate::text::copy_vec(&self.blockers),
            warnings: crate::text::copy_vec(&self.warnings),
            updated_at: self.updated_at,
        }
    }
}

} // verus!
