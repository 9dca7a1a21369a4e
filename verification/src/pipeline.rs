//! The output preflight of a media pipeline: render target profiles, the recording and
//! streaming target contracts, and their validation.

use vstd::prelude::*;
use crate::compositor::{compositor_render_target, CompositorFrameFormat, CompositorRenderPlan, CompositorRenderTarget,
    CompositorRenderTargetKind, CompositorScaleMode};
use crate::profiles::{EncoderPreference, MediaProfile, PlatformKind, RecordingContainer, Resolution,
    StreamDestination};
use crate::text::{blank, cat2, contains_char, extend_msgs, if_msg, is_blank, push_if, push_msg, quoted,
    replace_all, replace_str, slug, slug_spec, views};

verus! {

#[derive(Clone, Copy, Debug, PartialEq, Eq, Structural)]
pub enum PipelineIntent {
    Recording,
    Stream,
    RecordingAndStream,
}

pub open spec fn needs_recording(i: PipelineIntent) -> bool {
    i == PipelineIntent::Recording || i == PipelineIntent::RecordingAndStream
}

pub open spec fn needs_stream(i: PipelineIntent) -> bool {
    i == PipelineIntent::Stream || i == PipelineIntent::RecordingAndStream
}

#[derive(Clone, Debug)]
pub struct RenderTargetProfile {
    pub id: String,
    pub name: String,
    pub kind: CompositorRenderTargetKind,
    pub width: u32,
    pub height: u32,
    pub framerate: u32,
    pub frame_format: CompositorFrameFormat,
    pub scale_mode: CompositorScaleMode,
    pub enabled: bool,
    pub encoder_preference: EncoderPreference,
    pub bitrate_kbps: Option<u32>,
}

#[derive(Clone, Debug)]
pub struct RecordingTargetContract {
    pub id: String,
    pub profile_id: String,
    pub profile_name: String,
    pub render_target_id: String,
    pub output_folder: String,
    pub filename_pattern: String,
    pub container: RecordingContainer,
    pub resolution: Resolution,
    pub framerate: u32,
    pub bitrate_kbps: u32,
    pub encoder_preference: EncoderPreference,
    pub output_path_preview: String,
    pub ready: bool,
    pub warnings: Vec<String>,
    pub errors: Vec<String>,
}

#[derive(Clone, Debug)]
pub struct StreamingTargetContract {
    pub id: String,
    pub destination_id: String,
    pub destination_name: String,
    pub platform: PlatformKind,
    pub render_target_id: String,
    pub ingest_url: String,
    pub stream_key_required: bool,
    pub has_stream_key: bool,
    pub bandwidth_test: bool,
    pub width: u32,
    pub height: u32,
    pub framerate: u32,
    pub bitrate_kbps: u32,
    pub encoder_preference: EncoderPreference,
    pub ready: bool,
    pub warnings: Vec<String>,
    pub errors: Vec<String>,
}

#[derive(Clone, Debug)]
pub struct OutputPreflightValidation {
    pub ready: bool,
    pub warnings: Vec<String>,
    pub errors: Vec<String>,
}

#[derive(Clone, Debug)]
pub struct OutputPreflightPlan {
    pub version: u32,
    pub intent: PipelineIntent,
    pub active_scene_id: Option<String>,
    pub active_scene_name: Option<String>,
    pub render_targets: Vec<RenderTargetProfile>,
    pub recording_target: Option<RecordingTargetContract>,
    pub streaming_targets: Vec<StreamingTargetContract>,
    pub validation: OutputPreflightValidation,
}

// ---------------------------------------------------------------------------------
// Encoder preference

pub open spec fn encoder_errors(e: EncoderPreference, label: Seq<char>) -> Seq<Seq<char>> {
    match e {
        EncoderPreference::Named(n) => if_msg(blank(n@), label + " named encoder cannot be empty"@),
        _ => seq![],
    }
}

pub open spec fn encoder_warnings(e: EncoderPreference, label: Seq<char>) -> Seq<Seq<char>> {
    match e {
        EncoderPreference::Hardware => seq![label + " requests hardware encoding; validate availability on target machine"@],
        _ => seq![],
    }
}

/// An empty named encoder is an error; a hardware encoder is a warning.
pub fn validate_encoder_preference(
    encoder: &EncoderPreference,
    label: &str,
    warnings: &mut Vec<String>,
    errors: &mut Vec<String>,
)
    ensures
        views(final(warnings)@) == views(old(warnings)@) + encoder_warnings(*encoder, label@),
        views(final(errors)@) == views(old(errors)@) + encoder_errors(*encoder, label@),
{
    match encoder {
        EncoderPreference::Named(name) => {
            push_if(errors, is_blank(name.as_str()), cat2(label, " named encoder cannot be empty"));
        },
        EncoderPreference::Hardware => {
            push_msg(warnings, cat2(label, " requests hardware encoding; validate availability on target machine"));
        },
        _ => {},
    }
    assert(views(warnings@) =~= views(old(warnings)@) + encoder_warnings(*encoder, label@));
    assert(views(errors@) =~= views(old(errors)@) + encoder_errors(*encoder, label@));
}

impl EncoderPreference {
    /// A copy of the preference.
    pub fn copy(&self) -> (r: EncoderPreference)
        ensures
            r == *self,
    {
        match self {
            EncoderPreference::Auto => EncoderPreference::Auto,
            EncoderPreference::Hardware => EncoderPreference::Hardware,
            EncoderPreference::Software => EncoderPreference::Software,
            EncoderPreference::Named(n) => EncoderPreference::Named(n.clone()),
        }
    }
}

// ---------------------------------------------------------------------------------
// Plan validation

pub open spec fn profile_id_seen(ts: Seq<RenderTargetProfile>, i: int) -> bool {
    exists|j: int| 0 <= j < i && (#[trigger] ts[j]).id@ == ts[i].id@
}

pub open spec fn has_target_id(ts: Seq<RenderTargetProfile>, id: Seq<char>) -> bool {
    exists|j: int| 0 <= j < ts.len() && (#[trigger] ts[j]).id@ == id
}

pub open spec fn profile_label(id: Seq<char>) -> Seq<char> {
    "render target profile \""@ + id + "\""@
}

pub open spec fn target_profile_errors(ts: Seq<RenderTargetProfile>, i: int) -> Seq<Seq<char>> {
    let t = ts[i];
    let id = t.id@;
    if_msg(profile_id_seen(ts, i), "duplicate render target profile \""@ + id + "\""@)
        + if_msg(blank(id), "render target profile id is required"@)
        + if_msg(blank(t.name@), "render target profile \""@ + id + "\" name is required"@)
        + if_msg(t.width == 0 || t.height == 0, "render target profile \""@ + id + "\" dimensions must be greater than zero"@)
        + if_msg(t.framerate == 0, "render target profile \""@ + id + "\" framerate must be greater than zero"@)
        + encoder_errors(t.encoder_preference, profile_label(id))
}

pub open spec fn target_profile_warnings(t: RenderTargetProfile) -> Seq<Seq<char>> {
    if_msg(!t.enabled, "render target profile \""@ + t.id@ + "\" is disabled"@)
        + encoder_warnings(t.encoder_preference, profile_label(t.id@))
}

pub open spec fn all_profile_errors(ts: Seq<RenderTargetProfile>, k: int) -> Seq<Seq<char>>
    decreases k,
{
    if k <= 0 {
        seq![]
    } else {
        all_profile_errors(ts, k - 1) + target_profile_errors(ts, k - 1)
    }
}

pub open spec fn all_profile_warnings(ts: Seq<RenderTargetProfile>, k: int) -> Seq<Seq<char>>
    decreases k,
{
    if k <= 0 {
        seq![]
    } else {
        all_profile_warnings(ts, k - 1) + target_profile_warnings(ts[k - 1])
    }
}

pub open spec fn recording_section_errors(p: OutputPreflightPlan) -> Seq<Seq<char>> {
    if !needs_recording(p.intent) {
        seq![]
    } else {
        match p.recording_target {
            Some(r) => views(r.errors@) + if_msg(!has_target_id(p.render_targets@, r.render_target_id@),
                "recording target references unknown render target \""@ + r.render_target_id@ + "\""@),
            None => seq!["recording output preflight requires a recording target"@],
        }
    }
}

pub open spec fn recording_section_warnings(p: OutputPreflightPlan) -> Seq<Seq<char>> {
    if !needs_recording(p.intent) {
        seq![]
    } else {
        match p.recording_target {
            Some(r) => views(r.warnings@),
            None => seq![],
        }
    }
}

pub open spec fn streaming_target_errors(ts: Seq<RenderTargetProfile>, t: StreamingTargetContract) -> Seq<Seq<char>> {
    views(t.errors@) + if_msg(!has_target_id(ts, t.render_target_id@),
        "streaming target \""@ + t.destination_name@ + "\" references unknown render target \""@
            + t.render_target_id@ + "\""@)
}

pub open spec fn all_streaming_errors(ts: Seq<RenderTargetProfile>, ss: Seq<StreamingTargetContract>, k: int) -> Seq<Seq<char>>
    decreases k,
{
    if k <= 0 {
        seq![]
    } else {
        all_streaming_errors(ts, ss, k - 1) + streaming_target_errors(ts, ss[k - 1])
    }
}

pub open spec fn all_streaming_warnings(ss: Seq<StreamingTargetContract>, k: int) -> Seq<Seq<char>>
    decreases k,
{
    if k <= 0 {
        seq![]
    } else {
        all_streaming_warnings(ss, k - 1) + views(ss[k - 1].warnings@)
    }
}

pub open spec fn stream_section_errors(p: OutputPreflightPlan) -> Seq<Seq<char>> {
    if !needs_stream(p.intent) {
        seq![]
    } else {
        if_msg(p.streaming_targets@.len() == 0, "stream output preflight requires at least one streaming target"@)
            + all_streaming_errors(p.render_targets@, p.streaming_targets@, p.streaming_targets@.len() as int)
    }
}

pub open spec fn stream_section_warnings(p: OutputPreflightPlan) -> Seq<Seq<char>> {
    if !needs_stream(p.intent) {
        seq![]
    } else {
        all_streaming_warnings(p.streaming_targets@, p.streaming_targets@.len() as int)
    }
}

/// The errors that `validate_output_preflight_plan` reports, in order.
pub open spec fn preflight_errors(p: OutputPreflightPlan) -> Seq<Seq<char>> {
    if_msg(p.version == 0, "output preflight plan version must be greater than zero"@)
        + if_msg(p.render_targets@.len() == 0, "output preflight requires at least one render target"@)
        + all_profile_errors(p.render_targets@, p.render_targets@.len() as int)
        + recording_section_errors(p)
        + stream_section_errors(p)
}

/// The warnings that `validate_output_preflight_plan` reports, in order.
pub open spec fn preflight_warnings(p: OutputPreflightPlan) -> Seq<Seq<char>> {
    if_msg(p.active_scene_id is None, "output preflight has no active scene"@)
        + all_profile_warnings(p.render_targets@, p.render_targets@.len() as int)
        + recording_section_warnings(p)
        + stream_section_warnings(p)
}

fn profile_id_seen_exec(ts: &Vec<RenderTargetProfile>, i: usize) -> (r: bool)
    requires
        i < ts@.len(),
    ensures
        r == profile_id_seen(ts@, i as int),
{
    let mut j: usize = 0;
    while j < i
        invariant
            i < ts@.len(),
            j <= i,
            forall|k: int| 0 <= k < j ==> (#[trigger] ts@[k]).id@ != ts@[i as int].id@,
        decreases i - j,
    {
        if ts[j].id == ts[i].id {
            return true;
        }
        j = j + 1;
    }
    false
}

fn has_target_id_exec(ts: &Vec<RenderTargetProfile>, id: &String) -> (r: bool)
    ensures
        r == has_target_id(ts@, id@),
{
    let mut j: usize = 0;
    while j < ts.len()
        invariant
            j <= ts@.len(),
            forall|k: int| 0 <= k < j ==> (#[trigger] ts@[k]).id@ != id@,
        decreases ts@.len() - j,
    {
        if ts[j].id == *id {
            return true;
        }
        j = j + 1;
    }
    false
}

#[verifier::rlimit(60)]
fn target_profile_checks(ts: &Vec<RenderTargetProfile>, i: usize, warnings: &mut Vec<String>, errors: &mut Vec<String>)
    requires
        i < ts@.len(),
    ensures
        views(final(errors)@) == views(old(errors)@) + target_profile_errors(ts@, i as int),
        views(final(warnings)@) == views(old(warnings)@) + target_profile_warnings(ts@[i as int]),
{
    let t = &ts[i];
    let id = t.id.as_str();
    push_if(errors, profile_id_seen_exec(ts, i), quoted("duplicate render target profile \"", id, "\""));
    push_if(errors, is_blank(id), String::from_str("render target profile id is required"));
    push_if(errors, is_blank(t.name.as_str()), quoted("render target profile \"", id, "\" name is required"));
    push_if(errors, t.width == 0 || t.height == 0,
        quoted("render target profile \"", id, "\" dimensions must be greater than zero"));
    push_if(errors, t.framerate == 0, quoted("render target profile \"", id, "\" framerate must be greater than zero"));
    push_if(warnings, !t.enabled, quoted("render target profile \"", id, "\" is disabled"));
    let label = quoted("render target profile \"", id, "\"");
    validate_encoder_preference(&t.encoder_preference, label.as_str(), warnings, errors);
    assert(views(errors@) =~= views(old(errors)@) + target_profile_errors(ts@, i as int));
    assert(views(warnings@) =~= views(old(warnings)@) + target_profile_warnings(ts@[i as int]));
}

fn recording_section(plan: &OutputPreflightPlan, warnings: &mut Vec<String>, errors: &mut Vec<String>)
    ensures
        views(final(errors)@) == views(old(errors)@) + recording_section_errors(*plan),
        views(final(warnings)@) == views(old(warnings)@) + recording_section_warnings(*plan),
{
    let needs = match plan.intent {
        PipelineIntent::Recording | PipelineIntent::RecordingAndStream => true,
        _ => false,
    };
    if needs {
        match &plan.recording_target {
            Some(recording) => {
                extend_msgs(warnings, &recording.warnings);
                extend_msgs(errors, &recording.errors);
                let known = has_target_id_exec(&plan.render_targets, &recording.render_target_id);
                push_if(errors, !known, quoted("recording target references unknown render target \"",
                    recording.render_target_id.as_str(), "\""));
            },
            None => {
                push_msg(errors, String::from_str("recording output preflight requires a recording target"));
            },
        }
    }
    assert(views(errors@) =~= views(old(errors)@) + recording_section_errors(*plan));
    assert(views(warnings@) =~= views(old(warnings)@) + recording_section_warnings(*plan));
}

fn stream_section(plan: &OutputPreflightPlan, warnings: &mut Vec<String>, errors: &mut Vec<String>)
    ensures
        views(final(errors)@) == views(old(errors)@) + stream_section_errors(*plan),
        views(final(warnings)@) == views(old(warnings)@) + stream_section_warnings(*plan),
{
    let needs = match plan.intent {
        PipelineIntent::Stream | PipelineIntent::RecordingAndStream => true,
        _ => false,
    };
    if !needs {
        assert(views(errors@) =~= views(old(errors)@) + stream_section_errors(*plan));
        assert(views(warnings@) =~= views(old(warnings)@) + stream_section_warnings(*plan));
        return;
    }
    push_if(errors, plan.streaming_targets.len() == 0,
        String::from_str("stream output preflight requires at least one streaming target"));
    let ghost e0 = views(errors@);
    let ghost w0 = views(old(warnings)@);
    let ss = &plan.streaming_targets;
    let mut i: usize = 0;
    while i < ss.len()
        invariant
            ss == &plan.streaming_targets,
            i <= ss@.len(),
            views(errors@) == e0 + all_streaming_errors(plan.render_targets@, ss@, i as int),
            views(warnings@) == w0 + all_streaming_warnings(ss@, i as int),
        decreases ss@.len() - i,
    {
        let t = &ss[i];
        extend_msgs(warnings, &t.warnings);
        extend_msgs(errors, &t.errors);
        let known = has_target_id_exec(&plan.render_targets, &t.render_target_id);
        let mut m = quoted("streaming target \"", t.destination_name.as_str(), "\" references unknown render target \"");
        m.append(t.render_target_id.as_str());
        m.append("\"");
        push_if(errors, !known, m);
        i = i + 1;
        assert(views(errors@) =~= e0 + all_streaming_errors(plan.render_targets@, ss@, i as int));
        assert(views(warnings@) =~= w0 + all_streaming_warnings(ss@, i as int));
    }
    assert(views(errors@) =~= views(old(errors)@) + stream_section_errors(*plan));
    assert(views(warnings@) =~= views(old(warnings)@) + stream_section_warnings(*plan));
}

/// Checks an output preflight plan: its header, each render target profile, and the
/// recording and streaming targets that the intent needs, with the references from
/// those targets to render target profiles.
pub fn validate_output_preflight_plan(plan: &OutputPreflightPlan) -> (r: OutputPreflightValidation)
    ensures
        views(r.errors@) == preflight_errors(*plan),
        views(r.warnings@) == preflight_warnings(*plan),
        r.ready == (r.errors@.len() == 0),
{
    let mut warnings: Vec<String> = Vec::new();
    let mut errors: Vec<String> = Vec::new();
    assert(views(errors@) =~= Seq::<Seq<char>>::empty());
    assert(views(warnings@) =~= Seq::<Seq<char>>::empty());
    push_if(&mut errors, plan.version == 0, String::from_str("output preflight plan version must be greater than zero"));
    push_if(&mut warnings, plan.active_scene_id.is_none(), String::from_str("output preflight has no active scene"));
    push_if(&mut errors, plan.render_targets.len() == 0, String::from_str("output preflight requires at least one render target"));
    let ghost e0 = views(errors@);
    let ghost w0 = views(warnings@);
    let ts = &plan.render_targets;
    let mut i: usize = 0;
    while i < ts.len()
        invariant
            ts == &plan.render_targets,
            i <= ts@.len(),
            views(errors@) == e0 + all_profile_errors(ts@, i as int),
            views(warnings@) == w0 + all_profile_warnings(ts@, i as int),
        decreases ts@.len() - i,
    {
        target_profile_checks(ts, i, &mut warnings, &mut errors);
        i = i + 1;
        assert(views(errors@) =~= e0 + all_profile_errors(ts@, i as int));
        assert(views(warnings@) =~= w0 + all_profile_warnings(ts@, i as int));
    }
    recording_section(plan, &mut warnings, &mut errors);
    stream_section(plan, &mut warnings, &mut errors);
    assert(views(errors@) =~= preflight_errors(*plan));
    assert(views(warnings@) =~= preflight_warnings(*plan));
    let ready = errors.len() == 0;
    OutputPreflightValidation { ready, warnings, errors }
}

} // verus!

verus! {

// ---------------------------------------------------------------------------------
// Contracts of the recording and streaming targets

pub open spec fn container_ext(c: RecordingContainer) -> Seq<char> {
    c.label()
}

/// The file name that the recording pattern gives on the fixed preview date and time.
pub open spec fn preview_filename(p: MediaProfile) -> Seq<char> {
    replace_all(
        replace_all(replace_all(p.filename_pattern@, "{date}"@, "2026-05-09"@), "{time}"@, "12-00-00"@),
        "{profile}"@,
        slug_spec(p.name@),
    )
}

/// `"{folder}/{filename}.{extension}"` for the preview date and time.
pub open spec fn path_preview(p: MediaProfile) -> Seq<char> {
    p.output_folder@ + "/"@ + preview_filename(p) + "."@ + container_ext(p.container)
}

pub proof fn lemma_pattern_literals_nonempty()
    ensures
        "{date}"@.len() > 0,
        "{time}"@.len() > 0,
        "{profile}"@.len() > 0,
{
    reveal_strlit("{date}");
    reveal_strlit("{time}");
    reveal_strlit("{profile}");
}

/// The recording output path that the profile gives on the preview date and time.
pub fn recording_output_path_preview(profile: &MediaProfile) -> (r: String)
    ensures
        r@ == path_preview(*profile),
{
    proof {
        lemma_pattern_literals_nonempty();
    }
    let a = replace_str(profile.filename_pattern.as_str(), "{date}", "2026-05-09");
    let b = replace_str(a.as_str(), "{time}", "12-00-00");
    let s = slug(profile.name.as_str());
    let filename = replace_str(b.as_str(), "{profile}", s.as_str());
    let mut r = quoted(profile.output_folder.as_str(), "/", filename.as_str());
    r.append(".");
    r.append(profile.container.as_str());
    r
}

pub open spec fn recording_errors_spec(p: MediaProfile) -> Seq<Seq<char>> {
    if_msg(blank(p.output_folder@), "recording output folder is required"@)
        + if_msg(blank(p.filename_pattern@), "recording filename pattern is required"@)
        + if_msg(p.resolution.width == 0 || p.resolution.height == 0, "recording resolution must be greater than zero"@)
        + if_msg(p.framerate == 0, "recording framerate must be greater than zero"@)
        + if_msg(p.bitrate_kbps == 0, "recording bitrate must be greater than zero"@)
        + encoder_errors(p.encoder_preference, "recording target"@)
}

pub open spec fn recording_warnings_spec(p: MediaProfile) -> Seq<Seq<char>> {
    if_msg(p.filename_pattern@.contains('/') || p.filename_pattern@.contains('\\'),
        "recording filename pattern includes path separators"@)
        + encoder_warnings(p.encoder_preference, "recording target"@)
}

/// The recording target contract is the one that the profile and render target give.
pub open spec fn recording_contract_of(c: RecordingTargetContract, p: MediaProfile, render_target_id: Seq<char>) -> bool {
    &&& c.id@ == "recording-target-"@ + p.id@
    &&& c.profile_id@ == p.id@
    &&& c.profile_name@ == p.name@
    &&& c.render_target_id@ == render_target_id
    &&& c.output_folder@ == p.output_folder@
    &&& c.filename_pattern@ == p.filename_pattern@
    &&& c.container == p.container
    &&& c.resolution == p.resolution
    &&& c.framerate == p.framerate
    &&& c.bitrate_kbps == p.bitrate_kbps
    &&& c.encoder_preference == p.encoder_preference
    &&& c.output_path_preview@ == path_preview(p)
    &&& views(c.errors@) == recording_errors_spec(p)
    &&& views(c.warnings@) == recording_warnings_spec(p)
    &&& c.ready == (c.errors@.len() == 0)
}

#[verifier::rlimit(60)]
pub fn recording_target_contract(profile: &MediaProfile, render_target_id: String) -> (r: RecordingTargetContract)
    ensures
        recording_contract_of(r, *profile, render_target_id@),
{
    let mut warnings: Vec<String> = Vec::new();
    let mut errors: Vec<String> = Vec::new();
    assert(views(errors@) =~= Seq::<Seq<char>>::empty());
    assert(views(warnings@) =~= Seq::<Seq<char>>::empty());
    push_if(&mut errors, is_blank(profile.output_folder.as_str()), String::from_str("recording output folder is required"));
    push_if(&mut errors, is_blank(profile.filename_pattern.as_str()), String::from_str("recording filename pattern is required"));
    let separators = contains_char(profile.filename_pattern.as_str(), '/')
        || contains_char(profile.filename_pattern.as_str(), '\\');
    push_if(&mut warnings, separators, String::from_str("recording filename pattern includes path separators"));
    push_if(&mut errors, profile.resolution.width == 0 || profile.resolution.height == 0,
        String::from_str("recording resolution must be greater than zero"));
    push_if(&mut errors, profile.framerate == 0, String::from_str("recording framerate must be greater than zero"));
    push_if(&mut errors, profile.bitrate_kbps == 0, String::from_str("recording bitrate must be greater than zero"));
    validate_encoder_preference(&profile.encoder_preference, "recording target", &mut warnings, &mut errors);
    assert(views(errors@) =~= recording_errors_spec(*profile));
    assert(views(warnings@) =~= recording_warnings_spec(*profile));
    let ready = errors.len() == 0;
    RecordingTargetContract {
        id: cat2("recording-target-", profile.id.as_str()),
        profile_id: profile.id.clone(),
        profile_name: profile.name.clone(),
        render_target_id,
        output_folder: profile.output_folder.clone(),
        filename_pattern: profile.filename_pattern.clone(),
        container: profile.container,
        resolution: profile.resolution,
        framerate: profile.framerate,
        bitrate_kbps: profile.bitrate_kbps,
        encoder_preference: profile.encoder_preference.copy(),
        output_path_preview: recording_output_path_preview(profile),
        ready,
        warnings,
        errors,
    }
}

/// The encoder that a recording profile asks for, or automatic without a profile.
pub open spec fn profile_encoder(p: Option<MediaProfile>) -> EncoderPreference {
    match p {
        Some(p) => p.encoder_preference,
        None => EncoderPreference::Auto,
    }
}

pub open spec fn streaming_errors_spec(d: StreamDestination, p: Option<MediaProfile>) -> Seq<Seq<char>> {
    if_msg(blank(d.ingest_url@), "stream destination \""@ + d.name@ + "\" requires an ingest URL"@)
        + encoder_errors(profile_encoder(p), "streaming target \""@ + d.name@ + "\""@)
}

pub open spec fn streaming_warnings_spec(d: StreamDestination, p: Option<MediaProfile>) -> Seq<Seq<char>> {
    if_msg(d.stream_key_ref is None, "stream destination \""@ + d.name@ + "\" has no stored stream key"@)
        + encoder_warnings(profile_encoder(p), "streaming target \""@ + d.name@ + "\""@)
}

/// The streaming target contract is the one that the destination, profile and render
/// target give: the render target's shape, or 1920x1080 at 60 fps without one, and the
/// profile's bitrate, or 6000 kbps without one.
pub open spec fn streaming_contract_of(
    c: StreamingTargetContract,
    d: StreamDestination,
    p: Option<MediaProfile>,
    t: Option<RenderTargetProfile>,
) -> bool {
    &&& c.id@ == "streaming-target-"@ + d.id@
    &&& c.destination_id@ == d.id@
    &&& c.destination_name@ == d.name@
    &&& c.platform == d.platform
    &&& c.render_target_id@ == (match t {
        Some(t) => t.id@,
        None => "target-stream"@,
    })
    &&& c.ingest_url@ == d.ingest_url@
    &&& c.stream_key_required
    &&& c.has_stream_key == d.stream_key_ref.is_some()
    &&& !c.bandwidth_test
    &&& c.width == (match t { Some(t) => t.width, None => 1920 })
    &&& c.height == (match t { Some(t) => t.height, None => 1080 })
    &&& c.framerate == (match t { Some(t) => t.framerate, None => 60 })
    &&& c.bitrate_kbps == (match p { Some(p) => p.bitrate_kbps, None => 6000 })
    &&& c.encoder_preference == profile_encoder(p)
    &&& views(c.errors@) == streaming_errors_spec(d, p)
    &&& views(c.warnings@) == streaming_warnings_spec(d, p)
    &&& c.ready == (c.errors@.len() == 0)
}

pub fn profile_encoder_exec(p: Option<&MediaProfile>) -> (r: EncoderPreference)
    ensures
        r == profile_encoder(match p { Some(p) => Some(*p), None => None }),
{
    match p {
        Some(p) => p.encoder_preference.copy(),
        None => EncoderPreference::Auto,
    }
}

pub fn streaming_target_contract(
    destination: &StreamDestination,
    recording_profile: Option<&MediaProfile>,
    render_target: Option<&RenderTargetProfile>,
) -> (r: StreamingTargetContract)
    ensures
        streaming_contract_of(r, *destination,
            match recording_profile { Some(p) => Some(*p), None => None },
            match render_target { Some(t) => Some(*t), None => None }),
{
    let mut warnings: Vec<String> = Vec::new();
    let mut errors: Vec<String> = Vec::new();
    assert(views(errors@) =~= Seq::<Seq<char>>::empty());
    assert(views(warnings@) =~= Seq::<Seq<char>>::empty());
    let encoder_preference = profile_encoder_exec(recording_profile);
    let name = destination.name.as_str();
    push_if(&mut errors, is_blank(destination.ingest_url.as_str()), quoted("stream destination \"", name, "\" requires an ingest URL"));
    push_if(&mut warnings, destination.stream_key_ref.is_none(), quoted("stream destination \"", name, "\" has no stored stream key"));
    let label = quoted("streaming target \"", name, "\"");
    validate_encoder_preference(&encoder_preference, label.as_str(), &mut warnings, &mut errors);
    let ghost p = match recording_profile { Some(p) => Some(*p), None => None };
    assert(views(errors@) =~= streaming_errors_spec(*destination, p));
    assert(views(warnings@) =~= streaming_warnings_spec(*destination, p));
    let ready = errors.len() == 0;
    StreamingTargetContract {
        id: cat2("streaming-target-", destination.id.as_str()),
        destination_id: destination.id.clone(),
        destination_name: destination.name.clone(),
        platform: destination.platform,
        render_target_id: match render_target {
            Some(t) => t.id.clone(),
            None => String::from_str("target-stream"),
        },
        ingest_url: destination.ingest_url.clone(),
        stream_key_required: true,
        has_stream_key: destination.stream_key_ref.is_some(),
        bandwidth_test: false,
        width: match render_target { Some(t) => t.width, None => 1920 },
        height: match render_target { Some(t) => t.height, None => 1080 },
        framerate: match render_target { Some(t) => t.framerate, None => 60 },
        bitrate_kbps: match recording_profile { Some(p) => p.bitrate_kbps, None => 6000 },
        encoder_preference,
        ready,
        warnings,
        errors,
    }
}

} // verus!

verus! {

// ---------------------------------------------------------------------------------
// Render target profiles and the choice of a render target

/// The bitrate of a render target: the profile's (or 6000 kbps) for recording and
/// stream targets; none for preview and program targets.
pub open spec fn target_bitrate(kind: CompositorRenderTargetKind, p: Option<MediaProfile>) -> Option<u32> {
    match kind {
        CompositorRenderTargetKind::Recording | CompositorRenderTargetKind::Stream => Some(
            match p {
                Some(p) => p.bitrate_kbps,
                None => 6000u32,
            },
        ),
        _ => None,
    }
}

/// Recording and stream targets are encoded at the recording profile's bitrate, the
/// same for both, and at 6000 kbps only without a profile; preview and program
/// targets have no bitrate.
pub proof fn lemma_target_bitrate_follows_profile(kind: CompositorRenderTargetKind, p: Option<MediaProfile>)
    ensures
        (kind == CompositorRenderTargetKind::Recording || kind == CompositorRenderTargetKind::Stream) ==> match p {
            Some(profile) => target_bitrate(kind, p) == Some(profile.bitrate_kbps),
            None => target_bitrate(kind, p) == Some(6000u32),
        },
        target_bitrate(CompositorRenderTargetKind::Recording, p) == target_bitrate(CompositorRenderTargetKind::Stream, p),
        (kind == CompositorRenderTargetKind::Preview || kind == CompositorRenderTargetKind::Program) ==> target_bitrate(
            kind,
            p,
        ) is None,
{
}

pub open spec fn opt_profile(p: Option<&MediaProfile>) -> Option<MediaProfile> {
    match p {
        Some(p) => Some(*p),
        None => None,
    }
}

pub fn target_bitrate_kbps(kind: CompositorRenderTargetKind, recording_profile: Option<&MediaProfile>) -> (r: Option<u32>)
    ensures
        r == target_bitrate(kind, opt_profile(recording_profile)),
{
    match kind {
        CompositorRenderTargetKind::Recording | CompositorRenderTargetKind::Stream => Some(
            match recording_profile {
                Some(p) => p.bitrate_kbps,
                None => 6000,
            },
        ),
        _ => None,
    }
}

/// The render target profile is the render target's, with the profile's encoder and bitrate.
pub open spec fn profile_of_target(r: RenderTargetProfile, t: CompositorRenderTarget, p: Option<MediaProfile>) -> bool {
    &&& r.id@ == t.id@
    &&& r.name@ == t.name@
    &&& r.kind == t.kind
    &&& r.width == t.width
    &&& r.height == t.height
    &&& r.framerate == t.framerate
    &&& r.frame_format == t.frame_format
    &&& r.scale_mode == t.scale_mode
    &&& r.enabled == t.enabled
    &&& r.encoder_preference == profile_encoder(p)
    &&& r.bitrate_kbps == target_bitrate(t.kind, p)
}

pub fn render_target_profile(target: &CompositorRenderTarget, recording_profile: Option<&MediaProfile>) -> (r: RenderTargetProfile)
    ensures
        profile_of_target(r, *target, opt_profile(recording_profile)),
{
    RenderTargetProfile {
        id: target.id.clone(),
        name: target.name.clone(),
        kind: target.kind,
        width: target.width,
        height: target.height,
        framerate: target.framerate,
        frame_format: target.frame_format,
        scale_mode: target.scale_mode,
        enabled: target.enabled,
        encoder_preference: profile_encoder_exec(recording_profile),
        bitrate_kbps: target_bitrate_kbps(target.kind, recording_profile),
    }
}

/// Whether some target has the kind.
pub open spec fn has_kind(ts: Seq<RenderTargetProfile>, k: CompositorRenderTargetKind) -> bool {
    exists|j: int| 0 <= j < ts.len() && (#[trigger] ts[j]).kind == k
}

/// `j` is the first target of the kind.
pub open spec fn first_of_kind(ts: Seq<RenderTargetProfile>, k: CompositorRenderTargetKind, j: int) -> bool {
    &&& 0 <= j < ts.len()
    &&& ts[j].kind == k
    &&& forall|i: int| 0 <= i < j ==> (#[trigger] ts[i]).kind != k
}

/// The index of the first target of the kind (meaningful when there is one).
pub open spec fn first_kind_index(ts: Seq<RenderTargetProfile>, k: CompositorRenderTargetKind) -> int {
    choose|j: int| first_of_kind(ts, k, j)
}

pub proof fn lemma_first_unique(ts: Seq<RenderTargetProfile>, k: CompositorRenderTargetKind, j: int)
    requires
        first_of_kind(ts, k, j),
    ensures
        has_kind(ts, k),
        first_kind_index(ts, k) == j,
{
    assert(ts[j].kind == k);
    let c = first_kind_index(ts, k);
    assert(first_of_kind(ts, k, c));
    if c < j {
        assert(ts[c].kind != k);
    } else if c > j {
        assert(ts[j].kind != k);
    }
}

pub fn find_kind(ts: &Vec<RenderTargetProfile>, k: CompositorRenderTargetKind) -> (r: Option<usize>)
    ensures
        match r {
            Some(j) => has_kind(ts@, k) && j == first_kind_index(ts@, k) && first_of_kind(ts@, k, j as int),
            None => !has_kind(ts@, k),
        },
{
    let mut i: usize = 0;
    while i < ts.len()
        invariant
            i <= ts@.len(),
            forall|j: int| 0 <= j < i ==> (#[trigger] ts@[j]).kind != k,
        decreases ts@.len() - i,
    {
        if ts[i].kind == k {
            proof {
                lemma_first_unique(ts@, k, i as int);
            }
            return Some(i);
        }
        i = i + 1;
    }
    None
}

/// The kind of render target that a preference names.
pub open spec fn kind_named(kind: Seq<char>) -> CompositorRenderTargetKind {
    if kind == "recording"@ {
        CompositorRenderTargetKind::Recording
    } else if kind == "stream"@ {
        CompositorRenderTargetKind::Stream
    } else {
        CompositorRenderTargetKind::Program
    }
}

/// The id of the first target of the named kind, else of the first program target,
/// else of the first target, else `"target-{kind}"`.
pub open spec fn preferred_id(ts: Seq<RenderTargetProfile>, kind: Seq<char>) -> Seq<char> {
    let tk = kind_named(kind);
    if has_kind(ts, tk) {
        ts[first_kind_index(ts, tk)].id@
    } else if has_kind(ts, CompositorRenderTargetKind::Program) {
        ts[first_kind_index(ts, CompositorRenderTargetKind::Program)].id@
    } else if ts.len() > 0 {
        ts[0].id@
    } else {
        "target-"@ + kind
    }
}

pub fn preferred_target_id(targets: &Vec<RenderTargetProfile>, kind: &str) -> (r: String)
    ensures
        r@ == preferred_id(targets@, kind@),
{
    let target_kind = if crate::text::str_eq(kind, "recording") {
        CompositorRenderTargetKind::Recording
    } else if crate::text::str_eq(kind, "stream") {
        CompositorRenderTargetKind::Stream
    } else {
        CompositorRenderTargetKind::Program
    };
    match find_kind(targets, target_kind) {
        Some(j) => targets[j].id.clone(),
        None => match find_kind(targets, CompositorRenderTargetKind::Program) {
            Some(j) => targets[j].id.clone(),
            None => if targets.len() > 0 {
                targets[0].id.clone()
            } else {
                cat2("target-", kind)
            },
        },
    }
}

/// `j` is the first stream target named for the destination.
pub open spec fn first_named_stream(ts: Seq<RenderTargetProfile>, dest_id: Seq<char>, j: int) -> bool {
    &&& 0 <= j < ts.len()
    &&& ts[j].kind == CompositorRenderTargetKind::Stream && ts[j].id@ == "target-stream-"@ + dest_id
    &&& forall|i: int| 0 <= i < j ==> !((#[trigger] ts[i]).kind == CompositorRenderTargetKind::Stream
        && ts[i].id@ == "target-stream-"@ + dest_id)
}

pub open spec fn has_named_stream(ts: Seq<RenderTargetProfile>, dest_id: Seq<char>) -> bool {
    exists|j: int| 0 <= j < ts.len() && (#[trigger] ts[j]).kind == CompositorRenderTargetKind::Stream
        && ts[j].id@ == "target-stream-"@ + dest_id
}

/// The render target of a destination: the first stream target named for it, else
/// the first stream target, else the first program target.
pub open spec fn stream_target_for(ts: Seq<RenderTargetProfile>, dest_id: Seq<char>) -> Option<int> {
    if has_named_stream(ts, dest_id) {
        Some(choose|j: int| first_named_stream(ts, dest_id, j))
    } else if has_kind(ts, CompositorRenderTargetKind::Stream) {
        Some(first_kind_index(ts, CompositorRenderTargetKind::Stream))
    } else if has_kind(ts, CompositorRenderTargetKind::Program) {
        Some(first_kind_index(ts, CompositorRenderTargetKind::Program))
    } else {
        None
    }
}

pub fn stream_target_profile(targets: &Vec<RenderTargetProfile>, destination: &StreamDestination) -> (r: Option<usize>)
    ensures
        match r {
            Some(j) => stream_target_for(targets@, destination.id@) == Some(j as int) && j < targets@.len(),
            None => stream_target_for(targets@, destination.id@) is None,
        },
{
    let wanted = cat2("target-stream-", destination.id.as_str());
    let mut i: usize = 0;
    while i < targets.len()
        invariant
            wanted@ == "target-stream-"@ + destination.id@,
            i <= targets@.len(),
            forall|j: int| 0 <= j < i ==> !((#[trigger] targets@[j]).kind == CompositorRenderTargetKind::Stream
                && targets@[j].id@ == wanted@),
        decreases targets@.len() - i,
    {
        let is_stream = match targets[i].kind {
            CompositorRenderTargetKind::Stream => true,
            _ => false,
        };
        if is_stream && targets[i].id == wanted {
            proof {
                let ts = targets@;
                let d = destination.id@;
                assert(first_named_stream(ts, d, i as int));
                assert(has_named_stream(ts, d));
                let c = choose|j: int| first_named_stream(ts, d, j);
                assert(first_named_stream(ts, d, c));
                if c < i {
                    assert(!(ts[c].kind == CompositorRenderTargetKind::Stream && ts[c].id@ == wanted@));
                } else if c > i {
                    assert(!(ts[i as int].kind == CompositorRenderTargetKind::Stream && ts[i as int].id@ == wanted@));
                }
            }
            return Some(i);
        }
        i = i + 1;
    }
    assert(!has_named_stream(targets@, destination.id@));
    match find_kind(targets, CompositorRenderTargetKind::Stream) {
        Some(j) => Some(j),
        None => find_kind(targets, CompositorRenderTargetKind::Program),
    }
}

} // verus!

verus! {

/// The enabled destinations, in order.
pub open spec fn enabled_destinations(ds: Seq<StreamDestination>) -> Seq<StreamDestination>
    decreases ds.len(),
{
    if ds.len() == 0 {
        seq![]
    } else {
        let rest = enabled_destinations(ds.drop_last());
        if ds.last().enabled {
            rest.push(ds.last())
        } else {
            rest
        }
    }
}

pub open spec fn opt_target(ts: Seq<RenderTargetProfile>, j: Option<int>) -> Option<RenderTargetProfile> {
    match j {
        Some(j) => Some(ts[j]),
        None => None,
    }
}

/// The streaming contracts are those of the enabled destinations, in order, each on the
/// render target chosen for it.
pub open spec fn streaming_contracts_of(
    cs: Seq<StreamingTargetContract>,
    ts: Seq<RenderTargetProfile>,
    ds: Seq<StreamDestination>,
    p: Option<MediaProfile>,
) -> bool {
    let enabled = enabled_destinations(ds);
    &&& cs.len() == enabled.len()
    &&& forall|i: int| 0 <= i < cs.len() ==> streaming_contract_of(#[trigger] cs[i], enabled[i], p,
        opt_target(ts, stream_target_for(ts, enabled[i].id@)))
}

/// What `build_output_preflight_plan` builds, apart from its validation.
pub open spec fn preflight_plan_of(
    r: OutputPreflightPlan,
    intent: PipelineIntent,
    scene: Option<crate::scene::Scene>,
    render_plan: Option<CompositorRenderPlan>,
    p: Option<MediaProfile>,
    ds: Seq<StreamDestination>,
) -> bool {
    let targets = match render_plan {
        Some(plan) => plan.targets@,
        None => seq![],
    };
    &&& r.version == 1
    &&& r.intent == intent
    &&& crate::capture::opt_view(r.active_scene_id) == (match scene { Some(s) => Some(s.id@), None => None })
    &&& crate::capture::opt_view(r.active_scene_name) == (match scene { Some(s) => Some(s.name@), None => None })
    &&& r.render_targets@.len() == targets.len()
    &&& forall|i: int| 0 <= i < targets.len() ==> profile_of_target(#[trigger] r.render_targets@[i], targets[i], p)
    &&& match r.recording_target {
        Some(c) => needs_recording(intent) && p is Some
            && recording_contract_of(c, p->0, preferred_id(r.render_targets@, "recording"@)),
        None => !(needs_recording(intent) && p is Some),
    }
    &&& if needs_stream(intent) {
        streaming_contracts_of(r.streaming_targets@, r.render_targets@, ds, p)
    } else {
        r.streaming_targets@.len() == 0
    }
}

fn streaming_contracts(
    render_targets: &Vec<RenderTargetProfile>,
    recording_profile: Option<&MediaProfile>,
    stream_destinations: &[StreamDestination],
) -> (r: Vec<StreamingTargetContract>)
    ensures
        streaming_contracts_of(r@, render_targets@, stream_destinations@, opt_profile(recording_profile)),
{
    let mut out: Vec<StreamingTargetContract> = Vec::new();
    let mut i: usize = 0;
    while i < stream_destinations.len()
        invariant
            i <= stream_destinations@.len(),
            streaming_contracts_of(out@, render_targets@, stream_destinations@.subrange(0, i as int),
                opt_profile(recording_profile)),
        decreases stream_destinations@.len() - i,
    {
        let d = &stream_destinations[i];
        let ghost prev = stream_destinations@.subrange(0, i as int);
        assert(stream_destinations@.subrange(0, i + 1 as int).drop_last() =~= prev);
        if d.enabled {
            let target = match stream_target_profile(render_targets, d) {
                Some(j) => Some(&render_targets[j]),
                None => None,
            };
            let c = streaming_target_contract(d, recording_profile, target);
            out.push(c);
        }
        i = i + 1;
    }
    assert(stream_destinations@.subrange(0, stream_destinations@.len() as int) =~= stream_destinations@);
    out
}

/// The output preflight plan for the intent: one render target profile per target of
/// the render plan, the recording contract when the intent records and a profile is
/// given, and one streaming contract per enabled destination when the intent streams;
/// validated.
pub fn build_output_preflight_plan(
    intent: PipelineIntent,
    active_scene: Option<&crate::scene::Scene>,
    render_plan: Option<&CompositorRenderPlan>,
    recording_profile: Option<&MediaProfile>,
    stream_destinations: &[StreamDestination],
) -> (r: OutputPreflightPlan)
    ensures
        preflight_plan_of(r, intent, match active_scene { Some(s) => Some(*s), None => None },
            match render_plan { Some(p) => Some(*p), None => None }, opt_profile(recording_profile),
            stream_destinations@),
        views(r.validation.errors@) == preflight_errors(r),
        views(r.validation.warnings@) == preflight_warnings(r),
        r.validation.ready == (r.validation.errors@.len() == 0),
{
    let mut render_targets: Vec<RenderTargetProfile> = Vec::new();
    match render_plan {
        Some(plan) => {
            let mut i: usize = 0;
            while i < plan.targets.len()
                invariant
                    i <= plan.targets@.len(),
                    render_targets@.len() == i,
                    forall|j: int| 0 <= j < i ==> profile_of_target(#[trigger] render_targets@[j], plan.targets@[j],
                        opt_profile(recording_profile)),
                decreases plan.targets@.len() - i,
            {
                render_targets.push(render_target_profile(&plan.targets[i], recording_profile));
                i = i + 1;
            }
        },
        None => {},
    }
    let records = match intent {
        PipelineIntent::Recording | PipelineIntent::RecordingAndStream => true,
        _ => false,
    };
    let streams = match intent {
        PipelineIntent::Stream | PipelineIntent::RecordingAndStream => true,
        _ => false,
    };
    let recording_target = if records {
        match recording_profile {
            Some(profile) => Some(recording_target_contract(profile, preferred_target_id(&render_targets, "recording"))),
            None => None,
        }
    } else {
        None
    };
    let streaming_targets = if streams {
        streaming_contracts(&render_targets, recording_profile, stream_destinations)
    } else {
        Vec::new()
    };
    let mut plan = OutputPreflightPlan {
        version: 1,
        intent,
        active_scene_id: match active_scene { Some(s) => Some(s.id.clone()), None => None },
        active_scene_name: match active_scene { Some(s) => Some(s.name.clone()), None => None },
        render_targets,
        recording_target,
        streaming_targets,
        validation: OutputPreflightValidation { ready: true, warnings: Vec::new(), errors: Vec::new() },
    };
    plan.validation = validate_output_preflight_plan(&plan);
    plan
}

} // verus!

verus! {

#[derive(Clone, Copy, Debug, PartialEq, Eq, Structural)]
pub enum PipelineStepStatus {
    Ready,
    Warning,
    Blocked,
}

#[derive(Clone, Debug)]
pub struct MediaPipelineStep {
    pub id: String,
    pub label: String,
    pub status: PipelineStepStatus,
    pub detail: String,
}

#[derive(Clone, Debug)]
pub struct MediaPipelineValidation {
    pub ready: bool,
    pub warnings: Vec<String>,
    pub errors: Vec<String>,
}

/// The configuration of a media pipeline and the plans derived from its scene. The
/// audio mixer plan, which is made of floating-point levels, is kept beside it by the
/// application.
#[derive(Clone, Debug)]
pub struct MediaPipelineConfig {
    pub version: u32,
    pub dry_run: bool,
    pub intent: PipelineIntent,
    pub capture_sources: Vec<crate::capture::CaptureSourceSelection>,
    pub active_scene: Option<crate::scene::Scene>,
    pub capture_frame_plan: Option<crate::capture::CaptureFramePlan>,
    pub audio_mixer_plan: Option<crate::audio::AudioMixerPlan>,
    pub compositor_graph: Option<crate::compositor::CompositorGraph>,
    pub compositor_render_plan: Option<CompositorRenderPlan>,
    pub performance_telemetry_plan: Option<crate::performance::PerformanceTelemetryPlan>,
    pub output_preflight_plan: Option<OutputPreflightPlan>,
    pub recording_profile: Option<MediaProfile>,
    pub stream_destinations: Vec<StreamDestination>,
}

#[derive(Clone, Debug)]
pub struct MediaPipelinePlanRequest {
    pub dry_run: bool,
    pub intent: PipelineIntent,
    pub capture_sources: Vec<crate::capture::CaptureSourceSelection>,
    pub active_scene: Option<crate::scene::Scene>,
    pub recording_profile: Option<MediaProfile>,
    pub stream_destinations: Vec<StreamDestination>,
}

/// The enabled destinations, in their order.
pub open spec fn enabled_only(ds: Seq<StreamDestination>) -> Seq<StreamDestination>
    decreases ds.len(),
{
    if ds.len() == 0 {
        seq![]
    } else if ds.last().enabled {
        enabled_only(ds.drop_last()).push(ds.last())
    } else {
        enabled_only(ds.drop_last())
    }
}

/// The dry-run plan request for what is stored: the capture sources of the active scene,
/// or the saved ones when the scene has none; the enabled stream destinations; and
/// streaming as well as recording when any destination is enabled.
pub fn default_pipeline_plan_request(
    saved_capture_sources: Vec<crate::capture::CaptureSourceSelection>,
    scene_capture_sources: Vec<crate::capture::CaptureSourceSelection>,
    active_scene: Option<crate::scene::Scene>,
    recording_profile: Option<MediaProfile>,
    stream_destinations: Vec<StreamDestination>,
) -> (r: MediaPipelinePlanRequest)
    ensures
        r.dry_run,
        r.capture_sources@ == (if scene_capture_sources@.len() == 0 {
            saved_capture_sources@
        } else {
            scene_capture_sources@
        }),
        r.active_scene == active_scene,
        r.recording_profile == recording_profile,
        r.stream_destinations@ == enabled_only(stream_destinations@),
        r.intent == (if enabled_only(stream_destinations@).len() == 0 {
            PipelineIntent::Recording
        } else {
            PipelineIntent::RecordingAndStream
        }),
{
    let ghost all = stream_destinations@;
    let mut rest = stream_destinations;
    let mut kept: Vec<StreamDestination> = Vec::new();
    let ghost mut i: int = 0;
    while rest.len() > 0
        invariant
            0 <= i <= all.len(),
            rest@ == all.skip(i),
            kept@ == enabled_only(all.take(i)),
        decreases rest@.len(),
    {
        let d = rest.remove(0);
        proof {
            assert(all.take(i + 1).drop_last() =~= all.take(i));
            assert(all.take(i + 1).last() == d);
            assert(all.skip(i + 1) =~= all.skip(i).drop_first());
            i = i + 1;
        }
        if d.enabled {
            kept.push(d);
        }
    }
    assert(all.take(i) =~= all);
    let intent = if kept.len() == 0 {
        PipelineIntent::Recording
    } else {
        PipelineIntent::RecordingAndStream
    };
    let capture_sources = if scene_capture_sources.len() == 0 {
        saved_capture_sources
    } else {
        scene_capture_sources
    };
    MediaPipelinePlanRequest {
        dry_run: true,
        intent,
        capture_sources,
        active_scene,
        recording_profile,
        stream_destinations: kept,
    }
}

#[derive(Clone, Debug)]
pub struct MediaPipelinePlan {
    pub pipeline_name: String,
    pub dry_run: bool,
    pub ready: bool,
    pub config: MediaPipelineConfig,
    pub steps: Vec<MediaPipelineStep>,
    pub warnings: Vec<String>,
    pub errors: Vec<String>,
}

/// A copy of a list of messages.
pub fn copy_msgs(v: &Vec<String>) -> (r: Vec<String>)
    ensures
        views(r@) == views(v@),
{
    let mut r: Vec<String> = Vec::new();
    assert(views(r@) =~= Seq::<Seq<char>>::empty());
    extend_msgs(&mut r, v);
    assert(views(r@) =~= views(v@));
    r
}

// ---------------------------------------------------------------------------------
// The default render targets and the pipeline configuration

pub open spec fn profile_framerate(p: Option<MediaProfile>) -> u32 {
    match p {
        Some(p) => p.framerate,
        None => 60,
    }
}

/// A target as `compositor_render_target` makes it.
pub open spec fn target_is(
    t: CompositorRenderTarget,
    id: Seq<char>,
    name: Seq<char>,
    kind: CompositorRenderTargetKind,
    width: u32,
    height: u32,
    framerate: u32,
) -> bool {
    &&& t.id@ == id
    &&& t.name@ == name
    &&& t.kind == kind
    &&& t.width == width
    &&& t.height == height
    &&& t.framerate == framerate
    &&& t.frame_format == CompositorFrameFormat::Bgra8
    &&& t.scale_mode == CompositorScaleMode::Fit
    &&& t.enabled
}

pub open spec fn recording_count(intent: PipelineIntent) -> nat {
    if needs_recording(intent) { 1 } else { 0 }
}

pub open spec fn stream_count(intent: PipelineIntent, n_destinations: nat) -> nat {
    if needs_stream(intent) {
        if n_destinations == 0 { 1 } else { n_destinations }
    } else {
        0
    }
}

/// The render targets of a pipeline whose canvas is `width` by `height`: preview and
/// program at the canvas size; a recording output at the profile's resolution when
/// recording; one stream output per destination, or a single one without
/// destinations, when streaming; all at the profile's framerate, or 60.
pub open spec fn default_targets(
    r: Seq<CompositorRenderTarget>,
    intent: PipelineIntent,
    width: u32,
    height: u32,
    p: Option<MediaProfile>,
    ds: Seq<StreamDestination>,
) -> bool {
    let f = profile_framerate(p);
    let nr = recording_count(intent) as int;
    &&& r.len() == 2 + nr + stream_count(intent, ds.len())
    &&& target_is(r[0], "target-preview"@, "Preview"@, CompositorRenderTargetKind::Preview, width, height, f)
    &&& target_is(r[1], "target-program"@, "Program"@, CompositorRenderTargetKind::Program, width, height, f)
    &&& needs_recording(intent) ==> target_is(r[2], "target-recording"@, "Recording Output"@,
        CompositorRenderTargetKind::Recording,
        match p { Some(p) => p.resolution.width, None => width },
        match p { Some(p) => p.resolution.height, None => height }, f)
    &&& (needs_stream(intent) && ds.len() == 0) ==> target_is(r[2 + nr], "target-stream"@, "Stream Output"@,
        CompositorRenderTargetKind::Stream, width, height, f)
    &&& (needs_stream(intent) && ds.len() > 0) ==> forall|i: int| 0 <= i < ds.len() ==> target_is(
        #[trigger] r[2 + nr + i], "target-stream-"@ + ds[i].id@, "Stream Output: "@ + ds[i].name@,
        CompositorRenderTargetKind::Stream, width, height, f)
}

/// The render targets of a pipeline.
pub fn default_compositor_render_targets(
    intent: PipelineIntent,
    width: u32,
    height: u32,
    recording_profile: Option<&MediaProfile>,
    stream_destinations: &[StreamDestination],
) -> (r: Vec<CompositorRenderTarget>)
    ensures
        default_targets(r@, intent, width, height, opt_profile(recording_profile), stream_destinations@),
{
    let f: u32 = match recording_profile {
        Some(p) => p.framerate,
        None => 60,
    };
    let mut targets: Vec<CompositorRenderTarget> = Vec::new();
    targets.push(compositor_render_target("target-preview", "Preview", CompositorRenderTargetKind::Preview, width, height, f));
    targets.push(compositor_render_target("target-program", "Program", CompositorRenderTargetKind::Program, width, height, f));
    let recording = match intent {
        PipelineIntent::Recording | PipelineIntent::RecordingAndStream => true,
        _ => false,
    };
    let stream = match intent {
        PipelineIntent::Stream | PipelineIntent::RecordingAndStream => true,
        _ => false,
    };
    if recording {
        let (w, h) = match recording_profile {
            Some(p) => (p.resolution.width, p.resolution.height),
            None => (width, height),
        };
        targets.push(compositor_render_target("target-recording", "Recording Output",
            CompositorRenderTargetKind::Recording, w, h, f));
    }
    let ghost base = targets@;
    if stream {
        if stream_destinations.len() == 0 {
            targets.push(compositor_render_target("target-stream", "Stream Output", CompositorRenderTargetKind::Stream,
                width, height, f));
        } else {
            let mut i: usize = 0;
            while i < stream_destinations.len()
                invariant
                    i <= stream_destinations@.len(),
                    targets@.len() == base.len() + i,
                    forall|k: int| 0 <= k < base.len() ==> targets@[k] == base[k],
                    forall|k: int| 0 <= k < i ==> target_is(#[trigger] targets@[base.len() + k],
                        "target-stream-"@ + stream_destinations@[k].id@, "Stream Output: "@ + stream_destinations@[k].name@,
                        CompositorRenderTargetKind::Stream, width, height, f),
                decreases stream_destinations@.len() - i,
            {
                let d = &stream_destinations[i];
                let id = cat2("target-stream-", d.id.as_str());
                let name = cat2("Stream Output: ", d.name.as_str());
                let t = compositor_render_target(id.as_str(), name.as_str(), CompositorRenderTargetKind::Stream, width,
                    height, f);
                targets.push(t);
                i = i + 1;
            }
            proof {
                let nr = recording_count(intent) as int;
                assert(base.len() == 2 + nr);
                assert forall|k: int| 0 <= k < stream_destinations@.len() implies target_is(#[trigger] targets@[2 + nr + k],
                    "target-stream-"@ + stream_destinations@[k].id@, "Stream Output: "@ + stream_destinations@[k].name@,
                    CompositorRenderTargetKind::Stream, width, height, f) by {
                    assert(targets@[base.len() + k] == targets@[2 + nr + k]);
                }
            }
        }
    }
    proof {
        let nr = recording_count(intent) as int;
        assert(targets@[0] == base[0]);
        assert(targets@[1] == base[1]);
        assert(nr == 1 ==> targets@[2] == base[2]);
        assert(target_is(targets@[0], "target-preview"@, "Preview"@, CompositorRenderTargetKind::Preview, width, height, f));
        assert(target_is(targets@[1], "target-program"@, "Program"@, CompositorRenderTargetKind::Program, width, height, f));
        assert(f == profile_framerate(opt_profile(recording_profile)));
        assert(targets@.len() == 2 + nr + stream_count(intent, stream_destinations@.len()));
    }
    targets
}

/// The width, height and framerate of each target.
pub open spec fn target_shapes(ts: Seq<CompositorRenderTarget>) -> Seq<(u32, u32, u32)> {
    ts.map_values(|t: CompositorRenderTarget| (t.width, t.height, t.framerate))
}

/// The bytes per second of targets of these shapes.
pub open spec fn shapes_throughput(s: Seq<(u32, u32, u32)>) -> int
    decreases s.len(),
{
    if s.len() == 0 {
        0
    } else {
        shapes_throughput(s.drop_last()) + s.last().0 as int * s.last().1 as int * 4 * s.last().2 as int
    }
}

/// The budgets of targets of these shapes can be computed in 64 bits.
pub open spec fn shapes_fit(s: Seq<(u32, u32, u32)>) -> bool {
    &&& forall|i: int| 0 <= i < s.len() ==> (#[trigger] s[i]).0 as int * s[i].1 as int * 4 <= u64::MAX
        && s[i].0 as int * s[i].1 as int * 4 * s[i].2 as int <= u64::MAX
    &&& shapes_throughput(s) <= u64::MAX
}

/// The shapes of the default render targets.
pub open spec fn default_target_shapes(
    intent: PipelineIntent,
    width: u32,
    height: u32,
    p: Option<MediaProfile>,
    n_destinations: nat,
) -> Seq<(u32, u32, u32)> {
    let f = profile_framerate(p);
    let rec: Seq<(u32, u32, u32)> = if needs_recording(intent) {
        seq![(match p { Some(p) => p.resolution.width, None => width }, match p {
            Some(p) => p.resolution.height,
            None => height,
        }, f)]
    } else {
        seq![]
    };
    seq![(width, height, f), (width, height, f)] + rec + Seq::new(stream_count(intent, n_destinations),
        |i: int| (width, height, f))
}

proof fn lemma_default_shapes(
    r: Seq<CompositorRenderTarget>,
    intent: PipelineIntent,
    width: u32,
    height: u32,
    p: Option<MediaProfile>,
    ds: Seq<StreamDestination>,
)
    requires
        default_targets(r, intent, width, height, p, ds),
    ensures
        target_shapes(r) == default_target_shapes(intent, width, height, p, ds.len()),
        forall|i: int| 0 <= i < r.len() ==> (#[trigger] r[i]).enabled,
{
    let nr = recording_count(intent) as int;
    let a = target_shapes(r);
    let b = default_target_shapes(intent, width, height, p, ds.len());
    assert forall|i: int| 0 <= i < r.len() implies (#[trigger] r[i]).enabled && a[i] == b[i] by {
        if i >= 2 + nr && needs_stream(intent) && ds.len() > 0 {
            assert(target_is(r[2 + nr + (i - 2 - nr)], "target-stream-"@ + ds[i - 2 - nr].id@,
                "Stream Output: "@ + ds[i - 2 - nr].name@, CompositorRenderTargetKind::Stream, width, height,
                profile_framerate(p)));
        }
    }
    assert(a =~= b);
}

proof fn lemma_throughput_of_shapes(ts: Seq<CompositorRenderTarget>)
    requires
        forall|i: int| 0 <= i < ts.len() ==> (#[trigger] ts[i]).enabled,
    ensures
        crate::performance::enabled_throughput(ts) == shapes_throughput(target_shapes(ts)),
    decreases ts.len(),
{
    if ts.len() > 0 {
        assert(target_shapes(ts).drop_last() =~= target_shapes(ts.drop_last()));
        lemma_throughput_of_shapes(ts.drop_last());
    }
}

proof fn lemma_enabled_throughput_prefix_le(ts: Seq<CompositorRenderTarget>, k: int)
    requires
        0 <= k <= ts.len(),
    ensures
        crate::performance::enabled_throughput(ts.subrange(0, k)) <= crate::performance::enabled_throughput(ts),
    decreases ts.len() - k,
{
    if k < ts.len() {
        lemma_enabled_throughput_prefix_le(ts, k + 1);
        assert(ts.subrange(0, k + 1).drop_last() =~= ts.subrange(0, k));
    } else {
        assert(ts.subrange(0, k) =~= ts);
    }
}

fn budgets_fit_exec(ts: &Vec<CompositorRenderTarget>) -> (r: bool)
    ensures
        r == crate::performance::budgets_fit(ts@),
{
    let mut sum: u128 = 0;
    let mut i: usize = 0;
    while i < ts.len()
        invariant
            i <= ts@.len(),
            forall|k: int| 0 <= k < i ==> crate::performance::budget_fits(#[trigger] ts@[k]),
            sum == crate::performance::enabled_throughput(ts@.subrange(0, i as int)),
            sum <= u64::MAX,
        decreases ts@.len() - i,
    {
        let t = &ts[i];
        let w = t.width as u128;
        let h = t.height as u128;
        let fr = t.framerate as u128;
        assert(w * h <= 0xffff_ffff_ffff_ffffu128 * 1) by (nonlinear_arith)
            requires
                w <= 0xffff_ffff,
                h <= 0xffff_ffff,
        ;
        let frame: u128 = w * h * 4;
        if frame > u64::MAX as u128 {
            return false;
        }
        assert(frame * fr <= 0xffff_ffff_ffff_ffffu128 * 0xffff_ffff) by (nonlinear_arith)
            requires
                frame <= 0xffff_ffff_ffff_ffff,
                fr <= 0xffff_ffff,
        ;
        let per_second: u128 = frame * fr;
        if per_second > u64::MAX as u128 {
            return false;
        }
        assert(ts@.subrange(0, i + 1 as int).drop_last() =~= ts@.subrange(0, i as int));
        if t.enabled {
            sum = sum + per_second;
        }
        if sum > u64::MAX as u128 {
            proof {
                lemma_enabled_throughput_prefix_le(ts@, i + 1);
            }
            return false;
        }
        i = i + 1;
    }
    assert(ts@.subrange(0, ts@.len() as int) =~= ts@);
    true
}

/// The budgets of the request's render targets can be computed in 64 bits.
pub open spec fn request_budgets_fit(q: MediaPipelinePlanRequest) -> bool {
    q.active_scene matches Some(s) ==> shapes_fit(default_target_shapes(q.intent, s.canvas.width, s.canvas.height,
        q.recording_profile, q.stream_destinations@.len()))
}

proof fn lemma_fit_iff_shapes_fit(ts: Seq<CompositorRenderTarget>)
    requires
        forall|i: int| 0 <= i < ts.len() ==> (#[trigger] ts[i]).enabled,
    ensures
        crate::performance::budgets_fit(ts) == shapes_fit(target_shapes(ts)),
{
    lemma_throughput_of_shapes(ts);
    let sh = target_shapes(ts);
    if crate::performance::budgets_fit(ts) {
        assert forall|i: int| 0 <= i < sh.len() implies (#[trigger] sh[i]).0 as int * sh[i].1 as int * 4 <= u64::MAX
            && sh[i].0 as int * sh[i].1 as int * 4 * sh[i].2 as int <= u64::MAX by {
            assert(crate::performance::budget_fits(ts[i]));
        }
    }
    if shapes_fit(sh) {
        assert forall|i: int| 0 <= i < ts.len() implies crate::performance::budget_fits(#[trigger] ts[i]) by {
            assert(sh[i] == (ts[i].width, ts[i].height, ts[i].framerate));
        }
    }
}

/// Whether a pipeline request's render targets have budgets that can be computed, as
/// `into_config` needs.
pub fn pipeline_budgets_fit(request: &MediaPipelinePlanRequest) -> (r: bool)
    ensures
        r == request_budgets_fit(*request),
{
    match &request.active_scene {
        None => true,
        Some(s) => {
            let profile = match &request.recording_profile {
                Some(p) => Some(p),
                None => None,
            };
            let ts = default_compositor_render_targets(request.intent, s.canvas.width, s.canvas.height, profile,
                request.stream_destinations.as_slice());
            proof {
                lemma_default_shapes(ts@, request.intent, s.canvas.width, s.canvas.height, request.recording_profile,
                    request.stream_destinations@);
                lemma_fit_iff_shapes_fit(ts@);
            }
            budgets_fit_exec(&ts)
        },
    }
}

/// The configuration a request yields: the request's own fields, and, for its scene,
/// the capture plan, the audio mixer plan, the compositor graph, a render plan over the default targets and
/// its telemetry plan; and the output preflight.
pub open spec fn config_of_request(r: MediaPipelineConfig, q: MediaPipelinePlanRequest) -> bool {
    &&& r.version == 1
    &&& r.dry_run == q.dry_run
    &&& r.intent == q.intent
    &&& r.capture_sources == q.capture_sources
    &&& r.active_scene == q.active_scene
    &&& r.recording_profile == q.recording_profile
    &&& r.stream_destinations == q.stream_destinations
    &&& match q.active_scene {
        None => r.capture_frame_plan is None && r.audio_mixer_plan is None && r.compositor_graph is None
            && r.compositor_render_plan is None && r.performance_telemetry_plan is None,
        Some(s) => {
            &&& r.capture_frame_plan matches Some(c) && crate::capture::capture_plan_built(c, s)
            &&& r.audio_mixer_plan matches Some(a) && crate::audio::mixer_plan_of(a, s)
            &&& match (r.compositor_graph, r.compositor_render_plan, r.performance_telemetry_plan) {
                (Some(g), Some(p), Some(t)) => {
                    &&& crate::compositor::graph_of_scene(g, s)
                    &&& p.version == 1
                    &&& p.renderer == crate::compositor::CompositorRendererKind::Contract
                    &&& crate::compositor::same_graph(p.graph, g)
                    &&& default_targets(p.targets@, q.intent, s.canvas.width, s.canvas.height, q.recording_profile,
                        q.stream_destinations@)
                    &&& crate::performance::telemetry_plan_built(t, p)
                },
                _ => false,
            }
        },
    }
    &&& match r.output_preflight_plan {
        Some(o) => {
            &&& preflight_plan_of(o, q.intent, q.active_scene, r.compositor_render_plan, q.recording_profile,
                q.stream_destinations@)
            &&& views(o.validation.errors@) == preflight_errors(o)
            &&& views(o.validation.warnings@) == preflight_warnings(o)
            &&& o.validation.ready == (o.validation.errors@.len() == 0)
        },
        None => false,
    }
}

impl MediaPipelinePlanRequest {
    /// The pipeline configuration of the request, with the plans derived from its
    /// scene.
    pub fn into_config(self) -> (r: MediaPipelineConfig)
        requires
            request_budgets_fit(self),
        ensures
            config_of_request(r, self),
    {
        let ghost q = self;
        let profile = match &self.recording_profile {
            Some(p) => Some(p),
            None => None,
        };
        let capture_frame_plan = match &self.active_scene {
            Some(s) => Some(crate::capture::build_capture_frame_plan(s)),
            None => None,
        };
        let audio_mixer_plan = match &self.active_scene {
            Some(s) => Some(crate::audio::build_audio_mixer_plan(s)),
            None => None,
        };
        let compositor_graph = match &self.active_scene {
            Some(s) => Some(crate::compositor::build_compositor_graph(s)),
            None => None,
        };
        let compositor_render_plan = match &compositor_graph {
            Some(g) => {
                let targets = default_compositor_render_targets(self.intent, g.output.width, g.output.height, profile,
                    self.stream_destinations.as_slice());
                Some(crate::compositor::build_compositor_render_plan(g, targets))
            },
            None => None,
        };
        let performance_telemetry_plan = match &compositor_render_plan {
            Some(p) => {
                proof {
                    let s = q.active_scene->0;
                    lemma_default_shapes(p.targets@, q.intent, s.canvas.width, s.canvas.height, q.recording_profile,
                        q.stream_destinations@);
                    lemma_fit_iff_shapes_fit(p.targets@);
                }
                Some(crate::performance::build_performance_telemetry_plan(p))
            },
            None => None,
        };
        let scene_ref = match &self.active_scene {
            Some(s) => Some(s),
            None => None,
        };
        let render_ref = match &compositor_render_plan {
            Some(p) => Some(p),
            None => None,
        };
        let output_preflight_plan = build_output_preflight_plan(self.intent, scene_ref, render_ref, profile,
            self.stream_destinations.as_slice());
        MediaPipelineConfig {
            version: 1,
            dry_run: self.dry_run,
            intent: self.intent,
            capture_sources: self.capture_sources,
            active_scene: self.active_scene,
            capture_frame_plan,
            audio_mixer_plan,
            compositor_graph,
            compositor_render_plan,
            performance_telemetry_plan,
            output_preflight_plan: Some(output_preflight_plan),
            recording_profile: self.recording_profile,
            stream_destinations: self.stream_destinations,
        }
    }
}

impl MediaPipelinePlan {
    /// The plan's readiness, warnings and errors.
    pub fn validation(&self) -> (r: MediaPipelineValidation)
        ensures
            r.ready == self.ready,
            views(r.warnings@) == views(self.warnings@),
            views(r.errors@) == views(self.errors@),
    {
        MediaPipelineValidation {
            ready: self.ready,
            warnings: copy_msgs(&self.warnings),
            errors: copy_msgs(&self.errors),
        }
    }
}

} // verus!

verus! {

impl crate::text::DeepCopy for EncoderPreference {
    fn deep_copy(&self) -> (r: EncoderPreference) {
        self.copy()
    }
}

impl crate::text::DeepCopy for RenderTargetProfile {
    fn deep_copy(&self) -> (r: RenderTargetProfile) {
        RenderTargetProfile {
            id: self.id.clone(),
            name: self.name.clone(),
            kind: self.kind,
            width: self.width,
            height: self.height,
            framerate: self.framerate,
            frame_format: self.frame_format,
            scale_mode: self.scale_mode,
            enabled: self.enabled,
            encoder_preference: self.encoder_preference.copy(),
            bitrate_kbps: self.bitrate_kbps,
        }
    }
}

/// The contracts agree in every field, messages included.
pub open spec fn recording_copy(a: RecordingTargetContract, b: RecordingTargetContract) -> bool {
    &&& a.id == b.id && a.profile_id == b.profile_id && a.profile_name == b.profile_name
    &&& a.render_target_id == b.render_target_id && a.output_folder == b.output_folder
    &&& a.filename_pattern == b.filename_pattern && a.container == b.container && a.resolution == b.resolution
    &&& a.framerate == b.framerate && a.bitrate_kbps == b.bitrate_kbps
    &&& a.encoder_preference == b.encoder_preference && a.output_path_preview == b.output_path_preview
    &&& a.ready == b.ready && a.warnings@ == b.warnings@ && a.errors@ == b.errors@
}

/// The contracts agree in every field, messages included.
pub open spec fn streaming_copy(a: StreamingTargetContract, b: StreamingTargetContract) -> bool {
    &&& a.id == b.id && a.destination_id == b.destination_id && a.destination_name == b.destination_name
    &&& a.platform == b.platform && a.render_target_id == b.render_target_id && a.ingest_url == b.ingest_url
    &&& a.stream_key_required == b.stream_key_required && a.has_stream_key == b.has_stream_key
    &&& a.bandwidth_test == b.bandwidth_test && a.width == b.width && a.height == b.height
    &&& a.framerate == b.framerate && a.bitrate_kbps == b.bitrate_kbps
    &&& a.encoder_preference == b.encoder_preference
    &&& a.ready == b.ready && a.warnings@ == b.warnings@ && a.errors@ == b.errors@
}

/// The plans agree in every field, messages included.
pub open spec fn preflight_copy(a: OutputPreflightPlan, b: OutputPreflightPlan) -> bool {
    &&& a.version == b.version && a.intent == b.intent
    &&& a.active_scene_id == b.active_scene_id && a.active_scene_name == b.active_scene_name
    &&& a.render_targets@ == b.render_targets@
    &&& match (a.recording_target, b.recording_target) {
        (Some(x), Some(y)) => recording_copy(x, y),
        (None, None) => true,
        _ => false,
    }
    &&& a.streaming_targets@.len() == b.streaming_targets@.len()
    &&& forall|i: int| 0 <= i < a.streaming_targets@.len() ==> streaming_copy(#[trigger] a.streaming_targets@[i], b.streaming_targets@[i])
    &&& a.validation.ready == b.validation.ready
    &&& a.validation.warnings@ == b.validation.warnings@ && a.validation.errors@ == b.validation.errors@
}

impl RecordingTargetContract {
    pub fn copy(&self) -> (r: RecordingTargetContract)
        ensures
            recording_copy(r, *self),
    {
        RecordingTargetContract {
            id: self.id.clone(),
            profile_id: self.profile_id.clone(),
            profile_name: self.profile_name.clone(),
            render_target_id: self.render_target_id.clone(),
            output_folder: self.output_folder.clone(),
            filename_pattern: self.filename_pattern.clone(),
            container: self.container,
            resolution: self.resolution,
            framerate: self.framerate,
            bitrate_kbps: self.bitrate_kbps,
            encoder_preference: self.encoder_preference.copy(),
            output_path_preview: self.output_path_preview.clone(),
            ready: self.ready,
            warnings: crate::text::copy_vec(&self.warnings),
            errors: crate::text::copy_vec(&self.errors),
        }
    }
}

impl StreamingTargetContract {
    pub fn copy(&self) -> (r: StreamingTargetContract)
        ensures
            streaming_copy(r, *self),
    {
        StreamingTargetContract {
            id: self.id.clone(),
            destination_id: self.destination_id.clone(),
            destination_name: self.destination_name.clone(),
            platform: self.platform,
            render_target_id: self.render_target_id.clone(),
            ingest_url: self.ingest_url.clone(),
            stream_key_required: self.stream_key_required,
            has_stream_key: self.has_stream_key,
            bandwidth_test: self.bandwidth_test,
            width: self.width,
            height: self.height,
            framerate: self.framerate,
            bitrate_kbps: self.bitrate_kbps,
            encoder_preference: self.encoder_preference.copy(),
            ready: self.ready,
            warnings: crate::text::copy_vec(&self.warnings),
            errors: crate::text::copy_vec(&self.errors),
        }
    }
}

impl OutputPreflightPlan {
    pub fn copy(&self) -> (r: OutputPreflightPlan)
        ensures
            preflight_copy(r, *self),
    {
        let mut streaming: Vec<StreamingTargetContract> = Vec::new();
        let mut i: usize = 0;
        while i < self.streaming_targets.len()
            invariant
                i <= self.streaming_targets@.len(),
                streaming@.len() == i,
                forall|j: int| 0 <= j < i ==> streaming_copy(#[trigger] streaming@[j], self.streaming_targets@[j]),
            decreases self.streaming_targets@.len() - i,
        {
            streaming.push(self.streaming_targets[i].copy());
            i = i + 1;
        }
        OutputPreflightPlan {
            version: self.version,
            intent: self.intent,
            active_scene_id: crate::text::copy_opt(&self.active_scene_id),
            active_scene_name: crate::text::copy_opt(&self.active_scene_name),
            render_targets: crate::text::copy_vec(&self.render_targets),
            recording_target: match &self.recording_target {
                Some(t) => Some(t.copy()),
                None => None,
            },
            streaming_targets: streaming,
            validation: OutputPreflightValidation {
                ready: self.validation.ready,
                warnings: crate::text::copy_vec(&self.validation.warnings),
                errors: crate::text::copy_vec(&self.validation.errors),
            },
        }
    }
}

} // verus!
