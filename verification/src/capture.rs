//! Capture sources, the capture frame plan of a scene, and the mock capture provider.

use vstd::prelude::*;
use crate::scene::{entry_lookup, Scene, SceneSource, SceneSourceKind, config_str, config_u64, nested_str, nested_u64, config_str_spec, config_u64_spec, nested_str_spec, nested_u64_spec};
use vstd::string::StringSliceAdditionalSpecFns;
use crate::text::{str_eq, blank, cat2, if_msg, is_blank, push_if, push_msg, quoted, views};

verus! {

#[derive(Clone, Copy, Debug, PartialEq, Eq, Structural)]
pub enum CaptureSourceKind {
    Display,
    Window,
    Camera,
    Microphone,
    SystemAudio,
}

impl CaptureSourceKind {
    pub open spec fn label(self) -> Seq<char> {
        match self {
            CaptureSourceKind::Display => "display"@,
            CaptureSourceKind::Window => "window"@,
            CaptureSourceKind::Camera => "camera"@,
            CaptureSourceKind::Microphone => "microphone"@,
            CaptureSourceKind::SystemAudio => "system_audio"@,
        }
    }

    pub fn as_str(&self) -> (r: &'static str)
        ensures
            r@ == self.label(),
    {
        match self {
            CaptureSourceKind::Display => "display",
            CaptureSourceKind::Window => "window",
            CaptureSourceKind::Camera => "camera",
            CaptureSourceKind::Microphone => "microphone",
            CaptureSourceKind::SystemAudio => "system_audio",
        }
    }
}

#[derive(Clone, Debug)]
pub struct CaptureSourceSelection {
    pub id: String,
    pub kind: CaptureSourceKind,
    pub name: String,
    pub enabled: bool,
}

impl CaptureSourceSelection {
    pub fn display_main() -> (r: CaptureSourceSelection)
        ensures
            r.id@ == "display:main"@,
            r.kind == CaptureSourceKind::Display,
            r.name@ == "Main Display"@,
            r.enabled,
    {
        CaptureSourceSelection {
            id: String::from_str("display:main"),
            kind: CaptureSourceKind::Display,
            name: String::from_str("Main Display"),
            enabled: true,
        }
    }

    pub fn microphone_default() -> (r: CaptureSourceSelection)
        ensures
            r.id@ == "microphone:default"@,
            r.kind == CaptureSourceKind::Microphone,
            r.name@ == "Default Microphone"@,
            !r.enabled,
    {
        CaptureSourceSelection {
            id: String::from_str("microphone:default"),
            kind: CaptureSourceKind::Microphone,
            name: String::from_str("Default Microphone"),
            enabled: false,
        }
    }
}

/// The main display, enabled, then the default microphone, disabled.
pub fn default_capture_sources() -> (r: Vec<CaptureSourceSelection>)
    ensures
        r@.len() == 2,
        r@[0].id@ == "display:main"@ && r@[0].kind == CaptureSourceKind::Display
            && r@[0].name@ == "Main Display"@ && r@[0].enabled,
        r@[1].id@ == "microphone:default"@ && r@[1].kind == CaptureSourceKind::Microphone
            && r@[1].name@ == "Default Microphone"@ && !r@[1].enabled,
{
    let mut r = Vec::new();
    r.push(CaptureSourceSelection::display_main());
    r.push(CaptureSourceSelection::microphone_default());
    r
}

#[derive(Clone, Debug)]
pub struct CaptureSourceCandidate {
    pub id: String,
    pub kind: CaptureSourceKind,
    pub name: String,
    pub available: bool,
    pub notes: Option<String>,
}

#[derive(Clone, Debug)]
pub struct CaptureSourceInventory {
    pub candidates: Vec<CaptureSourceCandidate>,
    pub selected: Vec<CaptureSourceSelection>,
}

#[derive(Clone, Copy, Debug, PartialEq, Eq, Structural)]
pub enum CaptureFrameMediaKind {
    Video,
    Audio,
}

#[derive(Clone, Copy, Debug, PartialEq, Eq, Structural)]
pub enum CaptureFrameFormat {
    Rgba8,
    Bgra8,
    Nv12,
    PcmF32,
    PcmS16,
}

#[derive(Clone, Copy, Debug, PartialEq, Eq, Structural)]
pub enum CaptureFrameTransport {
    Unavailable,
    SharedMemory,
    TextureHandle,
    ExternalProcess,
}

#[derive(Clone, Copy, Debug, PartialEq, Eq, Structural)]
pub enum CaptureFrameBindingStatus {
    Ready,
    Placeholder,
    PermissionRequired,
    Unavailable,
}

#[derive(Clone, Copy, Debug, PartialEq, Eq, Structural)]
pub enum CaptureProviderLifecycleState {
    Idle,
    Starting,
    Running,
    Stopping,
    Error,
}

impl CaptureProviderLifecycleState {
    /// The state's `Debug` name.
    pub open spec fn debug_name(self) -> Seq<char> {
        match self {
            CaptureProviderLifecycleState::Idle => "Idle"@,
            CaptureProviderLifecycleState::Starting => "Starting"@,
            CaptureProviderLifecycleState::Running => "Running"@,
            CaptureProviderLifecycleState::Stopping => "Stopping"@,
            CaptureProviderLifecycleState::Error => "Error"@,
        }
    }

    pub fn debug_str(&self) -> (r: &'static str)
        ensures
            r@ == self.debug_name(),
    {
        match self {
            CaptureProviderLifecycleState::Idle => "Idle",
            CaptureProviderLifecycleState::Starting => "Starting",
            CaptureProviderLifecycleState::Running => "Running",
            CaptureProviderLifecycleState::Stopping => "Stopping",
            CaptureProviderLifecycleState::Error => "Error",
        }
    }
}

#[derive(Clone, Debug)]
pub struct CaptureFrameBinding {
    pub scene_source_id: String,
    pub scene_source_name: String,
    pub capture_source_id: Option<String>,
    pub capture_kind: CaptureSourceKind,
    pub media_kind: CaptureFrameMediaKind,
    pub width: Option<u32>,
    pub height: Option<u32>,
    pub framerate: Option<u32>,
    pub sample_rate: Option<u32>,
    pub channels: Option<u16>,
    pub format: CaptureFrameFormat,
    pub transport: CaptureFrameTransport,
    pub status: CaptureFrameBindingStatus,
    pub status_detail: String,
}

/// A capture provider's state. `latency_ms` is in whole milliseconds.
#[derive(Clone, Debug)]
pub struct CaptureProviderStatus {
    pub provider_id: String,
    pub scene_source_id: String,
    pub scene_source_name: String,
    pub capture_source_id: Option<String>,
    pub capture_kind: CaptureSourceKind,
    pub media_kind: CaptureFrameMediaKind,
    pub lifecycle: CaptureProviderLifecycleState,
    pub binding_status: CaptureFrameBindingStatus,
    pub status_detail: String,
    pub width: Option<u32>,
    pub height: Option<u32>,
    pub framerate: Option<u32>,
    pub sample_rate: Option<u32>,
    pub channels: Option<u16>,
    pub format: CaptureFrameFormat,
    pub frame_index: u64,
    pub dropped_frames: u64,
    pub latency_ms: Option<u64>,
}

#[derive(Clone, Debug)]
pub struct CaptureVideoFramePacket {
    pub provider_id: String,
    pub scene_source_id: String,
    pub capture_source_id: Option<String>,
    pub frame_index: u64,
    pub width: u32,
    pub height: u32,
    pub format: CaptureFrameFormat,
    pub pts_nanos: u64,
    pub duration_nanos: u64,
    pub pixels: Vec<u8>,
}

#[derive(Clone, Debug)]
pub struct CaptureFrameValidation {
    pub ready: bool,
    pub warnings: Vec<String>,
    pub errors: Vec<String>,
}

#[derive(Clone, Debug)]
pub struct CaptureFramePlan {
    pub version: u32,
    pub scene_id: String,
    pub scene_name: String,
    pub bindings: Vec<CaptureFrameBinding>,
    pub validation: CaptureFrameValidation,
}

#[derive(Clone, Debug)]
pub struct CaptureProviderRuntimeSnapshot {
    pub version: u32,
    pub scene_id: String,
    pub scene_name: String,
    pub providers: Vec<CaptureProviderStatus>,
    pub validation: CaptureFrameValidation,
}

/// `validate_optional_positive`: a zero value is an error.
pub open spec fn zero_msgs(value: Option<u32>, label: Seq<char>) -> Seq<Seq<char>> {
    if_msg(value == Some(0u32), label + " must be greater than zero"@)
}

pub open spec fn binding_errors(b: CaptureFrameBinding) -> Seq<Seq<char>> {
    let id = b.scene_source_id@;
    if_msg(blank(id), "capture frame binding scene source id is required"@)
        + if_msg(blank(b.scene_source_name@), "capture frame binding \""@ + id + "\" name is required"@)
        + match b.media_kind {
            CaptureFrameMediaKind::Video => zero_msgs(b.width, id + " width"@) + zero_msgs(b.height, id + " height"@)
                + zero_msgs(b.framerate, id + " framerate"@),
            CaptureFrameMediaKind::Audio => zero_msgs(b.sample_rate, id + " sample_rate"@)
                + if_msg(b.channels == Some(0u16), id + " channels must be greater than zero"@),
        }
}

pub open spec fn binding_warnings(b: CaptureFrameBinding) -> Seq<Seq<char>> {
    let name = b.scene_source_name@;
    let detail = b.status_detail@;
    if_msg(b.capture_source_id is None, name + " has no assigned capture source"@)
        + match b.status {
            CaptureFrameBindingStatus::Ready => seq![],
            CaptureFrameBindingStatus::Placeholder => seq![name + " is waiting for capture assignment: "@ + detail],
            CaptureFrameBindingStatus::PermissionRequired => seq![name + " requires capture permission: "@ + detail],
            CaptureFrameBindingStatus::Unavailable => seq![name + " capture is unavailable: "@ + detail],
        }
}

pub open spec fn all_binding_errors(bs: Seq<CaptureFrameBinding>) -> Seq<Seq<char>>
    decreases bs.len(),
{
    if bs.len() == 0 {
        seq![]
    } else {
        all_binding_errors(bs.drop_last()) + binding_errors(bs.last())
    }
}

pub open spec fn all_binding_warnings(bs: Seq<CaptureFrameBinding>) -> Seq<Seq<char>>
    decreases bs.len(),
{
    if bs.len() == 0 {
        seq![]
    } else {
        all_binding_warnings(bs.drop_last()) + binding_warnings(bs.last())
    }
}

/// The errors that `validate_capture_frame_plan` reports, in order.
pub open spec fn capture_plan_errors(p: CaptureFramePlan) -> Seq<Seq<char>> {
    if_msg(p.version == 0, "capture frame plan version must be greater than zero"@)
        + if_msg(blank(p.scene_id@), "capture frame plan scene id is required"@)
        + if_msg(blank(p.scene_name@), "capture frame plan scene name is required"@)
        + all_binding_errors(p.bindings@)
}

/// The warnings that `validate_capture_frame_plan` reports, in order.
pub open spec fn capture_plan_warnings(p: CaptureFramePlan) -> Seq<Seq<char>> {
    if_msg(p.bindings@.len() == 0, "capture frame plan has no capture-backed scene sources"@)
        + all_binding_warnings(p.bindings@)
}

/// Adds `"{label} must be greater than zero"` when the value is zero.
pub fn validate_optional_positive(value: Option<u32>, label: String, errors: &mut Vec<String>)
    ensures
        views(final(errors)@) == views(old(errors)@) + zero_msgs(value, label@),
{
    reveal(if_msg);
    match value {
        Some(0) => {
            let m = cat2(label.as_str(), " must be greater than zero");
            push_msg(errors, m);
        },
        _ => {
            assert(views(errors@) =~= views(errors@) + zero_msgs(value, label@));
        },
    }
}

fn binding_errors_exec(b: &CaptureFrameBinding, errors: &mut Vec<String>)
    ensures
        views(final(errors)@) == views(old(errors)@) + binding_errors(*b),
{
    let ghost e0 = views(errors@);
    let id = b.scene_source_id.as_str();
    push_if(errors, is_blank(id), String::from_str("capture frame binding scene source id is required"));
    let ghost e1 = views(errors@);
    push_if(errors, is_blank(b.scene_source_name.as_str()), quoted("capture frame binding \"", id, "\" name is required"));
    let ghost e2 = views(errors@);
    match b.media_kind {
        CaptureFrameMediaKind::Video => {
            validate_optional_positive(b.width, cat2(id, " width"), errors);
            validate_optional_positive(b.height, cat2(id, " height"), errors);
            validate_optional_positive(b.framerate, cat2(id, " framerate"), errors);
        },
        CaptureFrameMediaKind::Audio => {
            validate_optional_positive(b.sample_rate, cat2(id, " sample_rate"), errors);
            let zero_channels = match b.channels {
                Some(0) => true,
                _ => false,
            };
            push_if(errors, zero_channels, cat2(id, " channels must be greater than zero"));
        },
    }
    assert(views(errors@) =~= views(old(errors)@) + binding_errors(*b));
}

fn binding_warnings_exec(b: &CaptureFrameBinding, warnings: &mut Vec<String>)
    ensures
        views(final(warnings)@) == views(old(warnings)@) + binding_warnings(*b),
{
    let name = b.scene_source_name.as_str();
    let detail = b.status_detail.as_str();
    push_if(warnings, b.capture_source_id.is_none(), cat2(name, " has no assigned capture source"));
    match b.status {
        CaptureFrameBindingStatus::Ready => {},
        CaptureFrameBindingStatus::Placeholder => {
            push_msg(warnings, quoted(name, " is waiting for capture assignment: ", detail));
        },
        CaptureFrameBindingStatus::PermissionRequired => {
            push_msg(warnings, quoted(name, " requires capture permission: ", detail));
        },
        CaptureFrameBindingStatus::Unavailable => {
            push_msg(warnings, quoted(name, " capture is unavailable: ", detail));
        },
    }
    assert(views(warnings@) =~= views(old(warnings)@) + binding_warnings(*b));
}

/// Checks a capture frame plan: its header and each binding's identity, shape and status.
pub fn validate_capture_frame_plan(plan: &CaptureFramePlan) -> (r: CaptureFrameValidation)
    ensures
        views(r.errors@) == capture_plan_errors(*plan),
        views(r.warnings@) == capture_plan_warnings(*plan),
        r.ready == (r.errors@.len() == 0),
{
    let mut warnings: Vec<String> = Vec::new();
    let mut errors: Vec<String> = Vec::new();
    assert(views(errors@) =~= Seq::<Seq<char>>::empty());
    assert(views(warnings@) =~= Seq::<Seq<char>>::empty());
    push_if(&mut errors, plan.version == 0, String::from_str("capture frame plan version must be greater than zero"));
    push_if(&mut errors, is_blank(plan.scene_id.as_str()), String::from_str("capture frame plan scene id is required"));
    push_if(&mut errors, is_blank(plan.scene_name.as_str()), String::from_str("capture frame plan scene name is required"));
    push_if(&mut warnings, plan.bindings.len() == 0, String::from_str("capture frame plan has no capture-backed scene sources"));
    let ghost e_head = views(errors@);
    let ghost w_head = views(warnings@);
    let mut i: usize = 0;
    while i < plan.bindings.len()
        invariant
            i <= plan.bindings@.len(),
            views(errors@) == e_head + all_binding_errors(plan.bindings@.subrange(0, i as int)),
            views(warnings@) == w_head + all_binding_warnings(plan.bindings@.subrange(0, i as int)),
        decreases plan.bindings@.len() - i,
    {
        binding_errors_exec(&plan.bindings[i], &mut errors);
        binding_warnings_exec(&plan.bindings[i], &mut warnings);
        i = i + 1;
        assert(plan.bindings@.subrange(0, i as int).drop_last() =~= plan.bindings@.subrange(0, i - 1 as int));
        assert(views(errors@) =~= e_head + all_binding_errors(plan.bindings@.subrange(0, i as int)));
        assert(views(warnings@) =~= w_head + all_binding_warnings(plan.bindings@.subrange(0, i as int)));
    }
    assert(plan.bindings@.subrange(0, plan.bindings@.len() as int) =~= plan.bindings@);
    assert(views(errors@) =~= capture_plan_errors(*plan));
    assert(views(warnings@) =~= capture_plan_warnings(*plan));
    let ready = errors.len() == 0;
    CaptureFrameValidation { ready, warnings, errors }
}

} // verus!

verus! {

/// Whether an earlier provider in the list has the same provider id.
pub open spec fn provider_id_seen(ps: Seq<CaptureProviderStatus>, i: int) -> bool {
    exists|j: int| 0 <= j < i && (#[trigger] ps[j]).provider_id@ == ps[i].provider_id@
}

pub open spec fn provider_errors(ps: Seq<CaptureProviderStatus>, i: int) -> Seq<Seq<char>> {
    let p = ps[i];
    let id = p.provider_id@;
    if_msg(provider_id_seen(ps, i), "duplicate capture provider \""@ + id + "\""@)
        + if_msg(blank(id), "capture provider id is required"@)
        + if_msg(blank(p.scene_source_id@), "capture provider \""@ + id + "\" source id is required"@)
        + if_msg(blank(p.scene_source_name@), "capture provider \""@ + id + "\" source name is required"@)
        + provider_shape_errors(p)
}

pub open spec fn provider_shape_errors(p: CaptureProviderStatus) -> Seq<Seq<char>> {
    let id = p.provider_id@;
    match p.media_kind {
        CaptureFrameMediaKind::Video => zero_msgs(p.width, id) + zero_msgs(p.height, id) + zero_msgs(p.framerate, id),
        CaptureFrameMediaKind::Audio => zero_msgs(p.sample_rate, id)
            + if_msg(p.channels == Some(0u16), id + " channels must be greater than zero"@),
    }
}

pub open spec fn provider_warnings(p: CaptureProviderStatus) -> Seq<Seq<char>> {
    if_msg(p.lifecycle != CaptureProviderLifecycleState::Running,
        p.scene_source_name@ + " provider is "@ + p.lifecycle.debug_name() + ": "@ + p.status_detail@)
}

pub open spec fn all_provider_errors(ps: Seq<CaptureProviderStatus>, n: int) -> Seq<Seq<char>>
    decreases n,
{
    if n <= 0 {
        seq![]
    } else {
        all_provider_errors(ps, n - 1) + provider_errors(ps, n - 1)
    }
}

pub open spec fn all_provider_warnings(ps: Seq<CaptureProviderStatus>, n: int) -> Seq<Seq<char>>
    decreases n,
{
    if n <= 0 {
        seq![]
    } else {
        all_provider_warnings(ps, n - 1) + provider_warnings(ps[n - 1])
    }
}

/// The errors that `validate_capture_provider_runtime_snapshot` reports, in order.
pub open spec fn provider_snapshot_errors(s: CaptureProviderRuntimeSnapshot) -> Seq<Seq<char>> {
    if_msg(s.version == 0, "capture provider snapshot version must be greater than zero"@)
        + if_msg(blank(s.scene_id@), "capture provider snapshot scene id is required"@)
        + if_msg(blank(s.scene_name@), "capture provider snapshot scene name is required"@)
        + all_provider_errors(s.providers@, s.providers@.len() as int)
}

/// The warnings that `validate_capture_provider_runtime_snapshot` reports, in order.
pub open spec fn provider_snapshot_warnings(s: CaptureProviderRuntimeSnapshot) -> Seq<Seq<char>> {
    if_msg(s.providers@.len() == 0, "capture provider snapshot has no providers"@)
        + all_provider_warnings(s.providers@, s.providers@.len() as int)
}

fn provider_id_seen_exec(ps: &Vec<CaptureProviderStatus>, i: usize) -> (r: bool)
    requires
        i < ps@.len(),
    ensures
        r == provider_id_seen(ps@, i as int),
{
    let mut j: usize = 0;
    while j < i
        invariant
            i < ps@.len(),
            j <= i,
            forall|k: int| 0 <= k < j ==> (#[trigger] ps@[k]).provider_id@ != ps@[i as int].provider_id@,
        decreases i - j,
    {
        if ps[j].provider_id == ps[i].provider_id {
            assert(ps@[j as int].provider_id@ == ps@[i as int].provider_id@);
            return true;
        }
        j = j + 1;
    }
    false
}

#[verifier::rlimit(50)]
fn provider_errors_exec(ps: &Vec<CaptureProviderStatus>, i: usize, errors: &mut Vec<String>)
    requires
        i < ps@.len(),
    ensures
        views(final(errors)@) == views(old(errors)@) + provider_errors(ps@, i as int),
{
    let p = &ps[i];
    let id = p.provider_id.as_str();
    push_if(errors, provider_id_seen_exec(ps, i), quoted("duplicate capture provider \"", id, "\""));
    push_if(errors, is_blank(id), String::from_str("capture provider id is required"));
    push_if(errors, is_blank(p.scene_source_id.as_str()), quoted("capture provider \"", id, "\" source id is required"));
    push_if(errors, is_blank(p.scene_source_name.as_str()), quoted("capture provider \"", id, "\" source name is required"));
    provider_shape_errors_exec(p, errors);
    assert(views(errors@) =~= views(old(errors)@) + provider_errors(ps@, i as int));
}

fn provider_shape_errors_exec(p: &CaptureProviderStatus, errors: &mut Vec<String>)
    ensures
        views(final(errors)@) == views(old(errors)@) + provider_shape_errors(*p),
{
    let id = p.provider_id.as_str();
    match p.media_kind {
        CaptureFrameMediaKind::Video => {
            validate_optional_positive(p.width, p.provider_id.clone(), errors);
            validate_optional_positive(p.height, p.provider_id.clone(), errors);
            validate_optional_positive(p.framerate, p.provider_id.clone(), errors);
        },
        CaptureFrameMediaKind::Audio => {
            validate_optional_positive(p.sample_rate, p.provider_id.clone(), errors);
            let zero_channels = match p.channels {
                Some(0) => true,
                _ => false,
            };
            push_if(errors, zero_channels, cat2(id, " channels must be greater than zero"));
        },
    }
    assert(views(errors@) =~= views(old(errors)@) + provider_shape_errors(*p));
}

/// Checks a capture provider snapshot: its header, unique provider ids, each provider's
/// identity and shape, and that each provider is running.
pub fn validate_capture_provider_runtime_snapshot(snapshot: &CaptureProviderRuntimeSnapshot) -> (r: CaptureFrameValidation)
    ensures
        views(r.errors@) == provider_snapshot_errors(*snapshot),
        views(r.warnings@) == provider_snapshot_warnings(*snapshot),
        r.ready == (r.errors@.len() == 0),
{
    let mut warnings: Vec<String> = Vec::new();
    let mut errors: Vec<String> = Vec::new();
    assert(views(errors@) =~= Seq::<Seq<char>>::empty());
    assert(views(warnings@) =~= Seq::<Seq<char>>::empty());
    push_if(&mut errors, snapshot.version == 0, String::from_str("capture provider snapshot version must be greater than zero"));
    push_if(&mut errors, is_blank(snapshot.scene_id.as_str()), String::from_str("capture provider snapshot scene id is required"));
    push_if(&mut errors, is_blank(snapshot.scene_name.as_str()), String::from_str("capture provider snapshot scene name is required"));
    push_if(&mut warnings, snapshot.providers.len() == 0, String::from_str("capture provider snapshot has no providers"));
    let ghost e_head = views(errors@);
    let ghost w_head = views(warnings@);
    let ps = &snapshot.providers;
    let mut i: usize = 0;
    while i < ps.len()
        invariant
            ps == &snapshot.providers,
            i <= ps@.len(),
            views(errors@) == e_head + all_provider_errors(ps@, i as int),
            views(warnings@) == w_head + all_provider_warnings(ps@, i as int),
        decreases ps@.len() - i,
    {
        provider_errors_exec(ps, i, &mut errors);
        let p = &ps[i];
        let running = match p.lifecycle {
            CaptureProviderLifecycleState::Running => true,
            _ => false,
        };
        let mut m = cat2(p.scene_source_name.as_str(), " provider is ");
        m.append(p.lifecycle.debug_str());
        m.append(": ");
        m.append(p.status_detail.as_str());
        push_if(&mut warnings, !running, m);
        i = i + 1;
        assert(views(errors@) =~= e_head + all_provider_errors(ps@, i as int));
        assert(views(warnings@) =~= w_head + all_provider_warnings(ps@, i as int));
    }
    assert(views(errors@) =~= provider_snapshot_errors(*snapshot));
    assert(views(warnings@) =~= provider_snapshot_warnings(*snapshot));
    let ready = errors.len() == 0;
    CaptureFrameValidation { ready, warnings, errors }
}

} // verus!

verus! {

/// The source's audio channel is the system mix.
pub open spec fn channel_is_system(s: SceneSource) -> bool {
    config_str_spec(s.config@, "channel"@) == Some("system"@)
}

/// The capture kind behind a scene source, if it is capture-backed.
pub open spec fn scene_capture_kind(s: SceneSource) -> Option<CaptureSourceKind> {
    match s.kind {
        SceneSourceKind::Display => Some(CaptureSourceKind::Display),
        SceneSourceKind::Window => Some(CaptureSourceKind::Window),
        SceneSourceKind::Camera => Some(CaptureSourceKind::Camera),
        SceneSourceKind::AudioMeter => Some(
            if channel_is_system(s) {
                CaptureSourceKind::SystemAudio
            } else {
                CaptureSourceKind::Microphone
            },
        ),
        _ => None,
    }
}

/// An audio meter is captured as system audio exactly when its configuration's
/// `channel` is "system", and as a microphone otherwise; display, window and camera
/// sources are captured as themselves, and other sources are not captured.
pub proof fn lemma_capture_kind_of_source(s: SceneSource)
    ensures
        s.kind == SceneSourceKind::AudioMeter ==> (scene_capture_kind(s) == Some(CaptureSourceKind::SystemAudio)
            <==> config_str_spec(s.config@, "channel"@) == Some("system"@)),
        s.kind == SceneSourceKind::AudioMeter ==> (scene_capture_kind(s) == Some(CaptureSourceKind::Microphone)
            <==> config_str_spec(s.config@, "channel"@) != Some("system"@)),
        s.kind == SceneSourceKind::Display ==> scene_capture_kind(s) == Some(CaptureSourceKind::Display),
        s.kind == SceneSourceKind::Window ==> scene_capture_kind(s) == Some(CaptureSourceKind::Window),
        s.kind == SceneSourceKind::Camera ==> scene_capture_kind(s) == Some(CaptureSourceKind::Camera),
        s.kind != SceneSourceKind::AudioMeter && s.kind != SceneSourceKind::Display && s.kind != SceneSourceKind::Window
            && s.kind != SceneSourceKind::Camera ==> scene_capture_kind(s) is None,
{
}

pub open spec fn media_kind_of(k: CaptureSourceKind) -> CaptureFrameMediaKind {
    match k {
        CaptureSourceKind::Display | CaptureSourceKind::Window | CaptureSourceKind::Camera => CaptureFrameMediaKind::Video,
        _ => CaptureFrameMediaKind::Audio,
    }
}

pub open spec fn fit_u32(v: Option<u64>) -> Option<u32> {
    match v {
        Some(n) => if n <= u32::MAX {
            Some(n as u32)
        } else {
            None
        },
        None => None,
    }
}

pub open spec fn fit_u16(v: Option<u64>) -> Option<u16> {
    match v {
        Some(n) => if n <= u16::MAX {
            Some(n as u16)
        } else {
            None
        },
        None => None,
    }
}

pub open spec fn or_u32(v: Option<u32>, d: u32) -> u32 {
    match v {
        Some(n) => n,
        None => d,
    }
}

pub open spec fn or_u16(v: Option<u16>, d: u16) -> u16 {
    match v {
        Some(n) => n,
        None => d,
    }
}

pub open spec fn source_video_width(s: SceneSource) -> u32 {
    or_u32(fit_u32(nested_u64_spec(s.config@, "resolution"@, "width"@)), s.rounded_width)
}

pub open spec fn source_video_height(s: SceneSource) -> u32 {
    or_u32(fit_u32(nested_u64_spec(s.config@, "resolution"@, "height"@)), s.rounded_height)
}

pub open spec fn source_framerate(s: SceneSource) -> u32 {
    or_u32(fit_u32(config_u64_spec(s.config@, "framerate"@)), 60)
}

pub open spec fn source_sample_rate(s: SceneSource) -> u32 {
    or_u32(fit_u32(config_u64_spec(s.config@, "sample_rate"@)), 48_000)
}

pub open spec fn source_channels(s: SceneSource) -> u16 {
    or_u16(fit_u16(config_u64_spec(s.config@, "channels"@)), 2)
}

/// The availability state named in the source's configuration.
pub open spec fn availability_status(s: SceneSource) -> CaptureFrameBindingStatus {
    let state = nested_str_spec(s.config@, "availability"@, "state"@);
    if state == Some("available"@) {
        CaptureFrameBindingStatus::Ready
    } else if state == Some("permission_required"@) {
        CaptureFrameBindingStatus::PermissionRequired
    } else if state == Some("unavailable"@) {
        CaptureFrameBindingStatus::Unavailable
    } else {
        CaptureFrameBindingStatus::Placeholder
    }
}

pub open spec fn binding_status_of(s: SceneSource) -> CaptureFrameBindingStatus {
    if s.capture_source_id is None {
        CaptureFrameBindingStatus::Placeholder
    } else if entry_lookup(s.config@, "availability"@) is None {
        CaptureFrameBindingStatus::Ready
    } else {
        availability_status(s)
    }
}

pub open spec fn binding_detail_of(s: SceneSource) -> Seq<char> {
    if s.capture_source_id is None {
        "No capture source has been assigned."@
    } else if entry_lookup(s.config@, "availability"@) is None {
        "Capture source is configured."@
    } else {
        match nested_str_spec(s.config@, "availability"@, "detail"@) {
            Some(d) => d,
            None => "Capture availability has not been checked."@,
        }
    }
}

pub open spec fn opt_view(o: Option<String>) -> Option<Seq<char>> {
    match o {
        Some(s) => Some(s@),
        None => None,
    }
}

/// The binding is the one that the source describes.
pub open spec fn binding_describes(b: CaptureFrameBinding, s: SceneSource) -> bool {
    let kind = scene_capture_kind(s)->0;
    let media = media_kind_of(kind);
    let video = media == CaptureFrameMediaKind::Video;
    &&& scene_capture_kind(s) is Some
    &&& b.scene_source_id@ == s.id@
    &&& b.scene_source_name@ == s.name@
    &&& opt_view(b.capture_source_id) == opt_view(s.capture_source_id)
    &&& b.capture_kind == kind
    &&& b.media_kind == media
    &&& b.width == (if video { Some(source_video_width(s)) } else { None })
    &&& b.height == (if video { Some(source_video_height(s)) } else { None })
    &&& b.framerate == (if video { Some(source_framerate(s)) } else { None })
    &&& b.sample_rate == (if video { None } else { Some(source_sample_rate(s)) })
    &&& b.channels == (if video { None } else { Some(source_channels(s)) })
    &&& b.format == (if video { CaptureFrameFormat::Bgra8 } else { CaptureFrameFormat::PcmF32 })
    &&& b.status == binding_status_of(s)
    &&& b.status_detail@ == binding_detail_of(s)
    &&& b.transport == (if b.status == CaptureFrameBindingStatus::Ready {
        CaptureFrameTransport::SharedMemory
    } else {
        CaptureFrameTransport::Unavailable
    })
}

/// The visible, capture-backed sources of a scene, in order.
pub open spec fn capture_backed(ss: Seq<SceneSource>) -> Seq<SceneSource>
    decreases ss.len(),
{
    if ss.len() == 0 {
        seq![]
    } else {
        let rest = capture_backed(ss.drop_last());
        if ss.last().visible && scene_capture_kind(ss.last()) is Some {
            rest.push(ss.last())
        } else {
            rest
        }
    }
}

fn capture_kind_exec(s: &SceneSource) -> (r: Option<CaptureSourceKind>)
    ensures
        r == scene_capture_kind(*s),
{
    match s.kind {
        SceneSourceKind::Display => Some(CaptureSourceKind::Display),
        SceneSourceKind::Window => Some(CaptureSourceKind::Window),
        SceneSourceKind::Camera => Some(CaptureSourceKind::Camera),
        SceneSourceKind::AudioMeter => {
            let system = match config_str(&s.config, "channel") {
                Some(c) => str_eq(c.as_str(), "system"),
                None => false,
            };
            if system {
                Some(CaptureSourceKind::SystemAudio)
            } else {
                Some(CaptureSourceKind::Microphone)
            }
        },
        _ => None,
    }
}

fn fit_u32_exec(v: Option<u64>) -> (r: Option<u32>)
    ensures
        r == fit_u32(v),
{
    match v {
        Some(n) => if n <= u32::MAX as u64 {
            Some(n as u32)
        } else {
            None
        },
        None => None,
    }
}

fn fit_u16_exec(v: Option<u64>) -> (r: Option<u16>)
    ensures
        r == fit_u16(v),
{
    match v {
        Some(n) => if n <= u16::MAX as u64 {
            Some(n as u16)
        } else {
            None
        },
        None => None,
    }
}

fn binding_status_exec(s: &SceneSource) -> (r: (CaptureFrameBindingStatus, String))
    ensures
        r.0 == binding_status_of(*s),
        r.1@ == binding_detail_of(*s),
{
    if s.capture_source_id.is_none() {
        return (CaptureFrameBindingStatus::Placeholder, String::from_str("No capture source has been assigned."));
    }
    match crate::scene::config_get(&s.config, "availability") {
        None => (CaptureFrameBindingStatus::Ready, String::from_str("Capture source is configured.")),
        Some(_) => {
            let detail = match nested_str(&s.config, "availability", "detail") {
                Some(d) => d,
                None => String::from_str("Capture availability has not been checked."),
            };
            let status = match nested_str(&s.config, "availability", "state") {
                Some(state) => if str_eq(state.as_str(), "available") {
                    CaptureFrameBindingStatus::Ready
                } else if str_eq(state.as_str(), "permission_required") {
                    CaptureFrameBindingStatus::PermissionRequired
                } else if str_eq(state.as_str(), "unavailable") {
                    CaptureFrameBindingStatus::Unavailable
                } else {
                    CaptureFrameBindingStatus::Placeholder
                },
                None => CaptureFrameBindingStatus::Placeholder,
            };
            (status, detail)
        },
    }
}

/// The capture frame binding of a scene source, when the source is capture-backed.
pub fn capture_frame_binding(s: &SceneSource) -> (r: Option<CaptureFrameBinding>)
    ensures
        match r {
            Some(b) => binding_describes(b, *s),
            None => scene_capture_kind(*s) is None,
        },
{
    let kind = match capture_kind_exec(s) {
        Some(k) => k,
        None => return None,
    };
    let video = match kind {
        CaptureSourceKind::Display | CaptureSourceKind::Window | CaptureSourceKind::Camera => true,
        _ => false,
    };
    let media_kind = if video {
        CaptureFrameMediaKind::Video
    } else {
        CaptureFrameMediaKind::Audio
    };
    let width = match fit_u32_exec(nested_u64(&s.config, "resolution", "width")) {
        Some(w) => w,
        None => s.rounded_width,
    };
    let height = match fit_u32_exec(nested_u64(&s.config, "resolution", "height")) {
        Some(h) => h,
        None => s.rounded_height,
    };
    let framerate = match fit_u32_exec(config_u64(&s.config, "framerate")) {
        Some(f) => f,
        None => 60,
    };
    let sample_rate = match fit_u32_exec(config_u64(&s.config, "sample_rate")) {
        Some(f) => f,
        None => 48_000,
    };
    let channels = match fit_u16_exec(config_u64(&s.config, "channels")) {
        Some(c) => c,
        None => 2,
    };
    let (status, status_detail) = binding_status_exec(s);
    let ready = match status {
        CaptureFrameBindingStatus::Ready => true,
        _ => false,
    };
    Some(CaptureFrameBinding {
        scene_source_id: s.id.clone(),
        scene_source_name: s.name.clone(),
        capture_source_id: s.capture_source_id.clone(),
        capture_kind: kind,
        media_kind,
        width: if video { Some(width) } else { None },
        height: if video { Some(height) } else { None },
        framerate: if video { Some(framerate) } else { None },
        sample_rate: if video { None } else { Some(sample_rate) },
        channels: if video { None } else { Some(channels) },
        format: if video { CaptureFrameFormat::Bgra8 } else { CaptureFrameFormat::PcmF32 },
        transport: if ready { CaptureFrameTransport::SharedMemory } else { CaptureFrameTransport::Unavailable },
        status,
        status_detail,
    })
}

/// The bindings are those of the scene's visible capture-backed sources, in order.
pub open spec fn bindings_of_scene(bs: Seq<CaptureFrameBinding>, scene: Scene) -> bool {
    let srcs = capture_backed(scene.sources@);
    &&& bs.len() == srcs.len()
    &&& forall|i: int| 0 <= i < bs.len() ==> binding_describes(#[trigger] bs[i], srcs[i])
}

/// The capture plan of a scene: one binding per capture-backed source, checked.
pub open spec fn capture_plan_built(r: CaptureFramePlan, scene: Scene) -> bool {
    &&& r.version == 1
    &&& r.scene_id@ == scene.id@
    &&& r.scene_name@ == scene.name@
    &&& bindings_of_scene(r.bindings@, scene)
    &&& views(r.validation.errors@) == capture_plan_errors(r)
    &&& views(r.validation.warnings@) == capture_plan_warnings(r)
    &&& r.validation.ready == (r.validation.errors@.len() == 0)
}

/// The capture frame plan of a scene, validated.
pub fn build_capture_frame_plan(scene: &Scene) -> (r: CaptureFramePlan)
    ensures
        capture_plan_built(r, *scene),
{
    let mut bindings: Vec<CaptureFrameBinding> = Vec::new();
    let mut i: usize = 0;
    while i < scene.sources.len()
        invariant
            i <= scene.sources@.len(),
            bindings@.len() == capture_backed(scene.sources@.subrange(0, i as int)).len(),
            forall|j: int| 0 <= j < bindings@.len() ==> binding_describes(#[trigger] bindings@[j],
                capture_backed(scene.sources@.subrange(0, i as int))[j]),
        decreases scene.sources@.len() - i,
    {
        let s = &scene.sources[i];
        let ghost prev = capture_backed(scene.sources@.subrange(0, i as int));
        assert(scene.sources@.subrange(0, i + 1 as int).drop_last() =~= scene.sources@.subrange(0, i as int));
        if s.visible {
            match capture_frame_binding(s) {
                Some(b) => {
                    bindings.push(b);
                },
                None => {},
            }
        }
        i = i + 1;
    }
    assert(scene.sources@.subrange(0, scene.sources@.len() as int) =~= scene.sources@);
    let mut plan = CaptureFramePlan {
        version: 1,
        scene_id: scene.id.clone(),
        scene_name: scene.name.clone(),
        bindings,
        validation: CaptureFrameValidation { ready: true, warnings: Vec::new(), errors: Vec::new() },
    };
    plan.validation = validate_capture_frame_plan(&plan);
    plan
}

} // verus!

verus! {

/// A capture provider that produces deterministic test frames for a binding.
#[derive(Clone, Debug)]
pub struct MockCaptureProvider {
    binding: CaptureFrameBinding,
    frame_index: u64,
    dropped_frames: u64,
}

/// The seed of a capture kind in the mock provider's green channel.
pub open spec fn kind_seed(k: CaptureSourceKind) -> u64 {
    match k {
        CaptureSourceKind::Display => 23,
        CaptureSourceKind::Window => 53,
        CaptureSourceKind::Camera => 83,
        _ => 113,
    }
}

/// Byte `k` of a mock video frame of the given width: pixels run row by row, four
/// bytes each (red from the column and frame index, green from the row and the kind
/// seed, blue from both coordinates and the id's UTF-8 byte length, opaque alpha).
pub open spec fn mock_frame_byte(width: nat, frame_index: nat, seed: nat, id_len: nat, k: nat) -> u8 {
    let p = k / 4;
    let x = p % width;
    let y = p / width;
    let c = k % 4;
    if c == 0 {
        ((x + frame_index) % 256) as u8
    } else if c == 1 {
        ((y + seed) % 256) as u8
    } else if c == 2 {
        ((x + y + id_len) % 256) as u8
    } else {
        255u8
    }
}

pub open spec fn nonzero_or(v: Option<u32>, d: u32) -> u32 {
    let n = or_u32(v, d);
    if n == 0 {
        1
    } else {
        n
    }
}

/// Nanoseconds per video frame at the binding's frame rate (60 when unset).
pub open spec fn frame_duration(b: CaptureFrameBinding) -> u64 {
    (1_000_000_000int / (nonzero_or(b.framerate, 60) as int)) as u64
}

/// Nanoseconds that `frames` samples last at the binding's sample rate (48 kHz when unset).
pub open spec fn audio_duration(b: CaptureFrameBinding, frames: u32) -> u64 {
    ((frames as int * 1_000_000_000int) / (nonzero_or(b.sample_rate, 48_000) as int)) as u64
}

pub open spec fn lifecycle_of(s: CaptureFrameBindingStatus) -> CaptureProviderLifecycleState {
    match s {
        CaptureFrameBindingStatus::Ready => CaptureProviderLifecycleState::Running,
        CaptureFrameBindingStatus::Placeholder => CaptureProviderLifecycleState::Idle,
        CaptureFrameBindingStatus::PermissionRequired => CaptureProviderLifecycleState::Idle,
        CaptureFrameBindingStatus::Unavailable => CaptureProviderLifecycleState::Error,
    }
}

/// A mock frame of the binding fits in memory and its arithmetic does not overflow.
pub open spec fn mock_frame_fits(b: CaptureFrameBinding, frame_index: u64) -> bool {
    let w = nonzero_or(b.width, 1) as int;
    let h = nonzero_or(b.height, 1) as int;
    &&& w * h * 4 <= usize::MAX
    &&& w + h <= u32::MAX + 2
    &&& frame_index + w <= u64::MAX
    &&& frame_index * frame_duration(b) <= u64::MAX
    &&& vstd::utf8::encode_utf8(b.scene_source_id@).len() + w + h <= u64::MAX
    &&& vstd::utf8::encode_utf8(b.scene_source_id@).len() <= usize::MAX
}

impl MockCaptureProvider {
    pub closed spec fn binding(self) -> CaptureFrameBinding {
        self.binding
    }

    pub closed spec fn frame_index(self) -> u64 {
        self.frame_index
    }

    pub closed spec fn dropped_frames(self) -> u64 {
        self.dropped_frames
    }

    pub fn new(binding: CaptureFrameBinding) -> (r: MockCaptureProvider)
        ensures
            r.binding() == binding,
            r.frame_index() == 0,
            r.dropped_frames() == 0,
    {
        MockCaptureProvider { binding, frame_index: 0, dropped_frames: 0 }
    }

    fn provider_id(&self) -> (r: String)
        ensures
            r@ == "provider:"@ + self.binding().scene_source_id@,
    {
        cat2("provider:", self.binding.scene_source_id.as_str())
    }

    fn ready(&self) -> (r: bool)
        ensures
            r == (self.binding().status == CaptureFrameBindingStatus::Ready),
    {
        match self.binding.status {
            CaptureFrameBindingStatus::Ready => true,
            _ => false,
        }
    }

    fn lifecycle(&self) -> (r: CaptureProviderLifecycleState)
        ensures
            r == lifecycle_of(self.binding().status),
    {
        match self.binding.status {
            CaptureFrameBindingStatus::Ready => CaptureProviderLifecycleState::Running,
            CaptureFrameBindingStatus::Placeholder => CaptureProviderLifecycleState::Idle,
            CaptureFrameBindingStatus::PermissionRequired => CaptureProviderLifecycleState::Idle,
            CaptureFrameBindingStatus::Unavailable => CaptureProviderLifecycleState::Error,
        }
    }

    fn frame_duration_nanos(&self) -> (r: u64)
        ensures
            r == frame_duration(self.binding()),
    {
        let framerate = match self.binding.framerate {
            Some(f) => f,
            None => 60,
        };
        let framerate = if framerate == 0 { 1 } else { framerate };
        1_000_000_000u64 / (framerate as u64)
    }

    /// Nanoseconds that `sample_frames` samples last at the binding's sample rate.
    pub fn audio_duration_nanos(&self, sample_frames: u32) -> (r: u64)
        ensures
            r == audio_duration(self.binding(), sample_frames),
    {
        let sample_rate = match self.binding.sample_rate {
            Some(f) => f,
            None => 48_000,
        };
        let sample_rate = if sample_rate == 0 { 1 } else { sample_rate };
        assert(sample_frames as u64 * 1_000_000_000u64 <= u64::MAX) by (nonlinear_arith)
            requires sample_frames <= u32::MAX;
        (sample_frames as u64 * 1_000_000_000u64) / (sample_rate as u64)
    }

    /// The provider's state: the binding's shape and status, running when the binding
    /// is ready, with zero latency then.
    pub fn status(&self) -> (r: CaptureProviderStatus)
        ensures
            r.provider_id@ == "provider:"@ + self.binding().scene_source_id@,
            r.scene_source_id@ == self.binding().scene_source_id@,
            r.scene_source_name@ == self.binding().scene_source_name@,
            opt_view(r.capture_source_id) == opt_view(self.binding().capture_source_id),
            r.capture_kind == self.binding().capture_kind,
            r.media_kind == self.binding().media_kind,
            r.lifecycle == lifecycle_of(self.binding().status),
            r.binding_status == self.binding().status,
            r.status_detail@ == (if self.binding().status == CaptureFrameBindingStatus::Ready {
                "Mock capture provider is producing deterministic test frames."@
            } else {
                self.binding().status_detail@
            }),
            r.width == self.binding().width,
            r.height == self.binding().height,
            r.framerate == self.binding().framerate,
            r.sample_rate == self.binding().sample_rate,
            r.channels == self.binding().channels,
            r.format == self.binding().format,
            r.frame_index == self.frame_index(),
            r.dropped_frames == self.dropped_frames(),
            r.latency_ms == (if self.binding().status == CaptureFrameBindingStatus::Ready {
                Some(0u64)
            } else {
                None
            }),
    {
        let ready = self.ready();
        CaptureProviderStatus {
            provider_id: self.provider_id(),
            scene_source_id: self.binding.scene_source_id.clone(),
            scene_source_name: self.binding.scene_source_name.clone(),
            capture_source_id: self.binding.capture_source_id.clone(),
            capture_kind: self.binding.capture_kind,
            media_kind: self.binding.media_kind,
            lifecycle: self.lifecycle(),
            binding_status: self.binding.status,
            status_detail: if ready {
                String::from_str("Mock capture provider is producing deterministic test frames.")
            } else {
                self.binding.status_detail.clone()
            },
            width: self.binding.width,
            height: self.binding.height,
            framerate: self.binding.framerate,
            sample_rate: self.binding.sample_rate,
            channels: self.binding.channels,
            format: self.binding.format,
            frame_index: self.frame_index,
            dropped_frames: self.dropped_frames,
            latency_ms: if ready { Some(0) } else { None },
        }
    }

    /// The next deterministic video frame, when the binding is a ready video binding;
    /// producing one advances the frame index.
    pub fn next_video_frame(&mut self) -> (r: Option<CaptureVideoFramePacket>)
        requires
            mock_frame_fits(old(self).binding(), old(self).frame_index()),
        ensures
            final(self).binding() == old(self).binding(),
            final(self).dropped_frames() == old(self).dropped_frames(),
            r is None ==> !(old(self).binding().status == CaptureFrameBindingStatus::Ready
                && old(self).binding().media_kind == CaptureFrameMediaKind::Video)
                && final(self).frame_index() == old(self).frame_index(),
            match r {
                None => true,
                Some(p) => {
                    let b = old(self).binding();
                    let w = nonzero_or(b.width, 1);
                    let h = nonzero_or(b.height, 1);
                    &&& b.status == CaptureFrameBindingStatus::Ready
                    &&& b.media_kind == CaptureFrameMediaKind::Video
                    &&& final(self).frame_index() == old(self).frame_index() + 1
                    &&& p.provider_id@ == "provider:"@ + b.scene_source_id@
                    &&& p.scene_source_id@ == b.scene_source_id@
                    &&& opt_view(p.capture_source_id) == opt_view(b.capture_source_id)
                    &&& p.frame_index == old(self).frame_index()
                    &&& p.width == w
                    &&& p.height == h
                    &&& p.format == b.format
                    &&& p.duration_nanos == frame_duration(b)
                    &&& p.pts_nanos == old(self).frame_index() * frame_duration(b)
                    &&& p.pixels@.len() == w * h * 4
                    &&& forall|k: int| 0 <= k < p.pixels@.len() ==> #[trigger] p.pixels@[k]
                        == mock_frame_byte(w as nat, old(self).frame_index() as nat,
                            kind_seed(b.capture_kind) as nat, vstd::utf8::encode_utf8(b.scene_source_id@).len(), k as nat)
                },
            },
    {
        let is_video = match self.binding.media_kind {
            CaptureFrameMediaKind::Video => true,
            _ => false,
        };
        if !self.ready() || !is_video {
            return None;
        }
        let width = match self.binding.width {
            Some(v) => v,
            None => 1,
        };
        let width = if width == 0 { 1 } else { width };
        let height = match self.binding.height {
            Some(v) => v,
            None => 1,
        };
        let height = if height == 0 { 1 } else { height };
        let frame_index = self.frame_index;
        let seed: u64 = match self.binding.capture_kind {
            CaptureSourceKind::Display => 23,
            CaptureSourceKind::Window => 53,
            CaptureSourceKind::Camera => 83,
            _ => 113,
        };
        let id_str = self.binding.scene_source_id.as_str();
        let id_len = id_str.len();
        assert(id_str.spec_bytes() == vstd::utf8::encode_utf8(id_str@));
        let count: usize = (width as usize) * (height as usize);
        let mut pixels: Vec<u8> = Vec::new();
        let mut p: usize = 0;
        while p < count
            invariant
                count == width as int * height as int,
                count * 4 <= usize::MAX,
                width >= 1,
                width as int + height as int <= u32::MAX + 2,
                frame_index as int + width as int <= u64::MAX,
                seed <= 113,
                id_len as int + width as int + height as int <= u64::MAX,
                p <= count,
                pixels@.len() == p * 4,
                forall|k: int| 0 <= k < pixels@.len() ==> #[trigger] pixels@[k]
                    == mock_frame_byte(width as nat, frame_index as nat, seed as nat, id_len as nat, k as nat),
            decreases count - p,
        {
            let x = (p % (width as usize)) as u64;
            let y = (p / (width as usize)) as u64;
            proof {
                assert(y < height) by (nonlinear_arith)
                    requires (p as int) < (count as int), count as int == width as int * height as int, width >= 1, y as int == (p as int) / (width as int);
            }
            assert(y < height as u64);
            assert(x < width as u64);
            let k0 = p * 4;
            pixels.push(((x + frame_index) % 256) as u8);
            pixels.push(((y + seed) % 256) as u8);
            pixels.push(((x + y + id_len as u64) % 256) as u8);
            pixels.push(255u8);
            proof {
                assert forall|k: int| 0 <= k < pixels@.len() implies #[trigger] pixels@[k]
                    == mock_frame_byte(width as nat, frame_index as nat, seed as nat, id_len as nat, k as nat) by {
                    if k >= k0 {
                        assert(k / 4 == p);
                    }
                }
            }
            p = p + 1;
        }
        let duration = self.frame_duration_nanos();
        assert(pixels@.len() == width as int * height as int * 4);
        assert(id_len == vstd::utf8::encode_utf8(self.binding.scene_source_id@).len());
        assert(seed == kind_seed(self.binding.capture_kind));
        self.frame_index = self.frame_index + 1;
        Some(CaptureVideoFramePacket {
            provider_id: cat2("provider:", self.binding.scene_source_id.as_str()),
            scene_source_id: self.binding.scene_source_id.clone(),
            capture_source_id: self.binding.capture_source_id.clone(),
            frame_index,
            width,
            height,
            format: self.binding.format,
            pts_nanos: frame_index * duration,
            duration_nanos: duration,
            pixels,
        })
    }
}

} // verus!

verus! {

/// The status that a fresh mock provider reports for the binding.
pub open spec fn fresh_provider_status(r: CaptureProviderStatus, b: CaptureFrameBinding) -> bool {
    let ready = b.status == CaptureFrameBindingStatus::Ready;
    &&& r.provider_id@ == "provider:"@ + b.scene_source_id@
    &&& r.scene_source_id@ == b.scene_source_id@
    &&& r.scene_source_name@ == b.scene_source_name@
    &&& opt_view(r.capture_source_id) == opt_view(b.capture_source_id)
    &&& r.capture_kind == b.capture_kind
    &&& r.media_kind == b.media_kind
    &&& r.lifecycle == lifecycle_of(b.status)
    &&& r.binding_status == b.status
    &&& r.status_detail@ == (if ready {
        "Mock capture provider is producing deterministic test frames."@
    } else {
        b.status_detail@
    })
    &&& r.width == b.width
    &&& r.height == b.height
    &&& r.framerate == b.framerate
    &&& r.sample_rate == b.sample_rate
    &&& r.channels == b.channels
    &&& r.format == b.format
    &&& r.frame_index == 0
    &&& r.dropped_frames == 0
    &&& r.latency_ms == (if ready { Some(0u64) } else { None })
}

/// The capture provider snapshot of a scene: one fresh mock provider per binding of its
/// capture frame plan, validated.
pub fn build_capture_provider_runtime_snapshot(scene: &Scene) -> (r: CaptureProviderRuntimeSnapshot)
    ensures
        r.version == 1,
        r.scene_id@ == scene.id@,
        r.scene_name@ == scene.name@,
        exists|bs: Seq<CaptureFrameBinding>| #![trigger bindings_of_scene(bs, *scene)]
            bindings_of_scene(bs, *scene) && bs.len() == r.providers@.len()
            && forall|i: int| 0 <= i < bs.len() ==> fresh_provider_status(#[trigger] r.providers@[i], bs[i]),
        views(r.validation.errors@) == provider_snapshot_errors(r),
        views(r.validation.warnings@) == provider_snapshot_warnings(r),
        r.validation.ready == (r.validation.errors@.len() == 0),
{
    let plan = build_capture_frame_plan(scene);
    let mut providers: Vec<CaptureProviderStatus> = Vec::new();
    let mut i: usize = 0;
    while i < plan.bindings.len()
        invariant
            i <= plan.bindings@.len(),
            providers@.len() == i,
            forall|j: int| 0 <= j < i ==> fresh_provider_status(#[trigger] providers@[j], plan.bindings@[j]),
        decreases plan.bindings@.len() - i,
    {
        let provider = MockCaptureProvider::new(plan.bindings[i].copy());
        providers.push(provider.status());
        i = i + 1;
    }
    let mut snapshot = CaptureProviderRuntimeSnapshot {
        version: 1,
        scene_id: scene.id.clone(),
        scene_name: scene.name.clone(),
        providers,
        validation: CaptureFrameValidation { ready: true, warnings: Vec::new(), errors: Vec::new() },
    };
    snapshot.validation = validate_capture_provider_runtime_snapshot(&snapshot);
    assert(bindings_of_scene(plan.bindings@, *scene));
    snapshot
}

} // verus!

verus! {

impl CaptureFrameBinding {
    /// A copy of the binding.
    pub fn copy(&self) -> (r: CaptureFrameBinding)
        ensures
            r == *self,
    {
        CaptureFrameBinding {
            scene_source_id: self.scene_source_id.clone(),
            scene_source_name: self.scene_source_name.clone(),
            capture_source_id: crate::text::copy_opt_string(&self.capture_source_id),
            capture_kind: self.capture_kind,
            media_kind: self.media_kind,
            width: self.width,
            height: self.height,
            framerate: self.framerate,
            sample_rate: self.sample_rate,
            channels: self.channels,
            format: self.format,
            transport: self.transport,
            status: self.status,
            status_detail: self.status_detail.clone(),
        }
    }
}

} // verus!
