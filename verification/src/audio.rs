//! The audio mixer plan and the audio graph's runtime snapshot: their checks, the
//! default buses, and the status of an audio source. Levels and gains are decibel
//! numbers that stay with the runtime; here each is held as the outcome of its
//! range check.

use vstd::prelude::*;
use crate::capture::CaptureSourceKind;
use crate::order::{lemma_lex_asymmetric, lemma_lex_irreflexive, lemma_lex_total, lemma_lex_transitive, lex_lt, str_lt};
use crate::scene::{config_get, config_str, config_str_spec, entry_lookup, nested_str, nested_str_spec, SceneSource};
use crate::text::{
    ascii_lower, blank, cat2, contains_str, has_substring, if_msg, is_blank, push_if, push_msg, quoted, str_eq,
    to_ascii_lowercase, views,
};

verus! {

#[derive(Clone, Copy, Debug, PartialEq, Eq, Structural)]
pub enum AudioMixBusKind {
    Master,
    Monitor,
    Recording,
    Stream,
}

#[derive(Clone, Copy, Debug, PartialEq, Eq, Structural)]
pub enum AudioMixSourceStatus {
    Ready,
    Placeholder,
    PermissionRequired,
    Unavailable,
}

#[derive(Clone, Copy, Debug, PartialEq, Eq, Structural)]
pub enum AudioGraphInputMode {
    Live,
    Simulated,
    Silent,
}

#[derive(Clone, Copy, Debug, PartialEq, Eq, Structural)]
pub enum AudioFilterRuntimeStatus {
    Applied,
    Skipped,
    Error,
}

/// A mix bus. `gain_in_range` records that its gain is a finite number of decibels
/// from -60 to 24.
#[derive(Clone, Debug)]
pub struct AudioMixBus {
    pub id: String,
    pub name: String,
    pub kind: AudioMixBusKind,
    pub sample_rate: u32,
    pub channels: u16,
    pub gain_in_range: bool,
    pub muted: bool,
}

/// An audio source of the mixer. `gain_in_range` records that its gain is a finite
/// number of decibels from -60 to 24.
#[derive(Clone, Debug)]
pub struct AudioMixSource {
    pub scene_source_id: String,
    pub name: String,
    pub capture_source_id: Option<String>,
    pub capture_kind: CaptureSourceKind,
    pub gain_in_range: bool,
    pub muted: bool,
    pub monitor_enabled: bool,
    pub meter_enabled: bool,
    pub sync_offset_ms: i32,
    pub status: AudioMixSourceStatus,
    pub status_detail: String,
}

#[derive(Clone, Debug)]
pub struct AudioMixerValidation {
    pub ready: bool,
    pub warnings: Vec<String>,
    pub errors: Vec<String>,
}

#[derive(Clone, Debug)]
pub struct AudioMixerPlan {
    pub version: u32,
    pub scene_id: String,
    pub scene_name: String,
    pub sample_rate: u32,
    pub channels: u16,
    pub sources: Vec<AudioMixSource>,
    pub buses: Vec<AudioMixBus>,
    pub validation: AudioMixerValidation,
}

/// A bus at 48 kHz in stereo, at unity gain and not muted.
pub fn audio_bus(id: &str, name: &str, kind: AudioMixBusKind) -> (r: AudioMixBus)
    ensures
        r.id@ == id@,
        r.name@ == name@,
        r.kind == kind,
        r.sample_rate == 48_000,
        r.channels == 2,
        r.gain_in_range,
        !r.muted,
{
    AudioMixBus {
        id: String::from_str(id),
        name: String::from_str(name),
        kind,
        sample_rate: 48_000,
        channels: 2,
        gain_in_range: true,
        muted: false,
    }
}

pub open spec fn bus_is(b: AudioMixBus, id: Seq<char>, name: Seq<char>, kind: AudioMixBusKind) -> bool {
    b.id@ == id && b.name@ == name && b.kind == kind && b.sample_rate == 48_000 && b.channels == 2 && b.gain_in_range
        && !b.muted
}

/// The master, monitor, recording and stream buses.
pub fn default_audio_buses() -> (r: Vec<AudioMixBus>)
    ensures
        r@.len() == 4,
        bus_is(r@[0], "bus-master"@, "Master"@, AudioMixBusKind::Master),
        bus_is(r@[1], "bus-monitor"@, "Monitor"@, AudioMixBusKind::Monitor),
        bus_is(r@[2], "bus-recording"@, "Recording"@, AudioMixBusKind::Recording),
        bus_is(r@[3], "bus-stream"@, "Stream"@, AudioMixBusKind::Stream),
{
    let mut r: Vec<AudioMixBus> = Vec::new();
    r.push(audio_bus("bus-master", "Master", AudioMixBusKind::Master));
    r.push(audio_bus("bus-monitor", "Monitor", AudioMixBusKind::Monitor));
    r.push(audio_bus("bus-recording", "Recording", AudioMixBusKind::Recording));
    r.push(audio_bus("bus-stream", "Stream", AudioMixBusKind::Stream));
    r
}

pub open spec fn gain_error(ok: bool, label: Seq<char>) -> Seq<Seq<char>> {
    if_msg(!ok, label + " gain must be between -60 dB and 24 dB"@)
}

pub open spec fn level_error(ok: bool, label: Seq<char>) -> Seq<Seq<char>> {
    if_msg(!ok, label + " level must be between -90 dB and 6 dB"@)
}

pub open spec fn linear_error(ok: bool, label: Seq<char>, field: Seq<char>) -> Seq<Seq<char>> {
    if_msg(!ok, label + " "@ + field + " must be between zero and one"@)
}

fn push_gain_error(errors: &mut Vec<String>, ok: bool, label: &str)
    ensures
        views(final(errors)@) == views(old(errors)@) + gain_error(ok, label@),
{
    push_if(errors, !ok, cat2(label, " gain must be between -60 dB and 24 dB"));
}

fn push_level_error(errors: &mut Vec<String>, ok: bool, label: &str)
    ensures
        views(final(errors)@) == views(old(errors)@) + level_error(ok, label@),
{
    push_if(errors, !ok, cat2(label, " level must be between -90 dB and 6 dB"));
}

fn push_linear_error(errors: &mut Vec<String>, ok: bool, label: &str, field: &str)
    ensures
        views(final(errors)@) == views(old(errors)@) + linear_error(ok, label@, field@),
{
    let mut m = quoted(label, " ", field);
    m.append(" must be between zero and one");
    push_if(errors, !ok, m);
}

// ---------------------------------------------------------------------------------
// The mixer plan

pub open spec fn mix_source_errors(s: AudioMixSource) -> Seq<Seq<char>> {
    if_msg(blank(s.scene_source_id@), "audio mix source scene source id is required"@)
        + if_msg(blank(s.name@), "audio mix source \""@ + s.scene_source_id@ + "\" name is required"@)
        + gain_error(s.gain_in_range, s.name@)
}

pub open spec fn mix_source_warnings(s: AudioMixSource) -> Seq<Seq<char>> {
    match s.status {
        AudioMixSourceStatus::Ready => seq![],
        AudioMixSourceStatus::Placeholder => seq![s.name@ + " is waiting for an audio input: "@ + s.status_detail@],
        AudioMixSourceStatus::PermissionRequired => seq![s.name@ + " requires audio permission: "@ + s.status_detail@],
        AudioMixSourceStatus::Unavailable => seq![s.name@ + " audio is unavailable: "@ + s.status_detail@],
    }
}

pub open spec fn bus_errors(b: AudioMixBus) -> Seq<Seq<char>> {
    if_msg(blank(b.id@), "audio mix bus id is required"@)
        + if_msg(blank(b.name@), "audio mix bus \""@ + b.id@ + "\" name is required"@)
        + if_msg(b.sample_rate == 0, "audio mix bus \""@ + b.id@ + "\" sample rate is required"@)
        + if_msg(b.channels == 0, "audio mix bus \""@ + b.id@ + "\" channels are required"@)
        + gain_error(b.gain_in_range, b.name@)
}

pub open spec fn all_mix_source_errors(ss: Seq<AudioMixSource>) -> Seq<Seq<char>>
    decreases ss.len(),
{
    if ss.len() == 0 { seq![] } else { all_mix_source_errors(ss.drop_last()) + mix_source_errors(ss.last()) }
}

pub open spec fn all_mix_source_warnings(ss: Seq<AudioMixSource>) -> Seq<Seq<char>>
    decreases ss.len(),
{
    if ss.len() == 0 { seq![] } else { all_mix_source_warnings(ss.drop_last()) + mix_source_warnings(ss.last()) }
}

pub open spec fn all_bus_errors(bs: Seq<AudioMixBus>) -> Seq<Seq<char>>
    decreases bs.len(),
{
    if bs.len() == 0 { seq![] } else { all_bus_errors(bs.drop_last()) + bus_errors(bs.last()) }
}

pub open spec fn has_master(bs: Seq<AudioMixBus>) -> bool {
    exists|i: int| 0 <= i < bs.len() && (#[trigger] bs[i]).kind == AudioMixBusKind::Master
}

/// The errors that `validate_audio_mixer_plan` reports, in order.
pub open spec fn mixer_errors(p: AudioMixerPlan) -> Seq<Seq<char>> {
    if_msg(p.version == 0, "audio mixer plan version must be greater than zero"@)
        + if_msg(blank(p.scene_id@), "audio mixer plan scene id is required"@)
        + if_msg(blank(p.scene_name@), "audio mixer plan scene name is required"@)
        + if_msg(p.sample_rate == 0, "audio mixer sample rate must be greater than zero"@)
        + if_msg(p.channels == 0, "audio mixer channels must be greater than zero"@)
        + if_msg(!has_master(p.buses@), "audio mixer requires a master bus"@)
        + all_mix_source_errors(p.sources@)
        + all_bus_errors(p.buses@)
}

/// The warnings that `validate_audio_mixer_plan` reports, in order.
pub open spec fn mixer_warnings(p: AudioMixerPlan) -> Seq<Seq<char>> {
    if_msg(p.sources@.len() == 0, "audio mixer has no audio scene sources"@) + all_mix_source_warnings(p.sources@)
}

fn has_master_exec(bs: &Vec<AudioMixBus>) -> (r: bool)
    ensures
        r == has_master(bs@),
{
    let mut i: usize = 0;
    while i < bs.len()
        invariant
            i <= bs@.len(),
            forall|k: int| 0 <= k < i ==> (#[trigger] bs@[k]).kind != AudioMixBusKind::Master,
        decreases bs@.len() - i,
    {
        if bs[i].kind == AudioMixBusKind::Master {
            return true;
        }
        i = i + 1;
    }
    false
}

fn mix_source_checks(s: &AudioMixSource, warnings: &mut Vec<String>, errors: &mut Vec<String>)
    ensures
        views(final(errors)@) == views(old(errors)@) + mix_source_errors(*s),
        views(final(warnings)@) == views(old(warnings)@) + mix_source_warnings(*s),
{
    push_if(errors, is_blank(s.scene_source_id.as_str()), String::from_str("audio mix source scene source id is required"));
    push_if(errors, is_blank(s.name.as_str()),
        quoted("audio mix source \"", s.scene_source_id.as_str(), "\" name is required"));
    push_gain_error(errors, s.gain_in_range, s.name.as_str());
    assert(views(errors@) =~= views(old(errors)@) + mix_source_errors(*s));
    let name = s.name.as_str();
    let detail = s.status_detail.as_str();
    match s.status {
        AudioMixSourceStatus::Ready => {},
        AudioMixSourceStatus::Placeholder => push_msg(warnings, quoted(name, " is waiting for an audio input: ", detail)),
        AudioMixSourceStatus::PermissionRequired => push_msg(warnings, quoted(name, " requires audio permission: ", detail)),
        AudioMixSourceStatus::Unavailable => push_msg(warnings, quoted(name, " audio is unavailable: ", detail)),
    }
    assert(views(warnings@) =~= views(old(warnings)@) + mix_source_warnings(*s));
}

fn bus_checks(b: &AudioMixBus, errors: &mut Vec<String>)
    ensures
        views(final(errors)@) == views(old(errors)@) + bus_errors(*b),
{
    let id = b.id.as_str();
    push_if(errors, is_blank(id), String::from_str("audio mix bus id is required"));
    push_if(errors, is_blank(b.name.as_str()), quoted("audio mix bus \"", id, "\" name is required"));
    push_if(errors, b.sample_rate == 0, quoted("audio mix bus \"", id, "\" sample rate is required"));
    push_if(errors, b.channels == 0, quoted("audio mix bus \"", id, "\" channels are required"));
    push_gain_error(errors, b.gain_in_range, b.name.as_str());
    assert(views(errors@) =~= views(old(errors)@) + bus_errors(*b));
}

/// Checks a mixer plan: its header, that it has a master bus, each source's identity,
/// name, gain and status, and each bus's identity, format and gain.
pub fn validate_audio_mixer_plan(plan: &AudioMixerPlan) -> (r: AudioMixerValidation)
    ensures
        views(r.errors@) == mixer_errors(*plan),
        views(r.warnings@) == mixer_warnings(*plan),
        r.ready == (r.errors@.len() == 0),
{
    let mut warnings: Vec<String> = Vec::new();
    let mut errors: Vec<String> = Vec::new();
    assert(views(errors@) =~= Seq::<Seq<char>>::empty());
    assert(views(warnings@) =~= Seq::<Seq<char>>::empty());
    push_if(&mut errors, plan.version == 0, String::from_str("audio mixer plan version must be greater than zero"));
    push_if(&mut errors, is_blank(plan.scene_id.as_str()), String::from_str("audio mixer plan scene id is required"));
    push_if(&mut errors, is_blank(plan.scene_name.as_str()), String::from_str("audio mixer plan scene name is required"));
    push_if(&mut errors, plan.sample_rate == 0, String::from_str("audio mixer sample rate must be greater than zero"));
    push_if(&mut errors, plan.channels == 0, String::from_str("audio mixer channels must be greater than zero"));
    push_if(&mut warnings, plan.sources.len() == 0, String::from_str("audio mixer has no audio scene sources"));
    push_if(&mut errors, !has_master_exec(&plan.buses), String::from_str("audio mixer requires a master bus"));
    let ghost e0 = views(errors@);
    let ghost w0 = views(warnings@);
    let ss = &plan.sources;
    let mut i: usize = 0;
    while i < ss.len()
        invariant
            ss == &plan.sources,
            i <= ss@.len(),
            views(errors@) == e0 + all_mix_source_errors(ss@.subrange(0, i as int)),
            views(warnings@) == w0 + all_mix_source_warnings(ss@.subrange(0, i as int)),
        decreases ss@.len() - i,
    {
        assert(ss@.subrange(0, i + 1 as int).drop_last() =~= ss@.subrange(0, i as int));
        mix_source_checks(&ss[i], &mut warnings, &mut errors);
        i = i + 1;
        assert(views(errors@) =~= e0 + all_mix_source_errors(ss@.subrange(0, i as int)));
        assert(views(warnings@) =~= w0 + all_mix_source_warnings(ss@.subrange(0, i as int)));
    }
    assert(ss@.subrange(0, ss@.len() as int) =~= ss@);
    let ghost e1 = views(errors@);
    let bs = &plan.buses;
    let mut j: usize = 0;
    while j < bs.len()
        invariant
            bs == &plan.buses,
            j <= bs@.len(),
            views(errors@) == e1 + all_bus_errors(bs@.subrange(0, j as int)),
        decreases bs@.len() - j,
    {
        assert(bs@.subrange(0, j + 1 as int).drop_last() =~= bs@.subrange(0, j as int));
        bus_checks(&bs[j], &mut errors);
        j = j + 1;
        assert(views(errors@) =~= e1 + all_bus_errors(bs@.subrange(0, j as int)));
    }
    assert(bs@.subrange(0, bs@.len() as int) =~= bs@);
    assert(views(errors@) =~= mixer_errors(*plan));
    assert(views(warnings@) =~= mixer_warnings(*plan));
    let ready = errors.len() == 0;
    AudioMixerValidation { ready, warnings, errors }
}

// ---------------------------------------------------------------------------------
// Audio sources

/// The status of an audio source: a placeholder without a capture source; ready
/// without an availability entry; otherwise as the entry says.
pub open spec fn audio_status_of(s: SceneSource, has_capture: bool) -> (AudioMixSourceStatus, Seq<char>) {
    if !has_capture {
        (AudioMixSourceStatus::Placeholder, "No audio capture source has been assigned."@)
    } else if entry_lookup(s.config@, "availability"@) is None {
        (AudioMixSourceStatus::Ready, "Audio capture source is configured."@)
    } else {
        let state = nested_str_spec(s.config@, "availability"@, "state"@);
        let detail = match nested_str_spec(s.config@, "availability"@, "detail"@) {
            Some(d) => d,
            None => "Audio capture availability has not been checked."@,
        };
        (if state == Some("available"@) {
            AudioMixSourceStatus::Ready
        } else if state == Some("permission_required"@) {
            AudioMixSourceStatus::PermissionRequired
        } else if state == Some("unavailable"@) {
            AudioMixSourceStatus::Unavailable
        } else {
            AudioMixSourceStatus::Placeholder
        }, detail)
    }
}

/// The status and detail of an audio source, given whether it has a capture source.
pub fn audio_source_status(source: &SceneSource, has_capture_source: bool) -> (r: (AudioMixSourceStatus, String))
    ensures
        r.0 == audio_status_of(*source, has_capture_source).0,
        r.1@ == audio_status_of(*source, has_capture_source).1,
{
    if !has_capture_source {
        return (AudioMixSourceStatus::Placeholder, String::from_str("No audio capture source has been assigned."));
    }
    if config_get(&source.config, "availability").is_none() {
        return (AudioMixSourceStatus::Ready, String::from_str("Audio capture source is configured."));
    }
    let detail = match nested_str(&source.config, "availability", "detail") {
        Some(d) => d,
        None => String::from_str("Audio capture availability has not been checked."),
    };
    let status = match nested_str(&source.config, "availability", "state") {
        Some(state) => if str_eq(state.as_str(), "available") {
            AudioMixSourceStatus::Ready
        } else if str_eq(state.as_str(), "permission_required") {
            AudioMixSourceStatus::PermissionRequired
        } else if str_eq(state.as_str(), "unavailable") {
            AudioMixSourceStatus::Unavailable
        } else {
            AudioMixSourceStatus::Placeholder
        },
        None => AudioMixSourceStatus::Placeholder,
    };
    (status, detail)
}

/// The capture kind of an audio source: system audio when its `channel` is `system`.
pub fn audio_capture_kind(source: &SceneSource) -> (r: CaptureSourceKind)
    ensures
        r == (if config_str_spec(source.config@, "channel"@) == Some("system"@) {
            CaptureSourceKind::SystemAudio
        } else {
            CaptureSourceKind::Microphone
        }),
{
    match config_str(&source.config, "channel") {
        Some(c) => if str_eq(c.as_str(), "system") {
            CaptureSourceKind::SystemAudio
        } else {
            CaptureSourceKind::Microphone
        },
        None => CaptureSourceKind::Microphone,
    }
}

/// A seed for simulated levels, folded from an identifier's bytes.
pub open spec fn audio_seed(bytes: Seq<u8>) -> u64
    decreases bytes.len(),
{
    if bytes.len() == 0 {
        17
    } else {
        ((audio_seed(bytes.drop_last()) as nat * 37 % 0x1_0000_0000_0000_0000nat + bytes.last() as nat)
            % 0x1_0000_0000_0000_0000nat) as u64
    }
}

/// The seed of a source's simulated levels.
pub fn stable_audio_seed(value: &[u8]) -> (r: u64)
    ensures
        r == audio_seed(value@),
{
    let mut hash: u64 = 17;
    let mut i: usize = 0;
    while i < value.len()
        invariant
            i <= value@.len(),
            hash == audio_seed(value@.subrange(0, i as int)),
        decreases value@.len() - i,
    {
        assert(value@.subrange(0, i + 1 as int).drop_last() =~= value@.subrange(0, i as int));
        hash = hash.wrapping_mul(37).wrapping_add(value[i] as u64);
        i = i + 1;
    }
    assert(value@.subrange(0, value@.len() as int) =~= value@);
    hash
}

/// A failure of the audio probe that names authorization, permission, privacy or a
/// denial asks for permission; any other leaves the source unavailable.
pub open spec fn probe_error_status(detail: Seq<char>) -> AudioMixSourceStatus {
    let lower = ascii_lower(detail);
    if has_substring(lower, "not authorized"@) || has_substring(lower, "permission"@) || has_substring(lower, "privacy"@)
        || has_substring(lower, "denied"@) {
        AudioMixSourceStatus::PermissionRequired
    } else {
        AudioMixSourceStatus::Unavailable
    }
}

/// The status of an audio source whose probe failed with this message.
pub fn ffmpeg_audio_error_status(detail: &str) -> (r: AudioMixSourceStatus)
    ensures
        r == probe_error_status(detail@),
{
    let lower = to_ascii_lowercase(detail);
    let l = lower.as_str();
    if contains_str(l, "not authorized") || contains_str(l, "permission") || contains_str(l, "privacy") || contains_str(
        l,
        "denied",
    ) {
        AudioMixSourceStatus::PermissionRequired
    } else {
        AudioMixSourceStatus::Unavailable
    }
}

/// The boolean stored under `key` in a source's configuration.
pub open spec fn config_bool_spec(s: SceneSource, key: Seq<char>) -> Option<bool> {
    match entry_lookup(s.config@, key) {
        Some(crate::scene::ConfigValue::Scalar(crate::scene::ConfigScalar::Bool(b))) => Some(b),
        _ => None,
    }
}

fn config_bool(source: &SceneSource, key: &str, default: bool) -> (r: bool)
    ensures
        r == (match config_bool_spec(*source, key@) {
            Some(b) => b,
            None => default,
        }),
{
    match config_get(&source.config, key) {
        Some(crate::scene::ConfigValue::Scalar(crate::scene::ConfigScalar::Bool(b))) => *b,
        _ => default,
    }
}

/// The mixer's view of an audio source.
pub open spec fn mix_source_of(m: AudioMixSource, s: SceneSource) -> bool {
    let st = audio_status_of(s, s.capture_source_id is Some);
    &&& m.scene_source_id@ == s.id@
    &&& m.name@ == s.name@
    &&& crate::api::opt_string_view(m.capture_source_id) == crate::api::opt_string_view(s.capture_source_id)
    &&& m.capture_kind == (if config_str_spec(s.config@, "channel"@) == Some("system"@) {
        CaptureSourceKind::SystemAudio
    } else {
        CaptureSourceKind::Microphone
    })
    &&& m.gain_in_range == s.audio_gain_in_range
    &&& m.muted == (match config_bool_spec(s, "muted"@) { Some(b) => b, None => false })
    &&& m.monitor_enabled == (match config_bool_spec(s, "monitor_enabled"@) { Some(b) => b, None => false })
    &&& m.meter_enabled == (match config_bool_spec(s, "meter_enabled"@) { Some(b) => b, None => true })
    &&& m.sync_offset_ms == s.audio_sync_offset_ms
    &&& m.status == st.0
    &&& m.status_detail@ == st.1
}

/// The mixer's view of an audio source.
pub fn audio_mix_source(source: &SceneSource) -> (r: AudioMixSource)
    ensures
        mix_source_of(r, *source),
{
    let (status, status_detail) = audio_source_status(source, source.capture_source_id.is_some());
    AudioMixSource {
        scene_source_id: source.id.clone(),
        name: source.name.clone(),
        capture_source_id: crate::text::copy_opt_string(&source.capture_source_id),
        capture_kind: audio_capture_kind(source),
        gain_in_range: source.audio_gain_in_range,
        muted: config_bool(source, "muted", false),
        monitor_enabled: config_bool(source, "monitor_enabled", false),
        meter_enabled: config_bool(source, "meter_enabled", true),
        sync_offset_ms: source.audio_sync_offset_ms,
        status,
        status_detail,
    }
}

/// The visible audio meters of a scene, in scene order.
pub open spec fn audio_meters(ss: Seq<SceneSource>) -> Seq<SceneSource>
    decreases ss.len(),
{
    if ss.len() == 0 {
        seq![]
    } else if ss.last().visible && ss.last().kind == crate::scene::SceneSourceKind::AudioMeter {
        audio_meters(ss.drop_last()).push(ss.last())
    } else {
        audio_meters(ss.drop_last())
    }
}

/// The mixer plan of a scene: its visible audio meters at 48 kHz in stereo, over
/// the default buses; checked.
pub open spec fn mixer_plan_of(r: AudioMixerPlan, scene: crate::scene::Scene) -> bool {
    let meters = audio_meters(scene.sources@);
    &&& r.version == 1
    &&& r.scene_id@ == scene.id@
    &&& r.scene_name@ == scene.name@
    &&& r.sample_rate == 48_000
    &&& r.channels == 2
    &&& r.sources@.len() == meters.len()
    &&& forall|i: int| 0 <= i < meters.len() ==> mix_source_of(#[trigger] r.sources@[i], meters[i])
    &&& r.buses@.len() == 4
    &&& bus_is(r.buses@[0], "bus-master"@, "Master"@, AudioMixBusKind::Master)
    &&& bus_is(r.buses@[1], "bus-monitor"@, "Monitor"@, AudioMixBusKind::Monitor)
    &&& bus_is(r.buses@[2], "bus-recording"@, "Recording"@, AudioMixBusKind::Recording)
    &&& bus_is(r.buses@[3], "bus-stream"@, "Stream"@, AudioMixBusKind::Stream)
    &&& views(r.validation.errors@) == mixer_errors(r)
    &&& views(r.validation.warnings@) == mixer_warnings(r)
    &&& r.validation.ready == (r.validation.errors@.len() == 0)
}

/// Builds the mixer plan of a scene and checks it.
pub fn build_audio_mixer_plan(scene: &crate::scene::Scene) -> (r: AudioMixerPlan)
    ensures
        mixer_plan_of(r, *scene),
{
    let ss = &scene.sources;
    let mut sources: Vec<AudioMixSource> = Vec::new();
    let mut i: usize = 0;
    while i < ss.len()
        invariant
            ss == &scene.sources,
            i <= ss@.len(),
            sources@.len() == audio_meters(ss@.subrange(0, i as int)).len(),
            forall|k: int| 0 <= k < sources@.len() ==> mix_source_of(#[trigger] sources@[k],
                audio_meters(ss@.subrange(0, i as int))[k]),
        decreases ss@.len() - i,
    {
        assert(ss@.subrange(0, i + 1 as int).drop_last() =~= ss@.subrange(0, i as int));
        let s = &ss[i];
        let is_meter = match s.kind {
            crate::scene::SceneSourceKind::AudioMeter => true,
            _ => false,
        };
        if s.visible && is_meter {
            sources.push(audio_mix_source(s));
        }
        i = i + 1;
    }
    assert(ss@.subrange(0, ss@.len() as int) =~= ss@);
    let mut plan = AudioMixerPlan {
        version: 1,
        scene_id: scene.id.clone(),
        scene_name: scene.name.clone(),
        sample_rate: 48_000,
        channels: 2,
        sources,
        buses: default_audio_buses(),
        validation: AudioMixerValidation { ready: true, warnings: Vec::new(), errors: Vec::new() },
    };
    let validation = validate_audio_mixer_plan(&plan);
    plan.validation = validation;
    plan
}

/// The message of a failed audio probe, from the text it wrote to its error stream.
pub open spec fn probe_error_detail(stderr: Seq<char>) -> Seq<char> {
    let t = crate::text::trim_spec(stderr);
    if t.len() == 0 {
        "FFmpeg audio meter preview failed. Check Microphone permission and source availability."@
    } else {
        "FFmpeg audio meter preview failed: "@ + t
    }
}

/// The message of a failed audio probe.
pub fn ffmpeg_audio_error_detail(stderr: &str) -> (r: String)
    ensures
        r@ == probe_error_detail(stderr@),
{
    let t = crate::text::trim(stderr);
    if t.unicode_len() == 0 {
        String::from_str("FFmpeg audio meter preview failed. Check Microphone permission and source availability.")
    } else {
        cat2("FFmpeg audio meter preview failed: ", t.as_str())
    }
}

/// The text after the prefix, when the text starts with it.
pub open spec fn after_prefix(s: Seq<char>, p: Seq<char>) -> Option<Seq<char>> {
    if p.len() <= s.len() && s.subrange(0, p.len() as int) == p {
        Some(s.subrange(p.len() as int, s.len() as int))
    } else {
        None
    }
}

/// The device index of an audio capture source: 0 for the default microphone or
/// system audio, else the number after `microphone:`, `system_audio:` or `system:`.
pub open spec fn audio_index_spec(id: Seq<char>) -> Option<u32> {
    if id == "microphone:default"@ || id == "system_audio:default"@ {
        Some(0)
    } else {
        let rest = match after_prefix(id, "microphone:"@) {
            Some(r) => Some(r),
            None => match after_prefix(id, "system_audio:"@) {
                Some(r) => Some(r),
                None => after_prefix(id, "system:"@),
            },
        };
        match rest {
            Some(r) => crate::text::parse_u32_spec(r),
            None => None,
        }
    }
}

fn strip_prefix_exec(s: &str, p: &str) -> (r: Option<String>)
    ensures
        match r {
            Some(t) => after_prefix(s@, p@) == Some(t@),
            None => after_prefix(s@, p@) is None,
        },
{
    if !crate::text::starts_with(s, p) {
        return None;
    }
    let cs = crate::text::chars_of(s);
    let n = p.unicode_len();
    let mut out: Vec<char> = Vec::new();
    let mut k: usize = n;
    while k < cs.len()
        invariant
            cs@ == s@,
            n == p@.len(),
            n <= k <= cs@.len(),
            out@ == s@.subrange(n as int, k as int),
        decreases cs@.len() - k,
    {
        out.push(cs[k]);
        k = k + 1;
        assert(out@ =~= s@.subrange(n as int, k as int));
    }
    Some(crate::text::string_from_chars(out.as_slice()))
}

/// The device index that an audio capture source names.
pub fn macos_audio_index_from_source_id(capture_id: &str) -> (r: Option<u32>)
    ensures
        r == audio_index_spec(capture_id@),
{
    if str_eq(capture_id, "microphone:default") || str_eq(capture_id, "system_audio:default") {
        return Some(0);
    }
    let rest = match strip_prefix_exec(capture_id, "microphone:") {
        Some(r) => Some(r),
        None => match strip_prefix_exec(capture_id, "system_audio:") {
            Some(r) => Some(r),
            None => strip_prefix_exec(capture_id, "system:"),
        },
    };
    match rest {
        Some(r) => crate::text::parse_u32(r.as_str()),
        None => None,
    }
}

// ---------------------------------------------------------------------------------
// The runtime snapshot

/// The outcome of the range checks on a runtime source's levels: each decibel level a
/// finite number from -90 to 6, each linear level a finite number from zero to one.
#[derive(Clone, Copy, Debug, PartialEq, Eq, Structural)]
pub struct AudioLevelChecks {
    pub level: bool,
    pub peak: bool,
    pub decay_level: bool,
    pub peak_hold: bool,
    pub pre_filter_level: bool,
    pub pre_filter_peak: bool,
    pub post_filter_level: bool,
    pub post_filter_peak: bool,
    pub linear_level: bool,
    pub pre_filter_linear_level: bool,
    pub post_filter_linear_level: bool,
}

/// A filter's runtime record, as the outcome of its checks: its four levels in range,
/// its level change finite, and its gain reduction and attenuation, when present,
/// finite and not negative.
#[derive(Clone, Debug)]
pub struct AudioFilterRuntimeChecks {
    pub name: String,
    pub input_level: bool,
    pub output_level: bool,
    pub input_peak: bool,
    pub output_peak: bool,
    pub level_change_finite: bool,
    pub gain_reduction_valid: bool,
    pub attenuation_valid: bool,
}

/// A runtime source, as what its checks read. `latency_valid` records that its
/// latency is a finite number of milliseconds, zero or more.
#[derive(Clone, Debug)]
pub struct AudioGraphRuntimeSource {
    pub scene_source_id: String,
    pub name: String,
    pub provider_name: String,
    pub sample_rate: u32,
    pub channels: u16,
    pub latency_valid: bool,
    pub status: AudioMixSourceStatus,
    pub status_detail: String,
    pub levels: AudioLevelChecks,
    pub filters: Vec<AudioFilterRuntimeChecks>,
}

/// A runtime bus, as what its checks read.
#[derive(Clone, Debug)]
pub struct AudioGraphRuntimeBus {
    pub name: String,
    pub source_count: u32,
    pub active_source_count: u32,
    pub level_in_range: bool,
    pub peak_in_range: bool,
    pub linear_level_in_range: bool,
}

#[derive(Clone, Debug)]
pub struct AudioGraphRuntimeValidation {
    pub ready: bool,
    pub warnings: Vec<String>,
    pub errors: Vec<String>,
}

/// A runtime snapshot, with the validation it carries so far.
#[derive(Clone, Debug)]
pub struct AudioGraphRuntimeSnapshot {
    pub version: u32,
    pub scene_id: String,
    pub scene_name: String,
    pub sample_rate: u32,
    pub channels: u16,
    pub sources: Vec<AudioGraphRuntimeSource>,
    pub buses: Vec<AudioGraphRuntimeBus>,
    pub validation: AudioGraphRuntimeValidation,
}

pub open spec fn runtime_source_seen(ss: Seq<AudioGraphRuntimeSource>, i: int) -> bool {
    exists|j: int| 0 <= j < i && (#[trigger] ss[j]).scene_source_id@ == ss[i].scene_source_id@
}

pub open spec fn four_levels(a: bool, b: bool, c: bool, d: bool, name: Seq<char>) -> Seq<Seq<char>> {
    level_error(a, name) + level_error(b, name) + level_error(c, name) + level_error(d, name)
}

pub open spec fn filter_value_errors(f: AudioFilterRuntimeChecks) -> Seq<Seq<char>> {
    if_msg(!f.level_change_finite, f.name@ + " level change must be finite"@)
        + if_msg(!f.gain_reduction_valid, f.name@ + " gain reduction must be zero or greater"@)
        + if_msg(!f.attenuation_valid, f.name@ + " attenuation must be zero or greater"@)
}

pub open spec fn filter_errors(f: AudioFilterRuntimeChecks) -> Seq<Seq<char>> {
    four_levels(f.input_level, f.output_level, f.input_peak, f.output_peak, f.name@) + filter_value_errors(f)
}

pub open spec fn all_filter_errors(fs: Seq<AudioFilterRuntimeChecks>) -> Seq<Seq<char>>
    decreases fs.len(),
{
    if fs.len() == 0 { seq![] } else { all_filter_errors(fs.drop_last()) + filter_errors(fs.last()) }
}

pub open spec fn linear_errors(l: AudioLevelChecks, name: Seq<char>) -> Seq<Seq<char>> {
    linear_error(l.linear_level, name, "linear level"@)
        + linear_error(l.pre_filter_linear_level, name, "pre-filter linear level"@)
        + linear_error(l.post_filter_linear_level, name, "post-filter linear level"@)
}

pub open spec fn level_errors(l: AudioLevelChecks, name: Seq<char>) -> Seq<Seq<char>> {
    four_levels(l.level, l.peak, l.decay_level, l.peak_hold, name)
        + four_levels(l.pre_filter_level, l.pre_filter_peak, l.post_filter_level, l.post_filter_peak, name)
        + linear_errors(l, name)
}

pub open spec fn runtime_source_errors(ss: Seq<AudioGraphRuntimeSource>, i: int) -> Seq<Seq<char>> {
    let s = ss[i];
    let id = s.scene_source_id@;
    if_msg(runtime_source_seen(ss, i), "duplicate audio graph source \""@ + id + "\""@)
        + if_msg(blank(s.name@), "audio graph source \""@ + id + "\" name is required"@)
        + if_msg(blank(s.provider_name@), "audio graph source \""@ + id + "\" provider name is required"@)
        + if_msg(s.sample_rate == 0, "audio graph source \""@ + id + "\" sample rate is required"@)
        + if_msg(s.channels == 0, "audio graph source \""@ + id + "\" channels are required"@)
        + if_msg(!s.latency_valid, "audio graph source \""@ + id + "\" latency must be zero or greater"@)
        + level_errors(s.levels, s.name@)
        + all_filter_errors(s.filters@)
}

pub open spec fn runtime_source_warnings(s: AudioGraphRuntimeSource) -> Seq<Seq<char>> {
    match s.status {
        AudioMixSourceStatus::Ready => seq![],
        AudioMixSourceStatus::Placeholder => seq![s.name@ + " audio runtime is waiting for input: "@ + s.status_detail@],
        AudioMixSourceStatus::PermissionRequired => seq![s.name@ + " audio runtime requires permission: "@
            + s.status_detail@],
        AudioMixSourceStatus::Unavailable => seq![s.name@ + " audio runtime is unavailable: "@ + s.status_detail@],
    }
}

pub open spec fn runtime_bus_errors(b: AudioGraphRuntimeBus) -> Seq<Seq<char>> {
    if_msg(b.active_source_count > b.source_count, b.name@ + " active source count cannot exceed source count"@)
        + level_error(b.level_in_range, b.name@) + level_error(b.peak_in_range, b.name@)
        + linear_error(b.linear_level_in_range, b.name@, "linear bus level"@)
}

pub open spec fn all_runtime_source_errors(ss: Seq<AudioGraphRuntimeSource>, k: int) -> Seq<Seq<char>>
    decreases k,
{
    if k <= 0 { seq![] } else { all_runtime_source_errors(ss, k - 1) + runtime_source_errors(ss, k - 1) }
}

pub open spec fn all_runtime_source_warnings(ss: Seq<AudioGraphRuntimeSource>) -> Seq<Seq<char>>
    decreases ss.len(),
{
    if ss.len() == 0 {
        seq![]
    } else {
        all_runtime_source_warnings(ss.drop_last()) + runtime_source_warnings(ss.last())
    }
}

pub open spec fn all_runtime_bus_errors(bs: Seq<AudioGraphRuntimeBus>) -> Seq<Seq<char>>
    decreases bs.len(),
{
    if bs.len() == 0 { seq![] } else { all_runtime_bus_errors(bs.drop_last()) + runtime_bus_errors(bs.last()) }
}

/// The errors that `validate_audio_graph_runtime_snapshot` reports: those the snapshot
/// carries, then its own, in order.
pub open spec fn runtime_errors(s: AudioGraphRuntimeSnapshot) -> Seq<Seq<char>> {
    views(s.validation.errors@)
        + if_msg(s.version == 0, "audio graph runtime version must be greater than zero"@)
        + if_msg(blank(s.scene_id@), "audio graph runtime scene id is required"@)
        + if_msg(blank(s.scene_name@), "audio graph runtime scene name is required"@)
        + if_msg(s.sample_rate == 0, "audio graph runtime sample rate must be greater than zero"@)
        + if_msg(s.channels == 0, "audio graph runtime channels must be greater than zero"@)
        + all_runtime_source_errors(s.sources@, s.sources@.len() as int)
        + all_runtime_bus_errors(s.buses@)
}

/// The warnings that `validate_audio_graph_runtime_snapshot` reports: those the
/// snapshot carries, then its own, in order.
pub open spec fn runtime_warnings(s: AudioGraphRuntimeSnapshot) -> Seq<Seq<char>> {
    views(s.validation.warnings@) + if_msg(s.sources@.len() == 0, "audio graph runtime has no audio meter sources"@)
        + all_runtime_source_warnings(s.sources@)
}

fn runtime_source_seen_exec(ss: &Vec<AudioGraphRuntimeSource>, i: usize) -> (r: bool)
    requires
        i < ss@.len(),
    ensures
        r == runtime_source_seen(ss@, i as int),
{
    let mut j: usize = 0;
    while j < i
        invariant
            i < ss@.len(),
            j <= i,
            forall|k: int| 0 <= k < j ==> (#[trigger] ss@[k]).scene_source_id@ != ss@[i as int].scene_source_id@,
        decreases i - j,
    {
        if ss[j].scene_source_id == ss[i].scene_source_id {
            return true;
        }
        j = j + 1;
    }
    false
}

fn push_four_levels(errors: &mut Vec<String>, a: bool, b: bool, c: bool, d: bool, name: &str)
    ensures
        views(final(errors)@) == views(old(errors)@) + four_levels(a, b, c, d, name@),
{
    push_level_error(errors, a, name);
    push_level_error(errors, b, name);
    push_level_error(errors, c, name);
    push_level_error(errors, d, name);
    assert(views(errors@) =~= views(old(errors)@) + four_levels(a, b, c, d, name@));
}

fn filter_value_checks(f: &AudioFilterRuntimeChecks, errors: &mut Vec<String>)
    ensures
        views(final(errors)@) == views(old(errors)@) + filter_value_errors(*f),
{
    let name = f.name.as_str();
    push_if(errors, !f.level_change_finite, cat2(name, " level change must be finite"));
    push_if(errors, !f.gain_reduction_valid, cat2(name, " gain reduction must be zero or greater"));
    push_if(errors, !f.attenuation_valid, cat2(name, " attenuation must be zero or greater"));
    assert(views(errors@) =~= views(old(errors)@) + filter_value_errors(*f));
}

fn filter_checks(f: &AudioFilterRuntimeChecks, errors: &mut Vec<String>)
    ensures
        views(final(errors)@) == views(old(errors)@) + filter_errors(*f),
{
    push_four_levels(errors, f.input_level, f.output_level, f.input_peak, f.output_peak, f.name.as_str());
    filter_value_checks(f, errors);
    assert(views(errors@) =~= views(old(errors)@) + filter_errors(*f));
}

fn linear_checks(l: &AudioLevelChecks, name: &str, errors: &mut Vec<String>)
    ensures
        views(final(errors)@) == views(old(errors)@) + linear_errors(*l, name@),
{
    push_linear_error(errors, l.linear_level, name, "linear level");
    push_linear_error(errors, l.pre_filter_linear_level, name, "pre-filter linear level");
    push_linear_error(errors, l.post_filter_linear_level, name, "post-filter linear level");
    assert(views(errors@) =~= views(old(errors)@) + linear_errors(*l, name@));
}

#[verifier::spinoff_prover]
fn level_checks(l: &AudioLevelChecks, name: &str, errors: &mut Vec<String>)
    ensures
        views(final(errors)@) == views(old(errors)@) + level_errors(*l, name@),
{
    push_four_levels(errors, l.level, l.peak, l.decay_level, l.peak_hold, name);
    push_four_levels(errors, l.pre_filter_level, l.pre_filter_peak, l.post_filter_level, l.post_filter_peak, name);
    linear_checks(l, name, errors);
    assert(views(errors@) =~= views(old(errors)@) + level_errors(*l, name@));
}

#[verifier::rlimit(50)]
fn runtime_source_checks(ss: &Vec<AudioGraphRuntimeSource>, i: usize, warnings: &mut Vec<String>, errors: &mut Vec<String>)
    requires
        i < ss@.len(),
    ensures
        views(final(errors)@) == views(old(errors)@) + runtime_source_errors(ss@, i as int),
        views(final(warnings)@) == views(old(warnings)@) + runtime_source_warnings(ss@[i as int]),
{
    let s = &ss[i];
    let id = s.scene_source_id.as_str();
    push_if(errors, runtime_source_seen_exec(ss, i), quoted("duplicate audio graph source \"", id, "\""));
    push_if(errors, is_blank(s.name.as_str()), quoted("audio graph source \"", id, "\" name is required"));
    push_if(errors, is_blank(s.provider_name.as_str()), quoted("audio graph source \"", id, "\" provider name is required"));
    push_if(errors, s.sample_rate == 0, quoted("audio graph source \"", id, "\" sample rate is required"));
    push_if(errors, s.channels == 0, quoted("audio graph source \"", id, "\" channels are required"));
    push_if(errors, !s.latency_valid, quoted("audio graph source \"", id, "\" latency must be zero or greater"));
    let ghost head = views(errors@);
    let name = s.name.as_str();
    let detail = s.status_detail.as_str();
    match s.status {
        AudioMixSourceStatus::Ready => {},
        AudioMixSourceStatus::Placeholder => push_msg(warnings, quoted(name, " audio runtime is waiting for input: ", detail)),
        AudioMixSourceStatus::PermissionRequired => push_msg(warnings,
            quoted(name, " audio runtime requires permission: ", detail)),
        AudioMixSourceStatus::Unavailable => push_msg(warnings, quoted(name, " audio runtime is unavailable: ", detail)),
    }
    assert(views(warnings@) =~= views(old(warnings)@) + runtime_source_warnings(ss@[i as int]));
    level_checks(&s.levels, name, errors);
    let ghost mid = views(errors@);
    let fs = &s.filters;
    let mut k: usize = 0;
    while k < fs.len()
        invariant
            fs == &ss@[i as int].filters,
            k <= fs@.len(),
            views(errors@) == mid + all_filter_errors(fs@.subrange(0, k as int)),
        decreases fs@.len() - k,
    {
        assert(fs@.subrange(0, k + 1 as int).drop_last() =~= fs@.subrange(0, k as int));
        filter_checks(&fs[k], errors);
        k = k + 1;
        assert(views(errors@) =~= mid + all_filter_errors(fs@.subrange(0, k as int)));
    }
    assert(fs@.subrange(0, fs@.len() as int) =~= fs@);
    assert(views(errors@) =~= views(old(errors)@) + runtime_source_errors(ss@, i as int));
}

fn runtime_bus_checks(b: &AudioGraphRuntimeBus, errors: &mut Vec<String>)
    ensures
        views(final(errors)@) == views(old(errors)@) + runtime_bus_errors(*b),
{
    let name = b.name.as_str();
    push_if(errors, b.active_source_count > b.source_count, cat2(name, " active source count cannot exceed source count"));
    push_level_error(errors, b.level_in_range, name);
    push_level_error(errors, b.peak_in_range, name);
    push_linear_error(errors, b.linear_level_in_range, name, "linear bus level");
    assert(views(errors@) =~= views(old(errors)@) + runtime_bus_errors(*b));
}

/// Checks a runtime snapshot, keeping what its validation already holds: its header,
/// each source's identity, format, latency, status and levels, each filter's levels,
/// and each bus's counts and levels.
pub fn validate_audio_graph_runtime_snapshot(snapshot: &AudioGraphRuntimeSnapshot) -> (r: AudioGraphRuntimeValidation)
    ensures
        views(r.errors@) == runtime_errors(*snapshot),
        views(r.warnings@) == runtime_warnings(*snapshot),
        r.ready == (r.errors@.len() == 0),
{
    let mut warnings = crate::pipeline::copy_msgs(&snapshot.validation.warnings);
    let mut errors = crate::pipeline::copy_msgs(&snapshot.validation.errors);
    push_if(&mut errors, snapshot.version == 0, String::from_str("audio graph runtime version must be greater than zero"));
    push_if(&mut errors, is_blank(snapshot.scene_id.as_str()), String::from_str("audio graph runtime scene id is required"));
    push_if(&mut errors, is_blank(snapshot.scene_name.as_str()),
        String::from_str("audio graph runtime scene name is required"));
    push_if(&mut errors, snapshot.sample_rate == 0,
        String::from_str("audio graph runtime sample rate must be greater than zero"));
    push_if(&mut errors, snapshot.channels == 0, String::from_str("audio graph runtime channels must be greater than zero"));
    push_if(&mut warnings, snapshot.sources.len() == 0, String::from_str("audio graph runtime has no audio meter sources"));
    let ghost e0 = views(errors@);
    let ghost w0 = views(warnings@);
    let ss = &snapshot.sources;
    let mut i: usize = 0;
    while i < ss.len()
        invariant
            ss == &snapshot.sources,
            i <= ss@.len(),
            views(errors@) == e0 + all_runtime_source_errors(ss@, i as int),
            views(warnings@) == w0 + all_runtime_source_warnings(ss@.subrange(0, i as int)),
        decreases ss@.len() - i,
    {
        assert(ss@.subrange(0, i + 1 as int).drop_last() =~= ss@.subrange(0, i as int));
        runtime_source_checks(ss, i, &mut warnings, &mut errors);
        i = i + 1;
        assert(views(errors@) =~= e0 + all_runtime_source_errors(ss@, i as int));
        assert(views(warnings@) =~= w0 + all_runtime_source_warnings(ss@.subrange(0, i as int)));
    }
    assert(ss@.subrange(0, ss@.len() as int) =~= ss@);
    let ghost e1 = views(errors@);
    let bs = &snapshot.buses;
    let mut j: usize = 0;
    while j < bs.len()
        invariant
            bs == &snapshot.buses,
            j <= bs@.len(),
            views(errors@) == e1 + all_runtime_bus_errors(bs@.subrange(0, j as int)),
        decreases bs@.len() - j,
    {
        assert(bs@.subrange(0, j + 1 as int).drop_last() =~= bs@.subrange(0, j as int));
        runtime_bus_checks(&bs[j], &mut errors);
        j = j + 1;
        assert(views(errors@) =~= e1 + all_runtime_bus_errors(bs@.subrange(0, j as int)));
    }
    assert(bs@.subrange(0, bs@.len() as int) =~= bs@);
    assert(views(errors@) =~= runtime_errors(*snapshot));
    assert(views(warnings@) =~= runtime_warnings(*snapshot));
    let ready = errors.len() == 0;
    AudioGraphRuntimeValidation { ready, warnings, errors }
}

// ---------------------------------------------------------------------------------
// The order of a source's audio filters

/// What orders one of a source's audio filters: its `order` number and identifier.
#[derive(Clone, Debug)]
pub struct AudioFilterOrderKey {
    pub id: String,
    pub order: i32,
}

/// Filter `i` runs before filter `j`: by order number, then by identifier, then by
/// position in the source's list.
pub open spec fn filter_before(fs: Seq<AudioFilterOrderKey>, i: int, j: int) -> bool {
    let a = fs[i];
    let b = fs[j];
    a.order < b.order || (a.order == b.order && (lex_lt(a.id@, b.id@) || (a.id@ == b.id@ && i < j)))
}

proof fn lemma_filter_before_order(fs: Seq<AudioFilterOrderKey>, i: int, j: int, k: int)
    ensures
        i != j ==> (filter_before(fs, i, j) || filter_before(fs, j, i)),
        filter_before(fs, i, j) ==> !filter_before(fs, j, i),
        filter_before(fs, i, j) && filter_before(fs, j, k) ==> filter_before(fs, i, k),
{
    lemma_lex_irreflexive(fs[i].id@);
    lemma_lex_total(fs[i].id@, fs[j].id@);
    if lex_lt(fs[i].id@, fs[j].id@) {
        lemma_lex_asymmetric(fs[i].id@, fs[j].id@);
    }
    if lex_lt(fs[j].id@, fs[i].id@) {
        lemma_lex_asymmetric(fs[j].id@, fs[i].id@);
    }
    if lex_lt(fs[i].id@, fs[j].id@) && lex_lt(fs[j].id@, fs[k].id@) {
        lemma_lex_transitive(fs[i].id@, fs[j].id@, fs[k].id@);
    }
}

/// The positions of the filters in the order they run: each once, each before the next.
pub open spec fn is_filter_order(fs: Seq<AudioFilterOrderKey>, order: Seq<usize>) -> bool {
    &&& order.len() == fs.len()
    &&& forall|k: int| 0 <= k < order.len() ==> (#[trigger] order[k]) < fs.len()
    &&& forall|x: usize| x < fs.len() ==> order.contains(x)
    &&& forall|a: int, b: int| 0 <= a < b < order.len() ==> filter_before(fs, #[trigger] order[a] as int, #[trigger] order[b] as int)
}

fn filter_before_exec(fs: &Vec<AudioFilterOrderKey>, i: usize, j: usize) -> (r: bool)
    requires
        i < fs@.len(),
        j < fs@.len(),
    ensures
        r == filter_before(fs@, i as int, j as int),
{
    let a = &fs[i];
    let b = &fs[j];
    if a.order != b.order {
        return a.order < b.order;
    }
    if str_lt(a.id.as_str(), b.id.as_str()) {
        return true;
    }
    a.id == b.id && i < j
}

/// The positions of a source's filters in the order they run: by order number, then by
/// identifier, keeping list order among equals.
pub fn sorted_audio_source_filters(filters: &Vec<AudioFilterOrderKey>) -> (r: Vec<usize>)
    ensures
        is_filter_order(filters@, r@),
{
    let ghost fs = filters@;
    let mut order: Vec<usize> = Vec::new();
    let mut i: usize = 0;
    while i < filters.len()
        invariant
            fs == filters@,
            i <= fs.len(),
            order@.len() == i,
            forall|k: int| 0 <= k < order@.len() ==> (#[trigger] order@[k]) < i,
            forall|x: usize| x < i ==> order@.contains(x),
            forall|a: int, b: int| 0 <= a < b < order@.len() ==> filter_before(fs, #[trigger] order@[a] as int, #[trigger] order@[b] as int),
        decreases fs.len() - i,
    {
        let ghost o = order@;
        let mut k: usize = 0;
        while k < order.len()
            invariant
                fs == filters@,
                o == order@,
                i < fs.len(),
                k <= o.len(),
                forall|m: int| 0 <= m < o.len() ==> (#[trigger] o[m]) < i,
                forall|m: int| 0 <= m < k ==> filter_before(fs, #[trigger] o[m] as int, i as int),
            ensures
                k <= o.len(),
                forall|m: int| 0 <= m < k ==> filter_before(fs, #[trigger] o[m] as int, i as int),
                k < o.len() ==> filter_before(fs, i as int, o[k as int] as int),
            decreases o.len() - k,
        {
            if !filter_before_exec(filters, order[k], i) {
                proof {
                    lemma_filter_before_order(fs, o[k as int] as int, i as int, 0);
                }
                break;
            }
            k = k + 1;
        }
        order.insert(k, i);
        proof {
            let t = order@;
            assert(t =~= o.subrange(0, k as int).push(i) + o.subrange(k as int, o.len() as int));
            assert forall|a: int, b: int| 0 <= a < b < t.len() implies filter_before(fs, #[trigger] t[a] as int, #[trigger] t[b] as int) by {
                if b == k {
                    assert(t[a] == o[a]);
                } else if a == k {
                    assert(t[b] == o[b - 1]);
                    if b - 1 > k {
                        lemma_filter_before_order(fs, i as int, o[k as int] as int, o[b - 1] as int);
                    }
                } else if a < k && b > k {
                    assert(t[a] == o[a] && t[b] == o[b - 1]);
                } else if b < k {
                    assert(t[a] == o[a] && t[b] == o[b]);
                } else {
                    assert(t[a] == o[a - 1] && t[b] == o[b - 1]);
                }
            }
            assert forall|x: usize| x < i + 1 implies t.contains(x) by {
                if x == i {
                    assert(t[k as int] == x);
                } else {
                    assert(o.contains(x));
                    let m = choose|m: int| 0 <= m < o.len() && o[m] == x;
                    if m < k {
                        assert(t[m] == x);
                    } else {
                        assert(t[m + 1] == x);
                    }
                }
            }
            assert forall|m: int| 0 <= m < t.len() implies (#[trigger] t[m]) < i + 1 by {
                if m < k {
                    assert(t[m] == o[m]);
                } else if m > k {
                    assert(t[m] == o[m - 1]);
                }
            }
        }
        i = i + 1;
    }
    order
}

/// The order in which a source's filters run is determined by the filters: two lists
/// that each meet `is_filter_order` are the same.
pub proof fn lemma_filter_order_unique(fs: Seq<AudioFilterOrderKey>, o1: Seq<usize>, o2: Seq<usize>)
    requires
        is_filter_order(fs, o1),
        is_filter_order(fs, o2),
    ensures
        o1 == o2,
{
    let before = |i: int, j: int| filter_before(fs, i, j);
    assert forall|x: int, y: int| #[trigger] before(x, y) implies !before(y, x) by {
        lemma_filter_before_order(fs, x, y, 0);
    }
    assert forall|x: usize| o1.contains(x) <==> o2.contains(x) by {
        if o1.contains(x) {
            let k = choose|k: int| 0 <= k < o1.len() && o1[k] == x;
            assert(o1[k] < fs.len());
        }
        if o2.contains(x) {
            let k = choose|k: int| 0 <= k < o2.len() && o2[k] == x;
            assert(o2[k] < fs.len());
        }
    }
    assert(crate::order::sorted_by(before, o1));
    assert(crate::order::sorted_by(before, o2));
    crate::order::lemma_sorted_by_unique(before, o1, o2);
}

} // verus!
