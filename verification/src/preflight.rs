//! The preflight checks the desktop app runs before recording or streaming, and
//! how their statuses add up.

use vstd::prelude::*;
use crate::api::AuthConfig;
use crate::capture::{CaptureSourceKind, CaptureSourceSelection};
use crate::text::{blank, cat2, is_blank, quoted};

verus! {

#[derive(Clone, Copy, Debug, PartialEq, Eq, Structural)]
pub enum PreflightStatus {
    Ready,
    Warning,
    Blocked,
    Unknown,
    NotRequired,
}

#[derive(Clone, Debug)]
pub struct PreflightCheck {
    pub id: String,
    pub label: String,
    pub status: PreflightStatus,
    pub detail: String,
}

pub open spec fn any_status(checks: Seq<PreflightCheck>, s: PreflightStatus) -> bool {
    exists|i: int| 0 <= i < checks.len() && (#[trigger] checks[i]).status == s
}

/// The overall status: blocked if any check is blocked, else warning if any warns,
/// else unknown if any is unknown, else ready.
pub open spec fn aggregate_spec(checks: Seq<PreflightCheck>) -> PreflightStatus {
    if any_status(checks, PreflightStatus::Blocked) {
        PreflightStatus::Blocked
    } else if any_status(checks, PreflightStatus::Warning) {
        PreflightStatus::Warning
    } else if any_status(checks, PreflightStatus::Unknown) {
        PreflightStatus::Unknown
    } else {
        PreflightStatus::Ready
    }
}

fn any_status_exec(checks: &Vec<PreflightCheck>, s: PreflightStatus) -> (r: bool)
    ensures
        r == any_status(checks@, s),
{
    let mut i: usize = 0;
    while i < checks.len()
        invariant
            i <= checks@.len(),
            forall|k: int| 0 <= k < i ==> (#[trigger] checks@[k]).status != s,
        decreases checks@.len() - i,
    {
        if checks[i].status == s {
            return true;
        }
        i = i + 1;
    }
    false
}

/// The overall status of a set of checks.
pub fn aggregate_preflight_status(checks: &Vec<PreflightCheck>) -> (r: PreflightStatus)
    ensures
        r == aggregate_spec(checks@),
{
    if any_status_exec(checks, PreflightStatus::Blocked) {
        PreflightStatus::Blocked
    } else if any_status_exec(checks, PreflightStatus::Warning) {
        PreflightStatus::Warning
    } else if any_status_exec(checks, PreflightStatus::Unknown) {
        PreflightStatus::Unknown
    } else {
        PreflightStatus::Ready
    }
}

/// A blocked check decides the overall status, whatever the others say; a set of
/// checks that are each ready or not required is ready.
pub proof fn lemma_blocked_dominates(checks: Seq<PreflightCheck>, i: int)
    requires
        0 <= i < checks.len(),
    ensures
        checks[i].status == PreflightStatus::Blocked ==> aggregate_spec(checks) == PreflightStatus::Blocked,
        (forall|k: int| 0 <= k < checks.len() ==> (#[trigger] checks[k]).status == PreflightStatus::Ready
            || checks[k].status == PreflightStatus::NotRequired) ==> aggregate_spec(checks) == PreflightStatus::Ready,
{
}

pub open spec fn check_is(c: PreflightCheck, id: Seq<char>, label: Seq<char>, status: PreflightStatus, detail: Seq<char>) -> bool {
    c.id@ == id && c.label@ == label && c.status == status && c.detail@ == detail
}

fn check(id: &str, label: &str, status: PreflightStatus, detail: String) -> (r: PreflightCheck)
    ensures
        check_is(r, id@, label@, status, detail@),
{
    PreflightCheck { id: String::from_str(id), label: String::from_str(label), status, detail }
}

/// A check that no enabled capture source needs.
pub fn not_required_check(id: &str, label: &str) -> (r: PreflightCheck)
    ensures
        check_is(r, id@, label@, PreflightStatus::NotRequired, "No enabled capture source requires this permission."@),
{
    check(id, label, PreflightStatus::NotRequired, String::from_str("No enabled capture source requires this permission."))
}

/// Whether an enabled capture source is of one of the kinds.
pub open spec fn source_enabled_spec(sources: Seq<CaptureSourceSelection>, kinds: Seq<CaptureSourceKind>) -> bool {
    exists|i: int| 0 <= i < sources.len() && (#[trigger] sources[i]).enabled && kinds.contains(sources[i].kind)
}

pub fn source_enabled(sources: &Vec<CaptureSourceSelection>, kinds: &[CaptureSourceKind]) -> (r: bool)
    ensures
        r == source_enabled_spec(sources@, kinds@),
{
    let mut i: usize = 0;
    while i < sources.len()
        invariant
            i <= sources@.len(),
            forall|k: int| 0 <= k < i ==> !((#[trigger] sources@[k]).enabled && kinds@.contains(sources@[k].kind)),

        decreases sources@.len() - i,
    {
        if sources[i].enabled {
            let mut j: usize = 0;
            while j < kinds.len()
                invariant
                    i < sources@.len(),
                    sources@[i as int].enabled,
                    j <= kinds@.len(),
                    forall|m: int| 0 <= m < j ==> kinds@[m] != sources@[i as int].kind,
                decreases kinds@.len() - j,
            {
                if kinds[j] == sources[i].kind {
                    assert(kinds@[j as int] == sources@[i as int].kind);
                    assert(kinds@.contains(sources@[i as int].kind));
                    assert(sources@[i as int].enabled && kinds@.contains(sources@[i as int].kind));
                    return true;
                }
                j = j + 1;
            }
            assert(!kinds@.contains(sources@[i as int].kind));
        }
        i = i + 1;
    }
    false
}

/// The API token check: a warning in developer mode, ready with a token that is not
/// blank, blocked otherwise.
pub fn token_preflight_check(auth: &AuthConfig) -> (r: PreflightCheck)
    ensures
        r.id@ == "api.auth"@,
        r.label@ == "API Token"@,
        auth.dev_mode ==> r.status == PreflightStatus::Warning && r.detail@ == "Dev auth bypass is enabled."@,
        !auth.dev_mode ==> (if auth.token matches Some(t) && !blank(t@) {
            r.status == PreflightStatus::Ready && r.detail@ == "Token auth is configured."@
        } else {
            r.status == PreflightStatus::Blocked && r.detail@ == "Dev auth bypass is disabled and no API token is configured."@
        }),
{
    if auth.dev_mode {
        return check("api.auth", "API Token", PreflightStatus::Warning, String::from_str("Dev auth bypass is enabled."));
    }
    let configured = match &auth.token {
        Some(t) => !is_blank(t.as_str()),
        None => false,
    };
    if configured {
        check("api.auth", "API Token", PreflightStatus::Ready, String::from_str("Token auth is configured."))
    } else {
        check("api.auth", "API Token", PreflightStatus::Blocked,
            String::from_str("Dev auth bypass is disabled and no API token is configured."))
    }
}

/// The local API check, given whether connecting to `http://{bind_addr}` worked and,
/// if not, the error.
pub fn api_preflight_check(bind_addr: &str, connect: Result<(), String>) -> (r: PreflightCheck)
    ensures
        r.id@ == "api.local"@,
        r.label@ == "Local API"@,
        match connect {
            Ok(_) => r.status == PreflightStatus::Ready && r.detail@ == "Listening at http://"@ + bind_addr@ + "."@,
            Err(e) => r.status == PreflightStatus::Blocked && r.detail@ == "Could not connect to http://"@ + bind_addr@
                + ": "@ + e@,
        },
{
    match connect {
        Ok(_) => check("api.local", "Local API", PreflightStatus::Ready, quoted("Listening at http://", bind_addr, ".")),
        Err(e) => {
            let mut d = quoted("Could not connect to http://", bind_addr, ": ");
            d.append(e.as_str());
            check("api.local", "Local API", PreflightStatus::Blocked, d)
        },
    }
}

/// The media runner check: a warning without a runner; otherwise from the health check
/// of the runner listening at the address given.
pub fn media_runner_preflight_check(runner: Option<(String, Result<(), String>)>) -> (r: PreflightCheck)
    ensures
        r.id@ == "media.sidecar"@,
        r.label@ == "Media Runner"@,
        match runner {
            None => r.status == PreflightStatus::Warning && r.detail@
                == "Sidecar is not running; Studio will use in-process dry-run media."@,
            Some((addr, Ok(_))) => r.status == PreflightStatus::Ready && r.detail@ == "Sidecar is reachable at "@ + addr@
                + "."@,
            Some((_, Err(e))) => r.status == PreflightStatus::Warning && r.detail@
                == "Sidecar is configured but not healthy: "@ + e@,
        },
{
    match runner {
        None => check("media.sidecar", "Media Runner", PreflightStatus::Warning,
            String::from_str("Sidecar is not running; Studio will use in-process dry-run media.")),
        Some((addr, Ok(_))) => check("media.sidecar", "Media Runner", PreflightStatus::Ready,
            quoted("Sidecar is reachable at ", addr.as_str(), ".")),
        Some((_, Err(e))) => check("media.sidecar", "Media Runner", PreflightStatus::Warning,
            cat2("Sidecar is configured but not healthy: ", e.as_str())),
    }
}

/// What happened when the output folder was probed: creating it, opening a probe file
/// in it, or writing to that file failed with the error given, or all three worked.
#[derive(Clone, Debug)]
pub enum OutputFolderProbe {
    CreateFailed(String),
    OpenFailed(String),
    WriteFailed(String),
    Writable,
}

/// The output folder check for the folder shown as `path`, from how probing it went.
pub fn output_folder_preflight_check(path: &str, probe: OutputFolderProbe) -> (r: PreflightCheck)
    ensures
        r.id@ == "recording.output_folder"@,
        r.label@ == "Output Folder"@,
        match probe {
            OutputFolderProbe::CreateFailed(e) => r.status == PreflightStatus::Blocked && r.detail@ == "Could not create '"@
                + path@ + "': "@ + e@,
            OutputFolderProbe::OpenFailed(e) => r.status == PreflightStatus::Blocked && r.detail@
                == "Could not open write probe in '"@ + path@ + "': "@ + e@,
            OutputFolderProbe::WriteFailed(e) => r.status == PreflightStatus::Blocked && r.detail@ == "Could not write to '"@
                + path@ + "': "@ + e@,
            OutputFolderProbe::Writable => r.status == PreflightStatus::Ready && r.detail@ == "Writable: "@ + path@,
        },
{
    match probe {
        OutputFolderProbe::CreateFailed(e) => {
            let mut d = quoted("Could not create '", path, "': ");
            d.append(e.as_str());
            check("recording.output_folder", "Output Folder", PreflightStatus::Blocked, d)
        },
        OutputFolderProbe::OpenFailed(e) => {
            let mut d = quoted("Could not open write probe in '", path, "': ");
            d.append(e.as_str());
            check("recording.output_folder", "Output Folder", PreflightStatus::Blocked, d)
        },
        OutputFolderProbe::WriteFailed(e) => {
            let mut d = quoted("Could not write to '", path, "': ");
            d.append(e.as_str());
            check("recording.output_folder", "Output Folder", PreflightStatus::Blocked, d)
        },
        OutputFolderProbe::Writable => {
            check("recording.output_folder", "Output Folder", PreflightStatus::Ready, cat2("Writable: ", path))
        },
    }
}

/// The screen recording check: not required without an enabled display or window
/// source; otherwise as the operating system reports the permission.
pub fn screen_recording_preflight_check(sources: &Vec<CaptureSourceSelection>, granted: bool) -> (r: PreflightCheck)
    ensures
        !source_enabled_spec(sources@, seq![CaptureSourceKind::Display, CaptureSourceKind::Window]) ==> check_is(r,
            "macos.screen_recording"@, "Screen Recording"@, PreflightStatus::NotRequired,
            "No enabled capture source requires this permission."@),
        source_enabled_spec(sources@, seq![CaptureSourceKind::Display, CaptureSourceKind::Window]) ==> (if granted {
            check_is(r, "macos.screen_recording"@, "Screen Recording"@, PreflightStatus::Ready,
                "macOS reports screen capture permission is available."@)
        } else {
            check_is(r, "macos.screen_recording"@, "Screen Recording"@, PreflightStatus::Blocked,
                "Grant Screen Recording permission in macOS Privacy & Security."@)
        }),
{
    let kinds = [CaptureSourceKind::Display, CaptureSourceKind::Window];
    assert(kinds@ =~= seq![CaptureSourceKind::Display, CaptureSourceKind::Window]);
    if !source_enabled(sources, &kinds) {
        return not_required_check("macos.screen_recording", "Screen Recording");
    }
    if granted {
        check("macos.screen_recording", "Screen Recording", PreflightStatus::Ready,
            String::from_str("macOS reports screen capture permission is available."))
    } else {
        check("macos.screen_recording", "Screen Recording", PreflightStatus::Blocked,
            String::from_str("Grant Screen Recording permission in macOS Privacy & Security."))
    }
}

/// The status a media permission state gives.
pub open spec fn permission_status_of(state: Seq<char>) -> PreflightStatus {
    if state == "authorized"@ {
        PreflightStatus::Ready
    } else if state == "denied"@ || state == "restricted"@ {
        PreflightStatus::Blocked
    } else if state == "not_determined"@ {
        PreflightStatus::Warning
    } else {
        PreflightStatus::Unknown
    }
}

/// A camera or microphone check from the permission state the operating system
/// reports and its detail.
pub fn permission_preflight_check(id: &str, label: &str, state: &str, detail: String) -> (r: PreflightCheck)
    ensures
        check_is(r, id@, label@, permission_status_of(state@), detail@),
{
    let status = if crate::text::str_eq(state, "authorized") {
        PreflightStatus::Ready
    } else if crate::text::str_eq(state, "denied") || crate::text::str_eq(state, "restricted") {
        PreflightStatus::Blocked
    } else if crate::text::str_eq(state, "not_determined") {
        PreflightStatus::Warning
    } else {
        PreflightStatus::Unknown
    };
    check(id, label, status, detail)
}

/// The camera check: not required without an enabled camera source; otherwise from the
/// camera permission state the operating system reports, and its detail.
pub fn camera_preflight_check(sources: &Vec<CaptureSourceSelection>, state: &str, detail: String) -> (r: PreflightCheck)
    ensures
        !source_enabled_spec(sources@, seq![CaptureSourceKind::Camera]) ==> check_is(r, "macos.camera"@, "Camera"@,
            PreflightStatus::NotRequired, "No enabled capture source requires this permission."@),
        source_enabled_spec(sources@, seq![CaptureSourceKind::Camera]) ==> check_is(r, "macos.camera"@, "Camera"@,
            permission_status_of(state@), detail@),
{
    let kinds = [CaptureSourceKind::Camera];
    assert(kinds@ =~= seq![CaptureSourceKind::Camera]);
    if !source_enabled(sources, &kinds) {
        return not_required_check("macos.camera", "Camera");
    }
    permission_preflight_check("macos.camera", "Camera", state, detail)
}

/// The microphone check: not required without an enabled microphone source; otherwise
/// from the microphone permission state the operating system reports, and its detail.
pub fn microphone_preflight_check(sources: &Vec<CaptureSourceSelection>, state: &str, detail: String) -> (r:
    PreflightCheck)
    ensures
        !source_enabled_spec(sources@, seq![CaptureSourceKind::Microphone]) ==> check_is(r, "macos.microphone"@,
            "Microphone"@, PreflightStatus::NotRequired, "No enabled capture source requires this permission."@),
        source_enabled_spec(sources@, seq![CaptureSourceKind::Microphone]) ==> check_is(r, "macos.microphone"@,
            "Microphone"@, permission_status_of(state@), detail@),
{
    let kinds = [CaptureSourceKind::Microphone];
    assert(kinds@ =~= seq![CaptureSourceKind::Microphone]);
    if !source_enabled(sources, &kinds) {
        return not_required_check("macos.microphone", "Microphone");
    }
    permission_preflight_check("macos.microphone", "Microphone", state, detail)
}

/// The system audio check: not required without an enabled system audio source;
/// blocked otherwise, as the pipeline cannot capture it.
pub fn system_audio_preflight_check(sources: &Vec<CaptureSourceSelection>) -> (r: PreflightCheck)
    ensures
        !source_enabled_spec(sources@, seq![CaptureSourceKind::SystemAudio]) ==> check_is(r, "macos.system_audio"@,
            "System Audio"@, PreflightStatus::NotRequired, "No enabled capture source requires this permission."@),
        source_enabled_spec(sources@, seq![CaptureSourceKind::SystemAudio]) ==> check_is(r, "macos.system_audio"@,
            "System Audio"@, PreflightStatus::Blocked,
            "System audio capture is not implemented in the MVP media pipeline."@),
{
    let kinds = [CaptureSourceKind::SystemAudio];
    assert(kinds@ =~= seq![CaptureSourceKind::SystemAudio]);
    if !source_enabled(sources, &kinds) {
        return not_required_check("macos.system_audio", "System Audio");
    }
    check("macos.system_audio", "System Audio", PreflightStatus::Blocked,
        String::from_str("System audio capture is not implemented in the MVP media pipeline."))
}

} // verus!
