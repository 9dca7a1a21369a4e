use vaexcore_studio::api::AuthConfig;
use vaexcore_studio::audio::{
    default_audio_buses, ffmpeg_audio_error_detail, ffmpeg_audio_error_status, macos_audio_index_from_source_id,
    sorted_audio_source_filters, stable_audio_seed, validate_audio_graph_runtime_snapshot, AudioFilterOrderKey, AudioFilterRuntimeChecks, AudioGraphRuntimeBus,
    AudioGraphRuntimeSnapshot, AudioGraphRuntimeSource, AudioGraphRuntimeValidation, AudioLevelChecks,
    AudioMixBusKind, AudioMixSourceStatus,
};
use vaexcore_studio::capture::{default_capture_sources, CaptureSourceKind, CaptureSourceSelection};
use vaexcore_studio::preflight::{
    aggregate_preflight_status, api_preflight_check, camera_preflight_check, media_runner_preflight_check, microphone_preflight_check,
    not_required_check, output_folder_preflight_check, permission_preflight_check, screen_recording_preflight_check,
    OutputFolderProbe, system_audio_preflight_check, token_preflight_check, PreflightStatus,
};
use vaexcore_studio::suite::{newest_timeline_events, suite_app_status, SuiteAppDefinition};
use vaexcore_studio::text::parse_u32;

fn levels_ok() -> AudioLevelChecks {
    AudioLevelChecks {
        level: true,
        peak: true,
        decay_level: true,
        peak_hold: true,
        pre_filter_level: true,
        pre_filter_peak: true,
        post_filter_level: true,
        post_filter_peak: true,
        linear_level: true,
        pre_filter_linear_level: true,
        post_filter_linear_level: true,
    }
}

fn runtime_source(id: &str) -> AudioGraphRuntimeSource {
    AudioGraphRuntimeSource {
        scene_source_id: id.to_string(),
        name: "Mic".to_string(),
        provider_name: "simulated".to_string(),
        sample_rate: 48_000,
        channels: 2,
        latency_valid: true,
        status: AudioMixSourceStatus::Ready,
        status_detail: "ok".to_string(),
        levels: levels_ok(),
        filters: Vec::new(),
    }
}

#[test]
fn audio_runtime_validation_reports_each_check() {
    let mut second = runtime_source("mic");
    second.levels.peak = false;
    second.status = AudioMixSourceStatus::Unavailable;
    second.filters.push(AudioFilterRuntimeChecks {
        name: "Gate".to_string(),
        input_level: true,
        output_level: true,
        input_peak: true,
        output_peak: true,
        level_change_finite: false,
        gain_reduction_valid: true,
        attenuation_valid: false,
    });
    let snapshot = AudioGraphRuntimeSnapshot {
        version: 1,
        scene_id: "scene-main".to_string(),
        scene_name: "Main".to_string(),
        sample_rate: 48_000,
        channels: 2,
        sources: vec![runtime_source("mic"), second],
        buses: vec![AudioGraphRuntimeBus {
            name: "Master".to_string(),
            source_count: 1,
            active_source_count: 2,
            level_in_range: true,
            peak_in_range: true,
            linear_level_in_range: false,
        }],
        validation: AudioGraphRuntimeValidation {
            ready: true,
            warnings: vec!["carried".to_string()],
            errors: Vec::new(),
        },
    };
    let validation = validate_audio_graph_runtime_snapshot(&snapshot);
    assert!(!validation.ready);
    assert_eq!(validation.errors, vec![
        "duplicate audio graph source \"mic\"".to_string(),
        "Mic level must be between -90 dB and 6 dB".to_string(),
        "Gate level change must be finite".to_string(),
        "Gate attenuation must be zero or greater".to_string(),
        "Master active source count cannot exceed source count".to_string(),
        "Master linear bus level must be between zero and one".to_string(),
    ]);
    assert_eq!(validation.warnings, vec!["carried".to_string(), "Mic audio runtime is unavailable: ok".to_string()]);
}

#[test]
fn audio_helpers() {
    let buses = default_audio_buses();
    assert_eq!(buses[0].kind, AudioMixBusKind::Master);
    assert_eq!(buses[3].id, "bus-stream");
    assert_eq!(stable_audio_seed(b""), 17);
    assert_eq!(stable_audio_seed(b"a"), 17 * 37 + 97);
    assert_eq!(ffmpeg_audio_error_status("Error: Permission DENIED"), AudioMixSourceStatus::PermissionRequired);
    assert_eq!(ffmpeg_audio_error_status("device busy"), AudioMixSourceStatus::Unavailable);
    assert_eq!(ffmpeg_audio_error_detail("  boom \n"), "FFmpeg audio meter preview failed: boom");
    assert_eq!(
        ffmpeg_audio_error_detail("   "),
        "FFmpeg audio meter preview failed. Check Microphone permission and source availability."
    );
    assert_eq!(macos_audio_index_from_source_id("microphone:default"), Some(0));
    assert_eq!(macos_audio_index_from_source_id("system_audio:3"), Some(3));
    assert_eq!(macos_audio_index_from_source_id("system:+7"), Some(7));
    assert_eq!(macos_audio_index_from_source_id("microphone:abc"), None);
    assert_eq!(macos_audio_index_from_source_id("camera:1"), None);
    assert_eq!(parse_u32("4294967295"), Some(u32::MAX));
    assert_eq!(parse_u32("4294967296"), None);
    assert_eq!(parse_u32("+"), None);
    assert_eq!(parse_u32(""), None);
}

#[test]
fn preflight_status_adds_up() {
    let ready = not_required_check("a", "A");
    let token = token_preflight_check(&AuthConfig { token: Some("t".to_string()), dev_mode: false });
    assert_eq!(token.status, PreflightStatus::Ready);
    assert_eq!(aggregate_preflight_status(&vec![ready.clone(), token.clone()]), PreflightStatus::Ready);
    let dev = token_preflight_check(&AuthConfig { token: None, dev_mode: true });
    assert_eq!(dev.status, PreflightStatus::Warning);
    let missing = token_preflight_check(&AuthConfig { token: Some("  ".to_string()), dev_mode: false });
    assert_eq!(missing.status, PreflightStatus::Blocked);
    let unknown = permission_preflight_check("macos.camera", "Camera", "weird", "?".to_string());
    assert_eq!(unknown.status, PreflightStatus::Unknown);
    assert_eq!(aggregate_preflight_status(&vec![dev.clone(), unknown.clone()]), PreflightStatus::Warning);
    assert_eq!(aggregate_preflight_status(&vec![unknown.clone(), ready.clone()]), PreflightStatus::Unknown);
    assert_eq!(aggregate_preflight_status(&vec![dev, missing, unknown]), PreflightStatus::Blocked);

    let api = api_preflight_check("127.0.0.1:51287", Err("refused".to_string()));
    assert_eq!(api.detail, "Could not connect to http://127.0.0.1:51287: refused");
    assert_eq!(api.status, PreflightStatus::Blocked);
}

#[test]
fn capture_permission_checks_follow_enabled_sources() {
    let sources = default_capture_sources();
    let screen = screen_recording_preflight_check(&sources, false);
    assert_eq!(screen.status, PreflightStatus::Blocked);
    let only_system_audio = vec![CaptureSourceSelection {
        id: "system_audio:default".to_string(),
        kind: CaptureSourceKind::SystemAudio,
        name: "System Audio".to_string(),
        enabled: true,
    }];
    assert_eq!(screen_recording_preflight_check(&only_system_audio, false).status, PreflightStatus::NotRequired);
    assert_eq!(system_audio_preflight_check(&only_system_audio).status, PreflightStatus::Blocked);
    assert_eq!(system_audio_preflight_check(&sources).status, PreflightStatus::NotRequired);

    let camera = camera_preflight_check(&sources, "denied", "camera denied".to_string());
    assert_eq!(camera.status, PreflightStatus::NotRequired);
    assert_eq!(camera.id, "macos.camera");
    assert_eq!(camera.detail, "No enabled capture source requires this permission.");
    assert_eq!(microphone_preflight_check(&sources, "authorized", String::new()).status, PreflightStatus::NotRequired);
    let mut with_microphone = sources.clone();
    with_microphone[1].enabled = true;
    let microphone = microphone_preflight_check(&with_microphone, "not_determined", "ask first".to_string());
    assert_eq!(microphone.id, "macos.microphone");
    assert_eq!(microphone.label, "Microphone");
    assert_eq!(microphone.status, PreflightStatus::Warning);
    assert_eq!(microphone.detail, "ask first");
    assert_eq!(microphone_preflight_check(&only_system_audio, "denied", String::new()).status, PreflightStatus::NotRequired);
}

#[test]
fn timeline_lists_newest_first() {
    let created = vec![
        "2026-05-06T12:00:00Z".to_string(),
        "2026-05-06T12:05:00Z".to_string(),
        "2026-05-06T12:00:00Z".to_string(),
        "2026-05-06T11:00:00Z".to_string(),
    ];
    assert_eq!(newest_timeline_events(&created, 10), vec![1, 0, 2, 3]);
    assert_eq!(newest_timeline_events(&created, 2), vec![1, 0]);
}

#[test]
fn suite_app_status_without_heartbeat() {
    let definition = SuiteAppDefinition {
        app_id: "vaexcore-pulse".to_string(),
        app_name: "vaexcore pulse".to_string(),
        bundle_identifier: "bundle.pulse".to_string(),
        launch_name: "vaexcore pulse".to_string(),
        discovery_file: "vaexcore-pulse.json".to_string(),
    };
    let status = suite_app_status(&definition, None, "/suite/vaexcore-pulse.json".to_string(), "Install it.", true, false,
        true, false);
    assert_eq!(status.app_name, "vaexcore pulse");
    assert_eq!(status.detail, "No suite heartbeat has been published yet.");
    assert!(status.pid.is_none());
    assert!(status.stale);
}

#[test]
fn output_folder_check_reports_each_probe_step() {
    let ok = output_folder_preflight_check("/tmp/rec", OutputFolderProbe::Writable);
    assert_eq!(ok.id, "recording.output_folder");
    assert_eq!(ok.label, "Output Folder");
    assert_eq!(ok.status, PreflightStatus::Ready);
    assert_eq!(ok.detail, "Writable: /tmp/rec");
    let create = output_folder_preflight_check("/x", OutputFolderProbe::CreateFailed("denied".to_string()));
    assert_eq!(create.status, PreflightStatus::Blocked);
    assert_eq!(create.detail, "Could not create '/x': denied");
    let open = output_folder_preflight_check("/x", OutputFolderProbe::OpenFailed("busy".to_string()));
    assert_eq!(open.detail, "Could not open write probe in '/x': busy");
    let write = output_folder_preflight_check("/x", OutputFolderProbe::WriteFailed("full".to_string()));
    assert_eq!(write.status, PreflightStatus::Blocked);
    assert_eq!(write.detail, "Could not write to '/x': full");
}

#[test]
fn audio_filters_run_by_order_then_id() {
    let key = |id: &str, order: i32| AudioFilterOrderKey { id: id.to_string(), order };
    let filters = vec![key("gate", 2), key("comp", 1), key("boost", 2), key("a", 1), key("boost", 2)];
    assert_eq!(sorted_audio_source_filters(&filters), vec![3, 1, 2, 4, 0]);
    assert_eq!(sorted_audio_source_filters(&Vec::new()), Vec::<usize>::new());
    assert_eq!(sorted_audio_source_filters(&vec![key("z", -5), key("a", 0)]), vec![0, 1]);
}

#[test]
fn media_runner_check_follows_runner_health() {
    let none = media_runner_preflight_check(None);
    assert_eq!(none.id, "media.sidecar");
    assert_eq!(none.status, PreflightStatus::Warning);
    assert_eq!(none.detail, "Sidecar is not running; Studio will use in-process dry-run media.");
    let healthy = media_runner_preflight_check(Some(("127.0.0.1:51288".to_string(), Ok(()))));
    assert_eq!(healthy.status, PreflightStatus::Ready);
    assert_eq!(healthy.detail, "Sidecar is reachable at 127.0.0.1:51288.");
    let sick = media_runner_preflight_check(Some(("a".to_string(), Err("timeout".to_string()))));
    assert_eq!(sick.status, PreflightStatus::Warning);
    assert_eq!(sick.detail, "Sidecar is configured but not healthy: timeout");
}
