use std::time::{Duration, SystemTime};

use vaexcore_studio::backups::backups_to_prune;
use vaexcore_studio::suite::{
    build_pulse_recording_handoff_document, build_suite_command_document, build_suite_session_document,
    check_suite_discovery_document, http_url_authority, sanitize_handoff_id, sanitize_suite_file_component,
    suite_app_definition_for, suite_discovery_file, suite_discovery_modified_is_stale, suite_status_detail,
    validate_local_url, validate_pulse_recording_handoff_document, validate_suite_command_document,
    validate_suite_discovery_document, PulseRecordingHandoffDocument, PulseRecordingHandoffRecording,
    SuiteAppDefinition, SuiteCommandDocument, SuiteDiscoveryDocument, SuiteLocalRuntime,
    SuiteLocalRuntimeDependency, SuiteProtocol, CONSOLE_APP_ID, PULSE_APP_ID, STUDIO_APP_ID,
};

const SUITE_DISCOVERY_STALE_AFTER: Duration = Duration::from_secs(45);

fn nanos(time: SystemTime) -> i128 {
    match time.duration_since(SystemTime::UNIX_EPOCH) {
        Ok(elapsed) => elapsed.as_nanos() as i128,
        Err(before) => -(before.duration().as_nanos() as i128),
    }
}

fn is_stale(modified: SystemTime, now: SystemTime) -> bool {
    suite_discovery_modified_is_stale(nanos(modified), nanos(now))
}

fn definition(app_id: &str, app_name: &str) -> SuiteAppDefinition {
    SuiteAppDefinition {
        app_id: app_id.to_string(),
        app_name: app_name.to_string(),
        bundle_identifier: format!("bundle.{app_id}"),
        launch_name: app_name.to_string(),
        discovery_file: format!("{app_id}.json"),
    }
}

fn suite_apps() -> Vec<SuiteAppDefinition> {
    vec![
        definition(STUDIO_APP_ID, "vaexcore studio"),
        definition(PULSE_APP_ID, "vaexcore pulse"),
        definition(CONSOLE_APP_ID, "vaexcore console"),
    ]
}

#[test]
fn suite_discovery_stale_classification_uses_heartbeat_age() {
    let now = SystemTime::UNIX_EPOCH + Duration::from_secs(100);
    let fresh = now - Duration::from_secs(10);
    let stale = now - SUITE_DISCOVERY_STALE_AFTER - Duration::from_secs(1);

    assert!(!is_stale(fresh, now));
    assert!(is_stale(stale, now));
}

#[test]
fn suite_discovery_file_uses_contract_discovery_filename() {
    let apps = suite_apps();
    assert!(suite_discovery_file(&apps, STUDIO_APP_ID).ends_with("vaexcore-studio.json"));
    assert!(suite_discovery_file(&apps, "vaexcore-unknown").ends_with("vaexcore-unknown.json"));
}

const SCHEMA_VERSION: u8 = 1;
const APP_NAME: &str = "vaexcore studio";

fn protocol() -> SuiteProtocol {
    SuiteProtocol { schema_version: SCHEMA_VERSION, apps: suite_apps() }
}

fn valid_suite_command() -> SuiteCommandDocument {
    let mut object = serde_json::Map::new();
    object.insert("recordingSessionId".to_string(), serde_json::Value::String("rec_smoke".to_string()));
    let payload = serde_json::Value::Object(object);
    SuiteCommandDocument {
        schema_version: SCHEMA_VERSION,
        command_id: "open-review-1".to_string(),
        source_app: STUDIO_APP_ID.to_string(),
        source_app_name: APP_NAME.to_string(),
        target_app: PULSE_APP_ID.to_string(),
        command: "open-review".to_string(),
        requested_at: "2026-05-06T12:00:00Z".to_string(),
        payload_is_object: payload.is_object(),
    }
}

fn valid_pulse_handoff() -> PulseRecordingHandoffDocument {
    PulseRecordingHandoffDocument {
        schema_version: SCHEMA_VERSION,
        request_id: "studio-recording-rec-smoke-1".to_string(),
        source_app: STUDIO_APP_ID.to_string(),
        source_app_name: APP_NAME.to_string(),
        target_app: PULSE_APP_ID.to_string(),
        requested_at: "2026-05-06T12:00:00Z".to_string(),
        recording: PulseRecordingHandoffRecording {
            session_id: "rec_smoke".to_string(),
            output_path: "/tmp/rec_smoke.mkv".to_string(),
            profile_id: None,
            profile_name: None,
            stopped_at: "2026-05-06T12:05:00Z".to_string(),
        },
    }
}

fn valid_suite_discovery() -> SuiteDiscoveryDocument {
    let studio = &suite_apps()[0];
    SuiteDiscoveryDocument {
        schema_version: SCHEMA_VERSION,
        app_id: STUDIO_APP_ID.to_string(),
        app_name: studio.app_name.clone(),
        bundle_identifier: studio.bundle_identifier.clone(),
        version: "0.1.0".to_string(),
        pid: 4242,
        started_at: "2026-05-06T12:00:00Z".to_string(),
        updated_at: "2026-05-06T12:00:15Z".to_string(),
        api_url: Some("http://127.0.0.1:51287".to_string()),
        ws_url: Some("ws://127.0.0.1:51287/events".to_string()),
        health_url: Some("http://127.0.0.1:51287/health".to_string()),
        capabilities: vec!["recording".to_string()],
        launch_name: studio.launch_name.clone(),
        suite_session_id: None,
        activity: None,
        activity_detail: None,
        local_runtime: Some(SuiteLocalRuntime {
            contract_version: SCHEMA_VERSION,
            mode: "local".to_string(),
            state: "ready".to_string(),
            app_storage_dir: "/tmp/studio".to_string(),
            suite_dir: "/tmp/suite".to_string(),
            secure_storage: "keychain".to_string(),
            secret_storage_state: "ready".to_string(),
            durable_storage: vec!["sqlite".to_string()],
            network_policy: "localhost-only".to_string(),
            dependencies: vec![SuiteLocalRuntimeDependency {
                name: "media-runner".to_string(),
                kind: "process".to_string(),
                state: "ready".to_string(),
                detail: "ready".to_string(),
            }],
        }),
    }
}

#[test]
fn suite_command_validation_rejects_unknown_target_app() {
    let mut document = valid_suite_command();
    document.target_app = "vaexcore-unknown".to_string();

    assert!(validate_suite_command_document(&protocol(), &document).unwrap_err().contains("unknown target app"));
}

#[test]
fn suite_command_validation_rejects_non_object_payload() {
    let mut document = valid_suite_command();
    let payload = serde_json::Value::String("not-object".to_string());
    document.payload_is_object = payload.is_object();

    assert!(validate_suite_command_document(&protocol(), &document).unwrap_err().contains("payload"));
}

#[test]
fn suite_command_validation_accepts_valid_command() {
    assert!(validate_suite_command_document(&protocol(), &valid_suite_command()).is_ok());
    let mut stale_schema = valid_suite_command();
    stale_schema.schema_version = 7;
    assert_eq!(
        validate_suite_command_document(&protocol(), &stale_schema).unwrap_err(),
        "expected schema version 1, got 7"
    );
}

#[test]
fn pulse_handoff_validation_rejects_empty_output_path() {
    let mut document = valid_pulse_handoff();
    document.recording.output_path = " ".to_string();

    assert!(validate_pulse_recording_handoff_document(SCHEMA_VERSION, &document).unwrap_err().contains("outputPath"));
}

#[test]
fn pulse_handoff_validation_rejects_wrong_target() {
    let mut document = valid_pulse_handoff();
    document.target_app = CONSOLE_APP_ID.to_string();

    assert!(validate_pulse_recording_handoff_document(SCHEMA_VERSION, &document).unwrap_err().contains("target app"));
}

#[test]
fn pulse_handoff_validation_checks_stopped_at() {
    assert!(validate_pulse_recording_handoff_document(SCHEMA_VERSION, &valid_pulse_handoff()).is_ok());
    let mut document = valid_pulse_handoff();
    document.recording.stopped_at = "yesterday".to_string();
    assert_eq!(
        validate_pulse_recording_handoff_document(SCHEMA_VERSION, &document).unwrap_err(),
        "recording.stoppedAt must be an RFC3339 timestamp"
    );
}

#[test]
fn suite_discovery_validation_rejects_epoch_timestamp() {
    let mut document = valid_suite_discovery();
    document.updated_at = "1778048017".to_string();

    assert!(validate_suite_discovery_document(&protocol(), &document).unwrap_err().contains("updatedAt"));
}

#[test]
fn suite_discovery_validation_rejects_non_local_urls() {
    let mut document = valid_suite_discovery();
    document.health_url = Some("https://example.com/health".to_string());

    assert!(validate_suite_discovery_document(&protocol(), &document).unwrap_err().contains("localhost"));
}

#[test]
fn suite_discovery_validation_checks_identity_and_runtime() {
    assert!(validate_suite_discovery_document(&protocol(), &valid_suite_discovery()).is_ok());
    let mut unknown = valid_suite_discovery();
    unknown.app_id = "vaexcore-unknown".to_string();
    assert_eq!(
        check_suite_discovery_document(&protocol(), &unknown, true, true).unwrap_err(),
        "unknown suite app vaexcore-unknown"
    );
    let mut no_deps = valid_suite_discovery();
    no_deps.local_runtime.as_mut().unwrap().dependencies.clear();
    assert_eq!(
        check_suite_discovery_document(&protocol(), &no_deps, true, true).unwrap_err(),
        "localRuntime.dependencies must not be empty"
    );
    assert_eq!(
        check_suite_discovery_document(&protocol(), &valid_suite_discovery(), false, true).unwrap_err(),
        "startedAt must be an RFC3339 timestamp"
    );
}

#[test]
fn local_urls_are_loopback_only() {
    assert!(validate_local_url("http://localhost:8080/health", "healthUrl").is_ok());
    assert!(validate_local_url("ws://127.0.0.1:1/events", "wsUrl").is_ok());
    assert_eq!(validate_local_url("http://127.0.0.1/", "apiUrl").unwrap_err(), "apiUrl must be a localhost URL");
}

#[test]
fn suite_app_lookup_and_heartbeat_edges() {
    let apps = suite_apps();
    assert_eq!(suite_app_definition_for(&apps, PULSE_APP_ID), Some(1));
    assert_eq!(suite_app_definition_for(&apps, "vaexcore-unknown"), None);
    let now = SystemTime::UNIX_EPOCH + Duration::from_secs(100);
    assert!(!is_stale(now - SUITE_DISCOVERY_STALE_AFTER, now));
    assert!(is_stale(now + Duration::from_secs(1), now));
}

#[test]
fn suite_file_components_are_sanitized() {
    assert_eq!(sanitize_suite_file_component("--open review/1--"), "open-review-1");
    assert_eq!(sanitize_suite_file_component("///"), "suite-command");
    assert_eq!(sanitize_handoff_id(""), "recording");
    assert_eq!(sanitize_handoff_id(&"a".repeat(100)).len(), 80);
    assert_eq!(sanitize_handoff_id("rec_ünï"), "rec_-n");
}

#[test]
fn suite_status_and_authority() {
    assert_eq!(suite_status_detail("Install it.", false, true, true, false, true), "Install it.");
    assert_eq!(suite_status_detail("x", true, true, true, true, true), "The suite heartbeat is stale.");
    assert_eq!(suite_status_detail("x", true, true, true, false, true), "Ready.");
    assert_eq!(http_url_authority("http://127.0.0.1:8080/health").as_deref(), Some("127.0.0.1:8080"));
    assert_eq!(http_url_authority("https://localhost").as_deref(), Some("localhost"));
    assert_eq!(http_url_authority("http:///x"), None);
    assert_eq!(http_url_authority("ftp://host"), None);
}

#[test]
fn scene_collection_backup_pruning_keeps_newest_files() {
    let mut names = (0..12).map(|index| format!("scene-collection-20260508T12{index:02}00Z.json")).collect::<Vec<_>>();
    names.push("notes.txt".to_string());
    names.reverse();

    let removed = backups_to_prune(&names, 3);
    let mut remaining = names
        .iter()
        .filter(|name| name.starts_with("scene-collection-") && !removed.contains(name))
        .cloned()
        .collect::<Vec<_>>();
    remaining.sort();

    assert_eq!(removed.len(), 9);
    assert_eq!(remaining, vec![
        "scene-collection-20260508T120900Z.json".to_string(),
        "scene-collection-20260508T121000Z.json".to_string(),
        "scene-collection-20260508T121100Z.json".to_string(),
    ]);
    assert!(backups_to_prune(&names, 20).is_empty());
}

#[test]
fn studio_builds_suite_documents() {
    let session = build_suite_session_document(1, None, Some("  Friday stream ".to_string()), "2026-05-06T12:00:00Z", 42);
    assert_eq!(session.session_id, "suite-42");
    assert_eq!(session.title, "Friday stream");
    assert_eq!(session.owner_app, STUDIO_APP_ID);
    let again = build_suite_session_document(1, Some(&session), None, "2026-05-06T13:00:00Z", 99);
    assert_eq!(again.session_id, "suite-42");
    assert_eq!(again.title, "VaexCore Suite Session");
    assert_eq!(again.created_at, "2026-05-06T12:00:00Z");
    assert_eq!(again.updated_at, "2026-05-06T13:00:00Z");

    let command = build_suite_command_document(
        SCHEMA_VERSION,
        PULSE_APP_ID.to_string(),
        "open review".to_string(),
        true,
        "2026-05-06T12:00:00Z".to_string(),
        1_778_048_017_000,
    );
    assert_eq!(command.command_id, "open-review-1778048017000");
    assert!(validate_suite_command_document(&protocol(), &command).is_ok());

    let handoff = build_pulse_recording_handoff_document(
        SCHEMA_VERSION,
        valid_pulse_handoff().recording,
        "2026-05-06T12:00:00Z".to_string(),
        -5,
    );
    assert_eq!(handoff.request_id, "studio-recording-rec_smoke--5");
    assert!(validate_pulse_recording_handoff_document(SCHEMA_VERSION, &handoff).is_ok());
}

#[test]
fn studio_local_runtime_reports_storage_and_media_runner() {
    let managed = vaexcore_studio::suite::studio_suite_local_runtime(
        1,
        "/data",
        "/suite",
        Some(("keychain".to_string(), "ready".to_string())),
        true,
    );
    assert_eq!(managed.contract_version, 1);
    assert_eq!(managed.mode, "local-first");
    assert_eq!(managed.secure_storage, "keychain");
    assert_eq!(managed.secret_storage_state, "ready");
    assert_eq!(managed.durable_storage.len(), 4);
    assert_eq!(managed.durable_storage[2], "api-discovery.json");
    assert_eq!(managed.dependencies[0].state, "managed");
    let fallback = vaexcore_studio::suite::studio_suite_local_runtime(1, "/data", "/suite", None, false);
    assert_eq!(fallback.secure_storage, "unknown");
    assert_eq!(fallback.secret_storage_state, "unavailable");
    assert_eq!(fallback.dependencies[0].state, "dry-run-fallback");
    assert_eq!(fallback.dependencies[0].detail, "Studio is using the in-process dry-run media engine.");
    assert_eq!(fallback.network_policy, "localhost-only");
}
