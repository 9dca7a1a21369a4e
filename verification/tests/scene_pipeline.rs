use vaexcore_studio::audio::{build_audio_mixer_plan, validate_audio_mixer_plan, AudioMixSourceStatus};
use vaexcore_studio::capture::{
    build_capture_frame_plan, build_capture_provider_runtime_snapshot, default_capture_sources,
    CaptureFrameBinding, CaptureFrameBindingStatus, CaptureFrameFormat, CaptureFrameMediaKind,
    CaptureFrameTransport, CaptureProviderLifecycleState, CaptureSourceKind, MockCaptureProvider,
};
use vaexcore_studio::compositor::{
    build_compositor_graph, build_compositor_render_plan, compositor_frame_clock, compositor_render_target,
    validate_compositor_graph, validate_compositor_render_plan, CompositorGeometryChecks, CompositorNodeStatus,
    CompositorRenderTargetKind,
};
use vaexcore_studio::output::{
    DesignerRuntimeReadinessState, OutputJob, OutputJobPrepareRequest, OutputJobState, SceneOutputReadyDiagnostic,
};
use vaexcore_studio::performance::{
    build_performance_telemetry_plan, validate_performance_telemetry_plan, PerformanceTargetBudget,
    PerformanceTelemetryPlan, PerformanceTelemetryValidation,
};
use vaexcore_studio::pipeline::{
    build_output_preflight_plan, default_pipeline_plan_request, pipeline_budgets_fit, MediaPipelinePlan, MediaPipelinePlanRequest, PipelineIntent,
};
use vaexcore_studio::profiles::{
    same_secret_ref, stream_key_to_store, EncoderPreference, MediaProfile, MediaProfileInput, PlatformKind,
    SecretRef, StreamDestination, StreamDestinationInput,
};
use vaexcore_studio::scene::{
    ConfigEntry, ConfigField, ConfigScalar, ConfigValue, Scene, SceneCanvas, SceneSource, SceneSourceBoundsMode,
    SceneSourceKind,
};

fn text(key: &str, value: &str) -> ConfigEntry {
    ConfigEntry { key: key.to_string(), value: ConfigValue::Scalar(ConfigScalar::Str(value.to_string())) }
}

fn object(key: &str, fields: Vec<(&str, ConfigScalar)>) -> ConfigEntry {
    ConfigEntry {
        key: key.to_string(),
        value: ConfigValue::Object(
            fields.into_iter().map(|(k, v)| ConfigField { key: k.to_string(), value: v }).collect(),
        ),
    }
}

fn geometry_ok() -> CompositorGeometryChecks {
    CompositorGeometryChecks {
        position_x_finite: true,
        position_y_finite: true,
        width_positive: true,
        height_positive: true,
        crop_top_non_negative: true,
        crop_right_non_negative: true,
        crop_bottom_non_negative: true,
        crop_left_non_negative: true,
        rotation_finite: true,
        opacity_in_range: true,
    }
}

fn source(
    id: &str,
    name: &str,
    kind: SceneSourceKind,
    z_index: i32,
    size: (u32, u32),
    capture: Option<&str>,
    config: Vec<ConfigEntry>,
) -> SceneSource {
    SceneSource {
        id: id.to_string(),
        name: name.to_string(),
        kind,
        visible: true,
        locked: false,
        z_index,
        bounds_mode: SceneSourceBoundsMode::Fit,
        rounded_width: size.0,
        rounded_height: size.1,
        capture_source_id: capture.map(str::to_string),
        geometry: geometry_ok(),
        audio_gain_in_range: true,
        audio_sync_offset_ms: 0,
        config,
    }
}

/// The studio's main scene: a display that still needs screen-recording permission,
/// a camera, a microphone meter waiting for its input, and a title.
fn studio_scene() -> Scene {
    Scene {
        id: "scene-main".to_string(),
        name: "Main Scene".to_string(),
        canvas: SceneCanvas { width: 1920, height: 1080, background_color: "#050711".to_string() },
        sources: vec![
            source("source-title", "Title", SceneSourceKind::Text, 30, (640, 120), None, vec![text(
                "text",
                "vaexcore studio",
            )]),
            source("source-main-display", "Main Display", SceneSourceKind::Display, 0, (1920, 1080),
                Some("display:main"), vec![
                    text("display_id", "display:main"),
                    object("resolution", vec![("width", ConfigScalar::UInt(1920)), ("height", ConfigScalar::UInt(1080))]),
                    object("availability", vec![
                        ("state", ConfigScalar::Str("permission_required".to_string())),
                        ("detail", ConfigScalar::Str("Screen Recording permission is required.".to_string())),
                    ]),
                ]),
            source("source-camera", "Camera", SceneSourceKind::Camera, 10, (480, 270), Some("camera:default"),
                vec![text("device_id", "camera:default")]),
            source("source-mic-meter", "Microphone", SceneSourceKind::AudioMeter, 20, (320, 80), None, vec![text(
                "channel",
                "microphone",
            )]),
        ],
    }
}

fn twitch_destination() -> StreamDestination {
    StreamDestination {
        id: "stream-dest-main".to_string(),
        name: "Twitch Main".to_string(),
        platform: PlatformKind::Twitch,
        ingest_url: "rtmp://live.twitch.tv/app".to_string(),
        stream_key_ref: Some(SecretRef { provider: "test".to_string(), id: "stream-key".to_string() }),
        enabled: true,
        created_at: 0,
        updated_at: 0,
    }
}

fn pipeline_plan(request: MediaPipelinePlanRequest) -> MediaPipelinePlan {
    assert!(pipeline_budgets_fit(&request));
    MediaPipelinePlan {
        pipeline_name: "dry-run".to_string(),
        dry_run: true,
        ready: true,
        config: request.into_config(),
        steps: Vec::new(),
        warnings: Vec::new(),
        errors: Vec::new(),
    }
}

fn ready_scene_output(scene: &Scene) -> SceneOutputReadyDiagnostic {
    SceneOutputReadyDiagnostic {
        version: 1,
        ready: true,
        state: DesignerRuntimeReadinessState::Ready,
        active_scene_id: scene.id.clone(),
        active_scene_name: scene.name.clone(),
        program_preview_frame_ready: true,
        compositor_render_plan_ready: true,
        output_preflight_ready: true,
        media_pipeline_ready: true,
        detail: "ready".to_string(),
        blockers: Vec::new(),
        warnings: Vec::new(),
    }
}

fn no_request() -> OutputJobPrepareRequest {
    OutputJobPrepareRequest { recording_profile_id: None, stream_destination_ids: None }
}

#[test]
fn capture_frame_plan_describes_default_scene_bindings() {
    let scene = studio_scene();
    let plan = build_capture_frame_plan(&scene);

    assert_eq!(plan.scene_id, "scene-main");
    assert_eq!(plan.bindings.len(), 3);
    assert!(plan.validation.ready, "{:?}", plan.validation.errors);
    assert!(plan.validation.warnings.iter().any(|warning| warning.contains("requires capture permission")));

    let display = plan.bindings.iter().find(|binding| binding.scene_source_id == "source-main-display").unwrap();
    assert_eq!(display.capture_kind, CaptureSourceKind::Display);
    assert_eq!(display.media_kind, CaptureFrameMediaKind::Video);
    assert_eq!(display.width, Some(1920));
    assert_eq!(display.height, Some(1080));
    assert_eq!(display.format, CaptureFrameFormat::Bgra8);
    assert_eq!(display.transport, CaptureFrameTransport::Unavailable);

    let audio = plan.bindings.iter().find(|binding| binding.scene_source_id == "source-mic-meter").unwrap();
    assert_eq!(audio.capture_kind, CaptureSourceKind::Microphone);
    assert_eq!(audio.media_kind, CaptureFrameMediaKind::Audio);
    assert_eq!(audio.sample_rate, Some(48_000));
    assert_eq!(audio.channels, Some(2));
}

#[test]
fn capture_provider_snapshot_tracks_binding_lifecycle() {
    let scene = studio_scene();
    let snapshot = build_capture_provider_runtime_snapshot(&scene);

    assert_eq!(snapshot.scene_id, "scene-main");
    assert_eq!(snapshot.providers.len(), 3);
    assert!(snapshot.validation.ready);
    assert!(snapshot.providers.iter().any(|provider| {
        provider.capture_kind == CaptureSourceKind::Display && provider.lifecycle == CaptureProviderLifecycleState::Idle
    }));
}

#[test]
fn mock_capture_provider_emits_deterministic_video_and_audio_packets() {
    let mut video_provider = MockCaptureProvider::new(CaptureFrameBinding {
        scene_source_id: "source-video".to_string(),
        scene_source_name: "Video".to_string(),
        capture_source_id: Some("display:test".to_string()),
        capture_kind: CaptureSourceKind::Display,
        media_kind: CaptureFrameMediaKind::Video,
        width: Some(4),
        height: Some(3),
        framerate: Some(30),
        sample_rate: None,
        channels: None,
        format: CaptureFrameFormat::Bgra8,
        transport: CaptureFrameTransport::SharedMemory,
        status: CaptureFrameBindingStatus::Ready,
        status_detail: "ready".to_string(),
    });
    assert_eq!(video_provider.status().lifecycle, CaptureProviderLifecycleState::Running);
    let first_video = video_provider.next_video_frame().unwrap();
    let second_video = video_provider.next_video_frame().unwrap();
    assert_eq!(first_video.width, 4);
    assert_eq!(first_video.height, 3);
    assert_eq!(first_video.pixels.len(), 4 * 3 * 4);
    assert_eq!(first_video.frame_index, 0);
    assert_eq!(second_video.frame_index, 1);
    assert_ne!(first_video.pixels, second_video.pixels);

    let audio_provider = MockCaptureProvider::new(CaptureFrameBinding {
        scene_source_id: "source-audio".to_string(),
        scene_source_name: "Audio".to_string(),
        capture_source_id: Some("microphone:test".to_string()),
        capture_kind: CaptureSourceKind::Microphone,
        media_kind: CaptureFrameMediaKind::Audio,
        width: None,
        height: None,
        framerate: None,
        sample_rate: Some(48_000),
        channels: Some(2),
        format: CaptureFrameFormat::PcmF32,
        transport: CaptureFrameTransport::SharedMemory,
        status: CaptureFrameBindingStatus::Ready,
        status_detail: "ready".to_string(),
    });
    let status = audio_provider.status();
    assert_eq!(status.sample_rate, Some(48_000));
    assert_eq!(status.channels, Some(2));
    assert_eq!(audio_provider.audio_duration_nanos(480), 10_000_000);
}

#[test]
fn compositor_graph_preserves_scene_order_and_status() {
    let scene = studio_scene();
    let graph = build_compositor_graph(&scene);

    assert_eq!(graph.scene_id, "scene-main");
    assert_eq!(graph.output.width, 1920);
    assert_eq!(graph.nodes.len(), scene.sources.len());
    assert_eq!(graph.nodes[0].source_id, "source-main-display");
    assert_eq!(graph.nodes[0].status, CompositorNodeStatus::PermissionRequired);

    let validation = validate_compositor_graph(&graph);
    assert!(validation.ready, "{:?}", validation.errors);
    assert!(!validation.warnings.is_empty());
}

#[test]
fn compositor_graph_orders_by_z_index_then_id() {
    let scene = studio_scene();
    let graph = build_compositor_graph(&scene);
    let order: Vec<&str> = graph.nodes.iter().map(|node| node.source_id.as_str()).collect();
    assert_eq!(order, vec!["source-main-display", "source-camera", "source-mic-meter", "source-title"]);
    assert_eq!(graph.nodes[0].id, "node-source-main-display");
    assert_eq!(graph.nodes[3].status_detail, "Text content configured.");
}

#[test]
fn compositor_validation_rejects_invalid_geometry() {
    let scene = studio_scene();
    let mut graph = build_compositor_graph(&scene);
    graph.nodes[0].geometry.width_positive = false;
    graph.nodes[0].geometry.opacity_in_range = false;

    let validation = validate_compositor_graph(&graph);

    assert!(!validation.ready);
    assert!(validation.errors.iter().any(|error| error.contains("size.width")));
    assert!(validation.errors.iter().any(|error| error.contains("opacity")));
}

#[test]
fn compositor_render_plan_validates_program_and_output_targets() {
    let scene = studio_scene();
    let graph = build_compositor_graph(&scene);
    let plan = build_compositor_render_plan(&graph, vec![
        compositor_render_target("preview", "Preview", CompositorRenderTargetKind::Preview, graph.output.width,
            graph.output.height, 60),
        compositor_render_target("program", "Program", CompositorRenderTargetKind::Program, graph.output.width,
            graph.output.height, 60),
    ]);

    let validation = validate_compositor_render_plan(&plan);

    assert!(validation.ready, "{:?}", validation.errors);
    assert_eq!(plan.targets.len(), 2);
    assert_eq!(plan.targets[1].kind, CompositorRenderTargetKind::Program);
}

#[test]
fn compositor_render_plan_warns_without_program_target() {
    let scene = studio_scene();
    let graph = build_compositor_graph(&scene);
    let mut preview = compositor_render_target("preview", "Preview", CompositorRenderTargetKind::Preview, 0, 1080, 0);
    preview.enabled = true;
    let plan = build_compositor_render_plan(&graph, vec![preview]);
    let validation = validate_compositor_render_plan(&plan);
    assert!(!validation.ready);
    assert!(validation.warnings.contains(&"compositor render plan has no enabled program target".to_string()));
    assert!(validation
        .errors
        .contains(&"compositor render target \"preview\" dimensions must be greater than zero".to_string()));
    assert!(validation
        .errors
        .contains(&"compositor render target \"preview\" framerate must be greater than zero".to_string()));
}

#[test]
fn compositor_frame_clock_follows_first_enabled_target() {
    let mut disabled = compositor_render_target("a", "A", CompositorRenderTargetKind::Preview, 1, 1, 24);
    disabled.enabled = false;
    let enabled = compositor_render_target("b", "B", CompositorRenderTargetKind::Program, 1, 1, 30);
    let clock = compositor_frame_clock(&vec![disabled, enabled], 3);
    assert_eq!(clock.framerate, 30);
    assert_eq!(clock.duration_nanos, 33_333_333);
    assert_eq!(clock.pts_nanos, 99_999_999);

    let default_clock = compositor_frame_clock(&Vec::new(), u64::MAX);
    assert_eq!(default_clock.framerate, 60);
    assert_eq!(default_clock.duration_nanos, 16_666_666);
    assert_eq!(default_clock.pts_nanos, u64::MAX);
}

#[test]
fn performance_plan_describes_enabled_render_targets() {
    let scene = studio_scene();
    let graph = build_compositor_graph(&scene);
    let plan = build_compositor_render_plan(&graph, vec![compositor_render_target(
        "target-program",
        "Program",
        CompositorRenderTargetKind::Program,
        1920,
        1080,
        60,
    )]);

    let telemetry = build_performance_telemetry_plan(&plan);

    assert!(telemetry.validation.ready, "{:?}", telemetry.validation);
    assert_eq!(telemetry.scene_id, "scene-main");
    assert_eq!(telemetry.targets.len(), 1);
    assert_eq!(telemetry.targets[0].frame_budget_nanos, 16_666_666);
    assert_eq!(telemetry.targets[0].render_budget_nanos, 11_666_666);
    assert_eq!(telemetry.targets[0].max_dropped_frames_per_minute, 18);
    assert_eq!(telemetry.targets[0].estimated_rgba_bytes_per_frame, 8_294_400);
}

#[test]
fn performance_validation_warns_on_heavy_targets() {
    let mut telemetry = PerformanceTelemetryPlan {
        version: 1,
        scene_id: "scene-main".to_string(),
        scene_name: "Main".to_string(),
        sample_window_seconds: 10,
        cpu_warning_hundredths: 8500,
        gpu_warning_hundredths: 8500,
        targets: vec![PerformanceTargetBudget {
            target_id: "target-8k".to_string(),
            target_name: "8K Program".to_string(),
            target_kind: CompositorRenderTargetKind::Program,
            width: 7680,
            height: 4320,
            framerate: 144,
            frame_budget_nanos: 6_944_444,
            render_budget_nanos: 4_861_110,
            encode_budget_nanos: 1_388_888,
            max_latency_ms: 14,
            max_dropped_frames_per_minute: 43,
            pixel_count: 33_177_600,
            estimated_rgba_bytes_per_frame: 132_710_400,
            estimated_rgba_bytes_per_second: 19_110_297_600,
        }],
        validation: PerformanceTelemetryValidation { ready: true, warnings: Vec::new(), errors: Vec::new() },
    };

    telemetry.validation = validate_performance_telemetry_plan(&telemetry);

    assert!(telemetry.validation.ready);
    assert!(telemetry.validation.warnings.iter().any(|warning| warning.contains("144 fps")));
    assert!(telemetry.validation.warnings.iter().any(|warning| warning.contains("throughput")));

    telemetry.cpu_warning_hundredths = 8550;
    telemetry.gpu_warning_hundredths = 10000;
    assert!(validate_performance_telemetry_plan(&telemetry).ready);
    telemetry.cpu_warning_hundredths = 10001;
    telemetry.gpu_warning_hundredths = 0;
    assert_eq!(validate_performance_telemetry_plan(&telemetry).errors, vec![
        "performance telemetry CPU warning percent must be 1-100".to_string(),
        "performance telemetry GPU warning percent must be 1-100".to_string(),
    ]);
}

#[test]
fn output_preflight_plan_describes_recording_and_stream_targets() {
    let scene = studio_scene();
    let profile = MediaProfile::default_local();
    let request = MediaPipelinePlanRequest {
        dry_run: true,
        intent: PipelineIntent::RecordingAndStream,
        capture_sources: default_capture_sources(),
        active_scene: Some(scene),
        recording_profile: Some(profile),
        stream_destinations: vec![twitch_destination()],
    };
    assert!(pipeline_budgets_fit(&request));
    let config = request.into_config();
    let preflight = config.output_preflight_plan.unwrap();

    assert!(preflight.validation.ready, "{:?}", preflight.validation);
    assert_eq!(preflight.render_targets.len(), 4);
    assert_eq!(preflight.recording_target.unwrap().render_target_id, "target-recording");
    assert_eq!(preflight.streaming_targets.len(), 1);
    assert_eq!(preflight.streaming_targets[0].render_target_id, "target-stream-stream-dest-main");
}

#[test]
fn pipeline_config_derives_plans_from_the_scene() {
    let request = MediaPipelinePlanRequest {
        dry_run: true,
        intent: PipelineIntent::Stream,
        capture_sources: default_capture_sources(),
        active_scene: Some(studio_scene()),
        recording_profile: None,
        stream_destinations: Vec::new(),
    };
    assert!(pipeline_budgets_fit(&request));
    let config = request.into_config();
    assert_eq!(config.version, 1);
    assert_eq!(config.capture_frame_plan.as_ref().unwrap().bindings.len(), 3);
    assert_eq!(config.audio_mixer_plan.as_ref().unwrap().sources.len(), 1);
    let render_plan = config.compositor_render_plan.as_ref().unwrap();
    let ids: Vec<&str> = render_plan.targets.iter().map(|target| target.id.as_str()).collect();
    assert_eq!(ids, vec!["target-preview", "target-program", "target-stream"]);
    assert!(render_plan.targets.iter().all(|target| target.framerate == 60));
    assert_eq!(config.performance_telemetry_plan.as_ref().unwrap().targets.len(), 3);

    let without_scene = MediaPipelinePlanRequest {
        dry_run: false,
        intent: PipelineIntent::Recording,
        capture_sources: Vec::new(),
        active_scene: None,
        recording_profile: None,
        stream_destinations: Vec::new(),
    }
    .into_config();
    assert!(without_scene.compositor_graph.is_none());
    assert!(without_scene.output_preflight_plan.is_some());
}

#[test]
fn pipeline_budgets_reject_oversized_targets() {
    let mut scene = studio_scene();
    scene.canvas.width = u32::MAX;
    scene.canvas.height = u32::MAX;
    let request = MediaPipelinePlanRequest {
        dry_run: true,
        intent: PipelineIntent::Recording,
        capture_sources: Vec::new(),
        active_scene: Some(scene),
        recording_profile: None,
        stream_destinations: Vec::new(),
    };
    assert!(!pipeline_budgets_fit(&request));
}

#[test]
fn output_preflight_validation_blocks_invalid_encoder_contracts() {
    let mut profile = MediaProfile::from_input(MediaProfileInput::default());
    profile.encoder_preference = EncoderPreference::Named(" ".to_string());
    let plan = build_output_preflight_plan(PipelineIntent::Recording, None, None, Some(&profile), &[]);

    assert!(!plan.validation.ready);
    assert!(plan.validation.errors.iter().any(|error| error.contains("named encoder")));
}

#[test]
fn prepared_output_job_becomes_ready_when_pipeline_contracts_are_ready() {
    let scene = studio_scene();
    let profile = MediaProfile::default_local();
    let destination = StreamDestination::from_input(
        StreamDestinationInput {
            name: "Dry Run".to_string(),
            platform: PlatformKind::CustomRtmp,
            ingest_url: Some("rtmp://localhost/live".to_string()),
            stream_key: Some("secret".to_string()),
            enabled: Some(true),
        },
        Some(SecretRef { provider: "local-sqlite".to_string(), id: "stream-key".to_string() }),
    );
    let pipeline = pipeline_plan(MediaPipelinePlanRequest {
        dry_run: true,
        intent: PipelineIntent::RecordingAndStream,
        capture_sources: default_capture_sources(),
        active_scene: Some(scene.clone()),
        recording_profile: Some(profile),
        stream_destinations: vec![destination],
    });
    let output_ready = ready_scene_output(&scene);

    let job = OutputJob::prepared("job-ready".to_string(), no_request(), &pipeline, &output_ready, 0);

    assert_eq!(job.state, OutputJobState::Ready);
    assert!(job.scene_output_ready);
    assert!(job.media_pipeline_ready);
    assert!(job.output_preflight_ready);
    assert!(job.recording_target_ready);
    assert!(job.stream_targets_ready);
    assert!(job.output_path_preview.is_some());
}

#[test]
fn prepared_output_job_is_blocked_by_scene_output_readiness() {
    let scene = studio_scene();
    let pipeline = pipeline_plan(MediaPipelinePlanRequest {
        dry_run: true,
        intent: PipelineIntent::Recording,
        capture_sources: default_capture_sources(),
        active_scene: Some(scene.clone()),
        recording_profile: Some(MediaProfile::default_local()),
        stream_destinations: Vec::new(),
    });
    let mut output_ready = ready_scene_output(&scene);
    output_ready.ready = false;
    output_ready.state = DesignerRuntimeReadinessState::Blocked;
    output_ready.blockers.push("Program preview frame is not ready.".to_string());

    let job = OutputJob::prepared("job-blocked".to_string(), no_request(), &pipeline, &output_ready, 0);

    assert_eq!(job.state, OutputJobState::Blocked);
    assert!(job.blockers.iter().any(|blocker| blocker.contains("Program preview")));
}

#[test]
fn cancelled_output_job_preserves_identity() {
    let now = 1_778_048_017_000;
    let cancelled = OutputJob::idle(now).cancelled(now);

    assert_eq!(cancelled.id, "output-job-idle");
    assert_eq!(cancelled.state, OutputJobState::Cancelled);
}

#[test]
fn audio_mixer_plan_describes_default_meter() {
    let scene = studio_scene();
    let plan = build_audio_mixer_plan(&scene);

    assert_eq!(plan.scene_id, "scene-main");
    assert_eq!(plan.sample_rate, 48_000);
    assert_eq!(plan.channels, 2);
    assert_eq!(plan.sources.len(), 1);
    assert_eq!(plan.buses.len(), 4);
    assert!(plan.validation.ready, "{:?}", plan.validation.errors);
    assert!(plan.validation.warnings.iter().any(|warning| warning.contains("waiting for an audio input")));

    let source = &plan.sources[0];
    assert_eq!(source.scene_source_id, "source-mic-meter");
    assert_eq!(source.capture_kind, CaptureSourceKind::Microphone);
    assert!(source.gain_in_range);
    assert!(source.meter_enabled);
    assert_eq!(source.status, AudioMixSourceStatus::Placeholder);
}

#[test]
fn audio_mixer_validation_rejects_bad_gain() {
    let scene = studio_scene();
    let mut plan = build_audio_mixer_plan(&scene);
    plan.sources[0].gain_in_range = false;

    let validation = validate_audio_mixer_plan(&plan);

    assert!(!validation.ready);
    assert!(validation.errors.iter().any(|error| error.contains("gain")));
}

#[test]
fn profile_and_destination_updates_keep_identity() {
    let existing = MediaProfile::default_local();
    let mut input = MediaProfileInput::default();
    input.name = "Renamed".to_string();
    input.framerate = 30;
    let updated = MediaProfile::updated_from(existing.clone(), input, existing.created_at + 5);
    assert_eq!(updated.id, existing.id);
    assert_eq!(updated.name, "Renamed");
    assert_eq!(updated.framerate, 30);
    assert_eq!(updated.created_at, existing.created_at);
    assert_eq!(updated.updated_at, existing.created_at + 5);

    let destination = twitch_destination();
    let input = StreamDestinationInput {
        name: "Twitch Alt".to_string(),
        platform: PlatformKind::Twitch,
        ingest_url: None,
        stream_key: Some(String::new()),
        enabled: None,
    };
    assert_eq!(stream_key_to_store(&input), None);
    let kept = StreamDestination::updated_from(destination.clone(), input, None, 10);
    assert_eq!(kept.id, "stream-dest-main");
    assert_eq!(kept.ingest_url, "");
    assert!(kept.enabled);
    assert!(same_secret_ref(&kept.stream_key_ref, &destination.stream_key_ref));
    let fresh_key = Some(SecretRef { provider: "test".to_string(), id: "new-key".to_string() });
    let input = StreamDestinationInput {
        name: "Twitch Alt".to_string(),
        platform: PlatformKind::Twitch,
        ingest_url: Some("rtmp://x".to_string()),
        stream_key: Some("k".to_string()),
        enabled: Some(false),
    };
    assert_eq!(stream_key_to_store(&input), Some("k".to_string()));
    let replaced = StreamDestination::updated_from(destination.clone(), input, fresh_key, 11);
    assert!(!replaced.enabled);
    assert!(!same_secret_ref(&replaced.stream_key_ref, &destination.stream_key_ref));
}

#[test]
fn exported_destinations_hide_their_secret() {
    let item = twitch_destination().bundle_item();
    assert_eq!(item.name, "Twitch Main");
    assert!(item.has_stream_key);
    assert!(item.enabled);
}

#[test]
fn default_plan_request_prefers_scene_sources_and_enabled_destinations() {
    let saved = default_capture_sources();
    let mut disabled = twitch_destination();
    disabled.id = "off".to_string();
    disabled.enabled = false;
    let request = default_pipeline_plan_request(
        saved.clone(),
        Vec::new(),
        Some(studio_scene()),
        None,
        vec![disabled.clone(), twitch_destination()],
    );
    assert!(request.dry_run);
    assert_eq!(request.intent, PipelineIntent::RecordingAndStream);
    assert_eq!(request.capture_sources.len(), saved.len());
    assert_eq!(request.capture_sources[0].id, "display:main");
    assert_eq!(request.stream_destinations.len(), 1);
    assert_eq!(request.stream_destinations[0].id, twitch_destination().id);
    assert!(request.active_scene.is_some());

    let scene_sources = vec![saved[1].clone()];
    let recording_only = default_pipeline_plan_request(saved.clone(), scene_sources, None, None, vec![disabled]);
    assert_eq!(recording_only.intent, PipelineIntent::Recording);
    assert!(recording_only.stream_destinations.is_empty());
    assert_eq!(recording_only.capture_sources.len(), 1);
    assert_eq!(recording_only.capture_sources[0].id, "microphone:default");
}
