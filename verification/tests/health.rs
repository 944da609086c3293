use dcc_cua::evidence::ActionEvidenceEpoch;
use dcc_cua::input_state::{
    ComputerUseInputReadiness, ComputerUseInputStatus, ComputerUseInputTarget,
    ComputerUseSessionInputState, ComputerUseSessionTargetState, ComputerUseTargetAvailability,
    ComputerUseTargetRecoveryRequirements, ComputerUseTargetStatus,
    ComputerUseInputResumeRequirements,
};
use dcc_cua::json::{parse_json, Json};
use dcc_cua::live_observation::{
    CompositorTiming, FrameCaptureMeasurement, LiveCadence, LiveObservationFence,
    LiveObservationFrame, LiveObservationStatus,
};
use dcc_cua::session_health::{
    compare_recording_progress, recording_partial_path, ComputerUseRecordingHealth,
    ComputerUseRecordingProgressFingerprint, ComputerUseRecordingProgressLane,
    ComputerUseRecordingProgressStatus, ComputerUseRecordingStatus, ComputerUseSessionHealth,
    ComputerUseSessionHealthBlocker, ComputerUseSessionHealthEvaluation,
    ComputerUseSessionHealthPolicy, PartialRecordingFile,
};

fn json(text: &str) -> Json {
    parse_json(text).expect("test JSON")
}

fn target() -> ComputerUseInputTarget {
    ComputerUseInputTarget { session_id: "session-1".into(), process_id: 42, window_handle: 77 }
}

fn ready() -> ComputerUseInputReadiness {
    ComputerUseInputReadiness {
        status: ComputerUseInputStatus::Ready,
        code: "interactive_desktop_ready".into(),
        reason: None,
    }
}

#[test]
fn diagnostic_maps_to_typed_ready_or_suspended_input_readiness() {
    let ready = ComputerUseInputReadiness::from_diagnostic(&json(
        r#"{"success":true,"code":"interactive_desktop_ready","message":"ready","input_ready":true}"#,
    ));
    assert_eq!(ready.status, ComputerUseInputStatus::Ready);
    assert_eq!(ready.code, "interactive_desktop_ready");
    assert_eq!(ready.reason, None);

    let suspended = ComputerUseInputReadiness::from_diagnostic(&json(
        r#"{"success":false,"code":"interactive_desktop_unknown","message":"Windows input desktop could not be read","input_ready":false,"input_code":"interactive_input_surface_unavailable","input_message":"OpenInputDesktop: access denied"}"#,
    ));
    assert_eq!(suspended.status, ComputerUseInputStatus::Suspended);
    assert_eq!(suspended.code, "interactive_input_surface_unavailable");
    assert_eq!(suspended.reason.as_deref(), Some("OpenInputDesktop: access denied"));
}

#[test]
fn initial_session_input_state_binds_exact_target_and_sequence() {
    let state = ComputerUseSessionInputState::initial(target(), ready(), 1_723_000);
    assert_eq!(state.sequence, 1);
    assert_eq!(state.observed_at, 1_723_000);
    assert_eq!(state.target.session_id, "session-1");
    assert_eq!(state.target.process_id, 42);
    assert_eq!(state.target.window_handle, 77);
    assert_eq!(state.status, ComputerUseInputStatus::Ready);
}

#[test]
fn minimized_target_state_is_orthogonal_to_interactive_input_readiness() {
    let input = ComputerUseSessionInputState::initial(target(), ready(), 100);
    let target_state = ComputerUseSessionTargetState::initial(
        target(),
        ComputerUseTargetAvailability {
            status: ComputerUseTargetStatus::Minimized,
            code: "target_minimized".into(),
            visible: false,
            minimized: true,
            foreground: false,
        },
        100,
    );
    assert_eq!(input.status, ComputerUseInputStatus::Ready);
    assert_eq!(target_state.status, ComputerUseTargetStatus::Minimized);
    assert!(!target_state.visible);
    assert!(target_state.minimized);
}

#[test]
fn minimized_target_recovery_is_explicit_and_never_retries_input_automatically() {
    let requirements = ComputerUseTargetRecoveryRequirements::explicit_restore_activate();
    assert!(!requirements.automatic_input);
    assert!(requirements.explicit_request_required);
    assert_eq!(requirements.operation, "restore_activate");
    assert!(requirements.exact_target_revalidation);
    assert!(requirements.fresh_observation);
    assert!(requirements.foreground_validation);
    assert!(!requirements.blind_retry);
    let resume = ComputerUseInputResumeRequirements::safe_continuation();
    assert!(!resume.automatic_input);
    assert!(resume.exact_target_revalidation);
    assert!(resume.fresh_observation);
}

#[test]
fn hidden_non_minimized_target_is_not_reported_available() {
    let state = ComputerUseTargetAvailability::from_window_state(&json(
        r#"{"visible":false,"minimized":false,"foreground":false}"#,
    ));
    assert_eq!(state.status, ComputerUseTargetStatus::Unavailable);
    assert_eq!(state.code, "target_unavailable");
}

#[test]
fn missing_visibility_evidence_fails_closed_as_target_unavailable() {
    let state = ComputerUseTargetAvailability::from_window_state(&json(
        r#"{"minimized":false,"foreground":false}"#,
    ));
    assert_eq!(state.status, ComputerUseTargetStatus::Unavailable);
    assert!(!state.visible);
}

fn fingerprint(turn: u64, size: u64, modified: u64) -> ComputerUseRecordingProgressFingerprint {
    ComputerUseRecordingProgressFingerprint {
        lane: ComputerUseRecordingProgressLane::Video,
        trajectory_turn: Some(turn),
        finalized_segments: 2,
        current_partial_size_bytes: Some(size),
        current_partial_modified_at_unix_ms: Some(modified),
    }
}

fn healthy_evaluation() -> ComputerUseSessionHealthEvaluation {
    ComputerUseSessionHealthEvaluation {
        policy: ComputerUseSessionHealthPolicy {
            require_recording_healthy: true,
            require_recording_progress: true,
            previous_recording_progress: Some(fingerprint(9, 1_000, 80)),
        },
        input_state: ComputerUseSessionInputState {
            status: ComputerUseInputStatus::Ready,
            code: "interactive_desktop_ready".into(),
            reason: None,
            observed_at: 100,
            sequence: 4,
            target: target(),
        },
        target_state: ComputerUseSessionTargetState {
            status: ComputerUseTargetStatus::Available,
            code: "target_available".into(),
            visible: true,
            minimized: false,
            foreground: true,
            observed_at: 100,
            sequence: 5,
            target: target(),
        },
        recording: ComputerUseRecordingHealth {
            granted: true,
            status: ComputerUseRecordingStatus::Active,
            healthy: Some(true),
            issues: Vec::new(),
            progress: Some(fingerprint(10, 2_000, 90)),
            progress_status: ComputerUseRecordingProgressStatus::Advanced,
        },
        action_evidence_epoch: ActionEvidenceEpoch::default(),
        transition_sequence: 5,
        state_changed_during_probe: false,
        interrupted: false,
        target_probe_failed: false,
    }
}

fn blockers(evaluation: ComputerUseSessionHealthEvaluation) -> Vec<ComputerUseSessionHealthBlocker> {
    let health = ComputerUseSessionHealth::evaluate(evaluation);
    assert_eq!(health.safe_to_input, health.blockers.is_empty());
    health.blockers
}

#[test]
fn ready_foreground_target_and_advancing_healthy_recording_are_safe_to_preflight() {
    let health = ComputerUseSessionHealth::evaluate(healthy_evaluation());
    assert!(health.safe_to_input);
    assert!(health.blockers.is_empty());
    assert_eq!(health.authority, "preflight_only");
    assert!(!health.automatic_activation);
    assert!(!health.automatic_input);
    assert!(health.fresh_observation_required);
    assert_eq!(health.transition_sequence, 5);
    assert!(!health.action_evidence_epoch.is_empty());
}

#[test]
fn suspended_input_is_a_typed_preflight_blocker() {
    let mut evaluation = healthy_evaluation();
    evaluation.input_state.status = ComputerUseInputStatus::Suspended;
    evaluation.input_state.code = "interactive_desktop_unavailable".into();
    evaluation.input_state.reason = Some("desktop disconnected".into());
    assert_eq!(blockers(evaluation), [ComputerUseSessionHealthBlocker::InputSuspended]);
}

#[test]
fn foreign_foreground_is_a_typed_preflight_blocker() {
    let mut evaluation = healthy_evaluation();
    evaluation.target_state.foreground = false;
    assert_eq!(blockers(evaluation), [ComputerUseSessionHealthBlocker::TargetNotForeground]);
}

#[test]
fn minimized_target_is_a_typed_preflight_blocker() {
    let mut evaluation = healthy_evaluation();
    evaluation.target_state.status = ComputerUseTargetStatus::Minimized;
    evaluation.target_state.code = "target_minimized".into();
    evaluation.target_state.visible = false;
    evaluation.target_state.minimized = true;
    evaluation.target_state.foreground = false;
    assert_eq!(blockers(evaluation), [ComputerUseSessionHealthBlocker::TargetMinimized]);
}

#[test]
fn missing_target_is_a_typed_preflight_blocker() {
    let mut evaluation = healthy_evaluation();
    evaluation.target_state.status = ComputerUseTargetStatus::Unavailable;
    evaluation.target_state.code = "target_unavailable".into();
    evaluation.target_state.visible = false;
    evaluation.target_state.foreground = false;
    assert_eq!(blockers(evaluation), [ComputerUseSessionHealthBlocker::TargetUnavailable]);
}

fn recorded(segments: &str) -> Json {
    json(&format!(
        r#"{{"status":"active","healthy":true,"issues":[],"trajectory":{{"structuredContent":{{"next_turn":7}}}},"video":{{"active":true,"current_partial":"/tmp/a.partial.mp4","segments":{segments}}}}}"#
    ))
}

#[test]
fn recording_state_projects_partial_size_and_mtime_without_exposing_its_path() {
    let raw = recorded(r#"[{"finalized":true},{"finalized":false}]"#);
    assert_eq!(recording_partial_path(&raw), Some("/tmp/a.partial.mp4"));
    let recording = ComputerUseRecordingHealth::from_state(
        true,
        &raw,
        &ComputerUseSessionHealthPolicy::default(),
        Some(PartialRecordingFile { size_bytes: 4, modified_at_unix_ms: Some(99) }),
    );
    assert_eq!(recording.status, ComputerUseRecordingStatus::Active);
    assert_eq!(recording.healthy, Some(true));
    assert_eq!(recording.progress_status, ComputerUseRecordingProgressStatus::NotRequested);
    let progress = recording.progress.expect("recording progress fingerprint");
    assert_eq!(progress.lane, ComputerUseRecordingProgressLane::Video);
    assert_eq!(progress.trajectory_turn, Some(7));
    assert_eq!(progress.finalized_segments, 1);
    assert_eq!(progress.current_partial_size_bytes, Some(4));
    assert_eq!(progress.current_partial_modified_at_unix_ms, Some(99));
    assert!(!format!("{progress:?}").contains("partial.mp4"));
}

#[test]
fn recording_progress_compares_current_partial_and_finalized_segments() {
    let raw = recorded(r#"[{"finalized":true}]"#);
    let file = || Some(PartialRecordingFile { size_bytes: 8, modified_at_unix_ms: Some(50) });
    let state = |previous: Option<ComputerUseRecordingProgressFingerprint>| {
        ComputerUseRecordingHealth::from_state(
            true,
            &raw,
            &ComputerUseSessionHealthPolicy {
                require_recording_healthy: false,
                require_recording_progress: true,
                previous_recording_progress: previous,
            },
            file(),
        )
        .progress_status
    };
    let current = ComputerUseRecordingHealth::from_state(
        true,
        &raw,
        &ComputerUseSessionHealthPolicy::default(),
        file(),
    )
    .progress
    .expect("current recording fingerprint");
    assert_eq!(state(None), ComputerUseRecordingProgressStatus::BaselineRequired);
    assert_eq!(state(Some(current.clone())), ComputerUseRecordingProgressStatus::Stalled);
    let mut older = current.clone();
    older.current_partial_size_bytes = older.current_partial_size_bytes.map(|size| size - 1);
    assert_eq!(state(Some(older)), ComputerUseRecordingProgressStatus::Advanced);
    let mut future = current;
    future.finalized_segments += 1;
    assert_eq!(state(Some(future)), ComputerUseRecordingProgressStatus::Regressed);
}

#[test]
fn video_lane_stall_is_not_hidden_by_trajectory_progress() {
    assert_eq!(
        compare_recording_progress(&fingerprint(7, 1_000, 80), &fingerprint(8, 1_000, 80)),
        ComputerUseRecordingProgressStatus::Stalled
    );
}

#[test]
fn trajectory_only_recording_uses_trajectory_progress() {
    let mut previous = fingerprint(7, 1_000, 80);
    previous.lane = ComputerUseRecordingProgressLane::Trajectory;
    previous.finalized_segments = 9;
    let current = ComputerUseRecordingProgressFingerprint {
        lane: ComputerUseRecordingProgressLane::Trajectory,
        trajectory_turn: Some(8),
        finalized_segments: 0,
        current_partial_size_bytes: None,
        current_partial_modified_at_unix_ms: None,
    };
    assert_eq!(
        compare_recording_progress(&previous, &current),
        ComputerUseRecordingProgressStatus::Advanced
    );
}

#[test]
fn required_recording_failures_have_one_stable_typed_blocker() {
    let cases = [
        (
            false,
            ComputerUseRecordingStatus::NotGranted,
            Some(true),
            ComputerUseRecordingProgressStatus::Advanced,
            ComputerUseSessionHealthBlocker::RecordingNotGranted,
        ),
        (
            true,
            ComputerUseRecordingStatus::Stopped,
            Some(true),
            ComputerUseRecordingProgressStatus::Advanced,
            ComputerUseSessionHealthBlocker::RecordingInactive,
        ),
        (
            true,
            ComputerUseRecordingStatus::Paused,
            Some(false),
            ComputerUseRecordingProgressStatus::Advanced,
            ComputerUseSessionHealthBlocker::RecordingPaused,
        ),
        (
            true,
            ComputerUseRecordingStatus::Degraded,
            Some(false),
            ComputerUseRecordingProgressStatus::Advanced,
            ComputerUseSessionHealthBlocker::RecordingDegraded,
        ),
        (
            true,
            ComputerUseRecordingStatus::Unavailable,
            None,
            ComputerUseRecordingProgressStatus::Advanced,
            ComputerUseSessionHealthBlocker::RecordingProbeFailed,
        ),
        (
            true,
            ComputerUseRecordingStatus::Active,
            Some(true),
            ComputerUseRecordingProgressStatus::BaselineRequired,
            ComputerUseSessionHealthBlocker::RecordingProgressBaselineRequired,
        ),
        (
            true,
            ComputerUseRecordingStatus::Active,
            Some(true),
            ComputerUseRecordingProgressStatus::Stalled,
            ComputerUseSessionHealthBlocker::RecordingProgressStalled,
        ),
        (
            true,
            ComputerUseRecordingStatus::Active,
            Some(true),
            ComputerUseRecordingProgressStatus::Regressed,
            ComputerUseSessionHealthBlocker::RecordingProgressRegressed,
        ),
        (
            true,
            ComputerUseRecordingStatus::Active,
            Some(true),
            ComputerUseRecordingProgressStatus::Unavailable,
            ComputerUseSessionHealthBlocker::RecordingProgressUnavailable,
        ),
    ];
    for (granted, status, healthy, progress_status, expected) in cases {
        let mut evaluation = healthy_evaluation();
        evaluation.recording.granted = granted;
        evaluation.recording.status = status;
        evaluation.recording.healthy = healthy;
        evaluation.recording.progress_status = progress_status;
        assert_eq!(blockers(evaluation), [expected]);
    }
}

#[test]
fn stopped_recording_does_not_block_the_compatible_default_policy() {
    let mut evaluation = healthy_evaluation();
    evaluation.policy = ComputerUseSessionHealthPolicy::default();
    evaluation.recording.status = ComputerUseRecordingStatus::Stopped;
    evaluation.recording.healthy = Some(true);
    evaluation.recording.progress_status = ComputerUseRecordingProgressStatus::NotRequested;
    assert!(blockers(evaluation).is_empty());
}

#[test]
fn requiring_progress_also_requires_an_active_healthy_recording() {
    let mut evaluation = healthy_evaluation();
    evaluation.policy.require_recording_healthy = false;
    evaluation.recording.status = ComputerUseRecordingStatus::Degraded;
    evaluation.recording.healthy = Some(false);
    evaluation.recording.progress_status = ComputerUseRecordingProgressStatus::Advanced;
    assert_eq!(blockers(evaluation), [ComputerUseSessionHealthBlocker::RecordingDegraded]);
}

#[test]
fn failed_probes_and_interrupts_have_typed_blockers() {
    for (target_probe_failed, interrupted, expected) in [
        (true, false, ComputerUseSessionHealthBlocker::TargetProbeFailed),
        (false, true, ComputerUseSessionHealthBlocker::SessionInterrupted),
    ] {
        let mut evaluation = healthy_evaluation();
        evaluation.target_probe_failed = target_probe_failed;
        evaluation.interrupted = interrupted;
        assert_eq!(blockers(evaluation), [expected]);
    }
}

#[test]
fn blockers_have_a_stable_cross_domain_order() {
    let mut evaluation = healthy_evaluation();
    evaluation.state_changed_during_probe = true;
    evaluation.input_state.status = ComputerUseInputStatus::Suspended;
    evaluation.target_state.status = ComputerUseTargetStatus::Unavailable;
    evaluation.target_state.visible = false;
    evaluation.target_state.foreground = false;
    evaluation.target_probe_failed = true;
    evaluation.interrupted = true;
    evaluation.recording.progress_status = ComputerUseRecordingProgressStatus::Stalled;
    assert_eq!(
        blockers(evaluation),
        [
            ComputerUseSessionHealthBlocker::StateChangedDuringProbe,
            ComputerUseSessionHealthBlocker::InputSuspended,
            ComputerUseSessionHealthBlocker::TargetUnavailable,
            ComputerUseSessionHealthBlocker::TargetProbeFailed,
            ComputerUseSessionHealthBlocker::SessionInterrupted,
            ComputerUseSessionHealthBlocker::RecordingProgressStalled,
        ]
    );
}

#[test]
fn action_evidence_receipt_changes_with_its_epoch() {
    let first = ComputerUseSessionHealth::evaluate(healthy_evaluation());
    let mut later_evaluation = healthy_evaluation();
    later_evaluation.action_evidence_epoch = ActionEvidenceEpoch::default().advanced();
    let later = ComputerUseSessionHealth::evaluate(later_evaluation);
    assert_ne!(first.action_evidence_epoch, later.action_evidence_epoch);
}

#[test]
fn state_change_during_probe_is_a_typed_retry_blocker() {
    let mut evaluation = healthy_evaluation();
    evaluation.state_changed_during_probe = true;
    assert_eq!(blockers(evaluation), [ComputerUseSessionHealthBlocker::StateChangedDuringProbe]);
}

fn frame(sequence: u64) -> LiveObservationFrame {
    LiveObservationFrame::new(sequence, vec![0; 4], 1, 1, 1_000, 10)
}

fn stream() -> LiveObservationStatus {
    let mut status = LiveObservationStatus::default();
    status.publish_frame(frame(7), 0, "test_capture");
    status
}

fn cadence() -> LiveCadence {
    LiveCadence { effective_fps: None, recent_effective_fps: Some("7.5".to_owned()) }
}

fn state(status: &LiveObservationStatus) -> Json {
    status.state(3, true, 1, &cadence(), 1_005)
}

#[test]
fn test_stream_publisher_advances_the_latest_sequence() {
    let mut status = stream();
    status.publish_frame(frame(8), 0, "test_resume");
    assert_eq!(status.latest_fence(3), Some(LiveObservationFence::new(3, 8)));
}

#[test]
fn static_source_wait_is_not_reported_as_frame_processing_cost() {
    let mut status = stream();
    status.publish_measured_frame(
        frame(8),
        908,
        "persistent_wgc",
        FrameCaptureMeasurement::measured(
            900,
            8,
            5,
            2,
            CompositorTiming::unavailable("frame_timestamp_unavailable"),
        ),
    );
    let state = state(&status);
    assert_eq!(state.u64_at("last_capture_duration_ms"), Some(908));
    assert_eq!(
        state.text_at("capture_duration_semantics"),
        Some("capture_cycle_wall_time_including_source_wait_readback_and_target_validation")
    );
    assert_eq!(state.u64_at("last_source_wait_ms"), Some(900));
    assert_eq!(state.u64_at("max_source_wait_ms"), Some(900));
    assert_eq!(state.u64_at("last_readback_total_ms"), Some(8));
    assert_eq!(state.u64_at("max_readback_total_ms"), Some(8));
    assert!(state.get("max_compositor_to_publish_ms").unwrap().is_null());
    assert_eq!(state.u64_at("last_gpu_copy_map_ms"), Some(5));
    assert_eq!(state.u64_at("last_cpu_copy_ms"), Some(2));
    assert_eq!(
        state.text_at("readback_total_semantics"),
        Some("frame_processing_after_source_arrival")
    );
    assert_eq!(state.u64_at("stream_id"), Some(3));
}

#[test]
fn missing_compositor_timestamp_is_explicitly_unavailable() {
    let mut status = stream();
    status.publish_measured_frame(
        frame(8),
        8,
        "persistent_wgc",
        FrameCaptureMeasurement::measured(
            0,
            8,
            5,
            2,
            CompositorTiming::unavailable("frame_timestamp_unavailable"),
        ),
    );
    let state = state(&status);
    let timing = state.get("last_compositor_timing").unwrap();
    assert_eq!(timing.text_at("status"), Some("unavailable"));
    assert_eq!(timing.text_at("reason"), Some("frame_timestamp_unavailable"));
}

#[test]
fn failed_capture_does_not_fabricate_or_replace_frame_measurements() {
    let mut status = stream();
    status.publish_measured_frame(
        frame(8),
        12,
        "persistent_wgc",
        FrameCaptureMeasurement::measured(
            3,
            8,
            5,
            2,
            CompositorTiming::Available {
                system_relative_time_100ns: 100,
                compositor_to_publish: 4,
            },
        ),
    );
    status.record_error("synthetic capture failure".to_owned());
    let state = state(&status);
    assert_eq!(state.u64_at("capture_failures"), Some(1));
    assert_eq!(state.text_at("last_error"), Some("synthetic capture failure"));
    assert_eq!(state.u64_at("last_source_wait_ms"), Some(3));
    assert_eq!(state.u64_at("last_readback_total_ms"), Some(8));
    assert_eq!(state.u64_at("max_compositor_to_publish_ms"), Some(4));
    let timing = state.get("last_compositor_timing").unwrap();
    assert_eq!(timing.text_at("status"), Some("available"));
    assert_eq!(timing.u64_at("system_relative_time_100ns"), Some(100));
    assert_eq!(timing.u64_at("compositor_to_publish_ms"), Some(4));
}

#[test]
fn compositor_timing_is_typed_before_the_first_frame() {
    let report = LiveObservationStatus::default().as_json(true, 8, &cadence(), 0);
    let timing = report.get("last_compositor_timing").unwrap();
    assert_eq!(timing.text_at("status"), Some("unavailable"));
    assert_eq!(timing.text_at("reason"), Some("no_frame_observed"));
}

#[test]
fn source_effective_fps_is_a_compatible_published_frame_cadence_alias() {
    let mut status = stream();
    status.publish_frame(frame(8), 0, "test_source_frame");
    let state = state(&status);
    assert_eq!(
        format!("{:?}", state.get("source_effective_fps")),
        format!("{:?}", state.get("recent_effective_fps"))
    );
    assert!(!state.get("source_effective_fps").unwrap().is_null());
    assert_eq!(
        state.text_at("source_effective_fps_semantics"),
        Some("published_source_frame_cadence_not_requested_fps")
    );
}
