use dcc_cua::contracts::{
    ComputerUseAction, ComputerUseObservation, ComputerUseScreenshot, ComputerUseTargetScope,
    ComputerUseToolResult, ComputerUseToolStatus, Coordinate,
};
use dcc_cua::driver::{ToolImage, ToolReply};
use dcc_cua::errors::{
    ComputerUseError, ComputerUseErrorCode, ComputerUseErrorDetails, ComputerUseResult,
};
use dcc_cua::json::{parse_json, Json};
use dcc_cua::live_observation::LiveObservationFence;
use dcc_cua::pixel_observation::{
    exact_window_pixel_provenance, pixel_route_for_accessibility_failure,
    pixel_route_for_uia_tool_failure, validate_exact_window_pixel_target_state,
    validate_final_exact_window_pixel_publication, BracketedCapture, ExactWindowPixelCaptureMode,
    ExactWindowPixelEvidence, ExactWindowPixelGeometry, ExactWindowPixelInstanceIdentity,
    ExactWindowPixelPublicationFence, PixelObservationRoute,
};
use dcc_cua::session::{BannerActivity, ComputerUseSession, LiveLink, UpstreamSessionState};
use dcc_cua::session_frames::{FrameFacts, FrameReply, FrameRequest};
use dcc_cua::session_observation::{
    ScreenshotOutcome, ScreenshotPhase, ScreenshotReply, ScreenshotRequest,
};
use dcc_cua::session_pixels::{
    DesktopCrop, PixelCapture, PixelPurpose, PixelReply, PixelRequest, PixelRun,
};
use dcc_cua::session_tools::ToolAnswer;
use dcc_cua::steps::Step;
use dcc_cua::window_capture::SnapshotBounds;
use dcc_cua::window_target::WindowTarget;

const NOW: u64 = 1_000;

const BOUNDS: SnapshotBounds = SnapshotBounds { max_elements: 50, max_depth: 4 };

fn json(text: &str) -> Json {
    parse_json(text).expect("test JSON")
}

fn failed(code: ComputerUseErrorCode, message: &str) -> ComputerUseError {
    ComputerUseError::new(code, message)
}

fn timed_out(message: &str) -> ComputerUseError {
    failed(ComputerUseErrorCode::InputFailed, message).with_details(ComputerUseErrorDetails {
        timed_out: Some(true),
        ..Default::default()
    })
}

fn details(error: &ComputerUseError) -> &ComputerUseErrorDetails {
    error.details.as_ref().expect("structured error details")
}

fn test_target() -> WindowTarget {
    WindowTarget {
        pid: 42,
        window_id: 77,
        title: "Test DCC".to_owned(),
        app_name: "test.exe".to_owned(),
        bounds: [0, 0, 800, 600],
        is_foreground: true,
        is_minimized: false,
        is_on_screen: true,
        z_index: None,
    }
}

fn observation(id: &str, session_id: &str) -> ComputerUseObservation {
    ComputerUseObservation {
        observation_id: id.to_owned(),
        window_handle: 77,
        process_id: 42,
        window_title: "Test DCC".to_owned(),
        width: 800,
        height: 600,
        source_rect: [0, 0, 800, 600],
        capture_backend: "test".to_owned(),
        capture_provenance: json(r#"{"accessibility_backend": "windows_uia"}"#),
        session_id: session_id.to_owned(),
    }
}

fn fresh_session(session_id: &str, native_windows: bool) -> ComputerUseSession {
    ComputerUseSession::new(
        ComputerUseTargetScope {
            process_id: Some(42),
            window_handle: Some(77),
            window_title: None,
        },
        "Test DCC".to_owned(),
        "agent".to_owned(),
        session_id.to_owned(),
        "label".to_owned(),
        native_windows,
    )
    .expect("test session")
}

fn link(stream_id: u64, sequence: u64) -> LiveLink {
    LiveLink {
        stream_id,
        latest: Some(LiveObservationFence::new(stream_id, sequence)),
        max_dimension: 1280,
        fps: 30,
    }
}

fn counting_session() -> ComputerUseSession {
    let mut session = fresh_session("refresh-boundary-session", false);
    session.active = true;
    session.upstream = UpstreamSessionState::Active;
    session.target = Some(test_target());
    session.observation =
        Some(observation("observation-before-refresh", "refresh-boundary-session"));
    session.live = Some(link(7, 12));
    session.last_refresh_ms = None;
    session
}

fn recording(mut session: ComputerUseSession) -> ComputerUseSession {
    session.recording_active = true;
    session.recording_expected_video = true;
    session
}

fn blank_action(kind: &str) -> ComputerUseAction {
    ComputerUseAction {
        action: kind.to_owned(),
        observation_id: None,
        element_index: None,
        element_token: None,
        delivery_mode: None,
        input_backend_id: None,
        x: None,
        y: None,
        button: None,
        scroll_x: None,
        scroll_y: None,
        scroll_by: None,
        path: Vec::new(),
        text: None,
        delay_ms: None,
        duration_ms: None,
        steps: None,
        type_chars_only: false,
        keys: Vec::new(),
        modifiers: Vec::new(),
    }
}

fn at(value: f64) -> Option<Coordinate> {
    Some(Coordinate { bits: value.to_bits() })
}

fn click(observation_id: &str) -> ComputerUseAction {
    ComputerUseAction {
        observation_id: Some(observation_id.to_owned()),
        x: at(10.0),
        y: at(10.0),
        ..blank_action("click")
    }
}

fn tool_result(status: ComputerUseToolStatus, value: &str, text: &str) -> ComputerUseToolResult {
    ComputerUseToolResult {
        status,
        value: json(value),
        text: text.to_owned(),
        images: Vec::new(),
        degraded: false,
    }
}

fn answer(raw: &str) -> ToolAnswer {
    ToolAnswer {
        reply: ToolReply {
            is_error: false,
            error_code: None,
            raw_json: raw.to_owned(),
            text: "ok".to_owned(),
            structured_json: Some(r#"{"active": true}"#.to_owned()),
            images: Vec::new(),
            degraded: false,
            action_effect: None,
        },
        accepted: Ok(()),
        result: Ok(tool_result(ComputerUseToolStatus::Succeeded, "{}", "ok")),
    }
}

fn stopped<R, T: std::fmt::Debug>(step: Step<R, T>) -> ComputerUseError {
    match step {
        Step::Done(result) => result.expect_err("the run fails"),
        Step::Continue(_) => panic!("the run goes on"),
    }
}

fn next<R, T: std::fmt::Debug>(step: Step<R, T>) -> R {
    match step {
        Step::Continue(run) => run,
        Step::Done(result) => panic!("the run ended: {result:?}"),
    }
}

/// An observation that was spent cannot carry an action.
fn assert_action_is_stale(session: &ComputerUseSession, observation_id: &str) {
    let error = session.begin_action(click(observation_id), Ok(())).unwrap_err();
    assert_eq!(error.code, ComputerUseErrorCode::StaleObservation);
}

fn target(pid: u32, window_id: u64, bounds: [i32; 4]) -> WindowTarget {
    WindowTarget {
        pid,
        window_id,
        title: "Controlled custom renderer".to_owned(),
        app_name: "fixture.exe".to_owned(),
        bounds,
        is_foreground: true,
        is_minimized: false,
        is_on_screen: true,
        z_index: Some(3),
    }
}

#[test]
fn issue_228_rejected_start_preserves_active_explicit_pixels_route() {
    check_rejected_start_preserves_pixels_route(Ok(()));
}

#[test]
fn issue_228_rejected_start_preserves_active_explicit_pixels_route_with_request() {
    check_rejected_start_preserves_pixels_route(Err(failed(
        ComputerUseErrorCode::InvalidAction,
        "the request is not even looked at",
    )));
}

fn check_rejected_start_preserves_pixels_route(validation: ComputerUseResult<()>) {
    let reason = "explicit pixels-only observation; accessibility provider was not started";
    let mut session = counting_session();
    session.native_windows = true;
    session.pixel_route = Some(PixelObservationRoute::ExplicitPixelsOnly);
    assert!(session.is_pixels_only());
    session.upstream = UpstreamSessionState::VisualOnly { reason: reason.to_owned() };

    let error = session.begin_start(validation).expect_err("already active");

    assert_eq!(error.code, ComputerUseErrorCode::InvalidAction);
    assert_eq!(error.message, "window session is already active");
    assert!(session.active);
    assert_eq!(session.pixel_route, Some(PixelObservationRoute::ExplicitPixelsOnly));
    assert_eq!(
        session.observation.as_ref().unwrap().observation_id,
        "observation-before-refresh"
    );
    assert!(matches!(&session.upstream,
        UpstreamSessionState::VisualOnly { reason: kept } if kept == reason));
    session.ensure_active().expect("still eligible for observations");
    let kept = session.target.as_ref().unwrap();
    assert_eq!((kept.pid, kept.window_id, kept.bounds), (42, 77, [0, 0, 800, 600]));
    let provenance = exact_window_pixel_provenance(
        session.pixel_route.unwrap(),
        kept,
        11,
        96,
        "test-native-boundary",
    );
    assert_eq!(provenance.text_at("observation_mode"), Some("pixels_only"));
    assert_eq!(provenance.bool_at("degraded"), Some(false));
    assert_eq!(provenance.bool_at("accessibility_available"), Some(false));
}

#[test]
fn issue_228_pixel_routes_have_distinct_stable_provenance() {
    for (route, observation_mode, degraded) in [
        (PixelObservationRoute::ExplicitPixelsOnly, "pixels_only", false),
        (
            PixelObservationRoute::AccessibilityUnavailableDegraded,
            "accessibility_unavailable_degraded",
            true,
        ),
        (
            PixelObservationRoute::AccessibilityTimeoutDegraded,
            "accessibility_timeout_degraded",
            true,
        ),
    ] {
        let provenance = exact_window_pixel_provenance(
            route,
            &target(42, 77, [-1920, 100, 1280, 720]),
            11,
            144,
            "dcc-cua-wgc-exact-window",
        );
        assert_eq!(provenance.text_at("scope"), Some("window"));
        assert_eq!(provenance.bool_at("whole_desktop_capture"), Some(false));
        assert_eq!(provenance.text_at("observation_mode"), Some(observation_mode));
        assert_eq!(provenance.bool_at("degraded"), Some(degraded));
        assert_eq!(provenance.u64_at("process_id"), Some(42));
        assert_eq!(provenance.u64_at("window_handle"), Some(77));
        assert_eq!(provenance.u64_at("capture_generation"), Some(11));
        assert_eq!(provenance.u64_at("window_dpi"), Some(144));
        assert!(provenance.get("window_title").is_none());
    }
}

fn uia_reply(code: &str, text: &str) -> ToolReply {
    ToolReply {
        is_error: true,
        error_code: Some(code.to_owned()),
        raw_json: "{}".to_owned(),
        text: text.to_owned(),
        structured_json: None,
        images: Vec::new(),
        degraded: false,
        action_effect: None,
    }
}

#[test]
fn issue_228_missing_and_hung_accessibility_providers_degrade_but_target_loss_does_not() {
    let missing = failed(
        ComputerUseErrorCode::NoAccessibilityProvider,
        "controlled fixture has no accessibility provider",
    );
    let broken = failed(
        ComputerUseErrorCode::BackendUnavailable,
        "controlled provider failed while reading a semantic child",
    );
    let hung = timed_out("controlled provider exceeded the bounded observation deadline");
    let vanished = failed(
        ComputerUseErrorCode::TargetUnavailable,
        "controlled fixture window vanished",
    );
    let prose_only =
        failed(ComputerUseErrorCode::InputFailed, "a title contains the words timed out");

    assert_eq!(
        pixel_route_for_accessibility_failure(&missing),
        Some(PixelObservationRoute::AccessibilityUnavailableDegraded)
    );
    assert_eq!(
        pixel_route_for_accessibility_failure(&hung),
        Some(PixelObservationRoute::AccessibilityTimeoutDegraded)
    );
    assert_eq!(pixel_route_for_accessibility_failure(&vanished), None);
    assert_eq!(pixel_route_for_accessibility_failure(&prose_only), None);
    assert_eq!(pixel_route_for_accessibility_failure(&broken), None);

    assert_eq!(
        pixel_route_for_uia_tool_failure(&uia_reply(
            "no_accessibility_provider",
            "provider unavailable"
        )),
        Some(PixelObservationRoute::AccessibilityUnavailableDegraded)
    );
    assert_eq!(
        pixel_route_for_uia_tool_failure(&uia_reply("uia_timeout", "provider timed out")),
        Some(PixelObservationRoute::AccessibilityTimeoutDegraded)
    );
    assert_eq!(
        pixel_route_for_uia_tool_failure(&uia_reply("backend_unavailable", "provider failed")),
        None
    );
}

fn publication_fence(
    bounds: [i32; 4],
    dpi: u32,
    generation: u64,
    mode: ExactWindowPixelCaptureMode,
) -> ExactWindowPixelPublicationFence {
    ExactWindowPixelPublicationFence {
        geometry: ExactWindowPixelGeometry { bounds, dpi },
        source_rect: bounds,
        generation,
        mode,
        instance: ExactWindowPixelInstanceIdentity {
            process_creation_time_100ns: 1001,
            window_thread_id: 7,
            window_class_hash: 0xA11CE,
            owner_window_handle: 0,
        },
    }
}

const CROP: ExactWindowPixelCaptureMode = ExactWindowPixelCaptureMode::VisibleDesktopCrop;
const CONTENT: ExactWindowPixelCaptureMode = ExactWindowPixelCaptureMode::WindowContent;

#[test]
fn issue_228_visual_fallback_discards_post_accessibility_pixel_drift() {
    for (bounds, native_bounds, dpi, unobscured) in [
        ([20, 0, 800, 600], [20, 0, 800, 600], 96, true),
        ([0, 0, 801, 600], [0, 0, 801, 600], 96, true),
        ([0, 0, 800, 600], [0, 0, 800, 600], 120, true),
        ([0, 0, 800, 600], [0, 0, 800, 600], 96, false),
    ] {
        let captured = target(42, 77, [0, 0, 800, 600]);
        let result = validate_final_exact_window_pixel_publication(
            &captured,
            &target(42, 77, bounds),
            publication_fence(captured.bounds, 96, 17, CROP),
            publication_fence(native_bounds, dpi, 18, CROP),
            unobscured,
        );
        assert!(result.is_err(), "post-accessibility drift must fail closed");
    }
}

#[test]
fn issue_228_visual_fallback_publishes_stable_post_accessibility_pixels() {
    let captured = target(42, 77, [0, 0, 800, 600]);
    validate_final_exact_window_pixel_publication(
        &captured,
        &captured,
        publication_fence(captured.bounds, 96, 17, CROP),
        publication_fence(captured.bounds, 96, 18, CROP),
        true,
    )
    .expect("stable visual fallback pixels may publish after accessibility");
}

#[test]
fn issue_228_visible_crop_fences_a_distinct_stable_physical_source_rect() {
    let captured = target(42, 77, [0, 0, 816, 616]);
    let source_rect = [8, 8, 800, 600];
    let mut before = publication_fence(captured.bounds, 96, 17, CROP);
    before.source_rect = source_rect;
    let mut after = publication_fence(captured.bounds, 96, 18, CROP);
    after.source_rect = source_rect;
    validate_final_exact_window_pixel_publication(&captured, &captured, before, after, true)
        .expect("stable DWM crop may differ from stable PMv2 inventory bounds");

    after.source_rect[0] += 1;
    let error =
        validate_final_exact_window_pixel_publication(&captured, &captured, before, after, true)
            .expect_err("DWM crop drift must discard desktop pixels");
    assert_eq!(error.code, ComputerUseErrorCode::StaleObservation);
}

#[test]
fn issue_228_final_publication_fence_rejects_geometry_drift_between_revalidations() {
    for (bounds, native_bounds, dpi) in [
        ([20, 0, 800, 600], [20, 0, 800, 600], 96),
        ([0, 0, 800, 600], [20, 0, 800, 600], 96),
        ([0, 0, 800, 600], [0, 0, 800, 600], 120),
    ] {
        let captured = target(42, 77, [0, 0, 800, 600]);
        let error = validate_final_exact_window_pixel_publication(
            &captured,
            &target(42, 77, bounds),
            publication_fence(captured.bounds, 96, 5, CROP),
            publication_fence(native_bounds, dpi, 6, CROP),
            true,
        )
        .expect_err("geometry drift after capture must discard the pixel evidence");
        assert_eq!(error.code, ComputerUseErrorCode::StaleObservation);
    }
}

#[test]
fn issue_228_final_publication_fence_accepts_only_exact_capture_geometry() {
    let captured = target(42, 77, [-1920, 100, 1280, 720]);
    validate_final_exact_window_pixel_publication(
        &captured,
        &captured,
        publication_fence(captured.bounds, 144, 5, CROP),
        publication_fence(captured.bounds, 144, 6, CROP),
        true,
    )
    .expect("unchanged final native and inventory geometry may publish");
}

#[test]
fn issue_228_window_content_publication_does_not_require_desktop_visibility() {
    let captured = target(42, 77, [100, 200, 800, 600]);
    validate_final_exact_window_pixel_publication(
        &captured,
        &captured,
        publication_fence(captured.bounds, 120, 7, CONTENT),
        publication_fence(captured.bounds, 120, 8, CONTENT),
        false,
    )
    .expect("window-content pixels remain exact when another desktop window overlaps them");
}

#[test]
fn issue_228_visible_desktop_crop_publication_requires_complete_visibility() {
    let captured = target(42, 77, [100, 200, 800, 600]);
    let error = validate_final_exact_window_pixel_publication(
        &captured,
        &captured,
        publication_fence(captured.bounds, 120, 7, CROP),
        publication_fence(captured.bounds, 120, 8, CROP),
        false,
    )
    .expect_err("desktop-crop pixels must not publish when any overlap is unproven");
    assert_eq!(error.code, ComputerUseErrorCode::CaptureFailed);
}

#[test]
fn issue_228_exact_window_publication_rejects_uncapturable_target_state() {
    for (minimized, hidden, unobscured, code) in [
        (true, false, true, ComputerUseErrorCode::TargetMinimized),
        (false, true, true, ComputerUseErrorCode::TargetUnavailable),
        (false, false, false, ComputerUseErrorCode::CaptureFailed),
    ] {
        let mut after = target(42, 77, [0, 0, 800, 600]);
        after.is_minimized = minimized;
        after.is_on_screen = !hidden;
        let error = validate_exact_window_pixel_target_state(&after, unobscured)
            .expect_err("unsafe target state must fail closed");
        assert_eq!(error.code, code);
    }
}

#[test]
fn issue_228_final_publication_compares_distinct_capture_generations_and_modes() {
    let captured = target(42, 77, [0, 0, 800, 600]);
    let error = validate_final_exact_window_pixel_publication(
        &captured,
        &captured,
        publication_fence(captured.bounds, 96, 17, CONTENT),
        publication_fence(captured.bounds, 96, 18, CROP),
        true,
    )
    .expect_err("a fresh final capture may not change capture mode");
    assert_eq!(error.code, ComputerUseErrorCode::StaleObservation);
}

#[test]
fn issue_228_final_publication_rejects_reused_numeric_pid_hwnd_with_new_instance() {
    let captured = target(42, 77, [0, 0, 800, 600]);
    let before = publication_fence(captured.bounds, 96, 17, CONTENT);
    let mut after = publication_fence(captured.bounds, 96, 18, CONTENT);
    after.instance = ExactWindowPixelInstanceIdentity {
        process_creation_time_100ns: 2002,
        window_thread_id: 7,
        window_class_hash: 0xB0B,
        owner_window_handle: 0,
    };
    let error =
        validate_final_exact_window_pixel_publication(&captured, &captured, before, after, true)
            .expect_err("same numeric PID/HWND must not hide process/window replacement");
    assert_eq!(error.code, ComputerUseErrorCode::StaleObservation);
}

fn evidence() -> ExactWindowPixelEvidence {
    ExactWindowPixelEvidence {
        process_id: 42,
        window_handle: 77,
        bounds: [0, 0, 800, 600],
        visible_bounds: [0, 0, 800, 600],
        dpi: 96,
        visible: true,
        minimized: false,
        unobscured: true,
        instance: ExactWindowPixelInstanceIdentity {
            process_creation_time_100ns: 1001,
            window_thread_id: 7,
            window_class_hash: 99,
            owner_window_handle: 0,
        },
    }
}

fn changed_instance(component: usize) -> ExactWindowPixelEvidence {
    let mut changed = evidence();
    match component {
        0 => changed.instance.process_creation_time_100ns += 1,
        1 => changed.instance.window_thread_id += 1,
        2 => changed.instance.window_class_hash += 1,
        _ => changed.instance.owner_window_handle += 1,
    }
    changed
}

fn paths() -> [Option<PixelObservationRoute>; 4] {
    [
        Some(PixelObservationRoute::ExplicitPixelsOnly),
        Some(PixelObservationRoute::AccessibilityUnavailableDegraded),
        Some(PixelObservationRoute::AccessibilityTimeoutDegraded),
        None,
    ]
}

fn pixel_session() -> ComputerUseSession {
    let mut session = counting_session();
    session.native_windows = true;
    session.escalated = true;
    session
}

/// What a modelled host saw of a capture.
struct Publication {
    result: ComputerUseResult<ComputerUseScreenshot>,
    unread: usize,
    trace: Vec<&'static str>,
    session: ComputerUseSession,
}

/// Runs a capture against a host that reads the given evidence in turn.
fn publish(
    mode: ExactWindowPixelCaptureMode,
    path: Option<PixelObservationRoute>,
    sequence: [ExactWindowPixelEvidence; 4],
) -> Publication {
    let mut session = pixel_session();
    let mut unread: Vec<ExactWindowPixelEvidence> = sequence.into_iter().rev().collect();
    let mut trace = Vec::new();
    let mut generation = 0;
    let mut run: PixelRun = match path {
        Some(route) => session.begin_pixel_capture(test_target(), route).unwrap(),
        None => session.begin_visual_capture(test_target(), BOUNDS).unwrap(),
    };
    let result = loop {
        let reply = match run.request() {
            PixelRequest::CheckObservation => PixelReply::Gate(Ok(())),
            PixelRequest::CaptureWindow => {
                trace.push("capture");
                generation += 1;
                let before = unread.pop().expect("independently acquired evidence");
                let after = unread.pop().expect("independently acquired evidence");
                PixelReply::Captured(Ok(PixelCapture {
                    bracket: BracketedCapture {
                        before,
                        after,
                        mode,
                        source_rect: [0, 0, 800, 600],
                        generation,
                    },
                    backend: "modelled-backend".to_owned(),
                    fallback: "exact_window_wgc".to_owned(),
                }))
            }
            PixelRequest::CheckFallback => PixelReply::Fallback(false),
            PixelRequest::EncodeWindow => {
                trace.push("encode");
                PixelReply::Encoded(Ok((vec![1], Some((1, 1)))))
            }
            PixelRequest::ResolveTarget => PixelReply::Target(Ok(test_target())),
            PixelRequest::ReadAccessibility => {
                trace.push("accessibility");
                PixelReply::Accessibility(json(r#"{"accessibility_available": false}"#))
            }
            PixelRequest::ResolvePublication => {
                PixelReply::Publication { resolved: Ok(test_target()), serial: 9 }
            }
            other => panic!("unexpected request {other:?}"),
        };
        match run.advance(&mut session, reply) {
            Step::Continue(going) => run = going,
            Step::Done(result) => break result,
        }
    };
    Publication { result, unread: unread.len(), trace, session }
}

#[test]
fn first_capture_instance_drift_cannot_reach_publication() {
    for mode in [CONTENT, CROP] {
        let a = evidence();
        let b = changed_instance(0);
        let seen = publish(mode, Some(PixelObservationRoute::ExplicitPixelsOnly), [a, b, b, b]);
        assert_eq!(seen.result.unwrap_err().code, ComputerUseErrorCode::StaleObservation);
        assert_eq!(
            seen.session.observation.unwrap().observation_id,
            "observation-before-refresh",
            "nothing was published"
        );
    }
}

#[test]
fn every_instance_component_is_fenced_inside_first_capture_on_all_shared_paths() {
    for mode in [CONTENT, CROP] {
        for path in paths() {
            for component in 0..4 {
                let a = evidence();
                let b = changed_instance(component);
                let seen = publish(mode, path, [a, b, b, b]);
                assert_eq!(
                    seen.result.unwrap_err().code,
                    ComputerUseErrorCode::StaleObservation
                );
                assert_eq!(seen.unread, 2, "first capture must fail before recapture");
                assert_eq!(seen.trace, vec!["capture"]);
            }
        }
    }
}

#[test]
fn stable_instances_publish_on_all_shared_paths_and_capture_branches() {
    for mode in [CONTENT, CROP] {
        for path in paths() {
            let seen = publish(mode, path, [evidence(); 4]);
            let screenshot = seen.result.expect("stable pixels publish");
            assert_eq!(screenshot.data, vec![1]);
            assert_eq!(
                screenshot.observation.observation_id,
                "refresh-boundary-session-9"
            );
            assert_eq!(
                seen.session.observation.unwrap().observation_id,
                "refresh-boundary-session-9"
            );
            assert_eq!(seen.unread, 0);
            assert_eq!(seen.trace.iter().filter(|step| **step == "encode").count(), 2);
            assert_eq!(seen.trace.contains(&"accessibility"), path.is_none());
        }
    }
}

#[test]
fn late_instance_drift_remains_rejected_between_or_inside_final_capture() {
    for mode in [CONTENT, CROP] {
        for path in paths() {
            for component in 0..4 {
                let a = evidence();
                let b = changed_instance(component);
                for sequence in [[a, a, b, b], [a, a, a, b]] {
                    let seen = publish(mode, path, sequence);
                    assert_eq!(
                        seen.result.unwrap_err().code,
                        ComputerUseErrorCode::StaleObservation
                    );
                    assert_eq!(seen.unread, 0);
                    assert!(seen.trace.contains(&"encode"));
                    assert_eq!(
                        seen.session.observation.unwrap().observation_id,
                        "observation-before-refresh"
                    );
                }
            }
        }
    }
}

#[test]
fn a_visual_fallback_needs_an_approval() {
    let mut session = pixel_session();
    session.escalated = false;
    let error = session.begin_visual_capture(test_target(), BOUNDS).unwrap_err();
    assert_eq!(error.code, ComputerUseErrorCode::BackendUnavailable);
    let approved = session
        .escalate("the user approved pixels", Ok(()), Ok(test_target()))
        .expect("approved");
    assert_eq!(approved.window_id, 77);
    assert!(session.escalated);
}

#[test]
fn a_desktop_crop_stands_in_for_an_approved_window() {
    let mut session = pixel_session();
    let mut run = session.begin_visual_capture(test_target(), BOUNDS).unwrap();
    let screenshot = loop {
        let reply = match run.request() {
            PixelRequest::CheckObservation | PixelRequest::CheckDesktop => {
                PixelReply::Gate(Ok(()))
            }
            PixelRequest::CaptureWindow => PixelReply::Captured(Err(failed(
                ComputerUseErrorCode::CaptureFailed,
                "no window pixels",
            ))),
            PixelRequest::CheckFallback => PixelReply::Fallback(true),
            PixelRequest::CaptureDesktop => {
                let mut shown = answer("{}");
                shown.reply.images = vec![ToolImage {
                    data_base64: "AQID".to_owned(),
                    mime_type: "image/png".to_owned(),
                }];
                PixelReply::Desktop(Ok(shown))
            }
            PixelRequest::CropDesktop => {
                assert_eq!(run.data, vec![1, 2, 3], "the decoded desktop picture");
                PixelReply::Cropped(Ok(DesktopCrop {
                    data: vec![7],
                    size: Some((800, 600)),
                    bounds: [0, 0, 800, 600],
                    dpi: 96,
                }))
            }
            PixelRequest::ReadAccessibility => {
                PixelReply::Accessibility(json(r#"{"accessibility_available": true}"#))
            }
            PixelRequest::ResolvePublication => {
                PixelReply::Publication { resolved: Ok(test_target()), serial: 3 }
            }
            other => panic!("unexpected request {other:?}"),
        };
        match run.advance(&mut session, reply) {
            Step::Continue(going) => run = going,
            Step::Done(result) => break result.expect("cropped desktop"),
        }
    };
    assert_eq!(screenshot.data, vec![7]);
    let provenance = &screenshot.observation.capture_provenance;
    assert_eq!(provenance.text_at("backend"), Some("cua-driver-sdk-desktop-crop"));
    assert_eq!(provenance.text_at("accessibility_backend"), Some("windows_uia"));
    assert_eq!(screenshot.observation.width, 800);
}

#[test]
fn pixels_only_needs_a_session_started_on_them() {
    let mut session = pixel_session();
    let error = session.screenshot_pixels_only(Ok(test_target())).unwrap_err();
    assert_eq!(error.code, ComputerUseErrorCode::InvalidAction);
    session.pixel_route = Some(PixelObservationRoute::ExplicitPixelsOnly);
    assert!(session.screenshot_pixels_only(Ok(test_target())).is_ok());
}

fn with_image(text: &str) -> ToolAnswer {
    let mut shown = answer("{}");
    shown.reply.images =
        vec![ToolImage { data_base64: text.to_owned(), mime_type: "image/png".to_owned() }];
    shown
}

/// Runs a capture through the driver to its end.
fn screenshot(
    session: &mut ComputerUseSession,
    captured: &mut dyn FnMut() -> ComputerUseResult<ToolAnswer>,
) -> ComputerUseResult<ScreenshotOutcome> {
    let mut step = session.begin_screenshot(NOW, BOUNDS)?;
    loop {
        let run = match step {
            Step::Continue(run) => run,
            Step::Done(result) => return result,
        };
        let reply = match run.request() {
            ScreenshotRequest::CheckInput | ScreenshotRequest::CheckObservation => {
                ScreenshotReply::Gate(Ok(()))
            }
            ScreenshotRequest::RefreshUpstream => ScreenshotReply::Refreshed(Ok(())),
            ScreenshotRequest::ResolveTarget => ScreenshotReply::Target(Ok(test_target())),
            ScreenshotRequest::CaptureWindowState => ScreenshotReply::Captured(captured()),
            ScreenshotRequest::MeasureImage => ScreenshotReply::Measured(Some((800, 600))),
            ScreenshotRequest::CheckTiers => ScreenshotReply::Tiers(true),
            ScreenshotRequest::ReadAccessibility => ScreenshotReply::Accessibility(Ok(json(
                r#"{"accessibility_available": true}"#,
            ))),
            ScreenshotRequest::ResolvePublication => {
                ScreenshotReply::Publication { resolved: Ok(test_target()), serial: 5 }
            }
        };
        step = run.advance(session, NOW, reply);
    }
}

#[test]
fn a_screenshot_publishes_the_decoded_image() {
    let mut session = counting_session();
    session.live = None;
    match screenshot(&mut session, &mut || Ok(with_image("AQID"))) {
        Ok(ScreenshotOutcome::Captured(shown)) => {
            assert_eq!(shown.data, vec![1, 2, 3]);
            assert_eq!(shown.observation.observation_id, "refresh-boundary-session-5");
            assert_eq!((shown.observation.width, shown.observation.height), (800, 600));
        }
        other => panic!("unexpected outcome {other:?}"),
    }
    assert_eq!(
        session.observation.as_ref().unwrap().observation_id,
        "refresh-boundary-session-5"
    );
    assert_eq!(session.last_refresh_ms, Some(NOW));
}

#[test]
fn a_screenshot_that_is_no_base64_publishes_nothing() {
    let mut session = counting_session();
    session.live = None;
    let error = screenshot(&mut session, &mut || Ok(with_image("not base64!"))).unwrap_err();
    assert_eq!(error.code, ComputerUseErrorCode::CaptureFailed);
    assert!(session.observation.is_none());
}

#[test]
fn a_screenshot_after_a_refresh_comes_from_the_running_feed() {
    let mut session = counting_session();
    match screenshot(&mut session, &mut || panic!("the driver is not asked")) {
        Ok(ScreenshotOutcome::UseFeed) => {}
        other => panic!("unexpected outcome {other:?}"),
    }
    assert_eq!(session.transition_fence, Some(LiveObservationFence::new(7, 12)));
}

#[test]
fn a_hung_accessibility_provider_leaves_the_pixels() {
    let mut session = pixel_session();
    session.live = None;
    let outcome = screenshot(&mut session, &mut || {
        let mut hung = answer("{}");
        hung.reply = uia_reply("uia_timeout", "provider timed out");
        hung.accepted = Err(failed(ComputerUseErrorCode::InputFailed, "provider timed out"));
        Ok(hung)
    });
    match outcome {
        Ok(ScreenshotOutcome::UsePixels { route, target }) => {
            assert_eq!(route, PixelObservationRoute::AccessibilityTimeoutDegraded);
            assert_eq!(target.window_id, 77);
        }
        other => panic!("unexpected outcome {other:?}"),
    }
}

#[test]
fn a_screenshot_begins_with_a_refresh_that_is_due() {
    let session = counting_session();
    let run = next(session.begin_screenshot(NOW, BOUNDS).unwrap());
    assert_eq!(run.phase, ScreenshotPhase::RefreshGate);
}

#[test]
fn an_observation_from_the_feed_waits_for_a_newer_frame() {
    let mut session = counting_session();
    session.last_refresh_ms = Some(NOW);
    session.complete_mutating_action();
    let mut run = session.begin_frame_observation();
    let mut waited = None;
    let shown = loop {
        let reply = match run.request() {
            FrameRequest::CheckObservation => FrameReply::Gate(Ok(())),
            FrameRequest::ResolveTarget => FrameReply::Target(Ok(test_target())),
            FrameRequest::WaitForFrame { after_sequence } => {
                waited = after_sequence;
                FrameReply::Frame(Ok(FrameFacts {
                    sequence: 13,
                    captured_at_ms: 1,
                    width: 800,
                    height: 600,
                }))
            }
            FrameRequest::EncodeFrame => FrameReply::Encoded(Ok((vec![9], (800, 600)))),
            FrameRequest::ResolvePublication => {
                FrameReply::Publication { resolved: Ok(test_target()), serial: 2, age_ms: 4 }
            }
        };
        match run.advance(&mut session, reply) {
            Step::Continue(going) => run = going,
            Step::Done(result) => break result.expect("frame published"),
        }
    };
    assert_eq!(waited, Some(12));
    assert_eq!(shown.data, vec![9]);
    assert_eq!(session.observation.as_ref().unwrap().width, 800);
}

#[test]
fn a_screenshot_asks_for_the_window_that_was_seen() {
    let mut session = counting_session();
    session.last_refresh_ms = Some(NOW);
    session.live = None;
    let run = next(session.begin_screenshot(NOW, BOUNDS).unwrap());
    assert_eq!(run.activity(), Some(BannerActivity::Observing));
    assert!(run.capture_arguments("s").is_none());
    let seen = WindowTarget { bounds: [5, 6, 7, 8], ..test_target() };
    let run = next(run.advance(&mut session, NOW, ScreenshotReply::Target(Ok(seen))));
    assert_eq!(run.phase, ScreenshotPhase::Gate);
    let run = next(run.advance(&mut session, NOW, ScreenshotReply::Gate(Ok(()))));
    let usual = SnapshotBounds::usual();
    assert_eq!((usual.max_elements, usual.max_depth), (512, 16));
    assert_eq!(run.request(), ScreenshotRequest::CaptureWindowState);
    assert_eq!(run.target.as_ref().map(|target| target.bounds), Some([5, 6, 7, 8]));
    let arguments = run.capture_arguments("s").unwrap();
    assert_eq!(arguments.u64_at("pid"), Some(42));
    assert_eq!(arguments.u64_at("window_id"), Some(77));
    assert_eq!(arguments.bool_at("include_screenshot"), Some(true));
    assert_eq!(arguments.u64_at("max_elements"), Some(50));
    assert_eq!(arguments.u64_at("max_depth"), Some(4));
    assert_eq!(arguments.text_at("session"), Some("s"));
}

#[test]
fn a_desktop_that_stands_in_is_asked_for_the_session() {
    let mut session = counting_session();
    session.escalated = true;
    let run = session.begin_visual_capture(test_target(), BOUNDS).unwrap();
    assert!(matches!(run.purpose, PixelPurpose::Approved { bounds } if bounds == BOUNDS));
    let arguments = run.desktop_arguments(&session);
    assert_eq!(arguments.text_at("session"), Some(session.session_id.as_str()));
    assert!(arguments.get("pid").is_none());
}

#[test]
fn every_failure_of_an_approved_capture_asks_whether_the_desktop_may_stand_in() {
    let refused = || failed(ComputerUseErrorCode::InteractiveDesktopUnavailable, "locked");
    let mut session = pixel_session();
    let run = session.begin_visual_capture(test_target(), BOUNDS).unwrap();
    let run = next(run.advance(&mut session, PixelReply::Gate(Err(refused()))));
    assert_eq!(run.request(), PixelRequest::CheckFallback);
    assert_eq!(run.failure.as_ref().unwrap().message, "locked");
    assert!(session.observation.is_none(), "a locked desktop voids what was seen");
    let run = next(run.advance(&mut session, PixelReply::Fallback(true)));
    assert_eq!(run.request(), PixelRequest::CheckDesktop);

    let run = session.begin_visual_capture(test_target(), BOUNDS).unwrap();
    let run = next(run.advance(&mut session, PixelReply::Gate(Err(refused()))));
    match run.advance(&mut session, PixelReply::Fallback(false)) {
        Step::Done(Err(error)) => assert_eq!(error.message, "locked"),
        other => panic!("unexpected step {other:?}"),
    }

    let hidden = WindowTarget { is_foreground: false, ..test_target() };
    let run = session.begin_visual_capture(hidden, BOUNDS).unwrap();
    let run = next(run.advance(&mut session, PixelReply::Gate(Ok(()))));
    let lost = failed(ComputerUseErrorCode::CaptureFailed, "no window pixels");
    let run = next(run.advance(&mut session, PixelReply::Captured(Err(lost))));
    match run.advance(&mut session, PixelReply::Fallback(true)) {
        Step::Done(Err(error)) => {
            assert_eq!(error.code, ComputerUseErrorCode::CaptureFailed);
            assert!(error.message.starts_with("exact window capture failed ("));
            assert!(error.message.ends_with("the target to be on-screen and foreground"));
        }
        other => panic!("unexpected step {other:?}"),
    }
}

#[test]
fn a_window_minimized_in_its_capture_voids_what_was_seen() {
    let minimized = ExactWindowPixelEvidence { minimized: true, ..evidence() };
    let route = Some(PixelObservationRoute::ExplicitPixelsOnly);
    for sequence in [
        [minimized, minimized, evidence(), evidence()],
        [evidence(), evidence(), minimized, minimized],
    ] {
        let seen = publish(CONTENT, route, sequence);
        assert_eq!(seen.result.unwrap_err().code, ComputerUseErrorCode::TargetMinimized);
        assert!(seen.session.observation.is_none());
    }
}

#[test]
fn a_gate_that_closes_on_an_encoded_capture_ends_a_route() {
    let mut session = pixel_session();
    let route = PixelObservationRoute::ExplicitPixelsOnly;
    let run = session.begin_pixel_capture(test_target(), route).unwrap();
    let run = next(run.advance(&mut session, PixelReply::Gate(Ok(()))));
    let capture = PixelCapture {
        bracket: BracketedCapture {
            before: evidence(),
            after: evidence(),
            mode: CONTENT,
            source_rect: [0, 0, 800, 600],
            generation: 1,
        },
        backend: "modelled-backend".to_owned(),
        fallback: "exact_window_wgc".to_owned(),
    };
    let run = next(run.advance(&mut session, PixelReply::Captured(Ok(capture))));
    assert_eq!(run.request(), PixelRequest::EncodeWindow);
    let run = next(run.advance(&mut session, PixelReply::Encoded(Ok((vec![1], None)))));
    assert_eq!(run.request(), PixelRequest::CheckObservation);
    let refused = failed(ComputerUseErrorCode::InteractiveDesktopUnavailable, "locked");
    match run.advance(&mut session, PixelReply::Gate(Err(refused))) {
        Step::Done(Err(error)) => assert_eq!(error.message, "locked"),
        other => panic!("unexpected step {other:?}"),
    }
}
