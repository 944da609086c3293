use std::collections::BTreeMap;

use dcc_cua::application::launch_session_arguments;
use dcc_cua::contracts::{
    ComputerUseAction, ComputerUseClipboardWriteRequest, ComputerUseMarker, ComputerUseTargetScope,
    ComputerUseToolResult, ComputerUseToolStatus,
};
use dcc_cua::dcc_tool_defs::{maya_command_def, unreal_remote_call_def};
use dcc_cua::driver::ToolReply;
use dcc_cua::errors::{ComputerUseError, ComputerUseErrorCode};
use dcc_cua::input_state::{probe_input_readiness, ComputerUseInputStatus};
use dcc_cua::interactive_desktop::{
    require_desktop_observation_available, require_exact_window_observation_available,
    require_window_activation_available,
};
use dcc_cua::json::{parse_json, Json, JsonMember};
use dcc_cua::live_observation::{
    after_persistent_capture, after_single_capture, CompositorTiming, FrameCaptureMeasurement,
    NativeCaptureStep, NativePixels,
};
use dcc_cua::session::{
    BannerActivity, ComputerUseSession, UpstreamSessionState, SESSION_REFRESH_INTERVAL_MS,
};
use dcc_cua::session_action::ActionReport;
use dcc_cua::session_calls::{
    clipboard_read_arguments, clipboard_write_arguments, CursorPhase, CursorRun, EffectKind,
    EffectReport, NativeFrameReport,
};
use dcc_cua::session_evidence::{VerifyPhase, VerifyRun, ZoomPhase, ZoomRun};
use dcc_cua::session_recording::{
    RecordingStartPhase, RecordingStartRun, RecordingStarted, RecordingStopPhase, RecordingStopRun,
    RecordingStopped,
};
use dcc_cua::session_reports::{
    inactive_feed, published_action, published_activation, published_bootstrap, published_close,
    published_effect, published_escalation, published_native_frame, published_recording_start,
    published_recording_stop, published_restore, published_termination, published_window_state,
};
use dcc_cua::session_tools::{BrowserPhase, BrowserRun, ExtensionPhase, ExtensionRun};
use dcc_cua::session_start::{StartReply, StartRequest, StartRun};
use dcc_cua::session_windows::{
    front_arguments, ActivatePhase, ActivateRun, ActivationReport, RestorePhase, RestoreRun,
    WindowReply, WindowRequest,
};
use dcc_cua::steps::Step;
use dcc_cua::tool_binding::{
    banner_activity_for_action_phase, banner_activity_for_bound_tool, ensure_global_tool,
    windows_in_reply, ActionBannerPhase, BrowserToolDisposition,
};
use dcc_cua::window_target::WindowTarget;

const NOW: u64 = 5_000;

fn json(text: &str) -> Json {
    parse_json(text).expect("test JSON")
}

/// The value with the members of its objects in order, later ones winning.
fn shown(value: &Json) -> String {
    match value {
        Json::Object(members) => {
            let ordered: BTreeMap<&str, String> =
                members.iter().map(|member| (member.name.as_str(), shown(&member.value))).collect();
            format!("{ordered:?}")
        }
        Json::Array(items) => format!("{:?}", items.iter().map(shown).collect::<Vec<String>>()),
        other => format!("{other:?}"),
    }
}

fn assert_shows(value: &Json, expected: &str) {
    assert_eq!(shown(value), shown(&json(expected)));
}

fn window() -> WindowTarget {
    WindowTarget {
        pid: 42,
        window_id: 77,
        title: "Test DCC".to_owned(),
        app_name: "test.exe".to_owned(),
        bounds: [-5, 0, 800, 600],
        is_on_screen: true,
        is_minimized: false,
        z_index: None,
        is_foreground: true,
    }
}

fn session(native_windows: bool) -> ComputerUseSession {
    ComputerUseSession::new(
        ComputerUseTargetScope {
            process_id: Some(42),
            window_handle: Some(77),
            window_title: None,
        },
        "Test DCC".to_owned(),
        "agent".to_owned(),
        "start-session".to_owned(),
        "label".to_owned(),
        native_windows,
    )
    .expect("test session")
}

fn result(value: &str) -> ComputerUseToolResult {
    ComputerUseToolResult {
        status: ComputerUseToolStatus::Succeeded,
        value: json(value),
        text: "done".to_owned(),
        images: Vec::new(),
        degraded: true,
    }
}

fn on(step: Step<StartRun, Option<dcc_cua::session_start::StartActivation>>) -> StartRun {
    match step {
        Step::Continue(run) => run,
        Step::Done(other) => panic!("unexpected end {other:?}"),
    }
}

fn failure(
    step: Step<StartRun, Option<dcc_cua::session_start::StartActivation>>,
) -> ComputerUseError {
    match step {
        Step::Done(Err(error)) => error,
        other => panic!("unexpected step {other:?}"),
    }
}

#[test]
fn a_plain_start_resolves_then_starts_the_driver_then_binds() {
    let mut session = session(true);
    let run = session.begin_session_start(false, Ok(())).unwrap();
    assert_eq!(run.request(), StartRequest::ResolveTarget);
    let run = on(run.advance(&mut session, NOW, StartReply::Target(Ok(window()))));
    assert_eq!(run.request(), StartRequest::StartUpstream);
    assert!(!session.active);
    let run = on(run.advance(&mut session, NOW, StartReply::Started(Ok(()))));
    assert_eq!(run.request(), StartRequest::StartBanner);
    assert!(matches!(session.upstream, UpstreamSessionState::Active));
    assert_eq!(session.last_refresh_ms, Some(NOW));
    assert!(!session.active);
    match run.advance(&mut session, NOW, StartReply::Banner(true)) {
        Step::Done(Ok(None)) => {}
        other => panic!("unexpected step {other:?}"),
    }
    assert!(session.active);
    assert!(session.marker.visible);
    assert!(session.banner.is_some());
    assert_eq!(session.target().map(|target| target.window_id), Some(77));
}

#[test]
fn a_start_that_activates_waits_for_the_window() {
    let mut session = session(true);
    let run = session.begin_session_start(true, Ok(())).unwrap();
    let run = on(run.advance(&mut session, NOW, StartReply::Target(Ok(window()))));
    assert_eq!(run.request(), StartRequest::Window(WindowRequest::CheckActivation));
    let run = on(run.advance(&mut session, NOW, StartReply::Window(WindowReply::Gate(Ok(())))));
    assert_eq!(run.request(), StartRequest::Window(WindowRequest::ActivateWindow));
    let run = on(run.advance(&mut session, NOW, StartReply::Started(Ok(()))));
    assert_eq!(run.request(), StartRequest::Window(WindowRequest::ActivateWindow));
    let run = on(run.advance(&mut session, NOW, StartReply::Window(WindowReply::Mutated(Ok(())))));
    let run =
        on(run.advance(&mut session, NOW, StartReply::Window(WindowReply::Target(Ok(window())))));
    assert_eq!(run.request(), StartRequest::StartUpstream);
    assert!(!run.activation.as_ref().expect("activation").fallback);
}

#[test]
fn a_start_fails_as_its_steps_do() {
    let mut running = session(true);
    running.active = true;
    let error = running.begin_session_start(false, Ok(())).unwrap_err();
    assert_eq!(error.message, "window session is already active");

    let invalid = ComputerUseError::new(ComputerUseErrorCode::InvalidTarget, "no exact window");
    let error = session(true).begin_session_start(true, Err(invalid)).unwrap_err();
    assert_eq!(error.code, ComputerUseErrorCode::InvalidTarget);

    let mut unresolved = session(true);
    let run = unresolved.begin_session_start(false, Ok(())).unwrap();
    let missing = ComputerUseError::new(ComputerUseErrorCode::MissingWindow, "gone");
    let error = failure(run.advance(&mut unresolved, NOW, StartReply::Target(Err(missing))));
    assert_eq!(error.message, "gone");
    assert!(!unresolved.active);

    let mut lost = session(true);
    let run = lost.begin_session_start(true, Ok(())).unwrap();
    let run = on(run.advance(&mut lost, NOW, StartReply::Target(Ok(window()))));
    let locked = ComputerUseError::new(ComputerUseErrorCode::InputFailed, "locked");
    let error =
        failure(run.advance(&mut lost, NOW, StartReply::Window(WindowReply::Gate(Err(locked)))));
    assert_eq!(error.message, "locked");
}

#[test]
fn a_driver_that_times_out_leaves_pixels_on_windows_only() {
    for native_windows in [true, false] {
        let mut session = session(native_windows);
        let run = session.begin_session_start(false, Ok(())).unwrap();
        let run = on(run.advance(&mut session, NOW, StartReply::Target(Ok(window()))));
        let late = ComputerUseError::new(
            ComputerUseErrorCode::InputFailed,
            "CUA start CUA session timed out after 1 ms",
        );
        let step = run.advance(&mut session, NOW, StartReply::Started(Err(late)));
        if native_windows {
            assert_eq!(on(step).request(), StartRequest::StartBanner);
            assert!(matches!(session.upstream, UpstreamSessionState::VisualOnly { .. }));
        } else {
            assert_eq!(failure(step).code, ComputerUseErrorCode::InputFailed);
            assert!(matches!(session.upstream, UpstreamSessionState::Inactive));
        }
        assert!(!session.active);
    }
}

#[test]
fn evidence_calls_name_the_window_and_the_session() {
    let session = session(true);
    let zoom = ZoomRun {
        phase: ZoomPhase::Call,
        window_handle: 77,
        process_id: 42,
        target: None,
        answer: None,
        failure: None,
    };
    let region = vec![JsonMember { name: "x1".to_owned(), value: Json::unsigned(3) }];
    assert_shows(
        &zoom.arguments(&session, region),
        r#"{"pid": 42, "window_id": 77, "x1": 3, "session": "start-session"}"#,
    );

    assert_shows(&front_arguments(&window(), None), r#"{"pid": 42, "window_id": 77}"#);
    assert_shows(
        &front_arguments(&window(), Some("s")),
        r#"{"pid": 42, "window_id": 77, "session": "s"}"#,
    );

    assert_shows(
        &launch_session_arguments("s"),
        r#"{"session": "s", "capture_scope": "window"}"#,
    );
    assert_shows(&clipboard_read_arguments(true), r#"{"include_text": true}"#);
    let write = ComputerUseClipboardWriteRequest {
        text: None,
        image_path: Some("a.png".to_owned()),
        file_path: None,
    };
    assert_shows(&clipboard_write_arguments(&write), r#"{"image_path": "a.png"}"#);

    let mut verify = VerifyRun {
        phase: VerifyPhase::Call,
        include_screenshot: true,
        target: None,
        reply: None::<ToolReply>,
    };
    assert!(verify.arguments(&session, &json("[]"), None, None).is_none());
    verify.target = Some(window());
    assert_shows(
        &verify.arguments(&session, &json("[1]"), Some(9), None).expect("arguments"),
        r#"{"pid": 42, "window_id": 77, "expect": [1], "timeout_ms": 9, "stable_samples": null,
            "include_screenshot": true, "session": "start-session"}"#,
    );
}

#[test]
fn actions_are_published_inside_of_the_session() {
    let marker = ComputerUseMarker {
        visible: true,
        label: "label".to_owned(),
        backend: "cua-driver-sdk",
    };
    for (semantic, key) in [(false, "cua"), (true, "windows_uia")] {
        let report = ActionReport {
            success: false,
            target: window(),
            provenance: json(r#"{"scope": "window"}"#),
            semantic,
            result: result("7"),
        };
        let published =
            published_action(report, json("1"), json("2"), &marker, json(r#"{"running": true}"#));
        assert_eq!(published.text, "done");
        assert!(published.degraded);
        assert_shows(
            &published.value,
            &format!(
                r#"{{"success": false, "action": 1, "target": 2, "{key}": 7,
                    "marker": {{"visible": true, "label": "label", "backend": "cua-driver-sdk"}},
                    "capture_provenance": {{"scope": "window"}}, "banner": {{"running": true}}}}"#
            ),
        );
    }
}

#[test]
fn activations_are_published_with_what_they_did() {
    let report = |fallback: bool, value: &str| ActivationReport {
        target: window(),
        result: result(value),
        fallback,
    };
    assert_shows(
        &published_bootstrap(report(true, r#"{"path": "p"}"#), json("2")),
        r#"{"success": true, "target": 2, "text": "done", "degraded": true,
            "cua": {"path": "p", "fallback": "windows_exact_foreground"}}"#,
    );
    assert_shows(
        &published_activation(report(false, "3"), json("2"), false),
        r#"{"success": true, "target": 2, "cua": 3, "text": "done", "degraded": true}"#,
    );
    assert_shows(
        &published_activation(report(false, "3"), json("2"), true),
        r#"{"success": true, "target": 2, "cua": 3, "text": "done", "degraded": true,
            "automatic_input": false, "fresh_observation_required": true}"#,
    );
    assert_shows(
        &published_restore(json("2")),
        r#"{"success": true, "automatic_input": false, "target": 2,
            "fresh_observation_required": true}"#,
    );
}

#[test]
fn window_operations_are_published_with_their_window() {
    assert_shows(
        &published_close(&window()),
        r#"{"success": true, "effect": "confirmed", "process_terminated": false,
            "target": {"process_id": 42, "window_handle": 77},
            "cua": {"path": "windows_exact_post_wm_close"}, "fresh_observation_required": true}"#,
    );
    assert_shows(
        &published_window_state(&window()),
        r#"{"process_id": 42, "window_handle": 77, "exists": true, "visible": true,
            "minimized": false, "foreground": true, "bounds": [-5, 0, 800, 600]}"#,
    );
    let effect = || EffectReport {
        success: true,
        effect: "unverifiable".to_owned(),
        verification_required: true,
        target: window(),
        result: result("7"),
    };
    assert_shows(
        &published_effect(EffectKind::Menu, effect(), json(r#"["File"]"#), json("2")),
        r#"{"success": true, "effect": "unverifiable", "verification_required": true,
            "observation_required": true, "path": ["File"], "target": 2, "cua": 7,
            "text": "done", "degraded": true}"#,
    );
    assert_shows(
        &published_effect(EffectKind::Frame, effect(), json("1"), json("2")),
        r#"{"success": true, "effect": "unverifiable", "requested_frame": 1, "target": 2,
            "cua": 7, "text": "done", "degraded": true}"#,
    );
    let applied = NativeFrameReport { applied: [1, 2, 3, 4], target: window() };
    assert_shows(
        &published_native_frame(&applied, json("1"), json("2")),
        r#"{"success": true, "effect": "confirmed", "requested_frame": 1,
            "applied_frame": [1, 2, 3, 4], "target": 2, "degraded": false,
            "cua": {"path": "windows_exact_set_window_pos"},
            "text": "Set and verified the exact Windows PID/HWND frame."}"#,
    );
}

#[test]
fn recordings_and_ends_are_published() {
    let started = RecordingStarted { trajectory: json("1"), video: None };
    assert_shows(&published_recording_start(started), "1");
    let stopped = RecordingStopped { trajectory: json("1"), video: Some(json("2")) };
    assert_shows(&published_recording_stop(stopped), r#"{"trajectory": 1, "video": 2}"#);
    assert_shows(
        &published_escalation("uia_timeout", None),
        r#"{"approved": true, "capture_scope": "window", "fallback": "pixel",
            "reason": "uia_timeout", "detail": null}"#,
    );
    assert_shows(
        &published_termination(json("1"), json("2"), json("3")),
        r#"{"success": true, "target": 1, "termination": 2, "cleanup": 3}"#,
    );
    assert_shows(&inactive_feed(), r#"{"active": false}"#);
}

#[test]
fn global_tools_and_window_lists_are_checked() {
    assert!(ensure_global_tool("health_report", true).is_ok());
    let error = ensure_global_tool("launch_app", false).unwrap_err();
    assert_eq!(error.code, ComputerUseErrorCode::InvalidAction);
    assert_eq!(
        error.message,
        "CUA tool \"launch_app\" must use its dedicated or window-bound route"
    );
    let rows = windows_in_reply(r#"{"structuredContent": {"windows": [1, 2]}}"#).unwrap();
    assert_eq!(rows.len(), 2);
    let error = windows_in_reply("{}").unwrap_err();
    assert_eq!(error.message, "CUA list_windows omitted structuredContent.windows");
    let error = windows_in_reply("{").unwrap_err();
    assert_eq!(error.code, ComputerUseErrorCode::BackendUnavailable);
    assert!(error.message.contains("EOF"));
}

#[test]
fn a_managed_desktop_is_ready() {
    assert!(require_desktop_observation_available().is_ok());
    assert!(require_exact_window_observation_available().is_ok());
    assert!(require_window_activation_available().is_ok());
    let readiness = probe_input_readiness();
    assert_eq!(readiness.status, ComputerUseInputStatus::Ready);
    assert_eq!(readiness.code, "interactive_desktop_platform_managed");
}

#[test]
fn evidence_of_a_confirmed_action_is_renewed_in_time() {
    let mut session = session(true);
    session.upstream = UpstreamSessionState::Active;
    session.last_refresh_ms = Some(NOW);
    let due = NOW + SESSION_REFRESH_INTERVAL_MS;
    assert!(!session.confirmed_action_evidence_refresh_due(due));
    session.active = true;
    assert!(!session.confirmed_action_evidence_refresh_due(due - 1));
    assert!(session.confirmed_action_evidence_refresh_due(due));
}

#[test]
fn the_banner_tells_pointer_from_keyboard() {
    let action = |verb: &str| ComputerUseAction {
        action: verb.to_owned(),
        observation_id: None,
        element_index: None,
        element_token: None,
        delivery_mode: None,
        input_backend_id: None,
        x: None,
        y: None,
        button: None,
        scroll_x: None,
        scroll_y: None,
        scroll_by: None,
        path: Vec::new(),
        text: None,
        delay_ms: None,
        duration_ms: None,
        steps: None,
        type_chars_only: false,
        keys: Vec::new(),
        modifiers: Vec::new(),
    };
    let injecting = ActionBannerPhase::Injecting;
    for verb in ["type", "type_chars", "set_text", "set_value", "keypress", "keyboard_shortcut"] {
        assert_eq!(
            banner_activity_for_action_phase(&action(verb), injecting),
            BannerActivity::KeyboardInput
        );
    }
    assert_eq!(
        banner_activity_for_action_phase(&action("click"), injecting),
        BannerActivity::PointerInput
    );
    assert_eq!(
        banner_activity_for_action_phase(&action("type"), ActionBannerPhase::Preparing),
        BannerActivity::Operating
    );
    assert_eq!(banner_activity_for_bound_tool("browser_prepare"), BannerActivity::Navigating);
    assert_eq!(banner_activity_for_bound_tool("get_browser_state"), BannerActivity::Observing);
    assert_eq!(banner_activity_for_bound_tool("browser_click"), BannerActivity::Operating);
}

fn pixels() -> NativePixels {
    NativePixels { bgra: vec![1, 2, 3, 4], width: 1, height: 1 }
}

#[test]
fn a_lost_persistent_capture_is_recovered_once() {
    let measured =
        FrameCaptureMeasurement::measured(1, 2, 3, 4, CompositorTiming::unavailable("none"));
    match after_persistent_capture(Ok((pixels(), measured))) {
        NativeCaptureStep::Captured(image) => {
            assert_eq!(image.capture_mode, "persistent_wgc");
            assert_eq!(image.measurement.source_wait, Some(1));
            assert_eq!((image.bgra, image.width, image.height), (vec![1, 2, 3, 4], 1, 1));
        }
        other => panic!("unexpected step {other:?}"),
    }
    let cause = match after_persistent_capture(Err("lost".to_owned())) {
        NativeCaptureStep::Recover { cause } => cause,
        other => panic!("unexpected step {other:?}"),
    };
    let image = after_single_capture(Some(cause.clone()), Ok(pixels())).unwrap();
    assert_eq!(image.capture_mode, "one_shot_wgc_recovery");
    assert_eq!(image.measurement.source_wait, None);
    let image = after_single_capture(None, Ok(pixels())).unwrap();
    assert_eq!(image.capture_mode, "one_shot_wgc_fallback");
    let error = after_single_capture(Some(cause), Err("gone".to_owned())).unwrap_err();
    assert_eq!(error.code, ComputerUseErrorCode::CaptureFailed);
    assert_eq!(error.message, "lost; one-shot WGC recovery failed: gone");
    let error = after_single_capture(None, Err("gone".to_owned())).unwrap_err();
    assert_eq!(error.message, "gone");
}

#[test]
fn runs_show_what_they_are_at() {
    let mut activate =
        ActivateRun { phase: ActivatePhase::Gate, expected: None, target: None, result: None };
    assert_eq!(activate.activity(), None);
    activate.phase = ActivatePhase::Target;
    assert_eq!(activate.activity(), Some(BannerActivity::Navigating));
    let mut restore = RestoreRun { phase: RestorePhase::Gate, expected: None, target: None };
    assert_eq!(restore.activity(), None);
    restore.phase = RestorePhase::Mutation;
    assert_eq!(restore.activity(), Some(BannerActivity::Navigating));
    let mut cursor = CursorRun {
        phase: CursorPhase::FirstInput,
        name: "move_cursor".to_owned(),
        arguments: json("{}"),
        enabled: None,
        target: None,
        answer: None,
    };
    assert_eq!(cursor.activity(), None);
    cursor.phase = CursorPhase::Dispatch;
    assert_eq!(cursor.activity(), Some(BannerActivity::Operating));
    let mut extension = ExtensionRun {
        phase: ExtensionPhase::Input,
        name: "type_text".to_owned(),
        arguments: json("{}"),
        target: None,
        answer: None,
    };
    assert_eq!(extension.activity(), None);
    extension.phase = ExtensionPhase::Schema;
    assert_eq!(extension.activity(), Some(BannerActivity::Operating));
    let mut browser = BrowserRun {
        phase: BrowserPhase::Refresh,
        name: "get_browser_state".to_owned(),
        route: BrowserToolDisposition::ReadOnlyEvidence,
        arguments: json("{}"),
        publishes: true,
        answer: None,
    };
    assert_eq!(browser.activity(), None);
    browser.phase = BrowserPhase::Target;
    assert_eq!(browser.activity(), Some(BannerActivity::Observing));
    let mut recording = RecordingStartRun {
        phase: RecordingStartPhase::Target,
        output_dir: String::new(),
        record_video: true,
        trajectory: json("{}"),
        owns_live_observation: false,
        failure: None,
    };
    assert_eq!(recording.activity(), None);
    recording.phase = RecordingStartPhase::Recorder;
    assert_eq!(recording.activity(), Some(BannerActivity::Recording));
    let stopping = RecordingStopRun { phase: RecordingStopPhase::Probe, video: Ok(None) };
    assert_eq!(stopping.activity(), Some(BannerActivity::Waiting));
}

#[test]
fn typed_tools_say_what_they_take() {
    let maya = maya_command_def();
    assert_eq!(maya.name, "maya_command");
    assert!(maya.description.ends_with("sourceType configured inside Maya."));
    assert!(maya.destructive && maya.open_world && !maya.read_only && !maya.idempotent);
    assert_shows(
        &maya.input_schema,
        r#"{
            "type": "object",
            "properties": {
                "port": {
                    "type": "integer", "minimum": 1, "maximum": 65535,
                    "description": "Local Maya commandPort TCP port."
                },
                "command": {
                    "type": "string",
                    "description": "MEL or Python source sent verbatim to the commandPort."
                },
                "timeout_ms": {
                    "type": "integer", "minimum": 1, "maximum": 60000,
                    "description": "Optional per-call timeout in milliseconds."
                }
            },
            "required": ["port", "command"],
            "additionalProperties": false
        }"#,
    );
    let unreal = unreal_remote_call_def();
    assert_eq!(unreal.name, "unreal_remote_call");
    assert!(unreal.description.ends_with("the body is forwarded as JSON."));
    assert!(unreal.destructive && unreal.open_world && !unreal.read_only && !unreal.idempotent);
    assert_shows(
        &unreal.input_schema,
        r#"{
            "type": "object",
            "properties": {
                "port": {
                    "type": "integer", "minimum": 1, "maximum": 65535,
                    "description": "Local Remote Control HTTP port (default 30010)."
                },
                "method": {
                    "type": "string", "enum": ["GET", "PUT", "POST"],
                    "description": "HTTP method for the Remote Control endpoint."
                },
                "path": {
                    "type": "string",
                    "description": "Endpoint path; must start with /remote/."
                },
                "body": {"type": "object", "description": "Optional JSON request body."},
                "timeout_ms": {
                    "type": "integer", "minimum": 1, "maximum": 60000,
                    "description": "Optional per-call timeout in milliseconds."
                }
            },
            "required": ["port", "method", "path"],
            "additionalProperties": false
        }"#,
    );
}
