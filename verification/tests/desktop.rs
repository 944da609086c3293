use dcc_cua::contracts::{ComputerUseAction, ComputerUseToolResult, ComputerUseToolStatus, Coordinate};
use dcc_cua::desktop_session::{
    begin_session_marker, desktop_snapshot_arguments, desktop_snapshot_from, desktop_tool_call,
    session_arguments, start_arguments, CaptureScope, ComputerUseDesktopSession,
    DesktopActionPhase, DesktopActionReply, DesktopCapture, DesktopStartPhase, DesktopStartReply,
    EndSessionReply, MarkerPhase, MarkerRun,
};
use dcc_cua::driver::{ToolImage, ToolReply};
use dcc_cua::driver_host::{
    advance_theme, embedded_settings, theme_file_name, tool_inventory, worker_settings,
    ThemePhase, ThemeReply,
    ThemeStep,
};
use dcc_cua::errors::{ComputerUseError, ComputerUseErrorCode, ComputerUseResult};
use dcc_cua::input_target_policy::{
    posted_key, posted_key_text, posts_key, reject_ambiguous_embedded_browser_navigation,
};
use dcc_cua::json::{parse_json, Json};
use dcc_cua::platform_errors::{
    map_held_key_error, map_indicator_error, map_windows_window_mutation_error, HeldKeyFailure,
    IndicatorFailure, WindowMutationFailure,
};
use dcc_cua::steps::Step;
use dcc_cua::window_capture::{CapturePhase, CaptureReply, CaptureRun, CaptureStep};
use dcc_cua::window_target::WindowTarget;

fn json(text: &str) -> Json {
    parse_json(text).expect("test JSON")
}

fn failed(code: ComputerUseErrorCode, message: &str) -> ComputerUseError {
    ComputerUseError::new(code, message)
}

fn action(kind: &str) -> ComputerUseAction {
    ComputerUseAction {
        action: kind.to_owned(),
        observation_id: None,
        element_index: None,
        element_token: None,
        delivery_mode: None,
        input_backend_id: None,
        x: None,
        y: None,
        button: None,
        scroll_x: None,
        scroll_y: None,
        scroll_by: None,
        path: Vec::new(),
        text: None,
        delay_ms: None,
        duration_ms: None,
        steps: None,
        type_chars_only: false,
        keys: Vec::new(),
        modifiers: Vec::new(),
    }
}

fn desktop_click(observation_id: Option<&str>) -> ComputerUseAction {
    ComputerUseAction {
        x: Some(Coordinate { bits: 10f64.to_bits() }),
        y: Some(Coordinate { bits: 20f64.to_bits() }),
        observation_id: observation_id.map(str::to_owned),
        ..action("click")
    }
}

fn session() -> ComputerUseDesktopSession {
    ComputerUseDesktopSession::new("Agent controls Desktop".to_owned(), "desktop-test".to_owned())
        .unwrap()
}

fn active_desktop_session() -> ComputerUseDesktopSession {
    let mut session = session();
    session.active = true;
    session
}

fn reply(images: Vec<ToolImage>, structured: Option<&str>) -> ToolReply {
    ToolReply {
        is_error: false,
        error_code: None,
        raw_json: "{}".to_owned(),
        text: String::new(),
        structured_json: structured.map(str::to_owned),
        images,
        degraded: false,
        action_effect: None,
    }
}

fn image(data: &str) -> ToolImage {
    ToolImage { data_base64: data.to_owned(), mime_type: "image/png".to_owned() }
}

fn tool_result() -> ComputerUseToolResult {
    ComputerUseToolResult {
        status: ComputerUseToolStatus::Succeeded,
        value: json("{}"),
        text: String::new(),
        images: Vec::new(),
        degraded: false,
    }
}

#[test]
fn desktop_action_without_any_snapshot_is_rejected() {
    let session = active_desktop_session();
    let error = session.begin_action(Ok(()), &desktop_click(None)).unwrap_err();
    assert_eq!(error.code, ComputerUseErrorCode::StaleObservation);
}

#[test]
fn desktop_action_cannot_reuse_an_observation_after_it_is_consumed() {
    let mut session = active_desktop_session();
    session.latest_observation_id = None;
    let error =
        session.begin_action(Ok(()), &desktop_click(Some("consumed-observation"))).unwrap_err();
    assert_eq!(error.code, ComputerUseErrorCode::StaleObservation);
}

#[test]
fn a_desktop_snapshot_serves_one_action() {
    let mut session = active_desktop_session();
    let snapshot = desktop_snapshot_from(&reply(vec![image("cG5n")], Some(r#"{"a":1}"#)), 5).unwrap();
    assert_eq!(snapshot.observation_id, "desktop-5");
    assert_eq!(snapshot.data, b"png");
    assert_eq!(snapshot.state.u64_at("a"), Some(1));
    session.finish_screenshot(DesktopCapture::Finished(Ok(snapshot))).unwrap();
    let phase = session.begin_action(Ok(()), &desktop_click(Some("desktop-5"))).unwrap();
    assert_eq!(phase, DesktopActionPhase::Input);
    let phase = match session.advance_action(phase, &Json::text("shown"), DesktopActionReply::Gate(Ok(()))) {
        Step::Continue(phase) => phase,
        other => panic!("unexpected step {other:?}"),
    };
    match session.advance_action(
        phase,
        &Json::text("shown"),
        DesktopActionReply::Dispatched(Ok(tool_result())),
    ) {
        Step::Done(Ok(published)) => {
            assert_eq!(published.value.bool_at("success"), Some(true));
            assert_eq!(published.value.text_at("action"), Some("shown"));
            assert_eq!(
                published.value.get("marker").and_then(|marker| marker.text_at("backend")),
                Some("cua-driver-sdk")
            );
            assert!(published.value.get("cua").expect("cua").is_object());
        }
        other => panic!("unexpected step {other:?}"),
    }
    assert!(session.latest_observation_id.is_none());
    let error = session.begin_action(Ok(()), &desktop_click(Some("desktop-5"))).unwrap_err();
    assert_eq!(error.code, ComputerUseErrorCode::StaleObservation);
}

#[test]
fn desktop_actions_need_coordinates_and_an_active_session() {
    let error = session().begin_action(Ok(()), &desktop_click(None)).unwrap_err();
    assert_eq!(error.message, "desktop session is not active");
    let session = active_desktop_session();
    for kind in ["set_text", "set_value"] {
        let error = session.begin_action(Ok(()), &action(kind)).unwrap_err();
        assert_eq!(error.message, "desktop actions support only screen-coordinate input");
    }
    let element = ComputerUseAction { element_index: Some(3), ..action("click") };
    assert_eq!(
        session.begin_action(Ok(()), &element).unwrap_err().code,
        ComputerUseErrorCode::InvalidAction
    );
    let refused = session.begin_action(
        Err(failed(ComputerUseErrorCode::InvalidAction, "no")),
        &desktop_click(None),
    );
    assert_eq!(refused.unwrap_err().message, "no");
}

#[test]
fn desktop_sessions_start_once() {
    assert_eq!(
        ComputerUseDesktopSession::new(String::new(), "  ".to_owned()).unwrap_err().message,
        "desktop session_id must not be empty"
    );
    let mut session = session();
    let phase = session.begin_start().unwrap();
    let next = |step: Step<DesktopStartPhase, Json>| match step {
        Step::Continue(phase) => phase,
        other => panic!("unexpected step {other:?}"),
    };
    let phase = next(session.advance_start(phase, DesktopStartReply::Gate(Ok(()))));
    let phase = next(session.advance_start(phase, DesktopStartReply::Started(Ok(()))));
    assert!(!session.active);
    let state = match session.advance_start(phase, DesktopStartReply::Marked(Ok(()))) {
        Step::Done(Ok(state)) => state,
        other => panic!("unexpected step {other:?}"),
    };
    assert!(session.active && session.marker.visible);
    assert_eq!(state.bool_at("active"), Some(true));
    assert_eq!(state.get("marker").unwrap().bool_at("visible"), Some(true));
    assert_eq!(session.begin_start().unwrap_err().message, "desktop session is already active");
}

#[test]
fn desktop_start_failures_leave_the_session_inactive() {
    for (phase, reply) in [
        (DesktopStartPhase::Gate, DesktopStartReply::Gate(Err(failed(ComputerUseErrorCode::InputFailed, "x")))),
        (DesktopStartPhase::Start, DesktopStartReply::Started(Err(failed(ComputerUseErrorCode::InputFailed, "x")))),
        (DesktopStartPhase::Marker, DesktopStartReply::Marked(Err(failed(ComputerUseErrorCode::InputFailed, "x")))),
    ] {
        let mut session = session();
        assert!(matches!(session.advance_start(phase, reply), Step::Done(Err(_))));
        assert!(!session.active && !session.marker.visible);
    }
}

#[test]
fn desktop_snapshots_report_their_failures() {
    let error = desktop_snapshot_from(&reply(Vec::new(), None), 1).unwrap_err();
    assert_eq!(error.message, "CUA desktop state returned no screenshot");
    let error = desktop_snapshot_from(&reply(vec![image("***")], None), 1).unwrap_err();
    assert_eq!(error.code, ComputerUseErrorCode::CaptureFailed);
    let snapshot = desktop_snapshot_from(&reply(vec![image("")], Some("nonsense")), 1).unwrap();
    assert!(snapshot.state.is_object());
    let mut session = active_desktop_session();
    let error = session.finish_screenshot(DesktopCapture::TimedOut).unwrap_err();
    assert_eq!(error.code, ComputerUseErrorCode::InputFailed);
    assert!(error.message.contains("timed out"));
}

#[test]
fn desktop_sessions_stop_even_without_an_answer() {
    assert!(session().stop_inactive().is_some());
    let mut session = active_desktop_session();
    assert!(session.stop_inactive().is_none());
    let error = session
        .finish_stop(EndSessionReply::ToolFailed(failed(ComputerUseErrorCode::InputFailed, "busy")))
        .unwrap_err();
    assert_eq!(error.message, "busy");
    assert!(session.active);
    let error = session
        .finish_stop(EndSessionReply::CallFailed(failed(ComputerUseErrorCode::InputFailed, "lost")))
        .unwrap_err();
    assert_eq!(error.message, "lost");
    assert!(!session.active);
    let mut session = active_desktop_session();
    let state = session.finish_stop(EndSessionReply::Ended).unwrap();
    assert_eq!(state.bool_at("active"), Some(false));
    assert!(!session.active && !session.marker.visible);
}

#[test]
fn session_arguments_name_scope_and_theme() {
    let arguments = start_arguments("s", CaptureScope::Window, "label");
    assert_eq!(arguments.text_at("session"), Some("s"));
    assert_eq!(arguments.text_at("capture_scope"), Some("window"));
    assert_eq!(
        arguments.get("cursor_theme").unwrap().text_at("theme_id"),
        Some("com.dcc-mcp.cursor")
    );
    assert_eq!(arguments.get("cursor_theme").unwrap().text_at("reduced_motion"), Some("auto"));
    assert_eq!(arguments.text_at("_public_session_label"), Some("label"));
    assert_eq!(session_arguments("s").text_at("session"), Some("s"));
    assert!(desktop_snapshot_arguments(None).get("session").is_none());
    assert_eq!(desktop_snapshot_arguments(Some("d")).text_at("session"), Some("d"));
    let (tool, rest) = desktop_tool_call(&json(r#"{"_tool":"click","x":1}"#)).unwrap();
    assert_eq!(tool, "click");
    assert!(rest.get("_tool").is_none());
    assert_eq!(rest.u64_at("x"), Some(1));
    assert!(desktop_tool_call(&json("[]")).is_none());
}

fn marker() -> MarkerRun {
    match begin_session_marker(true, "s") {
        Step::Continue(run) => run,
        other => panic!("unexpected step {other:?}"),
    }
}

#[test]
fn markers_are_shown_or_the_session_is_ended() {
    assert!(matches!(begin_session_marker(false, "s"), Step::Done(Ok(()))));
    let run = marker();
    assert_eq!(run.tool(), "set_agent_cursor_enabled");
    assert_eq!(run.arguments().bool_at("enabled"), Some(true));
    let run = match run.advance(Ok(())) {
        Step::Continue(run) => run,
        other => panic!("unexpected step {other:?}"),
    };
    assert_eq!(run.tool(), "set_agent_cursor_motion");
    assert_eq!(run.arguments().u64_at("glide_duration_ms"), Some(180));
    let run = match run.advance(Err(failed(ComputerUseErrorCode::InputFailed, "motion"))) {
        Step::Continue(run) => run,
        other => panic!("unexpected step {other:?}"),
    };
    assert!(matches!(run.phase, MarkerPhase::Cleanup { .. }));
    assert_eq!(run.tool(), "end_session");
    match run.advance(Ok(())) {
        Step::Done(Err(error)) => assert_eq!(error.message, "motion"),
        other => panic!("unexpected step {other:?}"),
    }
}

fn window(app_name: &str) -> WindowTarget {
    WindowTarget {
        pid: 42,
        window_id: 84,
        title: "Test window".into(),
        app_name: app_name.into(),
        bounds: [0, 0, 800, 600],
        is_on_screen: true,
        is_minimized: false,
        z_index: Some(0),
        is_foreground: true,
    }
}

#[test]
fn codex_app_shell_rejects_unscoped_url_typing() {
    let action = ComputerUseAction {
        text: Some("https://example.test/document".into()),
        delivery_mode: Some("foreground".into()),
        ..action("type")
    };
    let error = reject_ambiguous_embedded_browser_navigation(&action, &window("ChatGPT.exe"))
        .expect_err("unscoped URL input into the Codex shell must fail closed");
    assert_eq!(error.code, ComputerUseErrorCode::InvalidAction);
    assert!(error.message.contains("semantic browser address element"));
}

#[test]
fn explicit_or_non_codex_text_targets_remain_available() {
    let explicit = ComputerUseAction {
        element_index: Some(7),
        text: Some("https://example.test/document".into()),
        ..action("type")
    };
    assert!(reject_ambiguous_embedded_browser_navigation(&explicit, &window("ChatGPT.exe")).is_ok());
    let unscoped_browser = ComputerUseAction {
        text: Some("https://example.test/document".into()),
        ..action("type")
    };
    assert!(
        reject_ambiguous_embedded_browser_navigation(&unscoped_browser, &window("chrome.exe"))
            .is_ok()
    );
}

#[test]
fn keys_are_posted_only_through_their_backend() {
    let shortcut = ComputerUseAction {
        delivery_mode: Some("foreground".into()),
        input_backend_id: Some("post".into()),
        ..action("keyboard_shortcut")
    };
    assert!(posts_key(&shortcut));
    let keys = vec!["ctrl".to_owned(), "shift".to_owned(), "s".to_owned()];
    let posted = posted_key(&shortcut, "post", &keys).unwrap();
    assert_eq!(posted.key, "s");
    assert_eq!(posted.modifiers, ["ctrl", "shift"]);
    assert!(posted_key(&shortcut, "other", &keys).is_none());
    let press = ComputerUseAction {
        delivery_mode: Some("foreground".into()),
        input_backend_id: Some("post".into()),
        keys: vec!["a".into(), "b".into()],
        modifiers: vec!["alt".into()],
        ..action("keypress")
    };
    let posted = posted_key(&press, "post", &Vec::new()).unwrap();
    assert_eq!(posted.key, "b");
    assert_eq!(posted.modifiers, ["alt"]);
    assert!(!posts_key(&action("keypress")));
    assert_eq!(
        posted_key_text("a\"b", "post"),
        "Posted scoped Windows key \"a\\\"b\" via post; verify the target effect before continuing."
    );
}

#[test]
fn platform_failures_have_typed_codes() {
    let code = |failure: WindowMutationFailure| {
        map_windows_window_mutation_error("close", &failure, "shown").code
    };
    assert_eq!(
        code(WindowMutationFailure::PermissionDenied("input_gate_stage=1".into())),
        ComputerUseErrorCode::InteractiveDesktopUnavailable
    );
    assert_eq!(
        code(WindowMutationFailure::PermissionDenied("no".into())),
        ComputerUseErrorCode::InputFailed
    );
    assert_eq!(
        code(WindowMutationFailure::InvalidTarget("target_minimized: x".into())),
        ComputerUseErrorCode::TargetMinimized
    );
    assert_eq!(
        code(WindowMutationFailure::InvalidTarget("gone".into())),
        ComputerUseErrorCode::TargetUnavailable
    );
    assert_eq!(code(WindowMutationFailure::Other), ComputerUseErrorCode::InputFailed);
    let error = map_indicator_error("show", IndicatorFailure::InvalidTarget, "bad");
    assert_eq!((error.code, error.message.as_str()), (ComputerUseErrorCode::InvalidTarget, "show: bad"));
    assert_eq!(
        map_indicator_error("show", IndicatorFailure::Backend, "bad").code,
        ComputerUseErrorCode::BackendUnavailable
    );
    let error = map_held_key_error(HeldKeyFailure::Interrupted, "stop");
    assert_eq!(error.code, ComputerUseErrorCode::UserInterrupted);
    assert_eq!(error.message, "send Windows held key: stop");
    assert_eq!(
        map_held_key_error(HeldKeyFailure::InvalidKey, "k").code,
        ComputerUseErrorCode::InvalidAction
    );
    assert_eq!(
        map_held_key_error(HeldKeyFailure::Injection, "k").code,
        ComputerUseErrorCode::InputFailed
    );
}

fn capture(
    before: ComputerUseResult<Vec<WindowTarget>>,
    captured: ComputerUseResult<ToolReply>,
    after: ComputerUseResult<Vec<WindowTarget>>,
) -> ComputerUseResult<Vec<u8>> {
    let mut run = CaptureRun::new(42, 84);
    let mut replies = vec![
        CaptureReply::Listed(before),
        CaptureReply::Captured(captured),
        CaptureReply::Listed(after),
    ]
    .into_iter();
    loop {
        let step: CaptureStep = run.advance(replies.next().expect("a reply"));
        match step {
            Step::Continue(next) => run = next,
            Step::Done(result) => return result,
        }
    }
}

#[test]
fn captures_are_of_a_window_that_stayed() {
    let there = || Ok(vec![window("app")]);
    let picture = || Ok(reply(vec![image("cG5n")], None));
    assert_eq!(capture(there(), picture(), there()).unwrap(), b"png");
    let error = capture(Ok(Vec::new()), picture(), there()).unwrap_err();
    assert_eq!(error.message, "live observation target identity changed");
    let error = capture(there(), picture(), Ok(Vec::new())).unwrap_err();
    assert_eq!(error.message, "live observation target identity changed during capture");
    let error = capture(there(), Ok(reply(Vec::new(), None)), there()).unwrap_err();
    assert_eq!(error.message, "CUA live window state returned no screenshot");
    let arguments = CaptureRun::new(42, 84).arguments("s");
    assert_eq!(arguments.u64_at("window_id"), Some(84));
    assert_eq!(arguments.u64_at("pid"), Some(42));
    assert_eq!(arguments.u64_at("max_depth"), Some(1));
    assert!(matches!(CaptureRun::new(1, 2).phase, CapturePhase::Before));
}

fn theme(phase: ThemePhase, reply: ThemeReply) -> ThemeStep {
    advance_theme(phase, reply)
}

#[test]
fn themes_are_installed_once() {
    let step = theme(ThemePhase::Decode, ThemeReply::Decoded(Ok("com.dcc-mcp.cursor".into())));
    assert!(matches!(step, ThemeStep::Continue(ThemePhase::Root)));
    let step = theme(ThemePhase::Root, ThemeReply::Root(Ok(())));
    assert!(matches!(step, ThemeStep::Continue(ThemePhase::Create)));
    let created = ThemeReply::Created { place: "/t".into(), result: Ok(()) };
    assert!(matches!(theme(ThemePhase::Create, created), ThemeStep::Continue(ThemePhase::Read)));
    assert!(matches!(theme(ThemePhase::Read, ThemeReply::Installed(true)), ThemeStep::Done(Ok(()))));
    let step = theme(ThemePhase::Read, ThemeReply::Installed(false));
    assert!(matches!(step, ThemeStep::Continue(ThemePhase::Write)));
    let written = ThemeReply::Written { place: "/t/x".into(), result: Err("full".into()) };
    match theme(ThemePhase::Write, written) {
        ThemeStep::Done(Err(error)) => {
            assert_eq!(error.message, "install bundled cursor theme /t/x: full")
        }
        other => panic!("unexpected step {other:?}"),
    }
    match theme(ThemePhase::Decode, ThemeReply::Decoded(Ok("other".into()))) {
        ThemeStep::Done(Err(error)) => assert_eq!(
            error.message,
            "bundled cursor theme does not match the runtime contract"
        ),
        other => panic!("unexpected step {other:?}"),
    }
}

#[test]
fn embedded_drivers_carry_the_typed_tools() {
    let settings = embedded_settings(true);
    assert!(settings.cursor_enabled && settings.registers_dcc_tools);
    assert!(settings.host_owns_permission_ux && settings.host_bundle_id.is_none());
    let settings = worker_settings("com.host", false);
    assert_eq!(settings.cursor_theme_id, "com.dcc-mcp.cursor");
    assert_eq!(theme_file_name(), "com.dcc-mcp.cursor.cua-theme");
    assert!(!settings.registers_dcc_tools);
    assert_eq!(settings.host_bundle_id.as_deref(), Some("com.host"));
}

#[test]
fn inventories_are_json() {
    assert!(tool_inventory(r#"{"tools":[]}"#).unwrap().get("tools").is_some());
    let error = tool_inventory("{").unwrap_err();
    assert!(error.message.starts_with("CUA tool inventory returned invalid JSON: "));
    assert!(error.message.len() > "CUA tool inventory returned invalid JSON: ".len());
}
