use dcc_cua::contracts::{
    ComputerUseAction, ComputerUseMenuRequest, ComputerUseObservation, ComputerUseTargetScope,
    ComputerUseToolResult, ComputerUseToolStatus, Coordinate,
};
use dcc_cua::driver::{ActionCompletion, DispatchOutcome, ToolReply};
use dcc_cua::errors::{
    ComputerUseCompletionState, ComputerUseError, ComputerUseErrorCode, ComputerUseErrorDetails,
    ComputerUseErrorPhase,
};
use dcc_cua::json::{parse_json, Json};
use dcc_cua::live_observation::LiveObservationFence;
use dcc_cua::session::{
    ComputerUseSession, LiveLink, UpstreamSessionState, INPUT_CALL_TIMEOUT_MS,
};
use dcc_cua::session_calls::{
    CursorPhase, CursorRun, EffectKind, NativeFramePhase, NativeFrameReply,
    NativeFrameStep,
};
use dcc_cua::session_tools::{
    BrowserPhase, BrowserRun, ExtensionPhase, ToolAnswer, ToolRequest, ToolRunReply,
};
use dcc_cua::steps::Step;
use dcc_cua::tool_binding::{
    bind_browser_arguments, bind_download_arguments, browser_tool_requires_input,
    browser_tool_route, browser_tool_timeout, ensure_unscoped_tool, listed_windows,
    tool_schema_from_inventory, BrowserToolDisposition, BROWSER_TOOL_CALL_TIMEOUT_MS,
};
use dcc_cua::window_target::{
    ensure_target_available_for_bootstrap_activation, owned_foreground_takeover_relation,
    WindowTarget,
};

const NOW: u64 = 1_000;

fn json(text: &str) -> Json {
    parse_json(text).expect("test JSON")
}

fn failed(code: ComputerUseErrorCode, message: &str) -> ComputerUseError {
    ComputerUseError::new(code, message)
}

fn timed_out(message: &str) -> ComputerUseError {
    failed(ComputerUseErrorCode::InputFailed, message).with_details(ComputerUseErrorDetails {
        timed_out: Some(true),
        ..Default::default()
    })
}

fn details(error: &ComputerUseError) -> &ComputerUseErrorDetails {
    error.details.as_ref().expect("structured error details")
}

fn test_target() -> WindowTarget {
    WindowTarget {
        pid: 42,
        window_id: 77,
        title: "Test DCC".to_owned(),
        app_name: "test.exe".to_owned(),
        bounds: [0, 0, 800, 600],
        is_foreground: true,
        is_minimized: false,
        is_on_screen: true,
        z_index: None,
    }
}

fn observation(id: &str, session_id: &str) -> ComputerUseObservation {
    ComputerUseObservation {
        observation_id: id.to_owned(),
        window_handle: 77,
        process_id: 42,
        window_title: "Test DCC".to_owned(),
        width: 800,
        height: 600,
        source_rect: [0, 0, 800, 600],
        capture_backend: "test".to_owned(),
        capture_provenance: json(r#"{"accessibility_backend": "windows_uia"}"#),
        session_id: session_id.to_owned(),
    }
}

fn fresh_session(session_id: &str, native_windows: bool) -> ComputerUseSession {
    ComputerUseSession::new(
        ComputerUseTargetScope {
            process_id: Some(42),
            window_handle: Some(77),
            window_title: None,
        },
        "Test DCC".to_owned(),
        "agent".to_owned(),
        session_id.to_owned(),
        "label".to_owned(),
        native_windows,
    )
    .expect("test session")
}

fn link(stream_id: u64, sequence: u64) -> LiveLink {
    LiveLink {
        stream_id,
        latest: Some(LiveObservationFence::new(stream_id, sequence)),
        max_dimension: 1280,
        fps: 30,
    }
}

fn counting_session() -> ComputerUseSession {
    let mut session = fresh_session("refresh-boundary-session", false);
    session.active = true;
    session.upstream = UpstreamSessionState::Active;
    session.target = Some(test_target());
    session.observation =
        Some(observation("observation-before-refresh", "refresh-boundary-session"));
    session.live = Some(link(7, 12));
    session.last_refresh_ms = None;
    session
}

fn recording(mut session: ComputerUseSession) -> ComputerUseSession {
    session.recording_active = true;
    session.recording_expected_video = true;
    session
}

fn blank_action(kind: &str) -> ComputerUseAction {
    ComputerUseAction {
        action: kind.to_owned(),
        observation_id: None,
        element_index: None,
        element_token: None,
        delivery_mode: None,
        input_backend_id: None,
        x: None,
        y: None,
        button: None,
        scroll_x: None,
        scroll_y: None,
        scroll_by: None,
        path: Vec::new(),
        text: None,
        delay_ms: None,
        duration_ms: None,
        steps: None,
        type_chars_only: false,
        keys: Vec::new(),
        modifiers: Vec::new(),
    }
}

fn at(value: f64) -> Option<Coordinate> {
    Some(Coordinate { bits: value.to_bits() })
}

fn click(observation_id: &str) -> ComputerUseAction {
    ComputerUseAction {
        observation_id: Some(observation_id.to_owned()),
        x: at(10.0),
        y: at(10.0),
        ..blank_action("click")
    }
}

fn tool_result(status: ComputerUseToolStatus, value: &str, text: &str) -> ComputerUseToolResult {
    ComputerUseToolResult {
        status,
        value: json(value),
        text: text.to_owned(),
        images: Vec::new(),
        degraded: false,
    }
}

fn answer(raw: &str) -> ToolAnswer {
    ToolAnswer {
        reply: ToolReply {
            is_error: false,
            error_code: None,
            raw_json: raw.to_owned(),
            text: "ok".to_owned(),
            structured_json: Some(r#"{"active": true}"#.to_owned()),
            images: Vec::new(),
            degraded: false,
            action_effect: None,
        },
        accepted: Ok(()),
        result: Ok(tool_result(ComputerUseToolStatus::Succeeded, "{}", "ok")),
    }
}

fn stopped<R, T: std::fmt::Debug>(step: Step<R, T>) -> ComputerUseError {
    match step {
        Step::Done(result) => result.expect_err("the run fails"),
        Step::Continue(_) => panic!("the run goes on"),
    }
}

fn next<R, T: std::fmt::Debug>(step: Step<R, T>) -> R {
    match step {
        Step::Continue(run) => run,
        Step::Done(result) => panic!("the run ended: {result:?}"),
    }
}

/// An observation that was spent cannot carry an action.
fn assert_action_is_stale(session: &ComputerUseSession, observation_id: &str) {
    let error = session.begin_action(click(observation_id), Ok(())).unwrap_err();
    assert_eq!(error.code, ComputerUseErrorCode::StaleObservation);
}

fn browser_run(
    route: BrowserToolDisposition,
    name: &str,
    session: &ComputerUseSession,
) -> BrowserRun {
    BrowserRun {
        phase: BrowserPhase::Dispatch,
        name: name.to_owned(),
        route,
        arguments: json(&format!("{{\"session\": \"{}\"}}", session.session_id)),
        publishes: false,
        answer: None,
    }
}

#[test]
fn browser_route_table_is_fail_closed() {
    for (name, arguments, expected) in [
        ("get_browser_state", "{}", BrowserToolDisposition::ReadOnlyEvidence),
        ("browser_dialog", r#"{"action": "inspect"}"#, BrowserToolDisposition::ReadOnlyEvidence),
        ("browser_prepare", "{}", BrowserToolDisposition::PotentialMutation),
        ("browser_navigate", "{}", BrowserToolDisposition::PotentialMutation),
        ("browser_click", "{}", BrowserToolDisposition::PotentialMutation),
        ("browser_type", "{}", BrowserToolDisposition::PotentialMutation),
        ("browser_pointer", "{}", BrowserToolDisposition::PotentialMutation),
        ("browser_set_input_files", "{}", BrowserToolDisposition::PotentialMutation),
        ("browser_dialog", r#"{"action": "accept"}"#, BrowserToolDisposition::PotentialMutation),
        ("browser_dialog", r#"{"action": "dismiss"}"#, BrowserToolDisposition::PotentialMutation),
    ] {
        let arguments = json(arguments);
        assert_eq!(browser_tool_route(name, &arguments), Some(expected));
        assert_eq!(
            browser_tool_requires_input(name, &arguments),
            expected == BrowserToolDisposition::PotentialMutation
        );
    }
}

#[test]
fn unknown_browser_route_is_rejected() {
    for (name, arguments) in [
        ("browser_unknown", "{}"),
        ("browser_dialog", "{}"),
        ("browser_dialog", r#"{"action": "unexpected"}"#),
    ] {
        let arguments = json(arguments);
        assert_eq!(browser_tool_route(name, &arguments), None);
        assert!(!browser_tool_requires_input(name, &arguments));
    }
}

#[test]
fn unknown_browser_dialog_action_is_rejected_before_dispatch() {
    let mut session = counting_session();
    let error = session
        .begin_browser_tool(
            "browser_dialog".to_owned(),
            json(r#"{"action": "unexpected"}"#),
            Ok(()),
            NOW,
        )
        .unwrap_err();
    assert_eq!(error.code, ComputerUseErrorCode::InvalidAction);
    assert!(session.observation.is_some());
}

fn assert_due_browser_mutation_is_fenced(name: &str, arguments: &str) {
    let mut session = counting_session();
    let error = session
        .begin_browser_tool(name.to_owned(), json(arguments), Ok(()), NOW)
        .unwrap_err();
    assert_eq!(error.code, ComputerUseErrorCode::SessionRefreshRequired);
    assert_eq!(details(&error).action_attempted, Some(false));
    assert!(session.observation.is_none());
}

#[test]
fn due_refresh_fences_browser_prepare_before_dispatch() {
    assert_due_browser_mutation_is_fenced("browser_prepare", "{}");
}

#[test]
fn due_refresh_fences_browser_dialog_accept_before_dispatch() {
    assert_due_browser_mutation_is_fenced(
        "browser_dialog",
        r#"{"action": "accept", "dialog_id": "dialog-1"}"#,
    );
}

fn assert_browser_evidence_refreshes_before_dispatch(name: &str, arguments: &str) {
    let mut session = counting_session();
    let mut names: Vec<String> = Vec::new();
    let mut run = session
        .begin_browser_tool(name.to_owned(), json(arguments), Ok(()), NOW)
        .expect("known browser evidence route");
    assert_eq!(run.route, BrowserToolDisposition::ReadOnlyEvidence);
    assert_eq!(run.phase, BrowserPhase::RefreshGate);
    let value = loop {
        let reply = match run.request() {
            ToolRequest::CheckInput | ToolRequest::CheckObservation => ToolRunReply::Gate(Ok(())),
            ToolRequest::RefreshUpstream => {
                names.push("start_session".to_owned());
                ToolRunReply::Refreshed(Ok(()))
            }
            ToolRequest::ResolveTarget => ToolRunReply::Target(Ok(test_target())),
            ToolRequest::CallTool => {
                names.push(run.name.clone());
                assert_eq!(run.arguments.text_at("session"), Some("refresh-boundary-session"));
                ToolRunReply::Dispatched(DispatchOutcome::Completed(answer(
                    r#"{"isError": false, "content": [{"text": "ok"}]}"#,
                )))
            }
            other => panic!("unexpected request {other:?}"),
        };
        match run.advance(&mut session, NOW, reply) {
            Step::Continue(going) => run = going,
            Step::Done(result) => break result.expect("fresh browser evidence dispatch"),
        }
    };
    assert_eq!(value.bool_at("isError"), Some(false));
    let content = value.get("content").unwrap().as_array().unwrap();
    assert_eq!(content[0].text_at("text"), Some("ok"));
    assert_eq!(session.last_refresh_ms, Some(NOW));
    assert!(session.observation.is_none());
    assert!(session.active);
    assert_eq!(names, vec!["start_session".to_owned(), name.to_owned()]);
}

#[test]
fn due_refresh_precedes_browser_snapshot_evidence() {
    assert_browser_evidence_refreshes_before_dispatch("get_browser_state", "{}");
}

#[test]
fn due_refresh_precedes_browser_dialog_inspection_evidence() {
    assert_browser_evidence_refreshes_before_dispatch(
        "browser_dialog",
        r#"{"action": "inspect"}"#,
    );
}

fn response_lost() -> DispatchOutcome<ToolAnswer> {
    DispatchOutcome::Interrupted {
        completion: ActionCompletion::Unknown,
        reason: "response lost".to_owned(),
    }
}

#[test]
fn unknown_browser_mutation_dispatch_invalidates_the_exact_session() {
    let mut session = counting_session();
    let run = browser_run(BrowserToolDisposition::PotentialMutation, "browser_click", &session);
    let error = session.dispatch_browser_tool(&run, response_lost()).unwrap_err();
    assert_eq!(error.code, ComputerUseErrorCode::CompletionUnknown);
    assert_eq!(details(&error).action_attempted, Some(true));
    assert!(!session.active);
    assert!(session.target.is_none());
}

#[test]
fn unknown_browser_evidence_dispatch_preserves_the_exact_session_and_recording() {
    let mut session = recording(counting_session());
    let run = browser_run(BrowserToolDisposition::ReadOnlyEvidence, "get_browser_state", &session);
    let error = session.dispatch_browser_tool(&run, response_lost()).unwrap_err();
    assert_eq!(error.code, ComputerUseErrorCode::BackendUnavailable);
    let details = details(&error);
    assert_eq!(details.phase, Some(ComputerUseErrorPhase::EvidenceDispatch));
    assert_eq!(details.action_attempted, Some(false));
    assert!(session.active);
    assert!(session.target.is_some());
    assert!(session.observation.is_some());
    assert!(session.live.is_some());
    assert!(session.recording_active);
    assert!(session.recording_expected_video);
}

#[test]
fn known_complete_browser_mutation_invalidates_native_evidence_before_cross_domain_use() {
    let mut session = counting_session();
    session.last_refresh_ms = Some(NOW);
    let run = browser_run(BrowserToolDisposition::PotentialMutation, "browser_click", &session);
    session
        .dispatch_browser_tool(&run, DispatchOutcome::Completed(answer("{}")))
        .expect("known-complete browser mutation");
    assert!(session.active);
    assert!(session.observation.is_none());
    assert_action_is_stale(&session, "observation-before-refresh");
}

#[test]
fn known_complete_browser_tool_error_still_invalidates_native_evidence() {
    let mut session = counting_session();
    session.last_refresh_ms = Some(NOW);
    let run = browser_run(BrowserToolDisposition::PotentialMutation, "browser_click", &session);
    let mut refused = answer("{}");
    refused.reply.is_error = true;
    refused.accepted = Err(failed(ComputerUseErrorCode::InputFailed, "the tool failed"));
    let error =
        session.dispatch_browser_tool(&run, DispatchOutcome::Completed(refused)).unwrap_err();
    assert_eq!(error.code, ComputerUseErrorCode::InputFailed);
    assert!(session.active);
    assert!(session.observation.is_none());
}

#[test]
fn a_failed_navigation_is_an_answer() {
    let mut session = counting_session();
    let run = browser_run(BrowserToolDisposition::PotentialMutation, "browser_navigate", &session);
    let mut refused = answer("{}");
    refused.reply.is_error = true;
    refused.accepted = Err(failed(ComputerUseErrorCode::InputFailed, "no such page"));
    let reply = session
        .dispatch_browser_tool(&run, DispatchOutcome::Completed(refused))
        .expect("a failed navigation is reported, not raised");
    assert!(reply.is_error);
}

#[test]
fn remote_driver_tool_failure_uses_known_attempted_mutation_semantics() {
    let mut session = recording(counting_session());
    session.last_refresh_ms = Some(NOW);
    let run = browser_run(BrowserToolDisposition::PotentialMutation, "browser_click", &session);
    let refused = DispatchOutcome::ToolFailed(failed(
        ComputerUseErrorCode::BrowserRefused,
        "the browser refused",
    ));
    let error = session.dispatch_browser_tool(&run, refused).unwrap_err();
    assert_eq!(error.code, ComputerUseErrorCode::BrowserRefused);
    let details = details(&error);
    assert_eq!(details.action_attempted, Some(true));
    assert_eq!(details.completion, Some(ComputerUseCompletionState::Known));
    assert!(session.active);
    assert!(session.target.is_some());
    assert!(session.observation.is_none());
    assert!(session.live.is_some());
    assert!(session.recording_active);
    assert!(session.recording_expected_video);
}

#[test]
fn due_refresh_fences_native_extension_before_schema_or_dispatch() {
    let mut session = counting_session();
    let error = session
        .begin_call_tool("debug_window_info".to_owned(), json("{}"), Ok(()), true, NOW)
        .unwrap_err();
    assert_eq!(error.code, ComputerUseErrorCode::SessionRefreshRequired);
    assert!(session.observation.is_none());
}

#[test]
fn an_extension_tool_is_bound_to_the_exact_window() {
    let mut session = counting_session();
    session.last_refresh_ms = Some(NOW);
    let mut run = session
        .begin_call_tool("debug_window_info".to_owned(), json("{}"), Ok(()), true, NOW)
        .unwrap();
    assert_eq!(run.phase, ExtensionPhase::Input);
    let result = loop {
        let reply = match run.request() {
            ToolRequest::CheckInput | ToolRequest::CheckObservation => ToolRunReply::Gate(Ok(())),
            ToolRequest::ResolveTarget => ToolRunReply::Target(Ok(test_target())),
            ToolRequest::ReadSchema => ToolRunReply::Schema(Ok(json(
                r#"{"properties": {"pid": {}, "window_id": {}, "session": {}}}"#,
            ))),
            ToolRequest::CallTool => {
                assert_eq!(run.arguments.u64_at("pid"), Some(42));
                assert_eq!(run.arguments.u64_at("window_id"), Some(77));
                ToolRunReply::Dispatched(DispatchOutcome::Completed(answer("{}")))
            }
            other => panic!("unexpected request {other:?}"),
        };
        match run.advance(&mut session, reply) {
            Step::Continue(going) => run = going,
            Step::Done(result) => break result.expect("extension tool"),
        }
    };
    assert_eq!(result.text, "ok");
    assert!(session.observation.is_none());
}

#[test]
fn due_refresh_fences_trusted_browser_download_before_dispatch() {
    let mut session = counting_session();
    let arguments = json(
        r#"{"target_id": "target-1", "tab_id": "tab-1", "ref": "ref-1",
            "destination_root": "C:\\bounded"}"#,
    );
    let error = session.begin_browser_download(arguments, Ok(()), NOW).unwrap_err();
    assert_eq!(error.code, ComputerUseErrorCode::SessionRefreshRequired);
    assert!(session.observation.is_none());
}

#[test]
fn trusted_browser_download_rejects_unbounded_arguments_before_any_dispatch() {
    let mut session = counting_session();
    let refused = failed(ComputerUseErrorCode::InvalidAction, "tool arguments exceed the limit");
    let error = session
        .begin_browser_download(json(r#"{"destination_root": "x"}"#), Err(refused), NOW)
        .unwrap_err();
    assert_eq!(error.code, ComputerUseErrorCode::InvalidAction);
    assert!(error.message.contains("arguments exceed"));
    assert!(session.observation.is_some());
}

#[test]
fn only_the_host_approves_a_download() {
    let bound = bind_download_arguments(
        &json(r#"{"ref": "r", "_cua_browser_download_mcp_host_approved": false}"#),
        "s",
    )
    .unwrap();
    assert_eq!(bound.text_at("session"), Some("s"));
    assert_eq!(bound.bool_at("_cua_browser_download_mcp_host_approved"), Some(true));
    let error = bind_download_arguments(&Json::Null, "s").unwrap_err();
    assert_eq!(error.code, ComputerUseErrorCode::InvalidAction);
}

/// A move of the cursor that is about to be dispatched.
fn cursor_move() -> CursorRun {
    CursorRun {
        phase: CursorPhase::Dispatch,
        name: "move_cursor".to_owned(),
        arguments: json(r#"{"x": 10.0, "y": 20.0, "scope": "desktop"}"#),
        enabled: None,
        target: Some(test_target()),
        answer: None,
    }
}

#[test]
fn known_complete_cursor_move_consumes_evidence_before_cross_domain_use() {
    let mut session = recording(counting_session());
    session.last_refresh_ms = Some(NOW);
    let run = next(cursor_move().advance(
        &mut session,
        NOW,
        ToolRunReply::Dispatched(DispatchOutcome::Completed(answer("{}"))),
    ));
    assert_eq!(run.phase, CursorPhase::TargetAfter);
    assert!(session.active);
    assert!(session.target.is_some());
    assert!(session.observation.is_none());
    assert!(session.live.is_some());
    assert!(session.recording_active);
    assert!(session.recording_expected_video);
    assert_action_is_stale(&session, "observation-before-refresh");
}

#[test]
fn known_attempted_cursor_move_failure_consumes_evidence_but_preserves_session() {
    let mut session = recording(counting_session());
    session.last_refresh_ms = Some(NOW);
    let refused = DispatchOutcome::ToolFailed(failed(
        ComputerUseErrorCode::BackendUnavailable,
        "the tool failed",
    ));
    let error =
        stopped(cursor_move().advance(&mut session, NOW, ToolRunReply::Dispatched(refused)));
    assert_eq!(error.code, ComputerUseErrorCode::BackendUnavailable);
    let details = details(&error);
    assert_eq!(details.action_attempted, Some(true));
    assert_eq!(details.completion, Some(ComputerUseCompletionState::Known));
    assert!(session.active);
    assert!(session.target.is_some());
    assert!(session.observation.is_none());
    assert!(session.live.is_some());
    assert!(session.recording_active);
    assert!(session.recording_expected_video);
}

#[test]
fn unknown_cursor_move_completion_invalidates_the_exact_session() {
    let mut session = recording(counting_session());
    let error = stopped(cursor_move().advance(
        &mut session,
        NOW,
        ToolRunReply::Dispatched(response_lost()),
    ));
    assert_eq!(error.code, ComputerUseErrorCode::CompletionUnknown);
    assert_eq!(details(&error).action_attempted, Some(true));
    assert!(!session.active);
    assert!(session.target.is_none());
    assert!(session.observation.is_none());
    assert!(session.live.is_none());
    assert!(!session.recording_active);
}

#[test]
fn not_started_cursor_move_preserves_session_and_evidence() {
    let mut session = recording(counting_session());
    let not_started = DispatchOutcome::Interrupted {
        completion: ActionCompletion::NotStarted,
        reason: "cursor move rejected before dispatch".to_owned(),
    };
    let error =
        stopped(cursor_move().advance(&mut session, NOW, ToolRunReply::Dispatched(not_started)));
    assert_eq!(error.code, ComputerUseErrorCode::InputFailed);
    let details = details(&error);
    assert_eq!(details.phase, Some(ComputerUseErrorPhase::PreDispatch));
    assert_eq!(details.action_attempted, Some(false));
    assert!(session.active);
    assert!(session.target.is_some());
    assert!(session.observation.is_some());
    assert!(session.live.is_some());
    assert!(session.recording_active);
    assert!(session.recording_expected_video);
}

#[test]
fn cursor_move_preflight_rejection_preserves_session_and_evidence_without_dispatch() {
    let session = recording(counting_session());
    let error = session
        .begin_cursor_tool(
            "move_cursor".to_owned(),
            json(r#"{"x": 10.0, "scope": "window"}"#),
            true,
            Ok(()),
            Err(failed(
                ComputerUseErrorCode::InvalidAction,
                "move_cursor requires numeric x and y",
            )),
        )
        .unwrap_err();
    assert_eq!(error.code, ComputerUseErrorCode::InvalidAction);
    assert!(error.message.contains("requires numeric x and y"));
    assert!(session.active);
    assert!(session.target.is_some());
    assert!(session.observation.is_some());
    assert!(session.live.is_some());
    assert!(session.recording_active);
    assert!(session.recording_expected_video);
}

#[test]
fn the_cursor_session_is_host_owned() {
    let session = counting_session();
    let error = session
        .begin_cursor_tool(
            "get_agent_cursor_state".to_owned(),
            json(r#"{"session": "another"}"#),
            true,
            Ok(()),
            Ok(()),
        )
        .unwrap_err();
    assert_eq!(error.message, "cursor tool session is host-owned");
}

#[test]
fn hiding_the_cursor_hides_the_marker() {
    let mut session = counting_session();
    session.last_refresh_ms = Some(NOW);
    session.marker.visible = true;
    let mut run = session
        .begin_cursor_tool(
            "set_agent_cursor_enabled".to_owned(),
            json(r#"{"enabled": false}"#),
            true,
            Ok(()),
            Ok(()),
        )
        .unwrap();
    loop {
        let reply = match run.request() {
            ToolRequest::ResolveTarget => ToolRunReply::Target(Ok(test_target())),
            ToolRequest::CallTool => ToolRunReply::Called(Ok(answer("{}"))),
            other => panic!("unexpected request {other:?}"),
        };
        match run.advance(&mut session, NOW, reply) {
            Step::Continue(going) => run = going,
            Step::Done(result) => {
                result.expect("cursor hidden");
                break;
            }
        }
    }
    assert!(!session.marker.visible);
}

#[test]
fn a_menu_path_ends_with_its_validated_effect() {
    let mut session = counting_session();
    session.last_refresh_ms = Some(NOW);
    let request =
        ComputerUseMenuRequest { path: vec!["File".to_owned(), "Save".to_owned()] };
    let mut run = session.begin_invoke_menu(&request, NOW).unwrap();
    assert_eq!(run.kind, EffectKind::Menu);
    assert_eq!(run.kind.tool(), "invoke_menu");
    let report = loop {
        let reply = match run.request() {
            ToolRequest::CheckInput => ToolRunReply::Gate(Ok(())),
            ToolRequest::ResolveTarget => ToolRunReply::Target(Ok(test_target())),
            ToolRequest::CallTool => {
                let path = run.arguments.get("path").unwrap().as_array().unwrap();
                assert_eq!(path.len(), 2);
                let mut done = answer("{}");
                done.reply.action_effect = Some("unverifiable".to_owned());
                ToolRunReply::Called(Ok(done))
            }
            other => panic!("unexpected request {other:?}"),
        };
        match run.advance(&mut session, reply) {
            Step::Continue(going) => run = going,
            Step::Done(result) => break result.expect("menu invoked"),
        }
    };
    assert!(report.success);
    assert_eq!(report.effect, "unverifiable");
    assert!(session.observation.is_none());
}

#[test]
fn an_empty_menu_path_is_refused() {
    let mut session = counting_session();
    let error =
        session.begin_invoke_menu(&ComputerUseMenuRequest { path: Vec::new() }, NOW).unwrap_err();
    assert_eq!(error.code, ComputerUseErrorCode::InvalidAction);
}

#[test]
fn a_native_frame_is_reported_with_the_window_that_has_it() {
    let mut session = counting_session();
    let refused = session
        .begin_native_frame(Err(failed(ComputerUseErrorCode::InvalidAction, "no such frame")))
        .unwrap_err();
    assert_eq!(refused.message, "no such frame");
    session.active = false;
    let error = session.begin_native_frame(Ok(())).unwrap_err();
    assert_eq!(error.code, ComputerUseErrorCode::BackendUnavailable);
    assert_eq!(error.message, "Computer Use session is not active");
    session.active = true;
    let run = session.begin_native_frame(Ok(())).unwrap();
    assert_eq!(run.phase, NativeFramePhase::Gate);
    let run = next(run.advance(&mut session, NativeFrameReply::Gate(Ok(()))));
    let run = next(run.advance(&mut session, NativeFrameReply::Target(Ok(test_target()))));
    assert!(session.observation.is_none());
    let run = next(run.advance(&mut session, NativeFrameReply::Applied(Ok([5, 6, 700, 500]))));
    let mut moved = test_target();
    moved.bounds = [5, 6, 700, 500];
    match run.advance(&mut session, NativeFrameReply::Target(Ok(moved))) {
        NativeFrameStep::Done(Ok(report)) => {
            assert_eq!(report.applied, [5, 6, 700, 500]);
            assert_eq!(report.target.bounds, [5, 6, 700, 500]);
        }
        other => panic!("unexpected step {other:?}"),
    }
}

#[test]
fn bootstrap_activation_allows_only_the_explicit_minimized_recovery_path() {
    for (is_minimized, is_on_screen, accepted) in
        [(true, false, true), (false, true, true), (false, false, false)]
    {
        let target =
            WindowTarget { is_foreground: false, is_minimized, is_on_screen, ..test_target() };
        let result = ensure_target_available_for_bootstrap_activation(&target);
        assert_eq!(result.is_ok(), accepted);
        if let Err(error) = result {
            assert_eq!(error.code, ComputerUseErrorCode::TargetUnavailable);
        }
    }
}

#[test]
fn browser_binding_timeout_covers_the_bounded_existing_profile_reconnect() {
    for (name, expected) in [
        ("browser_prepare", BROWSER_TOOL_CALL_TIMEOUT_MS),
        ("get_browser_state", BROWSER_TOOL_CALL_TIMEOUT_MS),
        ("browser_click", BROWSER_TOOL_CALL_TIMEOUT_MS),
        ("browser_type", BROWSER_TOOL_CALL_TIMEOUT_MS),
        ("browser_snapshot", BROWSER_TOOL_CALL_TIMEOUT_MS),
        ("list_windows", INPUT_CALL_TIMEOUT_MS),
    ] {
        assert_eq!(browser_tool_timeout(name), expected);
        assert!(BROWSER_TOOL_CALL_TIMEOUT_MS > 32_000);
    }
}

#[test]
fn owned_same_process_foreground_requires_explicit_modal_rebind() {
    assert!(owned_foreground_takeover_relation(100, 42, 200, 42, &[150, 100]));
    assert!(!owned_foreground_takeover_relation(100, 42, 200, 7, &[100]));
    assert!(!owned_foreground_takeover_relation(100, 42, 200, 42, &[300]));
    assert!(!owned_foreground_takeover_relation(100, 42, 100, 42, &[100]));
}

#[test]
fn browser_evidence_is_bound_to_the_window_unless_it_names_a_target() {
    let bound =
        bind_browser_arguments("get_browser_state", &json("{}"), &test_target(), "s").unwrap();
    assert_eq!(bound.text_at("session"), Some("s"));
    assert_eq!(bound.u64_at("pid"), Some(42));
    assert_eq!(bound.u64_at("window_id"), Some(77));
}

#[test]
fn a_tool_schema_is_found_by_name() {
    let inventory = json(
        r#"{"tools": [{"name": "a", "inputSchema": {"n": 1}},
                      {"name": "b", "inputSchema": {"n": 2}}]}"#,
    );
    let schema = tool_schema_from_inventory(&inventory, "b");
    match schema {
        Ok(schema) => assert_eq!(schema.u64_at("n"), Some(2)),
        Err(error) => panic!("{error:?}"),
    }
    assert!(tool_schema_from_inventory(&inventory, "c").is_err());
}

#[test]
fn a_window_bound_tool_is_not_unscoped() {
    assert!(ensure_unscoped_tool("x", &json(r#"{"properties": {"text": {}}}"#)).is_ok());
    let error =
        ensure_unscoped_tool("x", &json(r#"{"properties": {"window_id": {}}}"#)).unwrap_err();
    assert_eq!(error.code, ComputerUseErrorCode::InvalidTarget);
    assert_eq!(error.message, "CUA tool \"x\" requires an exact window session");
}

#[test]
fn listed_windows_come_out_of_the_structured_reply() {
    let windows = listed_windows(&json(
        r#"{"structuredContent": {"windows": [{"pid": 1}, {"pid": 2}]}}"#,
    ));
    match windows {
        Ok(rows) => assert_eq!(rows.len(), 2),
        Err(error) => panic!("{error:?}"),
    }
    assert!(listed_windows(&json("{}")).is_err());
}
