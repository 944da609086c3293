use dcc_cua::contracts::{
    ComputerUseAction, ComputerUseObservation, ComputerUseTargetScope, ComputerUseToolResult,
    ComputerUseToolStatus, Coordinate,
};
use dcc_cua::driver::{ActionCompletion, DispatchOutcome, ToolReply};
use dcc_cua::errors::{
    ComputerUseCompletionState, ComputerUseError, ComputerUseErrorCode, ComputerUseErrorDetails,
    ComputerUseErrorPhase, ComputerUseInputState, ComputerUseResult,
};
use dcc_cua::json::{parse_json, Json};
use dcc_cua::live_observation::{
    observation_sequence_fence, FrameWait, LiveObservationFence, LiveObservationFrame,
    LiveObservationStatus,
};
use dcc_cua::session::{
    BannerActivity, BannerState, ComputerUseSession, LiveLink, UpstreamSessionState,
    SESSION_REFRESH_INTERVAL_MS,
};
use dcc_cua::session_action::{
    explicit_input_backend_rejection, held_coordinate_click_as_drag, input_backend_rejection_result,
    ActionFit, ActionPhase, ActionReply, ActionRequest, ActionRun, ActionStep,
};
use dcc_cua::session_calls::{BoundCallKind, BoundCallPhase};
use dcc_cua::session_evidence::{EvidenceReply, EvidenceRequest, SnapshotPhase, ZoomPhase};
use dcc_cua::session_lifecycle::{visual_only_start_degradation, StopReply, StopStep};
use dcc_cua::session_tools::{ToolAnswer, ToolRequest, ToolRunReply};
use dcc_cua::steps::Step;
use dcc_cua::window_capture::SnapshotBounds;
use dcc_cua::window_target::WindowTarget;

const NOW: u64 = 1_000;

fn json(text: &str) -> Json {
    parse_json(text).expect("test JSON")
}

fn failed(code: ComputerUseErrorCode, message: &str) -> ComputerUseError {
    ComputerUseError::new(code, message)
}

fn timed_out(message: &str) -> ComputerUseError {
    failed(ComputerUseErrorCode::InputFailed, message).with_details(ComputerUseErrorDetails {
        timed_out: Some(true),
        ..Default::default()
    })
}

fn details(error: &ComputerUseError) -> &ComputerUseErrorDetails {
    error.details.as_ref().expect("structured error details")
}

fn test_target() -> WindowTarget {
    WindowTarget {
        pid: 42,
        window_id: 77,
        title: "Test DCC".to_owned(),
        app_name: "test.exe".to_owned(),
        bounds: [0, 0, 800, 600],
        is_foreground: true,
        is_minimized: false,
        is_on_screen: true,
        z_index: None,
    }
}

fn observation(id: &str, session_id: &str) -> ComputerUseObservation {
    ComputerUseObservation {
        observation_id: id.to_owned(),
        window_handle: 77,
        process_id: 42,
        window_title: "Test DCC".to_owned(),
        width: 800,
        height: 600,
        source_rect: [0, 0, 800, 600],
        capture_backend: "test".to_owned(),
        capture_provenance: json(r#"{"accessibility_backend": "windows_uia"}"#),
        session_id: session_id.to_owned(),
    }
}

fn fresh_session(session_id: &str, native_windows: bool) -> ComputerUseSession {
    ComputerUseSession::new(
        ComputerUseTargetScope {
            process_id: Some(42),
            window_handle: Some(77),
            window_title: None,
        },
        "Test DCC".to_owned(),
        "agent".to_owned(),
        session_id.to_owned(),
        "label".to_owned(),
        native_windows,
    )
    .expect("test session")
}

fn link(stream_id: u64, sequence: u64) -> LiveLink {
    LiveLink {
        stream_id,
        latest: Some(LiveObservationFence::new(stream_id, sequence)),
        max_dimension: 1280,
        fps: 30,
    }
}

fn counting_session() -> ComputerUseSession {
    let mut session = fresh_session("refresh-boundary-session", false);
    session.active = true;
    session.upstream = UpstreamSessionState::Active;
    session.target = Some(test_target());
    session.observation =
        Some(observation("observation-before-refresh", "refresh-boundary-session"));
    session.live = Some(link(7, 12));
    session.last_refresh_ms = None;
    session
}

fn recording(mut session: ComputerUseSession) -> ComputerUseSession {
    session.recording_active = true;
    session.recording_expected_video = true;
    session
}

fn blank_action(kind: &str) -> ComputerUseAction {
    ComputerUseAction {
        action: kind.to_owned(),
        observation_id: None,
        element_index: None,
        element_token: None,
        delivery_mode: None,
        input_backend_id: None,
        x: None,
        y: None,
        button: None,
        scroll_x: None,
        scroll_y: None,
        scroll_by: None,
        path: Vec::new(),
        text: None,
        delay_ms: None,
        duration_ms: None,
        steps: None,
        type_chars_only: false,
        keys: Vec::new(),
        modifiers: Vec::new(),
    }
}

fn at(value: f64) -> Option<Coordinate> {
    Some(Coordinate { bits: value.to_bits() })
}

fn click(observation_id: &str) -> ComputerUseAction {
    ComputerUseAction {
        observation_id: Some(observation_id.to_owned()),
        x: at(10.0),
        y: at(10.0),
        ..blank_action("click")
    }
}

fn tool_result(status: ComputerUseToolStatus, value: &str, text: &str) -> ComputerUseToolResult {
    ComputerUseToolResult {
        status,
        value: json(value),
        text: text.to_owned(),
        images: Vec::new(),
        degraded: false,
    }
}

fn answer(raw: &str) -> ToolAnswer {
    ToolAnswer {
        reply: ToolReply {
            is_error: false,
            error_code: None,
            raw_json: raw.to_owned(),
            text: "ok".to_owned(),
            structured_json: Some(r#"{"active": true}"#.to_owned()),
            images: Vec::new(),
            degraded: false,
            action_effect: None,
        },
        accepted: Ok(()),
        result: Ok(tool_result(ComputerUseToolStatus::Succeeded, "{}", "ok")),
    }
}

/// Publishes a frame in a feed and reads the one after the fence.
fn next_frame(after_sequence: Option<u64>, sequence: u64, mode: &'static str) -> Option<u64> {
    let mut status = LiveObservationStatus::default();
    status.publish_frame(LiveObservationFrame::new(sequence, vec![0; 4], 1, 1, 0, 0), 0, mode);
    match status.wait_for_latest_frame(after_sequence) {
        FrameWait::Ready(frame) => Some(frame.sequence()),
        _ => None,
    }
}

fn stopped<R, T: std::fmt::Debug>(step: Step<R, T>) -> ComputerUseError {
    match step {
        Step::Done(result) => result.expect_err("the run fails"),
        Step::Continue(_) => panic!("the run goes on"),
    }
}

fn next<R, T: std::fmt::Debug>(step: Step<R, T>) -> R {
    match step {
        Step::Continue(run) => run,
        Step::Done(result) => panic!("the run ended: {result:?}"),
    }
}

/// An observation that was spent cannot carry an action.
fn assert_action_is_stale(session: &ComputerUseSession, observation_id: &str) {
    let error = session.begin_action(click(observation_id), Ok(())).unwrap_err();
    assert_eq!(error.code, ComputerUseErrorCode::StaleObservation);
}

#[test]
fn failed_window_restore_still_invalidates_action_cache_before_mutation() {
    let mut session = counting_session();
    session.begin_gated_window_mutation(Ok(())).unwrap();
    assert!(session.observation.is_none());
}

#[test]
fn restore_input_gate_failure_never_reaches_mutation_or_cache_invalidation() {
    let mut session = counting_session();
    let error = session
        .begin_gated_window_mutation(Err(failed(
            ComputerUseErrorCode::InteractiveDesktopUnavailable,
            "workstation locked",
        )))
        .unwrap_err();
    assert_eq!(error.code, ComputerUseErrorCode::InteractiveDesktopUnavailable);
    assert!(session.observation.is_some());
}

#[test]
fn suspended_input_prevents_the_upstream_session_refresh_from_starting() {
    let mut session = counting_session();
    let error = session
        .gate_upstream_refresh(Err(failed(
            ComputerUseErrorCode::InteractiveDesktopUnavailable,
            "workstation is disconnected",
        )))
        .unwrap_err();
    assert_eq!(error.code, ComputerUseErrorCode::InteractiveDesktopUnavailable);
    assert_eq!(session.last_refresh_ms, None);
}

#[test]
fn target_transition_clears_action_evidence_but_keeps_a_live_freshness_fence() {
    let mut session = recording(fresh_session("session-1", true));
    session.observation = Some(observation("observation-before-transition", "session-1"));
    session.post_action_fence = Some(LiveObservationFence::new(7, 11));
    session.live = Some(link(7, 12));
    session.windows_uia = true;

    session.invalidate_action_observations();

    assert!(session.observation.is_none());
    assert!(session.post_action_fence.is_none());
    assert_eq!(session.transition_fence, Some(LiveObservationFence::new(7, 12)));
    assert!(!session.windows_uia);
    assert!(session.recording_active);
    assert!(session.recording_expected_video);
    assert!(session.live.is_some());
    assert!(session.showcase.is_none());
}

#[test]
fn refresh_timeout_stales_action_evidence_without_ending_the_long_running_session() {
    let mut session = recording(counting_session());
    session.post_action_fence = Some(LiveObservationFence::new(7, 11));

    let result: ComputerUseResult<()> = Err(timed_out(
        "CUA refresh CUA session before observation timed out after 15000 ms",
    ));
    let error = session.finish_upstream_refresh_attempt(result).unwrap_err();

    assert_eq!(error.code, ComputerUseErrorCode::CompletionUnknown);
    let details = details(&error);
    assert_eq!(details.timed_out, Some(true));
    assert_eq!(details.phase, Some(ComputerUseErrorPhase::UpstreamSessionRefresh));
    assert_eq!(details.action_attempted, Some(false));
    assert_eq!(details.input_sent, Some(ComputerUseInputState::NotSent));
    assert_eq!(details.completion, Some(ComputerUseCompletionState::Unknown));
    assert_eq!(details.local_session_invalidated, Some(false));
    assert_eq!(details.session_remains_active, Some(true));
    assert_eq!(details.fresh_observation_required, Some(true));
    assert!(session.active);
    assert_eq!(session.target.as_ref().map(|target| target.pid), Some(42));
    assert!(session.live.is_some());
    assert!(session.recording_active);
    assert!(session.recording_expected_video);
    assert!(session.observation.is_none());
    assert!(session.post_action_fence.is_none());
    assert_eq!(session.transition_fence, Some(LiveObservationFence::new(7, 12)));
}

#[test]
fn an_action_never_crosses_a_due_upstream_session_refresh() {
    let mut session = recording(counting_session());

    let error = session.require_current_upstream_session_for_evidence(NOW).unwrap_err();

    assert_eq!(error.code, ComputerUseErrorCode::SessionRefreshRequired);
    let details = details(&error);
    assert_eq!(details.action_attempted, Some(false));
    assert_eq!(details.fresh_observation_required, Some(true));
    assert!(session.active);
    assert!(session.live.is_some());
    assert!(session.recording_active);
    assert!(session.observation.is_none());
    assert_eq!(session.transition_fence, Some(LiveObservationFence::new(7, 12)));
}

#[test]
fn successful_refresh_before_observation_requires_a_strictly_new_live_frame() {
    let mut session = counting_session();

    session.complete_upstream_session_refresh(NOW);

    assert_eq!(session.last_refresh_ms, Some(NOW));
    assert!(session.observation.is_none());
    assert_eq!(session.transition_fence, Some(LiveObservationFence::new(7, 12)));
    assert!(session.require_current_upstream_session_for_evidence(NOW).is_ok());
}

#[test]
fn a_refresh_is_due_again_after_the_interval() {
    let mut session = counting_session();
    session.complete_upstream_session_refresh(NOW);
    assert!(!session.upstream_session_refresh_due(NOW + SESSION_REFRESH_INTERVAL_MS - 1));
    assert!(session.upstream_session_refresh_due(NOW + SESSION_REFRESH_INTERVAL_MS));
    assert!(session.upstream_refresh_needed(NOW + SESSION_REFRESH_INTERVAL_MS));
    session.upstream = UpstreamSessionState::VisualOnly { reason: "no driver".to_owned() };
    assert!(!session.upstream_refresh_needed(NOW + SESSION_REFRESH_INTERVAL_MS));
}

#[test]
fn successful_session_state_refresh_invalidates_the_previous_observation() {
    let mut session = counting_session();
    let before = session.action_evidence_epoch();
    let mut calls: Vec<ToolRequest> = Vec::new();

    let begun = session
        .begin_bound_call(
            BoundCallKind::SessionState,
            "get_session_state".to_owned(),
            json("{}"),
            Ok(()),
            NOW,
        )
        .unwrap();
    let mut run = next(begun);
    assert_eq!(run.phase, BoundCallPhase::RefreshGate);
    let state = loop {
        let request = run.request();
        calls.push(request);
        let reply = match request {
            ToolRequest::CheckInput => ToolRunReply::Gate(Ok(())),
            ToolRequest::RefreshUpstream => ToolRunReply::Refreshed(Ok(())),
            ToolRequest::CallTool => {
                assert_eq!(run.arguments.text_at("session"), Some("refresh-boundary-session"));
                ToolRunReply::Called(Ok(answer(r#"{"structuredContent": {"active": true}}"#)))
            }
            other => panic!("unexpected request {other:?}"),
        };
        match run.advance(&mut session, NOW, reply) {
            Step::Continue(going) => run = going,
            Step::Done(result) => break result.expect("refreshed state"),
        }
    };

    assert!(session.action_evidence_epoch() > before);
    assert_eq!(state.get("structuredContent").unwrap().bool_at("active"), Some(true));
    assert_eq!(
        calls,
        vec![ToolRequest::CheckInput, ToolRequest::RefreshUpstream, ToolRequest::CallTool]
    );
    assert_eq!(session.last_refresh_ms, Some(NOW));
    assert!(session.observation.is_none());
    assert_eq!(session.transition_fence, Some(LiveObservationFence::new(7, 12)));
    assert_action_is_stale(&session, "observation-before-refresh");
}

#[test]
fn accessibility_snapshot_refreshes_a_due_upstream_session_before_observing() {
    let mut session = counting_session();
    session.live = None;
    let mut names: Vec<&str> = Vec::new();

    let mut run = session
        .begin_accessibility_snapshot(NOW, SnapshotBounds { max_elements: 50, max_depth: 4 })
        .unwrap();
    assert!(run.capture_arguments("refresh-boundary-session").is_none());
    assert_eq!(run.phase, SnapshotPhase::RefreshGate);
    let value = loop {
        let reply = match run.request() {
            EvidenceRequest::CheckInput | EvidenceRequest::CheckObservation => {
                EvidenceReply::Gate(Ok(()))
            }
            EvidenceRequest::RefreshUpstream => {
                names.push("start_session");
                EvidenceReply::Refreshed(Ok(()))
            }
            EvidenceRequest::ResolveTarget => {
                names.push("list_windows");
                EvidenceReply::Target(Ok(test_target()))
            }
            EvidenceRequest::CallTool => {
                names.push("get_window_state");
                let arguments = run.capture_arguments("refresh-boundary-session").unwrap();
                assert_eq!(arguments.u64_at("pid"), Some(42));
                assert_eq!(arguments.u64_at("window_id"), Some(77));
                assert_eq!(arguments.bool_at("include_screenshot"), Some(false));
                assert_eq!(arguments.u64_at("max_elements"), Some(50));
                assert_eq!(arguments.u64_at("max_depth"), Some(4));
                assert_eq!(arguments.text_at("session"), Some("refresh-boundary-session"));
                assert_eq!(run.activity(), Some(BannerActivity::Observing));
                EvidenceReply::Called(Ok(answer("{}")))
            }
            EvidenceRequest::ObserveSemantics => {
                EvidenceReply::Semantics(observation("semantic", "refresh-boundary-session"))
            }
            other => panic!("unexpected request {other:?}"),
        };
        match run.advance(&mut session, NOW, reply) {
            Step::Continue(going) => run = going,
            Step::Done(result) => break result.expect("semantic observation after refresh"),
        }
    };
    assert_eq!(value.bool_at("active"), Some(true));
    assert_eq!(session.last_refresh_ms, Some(NOW));
    assert_eq!(names, vec!["start_session", "list_windows", "get_window_state", "list_windows"]);
    assert_eq!(session.observation.as_ref().unwrap().observation_id, "semantic");
}

#[test]
fn starting_a_new_live_observation_advances_the_action_evidence_epoch() {
    let mut session = counting_session();
    let before = session.action_evidence_epoch();
    session.begin_live_observation_replacement();
    assert!(session.action_evidence_epoch() > before);
    assert!(session.observation.is_none());
}

#[test]
fn known_driver_tool_failure_invalidates_evidence_but_preserves_the_exact_session() {
    let mut session = recording(counting_session());
    let before = session.action_evidence_epoch();

    let outcome: DispatchOutcome<()> = DispatchOutcome::ToolFailed(failed(
        ComputerUseErrorCode::BrowserRefused,
        "simulated known tool failure",
    ));
    let error =
        session.finish_typed_dispatch_result("call CUA browser_click", outcome).unwrap_err();

    assert_eq!(error.code, ComputerUseErrorCode::BrowserRefused);
    let details = details(&error);
    assert_eq!(details.phase, Some(ComputerUseErrorPhase::ActionDispatch));
    assert_eq!(details.action_attempted, Some(true));
    assert_eq!(details.input_sent, Some(ComputerUseInputState::Unknown));
    assert_eq!(details.completion, Some(ComputerUseCompletionState::Known));
    assert_eq!(details.fresh_observation_required, Some(true));
    assert!(!error.message.contains("action_attempted="));
    assert!(!error.message.contains("completion_unknown="));
    assert!(session.active);
    assert!(session.target.is_some());
    assert!(session.observation.is_none());
    assert!(session.action_evidence_epoch() > before);
    assert!(session.live.is_some());
    assert!(session.recording_active);
    assert!(session.recording_expected_video);
}

#[test]
fn post_dispatch_sdk_failures_are_completion_unknown_and_terminal() {
    for message in [
        "simulated transport loss",
        "simulated response identity mismatch",
        "simulated worker loss",
        "simulated remote loss",
    ] {
        let mut session = recording(counting_session());
        let outcome: DispatchOutcome<()> = DispatchOutcome::ConnectionLost(failed(
            ComputerUseErrorCode::BackendUnavailable,
            message,
        ));
        let error =
            session.finish_typed_dispatch_result("call CUA browser_click", outcome).unwrap_err();

        assert_eq!(error.code, ComputerUseErrorCode::CompletionUnknown);
        let details = details(&error);
        assert_eq!(details.action_attempted, Some(true));
        assert_eq!(details.completion, Some(ComputerUseCompletionState::Unknown));
        assert_eq!(details.blind_retry, Some(false));
        assert!(!session.active);
        assert!(session.target.is_none());
        assert!(session.observation.is_none());
        assert!(session.live.is_none());
        assert!(!session.recording_active);
    }
}

#[test]
fn typed_pre_dispatch_sdk_failures_preserve_session_and_evidence() {
    for (code, message) in [
        (ComputerUseErrorCode::BackendUnavailable, "simulated invalid configuration"),
        (ComputerUseErrorCode::InvalidAction, "simulated invalid arguments"),
        (ComputerUseErrorCode::BackendUnavailable, "driver is shut down"),
        (ComputerUseErrorCode::BackendUnavailable, "runtime already exists"),
    ] {
        let mut session = recording(counting_session());
        let outcome: DispatchOutcome<()> = DispatchOutcome::Refused(failed(code, message));
        let error =
            session.finish_typed_dispatch_result("call CUA browser_click", outcome).unwrap_err();

        assert_ne!(error.code, ComputerUseErrorCode::CompletionUnknown);
        let details = details(&error);
        assert_eq!(details.phase, Some(ComputerUseErrorPhase::PreDispatch));
        assert_eq!(details.action_attempted, Some(false));
        assert_eq!(details.input_sent, Some(ComputerUseInputState::NotSent));
        assert_eq!(details.blind_retry, Some(false));
        assert!(session.active);
        assert!(session.target.is_some());
        assert!(session.observation.is_some());
        assert!(session.live.is_some());
        assert!(session.recording_active);
        assert!(session.recording_expected_video);
    }
}

#[test]
fn known_complete_native_mutation_invalidates_the_previous_observation() {
    let mut session = counting_session();
    session.last_refresh_ms = Some(NOW);
    session
        .finish_typed_dispatch_result("call CUA debug_window_info", DispatchOutcome::Completed(()))
        .expect("known-complete native mutation");
    assert!(session.active);
    assert!(session.observation.is_none());
    assert_action_is_stale(&session, "observation-before-refresh");
}

#[test]
fn unknown_action_transport_completion_invalidates_the_exact_session() {
    let mut session = counting_session();
    let before = session.action_evidence_epoch();
    let outcome: DispatchOutcome<()> = DispatchOutcome::Interrupted {
        completion: ActionCompletion::Unknown,
        reason: "simulated action response loss".to_owned(),
    };
    let error = session.finish_typed_dispatch_result("execute CUA click", outcome).unwrap_err();

    assert_eq!(error.code, ComputerUseErrorCode::CompletionUnknown);
    let details = details(&error);
    assert_eq!(details.phase, Some(ComputerUseErrorPhase::ActionDispatch));
    assert_eq!(details.action_attempted, Some(true));
    assert_eq!(details.input_sent, Some(ComputerUseInputState::Unknown));
    assert_eq!(details.completion, Some(ComputerUseCompletionState::Unknown));
    assert_eq!(details.local_session_invalidated, Some(true));
    assert_eq!(details.blind_retry, Some(false));
    assert_eq!(details.fresh_observation_required, Some(true));
    assert!(!error.message.contains("completion_unknown="));
    assert!(!session.active);
    assert!(session.target.is_none());
    assert!(session.action_evidence_epoch() > before);
}

#[test]
fn outer_action_transport_timeout_invalidates_the_exact_session() {
    let mut session = counting_session();
    let outcome: DispatchOutcome<()> = DispatchOutcome::NotReturned(failed(
        ComputerUseErrorCode::InputFailed,
        "execute CUA click timed out",
    ));
    let error = session.finish_typed_dispatch_result("execute CUA click", outcome).unwrap_err();

    assert_eq!(error.code, ComputerUseErrorCode::CompletionUnknown);
    let details = details(&error);
    assert_eq!(details.action_attempted, Some(true));
    assert_eq!(details.blind_retry, Some(false));
    assert!(!session.active);
    assert!(session.target.is_none());
}

#[test]
fn not_started_action_transport_failure_preserves_the_exact_session() {
    let mut session = counting_session();
    let before = session.action_evidence_epoch();
    let outcome: DispatchOutcome<()> = DispatchOutcome::Interrupted {
        completion: ActionCompletion::NotStarted,
        reason: "simulated pre-dispatch rejection".to_owned(),
    };
    let error = session.finish_typed_dispatch_result("execute CUA click", outcome).unwrap_err();

    assert_eq!(error.code, ComputerUseErrorCode::InputFailed);
    let details = details(&error);
    assert_eq!(details.phase, Some(ComputerUseErrorPhase::PreDispatch));
    assert_eq!(details.action_attempted, Some(false));
    assert_eq!(details.input_sent, Some(ComputerUseInputState::NotSent));
    assert_eq!(details.completion, Some(ComputerUseCompletionState::Known));
    assert_eq!(details.blind_retry, Some(false));
    assert_eq!(details.fresh_observation_required, Some(false));
    assert!(!error.message.contains("phase="));
    assert!(!error.message.contains("action_attempted="));
    assert!(session.active);
    assert_eq!(session.target.as_ref().map(|target| target.pid), Some(42));
    assert!(session.observation.is_some());
    assert_eq!(session.action_evidence_epoch(), before);
}

#[test]
fn successful_fast_mutation_invalidates_old_evidence_and_fences_capture_after() {
    let mut session = counting_session();

    session.complete_mutating_action();

    assert!(session.active);
    assert!(session.observation.is_none());
    assert_eq!(session.transition_fence, Some(LiveObservationFence::new(7, 12)));
    assert_eq!(session.post_action_fence, Some(LiveObservationFence::new(7, 12)));
    let after = observation_sequence_fence(
        7,
        None,
        session.post_action_fence,
        session.transition_fence,
    );
    assert_eq!(next_frame(after, 12, "capture_after"), None);
    assert_eq!(next_frame(after, 13, "capture_after"), Some(13));
}

#[test]
fn local_post_preflight_failure_invalidates_evidence_and_requires_fresh_capture() {
    let mut session = recording(counting_session());

    let result: ComputerUseResult<()> = Err(failed(
        ComputerUseErrorCode::InputFailed,
        "simulated partial Windows SendInput failure",
    ));
    let error = session.finish_local_mutation_attempt(result).unwrap_err();

    assert_eq!(error.code, ComputerUseErrorCode::InputFailed);
    let details = details(&error);
    assert_eq!(details.phase, Some(ComputerUseErrorPhase::LocalMutationDispatch));
    assert_eq!(details.action_attempted, Some(true));
    assert_eq!(details.input_sent, Some(ComputerUseInputState::Unknown));
    assert_eq!(details.blind_retry, Some(false));
    assert_eq!(details.fresh_observation_required, Some(true));
    assert!(session.active);
    assert!(session.target.is_some());
    assert!(session.observation.is_none());
    assert!(session.live.is_some());
    assert!(session.recording_active);
    assert!(session.recording_expected_video);
    assert_eq!(session.post_action_fence, None);
    assert_eq!(session.transition_fence, Some(LiveObservationFence::new(7, 12)));
    let after = observation_sequence_fence(
        7,
        None,
        session.post_action_fence,
        session.transition_fence,
    );
    assert_eq!(next_frame(after, 13, "post_failure_capture"), Some(13));
}

/// Answers a run's requests until the platform's own input path is asked for.
fn reach_fast_path(session: &mut ComputerUseSession) -> ActionRun {
    let action = ComputerUseAction {
        delivery_mode: Some("foreground".to_owned()),
        ..click("observation-before-refresh")
    };
    let mut run = session.begin_action(action, Ok(())).unwrap();
    loop {
        let reply = match run.request() {
            ActionRequest::ClassifyAction => ActionReply::Classified {
                needs_upstream_evidence: false,
                needs_physical_input: true,
            },
            ActionRequest::ResolveTarget => ActionReply::Target(Ok(test_target())),
            ActionRequest::FindTakeover => ActionReply::Takeover(Ok(None)),
            ActionRequest::CheckInput => ActionReply::Gate(Ok(())),
            ActionRequest::FitObservation => ActionReply::Fit(ActionFit {
                fits: Ok(()),
                backend_rejection: None,
                semantic: false,
                local_coordinates: true,
            }),
            ActionRequest::MapToPixels => {
                ActionReply::Mapped(Ok(click("observation-before-refresh")))
            }
            ActionRequest::ClassifyDelivery => {
                ActionReply::Delivery { local_path: true, rejection: None }
            }
            ActionRequest::ActivateTarget => ActionReply::Activated(Ok(())),
            ActionRequest::PerformFast => return run,
            other => panic!("unexpected request {other:?}"),
        };
        run = next(run.advance(session, NOW, reply));
    }
}

#[test]
fn attempted_fast_failure_consumes_evidence_for_partial_drag_and_synthetic_touch() {
    for value in [
        r#"{"success": false, "route": "windows_synthetic_touch",
            "delivery": {"completion_known": false}}"#,
        r#"{"success": false, "route": "windows_scoped_fast_input",
            "delivery": {"completion_known": false, "input_sent": true, "path_sent": false,
                         "retry_safe": false},
            "effect": "unverifiable"}"#,
    ] {
        let mut session = counting_session();
        session.native_windows = true;
        let run = reach_fast_path(&mut session);
        let result = tool_result(ComputerUseToolStatus::Rejected, value, "simulated partial drag");
        match run.advance(&mut session, NOW, ActionReply::Fast(Ok(Some(result)))) {
            ActionStep::Done(Ok(report)) => {
                assert!(!report.success);
                assert_eq!(report.result.value.bool_at("success"), Some(false));
            }
            other => panic!("unexpected step {other:?}"),
        }
        assert!(session.active);
        assert!(session.observation.is_none());
        assert_eq!(session.transition_fence, Some(LiveObservationFence::new(7, 12)));
        assert_eq!(session.post_action_fence, Some(LiveObservationFence::new(7, 12)));
    }
}

#[test]
fn fast_backend_preflight_rejection_preserves_evidence() {
    let mut session = counting_session();
    let action = ComputerUseAction {
        input_backend_id: Some("unknown_backend".to_owned()),
        delivery_mode: Some("foreground".to_owned()),
        ..click("observation-before-refresh")
    };
    let rejection = explicit_input_backend_rejection(&action).expect("named backend");
    assert_eq!(rejection, "input backend \"unknown_backend\" is not supported on this platform");
    let mut run = session.begin_action(action, Ok(())).unwrap();
    let report = loop {
        let reply = match run.request() {
            ActionRequest::ClassifyAction => ActionReply::Classified {
                needs_upstream_evidence: false,
                needs_physical_input: false,
            },
            ActionRequest::ResolveTarget => ActionReply::Target(Ok(test_target())),
            ActionRequest::FindTakeover => ActionReply::Takeover(Ok(None)),
            ActionRequest::CheckInput => ActionReply::Gate(Ok(())),
            ActionRequest::FitObservation => ActionReply::Fit(ActionFit {
                fits: Ok(()),
                backend_rejection: Some(rejection.clone()),
                semantic: false,
                local_coordinates: false,
            }),
            other => panic!("unexpected request {other:?}"),
        };
        match run.advance(&mut session, NOW, reply) {
            Step::Continue(going) => run = going,
            Step::Done(result) => break result.expect("a rejection is a result"),
        }
    };
    assert!(!report.success);
    assert_eq!(report.result.value.bool_at("success"), Some(false));
    assert_eq!(report.result.value.text_at("effect"), Some("not_attempted"));
    assert!(session.active);
    assert!(session.observation.is_some());
}

#[test]
fn a_backend_rejection_names_its_backend_and_its_target() {
    let result =
        input_backend_rejection_result("other_backend", "not supported here", &test_target());
    assert_eq!(result.status, ComputerUseToolStatus::Rejected);
    assert_eq!(result.value.bool_at("success"), Some(false));
    let delivery = result.value.get("delivery").expect("delivery");
    assert_eq!(delivery.text_at("backend_id"), Some("other_backend"));
    assert_eq!(delivery.text_at("rejection_reason"), Some("not supported here"));
    let fence = delivery.get("target_fence").expect("target fence");
    assert_eq!(fence.u64_at("process_id"), Some(42));
    assert_eq!(fence.u64_at("window_handle"), Some(77));
    assert_eq!(fence.bool_at("foreground_verified"), Some(true));
}

#[test]
fn a_held_click_becomes_a_drag_in_place() {
    let mut held = click("o");
    held.duration_ms = Some(400);
    let drag = held_coordinate_click_as_drag(&held).expect("a held click");
    assert_eq!(drag.action, "drag");
    assert_eq!(drag.path.len(), 2);
    assert_eq!(drag.path[0], drag.path[1]);
    assert_eq!(drag.steps, Some(20));
    assert!(held_coordinate_click_as_drag(&click("o")).is_none());
}

#[test]
fn successful_implicit_activation_consumes_evidence_before_a_later_not_started_failure() {
    let mut session = counting_session();
    session.begin_gated_window_mutation(Ok(())).unwrap();
    session.finish_implicit_activation(Ok(())).expect("implicit activation succeeds");
    let outcome: DispatchOutcome<()> = DispatchOutcome::Interrupted {
        completion: ActionCompletion::NotStarted,
        reason: "simulated rejection after foreground activation".to_owned(),
    };
    let error = session.finish_typed_dispatch_result("execute CUA click", outcome).unwrap_err();

    assert_eq!(error.code, ComputerUseErrorCode::InputFailed);
    assert_eq!(details(&error).action_attempted, Some(false));
    assert!(session.active);
    assert!(session.observation.is_none());
    assert_eq!(session.transition_fence, Some(LiveObservationFence::new(7, 12)));
}

#[test]
fn failed_implicit_activation_preflight_preserves_evidence() {
    let mut session = counting_session();
    let error = session
        .begin_gated_window_mutation(Err(failed(
            ComputerUseErrorCode::InputFailed,
            "simulated activation preflight failure",
        )))
        .unwrap_err();
    assert_eq!(error.code, ComputerUseErrorCode::InputFailed);
    assert!(session.active);
    assert!(session.observation.is_some());
}

#[test]
fn attempted_implicit_activation_error_consumes_evidence_and_requires_fresh_observation() {
    for context in [
        "foreground action activation final validation",
        "foreground cursor move activation final validation",
    ] {
        let mut session = recording(counting_session());
        session.begin_gated_window_mutation(Ok(())).unwrap();
        let result: ComputerUseResult<()> = Err(failed(
            ComputerUseErrorCode::InputFailed,
            &format!("{context} failed after foreground mutation"),
        ));
        let error = session.finish_implicit_activation(result).unwrap_err();

        assert_eq!(error.code, ComputerUseErrorCode::InputFailed);
        let details = details(&error);
        assert_eq!(details.phase, Some(ComputerUseErrorPhase::ActivationDispatch));
        assert_eq!(details.focus_mutation_attempted, Some(true));
        assert_eq!(details.action_attempted, Some(false));
        assert_eq!(details.input_sent, Some(ComputerUseInputState::NotSent));
        assert_eq!(details.fresh_observation_required, Some(true));
        assert!(session.active);
        assert!(session.target.is_some());
        assert!(session.observation.is_none());
        assert!(session.live.is_some());
        assert!(session.recording_active);
        assert!(session.recording_expected_video);
    }
}

#[test]
fn non_mutating_action_completion_preserves_previous_evidence() {
    let mut session = counting_session();
    session.complete_action();
    assert!(session.active);
    assert!(session.observation.is_some());
}

#[test]
fn unknown_read_only_evidence_completion_preserves_the_exact_session_and_recording() {
    let session = recording(counting_session());
    let outcome: DispatchOutcome<()> = DispatchOutcome::Interrupted {
        completion: ActionCompletion::Unknown,
        reason: "simulated evidence response loss".to_owned(),
    };
    let error = session
        .finish_read_only_evidence_dispatch_result("call CUA get_browser_state", outcome)
        .unwrap_err();

    assert_eq!(error.code, ComputerUseErrorCode::BackendUnavailable);
    let details = details(&error);
    assert_eq!(details.phase, Some(ComputerUseErrorPhase::EvidenceDispatch));
    assert_eq!(details.action_attempted, Some(false));
    assert_eq!(details.completion, Some(ComputerUseCompletionState::Unknown));
    assert!(session.active);
    assert_eq!(session.target.as_ref().map(|target| target.pid), Some(42));
    assert!(session.observation.is_some());
    assert!(session.recording_active);
    assert!(session.recording_expected_video);
}

#[test]
fn outer_read_only_evidence_timeout_preserves_the_exact_session_and_recording() {
    let session = recording(counting_session());
    let outcome: DispatchOutcome<()> =
        DispatchOutcome::NotReturned(timed_out("call CUA get_browser_state timed out"));
    let error = session
        .finish_read_only_evidence_dispatch_result("call CUA get_browser_state", outcome)
        .unwrap_err();

    assert_eq!(error.code, ComputerUseErrorCode::InputFailed);
    let details = details(&error);
    assert_eq!(details.phase, Some(ComputerUseErrorPhase::EvidenceDispatch));
    assert_eq!(details.action_attempted, Some(false));
    assert_eq!(details.timed_out, Some(true));
    assert!(session.active);
    assert_eq!(session.target.as_ref().map(|target| target.pid), Some(42));
    assert!(session.observation.is_some());
    assert!(session.recording_active);
    assert!(session.recording_expected_video);
}

#[test]
fn due_refresh_fences_zoom_before_any_driver_call() {
    let mut session = counting_session();
    let error = session.begin_zoom(Ok(()), NOW).unwrap_err();
    assert_eq!(error.code, ComputerUseErrorCode::SessionRefreshRequired);
    assert_eq!(details(&error).action_attempted, Some(false));
    assert!(session.observation.is_none());
}

#[test]
fn due_refresh_fences_verify_state_before_any_driver_call() {
    let mut session = counting_session();
    let error = session.begin_verify_state(Ok(()), false, NOW).unwrap_err();
    assert_eq!(error.code, ComputerUseErrorCode::SessionRefreshRequired);
    assert_eq!(details(&error).action_attempted, Some(false));
    assert!(session.observation.is_none());
}

#[test]
fn due_refresh_fences_mutating_preflight_before_any_driver_call() {
    let mut session = counting_session();
    let error = session.require_current_upstream_session_for_evidence(NOW).unwrap_err();
    assert_eq!(error.code, ComputerUseErrorCode::SessionRefreshRequired);
    assert_eq!(details(&error).action_attempted, Some(false));
    assert!(session.observation.is_none());
}

#[test]
fn due_refresh_fences_an_action_before_any_driver_call() {
    let mut session = counting_session();
    let run = session.begin_action(click("observation-before-refresh"), Ok(())).unwrap();
    assert_eq!(run.request(), ActionRequest::ClassifyAction);
    let error = stopped(run.advance(
        &mut session,
        NOW,
        ActionReply::Classified { needs_upstream_evidence: true, needs_physical_input: false },
    ));
    assert_eq!(error.code, ComputerUseErrorCode::SessionRefreshRequired);
    assert_eq!(details(&error).action_attempted, Some(false));
    assert!(session.observation.is_none());
}

#[test]
fn due_upstream_refresh_does_not_fence_a_local_visual_action() {
    let mut session = counting_session();
    session.observation.as_mut().unwrap().capture_provenance = json(
        r#"{"accessibility_available": false, "backend": "windows_graphics_capture",
            "scope": "window"}"#,
    );
    assert_exact_target_revalidation(&mut session, None);
}

#[test]
fn due_upstream_refresh_does_not_fence_a_foreground_coordinate_action() {
    let mut session = counting_session();
    assert_exact_target_revalidation(&mut session, Some("foreground"));
}

fn assert_exact_target_revalidation(
    session: &mut ComputerUseSession,
    delivery_mode: Option<&str>,
) {
    let action = ComputerUseAction {
        delivery_mode: delivery_mode.map(str::to_owned),
        ..click("observation-before-refresh")
    };
    let run = session.begin_action(action, Ok(())).unwrap();
    let run = next(run.advance(
        session,
        NOW,
        ActionReply::Classified { needs_upstream_evidence: false, needs_physical_input: false },
    ));
    assert_eq!(run.request(), ActionRequest::ResolveTarget);
    let missing = failed(ComputerUseErrorCode::MissingWindow, "no such window");
    let error = stopped(run.advance(session, NOW, ActionReply::Target(Err(missing))));
    assert_eq!(error.code, ComputerUseErrorCode::MissingWindow);
    assert!(session.observation.is_none());
}

#[test]
fn an_answer_to_another_request_changes_nothing() {
    let mut session = counting_session();
    let run = session.begin_action(click("observation-before-refresh"), Ok(())).unwrap();
    let run = next(run.advance(&mut session, NOW, ActionReply::Moved(Ok(()))));
    assert_eq!(run.phase, ActionPhase::Classify);
    assert!(session.observation.is_some());
}

#[test]
fn unavailable_input_gate_makes_direct_core_action_evidence_stale_after_resume() {
    let mut session = recording(fresh_session("session-1", true));
    session.active = true;
    session.upstream = UpstreamSessionState::Active;
    session.observation = Some(observation("observation-before-lock", "session-1"));
    session.post_action_fence = Some(LiveObservationFence::new(7, 11));
    session.windows_uia = true;

    let result: ComputerUseResult<()> = Err(failed(
        ComputerUseErrorCode::InteractiveDesktopUnavailable,
        "workstation locked",
    ));
    let error = session.finish_observation_sensitive_attempt(result).unwrap_err();

    assert_eq!(error.code, ComputerUseErrorCode::InteractiveDesktopUnavailable);
    assert!(session.observation.is_none());
    assert!(session.post_action_fence.is_none());
    assert!(!session.windows_uia);
    assert!(session.recording_active);
    assert!(session.recording_expected_video);
    assert!(session.live.is_none());
    assert!(session.showcase.is_none());
    assert_action_is_stale(&session, "observation-before-lock");
}

#[test]
fn target_revalidation_failure_makes_direct_core_action_evidence_stale_after_recovery() {
    let mut session = recording(fresh_session("session-1", true));
    session.active = true;
    session.upstream = UpstreamSessionState::Active;
    session.observation = Some(observation("observation-before-target-loss", "session-1"));
    session.post_action_fence = Some(LiveObservationFence::new(7, 11));
    session.windows_uia = true;

    let error = session
        .revalidate_observed_target(Err(failed(
            ComputerUseErrorCode::TargetUnavailable,
            "exact target identity changed",
        )))
        .unwrap_err();

    assert_eq!(error.code, ComputerUseErrorCode::TargetUnavailable);
    assert!(session.observation.is_none());
    assert!(session.post_action_fence.is_none());
    assert!(!session.windows_uia);
    assert!(session.recording_active);
    assert!(session.recording_expected_video);
    assert_action_is_stale(&session, "observation-before-target-loss");
}

#[test]
fn direct_core_resume_rebaselines_past_frames_cached_while_input_was_suspended() {
    let mut session = fresh_session("session-1", false);
    session.live = Some(link(7, 10));
    let locked: ComputerUseResult<()> = Err(failed(
        ComputerUseErrorCode::InteractiveDesktopUnavailable,
        "workstation locked",
    ));
    session.finish_observation_sensitive_attempt(locked).unwrap_err();
    session.note_live_frame(Some(LiveObservationFence::new(7, 20)));

    session.finish_observation_sensitive_attempt(Ok(())).unwrap();
    session.rebaseline_live_observation_transition_fence();
    assert_eq!(session.transition_fence, Some(LiveObservationFence::new(7, 20)));
    let after = observation_sequence_fence(7, None, None, session.transition_fence);
    assert_eq!(next_frame(after, 20, "suspended_capture"), None);
    assert_eq!(next_frame(after, 21, "resumed_capture"), Some(21));
}

#[test]
fn vanished_target_skips_upstream_stop_for_the_dead_window() {
    let mut session = counting_session();
    let gone: ComputerUseResult<()> =
        Err(failed(ComputerUseErrorCode::MissingWindow, "simulated closed window"));
    let error = session.finish_observation_sensitive_attempt(gone).unwrap_err();
    assert_eq!(error.code, ComputerUseErrorCode::MissingWindow);
    assert!(session.target.is_none());

    let run = session.begin_stop();
    match run.advance(&mut session, StopReply::LiveStopped) {
        StopStep::Done(Ok(result)) => {
            assert!(result.success);
            assert!(!result.active);
        }
        other => panic!("the driver is not asked to end the session: {other:?}"),
    }
    assert!(!session.active);
}

#[test]
fn upstream_start_timeout_is_the_only_failure_allowed_to_enter_visual_only_mode() {
    let timeout = failed(
        ComputerUseErrorCode::InputFailed,
        "CUA start CUA session timed out after 15000 ms",
    );
    let backend_failure = failed(
        ComputerUseErrorCode::BackendUnavailable,
        "CUA start CUA session failed before dispatch",
    );
    assert!(visual_only_start_degradation(&timeout).is_some());
    assert!(visual_only_start_degradation(&backend_failure).is_none());
}

#[test]
fn visual_only_session_never_reenters_the_unresponsive_upstream_driver() {
    let mut session = counting_session();
    session.upstream =
        UpstreamSessionState::VisualOnly { reason: "simulated upstream timeout".to_owned() };

    assert!(!session.upstream_refresh_needed(NOW));
    let error = session.require_current_upstream_session_for_evidence(NOW).unwrap_err();
    assert_eq!(error.code, ComputerUseErrorCode::BackendUnavailable);
    let status = session.status(Json::Null, Json::Null);
    let upstream = status.get("upstream_session").unwrap();
    assert_eq!(upstream.text_at("state"), Some("visual_only"));
    assert_eq!(upstream.bool_at("requires_explicit_escalation"), Some(true));
}

#[test]
fn a_current_session_zooms_into_the_window_it_observed() {
    let mut session = counting_session();
    session.last_refresh_ms = Some(NOW);
    let mut run = session.begin_zoom(Ok(()), NOW).unwrap();
    assert_eq!(run.phase, ZoomPhase::Target);
    let result = loop {
        let reply = match run.request() {
            EvidenceRequest::ResolveTarget => EvidenceReply::Target(Ok(test_target())),
            EvidenceRequest::CheckObservation => EvidenceReply::Gate(Ok(())),
            EvidenceRequest::CallTool => EvidenceReply::Called(Ok(answer("{}"))),
            other => panic!("unexpected request {other:?}"),
        };
        match run.advance(&mut session, NOW, reply) {
            Step::Continue(going) => run = going,
            Step::Done(result) => break result.expect("zoomed"),
        }
    };
    assert_eq!(result.text, "ok");
    assert!(session.observation.is_some());
}

#[test]
fn session_health_probe_components_never_activate_or_send_input() {
    let mut session = recording(counting_session());
    let epoch = session.action_evidence_epoch();
    let availability = session.target_availability(Ok(test_target()));
    assert!(availability.is_ok());
    let state = session
        .recording_state(
            Ok(json(r#"{"enabled": true, "owner": "refresh-boundary-session"}"#)),
            None,
        )
        .unwrap();
    assert_eq!(state.text_at("status"), Some("active"));
    assert_eq!(session.action_evidence_epoch(), epoch);
    assert!(session.observation.is_some());
    assert!(session.target.is_some());
}

#[test]
fn a_window_that_takes_over_input_is_suggested_in_its_place() {
    let mut session = counting_session();
    session.native_windows = true;
    session.banner = Some(BannerState {
        activity: BannerActivity::Ready,
        recording: false,
        live_observation: false,
    });
    let mut run = session.begin_action(click("observation-before-refresh"), Ok(())).unwrap();
    assert_eq!(run.activity(), Some(BannerActivity::Operating));
    let error = loop {
        let reply = match run.request() {
            ActionRequest::ClassifyAction => ActionReply::Classified {
                needs_upstream_evidence: false,
                needs_physical_input: true,
            },
            ActionRequest::ResolveTarget => ActionReply::Target(Ok(test_target())),
            ActionRequest::FindTakeover => {
                ActionReply::Takeover(Ok(Some(WindowTarget { window_id: 88, ..test_target() })))
            }
            other => panic!("unexpected request {other:?}"),
        };
        match run.advance(&mut session, NOW, reply) {
            ActionStep::Continue(next) => run = next,
            ActionStep::Done(result) => break result.unwrap_err(),
        }
    };
    assert_eq!(error.code, ComputerUseErrorCode::TargetModalChanged);
    assert_eq!(error.message, "a same-process owned window has taken over input");
    assert_eq!(details(&error).suggested_target.as_ref().unwrap().window_handle, Some(88));
    assert_eq!(session.banner, None);
}

#[test]
fn only_an_injected_input_shows_as_input() {
    let session = counting_session();
    let mut run = session.begin_action(click("observation-before-refresh"), Ok(())).unwrap();
    assert_eq!(run.activity(), Some(BannerActivity::Operating));
    run.phase = ActionPhase::PointerMove;
    assert_eq!(run.activity(), Some(BannerActivity::PointerInput));
    run.action.action = "type".to_owned();
    assert_eq!(run.activity(), Some(BannerActivity::KeyboardInput));
}

#[test]
fn an_escalation_lets_the_windows_own_accessibility_stand_in() {
    for native_windows in [false, true] {
        let mut session = counting_session();
        session.native_windows = native_windows;
        session.windows_uia = false;
        session.escalate("uia_timeout", Ok(()), Ok(test_target())).unwrap();
        assert!(session.escalated && session.uia_timeout_escalated);
        assert_eq!(session.windows_uia, native_windows);
    }
    let mut session = counting_session();
    session.native_windows = true;
    let refused = failed(ComputerUseErrorCode::InvalidAction, "no reason");
    session.escalate("", Err(refused), Ok(test_target())).unwrap_err();
    assert!(!session.escalated && !session.windows_uia);
}

#[test]
fn the_banner_shows_no_feed_that_ended() {
    let mut session = counting_session();
    session.banner = Some(BannerState {
        activity: BannerActivity::Ready,
        recording: false,
        live_observation: true,
    });
    assert!(session.live.is_some());
    session.note_feed_end(true);
    assert!(session.banner.unwrap().live_observation);
    session.note_feed_end(false);
    assert!(!session.banner.unwrap().live_observation);
    assert!(session.live.is_some());

    let status = session.banner_status(json(r#"{"running": true}"#));
    assert_eq!(status.bool_at("running"), Some(true));
    session.banner = None;
    let status = session.banner_status(json(r#"{"running": true}"#));
    assert_eq!(status.bool_at("running"), Some(false));
    assert_eq!(status.text_at("activity_label"), Some("Stopping\u{2026}"));
}
