use dcc_cua::contracts::{
    ComputerUseAction, ComputerUseLiveObservationStartRequest, ComputerUseObservation,
    ComputerUseRecordingStartRequest, ComputerUseTargetScope, ComputerUseToolResult,
    ComputerUseToolStatus, Coordinate,
};
use dcc_cua::driver::ToolReply;
use dcc_cua::errors::{
    ComputerUseError, ComputerUseErrorCode, ComputerUseErrorDetails, ComputerUseErrorPhase,
};
use dcc_cua::json::{parse_json, Json};
use dcc_cua::live_observation::LiveObservationFence;
use dcc_cua::recording::RecordingHealth;
use dcc_cua::session::{
    ActiveShowcase, ComputerUseSession, LiveLink, UpstreamSessionState,
};
use dcc_cua::session_lifecycle::{
    control_banner_failure, BannerFailureKind, ComputerUseCleanupPhase,
    LiveObservationStartDisposition, LiveStartReply, LiveStartRequest, StopPhase, StopReply,
};
use dcc_cua::session_recording::{
    RecordingStartReply, RecordingStartRequestKind, RecordingStarted, RecordingStopPhase,
    RecordingStopReply, RecordingStopped,
};
use dcc_cua::session_tools::ToolAnswer;
use dcc_cua::session_windows::{
    ActivationReport, BootstrapRun, FrontCall, WindowReply, WindowRequest,
};
use dcc_cua::steps::Step;
use dcc_cua::window_target::WindowTarget;

const NOW: u64 = 1_000;

fn json(text: &str) -> Json {
    parse_json(text).expect("test JSON")
}

fn failed(code: ComputerUseErrorCode, message: &str) -> ComputerUseError {
    ComputerUseError::new(code, message)
}

fn timed_out(message: &str) -> ComputerUseError {
    failed(ComputerUseErrorCode::InputFailed, message).with_details(ComputerUseErrorDetails {
        timed_out: Some(true),
        ..Default::default()
    })
}

fn details(error: &ComputerUseError) -> &ComputerUseErrorDetails {
    error.details.as_ref().expect("structured error details")
}

fn test_target() -> WindowTarget {
    WindowTarget {
        pid: 42,
        window_id: 77,
        title: "Test DCC".to_owned(),
        app_name: "test.exe".to_owned(),
        bounds: [0, 0, 800, 600],
        is_foreground: true,
        is_minimized: false,
        is_on_screen: true,
        z_index: None,
    }
}

fn observation(id: &str, session_id: &str) -> ComputerUseObservation {
    ComputerUseObservation {
        observation_id: id.to_owned(),
        window_handle: 77,
        process_id: 42,
        window_title: "Test DCC".to_owned(),
        width: 800,
        height: 600,
        source_rect: [0, 0, 800, 600],
        capture_backend: "test".to_owned(),
        capture_provenance: json(r#"{"accessibility_backend": "windows_uia"}"#),
        session_id: session_id.to_owned(),
    }
}

fn fresh_session(session_id: &str, native_windows: bool) -> ComputerUseSession {
    ComputerUseSession::new(
        ComputerUseTargetScope {
            process_id: Some(42),
            window_handle: Some(77),
            window_title: None,
        },
        "Test DCC".to_owned(),
        "agent".to_owned(),
        session_id.to_owned(),
        "label".to_owned(),
        native_windows,
    )
    .expect("test session")
}

fn link(stream_id: u64, sequence: u64) -> LiveLink {
    LiveLink {
        stream_id,
        latest: Some(LiveObservationFence::new(stream_id, sequence)),
        max_dimension: 1280,
        fps: 30,
    }
}

fn counting_session() -> ComputerUseSession {
    let mut session = fresh_session("refresh-boundary-session", false);
    session.active = true;
    session.upstream = UpstreamSessionState::Active;
    session.target = Some(test_target());
    session.observation =
        Some(observation("observation-before-refresh", "refresh-boundary-session"));
    session.live = Some(link(7, 12));
    session.last_refresh_ms = None;
    session
}

fn recording(mut session: ComputerUseSession) -> ComputerUseSession {
    session.recording_active = true;
    session.recording_expected_video = true;
    session
}

fn blank_action(kind: &str) -> ComputerUseAction {
    ComputerUseAction {
        action: kind.to_owned(),
        observation_id: None,
        element_index: None,
        element_token: None,
        delivery_mode: None,
        input_backend_id: None,
        x: None,
        y: None,
        button: None,
        scroll_x: None,
        scroll_y: None,
        scroll_by: None,
        path: Vec::new(),
        text: None,
        delay_ms: None,
        duration_ms: None,
        steps: None,
        type_chars_only: false,
        keys: Vec::new(),
        modifiers: Vec::new(),
    }
}

fn at(value: f64) -> Option<Coordinate> {
    Some(Coordinate { bits: value.to_bits() })
}

fn click(observation_id: &str) -> ComputerUseAction {
    ComputerUseAction {
        observation_id: Some(observation_id.to_owned()),
        x: at(10.0),
        y: at(10.0),
        ..blank_action("click")
    }
}

fn tool_result(status: ComputerUseToolStatus, value: &str, text: &str) -> ComputerUseToolResult {
    ComputerUseToolResult {
        status,
        value: json(value),
        text: text.to_owned(),
        images: Vec::new(),
        degraded: false,
    }
}

fn answer(raw: &str) -> ToolAnswer {
    ToolAnswer {
        reply: ToolReply {
            is_error: false,
            error_code: None,
            raw_json: raw.to_owned(),
            text: "ok".to_owned(),
            structured_json: Some(r#"{"active": true}"#.to_owned()),
            images: Vec::new(),
            degraded: false,
            action_effect: None,
        },
        accepted: Ok(()),
        result: Ok(tool_result(ComputerUseToolStatus::Succeeded, "{}", "ok")),
    }
}

fn stopped<R, T: std::fmt::Debug>(step: Step<R, T>) -> ComputerUseError {
    match step {
        Step::Done(result) => result.expect_err("the run fails"),
        Step::Continue(_) => panic!("the run goes on"),
    }
}

fn next<R, T: std::fmt::Debug>(step: Step<R, T>) -> R {
    match step {
        Step::Continue(run) => run,
        Step::Done(result) => panic!("the run ended: {result:?}"),
    }
}

/// An observation that was spent cannot carry an action.
fn assert_action_is_stale(session: &ComputerUseSession, observation_id: &str) {
    let error = session.begin_action(click(observation_id), Ok(())).unwrap_err();
    assert_eq!(error.code, ComputerUseErrorCode::StaleObservation);
}

const FINAL_VIDEO: &str = r#"{"finalized": true, "active": false, "path": "showcase.mp4"}"#;

/// A session that records its trajectory and a video.
fn showcase_session() -> ComputerUseSession {
    let mut session = recording(counting_session());
    session.showcase = Some(ActiveShowcase { owns_live_observation: false });
    let mut health = RecordingHealth::new(session.session_id.as_str());
    assert!(health.observe_trajectory(&json(
        r#"{"enabled": true, "owner": "refresh-boundary-session"}"#
    )));
    session.recording_health = Some(health);
    session
}

/// Stops the recording of a session whose recorder finalizes its video.
fn stop_recording(session: &mut ComputerUseSession, names: &mut Vec<&'static str>) -> RecordingStopped {
    let mut run = session.begin_recording_stop().expect("recording runs");
    loop {
        let reply = match run.phase {
            RecordingStopPhase::Recorder => {
                RecordingStopReply::RecorderStopped(Ok(json(FINAL_VIDEO)))
            }
            RecordingStopPhase::Probe => {
                names.push("get_recording_state");
                RecordingStopReply::Probed(Ok(json(
                    r#"{"enabled": true, "owner": "refresh-boundary-session"}"#,
                )))
            }
            RecordingStopPhase::Stop => {
                names.push("stop_recording");
                RecordingStopReply::TrajectoryStopped(Ok(json(r#"{"enabled": false}"#)))
            }
        };
        match run.advance(session, reply) {
            Step::Continue(going) => run = going,
            Step::Done(result) => return result.expect("stop recording"),
        }
    }
}

#[test]
fn recording_state_recovers_finalized_video_after_stop_response_is_lost() {
    let mut session = showcase_session();
    let mut names = Vec::new();
    let discarded = stop_recording(&mut session, &mut names);
    let video = discarded.video.expect("video");
    assert_eq!(video.bool_at("finalized"), Some(true));
    assert_eq!(names, vec!["get_recording_state", "stop_recording"]);

    let recovered = session
        .recording_state(Ok(json(r#"{"enabled": false}"#)), None)
        .expect("recover terminal recording state");
    assert_eq!(recovered.text_at("status"), Some("stopped"));
    let kept = recovered.get("video").unwrap();
    assert_eq!(kept.text_at("path"), video.text_at("path"));
    assert_eq!(kept.bool_at("finalized"), Some(true));
}

fn start_recording(
    session: &mut ComputerUseSession,
    record_video: bool,
    feed: Result<LiveObservationStartDisposition, ComputerUseError>,
    names: &mut Vec<&'static str>,
) -> Result<RecordingStarted, ComputerUseError> {
    let request =
        ComputerUseRecordingStartRequest { output_dir: "out".to_owned(), record_video };
    let mut feed = Some(feed);
    let mut run = session.begin_recording(request, Ok(()))?;
    loop {
        let reply = match run.request() {
            RecordingStartRequestKind::ResolveTarget => {
                RecordingStartReply::Target(Ok(test_target()))
            }
            RecordingStartRequestKind::CallStartRecording => {
                names.push("start_recording");
                let arguments = run.start_arguments(session);
                assert_eq!(arguments.text_at("output_dir"), Some("out"));
                assert_eq!(arguments.bool_at("record_video"), Some(false));
                RecordingStartReply::Called(Ok(answer(
                    r#"{"enabled": true, "owner": "refresh-boundary-session"}"#,
                )))
            }
            RecordingStartRequestKind::StartFeed => {
                RecordingStartReply::Feed(feed.take().expect("one feed"))
            }
            RecordingStartRequestKind::StartRecorder => {
                RecordingStartReply::Recorder(Ok(json(r#"{"active": true}"#)))
            }
            RecordingStartRequestKind::CallStopRecording => {
                names.push("stop_recording");
                RecordingStartReply::Called(Ok(answer("{}")))
            }
        };
        match run.advance(session, NOW, reply) {
            Step::Continue(going) => run = going,
            Step::Done(result) => return result,
        }
    }
}

#[test]
fn an_accepted_next_recording_clears_previous_terminal_video_evidence() {
    let mut session = showcase_session();
    stop_recording(&mut session, &mut Vec::new());
    assert!(session.last_recording_video.is_some());
    session.last_refresh_ms = Some(NOW);

    let started = start_recording(
        &mut session,
        false,
        Ok(LiveObservationStartDisposition::ReuseExisting),
        &mut Vec::new(),
    )
    .expect("accept next recording");
    assert!(started.video.is_none());
    let restarted = session
        .recording_state(
            Ok(json(r#"{"enabled": true, "owner": "refresh-boundary-session"}"#)),
            None,
        )
        .expect("read restarted recording state");
    assert_eq!(restarted.text_at("status"), Some("active"));
    let expected = restarted.get("expected_components").unwrap().as_array().unwrap();
    assert_eq!(expected.len(), 1);
    assert_eq!(expected[0].as_text(), Some("trajectory"));
    assert!(restarted.get("video").unwrap().is_null());
}

#[test]
fn a_failed_video_restart_preserves_previous_terminal_video_evidence() {
    let mut session = showcase_session();
    stop_recording(&mut session, &mut Vec::new());
    session.last_refresh_ms = Some(NOW);
    let mut names = Vec::new();

    let error = start_recording(
        &mut session,
        true,
        Err(failed(ComputerUseErrorCode::MissingWindow, "no exact window")),
        &mut names,
    )
    .expect_err("the restart is rejected");
    assert_eq!(error.code, ComputerUseErrorCode::MissingWindow);
    let recovered = session
        .recording_state(Ok(json(r#"{"enabled": false}"#)), None)
        .expect("recover previous terminal recording state");
    assert_eq!(recovered.text_at("status"), Some("stopped"));
    assert_eq!(recovered.get("video").unwrap().text_at("path"), Some("showcase.mp4"));
    assert_eq!(names, vec!["start_recording", "stop_recording"]);
}

#[test]
fn a_video_recording_runs_on_the_feed() {
    let mut session = counting_session();
    session.last_refresh_ms = Some(NOW);
    let started = start_recording(
        &mut session,
        true,
        Ok(LiveObservationStartDisposition::StartedNew),
        &mut Vec::new(),
    )
    .expect("recording runs");
    assert_eq!(started.video.unwrap().bool_at("active"), Some(true));
    assert_eq!(session.showcase, Some(ActiveShowcase { owns_live_observation: true }));
    assert!(session.recording_active);
    assert!(session.recording_keepalive);
}

#[test]
fn session_stop_reports_recording_finalize_failure_as_a_typed_cleanup_issue() {
    let mut session = showcase_session();
    let mut names = Vec::new();
    let mut run = session.begin_stop();
    let stopped = loop {
        let reply = match run.phase {
            StopPhase::Recording => {
                names.push("get_recording_state");
                names.push("stop_recording");
                StopReply::RecordingStopped(Err(failed(
                    ComputerUseErrorCode::CaptureFailed,
                    "the video could not be finalized",
                )))
            }
            StopPhase::Live => StopReply::LiveStopped,
            StopPhase::End => {
                names.push("end_session");
                StopReply::Ended(Ok(()))
            }
        };
        match run.advance(&mut session, reply) {
            Step::Continue(going) => run = going,
            Step::Done(result) => break result.expect("return bounded cleanup outcome"),
        }
    };
    assert!(!stopped.success);
    assert!(!stopped.active);
    assert!(!stopped.cleanup_pending);
    assert_eq!(stopped.cleanup_issues.len(), 1);
    assert_eq!(stopped.cleanup_issues[0].phase, ComputerUseCleanupPhase::RecordingStop);
    assert_eq!(stopped.cleanup_issues[0].code, ComputerUseErrorCode::CaptureFailed);
    assert!(!stopped.cleanup_issues[0].message.is_empty());
    assert_eq!(names, vec!["get_recording_state", "stop_recording", "end_session"]);
    assert!(!session.active);
}

/// Brings the session's window to the front, with the given window after it.
fn activate(
    session: &mut ComputerUseSession,
    after: WindowTarget,
    requests: &mut Vec<WindowRequest>,
) -> Result<ActivationReport, ComputerUseError> {
    let mut targets = vec![after, test_target()];
    let mut run = session.begin_activate()?;
    loop {
        let request = run.request();
        requests.push(request);
        let reply = match request {
            WindowRequest::CheckActivation | WindowRequest::CheckInput => {
                WindowReply::Gate(Ok(()))
            }
            WindowRequest::ResolveTarget => WindowReply::Target(Ok(targets.pop().unwrap())),
            WindowRequest::ActivateWindow | WindowRequest::RestoreAndActivateWindow => {
                WindowReply::Mutated(Ok(()))
            }
            WindowRequest::BringToFront => WindowReply::Front(FrontCall::Returned(Ok(
                tool_result(ComputerUseToolStatus::Succeeded, "{}", "front"),
            ))),
        };
        match run.advance(session, reply) {
            Step::Continue(going) => run = going,
            Step::Done(result) => return result,
        }
    }
}

#[test]
fn a_native_activation_spends_evidence_before_it_touches_the_window() {
    let mut session = counting_session();
    session.native_windows = true;
    let mut requests = Vec::new();
    let report = activate(&mut session, test_target(), &mut requests).expect("activated");
    assert!(report.target.is_foreground);
    assert!(session.observation.is_none());
    assert_eq!(
        requests,
        vec![
            WindowRequest::CheckActivation,
            WindowRequest::ResolveTarget,
            WindowRequest::CheckActivation,
            WindowRequest::ActivateWindow,
            WindowRequest::ResolveTarget,
            WindowRequest::CheckActivation,
        ]
    );
}

#[test]
fn an_activation_that_left_the_window_behind_is_refused() {
    let mut session = counting_session();
    session.native_windows = true;
    let behind = WindowTarget { is_foreground: false, ..test_target() };
    let error = activate(&mut session, behind, &mut Vec::new()).unwrap_err();
    assert_eq!(error.code, ComputerUseErrorCode::ForegroundActivationRefused);
    assert_eq!(details(&error).suggested_delivery_mode.as_deref(), Some("background"));
}

#[test]
fn an_activation_by_the_driver_is_checked_against_the_window() {
    let mut session = counting_session();
    let mut requests = Vec::new();
    let report = activate(&mut session, test_target(), &mut requests).expect("activated");
    assert_eq!(report.result.text, "front");
    assert!(requests.contains(&WindowRequest::BringToFront));
    let mut session = counting_session();
    let behind = WindowTarget { is_foreground: false, ..test_target() };
    let error = activate(&mut session, behind, &mut Vec::new()).unwrap_err();
    assert_eq!(error.code, ComputerUseErrorCode::InputFailed);
}

#[test]
fn an_activation_that_never_returned_spends_evidence() {
    let mut session = counting_session();
    let run = session.begin_activate().unwrap();
    let run = next(run.advance(&mut session, WindowReply::Gate(Ok(()))));
    let run = next(run.advance(&mut session, WindowReply::Target(Ok(test_target()))));
    let error = stopped(run.advance(
        &mut session,
        WindowReply::Front(FrontCall::NotReturned(timed_out("bring_to_front timed out"))),
    ));
    assert_eq!(error.code, ComputerUseErrorCode::CompletionUnknown);
    assert!(session.observation.is_none());
    assert!(session.active);
}

#[test]
fn a_restoration_answers_only_a_native_exact_window() {
    let mut session = counting_session();
    session.native_windows = true;
    let mut run = session.begin_restore_activate().unwrap();
    let restored = loop {
        let reply = match run.request() {
            WindowRequest::CheckInput => WindowReply::Gate(Ok(())),
            WindowRequest::ResolveTarget => WindowReply::Target(Ok(test_target())),
            WindowRequest::RestoreAndActivateWindow => WindowReply::Mutated(Ok(())),
            other => panic!("unexpected request {other:?}"),
        };
        match run.advance(&mut session, reply) {
            Step::Continue(going) => run = going,
            Step::Done(result) => break result.expect("restored"),
        }
    };
    assert_eq!(restored.window_id, 77);
    assert!(session.observation.is_none());

    let mut remote = counting_session();
    let run = remote.begin_restore_activate().unwrap();
    let error = stopped(run.advance(&mut remote, WindowReply::Gate(Ok(()))));
    assert_eq!(error.code, ComputerUseErrorCode::BackendUnavailable);
}

#[test]
fn a_failed_restoration_is_not_retried_blindly() {
    let mut session = counting_session();
    session.native_windows = true;
    let run = session.begin_restore_activate().unwrap();
    let run = next(run.advance(&mut session, WindowReply::Gate(Ok(()))));
    let run = next(run.advance(&mut session, WindowReply::Target(Ok(test_target()))));
    let run = next(run.advance(&mut session, WindowReply::Gate(Ok(()))));
    let refused = failed(ComputerUseErrorCode::InputFailed, "the platform refused");
    let error = stopped(run.advance(&mut session, WindowReply::Mutated(Err(refused))));
    let details = details(&error);
    assert_eq!(details.automatic_input, Some(false));
    assert_eq!(details.blind_retry, Some(false));
    assert_eq!(details.fresh_observation_required, Some(true));
}

#[test]
fn a_bootstrap_activation_falls_back_to_the_host() {
    let mut session = counting_session();
    session.native_windows = true;
    let behind = WindowTarget { is_foreground: false, ..test_target() };
    let run = BootstrapRun::new(test_target());
    let run = next(run.advance(&mut session, WindowReply::Gate(Ok(()))));
    let run = next(run.advance(&mut session, WindowReply::Mutated(Ok(()))));
    let run = next(run.advance(&mut session, WindowReply::Target(Ok(behind))));
    assert_eq!(run.request(), WindowRequest::ActivateWindow);
    let run = next(run.advance(&mut session, WindowReply::Mutated(Ok(()))));
    match run.advance(&mut session, WindowReply::Target(Ok(test_target()))) {
        Step::Done(Ok(report)) => assert!(report.fallback),
        other => panic!("unexpected step {other:?}"),
    }
}

#[test]
fn a_bootstrap_activation_does_not_change_windows() {
    let mut session = counting_session();
    let other = WindowTarget { window_id: 78, ..test_target() };
    let run = BootstrapRun::new(test_target());
    let run = next(run.advance(&mut session, WindowReply::Gate(Ok(()))));
    let front = tool_result(ComputerUseToolStatus::Succeeded, "{}", "front");
    let run = next(run.advance(
        &mut session,
        WindowReply::Front(FrontCall::Returned(Ok(front))),
    ));
    let error = stopped(run.advance(&mut session, WindowReply::Target(Ok(other))));
    assert_eq!(error.code, ComputerUseErrorCode::TargetUnavailable);
    assert_eq!(
        error.message,
        "the exact target identity changed during bootstrap activation"
    );
}

#[test]
fn closing_a_window_needs_an_exact_grant() {
    let mut session = counting_session();
    session.native_windows = true;
    session.scope.process_id = None;
    let error = session.begin_close_window(Ok(test_target())).unwrap_err();
    assert_eq!(error.code, ComputerUseErrorCode::InvalidTarget);
    session.scope.process_id = Some(42);
    let closed = session.begin_close_window(Ok(test_target())).unwrap();
    assert_eq!(closed.window_id, 77);
    assert!(session.observation.is_none());
}

#[test]
fn a_window_that_cannot_be_seen_voids_evidence() {
    let mut session = counting_session();
    let hidden = WindowTarget { is_on_screen: false, ..test_target() };
    let state = session.window_state(Ok(hidden)).expect("its state is still known");
    assert!(!state.is_on_screen);
    assert!(session.observation.is_none());
}

#[test]
fn a_session_starts_and_is_bound_to_its_window() {
    let mut session = fresh_session("s", true);
    session.begin_start(Ok(())).unwrap();
    session.finish_upstream_start(Ok(()), NOW).unwrap();
    session.finish_started_session(test_target(), true);
    assert!(session.active);
    assert!(session.marker.visible);
    assert_eq!(session.target().map(|target| target.window_id), Some(77));
    assert_eq!(session.last_refresh_ms, Some(NOW));
    assert_eq!(
        session.resume_after_user_approval().unwrap_err().code,
        ComputerUseErrorCode::InvalidAction
    );
}

#[test]
fn a_start_that_timed_out_leaves_only_pixels_on_native_windows() {
    let late = || timed_out("CUA start CUA session timed out after 15000 ms");
    let mut native = fresh_session("s", true);
    native.finish_upstream_start(Err(late()), NOW).expect("degraded, not failed");
    assert!(matches!(native.upstream, UpstreamSessionState::VisualOnly { .. }));
    let mut other = fresh_session("s", false);
    assert!(other.finish_upstream_start(Err(late()), NOW).is_err());
}

#[test]
fn a_session_needs_a_name_and_a_scope() {
    let scope = || ComputerUseTargetScope {
        process_id: Some(42),
        window_handle: Some(77),
        window_title: None,
    };
    let made = |scope: ComputerUseTargetScope, id: &str| {
        ComputerUseSession::new(
            scope,
            "a".to_owned(),
            "b".to_owned(),
            id.to_owned(),
            "c".to_owned(),
            false,
        )
    };
    assert_eq!(made(scope(), " ").unwrap_err().code, ComputerUseErrorCode::InvalidAction);
    let empty = ComputerUseTargetScope::default();
    assert!(made(empty, "s").is_err());
    assert!(made(scope(), "s").is_ok());
}

#[test]
fn a_new_feed_replaces_one_that_ended() {
    let mut session = counting_session();
    let request = ComputerUseLiveObservationStartRequest { fps: 30, max_dimension: 1280 };
    let mut run = session
        .begin_live_observation(request, Some(&json(r#"{"active": false}"#)))
        .unwrap();
    let mut requests = Vec::new();
    let disposition = loop {
        let request = run.request();
        requests.push(request);
        let reply = match request {
            LiveStartRequest::CheckObservation => LiveStartReply::Gate(Ok(())),
            LiveStartRequest::ResolveTarget => LiveStartReply::Target(Ok(test_target())),
            LiveStartRequest::StopFeed => LiveStartReply::Stopped,
            LiveStartRequest::StartFeed => LiveStartReply::Started(Ok(link(8, 1))),
        };
        match run.advance(&mut session, reply) {
            Step::Continue(going) => run = going,
            Step::Done(result) => break result.expect("feed runs"),
        }
    };
    assert_eq!(disposition, LiveObservationStartDisposition::StartedNew);
    assert_eq!(session.live.map(|feed| feed.stream_id), Some(8));
    assert!(session.observation.is_none());
}

#[test]
fn a_feed_that_runs_is_kept() {
    let mut session = counting_session();
    let request = ComputerUseLiveObservationStartRequest { fps: 30, max_dimension: 1280 };
    let run = session
        .begin_live_observation(request, Some(&json(r#"{"active": true}"#)))
        .unwrap();
    assert_eq!(run.disposition, LiveObservationStartDisposition::ReuseExisting);
    match run.advance(&mut session, LiveStartReply::Target(Ok(test_target()))) {
        Step::Done(Ok(disposition)) => {
            assert_eq!(disposition, LiveObservationStartDisposition::ReuseExisting);
        }
        other => panic!("unexpected step {other:?}"),
    }
    assert_eq!(session.live.map(|feed| feed.stream_id), Some(7));
    assert!(session.observation.is_some());
}

#[test]
fn a_live_request_out_of_bounds_is_refused() {
    let session = counting_session();
    let request = ComputerUseLiveObservationStartRequest { fps: 0, max_dimension: 1280 };
    assert!(session.begin_live_observation(request, None).is_err());
}

#[test]
fn a_banner_that_draws_badly_is_no_failure() {
    assert!(control_banner_failure(BannerFailureKind::Rendering, "slow").is_none());
    let lost = control_banner_failure(BannerFailureKind::TargetLost, "gone").unwrap();
    assert_eq!(lost.code, ComputerUseErrorCode::InvalidTarget);
    let backend = control_banner_failure(BannerFailureKind::Backend, "down").unwrap();
    assert_eq!(backend.code, ComputerUseErrorCode::BackendUnavailable);
    assert_eq!(backend.message, "down");
}

#[test]
fn an_activation_failure_says_its_phase() {
    let session = counting_session();
    let refused: Result<(), ComputerUseError> =
        Err(failed(ComputerUseErrorCode::InputFailed, "refused"));
    let error = session.finish_implicit_activation(refused).unwrap_err();
    assert_eq!(details(&error).phase, Some(ComputerUseErrorPhase::ActivationDispatch));
}

#[test]
fn a_lost_lease_ends_the_keepalive() {
    let owned = r#"{"structuredContent": {"enabled": true, "owner_session": "keepalive"}}"#;
    let mut session = fresh_session("keepalive", false);
    assert!(!session.observe_keepalive(Ok(json(owned))));
    session.recording_keepalive = true;
    session.recording_health = Some(RecordingHealth::new("keepalive"));
    let late = failed(ComputerUseErrorCode::InputFailed, "late");
    assert!(session.observe_keepalive(Err(late)));
    assert!(!session.observe_keepalive(Ok(json(r#"{"structuredContent": {"enabled": false}}"#))));
    assert!(!session.recording_keepalive);
    assert!(session.recording_health.as_ref().expect("health").lease_lost);
    session.recording_keepalive = true;
    session.recording_health = None;
    assert!(!session.observe_keepalive(Ok(json(owned))));
}
