use dcc_cua::driver::ActionCompletion;
use dcc_cua::json::{parse_json, Json};
use dcc_cua::private_worker::{
    begin_private_worker, ChannelRequest, ChannelResponse, WorkerEvent, WorkerPhase, WorkerRun,
    WorkerStep,
};

const VERSION: u32 = 3;
const GENERATION: &str = "gen-1";

fn json(text: &str) -> Json {
    parse_json(text).expect("test JSON")
}

fn request(id: u64, operation: &str) -> ChannelRequest {
    ChannelRequest {
        protocol_version: VERSION,
        request_id: id,
        generation: GENERATION.to_owned(),
        operation: operation.to_owned(),
        name: None,
        session_handle: None,
        arguments: None,
    }
}

fn line(request: ChannelRequest) -> WorkerEvent {
    WorkerEvent::Line(Ok(request))
}

fn served(step: WorkerStep) -> (WorkerRun, Option<ChannelResponse>) {
    match step {
        WorkerStep::Serve { run, response } => (run, response),
        WorkerStep::End { result, .. } => panic!("the worker ended: {result:?}"),
    }
}

fn ended(step: WorkerStep) -> (Option<ChannelResponse>, Result<(), String>) {
    match step {
        WorkerStep::End { response, result } => (response, result),
        WorkerStep::Serve { .. } => panic!("the worker goes on"),
    }
}

fn failure(response: Option<ChannelResponse>) -> (u64, String, String, ActionCompletion) {
    let response = response.expect("a response");
    let failure = response.outcome.expect_err("a failure");
    (response.request_id, failure.code, failure.message, failure.completion)
}

fn value(response: Option<ChannelResponse>) -> (u64, Json) {
    let response = response.expect("a response");
    assert_eq!(response.generation, GENERATION);
    (response.request_id, response.outcome.expect("a value"))
}

fn started() -> WorkerRun {
    begin_private_worker(GENERATION.to_owned(), VERSION).unwrap()
}

fn idle() -> WorkerRun {
    let mut initialize = request(0, "initialize");
    initialize.arguments = Some(json(r#"{"host_bundle_id":"com.example.host"}"#));
    let (run, _) = served(started().advance(line(initialize)));
    let (run, _) = served(run.advance(WorkerEvent::Options(Ok("com.example.host".to_owned()))));
    let (run, _) = served(run.advance(WorkerEvent::Theme(Ok(()))));
    let (run, _) = served(run.advance(WorkerEvent::Driver(Ok(()))));
    let (run, ready) = served(run.advance(WorkerEvent::Metadata {
        metadata: Ok(json(r#"{"version":"1"}"#)),
        process_id: 42,
    }));
    let (id, ready) = value(ready);
    assert_eq!(id, 0);
    assert_eq!(ready.bool_at("ready"), Some(true));
    assert_eq!(ready.u64_at("pid"), Some(42));
    assert_eq!(ready.text_at("host_bundle_id"), Some("com.example.host"));
    assert_eq!(ready.get("metadata").unwrap().text_at("version"), Some("1"));
    assert!(matches!(run.phase, WorkerPhase::Idle));
    run
}

fn bind(run: WorkerRun, id: u64) -> (WorkerRun, String) {
    let mut bind = request(id, "bind_session");
    bind.arguments = Some(json("{}"));
    let (run, response) = served(run.advance(line(bind)));
    assert!(response.is_none());
    assert!(matches!(run.phase, WorkerPhase::Bind { .. }));
    let (run, response) = served(run.advance(WorkerEvent::Done(Ok(()))));
    let (answered, value) = value(response);
    assert_eq!(answered, id);
    let handle = value.text_at("session_handle").unwrap().to_owned();
    (run, handle)
}

#[test]
fn generations_are_short_plain_names() {
    for name in ["", "a b", "a_b", "ä", &"x".repeat(129)] {
        assert_eq!(
            begin_private_worker(name.to_owned(), VERSION).unwrap_err(),
            "private worker requires one valid --generation value"
        );
    }
    assert!(begin_private_worker("x".repeat(128), VERSION).is_ok());
    assert!(begin_private_worker("A-9".to_owned(), VERSION).is_ok());
}

#[test]
fn a_channel_that_closes_before_its_first_line_is_no_failure() {
    let (response, result) = ended(started().advance(WorkerEvent::End));
    assert!(response.is_none());
    assert!(result.is_ok());
    let (_, result) = ended(started().advance(WorkerEvent::Broken("read".to_owned())));
    assert_eq!(result.unwrap_err(), "read");
    let (_, result) = ended(started().advance(WorkerEvent::Line(Err("syntax".to_owned()))));
    assert_eq!(result.unwrap_err(), "syntax");
}

#[test]
fn initialization_names_this_very_worker() {
    let mut other = request(7, "initialize");
    other.arguments = Some(json("{}"));
    let (response, result) = ended(started().advance(line(other)));
    assert!(result.is_ok());
    let (id, code, message, completion) = failure(response);
    assert_eq!(id, 7);
    assert_eq!(code, "invalid_initialization");
    assert_eq!(message, "private worker initialization identity mismatch");
    assert_eq!(completion, ActionCompletion::NotStarted);

    let (response, result) = ended(started().advance(line(request(0, "initialize"))));
    assert!(response.is_none());
    assert_eq!(result.unwrap_err(), "private worker initialization omitted options");

    let mut initialize = request(0, "initialize");
    initialize.arguments = Some(json("{}"));
    let (run, _) = served(started().advance(line(initialize)));
    let (response, result) = ended(run.advance(WorkerEvent::Options(Ok("  ".to_owned()))));
    assert!(result.is_ok());
    assert_eq!(failure(response).2, "private worker host identity is empty");
}

#[test]
fn a_driver_that_cannot_be_made_is_reported() {
    let mut initialize = request(0, "initialize");
    initialize.arguments = Some(json("{}"));
    let (run, _) = served(started().advance(line(initialize)));
    let (run, _) = served(run.advance(WorkerEvent::Options(Ok("host".to_owned()))));
    let (run, _) = served(run.advance(WorkerEvent::Theme(Ok(()))));
    let (response, result) = ended(run.advance(WorkerEvent::Driver(Err("no display".to_owned()))));
    assert!(result.is_ok());
    let (id, code, message, _) = failure(response);
    assert_eq!((id, code.as_str(), message.as_str()), (0, "runtime_initialization_failed", "no display"));
}

#[test]
fn requests_of_other_generations_are_turned_away() {
    let mut foreign = request(5, "metadata");
    foreign.generation = "gen-2".to_owned();
    let (run, response) = served(idle().advance(line(foreign)));
    let (id, code, _, completion) = failure(response);
    assert_eq!((id, code.as_str()), (5, "generation_mismatch"));
    assert_eq!(completion, ActionCompletion::NotStarted);
    assert!(matches!(run.phase, WorkerPhase::Idle));

    let (_, response) = served(run.advance(WorkerEvent::Line(Err("eof".to_owned()))));
    let (id, code, message, _) = failure(response);
    assert_eq!((id, code.as_str()), (0, "invalid_request"));
    assert_eq!(message, "parse private worker request: eof");
}

#[test]
fn metadata_and_tools_are_read_from_the_driver() {
    let (run, _) = served(idle().advance(line(request(1, "metadata"))));
    let (run, response) = served(run.advance(WorkerEvent::Metadata {
        metadata: Ok(json(r#"{"version":"2"}"#)),
        process_id: 42,
    }));
    assert_eq!(value(response).1.text_at("version"), Some("2"));
    let (run, _) = served(run.advance(line(request(2, "list"))));
    let (run, response) =
        served(run.advance(WorkerEvent::Text(Ok(r#"{"tools":[]}"#.to_owned()))));
    let (id, tools) = value(response);
    assert_eq!(id, 2);
    assert!(tools.get("tools").unwrap().as_array().unwrap().is_empty());
    let (run, _) = served(run.advance(line(request(3, "list"))));
    let (_, response) = served(run.advance(WorkerEvent::Text(Ok("not json".to_owned()))));
    let (id, code, message, completion) = failure(response);
    assert_eq!((id, code.as_str()), (3, "worker_request_failed"));
    assert!(message.contains("expected"));
    assert_eq!(completion, ActionCompletion::Completed);
}

#[test]
fn calls_reach_only_live_sessions() {
    let mut call = request(1, "call");
    call.session_handle = Some("nobody".to_owned());
    let (run, response) = served(idle().advance(line(call)));
    let (_, code, _, completion) = failure(response);
    assert_eq!(code, "session_not_bound");
    assert_eq!(completion, ActionCompletion::NotStarted);

    let (run, handle) = bind(run, 2);
    assert_eq!(handle.len(), 36);
    for (at, c) in handle.chars().enumerate() {
        if [8, 13, 18, 23].contains(&at) {
            assert_eq!(c, '-');
        } else {
            assert!(c.is_ascii_digit() || ('a'..='f').contains(&c));
        }
    }
    let (run, other) = bind(run, 3);
    assert_ne!(handle, other);
    let mut call = request(4, "call");
    call.session_handle = Some(handle.clone());
    call.name = Some("click".to_owned());
    call.arguments = Some(json(r#"{"x":1}"#));
    let (run, response) = served(run.advance(line(call)));
    assert!(response.is_none());
    match &run.phase {
        WorkerPhase::CallSession { handle: called, name, arguments, .. } => {
            assert_eq!(called, &handle);
            assert_eq!(name, "click");
            assert_eq!(arguments.u64_at("x"), Some(1));
        }
        other => panic!("unexpected phase {other:?}"),
    }
    let (run, response) = served(run.advance(WorkerEvent::Text(Ok(r#"{"ok":true}"#.to_owned()))));
    assert_eq!(value(response).1.bool_at("ok"), Some(true));

    let mut close = request(5, "close_session");
    close.session_handle = Some(handle.clone());
    let (run, response) = served(run.advance(line(close)));
    assert!(response.is_none());
    assert_eq!(run.handles, [other.clone()]);
    let (run, response) = served(run.advance(WorkerEvent::Done(Ok(()))));
    assert_eq!(value(response).1.bool_at("closed"), Some(true));

    let mut again = request(6, "close_session");
    again.session_handle = Some(handle.clone());
    let (run, response) = served(run.advance(line(again)));
    assert_eq!(value(response).1.bool_at("closed"), Some(true));
    let mut call = request(7, "call");
    call.session_handle = Some(handle);
    let (_, response) = served(run.advance(line(call)));
    assert_eq!(failure(response).1, "session_not_bound");
}

#[test]
fn calls_without_a_session_go_to_the_driver() {
    let (run, response) = served(idle().advance(line(request(1, "call"))));
    assert!(response.is_none());
    match &run.phase {
        WorkerPhase::CallDriver { name, arguments, .. } => {
            assert_eq!(name, "");
            assert!(arguments.is_object());
        }
        other => panic!("unexpected phase {other:?}"),
    }
}

#[test]
fn malformed_requests_are_answered() {
    let (run, response) = served(idle().advance(line(request(1, "bind_session"))));
    assert_eq!(failure(response).2, "bind_session omitted options");
    let (run, response) = served(run.advance(line(request(2, "close_session"))));
    let (_, code, message, _) = failure(response);
    assert_eq!(code, "invalid_request");
    assert_eq!(message, "close_session omitted session_handle");
    let (run, response) = served(run.advance(line(request(3, "dance"))));
    let (_, code, message, completion) = failure(response);
    assert_eq!(code, "worker_request_failed");
    assert_eq!(message, "unknown private worker operation: dance");
    assert_eq!(completion, ActionCompletion::Completed);
    let mut bind = request(4, "bind_session");
    bind.arguments = Some(json("{}"));
    let (run, _) = served(run.advance(line(bind)));
    let (run, response) = served(run.advance(WorkerEvent::Done(Err("refused".to_owned()))));
    assert_eq!(failure(response).2, "refused");
    assert!(run.handles.is_empty());
}

#[test]
fn shutdown_drops_every_session_and_ends_the_service() {
    let (run, _) = bind(idle(), 1);
    let (run, response) = served(run.advance(line(request(2, "shutdown"))));
    assert!(response.is_none());
    assert!(run.handles.is_empty());
    let (run, response) = served(run.advance(WorkerEvent::Done(Ok(()))));
    assert_eq!(value(response).1.bool_at("shutdown"), Some(true));
    assert!(matches!(run.phase, WorkerPhase::Closing));
    let (response, result) = ended(run.advance(WorkerEvent::Done(Ok(()))));
    assert!(response.is_none());
    assert!(result.is_ok());

    let (run, _) = bind(idle(), 1);
    let (run, _) = served(run.advance(line(request(2, "shutdown"))));
    let (run, response) = served(run.advance(WorkerEvent::Done(Err("busy".to_owned()))));
    assert_eq!(failure(response).2, "busy");
    assert!(matches!(run.phase, WorkerPhase::Idle));
}

#[test]
fn a_closed_channel_shuts_the_driver_down() {
    let (run, _) = bind(idle(), 1);
    let (run, response) = served(run.advance(WorkerEvent::End));
    assert!(response.is_none());
    assert!(run.handles.is_empty());
    let (_, result) = ended(run.advance(WorkerEvent::Done(Err("late".to_owned()))));
    assert_eq!(result.unwrap_err(), "late");
}

#[test]
fn answers_to_nothing_change_nothing() {
    let (run, response) = served(idle().advance(WorkerEvent::Done(Ok(()))));
    assert!(response.is_none());
    assert!(matches!(run.phase, WorkerPhase::Idle));
}
