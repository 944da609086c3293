use dcc_cua::client::{
    take_envelope, ConnectionState, FrameOutcome, HostConnection, Receiving,
    MAX_PARALLEL_DISCOVERY_REQUESTS,
};
use dcc_cua::client_batch::{collect_responses, BatchEvent, BatchPhase, BatchStep};
use dcc_cua::client_exchange::{
    CancelPlan, ClientStep, ExchangeEvent, ExchangePhase, ExchangeRun, ExchangeStep, RequestNumber,
};
use dcc_cua::client_protocol::{
    begin_task_session, bind_task_credentials, binary_attachment_length, response_capabilities,
    shared_memory_handoff_slot, validate_shared_memory_batch_handoffs, BatchRequest,
    ChildStderrState, HostClientError, HostClientResult, HostResponse, IdleTimeoutLimits,
    LogicalTaskSession, SnapshotTransport, MAX_CAPTURED_CHILD_STDERR_BYTES,
};
use dcc_cua::json::{parse_json, Json};

fn json(text: &str) -> Json {
    parse_json(text).expect("test JSON")
}

fn bytes(text: &str) -> HostClientResult<Option<Vec<u8>>> {
    Ok(Some(text.as_bytes().to_vec()))
}

fn batched(id: &str, method: &str, params: &str) -> BatchRequest {
    BatchRequest {
        request_id: id.to_owned(),
        method: method.to_owned(),
        params: json(params),
        pipeline_safe: true,
        id_refusal: None,
    }
}

fn text_at(value: &Json, name: &str) -> String {
    value.text_at(name).unwrap_or("").to_owned()
}

fn protocol_message<T>(result: HostClientResult<T>) -> String {
    match result {
        Err(HostClientError::Protocol(message)) => message,
        Err(other) => panic!("unexpected error: {}", other.display_text()),
        Ok(_) => panic!("unexpected success"),
    }
}

fn running(step: ExchangeStep) -> ExchangeRun {
    match step {
        ClientStep::Continue(run) => run,
        ClientStep::Done(Ok(_)) => panic!("the exchange ended early"),
        ClientStep::Done(Err(error)) => panic!("the exchange failed: {}", error.display_text()),
    }
}

fn finished(step: ExchangeStep) -> HostClientResult<HostResponse> {
    match step {
        ClientStep::Done(result) => result,
        ClientStep::Continue(_) => panic!("the exchange goes on"),
    }
}

/// Sends one request and returns the run that awaits its answer, with the
/// envelope that was written.
fn send(
    connection: &mut HostConnection,
    id: Option<&str>,
    method: &str,
    params: &str,
    plan: CancelPlan,
) -> (ExchangeRun, Json) {
    let number = match id {
        None => RequestNumber::Generated,
        Some(id) => RequestNumber::Given { id: id.to_owned(), refusal: None },
    };
    let run = running(connection.begin_exchange(
        number,
        method.to_owned(),
        json(params),
        plan,
    ));
    let run = running(run.advance(connection, ExchangeEvent::Checked(None)));
    let envelope = match &run.phase {
        ExchangePhase::Write { envelope } => envelope.clone(),
        other => panic!("unexpected phase {other:?}"),
    };
    let run = running(run.advance(connection, ExchangeEvent::Written(Ok(()))));
    (run, envelope)
}

fn exchange(
    connection: &mut HostConnection,
    method: &str,
    params: &str,
    answer: impl Fn(&str) -> String,
) -> HostClientResult<HostResponse> {
    let (run, envelope) = send(connection, None, method, params, CancelPlan::Never);
    let frame = answer(&text_at(&envelope, "request_id"));
    finished(run.advance(connection, ExchangeEvent::Frame(bytes(&frame))))
}

fn negotiated(transport: SnapshotTransport) -> HostConnection {
    let mut connection = HostConnection::new(transport);
    let (run, envelope) = {
        let run = running(connection.begin_hello("test-client", 7));
        let run = running(run.advance(&mut connection, ExchangeEvent::Checked(None)));
        let envelope = match &run.phase {
            ExchangePhase::Write { envelope } => envelope.clone(),
            other => panic!("unexpected phase {other:?}"),
        };
        (running(run.advance(&mut connection, ExchangeEvent::Written(Ok(())))), envelope)
    };
    let frame = format!(
        r#"{{"type":"hello","capabilities":["binary_snapshot_frames"],"snapshot_transport":"{}","request_id":"{}"}}"#,
        transport.as_wire_name(),
        text_at(&envelope, "request_id"),
    );
    let hello = finished(run.advance(&mut connection, ExchangeEvent::Frame(bytes(&frame)))).unwrap();
    connection.finish_hello(hello).unwrap();
    connection
}

#[test]
fn client_negotiates_and_reads_binary_attachment() {
    let mut client = negotiated(SnapshotTransport::BinaryFrame);
    assert!(client.supports_capability("binary_snapshot_frames"));
    assert!(!client.supports_capability("missing_capability"));
    let (run, envelope) =
        send(&mut client, None, "desktop_snapshot", "{}", CancelPlan::Never);
    let frame = format!(
        r#"{{"type":"desktop_snapshot","image":{{"encoding":"binary_frame","length":3}},"request_id":"{}"}}"#,
        text_at(&envelope, "request_id"),
    );
    let run = running(run.advance(&mut client, ExchangeEvent::Frame(bytes(&frame))));
    let response = finished(run.advance(&mut client, ExchangeEvent::Frame(bytes("png")))).unwrap();
    assert_eq!(text_at(&response.value, "type"), "desktop_snapshot");
    assert_eq!(response.binary_attachment.as_deref(), Some(b"png".as_slice()));
    assert_eq!(client.state, ConnectionState::Ready);
}

#[test]
fn client_rejects_requests_before_hello() {
    let mut client = HostConnection::new(SnapshotTransport::BinaryFrame);
    let given = || RequestNumber::Given { id: "mine".to_owned(), refusal: None };
    for (number, method) in
        [(RequestNumber::Generated, "ping"), (given(), "ping"), (RequestNumber::Generated, "hello")]
    {
        let step = client.begin_exchange(number, method.to_owned(), json("{}"), CancelPlan::Never);
        assert_eq!(
            protocol_message(finished(step)),
            "hello must complete before stateful requests"
        );
        assert_eq!(client.state, ConnectionState::Ready);
        assert!(!client.hello_complete);
    }
}

#[test]
fn client_ping_uses_the_lightweight_host_route() {
    let mut client = negotiated(SnapshotTransport::BinaryFrame);
    let (run, envelope) = send(&mut client, None, "ping", "{}", CancelPlan::Never);
    assert_eq!(text_at(&envelope, "method"), "ping");
    let frame = format!(
        r#"{{"type":"pong","protocol_version":7,"request_id":"{}"}}"#,
        text_at(&envelope, "request_id"),
    );
    let response =
        finished(run.advance(&mut client, ExchangeEvent::Frame(bytes(&frame)))).unwrap();
    assert_eq!(text_at(&response.value, "type"), "pong");
    assert_eq!(response.value.u64_at("protocol_version"), Some(7));
}

fn limits() -> IdleTimeoutLimits {
    IdleTimeoutLimits { min_ms: 1_000, max_ms: 3_600_000 }
}

fn opened() -> LogicalTaskSession {
    begin_task_session(
        "task-7".to_owned(),
        json(r#"{"task_grant_id":"grant-7","process_id":42,"window_handle":99}"#),
        60_000,
        limits(),
    )
    .unwrap()
    .finish(&json(
        r#"{"type":"session_opened","session_id":"task-7","window_capability":"cap-7","target":{"process_id":42,"window_handle":99,"window_title":"Task"}}"#,
    ))
    .unwrap()
}

#[test]
fn logical_task_reuses_one_connection_and_injects_exact_credentials() {
    let opening = begin_task_session(
        "task-7".to_owned(),
        json(r#"{"task_grant_id":"grant-7","process_id":42,"window_handle":99}"#),
        60_000,
        limits(),
    )
    .unwrap();
    assert_eq!(text_at(&opening.params, "session_id"), "task-7");
    assert_eq!(text_at(opening.params.get("grant").unwrap(), "task_grant_id"), "grant-7");
    assert_eq!(opening.params.u64_at("idle_timeout_ms"), Some(60_000));

    let task = opened();
    assert_eq!(task.session_id(), "task-7");
    assert_eq!(task.task_grant_id(), "grant-7");
    assert_eq!(task.idle_timeout_ms(), 60_000);
    assert_eq!(task.target().u64_at("process_id"), Some(42));
    assert_eq!(task.target().u64_at("window_handle"), Some(99));
    let params = task.request_params("snapshot", json(r#"{"max_depth":4}"#)).unwrap();
    assert_eq!(text_at(&params, "session_id"), "task-7");
    assert_eq!(text_at(&params, "task_grant_id"), "grant-7");
    assert_eq!(text_at(&params, "window_capability"), "cap-7");
    assert_eq!(params.u64_at("max_depth"), Some(4));
    assert_eq!(text_at(&task.stop_params(), "session_id"), "task-7");

    let mut client = negotiated(SnapshotTransport::BinaryFrame);
    for (method, kind) in [("snapshot", "snapshot"), ("stop_session", "session_stopped"), ("ping", "pong")] {
        let response = exchange(&mut client, method, "{}", |id| {
            format!(r#"{{"type":"{kind}","request_id":"{id}"}}"#)
        })
        .unwrap();
        assert_eq!(text_at(&response.value, "type"), kind);
    }
}

#[test]
fn logical_task_rejects_credential_override() {
    let result = bind_task_credentials(
        json(r#"{"session_id":"other"}"#),
        "task-7",
        "grant-7",
        "cap-7",
    );
    assert!(protocol_message(result).contains("cannot override session_id"));
    let result = bind_task_credentials(json(r#"{"task_grant_id":7}"#), "a", "b", "c");
    assert!(protocol_message(result).contains("cannot override task_grant_id"));
    let result = bind_task_credentials(json(r#"{"window_capability":null}"#), "a", "b", "c");
    assert!(protocol_message(result).contains("cannot override window_capability"));
    let result = bind_task_credentials(json("[]"), "a", "b", "c");
    assert!(protocol_message(result).contains("must be a JSON object"));
    let kept = bind_task_credentials(json(r#"{"session_id":"a"}"#), "a", "b", "c").unwrap();
    assert_eq!(text_at(&kept, "session_id"), "a");
    assert_eq!(text_at(&kept, "window_capability"), "c");
}

#[test]
fn task_sessions_manage_their_own_lifecycle() {
    let task = opened();
    for method in ["hello", "open_session", "stop_session"] {
        let message = protocol_message(task.request_params(method, json("{}")));
        assert_eq!(message, format!("{method} is managed by LogicalTaskSession"));
    }
}

#[test]
fn task_sessions_open_only_as_requested() {
    let grant = || json(r#"{"task_grant_id":"grant-7"}"#);
    let message = protocol_message(begin_task_session("t".to_owned(), grant(), 1, limits()));
    assert_eq!(message, "idle_timeout_ms must be between 1000 and 3600000");
    let message = protocol_message(begin_task_session(
        "t".to_owned(),
        json(r#"{"task_grant_id":""}"#),
        60_000,
        limits(),
    ));
    assert!(message.contains("non-empty task_grant_id"));
    let answers = [
        ("{}", "omitted session_id"),
        (r#"{"session_id":"u"}"#, "changed the logical task session id"),
        (r#"{"session_id":"t","window_capability":""}"#, "omitted window_capability"),
        (r#"{"session_id":"t","window_capability":"c","target":3}"#, "omitted target identity"),
        (
            r#"{"session_id":"t","window_capability":"c","target":{"process_id":0,"window_handle":9}}"#,
            "not an exact PID/HWND",
        ),
        (
            r#"{"session_id":"t","window_capability":"c","target":{"process_id":4}}"#,
            "not an exact PID/HWND",
        ),
    ];
    for (answer, expected) in answers {
        let opening = begin_task_session("t".to_owned(), grant(), 60_000, limits()).unwrap();
        let message = protocol_message(opening.finish(&json(answer)));
        assert!(message.contains(expected), "{message}");
    }
}

#[test]
fn shared_memory_batch_rejects_two_image_publishers_for_one_window_session() {
    let requests = vec![
        batched("request-1", "snapshot", r#"{"session_id":"session-1"}"#),
        batched("request-2", "browser_snapshot", r#"{"session_id":"session-1"}"#),
    ];
    assert!(protocol_message(validate_shared_memory_batch_handoffs(
        SnapshotTransport::SharedMemory,
        &requests
    ))
    .contains("shared-memory image"));
    assert!(
        validate_shared_memory_batch_handoffs(SnapshotTransport::BinaryFrame, &requests).is_ok()
    );
    let distinct_sessions = vec![
        batched("request-1", "snapshot", r#"{"session_id":"session-1"}"#),
        batched("request-2", "browser_snapshot", r#"{"session_id":"session-2"}"#),
    ];
    assert!(validate_shared_memory_batch_handoffs(
        SnapshotTransport::SharedMemory,
        &distinct_sessions
    )
    .is_ok());
}

#[test]
fn shared_memory_batch_rejects_two_global_desktop_publishers() {
    let requests = vec![
        batched("request-1", "desktop_snapshot", "{}"),
        batched("request-2", "desktop_snapshot", "{}"),
    ];
    assert!(
        validate_shared_memory_batch_handoffs(SnapshotTransport::SharedMemory, &requests).is_err()
    );
}

#[test]
fn handoff_slots_name_their_publisher() {
    let params = json(r#"{"session_id":"s"}"#);
    assert_eq!(shared_memory_handoff_slot("desktop_snapshot", &params).unwrap(), "desktop:global");
    assert_eq!(shared_memory_handoff_slot("desktop_session_snapshot", &params).unwrap(), "desktop:s");
    assert_eq!(shared_memory_handoff_slot("verify_state", &params).unwrap(), "window:s");
    assert_eq!(shared_memory_handoff_slot("ping", &params), None);
    assert_eq!(shared_memory_handoff_slot("snapshot", &json("{}")), None);
}

#[test]
fn child_stderr_capture_is_bounded_and_reports_only_safe_metadata() {
    let mut state = ChildStderrState::new();
    state.record(&vec![b'x'; MAX_CAPTURED_CHILD_STDERR_BYTES + 4096]);
    let summary = state.summary();
    assert_eq!(state.retained.len(), MAX_CAPTURED_CHILD_STDERR_BYTES);
    assert_eq!(summary.retained_bytes, MAX_CAPTURED_CHILD_STDERR_BYTES);
    assert_eq!(summary.total_bytes, MAX_CAPTURED_CHILD_STDERR_BYTES + 4096);
    assert!(summary.truncated);
    assert!(!summary.read_failed);
    assert!(!format!("{summary:?}").contains("private"));
    assert_eq!(MAX_CAPTURED_CHILD_STDERR_BYTES, 16 * 1024);

    let mut small = ChildStderrState::new();
    small.record(&b"ab".to_vec());
    small.record(&b"cd".to_vec());
    assert_eq!(small.retained, b"abcd");
    assert!(!small.summary().truncated);
}

#[test]
fn client_rejects_malformed_host_capabilities() {
    assert!(response_capabilities(&json(r#"{"capabilities": {}}"#)).is_err());
    assert!(response_capabilities(&json(r#"{"capabilities": ["ok", 1]}"#)).is_err());
    assert_eq!(response_capabilities(&json("{}")).unwrap(), Vec::<String>::new());
    assert_eq!(response_capabilities(&json(r#"{"capabilities": ["a","b"]}"#)).unwrap(), ["a", "b"]);
}

#[test]
fn client_can_negotiate_shared_memory_images() {
    let mut client = HostConnection::new(SnapshotTransport::SharedMemory);
    let run = running(client.begin_hello("shared-memory-client", 7));
    let params = match run.phase {
        ExchangePhase::Check { method, params } => {
            assert_eq!(method, "hello");
            params
        }
        other => panic!("unexpected phase {other:?}"),
    };
    assert_eq!(text_at(&params, "snapshot_transport"), "shared_memory");
    assert_eq!(text_at(&params, "client_name"), "shared-memory-client");
    assert_eq!(params.u64_at("protocol_version"), Some(7));
    let client = negotiated(SnapshotTransport::SharedMemory);
    assert!(client.hello_complete);
}

#[test]
fn client_rejects_duplicate_hello() {
    let mut client = negotiated(SnapshotTransport::SharedMemory);
    let step = client.begin_hello("hello-twice", 7);
    assert!(protocol_message(finished(step)).contains("already completed"));
    assert_eq!(client.state, ConnectionState::Ready);
}

#[test]
fn client_rejects_an_unexpected_hello() {
    let mut client = HostConnection::new(SnapshotTransport::BinaryFrame);
    let response = HostResponse { value: json(r#"{"type":"pong"}"#), binary_attachment: None };
    assert!(protocol_message(client.finish_hello(response)).contains("unexpected type"));
    assert!(!client.hello_complete);
}

#[test]
fn client_preserves_caller_request_id() {
    let mut client = negotiated(SnapshotTransport::BinaryFrame);
    let (run, envelope) =
        send(&mut client, Some("core-task-42"), "screen_size", "{}", CancelPlan::Never);
    assert_eq!(text_at(&envelope, "request_id"), "core-task-42");
    let response = finished(run.advance(
        &mut client,
        ExchangeEvent::Frame(bytes(r#"{"type":"screen_size","request_id":"core-task-42"}"#)),
    ))
    .unwrap();
    assert_eq!(text_at(&response.value, "request_id"), "core-task-42");
}

/// Runs a batch to its end against the given frames, and returns the methods
/// that were written.
fn run_batch(
    client: &mut HostConnection,
    requests: Vec<BatchRequest>,
    frames: &[&str],
) -> (Vec<String>, HostClientResult<Vec<HostClientResult<HostResponse>>>) {
    let mut methods = Vec::new();
    let mut frames = frames.iter();
    let mut step: BatchStep = client.begin_batch(requests);
    loop {
        step = match step {
            ClientStep::Done(result) => return (methods, result),
            ClientStep::Continue(run) => {
                let event = match &run.phase {
                    BatchPhase::Write { envelope } => {
                        methods.push(text_at(envelope, "method"));
                        BatchEvent::Written(Ok(()))
                    }
                    BatchPhase::Flush => BatchEvent::Flushed(Ok(())),
                    BatchPhase::Await { .. } => {
                        BatchEvent::Frame(bytes(frames.next().expect("a frame")))
                    }
                };
                run.advance(client, event)
            }
        };
    }
}

#[test]
fn client_pipelines_read_only_requests_in_order() {
    let mut client = negotiated(SnapshotTransport::BinaryFrame);
    let first = client.next_request_id();
    let second = client.next_request_id();
    let (methods, results) = run_batch(
        &mut client,
        vec![batched(&first, "screen_size", "{}"), batched(&second, "cursor_position", "{}")],
        &[
            &format!(r#"{{"type":"screen_size","request_id":"{first}"}}"#),
            &format!(r#"{{"type":"cursor_position","request_id":"{second}"}}"#),
        ],
    );
    assert_eq!(methods, ["screen_size", "cursor_position"]);
    let responses = collect_responses(results.unwrap()).unwrap();
    assert_eq!(responses.len(), 2);
    assert_eq!(text_at(&responses[0].value, "type"), "screen_size");
    assert_eq!(text_at(&responses[1].value, "type"), "cursor_position");
}

#[test]
fn client_pipelines_caller_request_ids_in_order() {
    let mut client = negotiated(SnapshotTransport::BinaryFrame);
    let (_, results) = run_batch(
        &mut client,
        vec![
            batched("core-read-1", "screen_size", "{}"),
            batched("core-read-2", "cursor_position", "{}"),
        ],
        &[
            r#"{"type":"cursor_position","request_id":"core-read-2"}"#,
            r#"{"type":"screen_size","request_id":"core-read-1"}"#,
        ],
    );
    let responses = collect_responses(results.unwrap()).unwrap();
    assert_eq!(text_at(&responses[0].value, "request_id"), "core-read-1");
    assert_eq!(text_at(&responses[1].value, "request_id"), "core-read-2");
    assert_eq!(client.state, ConnectionState::Ready);
    assert!(client.outstanding.is_empty());
    assert!(client.pending.is_empty());
}

#[test]
fn client_batch_all_drains_remote_errors() {
    let mut client = negotiated(SnapshotTransport::BinaryFrame);
    let (_, results) = run_batch(
        &mut client,
        vec![
            batched("read-error", "screen_size", "{}"),
            batched("read-ok", "cursor_position", "{}"),
        ],
        &[
            r#"{"type":"cursor_position","request_id":"read-ok"}"#,
            r#"{"type":"error","code":"not_ready","message":"try again","request_id":"read-error"}"#,
        ],
    );
    let results = results.unwrap();
    assert!(matches!(
        &results[0],
        Err(HostClientError::Remote { code, message, .. })
            if code == "not_ready" && message == "try again"
    ));
    assert_eq!(text_at(&results[1].as_ref().unwrap().value, "request_id"), "read-ok");
    assert!(matches!(
        collect_responses(results),
        Err(HostClientError::Remote { code, .. }) if code == "not_ready"
    ));
}

#[test]
fn client_rejects_mutations_from_request_batch() {
    let mut client = negotiated(SnapshotTransport::SharedMemory);
    let mut mutation = batched("m", "execute_action", "{}");
    mutation.pipeline_safe = false;
    let (_, result) = run_batch(&mut client, vec![mutation], &[]);
    assert!(protocol_message(result).contains("read-only"));

    let mut nameless = batched("", "screen_size", "{}");
    nameless.id_refusal = Some("request_id must have 1..=128 characters".to_owned());
    let (_, result) = run_batch(&mut client, vec![nameless], &[]);
    assert!(protocol_message(result).contains("1.."));

    let (_, result) = run_batch(
        &mut client,
        vec![
            batched("duplicate", "screen_size", "{}"),
            batched("duplicate", "cursor_position", "{}"),
        ],
        &[],
    );
    assert!(protocol_message(result).contains("duplicate"));
    assert_eq!(client.state, ConnectionState::Ready);
}

#[test]
fn client_bounds_one_parallel_discovery_batch() {
    let mut client = negotiated(SnapshotTransport::SharedMemory);
    let requests = (0..=MAX_PARALLEL_DISCOVERY_REQUESTS)
        .map(|index| batched(&format!("ping-{index}"), "ping", "{}"))
        .collect::<Vec<_>>();
    let (_, result) = run_batch(&mut client, requests, &[]);
    assert!(protocol_message(result).contains("at most 32"));
}

#[test]
fn an_empty_batch_sends_nothing() {
    let mut client = negotiated(SnapshotTransport::BinaryFrame);
    let (methods, results) = run_batch(&mut client, Vec::new(), &[]);
    assert!(methods.is_empty());
    assert!(results.unwrap().is_empty());
    assert_eq!(client.state, ConnectionState::Ready);
}

#[test]
fn client_can_cancel_wait_on_the_same_connection() {
    let mut client = negotiated(SnapshotTransport::BinaryFrame);
    let cancel = json(r#"{"session_id":"s","task_grant_id":"grant","window_capability":"cap"}"#);
    let (run, wait) = send(
        &mut client,
        None,
        "wait_for",
        r#"{"session_id":"s"}"#,
        CancelPlan::Request { params: cancel },
    );
    let run = running(run.advance(&mut client, ExchangeEvent::Cancelled));
    let run = running(run.advance(&mut client, ExchangeEvent::Checked(None)));
    let envelope = match &run.phase {
        ExchangePhase::WriteCancel { envelope, .. } => envelope.clone(),
        other => panic!("unexpected phase {other:?}"),
    };
    assert_eq!(text_at(&envelope, "method"), "cancel");
    assert_eq!(text_at(envelope.get("params").unwrap(), "window_capability"), "cap");
    let run = running(run.advance(&mut client, ExchangeEvent::Written(Ok(()))));
    let frame = format!(
        r#"{{"type":"wait_cancel_requested","request_id":"{}"}}"#,
        text_at(&envelope, "request_id"),
    );
    let run = running(run.advance(&mut client, ExchangeEvent::Frame(bytes(&frame))));
    let frame = format!(
        r#"{{"type":"wait_cancelled","request_id":"{}"}}"#,
        text_at(&wait, "request_id"),
    );
    let response = finished(run.advance(&mut client, ExchangeEvent::Frame(bytes(&frame)))).unwrap();
    assert_eq!(text_at(&response.value, "type"), "wait_cancelled");
    assert_eq!(client.state, ConnectionState::Ready);
}

#[test]
fn client_can_cancel_window_wait_with_generated_request_id() {
    let mut client = negotiated(SnapshotTransport::BinaryFrame);
    let (run, wait) = send(
        &mut client,
        None,
        "wait_for_window",
        r#"{"query":{"app":"UE5Editor.exe"},"timeout_ms":30000}"#,
        CancelPlan::WindowWait,
    );
    let run = running(run.advance(&mut client, ExchangeEvent::Cancelled));
    let run = running(run.advance(&mut client, ExchangeEvent::Checked(None)));
    let envelope = match &run.phase {
        ExchangePhase::WriteCancel { envelope, .. } => envelope.clone(),
        other => panic!("unexpected phase {other:?}"),
    };
    assert_eq!(text_at(&envelope, "method"), "cancel_window_wait");
    assert_eq!(
        text_at(envelope.get("params").unwrap(), "wait_id"),
        text_at(&wait, "request_id")
    );
    let run = running(run.advance(&mut client, ExchangeEvent::Written(Ok(()))));
    // The wait's own answer comes first and is kept for it.
    let frame = format!(
        r#"{{"type":"window_wait_cancelled","request_id":"{}"}}"#,
        text_at(&wait, "request_id"),
    );
    let run = running(run.advance(&mut client, ExchangeEvent::Frame(bytes(&frame))));
    let frame = format!(
        r#"{{"type":"window_wait_cancel_requested","request_id":"{}"}}"#,
        text_at(&envelope, "request_id"),
    );
    let response = finished(run.advance(&mut client, ExchangeEvent::Frame(bytes(&frame)))).unwrap();
    assert_eq!(text_at(&response.value, "type"), "window_wait_cancelled");
}

#[test]
fn timed_out_request_fails_closed_before_a_partial_frame_can_be_reused() {
    let mut client = negotiated(SnapshotTransport::BinaryFrame);
    let _ = send(&mut client, None, "screen_size", "{}", CancelPlan::Never);
    assert!(matches!(
        client.time_out_request_operation(20),
        HostClientError::Timeout { timeout_ms: 20 }
    ));
    for method in ["ping", "screen_size", "ping"] {
        let next_request_id = client.next_request_id;
        let step = client.begin_exchange(
            RequestNumber::Generated,
            method.to_owned(),
            json("{}"),
            CancelPlan::Never,
        );
        assert!(protocol_message(finished(step)).contains("reconnect"));
        assert_eq!(client.state, ConnectionState::Unusable);
        assert_eq!(client.next_request_id, next_request_id);
    }
}

#[test]
fn externally_cancelled_request_marks_the_connection_unusable() {
    let mut client = negotiated(SnapshotTransport::BinaryFrame);
    let _ = send(&mut client, None, "screen_size", "{}", CancelPlan::Never);
    let step = client.begin_exchange(
            RequestNumber::Generated,
            "ping".to_owned(),
            json("{}"),
            CancelPlan::Never,
        );
    assert!(protocol_message(finished(step)).contains("already in flight"));
    client.abandon_request_operation();
    for _ in 0..2 {
        let step = client.begin_exchange(
            RequestNumber::Generated,
            "ping".to_owned(),
            json("{}"),
            CancelPlan::Never,
        );
        assert!(protocol_message(finished(step)).contains("reconnect"));
        assert_eq!(client.state, ConnectionState::Unusable);
    }
}

#[test]
fn client_rejects_an_untracked_response_id_instead_of_buffering_it() {
    let mut client = negotiated(SnapshotTransport::BinaryFrame);
    let result = exchange(&mut client, "screen_size", "{}", |_| {
        r#"{"type":"screen_size","request_id":"untracked-response"}"#.to_owned()
    });
    assert!(protocol_message(result).contains("untracked request_id"));
    assert!(client.pending.is_empty());
    assert_eq!(client.state, ConnectionState::Unusable);
}

#[test]
fn broken_responses_close_the_connection() {
    let cases: Vec<(HostClientResult<Option<Vec<u8>>>, &str)> = vec![
        (Ok(None), "Host closed the connection"),
        (bytes("not json"), "expected"),
        (bytes(r#"{"type":"pong"}"#), "Host response omitted request_id"),
    ];
    for (frame, expected) in cases {
        let mut client = negotiated(SnapshotTransport::BinaryFrame);
        let (run, _) = send(&mut client, None, "ping", "{}", CancelPlan::Never);
        let message = protocol_message(finished(run.advance(&mut client, ExchangeEvent::Frame(frame))));
        assert!(message.contains(expected), "{message}");
        assert_eq!(client.state, ConnectionState::Unusable);
    }
    let mut client = negotiated(SnapshotTransport::BinaryFrame);
    let (run, _) = send(&mut client, None, "ping", "{}", CancelPlan::Never);
    let failed = finished(run.advance(
        &mut client,
        ExchangeEvent::Frame(Err(HostClientError::Io("reset".to_owned()))),
    ));
    assert!(matches!(failed, Err(HostClientError::Io(message)) if message == "reset"));
    assert_eq!(client.state, ConnectionState::Unusable);
}

#[test]
fn attachments_have_the_advertised_length() {
    let mut client = negotiated(SnapshotTransport::BinaryFrame);
    let (run, envelope) = send(&mut client, None, "snapshot", "{}", CancelPlan::Never);
    let frame = format!(
        r#"{{"attachments":[{{"encoding":"binary_frame","offset":2,"length":3}}],"request_id":"{}"}}"#,
        text_at(&envelope, "request_id"),
    );
    let run = running(run.advance(&mut client, ExchangeEvent::Frame(bytes(&frame))));
    let result = finished(run.advance(&mut client, ExchangeEvent::Frame(bytes("four"))));
    assert_eq!(
        protocol_message(result),
        "binary attachment length 4 does not match advertised length 5"
    );
}

#[test]
fn attachment_lengths_span_every_binary_part() {
    let length = |text: &str| binary_attachment_length(&json(text));
    assert_eq!(length("{}"), None);
    assert_eq!(length(r#"{"attachments":[]}"#), None);
    assert_eq!(
        length(
            r#"{"attachments":[{"encoding":"binary_frame","offset":0,"length":10},{"encoding":"base64"},{"encoding":"binary_frame","offset":10,"length":5}]}"#
        ),
        Some(15)
    );
    assert_eq!(length(r#"{"attachments":[{"encoding":"binary_frame","offset":0}]}"#), None);
    assert_eq!(
        length(
            r#"{"attachments":[{"encoding":"binary_frame","offset":18446744073709551615,"length":1}]}"#
        ),
        None
    );
    assert_eq!(length(r#"{"image":{"encoding":"binary_frame","length":3}}"#), Some(3));
    assert_eq!(length(r#"{"image":{"encoding":"shared_memory","length":3}}"#), None);
}

#[test]
fn remote_refusals_keep_the_connection_ready() {
    let mut client = negotiated(SnapshotTransport::BinaryFrame);
    let result = exchange(&mut client, "snapshot", "{}", |id| {
        format!(r#"{{"type":"error","request_id":"{id}"}}"#)
    });
    match result {
        Err(error) => assert_eq!(error.display_text(), "host returned host_error: Host returned an error"),
        Ok(_) => panic!("an error response is an error"),
    }
    assert_eq!(client.state, ConnectionState::Ready);
}

#[test]
fn generated_request_ids_count_up() {
    let mut client = HostConnection::new(SnapshotTransport::BinaryFrame);
    assert_eq!(client.next_request_id(), "cua-client-1");
    assert_eq!(client.next_request_id(), "cua-client-2");
    client.next_request_id = u64::MAX;
    assert_eq!(client.next_request_id(), "cua-client-18446744073709551615");
    assert_eq!(client.next_request_id, u64::MAX);
}

#[test]
fn numbers_in_flight_cannot_be_taken_twice() {
    let mut client = negotiated(SnapshotTransport::BinaryFrame);
    client.register_outstanding_request("a").unwrap();
    assert_eq!(
        protocol_message(client.register_outstanding_request("a")),
        "request_id a is already in flight"
    );
    for index in 1..MAX_PARALLEL_DISCOVERY_REQUESTS {
        client.register_outstanding_request(&format!("id-{index}")).unwrap();
    }
    assert_eq!(
        protocol_message(client.register_outstanding_request("one-more")),
        "one client operation tracks at most 32 request ids"
    );
}

#[test]
fn client_errors_say_what_failed() {
    assert_eq!(
        HostClientError::Io("broken pipe".to_owned()).display_text(),
        "host transport failed: broken pipe"
    );
    assert_eq!(
        HostClientError::Protocol("bad".to_owned()).display_text(),
        "host protocol failed: bad"
    );
    assert_eq!(
        HostClientError::Timeout { timeout_ms: 20 }.display_text(),
        "host request timed out after 20 ms; reconnect before sending another request"
    );
}

#[test]
fn an_envelope_is_taken_in_whether_or_not_it_parsed() {
    match take_envelope(Ok(json(r#"{"type":"pong","request_id":"r-1"}"#))) {
        FrameOutcome::Response(response) => {
            assert_eq!(response.request_id, "r-1");
            assert!(response.binary_attachment.is_none());
        }
        other => panic!("unexpected outcome {other:?}"),
    }
    match take_envelope(Ok(json("{}"))) {
        FrameOutcome::Failed(HostClientError::Protocol(message)) => {
            assert_eq!(message, "Host response omitted request_id");
        }
        other => panic!("unexpected outcome {other:?}"),
    }
    match take_envelope(Err("no JSON".to_owned())) {
        FrameOutcome::Failed(HostClientError::Protocol(message)) => assert_eq!(message, "no JSON"),
        other => panic!("unexpected outcome {other:?}"),
    }
    let parsed = json(
        r#"{"request_id":"r-1","attachments":[{"encoding":"binary_frame","offset":0,"length":3}]}"#,
    );
    match take_envelope(Ok(parsed)) {
        FrameOutcome::More(Receiving::Attachment { length, .. }) => assert_eq!(length, 3),
        other => panic!("unexpected outcome {other:?}"),
    }
}

#[test]
fn a_refused_number_of_the_caller_leaves_the_connection_ready() {
    let mut client = negotiated(SnapshotTransport::BinaryFrame);
    let number = RequestNumber::Given {
        id: String::new(),
        refusal: Some("request_id must not be empty".to_owned()),
    };
    let step = client.begin_exchange(number, "ping".to_owned(), json("{}"), CancelPlan::Never);
    assert_eq!(protocol_message(finished(step)), "request_id must not be empty");
    assert_eq!(client.state, ConnectionState::Ready);
}
