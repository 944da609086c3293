use dcc_cua::dcc_http::{
    content_length, header_end, length_in_text, lines_of, parse_number, parse_response,
    read_response, request_head, response_complete, take_response_chunk, ChunkOutcome, HttpResponse,
};
use dcc_cua::dcc_tools::{
    check_unreal_body, effective_timeout_ms, is_safe_remote_path, oversized_reply,
    plan_maya_command, plan_unreal_call, require_object, require_port, take_reply_chunk,
    DccExchange, MAX_DCC_REPLY_BYTES, MAX_MAYA_COMMAND_BYTES, MAX_UNREAL_BODY_BYTES,
};
use dcc_cua::json::{parse_json, Json};

fn json(text: &str) -> Json {
    parse_json(text).expect("test JSON")
}

#[test]
fn calls_need_an_object_with_a_usable_port() {
    assert_eq!(require_object(&json("[]")).unwrap_err(), "arguments must be a JSON object");
    assert!(require_object(&json("{}")).is_ok());
    for bad in ["{}", r#"{"port":0}"#, r#"{"port":65536}"#, r#"{"port":"80"}"#, r#"{"port":-1}"#] {
        assert_eq!(require_port(&json(bad)).unwrap_err(), "port must be an integer in 1..65535");
    }
    assert_eq!(require_port(&json(r#"{"port":65535}"#)).unwrap(), 65535);
}

#[test]
fn timeouts_stay_below_the_ceiling() {
    assert_eq!(effective_timeout_ms(&json("{}")).unwrap(), 15_000);
    assert_eq!(effective_timeout_ms(&json(r#"{"timeout_ms":null}"#)).unwrap(), 15_000);
    assert_eq!(effective_timeout_ms(&json(r#"{"timeout_ms":60000}"#)).unwrap(), 60_000);
    assert_eq!(effective_timeout_ms(&json(r#"{"timeout_ms":1}"#)).unwrap(), 1);
    assert_eq!(effective_timeout_ms(&json(r#"{"timeout_ms":60001}"#)).unwrap(), 60_000);
    assert_eq!(effective_timeout_ms(&json(r#"{"timeout_ms":120000}"#)).unwrap(), 60_000);
    let call =
        plan_maya_command(&json(r#"{"port":7001,"command":"ls","timeout_ms":120000}"#)).unwrap();
    assert_eq!(call.timeout_ms, 60_000);
    for bad in [r#"{"timeout_ms":0}"#, r#"{"timeout_ms":-1}"#, r#"{"timeout_ms":1.5}"#] {
        assert_eq!(
            effective_timeout_ms(&json(bad)).unwrap_err(),
            "timeout_ms must be an integer in 1..60000"
        );
    }
}

#[test]
fn maya_commands_are_checked_before_they_are_sent() {
    let call = plan_maya_command(&json(r#"{"port":7001,"command":"ls"}"#)).unwrap();
    assert_eq!((call.port, call.timeout_ms, call.command.as_str()), (7001, 15_000, "ls"));
    assert_eq!(
        plan_maya_command(&json(r#"{"port":7001,"command":""}"#)).unwrap_err(),
        "command must be a non-empty string"
    );
    let long = format!(r#"{{"port":7001,"command":"{}"}}"#, "x".repeat(MAX_MAYA_COMMAND_BYTES + 1));
    assert_eq!(plan_maya_command(&json(&long)).unwrap_err(), "command exceeds 65536 bytes");
    assert!(plan_maya_command(&json("3")).is_err());
}

#[test]
fn maya_replies_end_with_a_zero_byte() {
    let mut reply = Vec::new();
    assert_eq!(take_reply_chunk(&mut reply, &b"hello ".to_vec()), ChunkOutcome::More);
    assert_eq!(take_reply_chunk(&mut reply, &b"world\n\0rest".to_vec()), ChunkOutcome::Complete);
    assert_eq!(reply, b"hello world\n");
    let call = plan_maya_command(&json(r#"{"port":7001,"command":"ls"}"#)).unwrap();
    let result = call.finish(DccExchange::Replied(reply)).unwrap();
    assert_eq!(result.text, "hello world");
    assert_eq!(result.structured.u64_at("port"), Some(7001));
    assert_eq!(result.structured.text_at("reply"), Some("hello world"));

    let mut large = vec![b'x'; MAX_DCC_REPLY_BYTES];
    assert_eq!(take_reply_chunk(&mut large, &b"y".to_vec()), ChunkOutcome::TooLarge);
    assert_eq!(oversized_reply(MAX_DCC_REPLY_BYTES), "reply exceeds 1048576 bytes");
}

#[test]
fn bytes_that_are_no_text_are_replaced() {
    let call = plan_maya_command(&json(r#"{"port":7001,"command":"ls"}"#)).unwrap();
    let decoded = call.reply("shape1\n ");
    assert_eq!(decoded.text, "shape1");
    assert_eq!(decoded.structured.text_at("reply"), Some("shape1"));
    let result = call.finish(DccExchange::Replied(vec![b'a', 0xff, b'b'])).unwrap();
    assert_eq!(result.text, "a\u{fffd}b");
}

#[test]
fn maya_failures_say_what_to_do() {
    let call = plan_maya_command(&json(r#"{"port":7001,"command":"ls","timeout_ms":5}"#)).unwrap();
    assert_eq!(
        call.finish(DccExchange::TimedOut).unwrap_err(),
        "maya_command timed out after 5 ms (dcc_typed_timeout)"
    );
    assert_eq!(
        call.finish(DccExchange::Failed("refused".to_owned())).unwrap_err(),
        "maya commandPort on 127.0.0.1:7001 failed: refused (dcc_typed_unreachable)"
    );
}

#[test]
fn remote_paths_stay_in_their_namespace() {
    assert!(is_safe_remote_path("/remote/object/call?x=1&y=%20"));
    for bad in ["/other/", "remote/x", "/remote/a b", "/remote/\u{e4}", "/remote/a\r\nHost: b"] {
        assert!(!is_safe_remote_path(bad), "{bad}");
    }
    assert!(is_safe_remote_path(&format!("/remote/{}", "a".repeat(504))));
    assert!(!is_safe_remote_path(&format!("/remote/{}", "a".repeat(505))));
}

#[test]
fn unreal_calls_are_checked_before_they_are_sent() {
    let call = plan_unreal_call(&json(
        r#"{"port":30010,"method":"PUT","path":"/remote/object/call","body":{"a":1}}"#,
    ))
    .unwrap();
    assert_eq!(call.method, "PUT");
    assert_eq!(call.path, "/remote/object/call");
    assert_eq!(call.body.unwrap().u64_at("a"), Some(1));
    let refused = |text: &str| plan_unreal_call(&json(text)).unwrap_err();
    assert_eq!(
        refused(r#"{"port":30010,"method":"DELETE","path":"/remote/x"}"#),
        "method must be one of GET, PUT, POST"
    );
    assert_eq!(
        refused(r#"{"port":30010,"method":"GET","path":"/etc"}"#),
        "path must start with /remote/ and contain only URL-safe characters"
    );
    assert_eq!(
        refused(r#"{"port":30010,"method":"GET","path":"/remote/x","body":[1]}"#),
        "body must be a JSON object"
    );
    assert!(plan_unreal_call(&json(r#"{"port":1,"method":"GET","path":"/remote/x","body":null}"#))
        .unwrap()
        .body
        .is_none());
    assert!(check_unreal_body(&vec![0; MAX_UNREAL_BODY_BYTES]).is_ok());
    assert_eq!(
        check_unreal_body(&vec![0; MAX_UNREAL_BODY_BYTES + 1]).unwrap_err(),
        "body exceeds 262144 bytes"
    );
}

#[test]
fn unreal_responses_become_structured_replies() {
    let call =
        plan_unreal_call(&json(r#"{"port":30010,"method":"GET","path":"/remote/x"}"#)).unwrap();
    let reply = call
        .finish(DccExchange::Replied(HttpResponse { status: 200, body: b"{\"v\":2}".to_vec() }))
        .unwrap();
    assert!(!reply.is_error);
    assert_eq!(reply.structured.u64_at("status"), Some(200));
    assert_eq!(reply.structured.get("body").unwrap().u64_at("v"), Some(2));
    let reply = call
        .finish(DccExchange::Replied(HttpResponse { status: 404, body: b"nope".to_vec() }))
        .unwrap();
    assert!(reply.is_error);
    assert_eq!(reply.structured.text_at("body"), Some("nope"));
    assert_eq!(
        call.finish(DccExchange::TimedOut).unwrap_err(),
        "unreal_remote_call timed out after 15000 ms (dcc_typed_timeout)"
    );
    assert_eq!(
        call.finish(DccExchange::Failed("reset".to_owned())).unwrap_err(),
        "unreal remote control on 127.0.0.1:30010 failed: reset (dcc_typed_unreachable)"
    );
}

#[test]
fn requests_close_their_connection() {
    assert_eq!(
        request_head("PUT", "/remote/x", 12),
        "PUT /remote/x HTTP/1.1\r\nHost: 127.0.0.1\r\nContent-Type: application/json\r\n\
         Content-Length: 12\r\nConnection: close\r\n\r\n"
    );
}

#[test]
fn responses_are_complete_with_their_announced_body() {
    let head = b"HTTP/1.1 200 OK\r\ncontent-LENGTH:  5 \r\n\r\n".to_vec();
    assert_eq!(header_end(&head), Some(head.len()));
    assert_eq!(content_length(&head), Some(5));
    assert!(!response_complete(&head));
    let mut raw = head.clone();
    assert_eq!(take_response_chunk(&mut raw, &b"hel".to_vec(), 1000), ChunkOutcome::More);
    assert_eq!(take_response_chunk(&mut raw, &b"lo and more".to_vec(), 1000), ChunkOutcome::Complete);
    let response = parse_response(&raw).unwrap();
    assert_eq!(response.status, 200);
    assert_eq!(response.body, b"hello");
    assert_eq!(take_response_chunk(&mut raw, &b"x".to_vec(), 10), ChunkOutcome::TooLarge);
}

#[test]
fn responses_without_a_length_end_with_the_connection() {
    let raw = b"HTTP/1.1 204 No Content\r\nX: y\r\n\r\nall of it".to_vec();
    assert!(!response_complete(&raw));
    let response = parse_response(&raw).unwrap();
    assert_eq!(response.status, 204);
    assert_eq!(response.body, b"all of it");
    let short = b"HTTP/1.1 200 OK\r\nContent-Length: 50\r\n\r\nshort".to_vec();
    assert_eq!(parse_response(&short).unwrap().body, b"short");
}

#[test]
fn malformed_responses_are_refused() {
    assert_eq!(
        parse_response(&b"HTTP/1.1 200 OK\r\n".to_vec()).unwrap_err(),
        "response headers were never terminated"
    );
    assert_eq!(
        parse_response(&b"HTTP/1.1\r\n\r\n".to_vec()).unwrap_err(),
        "malformed status line: HTTP/1.1"
    );
    assert_eq!(
        parse_response(&b"HTTP/1.1 99999 Big\r\n\r\n".to_vec()).unwrap_err(),
        "malformed status line: HTTP/1.1 99999 Big"
    );
}

#[test]
fn lengths_come_from_the_first_line_that_gives_one() {
    assert_eq!(
        content_length(&b"A: 1\r\nContent-Length: x\r\nContent-Length: 7\r\nContent-Length: 9\r\n".to_vec()),
        Some(7)
    );
    assert_eq!(content_length(&b"Content-Length: 18446744073709551616\r\n".to_vec()), None);
    assert_eq!(content_length(&b"Content-Length 5\r\n".to_vec()), None);
}

#[test]
fn numbers_are_read_as_rust_reads_them() {
    for text in ["0", "7", "+7", "007", "65535", "", "+", "-1", "1a", " 1", "65536"] {
        assert_eq!(parse_number(text, 65535).map(|n| n as u16), text.parse::<u16>().ok(), "{text}");
    }
    assert_eq!(parse_number("18446744073709551615", u64::MAX), Some(u64::MAX));
    assert_eq!(parse_number("18446744073709551616", u64::MAX), None);
}

#[test]
fn lines_are_split_as_rust_splits_them() {
    for text in ["", "a", "a\n", "a\r\nb", "a\n\nb\n", "\r\n", "a\r", "\n\r", "x\r\r\ny"] {
        let expected: Vec<&str> = text.lines().collect();
        assert_eq!(lines_of(text), expected, "{text:?}");
    }
}

#[test]
fn responses_are_read_from_their_header_text() {
    let headers = "HTTP/1.1 207 Some\r\nX: 1\r\ncontent-LENGTH: 3 \r\n\r\n";
    assert_eq!(length_in_text(headers), Some(3));
    let response = read_response(headers, b"abcdef".to_vec()).unwrap();
    assert_eq!((response.status, response.body.as_slice()), (207, b"abc".as_slice()));
    let response = read_response(headers, b"ab".to_vec()).unwrap();
    assert_eq!(response.body, b"ab");
    assert_eq!(length_in_text("HTTP/1.1 200 OK\r\n\r\n"), None);
    let response = read_response("HTTP/1.1 200 OK\r\n\r\n", b"xyz".to_vec()).unwrap();
    assert_eq!(response.body, b"xyz");
    assert_eq!(read_response("", Vec::new()).unwrap_err(), "empty response");
    assert_eq!(
        read_response("HTTP/1.1 many\r\n", Vec::new()).unwrap_err(),
        "malformed status line: HTTP/1.1 many"
    );
}
