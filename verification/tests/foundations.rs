use dcc_cua::application::{
    advance_launch, launch_arguments, prepare_session_launch, validate_launch_request,
    validate_launch_session, LaunchStage, LaunchStep,
};
use dcc_cua::contracts::{
    ComputerUseLaunchRequest, ComputerUseLiveObservationStartRequest, ComputerUseMenuRequest,
    ComputerUseTargetScope, ComputerUseToolResult, ComputerUseToolStatus, ComputerUseWindowQuery,
    ComputerUseWindowWaitRequest,
};
use dcc_cua::driver::{
    input_call_timed_out, parse_bound_tool_value, structured_state, validated_action_effect,
    ToolReply,
};
use dcc_cua::error_contracts::{
    session_refresh_required, target_modal_changed,
};
use dcc_cua::errors::{ComputerUseError, ComputerUseErrorCode};
use dcc_cua::evidence::ActionEvidenceEpoch;
use dcc_cua::interactive_desktop::{
    platform_managed_diagnostic, require_desktop_observation_from,
    require_exact_window_observation_from, require_input_available,
    require_input_available_from, windows_diagnostic_base,
    windows_diagnostic_with_thread_fallback, WINDOWS_SESSION_DISCONNECTED,
};
use dcc_cua::json::{
    members_of, parse_json, parse_json_bytes, put_member, without_member, Json, JsonMember,
};
use dcc_cua::media::{bgra_from_pixels, decode_image_data, decode_png_to_bgra, DecodedPng, PixelLayout};
use dcc_cua::recording::{
    aggregate_recording_state, keepalive_continues, project_issues, RecordingHealth,
    RecordingIssue, RecordingVideoTerminalEvidence,
};
use dcc_cua::sensitive_target_policy::{
    executable_stem, is_python_interpreter, validate_launch_application_identity,
    validate_observed_application_identity, validate_sensitive_application_identity,
};
use dcc_cua::text::{
    decimal_text, lower_text, remove_all, signed_decimal_text, text_begins_with, text_contains,
    text_ends_with, text_eq_ignoring_case, trim_text,
};
use dcc_cua::text_sets::{add_text, holds_text, remove_text};
use dcc_cua::tool_binding::{
    attach_banner_status, attach_indicator_motion_to_activation, bind_tool_arguments,
    diagnostic_tool_check, diagnostics, failed_check_json, list_windows_arguments, listed_apps,
    DiagnosticChecks,
};
use dcc_cua::window_target::{
    after_window_probe, desktop_crop_bounds, ensure_target_available_for_action,
    mark_foreground_by_handle, mark_foreground_window, resolved_application_name,
    revalidate_target, select_scoped_window, window_wait_result, WindowTarget,
    WindowWaitProbeOutcome, WindowWaitStep,
};

fn json(text: &str) -> Json {
    parse_json(text).expect("test JSON")
}

fn failed(code: ComputerUseErrorCode, message: &str) -> ComputerUseError {
    ComputerUseError::new(code, message)
}

fn window(pid: u32, window_id: u64, title: &str) -> WindowTarget {
    WindowTarget {
        pid,
        window_id,
        title: title.to_owned(),
        app_name: "maya.exe".to_owned(),
        bounds: [10, 20, 300, 400],
        is_foreground: false,
        is_minimized: false,
        is_on_screen: true,
        z_index: None,
    }
}

fn launch() -> ComputerUseLaunchRequest {
    ComputerUseLaunchRequest {
        name: None,
        bundle_id: None,
        aumid: None,
        path: None,
        launch_path: None,
        urls: Vec::new(),
        additional_arguments: Vec::new(),
        creates_new_application_instance: false,
        start_minimized: false,
    }
}

fn reply(raw: &str) -> ToolReply {
    ToolReply {
        is_error: false,
        error_code: None,
        raw_json: raw.to_owned(),
        text: "ok".to_owned(),
        structured_json: None,
        images: Vec::new(),
        degraded: false,
        action_effect: None,
    }
}

// Text.

#[test]
fn texts_are_trimmed_lowered_and_searched() {
    assert_eq!(trim_text("  a b \n"), "a b");
    assert_eq!(lower_text("MaYa 2024"), "maya 2024");
    assert!(text_begins_with("browser_click", "browser_"));
    assert!(text_ends_with("maya.exe", ".exe"));
    assert!(text_contains("it timed out after", "timed out"));
    assert!(!text_contains("timed", "timed out"));
    assert!(text_eq_ignoring_case("DEFAULT", "default"));
    assert_eq!(decimal_text(0), "0");
    assert_eq!(decimal_text(u64::MAX), "18446744073709551615");
    assert_eq!(signed_decimal_text(-1920), "-1920");
    assert_eq!(signed_decimal_text(i64::MIN), "-9223372036854775808");
    assert_eq!(remove_all("a; gone b; gone", "; gone"), "a b");
}

#[test]
fn a_text_set_gives_up_what_is_removed() {
    let mut list: Vec<String> = Vec::new();
    add_text(&mut list, "a".to_owned());
    add_text(&mut list, "b".to_owned());
    assert_eq!(list.len(), 2);
    assert!(holds_text(&list, "a"));
    remove_text(&mut list, "a");
    assert!(!holds_text(&list, "a"));
    assert!(holds_text(&list, "b"));
}

// JSON.

#[test]
fn json_keeps_what_was_written() {
    let value = json(
        r#"{"n": 7, "s": "text", "b": true, "z": null, "a": [1, -2, 2.5], "o": {"k": "v"}}"#,
    );
    assert_eq!(value.u64_at("n"), Some(7));
    assert_eq!(value.text_at("s"), Some("text"));
    assert_eq!(value.bool_at("b"), Some(true));
    assert!(value.get("z").unwrap().is_null());
    assert_eq!(value.get("a").unwrap().as_array().unwrap().len(), 3);
    assert_eq!(value.get("o").unwrap().text_at("k"), Some("v"));
    assert!(value.get("missing").is_none());
    assert_eq!(value.get("a").unwrap().as_array().unwrap()[1].as_u64(), None);
}

#[test]
fn json_text_that_does_not_parse_is_an_error() {
    assert!(parse_json("{").is_err());
    assert!(parse_json_bytes(&b"[1, 2]".to_vec()).is_ok());
    assert!(parse_json_bytes(&vec![0xff, 0xfe]).is_err());
}

#[test]
fn a_member_is_replaced_and_removed_by_name() {
    let mut members: Vec<JsonMember> = Vec::new();
    put_member(&mut members, "a", Json::unsigned(1));
    put_member(&mut members, "a", Json::unsigned(2));
    put_member(&mut members, "b", Json::Bool(true));
    let object = Json::Object(members);
    assert_eq!(object.u64_at("a"), Some(2));
    let left = without_member(members_of(&object).unwrap(), "a");
    assert!(Json::Object(left).get("a").is_none());
}

// Errors and evidence.

#[test]
fn an_error_shows_its_code_and_its_message() {
    let error = failed(ComputerUseErrorCode::StaleObservation, "take a screenshot");
    assert_eq!(error.display_text(), "StaleObservation: take a screenshot");
    assert_eq!(ComputerUseErrorCode::StaleObservation.wire_name(), "stale_observation");
    assert!(!error.is_timed_out());
}

#[test]
fn a_late_call_is_marked_as_timed_out() {
    let error = input_call_timed_out("start CUA session", 15_000);
    assert_eq!(error.code, ComputerUseErrorCode::InputFailed);
    assert_eq!(error.message, "CUA start CUA session timed out after 15000 ms");
    assert!(error.is_timed_out());
}

#[test]
fn a_modal_that_took_over_is_suggested_but_not_taken() {
    let error = target_modal_changed(window(42, 99, "Save As"));
    assert_eq!(error.code, ComputerUseErrorCode::TargetModalChanged);
    let details = error.details.unwrap();
    assert_eq!(details.automatic_rebind, Some(false));
    assert_eq!(details.explicit_rebind_required, Some(true));
    let suggested = details.suggested_target.unwrap();
    assert_eq!(suggested.process_id, Some(42));
    assert_eq!(suggested.window_handle, Some(99));
}

#[test]
fn a_due_refresh_is_no_attempt() {
    let error = session_refresh_required();
    assert_eq!(error.code, ComputerUseErrorCode::SessionRefreshRequired);
    assert_eq!(error.details.unwrap().action_attempted, Some(false));
}

#[test]
fn an_evidence_epoch_has_a_token_of_its_own() {
    let first = ActionEvidenceEpoch::default();
    let second = first.advanced();
    assert_eq!(first.opaque_token(), "evidence-0");
    assert_eq!(second.opaque_token(), "evidence-1");
    assert!(second > first);
    let last = ActionEvidenceEpoch { value: u64::MAX };
    assert_eq!(last.advanced(), last);
}

// Driver replies.

#[test]
fn a_reply_that_is_no_json_names_its_tool() {
    assert_eq!(parse_bound_tool_value("x", r#"{"k": 1}"#).unwrap().u64_at("k"), Some(1));
    let error = parse_bound_tool_value("x", "nonsense").unwrap_err();
    assert_eq!(error.code, ComputerUseErrorCode::BackendUnavailable);
    assert!(error.message.starts_with("CUA x returned invalid JSON: "));
    assert!(structured_state(Some("nonsense")).is_none());
    assert_eq!(structured_state(Some(r#"{"k": 2}"#)).unwrap().u64_at("k"), Some(2));
}

#[test]
fn an_effect_is_taken_from_the_reply() {
    let mut done = reply("{}");
    assert!(validated_action_effect(&done, "invoke_menu").is_err());
    done.action_effect = Some("confirmed".to_owned());
    assert_eq!(validated_action_effect(&done, "invoke_menu").unwrap(), "confirmed");
}

// Pictures.

fn png(width: u32, height: u32, color: png::ColorType, pixels: &[u8]) -> Vec<u8> {
    let mut data = Vec::new();
    let mut encoder = png::Encoder::new(&mut data, width, height);
    encoder.set_color(color);
    encoder.set_depth(png::BitDepth::Eight);
    let mut writer = encoder.write_header().unwrap();
    writer.write_image_data(pixels).unwrap();
    writer.finish().unwrap();
    data
}

#[test]
fn a_png_comes_out_in_blue_green_red_alpha_order() {
    let rgba = png(2, 1, png::ColorType::Rgba, &[1, 2, 3, 4, 5, 6, 7, 8]);
    assert_eq!(decode_png_to_bgra(&rgba).unwrap(), (vec![3, 2, 1, 4, 7, 6, 5, 8], 2, 1));
    let rgb = png(1, 1, png::ColorType::Rgb, &[1, 2, 3]);
    assert_eq!(decode_png_to_bgra(&rgb).unwrap(), (vec![3, 2, 1, 255], 1, 1));
    let gray = png(1, 1, png::ColorType::Grayscale, &[9]);
    assert_eq!(decode_png_to_bgra(&gray).unwrap(), (vec![9, 9, 9, 255], 1, 1));
    let gray_alpha = png(1, 1, png::ColorType::GrayscaleAlpha, &[9, 8]);
    assert_eq!(decode_png_to_bgra(&gray_alpha).unwrap(), (vec![9, 9, 9, 8], 1, 1));
}

#[test]
fn a_picture_that_is_none_is_a_failed_capture() {
    let error = decode_png_to_bgra(&vec![1, 2, 3]).unwrap_err();
    assert_eq!(error.code, ComputerUseErrorCode::CaptureFailed);
    let indexed = DecodedPng {
        pixels: vec![0],
        width: 1,
        height: 1,
        layout: PixelLayout::Indexed,
    };
    let error = bgra_from_pixels(&indexed).unwrap_err();
    assert_eq!(error.message, "indexed PNG was not expanded by the decoder");
    let short = DecodedPng { pixels: vec![0; 3], width: 2, height: 1, layout: PixelLayout::Rgb };
    let error = bgra_from_pixels(&short).unwrap_err();
    assert_eq!(error.message, "PNG pixel buffer has an invalid length");
}

#[test]
fn transported_pictures_are_base64() {
    assert_eq!(decode_image_data("AQIDBA==").unwrap(), vec![1, 2, 3, 4]);
    let error = decode_image_data("%%%").unwrap_err();
    assert_eq!(error.code, ComputerUseErrorCode::CaptureFailed);
}

// Applications.

#[test]
fn a_launch_names_one_application_or_some_urls() {
    let denied = vec!["terminal", "password"];
    assert_eq!(
        validate_launch_request(&launch(), &denied).unwrap_err().code,
        ComputerUseErrorCode::InvalidAction
    );
    let mut request = launch();
    request.name = Some("Maya".to_owned());
    assert!(validate_launch_request(&request, &denied).is_ok());
    request.path = Some("C:/maya.exe".to_owned());
    assert!(validate_launch_request(&request, &denied).is_err());
    let mut request = launch();
    request.name = Some("Git Bash".to_owned());
    assert_eq!(
        validate_launch_request(&request, &denied).unwrap_err().code,
        ComputerUseErrorCode::InvalidTarget
    );
    let mut request = launch();
    request.urls = vec!["https://example.com".to_owned()];
    assert!(validate_launch_request(&request, &denied).is_ok());
    request.urls.push("file:///etc".to_owned());
    assert_eq!(
        validate_launch_request(&request, &denied).unwrap_err().message,
        "launch URLs must use http, https, or the Epic Games Launcher protocol"
    );
    request.urls = vec!["http://a".to_owned(); 17];
    assert_eq!(
        validate_launch_request(&request, &denied).unwrap_err().message,
        "launch contains too many URLs or arguments"
    );
}

#[test]
fn launch_arguments_carry_the_session_that_owns_them() {
    let denied = vec!["terminal"];
    let mut request = launch();
    request.name = Some("Maya".to_owned());
    request.start_minimized = true;
    let arguments = prepare_session_launch(&request, "s", &denied).unwrap();
    assert_eq!(arguments.text_at("session"), Some("s"));
    assert_eq!(arguments.text_at("name"), Some("Maya"));
    assert_eq!(arguments.bool_at("start_minimized"), Some(true));
    assert!(arguments.get("urls").is_none());
    assert!(launch_arguments(&request, None, &denied).unwrap().get("session").is_none());
    assert_eq!(
        validate_launch_session(" ").unwrap_err().message,
        "launch session_id must not be empty"
    );
}

#[test]
fn a_failed_launch_ends_the_session_it_started() {
    match advance_launch(LaunchStage::StartingSession, Ok(Json::Null)) {
        LaunchStep::LaunchApplication => {}
        _ => panic!("the application comes next"),
    }
    let refused = failed(ComputerUseErrorCode::InvalidTarget, "refused");
    match advance_launch(LaunchStage::LaunchingApplication, Err(refused)) {
        LaunchStep::EndSessionThenFail(error) => assert_eq!(error.message, "refused"),
        _ => panic!("the session is ended"),
    }
}

// Policy.

#[test]
fn sensitive_applications_are_refused() {
    assert!(validate_sensitive_application_identity("Autodesk Maya 2024").is_ok());
    for identity in ["Password Manager", "Windows Terminal", "cmd.exe", "C:\\tools\\bash.exe"] {
        let error = validate_sensitive_application_identity(identity).unwrap_err();
        assert_eq!(error.code, ComputerUseErrorCode::InvalidTarget, "{identity}");
    }
    assert!(validate_observed_application_identity("Blender").is_ok());
    assert!(validate_launch_application_identity("python3.11").is_err());
    assert!(is_python_interpreter("python3"));
    assert!(!is_python_interpreter("pythonista"));
    assert_eq!(executable_stem("C:\\tools\\cmd.exe"), "cmd");
}

// Windows.

#[test]
fn a_scope_selects_exactly_one_window() {
    let scope = ComputerUseTargetScope {
        process_id: Some(42),
        window_handle: None,
        window_title: None,
    };
    let rows = vec![window(42, 1, "a"), window(7, 2, "b")];
    assert_eq!(select_scoped_window(&scope, &rows).unwrap().window_id, 1);
    let none = vec![window(7, 2, "b")];
    assert_eq!(
        select_scoped_window(&scope, &none).unwrap_err().code,
        ComputerUseErrorCode::MissingWindow
    );
    let two = vec![window(42, 1, "a"), window(42, 2, "b")];
    let error = select_scoped_window(&scope, &two).unwrap_err();
    assert_eq!(error.code, ComputerUseErrorCode::MissingWindow);
    assert_eq!(error.message, "expected exactly one scoped window, found 2");
}

#[test]
fn a_target_must_be_seen_and_be_the_same() {
    assert!(ensure_target_available_for_action(&window(42, 1, "a")).is_ok());
    let minimized = WindowTarget { is_minimized: true, ..window(42, 1, "a") };
    assert_eq!(
        ensure_target_available_for_action(&minimized).unwrap_err().code,
        ComputerUseErrorCode::TargetMinimized
    );
    let hidden = WindowTarget { is_on_screen: false, ..window(42, 1, "a") };
    assert_eq!(
        ensure_target_available_for_action(&hidden).unwrap_err().code,
        ComputerUseErrorCode::TargetUnavailable
    );
    let bound = window(42, 1, "a");
    assert!(revalidate_target(Some(&bound), Ok(window(42, 1, "renamed"))).is_ok());
    assert_eq!(
        revalidate_target(Some(&bound), Ok(window(42, 2, "a"))).unwrap_err().code,
        ComputerUseErrorCode::TargetUnavailable
    );
    assert_eq!(
        revalidate_target(None, Ok(window(42, 2, "a"))).unwrap_err().code,
        ComputerUseErrorCode::MissingWindow
    );
}

#[test]
fn one_window_has_the_foreground() {
    let mut rows = vec![window(1, 1, "a"), window(1, 2, "b")];
    mark_foreground_by_handle(&mut rows, 2);
    assert!(!rows[0].is_foreground);
    assert!(rows[1].is_foreground);
    let mut ordered = vec![
        WindowTarget { z_index: Some(1), ..window(1, 1, "a") },
        WindowTarget { z_index: Some(5), ..window(1, 2, "b") },
    ];
    mark_foreground_window(&mut ordered);
    assert_eq!(ordered.iter().filter(|row| row.is_foreground).count(), 1);
}

#[test]
fn an_application_is_named_by_what_is_configured_first() {
    let target = window(1, 1, " Scene.ma ");
    assert_eq!(resolved_application_name(" Maya ", &target), "Maya");
    assert_eq!(resolved_application_name("Application", &target), "Scene.ma");
    let untitled = window(1, 1, " ");
    assert_eq!(resolved_application_name("", &untitled), "maya");
    assert_eq!(desktop_crop_bounds(&target), ([10, 20, 300, 400], 96));
}

#[test]
fn a_window_wait_ends_with_the_rows_it_asked_for() {
    let query =
        ComputerUseWindowQuery { process_id: Some(42), ..ComputerUseWindowQuery::default() };
    let rows = vec![json(r#"{"pid": 42, "window_id": 1}"#), json(r#"{"pid": 7}"#)];
    match after_window_probe(&query, WindowWaitProbeOutcome::Completed(Ok(rows))) {
        WindowWaitStep::Found(windows) => {
            assert_eq!(windows.len(), 1);
            let report = window_wait_result(windows, 30);
            assert_eq!(report.u64_at("count"), Some(1));
            assert_eq!(report.u64_at("waited_ms"), Some(30));
        }
        other => panic!("unexpected step {other:?}"),
    }
    match after_window_probe(&query, WindowWaitProbeOutcome::Completed(Ok(Vec::new()))) {
        WindowWaitStep::PollAgain => {}
        other => panic!("unexpected step {other:?}"),
    }
    match after_window_probe(&query, WindowWaitProbeOutcome::TimedOut) {
        WindowWaitStep::Fail(error) => assert_eq!(error.message, "window query timed out"),
        other => panic!("unexpected step {other:?}"),
    }
}

#[test]
fn a_window_wait_is_bounded() {
    let query =
        ComputerUseWindowQuery { process_id: Some(42), ..ComputerUseWindowQuery::default() };
    let limits = |timeout_ms, interval_ms| {
        ComputerUseWindowWaitRequest { query: query.clone(), timeout_ms, interval_ms }
            .limits()
            .unwrap()
    };
    assert_eq!(limits(None, None), (5_000, 100));
    assert_eq!(limits(Some(90_000), Some(1)), (30_000, 10));
    assert_eq!(limits(Some(1), Some(9_000)), (1, 1_000));
    let unbounded = ComputerUseWindowWaitRequest {
        query: ComputerUseWindowQuery::default(),
        timeout_ms: None,
        interval_ms: None,
    };
    assert!(unbounded.limits().is_err());
}

#[test]
fn requests_are_bounded() {
    assert!(ComputerUseTargetScope::default().validate().is_err());
    let menu = ComputerUseMenuRequest { path: vec!["x".repeat(201)] };
    assert!(menu.validate().is_err());
    assert!(ComputerUseMenuRequest { path: vec!["File".to_owned()] }.validate().is_ok());
    let feed = ComputerUseLiveObservationStartRequest::default();
    assert_eq!((feed.fps, feed.max_dimension), (10, 1_568));
    assert!(feed.validate().is_ok());
    let fast = ComputerUseLiveObservationStartRequest { fps: 31, max_dimension: 1_568 };
    assert_eq!(fast.validate().unwrap_err().message, "live observation fps must be 1..=30");
    let large = ComputerUseLiveObservationStartRequest { fps: 10, max_dimension: 4_097 };
    assert_eq!(
        large.validate().unwrap_err().message,
        "live observation max_dimension must be 256..=4096"
    );
}

// Recordings.

#[test]
fn a_lost_lease_stays_lost() {
    let mut health = RecordingHealth::new("s");
    assert!(health.observe_trajectory(&json(r#"{"enabled": true, "owner": "s"}"#)));
    assert!(health.issue_names().is_empty());
    assert!(!health.observe_trajectory(&json(r#"{"enabled": false, "owner": "other"}"#)));
    let names = health.issue_names();
    assert_eq!(names.len(), 2);
    health.observe_trajectory(&json(r#"{"enabled": true, "owner": "s"}"#));
    assert_eq!(health.issue_names().len(), 2);
    health.observe_video(None, true);
    assert_eq!(health.issue_names().len(), 3);
    assert!(health.issue_names().contains(&RecordingIssue::VideoStopped.as_str()));
}

#[test]
fn a_keepalive_ends_with_its_lease() {
    let mut health = RecordingHealth::new("s");
    assert!(keepalive_continues(
        &mut health,
        Ok(json(r#"{"enabled": true, "owner": "s"}"#))
    ));
    assert!(!keepalive_continues(
        &mut health,
        Ok(json(r#"{"enabled": false, "owner": "s"}"#))
    ));
}

#[test]
fn a_recording_state_lists_each_issue_once() {
    let issues = vec!["b", "a", "b"];
    assert_eq!(project_issues(&issues, true), vec!["a", "b", "video_paused"]);
    let paused = json(r#"{"active": true, "paused": true}"#);
    let state = aggregate_recording_state(true, true, &json("{}"), Some(&paused), &Vec::new());
    assert_eq!(state.text_at("status"), Some("paused"));
    assert_eq!(state.bool_at("healthy"), Some(false));
    let degraded = aggregate_recording_state(true, true, &json("{}"), Some(&paused), &issues);
    assert_eq!(degraded.text_at("status"), Some("degraded"));
    let stopped = aggregate_recording_state(false, false, &json("{}"), None, &issues);
    assert_eq!(stopped.text_at("status"), Some("stopped"));
    assert!(stopped.get("video").unwrap().is_null());
}

#[test]
fn only_a_finalized_video_is_terminal_evidence() {
    let done = json(r#"{"active": false, "finalized": true, "path": "p"}"#);
    let evidence = RecordingVideoTerminalEvidence::try_from_finalized(done).unwrap();
    assert_eq!(evidence.state().text_at("path"), Some("p"));
    let running = json(r#"{"active": true, "finalized": true}"#);
    assert_eq!(
        RecordingVideoTerminalEvidence::try_from_finalized(running).unwrap_err().code,
        ComputerUseErrorCode::CaptureFailed
    );
}

// The interactive desktop.

#[test]
fn a_connected_default_desktop_is_ready() {
    let report = windows_diagnostic_base(Ok(0), Ok(Some("Default")), Ok(()), true);
    assert_eq!(report.bool_at("success"), Some(true));
    assert_eq!(report.text_at("code"), Some("interactive_desktop_ready"));
    assert!(require_desktop_observation_from(&report).is_ok());
    assert!(require_exact_window_observation_from(&report).is_ok());
    assert!(require_input_available_from(&report).is_ok());
}

#[test]
fn a_disconnected_session_takes_no_input() {
    let report = windows_diagnostic_base(
        Ok(WINDOWS_SESSION_DISCONNECTED),
        Ok(Some("Default")),
        Ok(()),
        false,
    );
    assert_eq!(report.text_at("session_state"), Some("disconnected"));
    let error = require_input_available_from(&report).unwrap_err();
    assert_eq!(error.code, ComputerUseErrorCode::InteractiveDesktopUnavailable);
    assert!(require_exact_window_observation_from(&report).is_err());
    let unknown = windows_diagnostic_base(Err("no access".to_owned()), Ok(None), Ok(()), false);
    assert_eq!(
        unknown.text_at("message"),
        Some("Windows interactive session state could not be read: no access")
    );
}

#[test]
fn a_missing_input_surface_still_lets_the_window_be_seen() {
    let report =
        windows_diagnostic_base(Ok(0), Ok(Some("default")), Err("no queue"), true);
    assert!(require_exact_window_observation_from(&report).is_ok());
    let error = require_input_available_from(&report).unwrap_err();
    assert_eq!(error.message, "Windows input surface is unavailable: no queue");
}

#[test]
fn the_thread_desktop_stands_in_for_an_unreadable_one() {
    let report = windows_diagnostic_with_thread_fallback(
        Ok(0),
        Err("denied"),
        Ok(Some("Default")),
        Ok(()),
        true,
    );
    assert_eq!(
        report.text_at("code"),
        Some("interactive_desktop_ready_thread_fallback")
    );
    assert_eq!(report.text_at("input_desktop_probe_error"), Some("denied"));
    let background = windows_diagnostic_with_thread_fallback(
        Ok(0),
        Err("denied"),
        Ok(Some("Default")),
        Ok(()),
        false,
    );
    assert_eq!(background.text_at("code"), Some("interactive_desktop_unknown"));
}

#[test]
fn a_platform_that_manages_its_desktop_is_ready() {
    assert!(require_input_available_from(&platform_managed_diagnostic()).is_ok());
    assert!(require_input_available().is_ok());
}

// Tools.

#[test]
fn a_tool_takes_only_the_bindings_it_declares() {
    let schema = json(r#"{"properties": {"pid": {}, "session": {}, "text": {}}}"#);
    let target = window(42, 77, "a");
    let bound = bind_tool_arguments("x", &json(r#"{"text": "t"}"#), &schema, &target, "s").unwrap();
    assert_eq!(bound.u64_at("pid"), Some(42));
    assert_eq!(bound.text_at("session"), Some("s"));
    assert_eq!(bound.text_at("text"), Some("t"));
    assert!(bound.get("window_id").is_none());
    let unbindable = json(r#"{"properties": {"text": {}}}"#);
    let error =
        bind_tool_arguments("x", &json("{}"), &unbindable, &target, "s").unwrap_err();
    assert_eq!(error.code, ComputerUseErrorCode::InvalidTarget);
}

#[test]
fn listings_are_taken_from_the_structured_reply() {
    assert!(listed_apps(&json(r#"{"structuredContent": {"apps": []}}"#)).is_ok());
    assert_eq!(
        listed_apps(&json(r#"{"structuredContent": []}"#)).unwrap_err().message,
        "CUA list_apps omitted structuredContent"
    );
    let arguments = list_windows_arguments(Some(42), true);
    assert_eq!(arguments.u64_at("pid"), Some(42));
    assert_eq!(arguments.bool_at("on_screen_only"), Some(true));
}

#[test]
fn a_failed_check_is_part_of_the_diagnosis() {
    let error = failed(ComputerUseErrorCode::BackendUnavailable, "down");
    let check = failed_check_json(&error);
    assert_eq!(check.bool_at("success"), Some(false));
    let passed = diagnostic_tool_check(Ok(ComputerUseToolResult {
        status: ComputerUseToolStatus::Succeeded,
        value: json(r#"{"ok": 1}"#),
        text: "fine".to_owned(),
        images: Vec::new(),
        degraded: false,
    }));
    assert_eq!(passed.bool_at("success"), Some(true));
}

#[test]
fn a_banner_is_attached_to_an_object() {
    let value = attach_banner_status(json(r#"{"k": 1}"#), json(r#"{"running": true}"#));
    assert_eq!(value.u64_at("k"), Some(1));
    assert_eq!(value.get("banner").unwrap().bool_at("running"), Some(true));
    let wrapped = attach_banner_status(Json::Bool(true), Json::Null);
    assert_eq!(wrapped.bool_at("cua"), Some(true));
    let still = attach_indicator_motion_to_activation(json("{}"), &json("{}"));
    assert!(still.get("indicator_motion").is_none());
    let moved = attach_indicator_motion_to_activation(json("{}"), &json(r#"{"motion": 3}"#));
    assert_eq!(moved.u64_at("indicator_motion"), Some(3));
}

#[test]
fn a_diagnosis_is_ready_only_where_every_check_is() {
    let passed = || json(r#"{"success": true, "input_ready": true, "result": {"overall": "ok"}}"#);
    let checks = |permissions: Json| DiagnosticChecks {
        driver: passed(),
        window_inventory: passed(),
        permissions,
        health: passed(),
        interactive_desktop: passed(),
    };
    assert_eq!(diagnostics(checks(passed())).bool_at("ready"), Some(true));
    let report = diagnostics(checks(json(r#"{"success": false}"#)));
    assert_eq!(report.bool_at("ready"), Some(false));
    assert_eq!(report.u64_at("schema_version"), Some(1));
    assert_eq!(
        report.get("checks").unwrap().get("permissions").unwrap().bool_at("success"),
        Some(false)
    );
}
