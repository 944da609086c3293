//! Readiness of the interactive desktop, as a report and as gates over it.

use crate::errors::{ComputerUseError, ComputerUseErrorCode, ComputerUseResult};
#[allow(unused_imports)]
use crate::errors::{decides, Refusal};
use crate::json::{put_member, Json, JsonMember};
#[allow(unused_imports)]
use crate::json::{integer_tree, object_tree, optional_text, text_or_null, JsonTree};
use crate::text::{join2, text_eq_ignoring_case};
#[allow(unused_imports)]
use crate::text::same_ignoring_case;
use vstd::prelude::*;

verus! {

/// Connection state of an actively connected Windows session.
pub const WINDOWS_SESSION_ACTIVE: i32 = 0;

/// Connection state of a disconnected Windows session.
pub const WINDOWS_SESSION_DISCONNECTED: i32 = 4;

/// A probe's mathematical value: text on both sides.
pub type TextProbe = Result<Option<Seq<char>>, Seq<char>>;

pub open spec fn probe_view(probe: Result<Option<&str>, &str>) -> TextProbe {
    match probe {
        Ok(name) => Ok(optional_text(name)),
        Err(message) => Err(message@),
    }
}

pub open spec fn state_view(state: Result<i32, String>) -> Result<i32, Seq<char>> {
    match state {
        Ok(code) => Ok(code),
        Err(message) => Err(message@),
    }
}

pub open spec fn surface_view(surface: Result<(), &str>) -> Result<(), Seq<char>> {
    match surface {
        Ok(()) => Ok(()),
        Err(message) => Err(message@),
    }
}

/// The report of a platform that manages readiness itself.
pub open spec fn platform_managed_report() -> JsonTree {
    JsonTree::Object(
        Map::<Seq<char>, JsonTree>::empty().insert("success"@, JsonTree::Bool(true)).insert(
            "code"@,
            JsonTree::Text("interactive_desktop_platform_managed"@),
        ).insert(
            "message"@,
            JsonTree::Text(
                "Interactive desktop readiness is reported by the platform CUA runtime"@,
            ),
        ).insert("observation_ready"@, JsonTree::Bool(true)).insert(
            "input_ready"@,
            JsonTree::Bool(true),
        ).insert("input_surface_ready"@, JsonTree::Bool(true)),
    )
}

pub fn platform_managed_diagnostic() -> (r: Json)
    ensures
        r.view() == platform_managed_report(),
{
    let mut members: Vec<JsonMember> = Vec::new();
    put_member(&mut members, "success", Json::Bool(true));
    put_member(&mut members, "code", Json::text("interactive_desktop_platform_managed"));
    put_member(
        &mut members,
        "message",
        Json::text("Interactive desktop readiness is reported by the platform CUA runtime"),
    );
    put_member(&mut members, "observation_ready", Json::Bool(true));
    put_member(&mut members, "input_ready", Json::Bool(true));
    put_member(&mut members, "input_surface_ready", Json::Bool(true));
    Json::Object(members)
}

/// The report where the platform manages readiness itself.
pub fn diagnostic() -> (r: Json)
    ensures
        r.view() == platform_managed_report(),
{
    platform_managed_diagnostic()
}

/// The member holds the JSON value `true`.
pub open spec fn says_true(report: JsonTree, name: Seq<char>) -> bool {
    report.bool_at(name) == Some(true)
}

fn is_true(report: &Json, name: &str) -> (r: bool)
    ensures
        r == says_true(report.view(), name@),
{
    match report.bool_at(name) {
        Some(value) => value,
        None => false,
    }
}

/// The report's message, or a fallback where it carries none.
pub open spec fn message_or(report: JsonTree, fallback: Seq<char>) -> Seq<char> {
    match report.text_at("message"@) {
        Some(message) => message,
        None => fallback,
    }
}

fn message_text_or<'a>(report: &'a Json, fallback: &'a str) -> (r: &'a str)
    ensures
        r@ == message_or(report.view(), fallback@),
{
    match report.text_at("message") {
        Some(message) => message,
        None => fallback,
    }
}

pub open spec fn desktop_observation_refusal(report: JsonTree) -> Refusal {
    if says_true(report, "success"@) {
        None
    } else {
        Some(
            (
                ComputerUseErrorCode::InteractiveDesktopUnavailable,
                message_or(report, "interactive desktop is unavailable"@),
            ),
        )
    }
}

pub open spec fn exact_window_observation_refusal(report: JsonTree) -> Refusal {
    if says_true(report, "observation_ready"@) {
        None
    } else {
        Some(
            (
                ComputerUseErrorCode::InteractiveDesktopUnavailable,
                message_or(report, "exact-window observation is unavailable"@),
            ),
        )
    }
}

pub open spec fn input_refusal(report: JsonTree) -> Refusal {
    if says_true(report, "success"@) && says_true(report, "input_ready"@) {
        None
    } else {
        Some(
            (
                ComputerUseErrorCode::InteractiveDesktopUnavailable,
                match report.text_at("input_message"@) {
                    Some(message) => message,
                    None => message_or(report, "Windows input surface is unavailable"@),
                },
            ),
        )
    }
}

pub fn require_desktop_observation_from(report: &Json) -> (r: ComputerUseResult<()>)
    ensures
        decides(r, desktop_observation_refusal(report.view())),
{
    if is_true(report, "success") {
        return Ok(());
    }
    Err(
        ComputerUseError::new(
            ComputerUseErrorCode::InteractiveDesktopUnavailable,
            message_text_or(report, "interactive desktop is unavailable"),
        ),
    )
}

pub fn require_exact_window_observation_from(report: &Json) -> (r: ComputerUseResult<()>)
    ensures
        decides(r, exact_window_observation_refusal(report.view())),
{
    if is_true(report, "observation_ready") {
        return Ok(());
    }
    Err(
        ComputerUseError::new(
            ComputerUseErrorCode::InteractiveDesktopUnavailable,
            message_text_or(report, "exact-window observation is unavailable"),
        ),
    )
}

/// Activating a window needs what observing it exactly needs.
pub fn require_window_activation_from(report: &Json) -> (r: ComputerUseResult<()>)
    ensures
        decides(r, exact_window_observation_refusal(report.view())),
{
    require_exact_window_observation_from(report)
}

pub fn require_input_available_from(report: &Json) -> (r: ComputerUseResult<()>)
    ensures
        decides(r, input_refusal(report.view())),
{
    if is_true(report, "success") && is_true(report, "input_ready") {
        return Ok(());
    }
    let message = match report.text_at("input_message") {
        Some(message) => message,
        None => message_text_or(report, "Windows input surface is unavailable"),
    };
    Err(ComputerUseError::new(ComputerUseErrorCode::InteractiveDesktopUnavailable, message))
}

pub fn require_desktop_observation_available() -> (r: ComputerUseResult<()>)
    ensures
        decides(r, desktop_observation_refusal(platform_managed_report())),
{
    require_desktop_observation_from(&diagnostic())
}

pub fn require_exact_window_observation_available() -> (r: ComputerUseResult<()>)
    ensures
        decides(r, exact_window_observation_refusal(platform_managed_report())),
{
    require_exact_window_observation_from(&diagnostic())
}

pub fn require_window_activation_available() -> (r: ComputerUseResult<()>)
    ensures
        decides(r, exact_window_observation_refusal(platform_managed_report())),
{
    require_window_activation_from(&diagnostic())
}

pub fn require_input_available() -> (r: ComputerUseResult<()>)
    ensures
        decides(r, input_refusal(platform_managed_report())),
{
    require_input_available_from(&diagnostic())
}

/// A desktop's name is that of the interactive desktop.
pub open spec fn is_default_desktop(name: Seq<char>) -> bool {
    same_ignoring_case(name, "Default"@)
}

/// Pixels of an exact window can be read: the session is connected, and its
/// input desktop is the interactive one or could not be probed.
pub open spec fn observation_ready(state: Result<i32, Seq<char>>, desktop: TextProbe) -> bool {
    &&& state == Ok::<i32, Seq<char>>(WINDOWS_SESSION_ACTIVE)
    &&& match desktop {
        Ok(Some(name)) => is_default_desktop(name),
        Ok(None) => false,
        Err(_) => true,
    }
}

/// The session is connected, and its input desktop is known to be the
/// interactive one.
pub open spec fn desktop_ready(state: Result<i32, Seq<char>>, desktop: TextProbe) -> bool {
    &&& state == Ok::<i32, Seq<char>>(WINDOWS_SESSION_ACTIVE)
    &&& desktop matches Ok(Some(name)) && is_default_desktop(name)
}

/// The name a desktop probe found, if it found one.
pub open spec fn probed_name(desktop: TextProbe) -> Option<Seq<char>> {
    match desktop {
        Ok(name) => name,
        Err(_) => None,
    }
}

/// What the report says of the session and its input desktop.
pub open spec fn session_members(
    state: Result<i32, Seq<char>>,
    desktop: TextProbe,
    foreground: bool,
) -> Map<Seq<char>, JsonTree> {
    let start = Map::<Seq<char>, JsonTree>::empty();
    match state {
        Err(message) => start.insert("success"@, JsonTree::Bool(false)).insert(
            "code"@,
            JsonTree::Text("interactive_session_unknown"@),
        ).insert(
            "message"@,
            JsonTree::Text(
                "Windows interactive session state could not be read: "@ + message,
            ),
        ).insert("input_desktop"@, text_or_null(probed_name(desktop))),
        Ok(code) => if code != WINDOWS_SESSION_ACTIVE {
            start.insert("success"@, JsonTree::Bool(false)).insert(
                "code"@,
                JsonTree::Text("interactive_session_not_active"@),
            ).insert(
                "message"@,
                JsonTree::Text(
                    "Windows session is not actively connected; reconnect it before mouse or keyboard input"@,
                ),
            ).insert(
                "session_state"@,
                JsonTree::Text(
                    if code == WINDOWS_SESSION_DISCONNECTED {
                        "disconnected"@
                    } else {
                        "not_active"@
                    },
                ),
            ).insert(
                "session_state_code"@,
                JsonTree::Number(integer_tree(code as int)),
            ).insert("input_desktop"@, text_or_null(probed_name(desktop)))
        } else {
            let connected = start.insert("session_state"@, JsonTree::Text("active"@)).insert(
                "session_state_code"@,
                JsonTree::Number(integer_tree(WINDOWS_SESSION_ACTIVE as int)),
            ).insert("input_desktop"@, text_or_null(probed_name(desktop)));
            match desktop {
                Err(message) => connected.insert("success"@, JsonTree::Bool(false)).insert(
                    "code"@,
                    JsonTree::Text("interactive_desktop_unknown"@),
                ).insert(
                    "message"@,
                    JsonTree::Text("Windows input desktop could not be read: "@ + message),
                ).insert("input_desktop_error"@, JsonTree::Text(message)),
                Ok(None) => connected.insert("success"@, JsonTree::Bool(false)).insert(
                    "code"@,
                    JsonTree::Text("interactive_desktop_unknown"@),
                ).insert(
                    "message"@,
                    JsonTree::Text("Windows input desktop identity is unavailable"@),
                ),
                Ok(Some(name)) => if !is_default_desktop(name) {
                    connected.insert("success"@, JsonTree::Bool(false)).insert(
                        "code"@,
                        JsonTree::Text("interactive_desktop_unavailable"@),
                    ).insert(
                        "message"@,
                        JsonTree::Text(
                            "Windows input desktop is not the interactive Default desktop; return to Default before mouse or keyboard input"@,
                        ),
                    )
                } else {
                    connected.insert("success"@, JsonTree::Bool(true)).insert(
                        "code"@,
                        JsonTree::Text("interactive_desktop_ready"@),
                    ).insert(
                        "message"@,
                        JsonTree::Text(
                            if foreground {
                                "Windows session is actively connected and has a foreground window"@
                            } else {
                                "Windows session is actively connected on the interactive Default desktop but has no foreground window; exact activation is required before window input"@
                            },
                        ),
                    )
                },
            }
        },
    }.insert("foreground_present"@, JsonTree::Bool(foreground))
}

/// The whole readiness report of a Windows session.
pub open spec fn windows_report(
    state: Result<i32, Seq<char>>,
    desktop: TextProbe,
    surface: Result<(), Seq<char>>,
    foreground: bool,
) -> Map<Seq<char>, JsonTree> {
    let ready = desktop_ready(state, desktop);
    let common = session_members(state, desktop, foreground).insert(
        "observation_ready"@,
        JsonTree::Bool(observation_ready(state, desktop)),
    ).insert("input_ready"@, JsonTree::Bool(ready && surface is Ok)).insert(
        "input_surface_ready"@,
        JsonTree::Bool(surface is Ok),
    ).insert(
        "input_surface_error"@,
        match surface {
            Ok(()) => JsonTree::Null,
            Err(message) => JsonTree::Text(message),
        },
    );
    match surface {
        Err(message) if ready => common.insert(
            "input_code"@,
            JsonTree::Text("interactive_input_surface_unavailable"@),
        ).insert(
            "input_message"@,
            JsonTree::Text("Windows input surface is unavailable: "@ + message),
        ).insert("input_attempted"@, JsonTree::Bool(false)).insert(
            "retry_safe"@,
            JsonTree::Bool(true),
        ),
        _ => common,
    }
}

/// The desktop a current-thread probe stands in for: the input desktop could
/// not be probed, the thread is on the interactive desktop, and some window
/// has the foreground.
pub open spec fn thread_fallback(
    desktop: TextProbe,
    thread: TextProbe,
    foreground: bool,
) -> Option<Seq<char>> {
    match (desktop, thread) {
        (Err(_), Ok(Some(name))) => if is_default_desktop(name) && foreground {
            Some(name)
        } else {
            None
        },
        _ => None,
    }
}

/// The readiness report that may rest on the current thread's desktop.
pub open spec fn windows_report_with_fallback(
    state: Result<i32, Seq<char>>,
    desktop: TextProbe,
    thread: TextProbe,
    surface: Result<(), Seq<char>>,
    foreground: bool,
) -> Map<Seq<char>, JsonTree> {
    match (thread_fallback(desktop, thread, foreground), desktop) {
        (Some(name), Err(probe_error)) => windows_report(
            state,
            Ok(Some(name)),
            surface,
            foreground,
        ).insert(
            "code"@,
            JsonTree::Text("interactive_desktop_ready_thread_fallback"@),
        ).insert(
            "input_desktop_source"@,
            JsonTree::Text("current_thread_fallback"@),
        ).insert("input_desktop_probe_error"@, JsonTree::Text(probe_error)),
        _ => windows_report(state, desktop, surface, foreground),
    }
}

fn desktop_is_default(name: &str) -> (r: bool)
    ensures
        r == is_default_desktop(name@),
{
    text_eq_ignoring_case(name, "Default")
}

fn session_report(
    state: &Result<i32, String>,
    input_desktop: Result<Option<&str>, &str>,
    foreground: bool,
) -> (r: Vec<JsonMember>)
    ensures
        object_tree(r@) == session_members(
            state_view(*state),
            probe_view(input_desktop),
            foreground,
        ),
{
    let mut report: Vec<JsonMember> = Vec::new();
    let name: Option<&str> = match input_desktop {
        Ok(name) => name,
        Err(_) => None,
    };
    match state {
        Err(message) => {
            put_member(&mut report, "success", Json::Bool(false));
            put_member(&mut report, "code", Json::text("interactive_session_unknown"));
            put_member(
                &mut report,
                "message",
                Json::Text(
                    join2(
                        "Windows interactive session state could not be read: ",
                        message.as_str(),
                    ),
                ),
            );
            put_member(&mut report, "input_desktop", Json::optional_text(name));
        },
        Ok(code) => {
            if *code != WINDOWS_SESSION_ACTIVE {
                put_member(&mut report, "success", Json::Bool(false));
                put_member(&mut report, "code", Json::text("interactive_session_not_active"));
                put_member(
                    &mut report,
                    "message",
                    Json::text(
                        "Windows session is not actively connected; reconnect it before mouse or keyboard input",
                    ),
                );
                let label = if *code == WINDOWS_SESSION_DISCONNECTED {
                    "disconnected"
                } else {
                    "not_active"
                };
                put_member(&mut report, "session_state", Json::text(label));
                put_member(&mut report, "session_state_code", Json::signed(*code as i64));
                put_member(&mut report, "input_desktop", Json::optional_text(name));
            } else {
                put_member(&mut report, "session_state", Json::text("active"));
                put_member(
                    &mut report,
                    "session_state_code",
                    Json::signed(WINDOWS_SESSION_ACTIVE as i64),
                );
                put_member(&mut report, "input_desktop", Json::optional_text(name));
                match input_desktop {
                    Err(message) => {
                        put_member(&mut report, "success", Json::Bool(false));
                        put_member(&mut report, "code", Json::text("interactive_desktop_unknown"));
                        put_member(
                            &mut report,
                            "message",
                            Json::Text(
                                join2("Windows input desktop could not be read: ", message),
                            ),
                        );
                        put_member(&mut report, "input_desktop_error", Json::text(message));
                    },
                    Ok(None) => {
                        put_member(&mut report, "success", Json::Bool(false));
                        put_member(&mut report, "code", Json::text("interactive_desktop_unknown"));
                        put_member(
                            &mut report,
                            "message",
                            Json::text("Windows input desktop identity is unavailable"),
                        );
                    },
                    Ok(Some(name)) => {
                        if !desktop_is_default(name) {
                            put_member(&mut report, "success", Json::Bool(false));
                            put_member(
                                &mut report,
                                "code",
                                Json::text("interactive_desktop_unavailable"),
                            );
                            put_member(
                                &mut report,
                                "message",
                                Json::text(
                                    "Windows input desktop is not the interactive Default desktop; return to Default before mouse or keyboard input",
                                ),
                            );
                        } else {
                            put_member(&mut report, "success", Json::Bool(true));
                            put_member(
                                &mut report,
                                "code",
                                Json::text("interactive_desktop_ready"),
                            );
                            let message = if foreground {
                                "Windows session is actively connected and has a foreground window"
                            } else {
                                "Windows session is actively connected on the interactive Default desktop but has no foreground window; exact activation is required before window input"
                            };
                            put_member(&mut report, "message", Json::text(message));
                        }
                    },
                }
            }
        },
    }
    put_member(&mut report, "foreground_present", Json::Bool(foreground));
    report
}

fn windows_report_members(
    state: Result<i32, String>,
    input_desktop: Result<Option<&str>, &str>,
    input_surface: Result<(), &str>,
    foreground: bool,
) -> (r: Vec<JsonMember>)
    ensures
        object_tree(r@) == windows_report(
            state_view(state),
            probe_view(input_desktop),
            surface_view(input_surface),
            foreground,
        ),
{
    let connected = match &state {
        Ok(code) => *code == WINDOWS_SESSION_ACTIVE,
        Err(_) => false,
    };
    let observable = connected && match input_desktop {
        Ok(Some(name)) => desktop_is_default(name),
        Ok(None) => false,
        Err(_) => true,
    };
    let ready = connected && match input_desktop {
        Ok(Some(name)) => desktop_is_default(name),
        _ => false,
    };
    let mut report = session_report(&state, input_desktop, foreground);
    let surface_ready = input_surface.is_ok();
    put_member(&mut report, "observation_ready", Json::Bool(observable));
    put_member(&mut report, "input_ready", Json::Bool(ready && surface_ready));
    put_member(&mut report, "input_surface_ready", Json::Bool(surface_ready));
    match input_surface {
        Ok(()) => {
            put_member(&mut report, "input_surface_error", Json::Null);
        },
        Err(message) => {
            put_member(&mut report, "input_surface_error", Json::text(message));
            if ready {
                put_member(
                    &mut report,
                    "input_code",
                    Json::text("interactive_input_surface_unavailable"),
                );
                put_member(
                    &mut report,
                    "input_message",
                    Json::Text(join2("Windows input surface is unavailable: ", message)),
                );
                put_member(&mut report, "input_attempted", Json::Bool(false));
                put_member(&mut report, "retry_safe", Json::Bool(true));
            }
        },
    }
    report
}

/// Reports readiness from the probes of a Windows session.
pub fn windows_diagnostic_base(
    state: Result<i32, String>,
    input_desktop: Result<Option<&str>, &str>,
    input_surface: Result<(), &str>,
    foreground: bool,
) -> (r: Json)
    ensures
        r.view() == JsonTree::Object(
            windows_report(
                state_view(state),
                probe_view(input_desktop),
                surface_view(input_surface),
                foreground,
            ),
        ),
{
    Json::Object(windows_report_members(state, input_desktop, input_surface, foreground))
}

/// Reports readiness, resting on the current thread's desktop where the input
/// desktop could not be probed.
pub fn windows_diagnostic_with_thread_fallback(
    state: Result<i32, String>,
    input_desktop: Result<Option<&str>, &str>,
    thread_desktop: Result<Option<&str>, &str>,
    input_surface: Result<(), &str>,
    foreground: bool,
) -> (r: Json)
    ensures
        r.view() == JsonTree::Object(
            windows_report_with_fallback(
                state_view(state),
                probe_view(input_desktop),
                probe_view(thread_desktop),
                surface_view(input_surface),
                foreground,
            ),
        ),
{
    if let Err(probe_error) = input_desktop {
        if let Ok(Some(name)) = thread_desktop {
            if desktop_is_default(name) && foreground {
                let mut report = windows_report_members(
                    state,
                    Ok(Some(name)),
                    input_surface,
                    foreground,
                );
                put_member(
                    &mut report,
                    "code",
                    Json::text("interactive_desktop_ready_thread_fallback"),
                );
                put_member(
                    &mut report,
                    "input_desktop_source",
                    Json::text("current_thread_fallback"),
                );
                put_member(&mut report, "input_desktop_probe_error", Json::text(probe_error));
                return Json::Object(report);
            }
        }
    }
    windows_diagnostic_base(state, input_desktop, input_surface, foreground)
}

/// Input, a picture of the desktop and one of a window each need what the report
/// says of them, and fail in its words.
pub proof fn law_desktops_are_used_where_they_are_ready(report: JsonTree)
    ensures
        desktop_observation_refusal(report) is None <==> report.bool_at("success"@) == Some(true),
        exact_window_observation_refusal(report) is None <==> report.bool_at("observation_ready"@)
            == Some(true),
        input_refusal(report) is None <==> report.bool_at("success"@) == Some(true)
            && report.bool_at("input_ready"@) == Some(true),
        desktop_observation_refusal(report) matches Some((code, text)) ==> code
            == ComputerUseErrorCode::InteractiveDesktopUnavailable && (report.text_at(
            "message"@,
        ) matches Some(message) ==> text == message),
        exact_window_observation_refusal(report) matches Some((code, text)) ==> code
            == ComputerUseErrorCode::InteractiveDesktopUnavailable && (report.text_at(
            "message"@,
        ) matches Some(message) ==> text == message),
        input_refusal(report) matches Some((code, text)) ==> code
            == ComputerUseErrorCode::InteractiveDesktopUnavailable && (report.text_at(
            "input_message"@,
        ) matches Some(message) ==> text == message),
{
}

proof fn lemma_session_members(
    state: Result<i32, Seq<char>>,
    desktop: TextProbe,
    foreground: bool,
)
    ensures
        session_members(state, desktop, foreground).contains_key("success"@),
        session_members(state, desktop, foreground)["success"@] == JsonTree::Bool(
            state == Ok::<i32, Seq<char>>(0) && (desktop matches Ok(Some(name))
                && same_ignoring_case(name, "Default"@)),
        ),
        session_members(state, desktop, foreground).contains_key("foreground_present"@),
        session_members(state, desktop, foreground)["foreground_present"@] == JsonTree::Bool(
            foreground,
        ),
        session_members(state, desktop, foreground).contains_key("input_desktop"@),
        session_members(state, desktop, foreground)["input_desktop"@] == (match desktop {
            Ok(Some(name)) => JsonTree::Text(name),
            _ => JsonTree::Null,
        }),
{
    reveal_strlit("success");
    reveal_strlit("code");
    reveal_strlit("message");
    reveal_strlit("input_desktop");
    reveal_strlit("session_state");
    reveal_strlit("session_state_code");
    reveal_strlit("input_desktop_error");
    reveal_strlit("foreground_present");
    assert("success"@.len() == 7);
    assert("code"@.len() == 4);
    assert("message"@.len() == 7);
    assert("input_desktop"@.len() == 13);
    assert("session_state"@.len() == 13);
    assert("session_state_code"@.len() == 18);
    assert("input_desktop_error"@.len() == 19);
    assert("foreground_present"@.len() == 18);
    assert("success"@[0] != "message"@[0]);
    assert("input_desktop"@[0] != "session_state"@[0]);
    assert("session_state_code"@[0] != "foreground_present"@[0]);
    match state {
        Err(_) => {},
        Ok(code) => {
            match desktop {
                Err(_) => {},
                Ok(None) => {},
                Ok(Some(name)) => {},
            }
        },
    }
}

/// A report tells of success exactly on the default desktop of a connected session,
/// and of input exactly where its surface is there as well; a desktop whose name is
/// not known still can be looked at, and one of another name cannot.
pub proof fn law_reports_tell_what_is_ready(
    state: Result<i32, Seq<char>>,
    desktop: TextProbe,
    surface: Result<(), Seq<char>>,
    foreground: bool,
)
    ensures
        ({
            let report = JsonTree::Object(windows_report(state, desktop, surface, foreground));
            let here = desktop matches Ok(Some(name)) && same_ignoring_case(name, "Default"@);
            &&& report.bool_at("success"@) == Some(state == Ok::<i32, Seq<char>>(0) && here)
            &&& report.bool_at("observation_ready"@) == Some(
                state == Ok::<i32, Seq<char>>(0) && (here || desktop is Err),
            )
            &&& report.bool_at("input_ready"@) == Some(
                state == Ok::<i32, Seq<char>>(0) && here && surface is Ok,
            )
            &&& report.bool_at("input_surface_ready"@) == Some(surface is Ok)
            &&& report.bool_at("foreground_present"@) == Some(foreground)
        }),
{
    reveal_strlit("success");
    reveal_strlit("foreground_present");
    reveal_strlit("observation_ready");
    reveal_strlit("input_ready");
    reveal_strlit("input_surface_ready");
    reveal_strlit("input_surface_error");
    reveal_strlit("input_code");
    reveal_strlit("input_message");
    reveal_strlit("input_attempted");
    reveal_strlit("retry_safe");
    assert("success"@.len() == 7);
    assert("foreground_present"@.len() == 18);
    assert("observation_ready"@.len() == 17);
    assert("input_ready"@.len() == 11);
    assert("input_surface_ready"@.len() == 19);
    assert("input_surface_error"@.len() == 19);
    assert("input_code"@.len() == 10);
    assert("input_message"@.len() == 13);
    assert("input_attempted"@.len() == 15);
    assert("retry_safe"@.len() == 10);
    assert("input_surface_ready"@[14] != "input_surface_error"@[14]);
    assert("input_code"@[0] != "retry_safe"@[0]);
    lemma_session_members(state, desktop, foreground);
}

/// Where the input desktop cannot be named, the desktop of the current thread stands
/// in for it exactly if it is the default one and a window is in front; the report
/// then tells so, with the failure of the first probe.
pub proof fn law_threads_stand_in_for_the_desktop(
    state: Result<i32, Seq<char>>,
    desktop: TextProbe,
    thread: TextProbe,
    surface: Result<(), Seq<char>>,
    foreground: bool,
)
    ensures
        ({
            let report = JsonTree::Object(
                windows_report_with_fallback(state, desktop, thread, surface, foreground),
            );
            let stands_in = desktop is Err && foreground && (thread matches Ok(Some(name))
                && same_ignoring_case(name, "Default"@));
            &&& stands_in ==> report.bool_at("success"@) == Some(
                state == Ok::<i32, Seq<char>>(0),
            )
            &&& stands_in ==> report.bool_at("input_ready"@) == Some(
                state == Ok::<i32, Seq<char>>(0) && surface is Ok,
            )
            &&& stands_in ==> report.text_at("code"@) == Some(
                "interactive_desktop_ready_thread_fallback"@,
            )
            &&& stands_in ==> report.text_at("input_desktop_source"@) == Some(
                "current_thread_fallback"@,
            )
            &&& stands_in ==> report.text_at("input_desktop_probe_error"@) == Some(
                desktop->Err_0,
            )
            &&& !stands_in ==> report == JsonTree::Object(
                windows_report(state, desktop, surface, foreground),
            )
        }),
{
    reveal_strlit("success");
    reveal_strlit("code");
    reveal_strlit("input_ready");
    reveal_strlit("input_desktop_source");
    reveal_strlit("input_desktop_probe_error");
    assert("success"@.len() == 7);
    assert("code"@.len() == 4);
    assert("input_ready"@.len() == 11);
    assert("input_desktop_source"@.len() == 20);
    assert("input_desktop_probe_error"@.len() == 25);
    if thread is Ok && thread->Ok_0 is Some {
        law_reports_tell_what_is_ready(state, Ok(thread->Ok_0), surface, foreground);
    }
}

/// Where the platform manages the desktop, nothing is refused.
pub proof fn law_managed_desktops_are_ready()
    ensures
        desktop_observation_refusal(platform_managed_report()) is None,
        exact_window_observation_refusal(platform_managed_report()) is None,
        input_refusal(platform_managed_report()) is None,
{
    reveal_strlit("success");
    reveal_strlit("code");
    reveal_strlit("message");
    reveal_strlit("observation_ready");
    reveal_strlit("input_ready");
    reveal_strlit("input_surface_ready");
    assert("success"@.len() == 7);
    assert("code"@.len() == 4);
    assert("message"@.len() == 7);
    assert("observation_ready"@.len() == 17);
    assert("input_ready"@.len() == 11);
    assert("input_surface_ready"@.len() == 19);
    assert("success"@[0] != "message"@[0]);
}

} // verus!
