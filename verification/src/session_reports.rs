//! What a session's operations publish of their reports. A window, an action,
//! and what else a report repeats come in as the JSON they are shown as.

use crate::contracts::{ComputerUseMarker, ComputerUseToolResult};
use crate::json::{put_member, Json, JsonMember};
#[allow(unused_imports)]
use crate::json::{object_tree, optional_text, text_or_null, unsigned_tree, JsonTree};
use crate::pixel_observation::rect_json;
#[allow(unused_imports)]
use crate::pixel_observation::rect_tree;
use crate::session_action::ActionReport;
use crate::session_calls::{EffectKind, EffectReport, NativeFrameReport};
use crate::session_lifecycle::marker_json;
#[allow(unused_imports)]
use crate::session_lifecycle::marker_tree;
use crate::session_recording::{RecordingStarted, RecordingStopped};
use crate::session_windows::ActivationReport;
use crate::tool_binding::attach_banner_status;
#[allow(unused_imports)]
use crate::tool_binding::with_banner;
use crate::window_target::WindowTarget;
use vstd::prelude::*;

verus! {

/// What is published of an action in a window, but for the banner.
pub open spec fn action_members(
    report: ActionReport,
    action: JsonTree,
    target: JsonTree,
    marker: ComputerUseMarker,
) -> Map<Seq<char>, JsonTree> {
    Map::<Seq<char>, JsonTree>::empty().insert("success"@, JsonTree::Bool(report.success)).insert(
        "action"@,
        action,
    ).insert("target"@, target).insert("marker"@, marker_tree(marker)).insert(
        "capture_provenance"@,
        report.provenance.view(),
    ).insert(
        if report.semantic {
            "windows_uia"@
        } else {
            "cua"@
        },
        report.result.value.view(),
    )
}

/// The result of an action in a window: the tool's own, with its value inside
/// of what the session says.
pub fn published_action(
    report: ActionReport,
    action: Json,
    target: Json,
    marker: &ComputerUseMarker,
    banner: Json,
) -> (r: ComputerUseToolResult)
    ensures
        r == (ComputerUseToolResult { value: r.value, ..report.result }),
        r.value.view() == with_banner(
            JsonTree::Object(action_members(report, action.view(), target.view(), *marker)),
            banner.view(),
        ),
{
    let mut result = report.result;
    let mut members: Vec<JsonMember> = Vec::new();
    put_member(&mut members, "success", Json::Bool(report.success));
    put_member(&mut members, "action", action);
    put_member(&mut members, "target", target);
    put_member(&mut members, "marker", marker_json(marker));
    put_member(&mut members, "capture_provenance", report.provenance);
    let cua = result.value;
    if report.semantic {
        put_member(&mut members, "windows_uia", cua);
    } else {
        put_member(&mut members, "cua", cua);
    }
    result.value = attach_banner_status(Json::Object(members), banner);
    result
}

/// What the driver said of an activation; a second attempt of the platform is
/// named beside it.
pub open spec fn activation_cua(report: ActivationReport) -> JsonTree {
    match report.result.value.view() {
        JsonTree::Object(members) if report.fallback => JsonTree::Object(
            members.insert("fallback"@, JsonTree::Text("windows_exact_foreground"@)),
        ),
        value => value,
    }
}

/// What is published of an activation.
pub open spec fn activation_members(report: ActivationReport, target: JsonTree) -> Map<
    Seq<char>,
    JsonTree,
> {
    Map::<Seq<char>, JsonTree>::empty().insert("success"@, JsonTree::Bool(true)).insert(
        "target"@,
        target,
    ).insert("cua"@, activation_cua(report)).insert(
        "text"@,
        JsonTree::Text(report.result.text@),
    ).insert("degraded"@, JsonTree::Bool(report.result.degraded))
}

fn activation_parts(report: ActivationReport, target: Json) -> (r: Vec<JsonMember>)
    ensures
        object_tree(r@) == activation_members(report, target.view()),
{
    let ghost whole = report;
    let ActivationReport { target: _, result, fallback } = report;
    let cua = match result.value {
        Json::Object(named) => {
            let mut named = named;
            if fallback {
                put_member(&mut named, "fallback", Json::text("windows_exact_foreground"));
            }
            Json::Object(named)
        },
        value => value,
    };
    assert(cua.view() == activation_cua(whole));
    let mut members: Vec<JsonMember> = Vec::new();
    put_member(&mut members, "success", Json::Bool(true));
    put_member(&mut members, "target", target);
    put_member(&mut members, "cua", cua);
    put_member(&mut members, "text", Json::text(result.text.as_str()));
    put_member(&mut members, "degraded", Json::Bool(result.degraded));
    members
}

/// The report of an activation before a session's start.
pub fn published_bootstrap(report: ActivationReport, target: Json) -> (r: Json)
    ensures
        r.view() == JsonTree::Object(activation_members(report, target.view())),
{
    Json::Object(activation_parts(report, target))
}

/// What is told of a window that was brought to the front.
pub open spec fn activation_tree(report: ActivationReport, target: JsonTree, native_windows: bool) -> JsonTree {
            JsonTree::Object(
        if native_windows {
            activation_members(report, target).insert(
                "automatic_input"@,
                JsonTree::Bool(false),
            ).insert("fresh_observation_required"@, JsonTree::Bool(true))
        } else {
            activation_members(report, target)
        },
    )
}

/// The report of an activation in a session. The native one also says that it
/// sent no input and voided what was seen before.
pub fn published_activation(report: ActivationReport, target: Json, native_windows: bool) -> (r: Json)
    ensures
        r.view() == activation_tree(report, target.view(), native_windows),
{
    let mut members = activation_parts(report, target);
    if native_windows {
        put_member(&mut members, "automatic_input", Json::Bool(false));
        put_member(&mut members, "fresh_observation_required", Json::Bool(true));
    }
    Json::Object(members)
}

/// What is told of a window that was restored.
pub open spec fn restore_tree(target: JsonTree) -> JsonTree {
            JsonTree::Object(
        Map::<Seq<char>, JsonTree>::empty().insert("success"@, JsonTree::Bool(true)).insert(
            "automatic_input"@,
            JsonTree::Bool(false),
        ).insert("target"@, target).insert(
            "fresh_observation_required"@,
            JsonTree::Bool(true),
        ),
    )
}

/// The report of a window that was restored and brought to the front.
pub fn published_restore(target: Json) -> (r: Json)
    ensures
        r.view() == restore_tree(target.view()),
{
    let mut members: Vec<JsonMember> = Vec::new();
    put_member(&mut members, "success", Json::Bool(true));
    put_member(&mut members, "automatic_input", Json::Bool(false));
    put_member(&mut members, "target", target);
    put_member(&mut members, "fresh_observation_required", Json::Bool(true));
    Json::Object(members)
}

/// How a close names the window.
pub open spec fn identity_tree(target: WindowTarget) -> JsonTree {
    JsonTree::Object(
        Map::<Seq<char>, JsonTree>::empty().insert(
            "process_id"@,
            unsigned_tree(target.pid as u64),
        ).insert("window_handle"@, unsigned_tree(target.window_id)),
    )
}

/// How an operation of the platform names its path.
pub open spec fn path_tree(path: Seq<char>) -> JsonTree {
    JsonTree::Object(Map::<Seq<char>, JsonTree>::empty().insert("path"@, JsonTree::Text(path)))
}

fn path_json(path: &str) -> (r: Json)
    ensures
        r.view() == path_tree(path@),
{
    let mut members: Vec<JsonMember> = Vec::new();
    put_member(&mut members, "path", Json::text(path));
    Json::Object(members)
}

/// What is told of a window that was asked to close.
pub open spec fn close_tree(target: WindowTarget) -> JsonTree {
            JsonTree::Object(
        Map::<Seq<char>, JsonTree>::empty().insert("success"@, JsonTree::Bool(true)).insert(
            "effect"@,
            JsonTree::Text("confirmed"@),
        ).insert("target"@, identity_tree(target)).insert(
            "cua"@,
            path_tree("windows_exact_post_wm_close"@),
        ).insert("process_terminated"@, JsonTree::Bool(false)).insert(
            "fresh_observation_required"@,
            JsonTree::Bool(true),
        ),
    )
}

/// The report of a window that was asked to close. Its process stays.
pub fn published_close(target: &WindowTarget) -> (r: Json)
    ensures
        r.view() == close_tree(*target),
{
    let mut identity: Vec<JsonMember> = Vec::new();
    put_member(&mut identity, "process_id", Json::unsigned(target.pid as u64));
    put_member(&mut identity, "window_handle", Json::unsigned(target.window_id));
    let mut members: Vec<JsonMember> = Vec::new();
    put_member(&mut members, "success", Json::Bool(true));
    put_member(&mut members, "effect", Json::text("confirmed"));
    put_member(&mut members, "target", Json::Object(identity));
    put_member(&mut members, "cua", path_json("windows_exact_post_wm_close"));
    put_member(&mut members, "process_terminated", Json::Bool(false));
    put_member(&mut members, "fresh_observation_required", Json::Bool(true));
    Json::Object(members)
}

/// What is published of a menu or a frame. `request` is the menu's path, or
/// the frame that was asked for.
pub open spec fn effect_members(
    kind: EffectKind,
    report: EffectReport,
    request: JsonTree,
    target: JsonTree,
) -> Map<Seq<char>, JsonTree> {
    let common = Map::<Seq<char>, JsonTree>::empty().insert(
        "success"@,
        JsonTree::Bool(report.success),
    ).insert("effect"@, JsonTree::Text(report.effect@)).insert("target"@, target).insert(
        "cua"@,
        report.result.value.view(),
    ).insert("text"@, JsonTree::Text(report.result.text@)).insert(
        "degraded"@,
        JsonTree::Bool(report.result.degraded),
    );
    match kind {
        EffectKind::Menu => common.insert(
            "verification_required"@,
            JsonTree::Bool(report.verification_required),
        ).insert("observation_required"@, JsonTree::Bool(true)).insert("path"@, request),
        EffectKind::Frame => common.insert("requested_frame"@, request),
    }
}

/// The report of a menu or a frame.
pub fn published_effect(kind: EffectKind, report: EffectReport, request: Json, target: Json) -> (r:
    Json)
    ensures
        r.view() == JsonTree::Object(
            effect_members(kind, report, request.view(), target.view()),
        ),
{
    let mut members: Vec<JsonMember> = Vec::new();
    put_member(&mut members, "success", Json::Bool(report.success));
    put_member(&mut members, "effect", Json::text(report.effect.as_str()));
    put_member(&mut members, "target", target);
    put_member(&mut members, "cua", report.result.value);
    put_member(&mut members, "text", Json::text(report.result.text.as_str()));
    put_member(&mut members, "degraded", Json::Bool(report.result.degraded));
    match kind {
        EffectKind::Menu => {
            put_member(
                &mut members,
                "verification_required",
                Json::Bool(report.verification_required),
            );
            put_member(&mut members, "observation_required", Json::Bool(true));
            put_member(&mut members, "path", request);
        },
        EffectKind::Frame => {
            put_member(&mut members, "requested_frame", request);
        },
    }
    Json::Object(members)
}

/// What is told of a window that was placed.
pub open spec fn native_frame_tree(report: NativeFrameReport, request: JsonTree, target: JsonTree) -> JsonTree {
            JsonTree::Object(
        Map::<Seq<char>, JsonTree>::empty().insert("success"@, JsonTree::Bool(true)).insert(
            "effect"@,
            JsonTree::Text("confirmed"@),
        ).insert("requested_frame"@, request).insert(
            "applied_frame"@,
            rect_tree(report.applied),
        ).insert("target"@, target).insert(
            "cua"@,
            path_tree("windows_exact_set_window_pos"@),
        ).insert(
            "text"@,
            JsonTree::Text("Set and verified the exact Windows PID/HWND frame."@),
        ).insert("degraded"@, JsonTree::Bool(false)),
    )
}

/// The report of a frame that the platform itself applied.
pub fn published_native_frame(report: &NativeFrameReport, request: Json, target: Json) -> (r: Json)
    ensures
        r.view() == native_frame_tree(*report, request.view(), target.view()),
{
    let mut members: Vec<JsonMember> = Vec::new();
    put_member(&mut members, "success", Json::Bool(true));
    put_member(&mut members, "effect", Json::text("confirmed"));
    put_member(&mut members, "requested_frame", request);
    put_member(&mut members, "applied_frame", rect_json(&report.applied));
    put_member(&mut members, "target", target);
    put_member(&mut members, "cua", path_json("windows_exact_set_window_pos"));
    put_member(
        &mut members,
        "text",
        Json::text("Set and verified the exact Windows PID/HWND frame."),
    );
    put_member(&mut members, "degraded", Json::Bool(false));
    Json::Object(members)
}

/// What is told of a window.
pub open spec fn window_state_tree(target: WindowTarget) -> JsonTree {
            JsonTree::Object(
        Map::<Seq<char>, JsonTree>::empty().insert(
            "process_id"@,
            unsigned_tree(target.pid as u64),
        ).insert("window_handle"@, unsigned_tree(target.window_id)).insert(
            "exists"@,
            JsonTree::Bool(true),
        ).insert("visible"@, JsonTree::Bool(target.is_on_screen)).insert(
            "minimized"@,
            JsonTree::Bool(target.is_minimized),
        ).insert("foreground"@, JsonTree::Bool(target.is_foreground)).insert(
            "bounds"@,
            rect_tree(target.bounds),
        ),
    )
}

/// The state of the session's window.
pub fn published_window_state(target: &WindowTarget) -> (r: Json)
    ensures
        r.view() == window_state_tree(*target),
{
    let mut members: Vec<JsonMember> = Vec::new();
    put_member(&mut members, "process_id", Json::unsigned(target.pid as u64));
    put_member(&mut members, "window_handle", Json::unsigned(target.window_id));
    put_member(&mut members, "exists", Json::Bool(true));
    put_member(&mut members, "visible", Json::Bool(target.is_on_screen));
    put_member(&mut members, "minimized", Json::Bool(target.is_minimized));
    put_member(&mut members, "foreground", Json::Bool(target.is_foreground));
    put_member(&mut members, "bounds", rect_json(&target.bounds));
    Json::Object(members)
}

/// A trajectory alone, or together with its video.
pub open spec fn recording_tree(trajectory: JsonTree, video: Option<Json>) -> JsonTree {
    match video {
        None => trajectory,
        Some(video) => JsonTree::Object(
            Map::<Seq<char>, JsonTree>::empty().insert("trajectory"@, trajectory).insert(
                "video"@,
                video.view(),
            ),
        ),
    }
}

fn recording_json(trajectory: Json, video: Option<Json>) -> (r: Json)
    ensures
        r.view() == recording_tree(trajectory.view(), video),
{
    match video {
        None => trajectory,
        Some(video) => {
            let mut members: Vec<JsonMember> = Vec::new();
            put_member(&mut members, "trajectory", trajectory);
            put_member(&mut members, "video", video);
            Json::Object(members)
        },
    }
}

/// The report of a recording that began.
pub fn published_recording_start(started: RecordingStarted) -> (r: Json)
    ensures
        r.view() == recording_tree(started.trajectory.view(), started.video),
{
    recording_json(started.trajectory, started.video)
}

/// The report of a recording that ended.
pub fn published_recording_stop(stopped: RecordingStopped) -> (r: Json)
    ensures
        r.view() == recording_tree(stopped.trajectory.view(), stopped.video),
{
    recording_json(stopped.trajectory, stopped.video)
}

/// What is told of an approved fallback to the picture.
pub open spec fn escalation_tree(reason: Seq<char>, detail: Option<Seq<char>>) -> JsonTree {
            JsonTree::Object(
        Map::<Seq<char>, JsonTree>::empty().insert("approved"@, JsonTree::Bool(true)).insert(
            "capture_scope"@,
            JsonTree::Text("window"@),
        ).insert("fallback"@, JsonTree::Text("pixel"@)).insert(
            "reason"@,
            JsonTree::Text(reason),
        ).insert("detail"@, text_or_null(detail)),
    )
}

/// The report of an approved escalation.
pub fn published_escalation(reason: &str, detail: Option<&str>) -> (r: Json)
    ensures
        r.view() == escalation_tree(reason@, optional_text(detail)),
{
    let mut members: Vec<JsonMember> = Vec::new();
    put_member(&mut members, "approved", Json::Bool(true));
    put_member(&mut members, "capture_scope", Json::text("window"));
    put_member(&mut members, "fallback", Json::text("pixel"));
    put_member(&mut members, "reason", Json::text(reason));
    put_member(&mut members, "detail", Json::optional_text(detail));
    Json::Object(members)
}

/// What is told of an application that was ended.
pub open spec fn termination_tree(target: JsonTree, termination: JsonTree, cleanup: JsonTree) -> JsonTree {
            JsonTree::Object(
        Map::<Seq<char>, JsonTree>::empty().insert("success"@, JsonTree::Bool(true)).insert(
            "target"@,
            target,
        ).insert("termination"@, termination).insert("cleanup"@, cleanup),
    )
}

/// The report of a process that was ended, and of the session's own end.
pub fn published_termination(target: Json, termination: Json, cleanup: Json) -> (r: Json)
    ensures
        r.view() == termination_tree(target.view(), termination.view(), cleanup.view()),
{
    let mut members: Vec<JsonMember> = Vec::new();
    put_member(&mut members, "success", Json::Bool(true));
    put_member(&mut members, "target", target);
    put_member(&mut members, "termination", termination);
    put_member(&mut members, "cleanup", cleanup);
    Json::Object(members)
}

/// The state of a feed that does not run.
pub fn inactive_feed() -> (r: Json)
    ensures
        r.view() == JsonTree::Object(
            Map::<Seq<char>, JsonTree>::empty().insert("active"@, JsonTree::Bool(false)),
        ),
{
    let mut members: Vec<JsonMember> = Vec::new();
    put_member(&mut members, "active", Json::Bool(false));
    Json::Object(members)
}

/// A published action tells whether it took effect, the action and the window as
/// they were given, the marker, where the evidence was from, and what the driver
/// answered, under the name of the way that was taken; the answer is passed on.
pub proof fn law_actions_are_published_whole(
    report: ActionReport,
    action: JsonTree,
    target: JsonTree,
    marker: ComputerUseMarker,
)
    ensures
        ({
            let told = JsonTree::Object(action_members(report, action, target, marker));
            &&& told.bool_at("success"@) == Some(report.success)
            &&& told.get("action"@) == Some(action)
            &&& told.get("target"@) == Some(target)
            &&& told.get("marker"@) == Some(marker_tree(marker))
            &&& told.get("capture_provenance"@) == Some(report.provenance.view())
            &&& report.semantic ==> told.get("windows_uia"@) == Some(report.result.value.view())
                && told.get("cua"@) is None
            &&& !report.semantic ==> told.get("cua"@) == Some(report.result.value.view())
                && told.get("windows_uia"@) is None
        }),
{
    reveal_strlit("success");
    reveal_strlit("action");
    reveal_strlit("target");
    reveal_strlit("marker");
    reveal_strlit("capture_provenance");
    reveal_strlit("windows_uia");
    reveal_strlit("cua");
    assert("success"@.len() == 7);
    assert("action"@.len() == 6);
    assert("target"@.len() == 6);
    assert("marker"@.len() == 6);
    assert("capture_provenance"@.len() == 18);
    assert("windows_uia"@.len() == 11);
    assert("cua"@.len() == 3);
    assert("action"@[0] != "target"@[0]);
    assert("action"@[0] != "marker"@[0]);
    assert("target"@[0] != "marker"@[0]);
}

/// A window that was brought to the front is told of with what the driver
/// answered, and with the exact fallback where that was taken; on native Windows
/// nothing was typed, and a fresh look is asked for.
pub proof fn law_activations_are_published_whole(
    report: ActivationReport,
    target: JsonTree,
    native_windows: bool,
)
    ensures
        ({
            let told = activation_tree(report, target, native_windows);
            &&& told.bool_at("success"@) == Some(true)
            &&& told.get("target"@) == Some(target)
            &&& told.text_at("text"@) == Some(report.result.text@)
            &&& told.bool_at("degraded"@) == Some(report.result.degraded)
            &&& !report.fallback ==> told.get("cua"@) == Some(report.result.value.view())
            &&& report.fallback && report.result.value.view() is Object ==> (told.get(
                "cua"@,
            ) matches Some(cua) && cua.text_at("fallback"@) == Some("windows_exact_foreground"@)
                && forall|k: Seq<char>|
                k != "fallback"@ ==> #[trigger] cua.get(k) == report.result.value.view().get(k))
            &&& native_windows ==> told.bool_at("automatic_input"@) == Some(false) && told.bool_at(
                "fresh_observation_required"@,
            ) == Some(true)
            &&& !native_windows ==> told.get("automatic_input"@) is None && told.get(
                "fresh_observation_required"@,
            ) is None
        }),
{
    reveal_strlit("success");
    reveal_strlit("target");
    reveal_strlit("cua");
    reveal_strlit("text");
    reveal_strlit("degraded");
    reveal_strlit("automatic_input");
    reveal_strlit("fresh_observation_required");
    assert("success"@.len() == 7);
    assert("target"@.len() == 6);
    assert("cua"@.len() == 3);
    assert("text"@.len() == 4);
    assert("degraded"@.len() == 8);
    assert("automatic_input"@.len() == 15);
    assert("fresh_observation_required"@.len() == 26);
}

/// A restored window, and one that was asked to close, are told of by their
/// identity, ask for a fresh look, and claim no more than was done.
pub proof fn law_restores_and_closes_ask_for_a_fresh_look(window: WindowTarget, target: JsonTree)
    ensures
        restore_tree(target).bool_at("success"@) == Some(true),
        restore_tree(target).bool_at("automatic_input"@) == Some(false),
        restore_tree(target).get("target"@) == Some(target),
        restore_tree(target).bool_at("fresh_observation_required"@) == Some(true),
        close_tree(window).bool_at("success"@) == Some(true),
        close_tree(window).text_at("effect"@) == Some("confirmed"@),
        close_tree(window).get("target"@) matches Some(identity) && identity.u64_at("process_id"@)
            == Some(window.pid as u64) && identity.u64_at("window_handle"@) == Some(
            window.window_id,
        ),
        close_tree(window).get("cua"@) matches Some(cua) && cua.text_at("path"@) == Some(
            "windows_exact_post_wm_close"@,
        ),
        close_tree(window).bool_at("process_terminated"@) == Some(false),
        close_tree(window).bool_at("fresh_observation_required"@) == Some(true),
{
    reveal_strlit("success");
    reveal_strlit("automatic_input");
    reveal_strlit("target");
    reveal_strlit("fresh_observation_required");
    reveal_strlit("effect");
    reveal_strlit("cua");
    reveal_strlit("process_terminated");
    reveal_strlit("path");
    reveal_strlit("process_id");
    reveal_strlit("window_handle");
    assert("success"@.len() == 7);
    assert("automatic_input"@.len() == 15);
    assert("target"@.len() == 6);
    assert("fresh_observation_required"@.len() == 26);
    assert("effect"@.len() == 6);
    assert("cua"@.len() == 3);
    assert("process_terminated"@.len() == 18);
    assert("path"@.len() == 4);
    assert("process_id"@.len() == 10);
    assert("window_handle"@.len() == 13);
    assert("target"@[0] != "effect"@[0]);
}

/// A menu's or a frame's effect is told of as it was found, with the request, the
/// window and the driver's answer; after a menu a fresh look is asked for.
pub proof fn law_effects_are_published_whole(
    kind: EffectKind,
    report: EffectReport,
    request: JsonTree,
    target: JsonTree,
)
    ensures
        ({
            let told = JsonTree::Object(effect_members(kind, report, request, target));
            &&& told.bool_at("success"@) == Some(report.success)
            &&& told.text_at("effect"@) == Some(report.effect@)
            &&& told.get("target"@) == Some(target)
            &&& told.get("cua"@) == Some(report.result.value.view())
            &&& told.text_at("text"@) == Some(report.result.text@)
            &&& told.bool_at("degraded"@) == Some(report.result.degraded)
            &&& kind == EffectKind::Menu ==> told.get("path"@) == Some(request) && told.bool_at(
                "verification_required"@,
            ) == Some(report.verification_required) && told.bool_at("observation_required"@)
                == Some(true)
            &&& kind == EffectKind::Frame ==> told.get("requested_frame"@) == Some(request)
                && told.get("path"@) is None
        }),
{
    reveal_strlit("success");
    reveal_strlit("effect");
    reveal_strlit("target");
    reveal_strlit("cua");
    reveal_strlit("text");
    reveal_strlit("degraded");
    reveal_strlit("verification_required");
    reveal_strlit("observation_required");
    reveal_strlit("path");
    reveal_strlit("requested_frame");
    assert("success"@.len() == 7);
    assert("effect"@.len() == 6);
    assert("target"@.len() == 6);
    assert("cua"@.len() == 3);
    assert("text"@.len() == 4);
    assert("degraded"@.len() == 8);
    assert("verification_required"@.len() == 21);
    assert("observation_required"@.len() == 20);
    assert("path"@.len() == 4);
    assert("requested_frame"@.len() == 15);
    assert("effect"@[0] != "target"@[0]);
    assert("text"@[0] != "path"@[0]);
}

/// A window that was placed is told of with the frame asked for and the one that
/// was read back.
pub proof fn law_placed_windows_are_published_whole(
    report: NativeFrameReport,
    request: JsonTree,
    target: JsonTree,
)
    ensures
        native_frame_tree(report, request, target).bool_at("success"@) == Some(true),
        native_frame_tree(report, request, target).text_at("effect"@) == Some("confirmed"@),
        native_frame_tree(report, request, target).get("requested_frame"@) == Some(request),
        native_frame_tree(report, request, target).get("applied_frame"@) == Some(
            rect_tree(report.applied),
        ),
        native_frame_tree(report, request, target).get("target"@) == Some(target),
        native_frame_tree(report, request, target).bool_at("degraded"@) == Some(false),
        native_frame_tree(report, request, target).get("cua"@) matches Some(cua) && cua.text_at(
            "path"@,
        ) == Some("windows_exact_set_window_pos"@),
{
    reveal_strlit("success");
    reveal_strlit("effect");
    reveal_strlit("requested_frame");
    reveal_strlit("applied_frame");
    reveal_strlit("target");
    reveal_strlit("cua");
    reveal_strlit("text");
    reveal_strlit("degraded");
    reveal_strlit("path");
    assert("success"@.len() == 7);
    assert("effect"@.len() == 6);
    assert("requested_frame"@.len() == 15);
    assert("applied_frame"@.len() == 13);
    assert("target"@.len() == 6);
    assert("cua"@.len() == 3);
    assert("text"@.len() == 4);
    assert("degraded"@.len() == 8);
    assert("path"@.len() == 4);
    assert("effect"@[0] != "target"@[0]);
    assert("text"@[0] != "path"@[0]);
}

/// The state of a window is told as it was found.
pub proof fn law_window_states_are_told_as_found(target: WindowTarget)
    ensures
        window_state_tree(target).u64_at("process_id"@) == Some(target.pid as u64),
        window_state_tree(target).u64_at("window_handle"@) == Some(target.window_id),
        window_state_tree(target).bool_at("exists"@) == Some(true),
        window_state_tree(target).bool_at("visible"@) == Some(target.is_on_screen),
        window_state_tree(target).bool_at("minimized"@) == Some(target.is_minimized),
        window_state_tree(target).bool_at("foreground"@) == Some(target.is_foreground),
        window_state_tree(target).get("bounds"@) == Some(rect_tree(target.bounds)),
{
    reveal_strlit("process_id");
    reveal_strlit("window_handle");
    reveal_strlit("exists");
    reveal_strlit("visible");
    reveal_strlit("minimized");
    reveal_strlit("foreground");
    reveal_strlit("bounds");
    assert("process_id"@.len() == 10);
    assert("window_handle"@.len() == 13);
    assert("exists"@.len() == 6);
    assert("visible"@.len() == 7);
    assert("minimized"@.len() == 9);
    assert("foreground"@.len() == 10);
    assert("bounds"@.len() == 6);
    assert("process_id"@[0] != "foreground"@[0]);
    assert("exists"@[0] != "bounds"@[0]);
}

/// A recording is told of by its trajectory alone, or with its video beside it.
pub proof fn law_recordings_are_published_whole(trajectory: JsonTree, video: Option<Json>)
    ensures
        video is None ==> recording_tree(trajectory, video) == trajectory,
        video matches Some(video) ==> recording_tree(trajectory, Some(video)).get("trajectory"@)
            == Some(trajectory) && recording_tree(trajectory, Some(video)).get("video"@) == Some(
            video.view(),
        ),
{
    reveal_strlit("trajectory");
    reveal_strlit("video");
    assert("trajectory"@.len() == 10);
    assert("video"@.len() == 5);
}

/// An approved fallback names its reason and detail, and stays with the window.
pub proof fn law_escalations_name_their_reason(reason: Seq<char>, detail: Option<Seq<char>>)
    ensures
        escalation_tree(reason, detail).bool_at("approved"@) == Some(true),
        escalation_tree(reason, detail).text_at("capture_scope"@) == Some("window"@),
        escalation_tree(reason, detail).text_at("fallback"@) == Some("pixel"@),
        escalation_tree(reason, detail).text_at("reason"@) == Some(reason),
        escalation_tree(reason, detail).text_at("detail"@) == detail,
{
    reveal_strlit("approved");
    reveal_strlit("capture_scope");
    reveal_strlit("fallback");
    reveal_strlit("reason");
    reveal_strlit("detail");
    assert("approved"@.len() == 8);
    assert("capture_scope"@.len() == 13);
    assert("fallback"@.len() == 8);
    assert("reason"@.len() == 6);
    assert("detail"@.len() == 6);
    assert("approved"@[0] != "fallback"@[0]);
    assert("reason"@[0] != "detail"@[0]);
}

/// The end of an application tells the window, how it ended, and what was put away.
pub proof fn law_terminations_are_published_whole(
    target: JsonTree,
    termination: JsonTree,
    cleanup: JsonTree,
)
    ensures
        termination_tree(target, termination, cleanup).bool_at("success"@) == Some(true),
        termination_tree(target, termination, cleanup).get("target"@) == Some(target),
        termination_tree(target, termination, cleanup).get("termination"@) == Some(termination),
        termination_tree(target, termination, cleanup).get("cleanup"@) == Some(cleanup),
{
    reveal_strlit("success");
    reveal_strlit("target");
    reveal_strlit("termination");
    reveal_strlit("cleanup");
    assert("success"@.len() == 7);
    assert("target"@.len() == 6);
    assert("termination"@.len() == 11);
    assert("cleanup"@.len() == 7);
    assert("success"@[0] != "cleanup"@[0]);
}

} // verus!
