//! Which tools a session may call, how it is bound into their arguments, and
//! what their inventory and replies mean.

use crate::contracts::{ComputerUseAction, ComputerUseToolResult};
use crate::errors::{ComputerUseError, ComputerUseErrorCode, ComputerUseResult};
#[allow(unused_imports)]
use crate::errors::fails_with;
use crate::json::{
    duplicate_members, members_of, parse_json, put_member, without_member, Json, JsonMember,
};
#[allow(unused_imports)]
use crate::json::{object_tree, optional_tree, parsed_text, unsigned_tree, JsonTree};
use crate::session::{BannerActivity, INPUT_CALL_TIMEOUT_MS};
use crate::text::{join3, quoted_text, text_begins_with, text_eq};
#[allow(unused_imports)]
use crate::text::{begins_with, debug_quoted};
use crate::window_target::WindowTarget;
use vstd::prelude::*;
use vstd::string::*;

verus! {

/// How long a browser tool may take: longer than its own bounded reconnects.
pub const BROWSER_TOOL_CALL_TIMEOUT_MS: u64 = 60_000;

/// What a browser tool can do.
#[derive(Debug, Clone, Copy, PartialEq, Eq, Structural)]
pub enum BrowserToolDisposition {
    ReadOnlyEvidence,
    PotentialMutation,
}

/// The browser tools that are exposed, and what each can do. What is not
/// listed here is not exposed.
pub open spec fn browser_route(name: Seq<char>, arguments: JsonTree) -> Option<
    BrowserToolDisposition,
> {
    if name == "get_browser_state"@ {
        Some(BrowserToolDisposition::ReadOnlyEvidence)
    } else if name == "browser_dialog"@ {
        if arguments.text_at("action"@) == Some("inspect"@) {
            Some(BrowserToolDisposition::ReadOnlyEvidence)
        } else if arguments.text_at("action"@) == Some("accept"@) || arguments.text_at("action"@)
            == Some("dismiss"@) {
            Some(BrowserToolDisposition::PotentialMutation)
        } else {
            None
        }
    } else if name == "browser_prepare"@ || name == "browser_navigate"@ || name
        == "browser_click"@ || name == "browser_type"@ || name == "browser_pointer"@ || name
        == "browser_set_input_files"@ {
        Some(BrowserToolDisposition::PotentialMutation)
    } else {
        None
    }
}

pub fn browser_tool_route(name: &str, arguments: &Json) -> (r: Option<BrowserToolDisposition>)
    ensures
        r == browser_route(name@, arguments.view()),
{
    if text_eq(name, "get_browser_state") {
        return Some(BrowserToolDisposition::ReadOnlyEvidence);
    }
    if text_eq(name, "browser_dialog") {
        return match arguments.text_at("action") {
            Some(action) => if text_eq(action, "inspect") {
                Some(BrowserToolDisposition::ReadOnlyEvidence)
            } else if text_eq(action, "accept") || text_eq(action, "dismiss") {
                Some(BrowserToolDisposition::PotentialMutation)
            } else {
                None
            },
            None => None,
        };
    }
    if text_eq(name, "browser_prepare") || text_eq(name, "browser_navigate") || text_eq(
        name,
        "browser_click",
    ) || text_eq(name, "browser_type") || text_eq(name, "browser_pointer") || text_eq(
        name,
        "browser_set_input_files",
    ) {
        Some(BrowserToolDisposition::PotentialMutation)
    } else {
        None
    }
}

pub fn browser_tool_requires_input(name: &str, arguments: &Json) -> (r: bool)
    ensures
        r == (browser_route(name@, arguments.view()) == Some(
            BrowserToolDisposition::PotentialMutation,
        )),
{
    match browser_tool_route(name, arguments) {
        Some(route) => route == BrowserToolDisposition::PotentialMutation,
        None => false,
    }
}

/// How long the tool may take.
pub open spec fn tool_timeout_ms(name: Seq<char>) -> u64 {
    if begins_with(name, "browser_"@) || name == "get_browser_state"@ {
        BROWSER_TOOL_CALL_TIMEOUT_MS
    } else {
        INPUT_CALL_TIMEOUT_MS
    }
}

pub fn browser_tool_timeout(name: &str) -> (r: u64)
    ensures
        r == tool_timeout_ms(name@),
{
    if text_begins_with(name, "browser_") || text_eq(name, "get_browser_state") {
        BROWSER_TOOL_CALL_TIMEOUT_MS
    } else {
        INPUT_CALL_TIMEOUT_MS
    }
}

/// What the banner shows while a bound tool runs.
pub open spec fn bound_tool_activity(name: Seq<char>) -> BannerActivity {
    if name == "browser_navigate"@ || name == "browser_prepare"@ {
        BannerActivity::Navigating
    } else if name == "get_browser_state"@ {
        BannerActivity::Observing
    } else {
        BannerActivity::Operating
    }
}

pub fn banner_activity_for_bound_tool(name: &str) -> (r: BannerActivity)
    ensures
        r == bound_tool_activity(name@),
{
    if text_eq(name, "browser_navigate") || text_eq(name, "browser_prepare") {
        BannerActivity::Navigating
    } else if text_eq(name, "get_browser_state") {
        BannerActivity::Observing
    } else {
        BannerActivity::Operating
    }
}

/// Whether an action is being prepared or its input is going out.
#[derive(Debug, Clone, Copy, PartialEq, Eq, Structural)]
pub enum ActionBannerPhase {
    Preparing,
    Injecting,
}

/// The action is typed rather than pointed.
pub open spec fn is_keyboard_action(verb: Seq<char>) -> bool {
    verb == "type"@ || verb == "type_chars"@ || verb == "set_text"@ || verb == "set_value"@ || verb
        == "keypress"@ || verb == "keyboard_shortcut"@
}

/// What the banner shows in a phase of an action.
pub open spec fn action_phase_activity(
    action: ComputerUseAction,
    phase: ActionBannerPhase,
) -> BannerActivity {
    match phase {
        ActionBannerPhase::Preparing => BannerActivity::Operating,
        ActionBannerPhase::Injecting => if is_keyboard_action(action.action@) {
            BannerActivity::KeyboardInput
        } else {
            BannerActivity::PointerInput
        },
    }
}

pub fn banner_activity_for_action_phase(action: &ComputerUseAction, phase: ActionBannerPhase) -> (r:
    BannerActivity)
    ensures
        r == action_phase_activity(*action, phase),
{
    match phase {
        ActionBannerPhase::Preparing => BannerActivity::Operating,
        ActionBannerPhase::Injecting => {
            let verb = action.action.as_str();
            if text_eq(verb, "type") || text_eq(verb, "type_chars") || text_eq(verb, "set_text")
                || text_eq(verb, "set_value") || text_eq(verb, "keypress") || text_eq(
                verb,
                "keyboard_shortcut",
            ) {
                BannerActivity::KeyboardInput
            } else {
                BannerActivity::PointerInput
            }
        },
    }
}

/// The value with the banner's status beside it. What is not an object is
/// wrapped.
pub open spec fn with_banner(value: JsonTree, banner: JsonTree) -> JsonTree {
    JsonTree::Object(
        match value {
            JsonTree::Object(members) => members,
            _ => Map::<Seq<char>, JsonTree>::empty().insert("cua"@, value),
        }.insert("banner"@, banner),
    )
}

pub fn attach_banner_status(value: Json, banner: Json) -> (r: Json)
    ensures
        r.view() == with_banner(value.view(), banner.view()),
{
    match value {
        Json::Object(members) => {
            let mut members = members;
            put_member(&mut members, "banner", banner);
            Json::Object(members)
        },
        value => {
            let mut members: Vec<JsonMember> = Vec::new();
            put_member(&mut members, "cua", value);
            put_member(&mut members, "banner", banner);
            Json::Object(members)
        },
    }
}

/// The activation with the indicator's motion beside it, where there is any.
pub open spec fn with_motion(activation: JsonTree, banner: JsonTree) -> JsonTree {
    match banner.get("motion"@) {
        None => activation,
        Some(motion) => JsonTree::Object(
            match activation {
                JsonTree::Object(members) => members,
                _ => Map::<Seq<char>, JsonTree>::empty().insert("cua"@, activation),
            }.insert("indicator_motion"@, motion),
        ),
    }
}

pub fn attach_indicator_motion_to_activation(activation: Json, banner: &Json) -> (r: Json)
    ensures
        r.view() == with_motion(activation.view(), banner.view()),
{
    let motion = match banner.get("motion") {
        Some(motion) => motion.clone(),
        None => return activation,
    };
    match activation {
        Json::Object(members) => {
            let mut members = members;
            put_member(&mut members, "indicator_motion", motion);
            Json::Object(members)
        },
        activation => {
            let mut members: Vec<JsonMember> = Vec::new();
            put_member(&mut members, "cua", activation);
            put_member(&mut members, "indicator_motion", motion);
            Json::Object(members)
        },
    }
}

/// The message about a tool by its quoted name.
pub open spec fn tool_message(before: Seq<char>, name: Seq<char>, after: Seq<char>) -> Seq<char> {
    before + debug_quoted(name) + after
}

pub fn tool_failure(code: ComputerUseErrorCode, before: &str, name: &str, after: &str) -> (r:
    ComputerUseError)
    ensures
        crate::errors::is_plain_error(r, code, tool_message(before@, name@, after@)),
{
    let quoted = quoted_text(name);
    ComputerUseError::owned(code, join3(before, quoted.as_str(), after))
}

/// The arguments with the session bound into them.
pub open spec fn session_members(
    members: Map<Seq<char>, JsonTree>,
    session_id: Seq<char>,
) -> Map<Seq<char>, JsonTree> {
    members.insert("session"@, JsonTree::Text(session_id))
}

/// A call is bound to the session.
pub open spec fn session_is_bound(arguments: JsonTree, session_id: Seq<char>, refusal: Seq<char>, r: ComputerUseResult<Json>) -> bool {
    match arguments {
        JsonTree::Object(members) => r matches Ok(bound) && bound.view() == JsonTree::Object(
            session_members(members, session_id),
        ),
        _ => fails_with(r, ComputerUseErrorCode::InvalidAction, refusal),
    }
}

/// Binds the session into a tool's arguments, which must be an object.
pub fn bind_session(arguments: &Json, session_id: &str, refusal: &str) -> (r: ComputerUseResult<
    Json,
>)
    ensures
        session_is_bound(arguments.view(), session_id@, refusal@, r),
{
    match members_of(arguments) {
        Some(members) => {
            let mut members = duplicate_members(members);
            put_member(&mut members, "session", Json::text(session_id));
            Ok(Json::Object(members))
        },
        None => Err(ComputerUseError::new(ComputerUseErrorCode::InvalidAction, refusal)),
    }
}

/// A reserved argument is given that the tool does not take.
pub open spec fn unbindable(
    members: Map<Seq<char>, JsonTree>,
    properties: Map<Seq<char>, JsonTree>,
    name: Seq<char>,
) -> bool {
    members.dom().contains(name) && !properties.dom().contains(name)
}

/// The first reserved argument that the tool does not take.
pub open spec fn first_unbindable(
    members: Map<Seq<char>, JsonTree>,
    properties: Map<Seq<char>, JsonTree>,
) -> Option<Seq<char>> {
    if unbindable(members, properties, "pid"@) {
        Some("pid"@)
    } else if unbindable(members, properties, "window_id"@) {
        Some("window_id"@)
    } else if unbindable(members, properties, "session"@) {
        Some("session"@)
    } else {
        None
    }
}

/// The tool takes nothing that would bind it to the session's window.
pub open spec fn unbound(properties: Map<Seq<char>, JsonTree>) -> bool {
    !properties.dom().contains("pid"@) && !properties.dom().contains("window_id"@)
        && !properties.dom().contains("session"@)
}

pub open spec fn insert_if(
    members: Map<Seq<char>, JsonTree>,
    wanted: bool,
    name: Seq<char>,
    value: JsonTree,
) -> Map<Seq<char>, JsonTree> {
    if wanted {
        members.insert(name, value)
    } else {
        members
    }
}

/// The arguments with everything reserved replaced by the session's own
/// binding, as far as the tool takes it.
pub open spec fn bound_members(
    members: Map<Seq<char>, JsonTree>,
    properties: Map<Seq<char>, JsonTree>,
    target: WindowTarget,
    session_id: Seq<char>,
) -> Map<Seq<char>, JsonTree> {
    insert_if(
        insert_if(
            insert_if(
                members.remove("pid"@).remove("window_id"@).remove("session"@),
                properties.dom().contains("pid"@),
                "pid"@,
                unsigned_tree(target.pid as u64),
            ),
            properties.dom().contains("window_id"@),
            "window_id"@,
            unsigned_tree(target.window_id),
        ),
        properties.dom().contains("session"@),
        "session"@,
        JsonTree::Text(session_id),
    )
}

/// A call is bound to the window and the session where its schema takes them.
pub open spec fn tool_is_bound(name: Seq<char>, arguments: JsonTree, schema: JsonTree, target: WindowTarget, session_id: Seq<char>, r: ComputerUseResult<Json>) -> bool {
    match (arguments, schema.get("properties"@)) {
        (JsonTree::Object(members), Some(JsonTree::Object(properties))) => {
            if first_unbindable(members, properties) is Some {
                fails_with(
                    r,
                    ComputerUseErrorCode::InvalidAction,
                    tool_message(
                        "native CUA tool argument "@,
                        first_unbindable(members, properties)->0,
                        " is not target-bindable"@,
                    ),
                )
            } else if unbound(properties) {
                fails_with(
                    r,
                    ComputerUseErrorCode::InvalidTarget,
                    tool_message(
                        "CUA tool "@,
                        name,
                        " is not bindable to an exact window session"@,
                    ),
                )
            } else {
                r matches Ok(bound) && bound.view() == JsonTree::Object(
                    bound_members(members, properties, target, session_id),
                )
            }
        },
        (JsonTree::Object(_), _) => fails_with(
            r,
            ComputerUseErrorCode::BackendUnavailable,
            tool_message("CUA tool "@, name, " returned an invalid input schema"@),
        ),
        _ => fails_with(
            r,
            ComputerUseErrorCode::InvalidAction,
            "native CUA tool arguments must be a JSON object"@,
        ),
    }
}

/// Binds a tool's arguments to the session's window. The caller cannot name
/// another one: what it gives for a reserved argument is dropped.
pub fn bind_tool_arguments(
    name: &str,
    arguments: &Json,
    schema: &Json,
    target: &WindowTarget,
    session_id: &str,
) -> (r: ComputerUseResult<Json>)
    ensures
        tool_is_bound(name@, arguments.view(), schema.view(), *target, session_id@, r),
{
    let given = match members_of(arguments) {
        Some(members) => members,
        None => return Err(
            ComputerUseError::new(
                ComputerUseErrorCode::InvalidAction,
                "native CUA tool arguments must be a JSON object",
            ),
        ),
    };
    let properties = match schema.get("properties") {
        Some(properties) => properties,
        None => return Err(
            tool_failure(
                ComputerUseErrorCode::BackendUnavailable,
                "CUA tool ",
                name,
                " returned an invalid input schema",
            ),
        ),
    };
    if !properties.is_object() {
        return Err(
            tool_failure(
                ComputerUseErrorCode::BackendUnavailable,
                "CUA tool ",
                name,
                " returned an invalid input schema",
            ),
        );
    }
    let takes_pid = properties.get("pid").is_some();
    let takes_window = properties.get("window_id").is_some();
    let takes_session = properties.get("session").is_some();
    if arguments.get("pid").is_some() && !takes_pid {
        return Err(
            tool_failure(
                ComputerUseErrorCode::InvalidAction,
                "native CUA tool argument ",
                "pid",
                " is not target-bindable",
            ),
        );
    }
    if arguments.get("window_id").is_some() && !takes_window {
        return Err(
            tool_failure(
                ComputerUseErrorCode::InvalidAction,
                "native CUA tool argument ",
                "window_id",
                " is not target-bindable",
            ),
        );
    }
    if arguments.get("session").is_some() && !takes_session {
        return Err(
            tool_failure(
                ComputerUseErrorCode::InvalidAction,
                "native CUA tool argument ",
                "session",
                " is not target-bindable",
            ),
        );
    }
    if !takes_pid && !takes_window && !takes_session {
        return Err(
            tool_failure(
                ComputerUseErrorCode::InvalidTarget,
                "CUA tool ",
                name,
                " is not bindable to an exact window session",
            ),
        );
    }
    let members = without_member(given, "pid");
    let members = without_member(&members, "window_id");
    let mut members = without_member(&members, "session");
    if takes_pid {
        put_member(&mut members, "pid", Json::unsigned(target.pid as u64));
    }
    if takes_window {
        put_member(&mut members, "window_id", Json::unsigned(target.window_id));
    }
    if takes_session {
        put_member(&mut members, "session", Json::text(session_id));
    }
    Ok(Json::Object(members))
}

/// The tool is bound to the window itself, not only to the session.
pub open spec fn names_window(name: Seq<char>, arguments: JsonTree) -> bool {
    name == "browser_prepare"@ || (name == "get_browser_state"@ && arguments.get("target_id"@)
        is None)
}

/// The arguments of a browser tool, bound to the session and, where the tool
/// names a window, to the session's own.
pub open spec fn browser_members(
    name: Seq<char>,
    members: Map<Seq<char>, JsonTree>,
    target: WindowTarget,
    session_id: Seq<char>,
) -> Map<Seq<char>, JsonTree> {
    if names_window(name, JsonTree::Object(members)) {
        session_members(members, session_id).insert(
            "pid"@,
            unsigned_tree(target.pid as u64),
        ).insert("window_id"@, unsigned_tree(target.window_id))
    } else {
        session_members(members, session_id)
    }
}

/// A call of a browser tool is bound to the session, and to the window where it
/// names one.
pub open spec fn browser_is_bound(name: Seq<char>, arguments: JsonTree, target: WindowTarget, session_id: Seq<char>, r: ComputerUseResult<Json>) -> bool {
    match arguments {
        JsonTree::Object(members) => r matches Ok(bound) && bound.view() == JsonTree::Object(
            browser_members(name, members, target, session_id),
        ),
        _ => fails_with(
            r,
            ComputerUseErrorCode::InvalidAction,
            "browser tool arguments must be a JSON object"@,
        ),
    }
}

pub fn bind_browser_arguments(
    name: &str,
    arguments: &Json,
    target: &WindowTarget,
    session_id: &str,
) -> (r: ComputerUseResult<Json>)
    ensures
        browser_is_bound(name@, arguments.view(), *target, session_id@, r),
{
    let members = match members_of(arguments) {
        Some(members) => members,
        None => return Err(
            ComputerUseError::new(
                ComputerUseErrorCode::InvalidAction,
                "browser tool arguments must be a JSON object",
            ),
        ),
    };
    let window = text_eq(name, "browser_prepare") || (text_eq(name, "get_browser_state")
        && arguments.get("target_id").is_none());
    let ghost given = object_tree(members@);
    proof {
        reveal_strlit("session");
        reveal_strlit("target_id");
        assert("session"@.len() != "target_id"@.len());
        assert(given.insert("session"@, JsonTree::Text(session_id@)).dom().contains("target_id"@)
            == given.dom().contains("target_id"@));
    }
    let mut members = duplicate_members(members);
    put_member(&mut members, "session", Json::text(session_id));
    if window {
        put_member(&mut members, "pid", Json::unsigned(target.pid as u64));
        put_member(&mut members, "window_id", Json::unsigned(target.window_id));
    }
    Ok(Json::Object(members))
}

/// A download is bound to the session, and approved by the host.
pub open spec fn download_is_bound(arguments: JsonTree, session_id: Seq<char>, r: ComputerUseResult<Json>) -> bool {
    match arguments {
        JsonTree::Object(members) => r matches Ok(bound) && bound.view() == JsonTree::Object(
            session_members(members, session_id).insert(
                "_cua_browser_download_mcp_host_approved"@,
                JsonTree::Bool(true),
            ),
        ),
        _ => fails_with(
            r,
            ComputerUseErrorCode::InvalidAction,
            "browser download arguments must be a JSON object"@,
        ),
    }
}

/// The arguments of a download, with the approval that only the host gives.
pub fn bind_download_arguments(arguments: &Json, session_id: &str) -> (r: ComputerUseResult<Json>)
    ensures
        download_is_bound(arguments.view(), session_id@, r),
{
    match members_of(arguments) {
        Some(members) => {
            let mut members = duplicate_members(members);
            put_member(&mut members, "session", Json::text(session_id));
            put_member(
                &mut members,
                "_cua_browser_download_mcp_host_approved",
                Json::Bool(true),
            );
            Ok(Json::Object(members))
        },
        None => Err(
            ComputerUseError::new(
                ComputerUseErrorCode::InvalidAction,
                "browser download arguments must be a JSON object",
            ),
        ),
    }
}

/// The first tool of the inventory with the name.
pub open spec fn tool_named(tools: Seq<JsonTree>, name: Seq<char>) -> Option<JsonTree>
    decreases tools.len(),
{
    if tools.len() == 0 {
        None
    } else if tools[0].text_at("name"@) == Some(name) {
        Some(tools[0])
    } else {
        tool_named(tools.drop_first(), name)
    }
}

/// The input schema of a tool in the inventory.
pub open spec fn schema_in(inventory: JsonTree, name: Seq<char>) -> Option<JsonTree> {
    match inventory.array_at("tools"@) {
        None => None,
        Some(tools) => match tool_named(tools, name) {
            None => None,
            Some(tool) => tool.get("inputSchema"@),
        },
    }
}

fn find_tool<'a>(tools: &'a Vec<Json>, name: &str) -> (r: Option<&'a Json>)
    ensures
        optional_tree(r) == tool_named(crate::json::array_tree(tools@), name@),
{
    let ghost trees = crate::json::array_tree(tools@);
    let mut i: usize = 0;
    proof {
        crate::json::lemma_array_tree(tools@);
        assert(trees.subrange(0, trees.len() as int) =~= trees);
    }
    while i < tools.len()
        invariant
            i <= tools.len(),
            trees == crate::json::array_tree(tools@),
            trees.len() == tools@.len(),
            forall|k: int| 0 <= k < tools@.len() ==> trees[k] == (#[trigger] tools@[k]).view(),
            tool_named(trees, name@) == tool_named(
                trees.subrange(i as int, trees.len() as int),
                name@,
            ),
        decreases tools.len() - i,
    {
        let ghost rest = trees.subrange(i as int, trees.len() as int);
        assert(rest[0] == tools@[i as int].view());
        let named = match tools[i].text_at("name") {
            Some(found) => text_eq(found, name),
            None => false,
        };
        if named {
            return Some(&tools[i]);
        }
        assert(rest.drop_first() =~= trees.subrange(i + 1, trees.len() as int));
        i = i + 1;
    }
    None
}

/// The schema of a tool of the inventory.
pub open spec fn schema_is_found(inventory: JsonTree, name: Seq<char>, r: ComputerUseResult<Json>) -> bool {
    match schema_in(inventory, name) {
        Some(schema) => r matches Ok(found) && found.view() == schema,
        None => fails_with(
            r,
            ComputerUseErrorCode::InvalidAction,
            tool_message("CUA tool "@, name, " is not present in the live inventory"@),
        ),
    }
}

pub fn tool_schema_from_inventory(inventory: &Json, name: &str) -> (r: ComputerUseResult<Json>)
    ensures
        schema_is_found(inventory.view(), name@, r),
{
    let tools = match inventory.get("tools") {
        Some(tools) => match tools.as_array() {
            Some(tools) => Some(tools),
            None => None,
        },
        None => None,
    };
    if let Some(tools) = tools {
        if let Some(tool) = find_tool(tools, name) {
            if let Some(schema) = tool.get("inputSchema") {
                return Ok(schema.clone());
            }
        }
    }
    Err(
        tool_failure(
            ComputerUseErrorCode::InvalidAction,
            "CUA tool ",
            name,
            " is not present in the live inventory",
        ),
    )
}

/// The tool acts on a window, and needs a session for one.
pub open spec fn needs_window_session(schema: JsonTree) -> bool {
    schema.get("properties"@) matches Some(properties) && (properties.get("pid"@) is Some
        || properties.get("window_id"@) is Some)
}

/// Checks that a tool may be called outside every window session.
pub fn ensure_unscoped_tool(name: &str, schema: &Json) -> (r: ComputerUseResult<()>)
    ensures
        r is Ok <==> !needs_window_session(schema.view()),
        needs_window_session(schema.view()) ==> fails_with(
            r,
            ComputerUseErrorCode::InvalidTarget,
            tool_message("CUA tool "@, name@, " requires an exact window session"@),
        ),
{
    let windowed = match schema.get("properties") {
        Some(properties) => properties.get("pid").is_some() || properties.get("window_id").is_some(),
        None => false,
    };
    if windowed {
        return Err(
            tool_failure(
                ComputerUseErrorCode::InvalidTarget,
                "CUA tool ",
                name,
                " requires an exact window session",
            ),
        );
    }
    Ok(())
}

/// The applications of an answer.
pub open spec fn apps_are_listed(value: JsonTree, r: ComputerUseResult<Json>) -> bool {
    match value.get("structuredContent"@) {
        Some(JsonTree::Object(members)) => r matches Ok(apps) && apps.view()
            == JsonTree::Object(members),
        _ => fails_with(
            r,
            ComputerUseErrorCode::BackendUnavailable,
            "CUA list_apps omitted structuredContent"@,
        ),
    }
}

/// The structured content of a listing of applications.
pub fn listed_apps(value: &Json) -> (r: ComputerUseResult<Json>)
    ensures
        apps_are_listed(value.view(), r),
{
    if let Some(content) = value.get("structuredContent") {
        if content.is_object() {
            return Ok(content.clone());
        }
    }
    Err(
        ComputerUseError::new(
            ComputerUseErrorCode::BackendUnavailable,
            "CUA list_apps omitted structuredContent",
        ),
    )
}

/// A tool that has a route of its own is not called without a window. `allowed`
/// tells whether the tool has none.
pub fn ensure_global_tool(name: &str, allowed: bool) -> (r: ComputerUseResult<()>)
    ensures
        r is Ok <==> allowed,
        !allowed ==> fails_with(
            r,
            ComputerUseErrorCode::InvalidAction,
            tool_message("CUA tool "@, name@, " must use its dedicated or window-bound route"@),
        ),
{
    if allowed {
        return Ok(());
    }
    Err(
        tool_failure(
            ComputerUseErrorCode::InvalidAction,
            "CUA tool ",
            name,
            " must use its dedicated or window-bound route",
        ),
    )
}

/// The windows that a reply of the driver lists.
pub fn windows_in_reply(raw_json: &str) -> (r: ComputerUseResult<Vec<Json>>)
    ensures
        match parsed_text(raw_json@) {
            Err(message) => fails_with(r, ComputerUseErrorCode::BackendUnavailable, message),
            Ok(tree) => lists_windows(tree, r),
        },
{
    match parse_json(raw_json) {
        Ok(value) => listed_windows(&value),
        Err(message) => Err(
            ComputerUseError::owned(ComputerUseErrorCode::BackendUnavailable, message),
        ),
    }
}

/// The windows that an inventory lists, or that it lists none.
pub open spec fn lists_windows(value: JsonTree, r: ComputerUseResult<Vec<Json>>) -> bool {
    match value.get("structuredContent"@) {
        Some(content) if content.array_at("windows"@) is Some => r matches Ok(rows)
            && crate::json::array_tree(rows@) == content.array_at("windows"@)->0,
        _ => fails_with(
            r,
            ComputerUseErrorCode::BackendUnavailable,
            "CUA list_windows omitted structuredContent.windows"@,
        ),
    }
}

/// The rows of a listing of windows.
pub fn listed_windows(value: &Json) -> (r: ComputerUseResult<Vec<Json>>)
    ensures
        lists_windows(value.view(), r),
{
    if let Some(content) = value.get("structuredContent") {
        if let Some(windows) = content.get("windows") {
            if let Json::Array(rows) = windows.clone() {
                return Ok(rows);
            }
        }
    }
    Err(
        ComputerUseError::new(
            ComputerUseErrorCode::BackendUnavailable,
            "CUA list_windows omitted structuredContent.windows",
        ),
    )
}

/// The arguments that windows are listed by.
pub open spec fn list_windows_tree(pid: Option<u32>, on_screen_only: bool) -> JsonTree {
            JsonTree::Object(
        insert_if(
            insert_if(
                Map::empty(),
                pid is Some,
                "pid"@,
                unsigned_tree((pid->0) as u64),
            ),
            on_screen_only,
            "on_screen_only"@,
            JsonTree::Bool(true),
        ),
    )
}

/// The arguments of a listing of windows.
pub fn list_windows_arguments(pid: Option<u32>, on_screen_only: bool) -> (r: Json)
    ensures
        r.view() == list_windows_tree(pid, on_screen_only),
{
    let mut members: Vec<JsonMember> = Vec::new();
    if let Some(pid) = pid {
        put_member(&mut members, "pid", Json::unsigned(pid as u64));
    }
    if on_screen_only {
        put_member(&mut members, "on_screen_only", Json::Bool(true));
    }
    Json::Object(members)
}

/// What a diagnostic says of a tool that answered.
pub open spec fn answered_check(result: ComputerUseToolResult) -> JsonTree {
    JsonTree::Object(
        Map::<Seq<char>, JsonTree>::empty().insert("success"@, JsonTree::Bool(true)).insert(
            "degraded"@,
            JsonTree::Bool(result.degraded),
        ).insert("summary"@, JsonTree::Text(result.text@)).insert(
            "result"@,
            match result.value.view().get("structuredContent"@) {
                Some(content) => content,
                None => result.value.view(),
            },
        ),
    )
}

/// What a diagnostic says of a check that failed.
pub open spec fn failed_check(error: ComputerUseError) -> JsonTree {
    JsonTree::Object(
        Map::<Seq<char>, JsonTree>::empty().insert("success"@, JsonTree::Bool(false)).insert(
            "code"@,
            JsonTree::Text(error.code.wire_text()),
        ).insert("message"@, JsonTree::Text(error.message@)),
    )
}

pub fn failed_check_json(error: &ComputerUseError) -> (r: Json)
    ensures
        r.view() == failed_check(*error),
{
    let mut members: Vec<JsonMember> = Vec::new();
    put_member(&mut members, "success", Json::Bool(false));
    put_member(&mut members, "code", Json::text(error.code.wire_name()));
    put_member(&mut members, "message", Json::text(error.message.as_str()));
    Json::Object(members)
}

/// What a check tells of an answer.
pub open spec fn check_tree(result: ComputerUseResult<ComputerUseToolResult>) -> JsonTree {
            match result {
        Ok(result) => answered_check(result),
        Err(error) => failed_check(error),
    }
}

pub fn diagnostic_tool_check(result: ComputerUseResult<ComputerUseToolResult>) -> (r: Json)
    ensures
        r.view() == check_tree(result),
{
    match result {
        Ok(result) => {
            let mut members: Vec<JsonMember> = Vec::new();
            put_member(&mut members, "success", Json::Bool(true));
            put_member(&mut members, "degraded", Json::Bool(result.degraded));
            put_member(&mut members, "summary", Json::text(result.text.as_str()));
            let value = match result.value.get("structuredContent") {
                Some(content) => content.clone(),
                None => result.value.clone(),
            };
            put_member(&mut members, "result", value);
            Json::Object(members)
        },
        Err(error) => failed_check_json(&error),
    }
}

/// The checks of one diagnostic.
pub struct DiagnosticChecks {
    pub driver: Json,
    pub window_inventory: Json,
    pub permissions: Json,
    pub health: Json,
    pub interactive_desktop: Json,
}

pub open spec fn succeeded(check: JsonTree) -> bool {
    check.bool_at("success"@) == Some(true)
}

/// Every check passed, the runtime calls itself healthy, and the desktop
/// takes input.
pub open spec fn all_ready(checks: DiagnosticChecks) -> bool {
    &&& succeeded(checks.driver.view())
    &&& succeeded(checks.window_inventory.view())
    &&& succeeded(checks.permissions.view())
    &&& succeeded(checks.health.view())
    &&& checks.health.view().get("result"@) matches Some(result)
    &&& result.text_at("overall"@) == Some("ok"@)
    &&& succeeded(checks.interactive_desktop.view())
    &&& checks.interactive_desktop.view().bool_at("input_ready"@) == Some(true)
}

pub open spec fn diagnostics_tree(checks: DiagnosticChecks) -> JsonTree {
    JsonTree::Object(
        Map::<Seq<char>, JsonTree>::empty().insert("type"@, JsonTree::Text("diagnostics"@)).insert(
            "schema_version"@,
            unsigned_tree(1),
        ).insert("backend"@, JsonTree::Text("cua-driver-sdk"@)).insert(
            "ready"@,
            JsonTree::Bool(all_ready(checks)),
        ).insert(
            "checks"@,
            JsonTree::Object(
                Map::<Seq<char>, JsonTree>::empty().insert("driver"@, checks.driver.view()).insert(
                    "window_inventory"@,
                    checks.window_inventory.view(),
                ).insert("permissions"@, checks.permissions.view()).insert(
                    "health"@,
                    checks.health.view(),
                ).insert("interactive_desktop"@, checks.interactive_desktop.view()),
            ),
        ),
    )
}

fn is_true(value: &Json, name: &str) -> (r: bool)
    ensures
        r == (value.view().bool_at(name@) == Some(true)),
{
    match value.bool_at(name) {
        Some(flag) => flag,
        None => false,
    }
}

/// The report on a running runtime. It is data even where nothing is ready.
pub fn diagnostics(checks: DiagnosticChecks) -> (r: Json)
    ensures
        r.view() == diagnostics_tree(checks),
{
    let overall = match checks.health.get("result") {
        Some(result) => match result.text_at("overall") {
            Some(overall) => text_eq(overall, "ok"),
            None => false,
        },
        None => false,
    };
    let ready = is_true(&checks.driver, "success") && is_true(&checks.window_inventory, "success")
        && is_true(&checks.permissions, "success") && is_true(&checks.health, "success") && overall
        && is_true(&checks.interactive_desktop, "success") && is_true(
        &checks.interactive_desktop,
        "input_ready",
    );
    let mut list: Vec<JsonMember> = Vec::new();
    put_member(&mut list, "driver", checks.driver);
    put_member(&mut list, "window_inventory", checks.window_inventory);
    put_member(&mut list, "permissions", checks.permissions);
    put_member(&mut list, "health", checks.health);
    put_member(&mut list, "interactive_desktop", checks.interactive_desktop);
    let mut members: Vec<JsonMember> = Vec::new();
    put_member(&mut members, "type", Json::text("diagnostics"));
    put_member(&mut members, "schema_version", Json::unsigned(1));
    put_member(&mut members, "backend", Json::text("cua-driver-sdk"));
    put_member(&mut members, "ready", Json::Bool(ready));
    put_member(&mut members, "checks", Json::Object(list));
    Json::Object(members)
}

/// However a caller fills in the reserved arguments, a bound call names the
/// session and its window, and nothing else under those names.
pub proof fn law_bound_calls_name_only_the_session(
    members: Map<Seq<char>, JsonTree>,
    properties: Map<Seq<char>, JsonTree>,
    target: WindowTarget,
    session_id: Seq<char>,
)
    ensures
        ({
            let bound = bound_members(members, properties, target, session_id);
            &&& bound.dom().contains("pid"@) ==> bound["pid"@] == unsigned_tree(target.pid as u64)
            &&& bound.dom().contains("window_id"@) ==> bound["window_id"@] == unsigned_tree(
                target.window_id,
            )
            &&& bound.dom().contains("session"@) ==> bound["session"@] == JsonTree::Text(session_id)
        }),
{
    reveal_strlit("pid");
    reveal_strlit("window_id");
    reveal_strlit("session");
    assert("pid"@.len() == 3);
    assert("window_id"@.len() == 9);
    assert("session"@.len() == 7);
}

/// A browser tool that is not listed is never reached, whatever its arguments.
pub proof fn law_browser_routes_fail_closed(name: Seq<char>, arguments: JsonTree)
    requires
        name != "get_browser_state"@,
        name != "browser_dialog"@,
        name != "browser_prepare"@,
        name != "browser_navigate"@,
        name != "browser_click"@,
        name != "browser_type"@,
        name != "browser_pointer"@,
        name != "browser_set_input_files"@,
    ensures
        browser_route(name, arguments) is None,
{
}

/// A call is bound to the window and the session exactly where the schema takes
/// them, whatever the caller wrote there; every other argument is as it was given.
/// One that names what the schema does not take, or whose schema takes none of the
/// three, is refused.
pub proof fn law_bound_calls_keep_the_other_arguments(
    name: Seq<char>,
    members: Map<Seq<char>, JsonTree>,
    schema: JsonTree,
    properties: Map<Seq<char>, JsonTree>,
    target: WindowTarget,
    session_id: Seq<char>,
    r: ComputerUseResult<Json>,
    key: Seq<char>,
)
    requires
        schema.get("properties"@) == Some(JsonTree::Object(properties)),
        tool_is_bound(name, JsonTree::Object(members), schema, target, session_id, r),
    ensures
        r matches Ok(bound) ==> {
            &&& key != "pid"@ && key != "window_id"@ && key != "session"@ ==> bound.view().get(key)
                == JsonTree::Object(members).get(key)
            &&& bound.view().u64_at("pid"@) == if properties.dom().contains("pid"@) {
                Some(target.pid as u64)
            } else {
                None
            }
            &&& bound.view().u64_at("window_id"@) == if properties.dom().contains("window_id"@) {
                Some(target.window_id)
            } else {
                None
            }
            &&& bound.view().text_at("session"@) == if properties.dom().contains("session"@) {
                Some(session_id)
            } else {
                None
            }
            &&& members.dom().contains("pid"@) ==> properties.dom().contains("pid"@)
            &&& members.dom().contains("window_id"@) ==> properties.dom().contains("window_id"@)
            &&& members.dom().contains("session"@) ==> properties.dom().contains("session"@)
        },
        (properties.dom().contains("pid"@) || properties.dom().contains("window_id"@)
            || properties.dom().contains("session"@)) && (members.dom().contains("pid"@)
            ==> properties.dom().contains("pid"@)) && (members.dom().contains("window_id"@)
            ==> properties.dom().contains("window_id"@)) && (members.dom().contains("session"@)
            ==> properties.dom().contains("session"@)) ==> r is Ok,
        r is Ok ==> properties.dom().contains("pid"@) || properties.dom().contains("window_id"@)
            || properties.dom().contains("session"@),
{
    reveal_strlit("pid");
    reveal_strlit("window_id");
    reveal_strlit("session");
    assert("pid"@.len() == 3);
    assert("window_id"@.len() == 9);
    assert("session"@.len() == 7);
}

/// Calls of browser tools name the session, and the window where they begin with
/// one; a download is approved by the host. Every other argument is as it was given.
pub proof fn law_browser_calls_keep_the_other_arguments(
    name: Seq<char>,
    members: Map<Seq<char>, JsonTree>,
    target: WindowTarget,
    session_id: Seq<char>,
    refusal: Seq<char>,
    browser: ComputerUseResult<Json>,
    download: ComputerUseResult<Json>,
    plain: ComputerUseResult<Json>,
    key: Seq<char>,
)
    requires
        browser_is_bound(name, JsonTree::Object(members), target, session_id, browser),
        download_is_bound(JsonTree::Object(members), session_id, download),
        session_is_bound(JsonTree::Object(members), session_id, refusal, plain),
    ensures
        browser matches Ok(bound) && {
            &&& bound.view().text_at("session"@) == Some(session_id)
            &&& key != "session"@ && key != "pid"@ && key != "window_id"@ ==> bound.view().get(key)
                == JsonTree::Object(members).get(key)
            &&& name == "browser_prepare"@ || (name == "get_browser_state"@
                && !members.dom().contains("target_id"@)) ==> bound.view().u64_at("pid"@) == Some(
                target.pid as u64,
            ) && bound.view().u64_at("window_id"@) == Some(target.window_id)
            &&& !(name == "browser_prepare"@ || (name == "get_browser_state"@
                && !members.dom().contains("target_id"@))) ==> bound.view().get("pid"@)
                == JsonTree::Object(members).get("pid"@) && bound.view().get("window_id"@)
                == JsonTree::Object(members).get("window_id"@)
        },
        download matches Ok(bound) && bound.view().text_at("session"@) == Some(session_id)
            && bound.view().bool_at("_cua_browser_download_mcp_host_approved"@) == Some(true) && (
        key != "session"@ && key != "_cua_browser_download_mcp_host_approved"@ ==> bound.view().get(
            key,
        ) == JsonTree::Object(members).get(key)),
        plain matches Ok(bound) && bound.view().text_at("session"@) == Some(session_id) && (key
            != "session"@ ==> bound.view().get(key) == JsonTree::Object(members).get(key)),
{
    reveal_strlit("pid");
    reveal_strlit("window_id");
    reveal_strlit("session");
    reveal_strlit("_cua_browser_download_mcp_host_approved");
    assert("pid"@.len() == 3);
    assert("window_id"@.len() == 9);
    assert("session"@.len() == 7);
    assert("_cua_browser_download_mcp_host_approved"@.len() == 39);
    reveal_strlit("target_id");
}

/// Arguments that are no object are bound to nothing.
pub proof fn law_only_objects_are_bound(
    name: Seq<char>,
    arguments: JsonTree,
    schema: JsonTree,
    target: WindowTarget,
    session_id: Seq<char>,
    refusal: Seq<char>,
    tool: ComputerUseResult<Json>,
    browser: ComputerUseResult<Json>,
    download: ComputerUseResult<Json>,
    plain: ComputerUseResult<Json>,
)
    requires
        !(arguments is Object),
        tool_is_bound(name, arguments, schema, target, session_id, tool),
        browser_is_bound(name, arguments, target, session_id, browser),
        download_is_bound(arguments, session_id, download),
        session_is_bound(arguments, session_id, refusal, plain),
    ensures
        tool matches Err(error) && error.code == ComputerUseErrorCode::InvalidAction,
        browser matches Err(error) && error.code == ComputerUseErrorCode::InvalidAction,
        download matches Err(error) && error.code == ComputerUseErrorCode::InvalidAction,
        plain matches Err(error) && error.code == ComputerUseErrorCode::InvalidAction
            && error.message@ == refusal,
{
}

/// Reading a page, and looking at a dialog, are evidence; answering a dialog and
/// every tool that acts on a page may change it.
pub proof fn law_browser_tools_are_told_apart(name: Seq<char>, arguments: JsonTree)
    ensures
        browser_route(name, arguments) == Some(BrowserToolDisposition::ReadOnlyEvidence) <==> name
            == "get_browser_state"@ || (name == "browser_dialog"@ && arguments.text_at("action"@)
            == Some("inspect"@)),
        browser_route(name, arguments) == Some(BrowserToolDisposition::PotentialMutation) <==> (name
            == "browser_dialog"@ && (arguments.text_at("action"@) == Some("accept"@)
            || arguments.text_at("action"@) == Some("dismiss"@))) || name == "browser_prepare"@
            || name == "browser_navigate"@ || name == "browser_click"@ || name == "browser_type"@
            || name == "browser_pointer"@ || name == "browser_set_input_files"@,
{
    reveal_strlit("get_browser_state");
    reveal_strlit("browser_dialog");
    reveal_strlit("browser_prepare");
    reveal_strlit("browser_navigate");
    reveal_strlit("browser_click");
    reveal_strlit("browser_type");
    reveal_strlit("browser_pointer");
    reveal_strlit("browser_set_input_files");
    assert("get_browser_state"@.len() == 17);
    assert("browser_dialog"@.len() == 14);
    assert("browser_prepare"@.len() == 15);
    assert("browser_navigate"@.len() == 16);
    assert("browser_click"@.len() == 13);
    assert("browser_type"@.len() == 12);
    assert("browser_pointer"@.len() == 15);
    assert("browser_set_input_files"@.len() == 23);
    assert("browser_prepare"@[9] != "browser_pointer"@[9]);
    reveal_strlit("inspect");
    reveal_strlit("accept");
    reveal_strlit("dismiss");
    assert("inspect"@.len() == 7);
    assert("accept"@.len() == 6);
    assert("dismiss"@.len() == 7);
    assert("inspect"@[0] != "dismiss"@[0]);
}

/// Tools of a browser are given a minute, and others the time of an input.
pub proof fn law_browser_tools_are_given_a_minute(name: Seq<char>)
    ensures
        begins_with(name, "browser_"@) || name == "get_browser_state"@ ==> tool_timeout_ms(name)
            == 60_000,
        !begins_with(name, "browser_"@) && name != "get_browser_state"@ ==> tool_timeout_ms(name)
            == INPUT_CALL_TIMEOUT_MS,
{
}

/// The banner shows going to a page, looking at one, typing and pointing as what
/// they are, and input only once it is sent.
pub proof fn law_banners_show_the_kind_of_work(
    name: Seq<char>,
    action: ComputerUseAction,
)
    ensures
        bound_tool_activity(name) == BannerActivity::Navigating <==> name == "browser_navigate"@
            || name == "browser_prepare"@,
        bound_tool_activity(name) == BannerActivity::Observing <==> name == "get_browser_state"@,
        bound_tool_activity(name) == BannerActivity::Navigating || bound_tool_activity(name)
            == BannerActivity::Observing || bound_tool_activity(name) == BannerActivity::Operating,
        action_phase_activity(action, ActionBannerPhase::Preparing) == BannerActivity::Operating,
        action_phase_activity(action, ActionBannerPhase::Injecting) == BannerActivity::KeyboardInput
            <==> action.action@ == "type"@ || action.action@ == "type_chars"@ || action.action@
            == "set_text"@ || action.action@ == "set_value"@ || action.action@ == "keypress"@
            || action.action@ == "keyboard_shortcut"@,
        action_phase_activity(action, ActionBannerPhase::Injecting) == BannerActivity::KeyboardInput
            || action_phase_activity(action, ActionBannerPhase::Injecting)
            == BannerActivity::PointerInput,
{
    reveal_strlit("browser_navigate");
    reveal_strlit("browser_prepare");
    reveal_strlit("get_browser_state");
    assert("browser_navigate"@.len() == 16);
    assert("browser_prepare"@.len() == 15);
    assert("get_browser_state"@.len() == 17);
}

/// The banner and its motion are put beside what an answer holds, which stays as
/// it was; an answer that is no object is kept whole.
pub proof fn law_banners_stand_beside_the_answer(
    value: JsonTree,
    banner: JsonTree,
    key: Seq<char>,
)
    ensures
        with_banner(value, banner).get("banner"@) == Some(banner),
        value is Object && key != "banner"@ ==> with_banner(value, banner).get(key) == value.get(
            key,
        ),
        !(value is Object) ==> with_banner(value, banner).get("cua"@) == Some(value),
        banner.get("motion"@) is None ==> with_motion(value, banner) == value,
        banner.get("motion"@) matches Some(motion) ==> with_motion(value, banner).get(
            "indicator_motion"@,
        ) == Some(motion),
        banner.get("motion"@) is Some && value is Object && key != "indicator_motion"@
            ==> with_motion(value, banner).get(key) == value.get(key),
        banner.get("motion"@) is Some && !(value is Object) ==> with_motion(value, banner).get(
            "cua"@,
        ) == Some(value),
{
    reveal_strlit("banner");
    reveal_strlit("cua");
    reveal_strlit("indicator_motion");
    assert("banner"@.len() == 6);
    assert("cua"@.len() == 3);
    assert("indicator_motion"@.len() == 16);
}

/// The schema that is found for a tool is the first that the inventory lists under
/// its name.
pub proof fn law_schemas_are_found_by_name(
    tools: Seq<JsonTree>,
    name: Seq<char>,
)
    ensures
        match tool_named(tools, name) {
            Some(tool) => exists|i: int|
                0 <= i < tools.len() && #[trigger] tools[i] == tool && tool.text_at("name"@)
                    == Some(name) && forall|j: int|
                    0 <= j < i ==> (#[trigger] tools[j]).text_at("name"@) != Some(name),
            None => forall|j: int|
                0 <= j < tools.len() ==> (#[trigger] tools[j]).text_at("name"@) != Some(name),
        },
    decreases tools.len(),
{
    if tools.len() > 0 && tools[0].text_at("name"@) != Some(name) {
        let rest = tools.drop_first();
        law_schemas_are_found_by_name(rest, name);
        match tool_named(rest, name) {
            Some(tool) => {
                let i = choose|i: int|
                    0 <= i < rest.len() && #[trigger] rest[i] == tool && tool.text_at("name"@)
                        == Some(name) && forall|j: int|
                        0 <= j < i ==> (#[trigger] rest[j]).text_at("name"@) != Some(name);
                assert(tools[i + 1] == tool);
                assert forall|j: int| 0 <= j < i + 1 implies (#[trigger] tools[j]).text_at("name"@)
                    != Some(name) by {
                    if j > 0 {
                        assert(rest[j - 1] == tools[j]);
                    }
                }
            },
            None => {
                assert forall|j: int| 0 <= j < tools.len() implies (#[trigger] tools[j]).text_at(
                    "name"@,
                ) != Some(name) by {
                    if j > 0 {
                        assert(rest[j - 1] == tools[j]);
                    }
                }
            },
        }
    } else if tools.len() > 0 {
        assert(tools[0] == tool_named(tools, name)->0);
    }
}

/// A schema is handed over as the inventory lists it; a tool that it does not list
/// is refused.
pub proof fn law_schemas_are_handed_over(
    inventory: JsonTree,
    tools: Seq<JsonTree>,
    name: Seq<char>,
    r: ComputerUseResult<Json>,
)
    requires
        inventory.array_at("tools"@) == Some(tools),
        schema_is_found(inventory, name, r),
    ensures
        r matches Ok(found) ==> (tool_named(tools, name) matches Some(tool) && tool.get(
            "inputSchema"@,
        ) == Some(found.view())),
        (tool_named(tools, name) matches Some(tool) && tool.get("inputSchema"@) is Some)
            ==> r is Ok,
        r matches Err(error) ==> error.code == ComputerUseErrorCode::InvalidAction,
{
}

/// Windows are listed of the process given, and of those on screen only where that
/// was asked for.
pub proof fn law_windows_are_listed_as_asked(pid: Option<u32>, on_screen_only: bool)
    ensures
        list_windows_tree(pid, on_screen_only).u64_at("pid"@) == match pid {
            Some(pid) => Some(pid as u64),
            None => None,
        },
        list_windows_tree(pid, on_screen_only).bool_at("on_screen_only"@) == if on_screen_only {
            Some(true)
        } else {
            None
        },
{
    reveal_strlit("pid");
    reveal_strlit("on_screen_only");
    assert("pid"@.len() == 3);
    assert("on_screen_only"@.len() == 14);
}

/// The applications and the windows of an answer are those of its structured
/// content.
pub proof fn law_listings_are_handed_over(
    value: JsonTree,
    content: JsonTree,
    apps: ComputerUseResult<Json>,
    windows: ComputerUseResult<Vec<Json>>,
)
    requires
        value.get("structuredContent"@) == Some(content),
        apps_are_listed(value, apps),
        lists_windows(value, windows),
    ensures
        content is Object ==> (apps matches Ok(listed) && listed.view() == content),
        !(content is Object) ==> apps is Err,
        content.array_at("windows"@) matches Some(rows) ==> (windows matches Ok(listed)
            && crate::json::array_tree(listed@) == rows),
        content.array_at("windows"@) is None ==> windows is Err,
{
}

/// A tool whose schema takes a process or a window is bound to one; others are not.
pub proof fn law_window_tools_need_a_session(
    schema: JsonTree,
    properties: Map<Seq<char>, JsonTree>,
)
    requires
        schema.get("properties"@) == Some(JsonTree::Object(properties)),
    ensures
        needs_window_session(schema) <==> properties.dom().contains("pid"@)
            || properties.dom().contains("window_id"@),
{
}

/// A check tells whether it was answered, what was answered or what failed.
pub proof fn law_checks_tell_what_was_answered(result: ComputerUseResult<ComputerUseToolResult>)
    ensures
        check_tree(result).bool_at("success"@) == Some(result is Ok),
        result matches Ok(answer) ==> {
            &&& check_tree(result).bool_at("degraded"@) == Some(answer.degraded)
            &&& check_tree(result).text_at("summary"@) == Some(answer.text@)
            &&& answer.value.view().get("structuredContent"@) matches Some(content) ==> check_tree(
                result,
            ).get("result"@) == Some(content)
            &&& answer.value.view().get("structuredContent"@) is None ==> check_tree(result).get(
                "result"@,
            ) == Some(answer.value.view())
        },
        result matches Err(error) ==> check_tree(result).text_at("message"@) == Some(
            error.message@,
        ) && check_tree(result).text_at("code"@) == Some(error.code.wire_text()),
{
    reveal_strlit("success");
    reveal_strlit("degraded");
    reveal_strlit("summary");
    reveal_strlit("result");
    reveal_strlit("code");
    reveal_strlit("message");
    assert("success"@.len() == 7);
    assert("degraded"@.len() == 8);
    assert("summary"@.len() == 7);
    assert("result"@.len() == 6);
    assert("code"@.len() == 4);
    assert("message"@.len() == 7);
    assert("success"@[2] != "summary"@[2]);
    assert("success"@[0] != "message"@[0]);
    assert("summary"@[0] != "message"@[0]);
}

/// The diagnosis is ready exactly where every check succeeded, the driver's health
/// is good and the desktop takes input; it shows each check under its own name.
pub proof fn law_diagnoses_rest_on_every_check(checks: DiagnosticChecks)
    ensures
        ({
            let told = diagnostics_tree(checks);
            &&& told.text_at("type"@) == Some("diagnostics"@)
            &&& told.u64_at("schema_version"@) == Some(1u64)
            &&& told.text_at("backend"@) == Some("cua-driver-sdk"@)
            &&& told.get("checks"@) matches Some(shown) && shown.get("driver"@) == Some(
                checks.driver.view(),
            ) && shown.get("window_inventory"@) == Some(checks.window_inventory.view())
                && shown.get("permissions"@) == Some(checks.permissions.view()) && shown.get(
                "health"@,
            ) == Some(checks.health.view()) && shown.get("interactive_desktop"@) == Some(
                checks.interactive_desktop.view(),
            )
            &&& told.bool_at("ready"@) is Some
            &&& told.bool_at("ready"@) == Some(true) <==> {
                &&& checks.driver.view().bool_at("success"@) == Some(true)
                &&& checks.window_inventory.view().bool_at("success"@) == Some(true)
                &&& checks.permissions.view().bool_at("success"@) == Some(true)
                &&& checks.health.view().bool_at("success"@) == Some(true)
                &&& checks.health.view().get("result"@) is Some
                &&& checks.health.view().get("result"@)->0.text_at("overall"@) == Some("ok"@)
                &&& checks.interactive_desktop.view().bool_at("success"@) == Some(true)
                &&& checks.interactive_desktop.view().bool_at("input_ready"@) == Some(true)
            }
        }),
{
    reveal_strlit("type");
    reveal_strlit("schema_version");
    reveal_strlit("backend");
    reveal_strlit("ready");
    reveal_strlit("checks");
    reveal_strlit("driver");
    reveal_strlit("window_inventory");
    reveal_strlit("permissions");
    reveal_strlit("health");
    reveal_strlit("interactive_desktop");
    assert("type"@.len() == 4);
    assert("schema_version"@.len() == 14);
    assert("backend"@.len() == 7);
    assert("ready"@.len() == 5);
    assert("checks"@.len() == 6);
    assert("driver"@.len() == 6);
    assert("window_inventory"@.len() == 16);
    assert("permissions"@.len() == 11);
    assert("health"@.len() == 6);
    assert("interactive_desktop"@.len() == 19);
    assert("checks"@[0] != "driver"@[0]);
    assert("checks"@[0] != "health"@[0]);
    assert("driver"@[0] != "health"@[0]);
}

} // verus!
