//! Launching applications: request validation, arguments, and the lifecycle
//! of a launch-only session.

use crate::contracts::{
    ComputerUseLaunchRequest, MAX_LAUNCH_ARGUMENTS, MAX_LAUNCH_URLS, MAX_LAUNCH_URL_BYTES,
};
use crate::errors::{ComputerUseError, ComputerUseErrorCode, ComputerUseResult};
#[allow(unused_imports)]
use crate::errors::{decides, fails_with, Refusal};
use crate::json::{put_member, Json, JsonMember};
#[allow(unused_imports)]
use crate::json::{array_tree, object_tree, optional_string, JsonTree};
use crate::sensitive_target_policy::contains_any;
#[allow(unused_imports)]
use crate::sensitive_target_policy::{any_occurs, texts};
use crate::text::{
    is_blank, lower_text, text_begins_with, text_contains, trim_text, utf8_len,
};
#[allow(unused_imports)]
use crate::text::{begins_with, lowered, occurs_in, trimmed};
use vstd::prelude::*;
#[allow(unused_imports)]
use vstd::utf8::encode_utf8;

verus! {

/// The request's application selectors, in the order they are considered.
pub open spec fn selectors(request: ComputerUseLaunchRequest) -> Seq<Option<String>> {
    seq![request.name, request.bundle_id, request.aumid, request.path, request.launch_path]
}

/// The selector names something.
pub open spec fn selects(selector: Option<String>) -> bool {
    selector matches Some(text) && trimmed(text@).len() > 0
}

/// How many of the selectors name something.
pub open spec fn selector_count(all: Seq<Option<String>>) -> nat
    decreases all.len(),
{
    if all.len() == 0 {
        0
    } else {
        selector_count(all.drop_last()) + if selects(all.last()) {
            1nat
        } else {
            0nat
        }
    }
}

/// The first selector that names something, or nothing.
pub open spec fn selected(all: Seq<Option<String>>) -> Seq<char>
    decreases all.len(),
{
    if all.len() == 0 {
        Seq::empty()
    } else if selects(all[0]) {
        all[0]->Some_0@
    } else {
        selected(all.drop_first())
    }
}

/// The URL is short enough and uses an allowed protocol.
pub open spec fn url_allowed(url: Seq<char>) -> bool {
    let text = lowered(trimmed(url));
    &&& encode_utf8(text).len() <= MAX_LAUNCH_URL_BYTES
    &&& begins_with(text, "https://"@) || begins_with(text, "http://"@) || begins_with(
        text,
        "com.epicgames.launcher://"@,
    )
}

/// Why a launch is refused, given the markers of denied applications.
pub open spec fn launch_refusal(
    request: ComputerUseLaunchRequest,
    denied: Seq<Seq<char>>,
) -> Refusal {
    let all = selectors(request);
    let name = lowered(selected(all));
    if selector_count(all) > 1 || (selector_count(all) == 0 && request.urls@.len() == 0) {
        Some(
            (
                ComputerUseErrorCode::InvalidAction,
                "launch requires one application selector or at least one URL"@,
            ),
        )
    } else if any_occurs(name, denied) || occurs_in(name, "bash"@) {
        Some(
            (
                ComputerUseErrorCode::InvalidTarget,
                "system, terminal, authentication, password, and security applications are not allowed"@,
            ),
        )
    } else if request.urls@.len() > MAX_LAUNCH_URLS || request.additional_arguments@.len()
        > MAX_LAUNCH_ARGUMENTS {
        Some(
            (
                ComputerUseErrorCode::InvalidAction,
                "launch contains too many URLs or arguments"@,
            ),
        )
    } else if exists|i: int|
        0 <= i < request.urls@.len() && !url_allowed((#[trigger] request.urls@[i])@) {
        Some(
            (
                ComputerUseErrorCode::InvalidAction,
                "launch URLs must use http, https, or the Epic Games Launcher protocol"@,
            ),
        )
    } else {
        None
    }
}

fn selector_names(selector: &Option<String>) -> (r: bool)
    ensures
        r == selects(*selector),
{
    match selector {
        Some(text) => !is_blank(text.as_str()),
        None => false,
    }
}

fn is_url_allowed(url: &str) -> (r: bool)
    ensures
        r == url_allowed(url@),
{
    let text = lower_text(trim_text(url));
    utf8_len(text.as_str()) <= MAX_LAUNCH_URL_BYTES && (text_begins_with(text.as_str(), "https://")
        || text_begins_with(text.as_str(), "http://") || text_begins_with(
        text.as_str(),
        "com.epicgames.launcher://",
    ))
}

fn selector_text(selector: &Option<String>) -> (r: &str)
    requires
        selects(*selector),
    ensures
        r@ == selector->Some_0@,
{
    match selector {
        Some(text) => text.as_str(),
        None => "",
    }
}

fn selected_text(request: &ComputerUseLaunchRequest) -> (r: &str)
    ensures
        r@ == selected(selectors(*request)),
{
    let ghost all = selectors(*request);
    let ghost rest1 = all.drop_first();
    let ghost rest2 = rest1.drop_first();
    let ghost rest3 = rest2.drop_first();
    let ghost rest4 = rest3.drop_first();
    proof {
        reveal_with_fuel(selected, 6);
        assert(rest1[0] == request.bundle_id && rest2[0] == request.aumid && rest3[0]
            == request.path && rest4[0] == request.launch_path);
        assert(rest4.drop_first().len() == 0);
        reveal_strlit("");
    }
    if selector_names(&request.name) {
        selector_text(&request.name)
    } else if selector_names(&request.bundle_id) {
        selector_text(&request.bundle_id)
    } else if selector_names(&request.aumid) {
        selector_text(&request.aumid)
    } else if selector_names(&request.path) {
        selector_text(&request.path)
    } else if selector_names(&request.launch_path) {
        selector_text(&request.launch_path)
    } else {
        assert(selected(all) =~= ""@);
        ""
    }
}

fn one_if(condition: bool) -> (r: u8)
    ensures
        r == if condition {
            1u8
        } else {
            0u8
        },
{
    if condition {
        1
    } else {
        0
    }
}

fn count_selectors(request: &ComputerUseLaunchRequest) -> (r: u8)
    ensures
        r == selector_count(selectors(*request)),
{
    proof {
        let all = selectors(*request);
        reveal_with_fuel(selector_count, 6);
        let four = all.drop_last();
        let three = four.drop_last();
        let two = three.drop_last();
        let one = two.drop_last();
        assert(all.last() == request.launch_path && four.last() == request.path && three.last()
            == request.aumid && two.last() == request.bundle_id && one.last() == request.name);
        assert(one.drop_last().len() == 0);
    }
    one_if(selector_names(&request.name)) + one_if(selector_names(&request.bundle_id)) + one_if(
        selector_names(&request.aumid),
    ) + one_if(selector_names(&request.path)) + one_if(selector_names(&request.launch_path))
}

/// Validates a launch against the markers of denied applications.
pub fn validate_launch_request(
    request: &ComputerUseLaunchRequest,
    denied_markers: &Vec<&str>,
) -> (r: ComputerUseResult<()>)
    ensures
        decides(r, launch_refusal(*request, texts(denied_markers@))),
{
    let count: u8 = count_selectors(request);
    if count > 1 || (count == 0 && request.urls.len() == 0) {
        return Err(
            ComputerUseError::new(
                ComputerUseErrorCode::InvalidAction,
                "launch requires one application selector or at least one URL",
            ),
        );
    }
    let name = lower_text(selected_text(request));
    if contains_any(name.as_str(), denied_markers) || text_contains(name.as_str(), "bash") {
        return Err(
            ComputerUseError::new(
                ComputerUseErrorCode::InvalidTarget,
                "system, terminal, authentication, password, and security applications are not allowed",
            ),
        );
    }
    if request.urls.len() > MAX_LAUNCH_URLS || request.additional_arguments.len()
        > MAX_LAUNCH_ARGUMENTS {
        return Err(
            ComputerUseError::new(
                ComputerUseErrorCode::InvalidAction,
                "launch contains too many URLs or arguments",
            ),
        );
    }
    let mut i: usize = 0;
    let mut allowed: bool = true;
    while i < request.urls.len()
        invariant
            i <= request.urls.len(),
            allowed == forall|k: int|
                0 <= k < i ==> url_allowed((#[trigger] request.urls@[k])@),
        decreases request.urls.len() - i,
    {
        let ok = is_url_allowed(request.urls[i].as_str());
        if !ok {
            assert(!url_allowed(request.urls@[i as int]@));
        }
        allowed = allowed && ok;
        i = i + 1;
    }
    if !allowed {
        return Err(
            ComputerUseError::new(
                ComputerUseErrorCode::InvalidAction,
                "launch URLs must use http, https, or the Epic Games Launcher protocol",
            ),
        );
    }
    Ok(())
}

/// A list of texts as JSON.
pub open spec fn text_trees(list: Seq<String>) -> Seq<JsonTree> {
    Seq::new(list.len(), |i: int| JsonTree::Text(list[i]@))
}

fn texts_json(list: &Vec<String>) -> (r: Vec<Json>)
    ensures
        array_tree(r@) == text_trees(list@),
{
    let mut out: Vec<Json> = Vec::new();
    let mut i: usize = 0;
    while i < list.len()
        invariant
            i <= list.len(),
            array_tree(out@) == text_trees(list@).take(i as int),
        decreases list.len() - i,
    {
        let ghost before = out@;
        out.push(Json::text(list[i].as_str()));
        assert(out@.drop_last() =~= before);
        assert(text_trees(list@).take(i + 1) =~= text_trees(list@).take(i as int).push(
            JsonTree::Text(list@[i as int]@),
        ));
        i = i + 1;
    }
    assert(text_trees(list@).take(list@.len() as int) =~= text_trees(list@));
    out
}

/// Members with one more text, where there is one.
pub open spec fn with_text(
    members: Map<Seq<char>, JsonTree>,
    name: Seq<char>,
    value: Option<String>,
) -> Map<Seq<char>, JsonTree> {
    match value {
        Some(text) => members.insert(name, JsonTree::Text(text@)),
        None => members,
    }
}

/// Members with one more list, where it is not empty.
pub open spec fn with_texts(
    members: Map<Seq<char>, JsonTree>,
    name: Seq<char>,
    list: Seq<String>,
) -> Map<Seq<char>, JsonTree> {
    if list.len() > 0 {
        members.insert(name, JsonTree::Array(text_trees(list)))
    } else {
        members
    }
}

/// A launch request on the wire: absent selectors and empty lists are left
/// out.
pub open spec fn launch_members(request: ComputerUseLaunchRequest) -> Map<Seq<char>, JsonTree> {
    let m = Map::<Seq<char>, JsonTree>::empty();
    let m = with_text(m, "name"@, request.name);
    let m = with_text(m, "bundle_id"@, request.bundle_id);
    let m = with_text(m, "aumid"@, request.aumid);
    let m = with_text(m, "path"@, request.path);
    let m = with_text(m, "launch_path"@, request.launch_path);
    let m = with_texts(m, "urls"@, request.urls@);
    let m = with_texts(m, "additional_arguments"@, request.additional_arguments@);
    m.insert(
        "creates_new_application_instance"@,
        JsonTree::Bool(request.creates_new_application_instance),
    ).insert("start_minimized"@, JsonTree::Bool(request.start_minimized))
}

fn put_text(members: &mut Vec<JsonMember>, name: &str, value: &Option<String>)
    ensures
        object_tree(final(members)@) == with_text(object_tree(old(members)@), name@, *value),
{
    if let Some(text) = value {
        put_member(members, name, Json::text(text.as_str()));
    }
}

fn put_texts(members: &mut Vec<JsonMember>, name: &str, list: &Vec<String>)
    ensures
        object_tree(final(members)@) == with_texts(object_tree(old(members)@), name@, list@),
{
    if list.len() > 0 {
        put_member(members, name, Json::Array(texts_json(list)));
    }
}

/// The arguments of a validated launch, under the session that will own it.
pub fn launch_arguments(
    request: &ComputerUseLaunchRequest,
    session_id: Option<&str>,
    denied_markers: &Vec<&str>,
) -> (r: ComputerUseResult<Json>)
    ensures
        match launch_refusal(*request, texts(denied_markers@)) {
            Some((code, message)) => fails_with(r, code, message),
            None => r matches Ok(arguments) && arguments.view() == JsonTree::Object(
                match session_id {
                    Some(session) => launch_members(*request).insert(
                        "session"@,
                        JsonTree::Text(session@),
                    ),
                    None => launch_members(*request),
                },
            ),
        },
{
    match validate_launch_request(request, denied_markers) {
        Ok(()) => {},
        Err(error) => return Err(error),
    }
    let mut members: Vec<JsonMember> = Vec::new();
    put_text(&mut members, "name", &request.name);
    put_text(&mut members, "bundle_id", &request.bundle_id);
    put_text(&mut members, "aumid", &request.aumid);
    put_text(&mut members, "path", &request.path);
    put_text(&mut members, "launch_path", &request.launch_path);
    put_texts(&mut members, "urls", &request.urls);
    put_texts(&mut members, "additional_arguments", &request.additional_arguments);
    put_member(
        &mut members,
        "creates_new_application_instance",
        Json::Bool(request.creates_new_application_instance),
    );
    put_member(&mut members, "start_minimized", Json::Bool(request.start_minimized));
    if let Some(session) = session_id {
        put_member(&mut members, "session", Json::text(session));
    }
    Ok(Json::Object(members))
}

/// A launch session is named by more than white space.
pub fn validate_launch_session(session_id: &str) -> (r: ComputerUseResult<()>)
    ensures
        decides(
            r,
            if trimmed(session_id@).len() == 0 {
                Some(
                    (
                        ComputerUseErrorCode::InvalidAction,
                        "launch session_id must not be empty"@,
                    ),
                )
            } else {
                None
            },
        ),
{
    if is_blank(session_id) {
        return Err(
            ComputerUseError::new(
                ComputerUseErrorCode::InvalidAction,
                "launch session_id must not be empty",
            ),
        );
    }
    Ok(())
}

/// A launch for a session.
pub open spec fn session_launch_is_prepared(request: ComputerUseLaunchRequest, session_id: Seq<char>, denied: Seq<Seq<char>>, r: ComputerUseResult<Json>) -> bool {
    &&& trimmed(session_id).len() == 0 ==> fails_with(
        r,
        ComputerUseErrorCode::InvalidAction,
        "launch session_id must not be empty"@,
    )
    &&& trimmed(session_id).len() > 0 ==> match launch_refusal(
        request,
        denied,
    ) {
        Some((code, message)) => fails_with(r, code, message),
        None => r matches Ok(arguments) && arguments.view() == JsonTree::Object(
            launch_members(request).insert("session"@, JsonTree::Text(session_id)),
        ),
    }
}

/// Prepares a launch that a session will own: the session is named, and the
/// arguments carry its name.
pub fn prepare_session_launch(
    request: &ComputerUseLaunchRequest,
    session_id: &str,
    denied_markers: &Vec<&str>,
) -> (r: ComputerUseResult<Json>)
    ensures
        session_launch_is_prepared(*request, session_id@, texts(denied_markers@), r),
{
    match validate_launch_session(session_id) {
        Ok(()) => launch_arguments(request, Some(session_id), denied_markers),
        Err(error) => Err(error),
    }
}

/// What the driver is asked to start for an application: a session that sees
/// windows alone.
pub fn launch_session_arguments(session_id: &str) -> (r: Json)
    ensures
        r.view() == JsonTree::Object(
            Map::<Seq<char>, JsonTree>::empty().insert(
                "session"@,
                JsonTree::Text(session_id@),
            ).insert("capture_scope"@, JsonTree::Text("window"@)),
        ),
{
    let mut members: Vec<JsonMember> = Vec::new();
    put_member(&mut members, "session", Json::text(session_id));
    put_member(&mut members, "capture_scope", Json::text("window"));
    Json::Object(members)
}

/// The stages of a session-owned launch.
#[derive(Debug, Clone, Copy, PartialEq, Eq, Structural)]
pub enum LaunchStage {
    StartingSession,
    LaunchingApplication,
}

/// What a session-owned launch does after a call returned.
pub enum LaunchStep {
    LaunchApplication,
    Finish(ComputerUseResult<Json>),
    EndSessionThenFail(ComputerUseError),
}

/// What follows a stage of a launch.
pub open spec fn launch_goes_on(stage: LaunchStage, result: ComputerUseResult<Json>, r: LaunchStep) -> bool {
    match (stage, result) {
        (LaunchStage::StartingSession, Ok(_)) => r == LaunchStep::LaunchApplication,
        (LaunchStage::StartingSession, Err(error)) => r == LaunchStep::Finish(
            Err::<Json, ComputerUseError>(error),
        ),
        (LaunchStage::LaunchingApplication, Ok(value)) => r == LaunchStep::Finish(
            Ok::<Json, ComputerUseError>(value),
        ),
        (LaunchStage::LaunchingApplication, Err(error)) => r == LaunchStep::EndSessionThenFail(
            error,
        ),
    }
}

/// Decides a session-owned launch: a session that started is ended again when
/// the launch in it fails, and the launch's own failure is reported.
pub fn advance_launch(stage: LaunchStage, result: ComputerUseResult<Json>) -> (r: LaunchStep)
    ensures
        launch_goes_on(stage, result, r),
{
    match stage {
        LaunchStage::StartingSession => match result {
            Ok(_) => LaunchStep::LaunchApplication,
            Err(error) => LaunchStep::Finish(Err(error)),
        },
        LaunchStage::LaunchingApplication => match result {
            Ok(value) => LaunchStep::Finish(Ok(value)),
            Err(error) => LaunchStep::EndSessionThenFail(error),
        },
    }
}

/// An accepted launch hands every selector on under its own name with the very
/// text that was asked for, every list with its texts in order, and both flags;
/// what was not asked for is not there.
pub proof fn law_launches_carry_what_was_asked_for(
    request: ComputerUseLaunchRequest,
    arguments: JsonTree,
)
    requires
        arguments == JsonTree::Object(launch_members(request)),
    ensures
        arguments.text_at("name"@) == optional_string(request.name),
        arguments.text_at("bundle_id"@) == optional_string(request.bundle_id),
        arguments.text_at("aumid"@) == optional_string(request.aumid),
        arguments.text_at("path"@) == optional_string(request.path),
        arguments.text_at("launch_path"@) == optional_string(request.launch_path),
        request.name is None ==> arguments.get("name"@) is None,
        request.bundle_id is None ==> arguments.get("bundle_id"@) is None,
        request.aumid is None ==> arguments.get("aumid"@) is None,
        request.path is None ==> arguments.get("path"@) is None,
        request.launch_path is None ==> arguments.get("launch_path"@) is None,
        lists_texts(arguments.get("urls"@), request.urls@),
        lists_texts(arguments.get("additional_arguments"@), request.additional_arguments@),
        arguments.bool_at("creates_new_application_instance"@) == Some(
            request.creates_new_application_instance,
        ),
        arguments.bool_at("start_minimized"@) == Some(request.start_minimized),
        arguments.get("session"@) is None,
{
    reveal_strlit("name");
    reveal_strlit("bundle_id");
    reveal_strlit("aumid");
    reveal_strlit("path");
    reveal_strlit("launch_path");
    reveal_strlit("urls");
    reveal_strlit("additional_arguments");
    reveal_strlit("creates_new_application_instance");
    reveal_strlit("start_minimized");
    reveal_strlit("session");
    assert("name"@.len() == 4);
    assert("bundle_id"@.len() == 9);
    assert("aumid"@.len() == 5);
    assert("path"@.len() == 4);
    assert("launch_path"@.len() == 11);
    assert("urls"@.len() == 4);
    assert("additional_arguments"@.len() == 20);
    assert("creates_new_application_instance"@.len() == 32);
    assert("start_minimized"@.len() == 15);
    assert("session"@.len() == 7);
    assert("name"@[0] != "path"@[0]);
    assert("name"@[0] != "urls"@[0]);
    assert("path"@[0] != "urls"@[0]);
}

/// The member lists these texts, in this order; where there are none, there is
/// no such member.
pub open spec fn lists_texts(member: Option<JsonTree>, texts: Seq<String>) -> bool {
    match member {
        None => texts.len() == 0,
        Some(JsonTree::Array(items)) => {
            &&& texts.len() > 0
            &&& items.len() == texts.len()
            &&& forall|i: int| 0 <= i < texts.len() ==> #[trigger] items[i] == JsonTree::Text(texts[i]@)
        },
        Some(_) => false,
    }
}

/// A launch under a session carries everything that one without it carries, and
/// the session's name.
pub proof fn law_session_launches_add_only_the_session(
    request: ComputerUseLaunchRequest,
    session: Seq<char>,
    name: Seq<char>,
)
    ensures
        ({
            let alone = launch_members(request);
            let owned = alone.insert("session"@, JsonTree::Text(session));
            &&& JsonTree::Object(owned).text_at("session"@) == Some(session)
            &&& name != "session"@ ==> JsonTree::Object(owned).get(name) == JsonTree::Object(
                alone,
            ).get(name)
        }),
{
}

/// A launch that is let through asks for one application, or for none but some
/// URL; it stays within the limits, names nothing that is denied, and opens no
/// other protocol than those of the web and of one launcher.
pub proof fn law_accepted_launches_are_bounded(
    request: ComputerUseLaunchRequest,
    denied: Seq<Seq<char>>,
    i: int,
    j: int,
)
    requires
        launch_refusal(request, denied) is None,
        0 <= i < j < 5,
    ensures
        ({
            let all = seq![
                request.name,
                request.bundle_id,
                request.aumid,
                request.path,
                request.launch_path,
            ];
            let one = all[i] is Some && trimmed(all[i]->0@).len() > 0;
            let other = all[j] is Some && trimmed(all[j]->0@).len() > 0;
            &&& !(one && other)
            &&& one ==> !any_occurs(lowered(all[i]->0@), denied) && !occurs_in(
                lowered(all[i]->0@),
                "bash"@,
            )
            &&& other ==> !any_occurs(lowered(all[j]->0@), denied) && !occurs_in(
                lowered(all[j]->0@),
                "bash"@,
            )
        }),
        request.urls@.len() <= 16,
        request.additional_arguments@.len() <= 32,
        forall|k: int|
            0 <= k < request.urls@.len() ==> {
                let url = lowered(trimmed((#[trigger] request.urls@[k])@));
                begins_with(url, "https://"@) || begins_with(url, "http://"@) || begins_with(
                    url,
                    "com.epicgames.launcher://"@,
                )
            },
        request.urls@.len() == 0 ==> selects(request.name) || selects(request.bundle_id) || selects(
            request.aumid,
        ) || selects(request.path) || selects(request.launch_path),
{
    let all = selectors(request);
    reveal_with_fuel(selector_count, 6);
    reveal_with_fuel(selected, 6);
    let four = all.drop_last();
    let three = four.drop_last();
    let two = three.drop_last();
    let one = two.drop_last();
    assert(all.last() == request.launch_path && four.last() == request.path && three.last()
        == request.aumid && two.last() == request.bundle_id && one.last() == request.name);
    assert(one.drop_last().len() == 0);
    let rest1 = all.drop_first();
    let rest2 = rest1.drop_first();
    let rest3 = rest2.drop_first();
    let rest4 = rest3.drop_first();
    assert(rest1[0] == request.bundle_id && rest2[0] == request.aumid && rest3[0] == request.path
        && rest4[0] == request.launch_path);
    assert(url_bounds(request));
}

spec fn url_bounds(request: ComputerUseLaunchRequest) -> bool {
    forall|k: int| 0 <= k < request.urls@.len() ==> url_allowed((#[trigger] request.urls@[k])@)
}

/// A launch starts its session first, then the application; what the application
/// answered is handed on, and an application that failed ends the session and is
/// the error.
pub proof fn law_launches_go_stage_by_stage(
    stage: LaunchStage,
    result: ComputerUseResult<Json>,
    r: LaunchStep,
)
    requires
        launch_goes_on(stage, result, r),
    ensures
        stage is StartingSession && result is Ok ==> r is LaunchApplication,
        stage is StartingSession && result is Err ==> r == LaunchStep::Finish(result),
        stage is LaunchingApplication && result is Ok ==> r == LaunchStep::Finish(result),
        stage is LaunchingApplication && result is Err ==> r == LaunchStep::EndSessionThenFail(
            result->Err_0,
        ),
{
}

/// A launch for a session that is named carries the request and the session's name;
/// one that is refused fails as the request alone would.
pub proof fn law_prepared_launches_name_the_session(
    request: ComputerUseLaunchRequest,
    session_id: Seq<char>,
    denied: Seq<Seq<char>>,
    r: ComputerUseResult<Json>,
    key: Seq<char>,
)
    requires
        session_launch_is_prepared(request, session_id, denied, r),
    ensures
        r is Ok <==> trimmed(session_id).len() > 0 && launch_refusal(request, denied) is None,
        r matches Ok(arguments) ==> arguments.view().text_at("session"@) == Some(session_id) && (key
            != "session"@ ==> arguments.view().get(key) == JsonTree::Object(
            launch_members(request),
        ).get(key)),
        (trimmed(session_id).len() > 0 && launch_refusal(request, denied) is Some) ==> (
        r matches Err(error) && Some((error.code, error.message@)) == launch_refusal(
            request,
            denied,
        )),
{
}

} // verus!
