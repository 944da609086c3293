//! Input that is not sent where it could land in the wrong place, and keys
//! posted to a window.

use crate::contracts::{duplicate_texts, ComputerUseAction};
use crate::errors::{ComputerUseError, ComputerUseErrorCode, ComputerUseResult};
#[allow(unused_imports)]
use crate::errors::{decides, Refusal};
use crate::text::{
    join3, quoted_text, text_begins_with, text_eq, text_eq_ignoring_case, trim_text,
};
#[allow(unused_imports)]
use crate::text::{begins_with, debug_quoted, same_ignoring_case, trimmed};
use crate::window_target::WindowTarget;
use vstd::prelude::*;
use vstd::string::*;

verus! {

/// The action names no place: neither an element nor a coordinate.
pub open spec fn names_no_place(action: ComputerUseAction) -> bool {
    action.element_index is None && action.element_token is None && action.x is None && action.y
        is None
}

/// Text that goes wherever the focus is.
pub open spec fn is_unscoped_text(action: ComputerUseAction) -> bool {
    (action.action@ == "type"@ || action.action@ == "type_chars"@) && names_no_place(action)
}

/// Text that is the address of a web page.
pub open spec fn is_web_address(action: ComputerUseAction) -> bool {
    action.text matches Some(text) && (begins_with(trimmed(text@), "https://"@) || begins_with(
        trimmed(text@),
        "http://"@,
    ))
}

/// An application that embeds a browser of its own.
pub open spec fn is_app_shell(app_name: Seq<char>) -> bool {
    let name = trimmed(app_name);
    same_ignoring_case(name, "ChatGPT.exe"@) || same_ignoring_case(name, "ChatGPT"@)
        || same_ignoring_case(name, "Codex.exe"@) || same_ignoring_case(name, "Codex"@)
}

/// A web address typed into an application shell could land in a chat instead
/// of an address bar.
pub open spec fn navigation_refusal(action: ComputerUseAction, target: WindowTarget) -> Refusal {
    if is_unscoped_text(action) && is_web_address(action) && is_app_shell(target.app_name@) {
        Some(
            (
                ComputerUseErrorCode::InvalidAction,
                "URL input into the Codex app shell requires an explicit semantic browser address element or a browser session"@,
            ),
        )
    } else {
        None
    }
}

fn places_nothing(action: &ComputerUseAction) -> (r: bool)
    ensures
        r == names_no_place(*action),
{
    action.element_index.is_none() && action.element_token.is_none() && action.x.is_none()
        && action.y.is_none()
}

pub fn reject_ambiguous_embedded_browser_navigation(
    action: &ComputerUseAction,
    target: &WindowTarget,
) -> (r: ComputerUseResult<()>)
    ensures
        decides(r, navigation_refusal(*action, *target)),
{
    let unscoped = (text_eq(action.action.as_str(), "type") || text_eq(
        action.action.as_str(),
        "type_chars",
    )) && places_nothing(action);
    let address = match &action.text {
        Some(text) => {
            let text = trim_text(text.as_str());
            text_begins_with(text, "https://") || text_begins_with(text, "http://")
        },
        None => false,
    };
    let name = trim_text(target.app_name.as_str());
    let shell = text_eq_ignoring_case(name, "ChatGPT.exe") || text_eq_ignoring_case(
        name,
        "ChatGPT",
    ) || text_eq_ignoring_case(name, "Codex.exe") || text_eq_ignoring_case(name, "Codex");
    if unscoped && address && shell {
        return Err(
            ComputerUseError::new(
                ComputerUseErrorCode::InvalidAction,
                "URL input into the Codex app shell requires an explicit semantic browser address element or a browser session",
            ),
        );
    }
    Ok(())
}

/// Keys that go to a window as messages.
#[derive(Debug)]
pub struct PostedKey {
    pub key: String,
    pub modifiers: Vec<String>,
}

/// A key action without a place, for the window in front.
pub open spec fn is_postable_key(action: ComputerUseAction) -> bool {
    &&& action.delivery_mode matches Some(mode) && mode@ == "foreground"@
    &&& action.action@ == "keypress"@ || action.action@ == "keyboard_shortcut"@
    &&& names_no_place(action)
}

/// Whether an action can be sent as a posted key.
pub fn posts_key(action: &ComputerUseAction) -> (r: bool)
    ensures
        r == is_postable_key(*action),
{
    let foreground = match &action.delivery_mode {
        Some(mode) => text_eq(mode.as_str(), "foreground"),
        None => false,
    };
    foreground && (text_eq(action.action.as_str(), "keypress") || text_eq(
        action.action.as_str(),
        "keyboard_shortcut",
    )) && places_nothing(action)
}

/// The last text of a list, or an empty one.
pub open spec fn last_text(texts: Seq<String>) -> Seq<char> {
    if texts.len() > 0 {
        texts.last()@
    } else {
        ""@
    }
}

/// The texts of two lists are the same.
pub open spec fn same_texts(a: Seq<String>, b: Seq<String>) -> bool {
    a.len() == b.len() && forall|i: int| 0 <= i < a.len() ==> (#[trigger] a[i])@ == b[i]@
}

/// The key that is posted for an action.
pub open spec fn is_posted_key(action: ComputerUseAction, backend_id: Seq<char>, shortcut: Seq<String>, r: Option<PostedKey>) -> bool {
    if is_postable_key(action) && (action.input_backend_id matches Some(id) && id@
        == backend_id) {
        &&& r matches Some(posted)
        &&& if action.action@ == "keyboard_shortcut"@ {
            &&& posted.key@ == last_text(shortcut)
            &&& same_texts(
                posted.modifiers@,
                if shortcut.len() > 0 {
                    shortcut.drop_last()
                } else {
                    shortcut
                },
            )
        } else {
            &&& posted.key@ == last_text(action.keys@)
            &&& same_texts(posted.modifiers@, action.modifiers@)
        }
    } else {
        r is None
    }
}

/// The key an action posts through the given backend, if it does. A shortcut
/// posts the last of its keys and holds the ones before it; `shortcut` are its
/// keys.
pub fn posted_key(action: &ComputerUseAction, backend_id: &str, shortcut: &Vec<String>) -> (r:
    Option<PostedKey>)
    ensures
        is_posted_key(*action, backend_id@, shortcut@, r),
{
    let chosen = match &action.input_backend_id {
        Some(id) => text_eq(id.as_str(), backend_id),
        None => false,
    };
    if !chosen || !posts_key(action) {
        return None;
    }
    if text_eq(action.action.as_str(), "keyboard_shortcut") {
        let mut modifiers = duplicate_texts(shortcut);
        let key = match modifiers.pop() {
            Some(key) => key,
            None => "".to_owned(),
        };
        Some(PostedKey { key, modifiers })
    } else {
        let mut keys = duplicate_texts(&action.keys);
        let key = match keys.pop() {
            Some(key) => key,
            None => "".to_owned(),
        };
        Some(PostedKey { key, modifiers: duplicate_texts(&action.modifiers) })
    }
}

/// What is said of a key that was posted.
pub fn posted_key_text(key: &str, backend_id: &str) -> (r: String)
    ensures
        r@ == "Posted scoped Windows key "@ + debug_quoted(key@) + " via "@ + backend_id@
            + "; verify the target effect before continuing."@,
{
    let mut text = join3("Posted scoped Windows key ", quoted_text(key).as_str(), " via ");
    text.append(backend_id);
    text.append("; verify the target effect before continuing.");
    text
}

/// An address is not typed into an application's shell where the place for it was
/// not named; any other input passes.
pub proof fn law_addresses_need_their_place(action: ComputerUseAction, target: WindowTarget)
    ensures
        navigation_refusal(action, target) is Some ==> (action.action@ == "type"@ || action.action@
            == "type_chars"@) && action.element_index is None && action.element_token is None
            && action.x is None && action.y is None && action.text is Some && is_app_shell(
            target.app_name@,
        ),
        (action.action@ == "type"@ || action.action@ == "type_chars"@) && action.element_index
            is None && action.element_token is None && action.x is None && action.y is None && (
        action.text matches Some(text) && begins_with(trimmed(text@), "https://"@)) && is_app_shell(
            target.app_name@,
        ) ==> navigation_refusal(action, target) is Some,
        (action.action@ == "type"@ || action.action@ == "type_chars"@) && action.element_index
            is None && action.element_token is None && action.x is None && action.y is None && (
        action.text matches Some(text) && begins_with(trimmed(text@), "http://"@)) && is_app_shell(
            target.app_name@,
        ) ==> navigation_refusal(action, target) is Some,
        is_app_shell(target.app_name@) <==> same_ignoring_case(
            trimmed(target.app_name@),
            "ChatGPT.exe"@,
        ) || same_ignoring_case(trimmed(target.app_name@), "ChatGPT"@) || same_ignoring_case(
            trimmed(target.app_name@),
            "Codex.exe"@,
        ) || same_ignoring_case(trimmed(target.app_name@), "Codex"@),
{
}

/// A key is posted in the foreground by the way that was asked for: the last key of
/// a shortcut with those before it held, or the last key given with its modifiers.
pub proof fn law_posted_keys_are_those_given(
    action: ComputerUseAction,
    backend_id: Seq<char>,
    shortcut: Seq<String>,
    r: Option<PostedKey>,
)
    requires
        is_posted_key(action, backend_id, shortcut, r),
    ensures
        r is Some <==> (action.delivery_mode matches Some(mode) && mode@ == "foreground"@) && (
        action.action@ == "keypress"@ || action.action@ == "keyboard_shortcut"@)
            && action.element_index is None && action.element_token is None && action.x is None
            && action.y is None && (action.input_backend_id matches Some(id) && id@ == backend_id),
        (r is Some && action.action@ == "keypress"@ && action.keys@.len() > 0) ==> r->0.key@
            == action.keys@.last()@ && r->0.modifiers@.len() == action.modifiers@.len()
            && forall|i: int|
            0 <= i < action.modifiers@.len() ==> (#[trigger] r->0.modifiers@[i])@
                == action.modifiers@[i]@,
        (r is Some && action.action@ == "keyboard_shortcut"@ && shortcut.len() > 0) ==> r->0.key@
            == shortcut.last()@ && r->0.modifiers@.len() == shortcut.len() - 1 && forall|i: int|
            0 <= i < shortcut.len() - 1 ==> (#[trigger] r->0.modifiers@[i])@ == shortcut[i]@,
{
    reveal_strlit("keypress");
    reveal_strlit("keyboard_shortcut");
    assert("keypress"@.len() == 8);
    assert("keyboard_shortcut"@.len() == 17);
}

} // verus!
