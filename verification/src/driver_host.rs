//! How a driver is set up for its host: its options, its cursor theme, and its
//! tool inventory.

use crate::contracts::MOUSE_CURSOR_THEME;
use crate::errors::{ComputerUseError, ComputerUseErrorCode, ComputerUseResult};
#[allow(unused_imports)]
use crate::errors::fails_with;
use crate::json::{parse_json, Json};
#[allow(unused_imports)]
use crate::json::parsed_text;
use crate::text::{join2, join3, text_eq};
use vstd::prelude::*;
use vstd::string::*;

verus! {

/// What a driver is told about its host.
#[derive(Debug)]
pub struct DriverHostSettings {
    pub cursor_enabled: bool,
    pub cursor_theme_id: String,
    pub host_owns_permission_ux: bool,
    pub host_bundle_id: Option<String>,
    pub prepare_desktop_environment: bool,
    /// The typed tools of creative applications are registered with the driver.
    pub registers_dcc_tools: bool,
}

/// The settings of a driver embedded in its host: it renders the cursor where
/// the platform has a native renderer, and carries the typed tools.
pub fn embedded_settings(renderer_enabled: bool) -> (r: DriverHostSettings)
    ensures
        r.cursor_enabled == renderer_enabled,
        r.cursor_theme_id@ == MOUSE_CURSOR_THEME@,
        r.host_owns_permission_ux,
        r.host_bundle_id is None,
        r.prepare_desktop_environment,
        r.registers_dcc_tools,
{
    DriverHostSettings {
        cursor_enabled: renderer_enabled,
        cursor_theme_id: MOUSE_CURSOR_THEME.to_owned(),
        host_owns_permission_ux: true,
        host_bundle_id: None,
        prepare_desktop_environment: true,
        registers_dcc_tools: true,
    }
}

/// The settings of a driver in a private worker of the named host.
pub fn worker_settings(host_bundle_id: &str, cursor_default: bool) -> (r: DriverHostSettings)
    ensures
        r.cursor_enabled == cursor_default,
        r.cursor_theme_id@ == MOUSE_CURSOR_THEME@,
        r.host_owns_permission_ux,
        r.host_bundle_id matches Some(id) && id@ == host_bundle_id@,
        r.prepare_desktop_environment,
        !r.registers_dcc_tools,
{
    DriverHostSettings {
        cursor_enabled: cursor_default,
        cursor_theme_id: MOUSE_CURSOR_THEME.to_owned(),
        host_owns_permission_ux: true,
        host_bundle_id: Some(host_bundle_id.to_owned()),
        prepare_desktop_environment: true,
        registers_dcc_tools: false,
    }
}

/// The name of the file that the cursor theme is installed as.
pub fn theme_file_name() -> (r: String)
    ensures
        r@ == MOUSE_CURSOR_THEME@ + ".cua-theme"@,
{
    join2(MOUSE_CURSOR_THEME, ".cua-theme")
}

/// Where the installation of the bundled cursor theme is in its course.
#[derive(Debug, Clone, Copy, PartialEq, Eq, Structural)]
pub enum ThemePhase {
    /// The bundled theme decoded.
    Decode,
    /// The theme store found.
    Root,
    /// The theme store created.
    Create,
    /// The installed theme read.
    Read,
    /// The bundled theme written.
    Write,
}

/// What comes back.
#[derive(Debug)]
pub enum ThemeReply {
    /// The name of the bundled theme.
    Decoded(Result<String, String>),
    Root(Result<(), String>),
    /// How the store's creation went, with its place.
    Created { place: String, result: Result<(), String> },
    /// Whether the bundled theme is installed already.
    Installed(bool),
    /// How the writing went, with its place.
    Written { place: String, result: Result<(), String> },
}

/// An installation that goes on, or is done.
#[derive(Debug)]
pub enum ThemeStep {
    Continue(ThemePhase),
    Done(ComputerUseResult<()>),
}

/// The installation fails.
pub open spec fn theme_fails(step: ThemeStep, message: Seq<char>) -> bool {
    step matches ThemeStep::Done(result) && fails_with(
        result,
        ComputerUseErrorCode::BackendUnavailable,
        message,
    )
}

/// One step of the installation.
pub open spec fn theme_step(
    phase: ThemePhase,
    reply: ThemeReply,
    step: ThemeStep,
) -> bool {
    match (phase, reply) {
        (ThemePhase::Decode, ThemeReply::Decoded(decoded)) => match decoded {
            Err(message) => theme_fails(step, "decode bundled cursor theme: "@ + message@),
            Ok(id) => if id@ == MOUSE_CURSOR_THEME@ {
                step == ThemeStep::Continue(ThemePhase::Root)
            } else {
                theme_fails(step, "bundled cursor theme does not match the runtime contract"@)
            },
        },
        (ThemePhase::Root, ThemeReply::Root(found)) => match found {
            Err(message) => theme_fails(step, "resolve CUA cursor theme store: "@ + message@),
            Ok(_) => step == ThemeStep::Continue(ThemePhase::Create),
        },
        (ThemePhase::Create, ThemeReply::Created { place, result }) => match result {
            Err(message) => theme_fails(
                step,
                "create CUA cursor theme store "@ + place@ + ": "@ + message@,
            ),
            Ok(_) => step == ThemeStep::Continue(ThemePhase::Read),
        },
        (ThemePhase::Read, ThemeReply::Installed(same)) => if same {
            step matches ThemeStep::Done(Ok(_))
        } else {
            step == ThemeStep::Continue(ThemePhase::Write)
        },
        (ThemePhase::Write, ThemeReply::Written { place, result }) => match result {
            Err(message) => theme_fails(
                step,
                "install bundled cursor theme "@ + place@ + ": "@ + message@,
            ),
            Ok(_) => step matches ThemeStep::Done(Ok(_)),
        },
        _ => step == ThemeStep::Continue(phase),
    }
}

fn theme_failure(text: String) -> (r: ThemeStep)
    ensures
        theme_fails(r, text@),
{
    ThemeStep::Done(Err(ComputerUseError::owned(ComputerUseErrorCode::BackendUnavailable, text)))
}

/// Takes in what came back of the installation of the cursor theme. What the
/// phase did not ask for changes nothing.
pub fn advance_theme(phase: ThemePhase, reply: ThemeReply) -> (r: ThemeStep)
    ensures
        theme_step(phase, reply, r),
{
    match (phase, reply) {
        (ThemePhase::Decode, ThemeReply::Decoded(decoded)) => match decoded {
            Err(message) => theme_failure(
                join2("decode bundled cursor theme: ", message.as_str()),
            ),
            Ok(id) => {
                if text_eq(id.as_str(), MOUSE_CURSOR_THEME) {
                    ThemeStep::Continue(ThemePhase::Root)
                } else {
                    theme_failure(
                        "bundled cursor theme does not match the runtime contract".to_owned(),
                    )
                }
            },
        },
        (ThemePhase::Root, ThemeReply::Root(found)) => match found {
            Err(message) => theme_failure(
                join2("resolve CUA cursor theme store: ", message.as_str()),
            ),
            Ok(()) => ThemeStep::Continue(ThemePhase::Create),
        },
        (ThemePhase::Create, ThemeReply::Created { place, result }) => match result {
            Err(message) => {
                let mut text = join3("create CUA cursor theme store ", place.as_str(), ": ");
                text.append(message.as_str());
                theme_failure(text)
            },
            Ok(()) => ThemeStep::Continue(ThemePhase::Read),
        },
        (ThemePhase::Read, ThemeReply::Installed(same)) => {
            if same {
                ThemeStep::Done(Ok(()))
            } else {
                ThemeStep::Continue(ThemePhase::Write)
            }
        },
        (ThemePhase::Write, ThemeReply::Written { place, result }) => match result {
            Err(message) => {
                let mut text = join3("install bundled cursor theme ", place.as_str(), ": ");
                text.append(message.as_str());
                theme_failure(text)
            },
            Ok(()) => ThemeStep::Done(Ok(())),
        },
        _ => ThemeStep::Continue(phase),
    }
}

/// The tool inventory a driver's listing stands for.
pub fn tool_inventory(raw: &str) -> (r: ComputerUseResult<Json>)
    ensures
        match parsed_text(raw@) {
            Ok(tree) => r matches Ok(inventory) && inventory.view() == tree,
            Err(message) => fails_with(
                r,
                ComputerUseErrorCode::BackendUnavailable,
                "CUA tool inventory returned invalid JSON: "@ + message,
            ),
        },
{
    inventory_from(parse_json(raw))
}

/// The tool inventory of a listing that could or could not be parsed.
pub fn inventory_from(parsed: Result<Json, String>) -> (r: ComputerUseResult<Json>)
    ensures
        match parsed {
            Ok(inventory) => r == Ok::<Json, ComputerUseError>(inventory),
            Err(message) => fails_with(
                r,
                ComputerUseErrorCode::BackendUnavailable,
                "CUA tool inventory returned invalid JSON: "@ + message@,
            ),
        },
{
    match parsed {
        Ok(inventory) => Ok(inventory),
        Err(message) => Err(
            ComputerUseError::owned(
                ComputerUseErrorCode::BackendUnavailable,
                join2("CUA tool inventory returned invalid JSON: ", message.as_str()),
            ),
        ),
    }
}

/// The theme is installed in order, once it is the one that belongs to the driver;
/// one that is there already is left alone, and whatever fails ends the
/// installation.
pub proof fn law_themes_are_installed_in_order(
    phase: ThemePhase,
    reply: ThemeReply,
    step: ThemeStep,
)
    requires
        theme_step(phase, reply, step),
    ensures
        (step matches ThemeStep::Continue(next) && next == ThemePhase::Root && phase
            == ThemePhase::Decode) ==> (reply matches ThemeReply::Decoded(Ok(id)) && id@
            == MOUSE_CURSOR_THEME@),
        phase == ThemePhase::Decode && (reply matches ThemeReply::Decoded(Ok(id)) && id@
            != MOUSE_CURSOR_THEME@) ==> (step matches ThemeStep::Done(Err(_))),
        (step matches ThemeStep::Done(Ok(_))) ==> reply == ThemeReply::Installed(true) && phase
            == ThemePhase::Read || phase == ThemePhase::Write && (reply matches ThemeReply::Written {
            result: Ok(_),
            ..
        }),
        phase == ThemePhase::Read && reply == ThemeReply::Installed(false) ==> step
            == ThemeStep::Continue(ThemePhase::Write),
        phase == ThemePhase::Create && (reply matches ThemeReply::Created { result: Err(_), .. })
            ==> (step matches ThemeStep::Done(Err(_))),
        phase == ThemePhase::Write && (reply matches ThemeReply::Written { result: Err(_), .. })
            ==> (step matches ThemeStep::Done(Err(_))),
        step matches ThemeStep::Done(Err(error)) ==> error.code
            == ComputerUseErrorCode::BackendUnavailable,
{
}

} // verus!
