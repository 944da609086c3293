//! Replies and failures of the native driver, as plain data.

use crate::errors::{ComputerUseError, ComputerUseErrorCode, ComputerUseResult};
#[allow(unused_imports)]
use crate::errors::{fails_with, is_detailed_error, no_details};
use crate::json::{parse_json, Json};
#[allow(unused_imports)]
use crate::json::parsed_text;
use crate::text::{decimal_text, join3};
#[allow(unused_imports)]
use crate::text::decimal;
use vstd::prelude::*;
use vstd::string::*;

verus! {

/// One image in a tool's reply, still encoded for transport.
#[derive(Debug, Clone, PartialEq, Eq)]
pub struct ToolImage {
    pub data_base64: String,
    pub mime_type: String,
}

/// What a tool call returned.
#[derive(Debug, Clone, PartialEq, Eq)]
pub struct ToolReply {
    pub is_error: bool,
    pub error_code: Option<String>,
    pub raw_json: String,
    pub text: String,
    pub structured_json: Option<String>,
    pub images: Vec<ToolImage>,
    pub degraded: bool,
    /// The action's validated effect, where the reply carries one.
    pub action_effect: Option<String>,
}

/// How far an interrupted action got.
#[derive(Debug, Clone, Copy, PartialEq, Eq, Structural)]
pub enum ActionCompletion {
    NotStarted,
    Completed,
    Unknown,
}

/// How a dispatched call ended. Driver failures come with the error they map
/// to.
#[derive(Debug)]
pub enum DispatchOutcome<T> {
    /// The driver answered.
    Completed(T),
    /// The driver interrupted the action.
    Interrupted { completion: ActionCompletion, reason: String },
    /// The tool ran and reported a failure.
    ToolFailed(ComputerUseError),
    /// The connection to the driver was lost after the call went out.
    ConnectionLost(ComputerUseError),
    /// The driver refused the call before it went out.
    Refused(ComputerUseError),
    /// The call did not come back in time, or failed outside the driver.
    NotReturned(ComputerUseError),
}

/// The message of a tool whose reply is not JSON.
pub open spec fn invalid_json_message(tool: Seq<char>, error: Seq<char>) -> Seq<char> {
    "CUA "@ + tool + " returned invalid JSON: "@ + error
}

/// The value of a reply that could or could not be parsed.
pub fn tool_value(tool: &str, parsed: Result<Json, String>) -> (r: ComputerUseResult<Json>)
    ensures
        match parsed {
            Ok(value) => r == Ok::<Json, ComputerUseError>(value),
            Err(message) => fails_with(
                r,
                ComputerUseErrorCode::BackendUnavailable,
                invalid_json_message(tool@, message@),
            ),
        },
{
    match parsed {
        Ok(value) => Ok(value),
        Err(message) => {
            let mut text = join3("CUA ", tool, " returned invalid JSON: ");
            text.append(message.as_str());
            Err(ComputerUseError::owned(ComputerUseErrorCode::BackendUnavailable, text))
        },
    }
}

/// The value a tool's raw reply stands for.
pub fn parse_bound_tool_value(tool: &str, raw_json: &str) -> (r: ComputerUseResult<Json>)
    ensures
        match parsed_text(raw_json@) {
            Ok(tree) => r matches Ok(value) && value.view() == tree,
            Err(message) => fails_with(
                r,
                ComputerUseErrorCode::BackendUnavailable,
                invalid_json_message(tool@, message),
            ),
        },
{
    tool_value(tool, parse_json(raw_json))
}

/// The state a structured reply stands for, or nothing where it is absent or
/// not JSON.
pub fn structured_state(structured_json: Option<&str>) -> (r: Option<Json>)
    ensures
        match structured_json {
            Some(text) => match parsed_text(text@) {
                Ok(tree) => r matches Some(value) && value.view() == tree,
                Err(_) => r is None,
            },
            None => r is None,
        },
{
    match structured_json {
        Some(text) => match parse_json(text) {
            Ok(value) => Some(value),
            Err(_) => None,
        },
        None => None,
    }
}

/// The failure of a call that did not come back in time.
pub fn input_call_timed_out(operation: &str, timeout_ms: u64) -> (r: ComputerUseError)
    ensures
        is_detailed_error(
            r,
            ComputerUseErrorCode::InputFailed,
            "CUA "@ + operation@ + " timed out after "@ + decimal(timeout_ms as nat) + " ms"@,
            (crate::errors::ComputerUseErrorDetails { timed_out: Some(true), ..no_details() }),
        ),
{
    let mut text = join3("CUA ", operation, " timed out after ");
    text.append(decimal_text(timeout_ms).as_str());
    text.append(" ms");
    let mut details = crate::errors::ComputerUseErrorDetails::default();
    details.timed_out = Some(true);
    ComputerUseError::owned(ComputerUseErrorCode::InputFailed, text).with_details(details)
}

/// The effect a mutating tool reported, without which its reply is unusable.
pub fn validated_action_effect(reply: &ToolReply, operation: &str) -> (r: ComputerUseResult<String>)
    ensures
        match reply.action_effect {
            Some(effect) => r matches Ok(text) && text@ == effect@,
            None => fails_with(
                r,
                ComputerUseErrorCode::BackendUnavailable,
                "CUA "@ + operation@ + " omitted its validated action effect"@,
            ),
        },
{
    match &reply.action_effect {
        Some(effect) => Ok(effect.clone()),
        None => Err(
            ComputerUseError::owned(
                ComputerUseErrorCode::BackendUnavailable,
                join3("CUA ", operation, " omitted its validated action effect"),
            ),
        ),
    }
}

} // verus!
