//! Failures of the platform, as errors of a session.

use crate::errors::{ComputerUseError, ComputerUseErrorCode};
#[allow(unused_imports)]
use crate::errors::is_plain_error;
use crate::text::{join2, join3, text_contains};
#[allow(unused_imports)]
use crate::text::occurs_in;
use vstd::prelude::*;
use vstd::string::*;

verus! {

/// Why a window could not be changed.
#[derive(Debug)]
pub enum WindowMutationFailure {
    PermissionDenied(String),
    InvalidTarget(String),
    Other,
}

/// The code of a failed window mutation: a message that names the input gate
/// or a minimized window tells which it was.
pub open spec fn window_mutation_code(failure: WindowMutationFailure) -> ComputerUseErrorCode {
    match failure {
        WindowMutationFailure::PermissionDenied(message) => if occurs_in(
            message@,
            "input_gate_stage="@,
        ) {
            ComputerUseErrorCode::InteractiveDesktopUnavailable
        } else {
            ComputerUseErrorCode::InputFailed
        },
        WindowMutationFailure::InvalidTarget(message) => if occurs_in(
            message@,
            "target_minimized:"@,
        ) {
            ComputerUseErrorCode::TargetMinimized
        } else {
            ComputerUseErrorCode::TargetUnavailable
        },
        WindowMutationFailure::Other => ComputerUseErrorCode::InputFailed,
    }
}

/// The error of a failed window mutation. `shown` is how the platform puts it.
pub fn map_windows_window_mutation_error(
    context: &str,
    failure: &WindowMutationFailure,
    shown: &str,
) -> (r: ComputerUseError)
    ensures
        is_plain_error(r, window_mutation_code(*failure), context@ + ": "@ + shown@),
{
    let code = match failure {
        WindowMutationFailure::PermissionDenied(message) => {
            if text_contains(message.as_str(), "input_gate_stage=") {
                ComputerUseErrorCode::InteractiveDesktopUnavailable
            } else {
                ComputerUseErrorCode::InputFailed
            }
        },
        WindowMutationFailure::InvalidTarget(message) => {
            if text_contains(message.as_str(), "target_minimized:") {
                ComputerUseErrorCode::TargetMinimized
            } else {
                ComputerUseErrorCode::TargetUnavailable
            }
        },
        WindowMutationFailure::Other => ComputerUseErrorCode::InputFailed,
    };
    ComputerUseError::owned(code, join3(context, ": ", shown))
}

/// Why an indicator failed.
#[derive(Debug, Clone, Copy, PartialEq, Eq, Structural)]
pub enum IndicatorFailure {
    InvalidTarget,
    Backend,
}

/// The error of a failed indicator.
pub fn map_indicator_error(context: &str, failure: IndicatorFailure, shown: &str) -> (r:
    ComputerUseError)
    ensures
        is_plain_error(
            r,
            match failure {
                IndicatorFailure::InvalidTarget => ComputerUseErrorCode::InvalidTarget,
                IndicatorFailure::Backend => ComputerUseErrorCode::BackendUnavailable,
            },
            context@ + ": "@ + shown@,
        ),
{
    let code = match failure {
        IndicatorFailure::InvalidTarget => ComputerUseErrorCode::InvalidTarget,
        IndicatorFailure::Backend => ComputerUseErrorCode::BackendUnavailable,
    };
    ComputerUseError::owned(code, join3(context, ": ", shown))
}

/// Why held keys could not be sent.
#[derive(Debug, Clone, Copy, PartialEq, Eq, Structural)]
pub enum HeldKeyFailure {
    InvalidKey,
    Interrupted,
    TargetNotForeground,
    Injection,
}

/// The error of a held key.
pub open spec fn held_key_is_told(failure: HeldKeyFailure, shown: Seq<char>, r: ComputerUseError) -> bool {
    is_plain_error(
        r,
        match failure {
            HeldKeyFailure::InvalidKey => ComputerUseErrorCode::InvalidAction,
            HeldKeyFailure::Interrupted => ComputerUseErrorCode::UserInterrupted,
            HeldKeyFailure::TargetNotForeground => ComputerUseErrorCode::InputFailed,
            HeldKeyFailure::Injection => ComputerUseErrorCode::InputFailed,
        },
        "send Windows held key: "@ + shown,
    )
}

/// The error of keys that could not be held.
pub fn map_held_key_error(failure: HeldKeyFailure, shown: &str) -> (r: ComputerUseError)
    ensures
        held_key_is_told(failure, shown@, r),
{
    let code = match failure {
        HeldKeyFailure::InvalidKey => ComputerUseErrorCode::InvalidAction,
        HeldKeyFailure::Interrupted => ComputerUseErrorCode::UserInterrupted,
        HeldKeyFailure::TargetNotForeground => ComputerUseErrorCode::InputFailed,
        HeldKeyFailure::Injection => ComputerUseErrorCode::InputFailed,
    };
    ComputerUseError::owned(code, join2("send Windows held key: ", shown))
}

/// A change of a window that was denied by the input gate is the desktop's fault, a
/// minimized window and one that is gone are told apart, and anything else is a
/// failed input.
pub proof fn law_window_failures_are_told_apart(failure: WindowMutationFailure)
    ensures
        window_mutation_code(failure) == ComputerUseErrorCode::InteractiveDesktopUnavailable <==> (
        failure matches WindowMutationFailure::PermissionDenied(message) && occurs_in(
            message@,
            "input_gate_stage="@,
        )),
        window_mutation_code(failure) == ComputerUseErrorCode::TargetMinimized <==> (
        failure matches WindowMutationFailure::InvalidTarget(message) && occurs_in(
            message@,
            "target_minimized:"@,
        )),
        window_mutation_code(failure) == ComputerUseErrorCode::TargetUnavailable <==> (
        failure matches WindowMutationFailure::InvalidTarget(message) && !occurs_in(
            message@,
            "target_minimized:"@,
        )),
        failure is Other ==> window_mutation_code(failure) == ComputerUseErrorCode::InputFailed,
{
}

/// A held key that failed tells what went wrong in the words it came with.
pub proof fn law_held_key_failures_are_told_apart(
    failure: HeldKeyFailure,
    shown: Seq<char>,
    r: ComputerUseError,
)
    requires
        held_key_is_told(failure, shown, r),
    ensures
        r.code == ComputerUseErrorCode::InvalidAction <==> failure is InvalidKey,
        r.code == ComputerUseErrorCode::UserInterrupted <==> failure is Interrupted,
        r.code == ComputerUseErrorCode::InputFailed <==> failure is TargetNotForeground
            || failure is Injection,
        r.message@ == "send Windows held key: "@ + shown,
{
}

} // verus!
