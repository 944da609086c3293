//! Typed failures with their machine-readable continuation facts.

use crate::contracts::ComputerUseTargetScope;
use crate::text::join3;
use vstd::prelude::*;

verus! {

#[derive(Debug, Clone, Copy, PartialEq, Eq, Structural)]
pub enum ComputerUseErrorCode {
    BackendUnavailable,
    BrowserRefused,
    ClipboardRefused,
    RecordingRefused,
    MissingWindow,
    InvalidTarget,
    StaleObservation,
    UserInterrupted,
    InvalidAction,
    InteractiveDesktopUnavailable,
    InputFailed,
    CaptureFailed,
    CompletionUnknown,
    TargetMinimized,
    TargetUnavailable,
    TargetModalChanged,
    SessionRefreshRequired,
    ForegroundActivationRefused,
    NoAccessibilityProvider,
}

/// The stage of an operation in which a failure arose.
#[derive(Debug, Clone, Copy, PartialEq, Eq, Structural)]
pub enum ComputerUseErrorPhase {
    PreDispatch,
    UpstreamSessionRefresh,
    EvidenceDispatch,
    ActionDispatch,
    ActivationDispatch,
    LocalMutationDispatch,
}

/// Whether input left the host.
#[derive(Debug, Clone, Copy, PartialEq, Eq, Structural)]
pub enum ComputerUseInputState {
    NotSent,
    Unknown,
}

/// Whether the outcome of an operation is known.
#[derive(Debug, Clone, Copy, PartialEq, Eq, Structural)]
pub enum ComputerUseCompletionState {
    Known,
    Unknown,
}

/// Facts a caller needs to continue safely after a failure.
#[derive(Debug, Clone, PartialEq, Eq)]
pub struct ComputerUseErrorDetails {
    pub timed_out: Option<bool>,
    pub phase: Option<ComputerUseErrorPhase>,
    pub action_attempted: Option<bool>,
    pub input_sent: Option<ComputerUseInputState>,
    pub completion: Option<ComputerUseCompletionState>,
    pub effect_unknown: Option<bool>,
    pub local_session_invalidated: Option<bool>,
    pub session_remains_active: Option<bool>,
    pub automatic_input: Option<bool>,
    pub blind_retry: Option<bool>,
    pub fresh_observation_required: Option<bool>,
    pub exact_target_revalidation_required: Option<bool>,
    pub focus_mutation_attempted: Option<bool>,
    pub background_delivery_viable: Option<bool>,
    pub suggested_delivery_mode: Option<String>,
    pub automatic_rebind: Option<bool>,
    pub explicit_rebind_required: Option<bool>,
    pub suggested_target: Option<ComputerUseTargetScope>,
}

/// Details that say nothing.
pub open spec fn no_details() -> ComputerUseErrorDetails {
    ComputerUseErrorDetails {
        timed_out: None,
        phase: None,
        action_attempted: None,
        input_sent: None,
        completion: None,
        effect_unknown: None,
        local_session_invalidated: None,
        session_remains_active: None,
        automatic_input: None,
        blind_retry: None,
        fresh_observation_required: None,
        exact_target_revalidation_required: None,
        focus_mutation_attempted: None,
        background_delivery_viable: None,
        suggested_delivery_mode: None,
        automatic_rebind: None,
        explicit_rebind_required: None,
        suggested_target: None,
    }
}

impl Default for ComputerUseErrorDetails {
    fn default() -> (r: Self)
        ensures
            r == no_details(),
    {
        ComputerUseErrorDetails {
            timed_out: None,
            phase: None,
            action_attempted: None,
            input_sent: None,
            completion: None,
            effect_unknown: None,
            local_session_invalidated: None,
            session_remains_active: None,
            automatic_input: None,
            blind_retry: None,
            fresh_observation_required: None,
            exact_target_revalidation_required: None,
            focus_mutation_attempted: None,
            background_delivery_viable: None,
            suggested_delivery_mode: None,
            automatic_rebind: None,
            explicit_rebind_required: None,
            suggested_target: None,
        }
    }
}

#[derive(Debug, Clone, PartialEq, Eq)]
pub struct ComputerUseError {
    pub code: ComputerUseErrorCode,
    pub message: String,
    pub details: Option<ComputerUseErrorDetails>,
}

pub type ComputerUseResult<T> = Result<T, ComputerUseError>;

/// The error carries this code and message, and no details.
pub open spec fn is_plain_error(
    error: ComputerUseError,
    code: ComputerUseErrorCode,
    message: Seq<char>,
) -> bool {
    error.code == code && error.message@ == message && error.details is None
}

/// The error carries this code, message, and details.
pub open spec fn is_detailed_error(
    error: ComputerUseError,
    code: ComputerUseErrorCode,
    message: Seq<char>,
    details: ComputerUseErrorDetails,
) -> bool {
    error.code == code && error.message@ == message && error.details == Some(details)
}

/// The result fails with this code and message, without details.
pub open spec fn fails_with<T>(
    result: ComputerUseResult<T>,
    code: ComputerUseErrorCode,
    message: Seq<char>,
) -> bool {
    result matches Err(error) && is_plain_error(error, code, message)
}

/// A refusal by code and message, or none.
pub type Refusal = Option<(ComputerUseErrorCode, Seq<char>)>;

/// The result carries the refusal.
pub open spec fn refuses<T>(result: ComputerUseResult<T>, refusal: Refusal) -> bool {
    refusal matches Some((code, message)) && fails_with(result, code, message)
}

/// The result succeeds exactly when nothing refuses, and otherwise carries
/// the refusal.
pub open spec fn decides(result: ComputerUseResult<()>, refusal: Refusal) -> bool {
    match refusal {
        None => result is Ok,
        Some((code, message)) => fails_with(result, code, message),
    }
}

impl ComputerUseErrorCode {
    /// The code's variant name.
    pub open spec fn name_text(self) -> Seq<char> {
        match self {
            ComputerUseErrorCode::BackendUnavailable => "BackendUnavailable"@,
            ComputerUseErrorCode::BrowserRefused => "BrowserRefused"@,
            ComputerUseErrorCode::ClipboardRefused => "ClipboardRefused"@,
            ComputerUseErrorCode::RecordingRefused => "RecordingRefused"@,
            ComputerUseErrorCode::MissingWindow => "MissingWindow"@,
            ComputerUseErrorCode::InvalidTarget => "InvalidTarget"@,
            ComputerUseErrorCode::StaleObservation => "StaleObservation"@,
            ComputerUseErrorCode::UserInterrupted => "UserInterrupted"@,
            ComputerUseErrorCode::InvalidAction => "InvalidAction"@,
            ComputerUseErrorCode::InteractiveDesktopUnavailable =>
                "InteractiveDesktopUnavailable"@,
            ComputerUseErrorCode::InputFailed => "InputFailed"@,
            ComputerUseErrorCode::CaptureFailed => "CaptureFailed"@,
            ComputerUseErrorCode::CompletionUnknown => "CompletionUnknown"@,
            ComputerUseErrorCode::TargetMinimized => "TargetMinimized"@,
            ComputerUseErrorCode::TargetUnavailable => "TargetUnavailable"@,
            ComputerUseErrorCode::TargetModalChanged => "TargetModalChanged"@,
            ComputerUseErrorCode::SessionRefreshRequired => "SessionRefreshRequired"@,
            ComputerUseErrorCode::ForegroundActivationRefused => "ForegroundActivationRefused"@,
            ComputerUseErrorCode::NoAccessibilityProvider => "NoAccessibilityProvider"@,
        }
    }

    pub fn name(self) -> (r: &'static str)
        ensures
            r@ == self.name_text(),
    {
        match self {
            ComputerUseErrorCode::BackendUnavailable => "BackendUnavailable",
            ComputerUseErrorCode::BrowserRefused => "BrowserRefused",
            ComputerUseErrorCode::ClipboardRefused => "ClipboardRefused",
            ComputerUseErrorCode::RecordingRefused => "RecordingRefused",
            ComputerUseErrorCode::MissingWindow => "MissingWindow",
            ComputerUseErrorCode::InvalidTarget => "InvalidTarget",
            ComputerUseErrorCode::StaleObservation => "StaleObservation",
            ComputerUseErrorCode::UserInterrupted => "UserInterrupted",
            ComputerUseErrorCode::InvalidAction => "InvalidAction",
            ComputerUseErrorCode::InteractiveDesktopUnavailable => "InteractiveDesktopUnavailable",
            ComputerUseErrorCode::InputFailed => "InputFailed",
            ComputerUseErrorCode::CaptureFailed => "CaptureFailed",
            ComputerUseErrorCode::CompletionUnknown => "CompletionUnknown",
            ComputerUseErrorCode::TargetMinimized => "TargetMinimized",
            ComputerUseErrorCode::TargetUnavailable => "TargetUnavailable",
            ComputerUseErrorCode::TargetModalChanged => "TargetModalChanged",
            ComputerUseErrorCode::SessionRefreshRequired => "SessionRefreshRequired",
            ComputerUseErrorCode::ForegroundActivationRefused => "ForegroundActivationRefused",
            ComputerUseErrorCode::NoAccessibilityProvider => "NoAccessibilityProvider",
        }
    }

    /// The code's name on the wire.
    pub open spec fn wire_text(self) -> Seq<char> {
        match self {
            ComputerUseErrorCode::BackendUnavailable => "backend_unavailable"@,
            ComputerUseErrorCode::BrowserRefused => "browser_refused"@,
            ComputerUseErrorCode::ClipboardRefused => "clipboard_refused"@,
            ComputerUseErrorCode::RecordingRefused => "recording_refused"@,
            ComputerUseErrorCode::MissingWindow => "missing_window"@,
            ComputerUseErrorCode::InvalidTarget => "invalid_target"@,
            ComputerUseErrorCode::StaleObservation => "stale_observation"@,
            ComputerUseErrorCode::UserInterrupted => "user_interrupted"@,
            ComputerUseErrorCode::InvalidAction => "invalid_action"@,
            ComputerUseErrorCode::InteractiveDesktopUnavailable => "interactive_desktop_unavailable"@,
            ComputerUseErrorCode::InputFailed => "input_failed"@,
            ComputerUseErrorCode::CaptureFailed => "capture_failed"@,
            ComputerUseErrorCode::CompletionUnknown => "completion_unknown"@,
            ComputerUseErrorCode::TargetMinimized => "target_minimized"@,
            ComputerUseErrorCode::TargetUnavailable => "target_unavailable"@,
            ComputerUseErrorCode::TargetModalChanged => "target_modal_changed"@,
            ComputerUseErrorCode::SessionRefreshRequired => "session_refresh_required"@,
            ComputerUseErrorCode::ForegroundActivationRefused => "foreground_activation_refused"@,
            ComputerUseErrorCode::NoAccessibilityProvider => "no_accessibility_provider"@,
        }
    }

    pub fn wire_name(self) -> (r: &'static str)
        ensures
            r@ == self.wire_text(),
    {
        match self {
            ComputerUseErrorCode::BackendUnavailable => "backend_unavailable",
            ComputerUseErrorCode::BrowserRefused => "browser_refused",
            ComputerUseErrorCode::ClipboardRefused => "clipboard_refused",
            ComputerUseErrorCode::RecordingRefused => "recording_refused",
            ComputerUseErrorCode::MissingWindow => "missing_window",
            ComputerUseErrorCode::InvalidTarget => "invalid_target",
            ComputerUseErrorCode::StaleObservation => "stale_observation",
            ComputerUseErrorCode::UserInterrupted => "user_interrupted",
            ComputerUseErrorCode::InvalidAction => "invalid_action",
            ComputerUseErrorCode::InteractiveDesktopUnavailable => "interactive_desktop_unavailable",
            ComputerUseErrorCode::InputFailed => "input_failed",
            ComputerUseErrorCode::CaptureFailed => "capture_failed",
            ComputerUseErrorCode::CompletionUnknown => "completion_unknown",
            ComputerUseErrorCode::TargetMinimized => "target_minimized",
            ComputerUseErrorCode::TargetUnavailable => "target_unavailable",
            ComputerUseErrorCode::TargetModalChanged => "target_modal_changed",
            ComputerUseErrorCode::SessionRefreshRequired => "session_refresh_required",
            ComputerUseErrorCode::ForegroundActivationRefused => "foreground_activation_refused",
            ComputerUseErrorCode::NoAccessibilityProvider => "no_accessibility_provider",
        }
    }
}

impl ComputerUseError {
    pub fn new(code: ComputerUseErrorCode, message: &str) -> (r: Self)
        ensures
            is_plain_error(r, code, message@),
    {
        ComputerUseError { code, message: message.to_owned(), details: None }
    }

    /// An error that owns its already built message.
    pub fn owned(code: ComputerUseErrorCode, message: String) -> (r: Self)
        ensures
            is_plain_error(r, code, message@),
            r.message == message,
    {
        ComputerUseError { code, message, details: None }
    }

    pub fn with_details(self, details: ComputerUseErrorDetails) -> (r: Self)
        ensures
            r.code == self.code,
            r.message == self.message,
            r.details == Some(details),
    {
        ComputerUseError { code: self.code, message: self.message, details: Some(details) }
    }

    /// Whether the failure is marked as a timeout.
    pub open spec fn timed_out(self) -> bool {
        self.details matches Some(details) && details.timed_out == Some(true)
    }

    pub fn is_timed_out(&self) -> (r: bool)
        ensures
            r == self.timed_out(),
    {
        match &self.details {
            Some(details) => match details.timed_out {
                Some(timed_out) => timed_out,
                None => false,
            },
            None => false,
        }
    }

    /// The error's display form: the code's name, a colon, and the message.
    pub open spec fn display(self) -> Seq<char> {
        self.code.name_text() + ": "@ + self.message@
    }

    pub fn display_text(&self) -> (r: String)
        ensures
            r@ == self.display(),
    {
        join3(self.code.name(), ": ", self.message.as_str())
    }
}

/// What is refused fails with the code and in the words of the refusal, and what is
/// not refused succeeds.
pub proof fn law_refusals_are_the_errors(result: ComputerUseResult<()>, refusal: Refusal)
    requires
        decides(result, refusal),
    ensures
        result is Ok <==> refusal is None,
        refusal matches Some((code, message)) ==> result->Err_0.code == code
            && result->Err_0.message@ == message,
{
}

} // verus!
