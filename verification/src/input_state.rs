//! Input readiness, target availability, and the per-session event stream.

use crate::interactive_desktop::diagnostic;
#[allow(unused_imports)]
use crate::interactive_desktop::{platform_managed_report, says_true};
use crate::json::Json;
#[allow(unused_imports)]
use crate::json::{optional_string, JsonTree};
use vstd::prelude::*;

verus! {

#[derive(Debug, Clone, Copy, PartialEq, Eq, Structural)]
pub enum ComputerUseInputStatus {
    Ready,
    Suspended,
}

#[derive(Debug, Clone, PartialEq, Eq)]
pub struct ComputerUseInputReadiness {
    pub status: ComputerUseInputStatus,
    pub code: String,
    pub reason: Option<String>,
}

/// Input can be sent: the desktop is ready and so is its input surface.
pub open spec fn diagnostic_ready(report: JsonTree) -> bool {
    says_true(report, "success"@) && says_true(report, "input_ready"@)
}

/// The code under which readiness is reported.
pub open spec fn readiness_code(report: JsonTree) -> Seq<char> {
    if diagnostic_ready(report) {
        match report.text_at("code"@) {
            Some(code) => code,
            None => "interactive_desktop_ready"@,
        }
    } else {
        match report.text_at("input_code"@) {
            Some(code) => code,
            None => match report.text_at("code"@) {
                Some(code) => code,
                None => "interactive_desktop_unavailable"@,
            },
        }
    }
}

/// Why input is suspended; nothing where it is ready.
pub open spec fn readiness_reason(report: JsonTree) -> Option<Seq<char>> {
    if diagnostic_ready(report) {
        None
    } else {
        Some(
            match report.text_at("input_message"@) {
                Some(message) => message,
                None => match report.text_at("message"@) {
                    Some(message) => message,
                    None => "Windows input surface is unavailable"@,
                },
            },
        )
    }
}

/// The readiness is what the report says.
pub open spec fn readiness_reports(readiness: ComputerUseInputReadiness, report: JsonTree) -> bool {
    &&& readiness.status == if diagnostic_ready(report) {
        ComputerUseInputStatus::Ready
    } else {
        ComputerUseInputStatus::Suspended
    }
    &&& readiness.code@ == readiness_code(report)
    &&& optional_string(readiness.reason) == readiness_reason(report)
}

impl ComputerUseInputReadiness {
    #[must_use]
    pub fn from_diagnostic(diagnostic: &Json) -> (r: Self)
        ensures
            readiness_reports(r, diagnostic.view()),
    {
        let success = match diagnostic.bool_at("success") {
            Some(value) => value,
            None => false,
        };
        let input_ready = match diagnostic.bool_at("input_ready") {
            Some(value) => value,
            None => false,
        };
        let ready = success && input_ready;
        let code = if ready {
            match diagnostic.text_at("code") {
                Some(code) => code,
                None => "interactive_desktop_ready",
            }
        } else {
            match diagnostic.text_at("input_code") {
                Some(code) => code,
                None => match diagnostic.text_at("code") {
                    Some(code) => code,
                    None => "interactive_desktop_unavailable",
                },
            }
        };
        let reason = if ready {
            None
        } else {
            let message = match diagnostic.text_at("input_message") {
                Some(message) => message,
                None => match diagnostic.text_at("message") {
                    Some(message) => message,
                    None => "Windows input surface is unavailable",
                },
            };
            Some(message.to_owned())
        };
        ComputerUseInputReadiness {
            status: if ready {
                ComputerUseInputStatus::Ready
            } else {
                ComputerUseInputStatus::Suspended
            },
            code: code.to_owned(),
            reason,
        }
    }
}

/// Probes input readiness without activating a window or sending input.
#[must_use]
pub fn probe_input_readiness() -> (r: ComputerUseInputReadiness)
    ensures
        readiness_reports(r, platform_managed_report()),
{
    ComputerUseInputReadiness::from_diagnostic(&diagnostic())
}

#[derive(Debug, Clone, PartialEq, Eq)]
pub struct ComputerUseInputTarget {
    pub session_id: String,
    pub process_id: u32,
    pub window_handle: u64,
}

#[derive(Debug, Clone, PartialEq, Eq)]
pub struct ComputerUseSessionInputState {
    pub status: ComputerUseInputStatus,
    pub code: String,
    pub reason: Option<String>,
    /// Unix epoch time in milliseconds of the latest readiness sample.
    pub observed_at: u64,
    /// Per-session cursor of the last input transition.
    pub sequence: u64,
    pub target: ComputerUseInputTarget,
}

/// Availability of the exact target, independent of whether the interactive
/// desktop can currently accept input.
#[derive(Debug, Clone, Copy, PartialEq, Eq, Structural)]
pub enum ComputerUseTargetStatus {
    Available,
    Minimized,
    Unavailable,
}

/// The status that minimization and visibility stand for.
pub open spec fn status_of(minimized: bool, visible: bool) -> ComputerUseTargetStatus {
    if minimized {
        ComputerUseTargetStatus::Minimized
    } else if visible {
        ComputerUseTargetStatus::Available
    } else {
        ComputerUseTargetStatus::Unavailable
    }
}

impl ComputerUseTargetStatus {
    /// The code under which a status is reported.
    pub open spec fn code_text(self) -> Seq<char> {
        match self {
            ComputerUseTargetStatus::Available => "target_available"@,
            ComputerUseTargetStatus::Minimized => "target_minimized"@,
            ComputerUseTargetStatus::Unavailable => "target_unavailable"@,
        }
    }

    pub fn code(self) -> (r: &'static str)
        ensures
            r@ == self.code_text(),
    {
        match self {
            ComputerUseTargetStatus::Available => "target_available",
            ComputerUseTargetStatus::Minimized => "target_minimized",
            ComputerUseTargetStatus::Unavailable => "target_unavailable",
        }
    }
}

#[derive(Debug, Clone, PartialEq, Eq)]
pub struct ComputerUseTargetAvailability {
    pub status: ComputerUseTargetStatus,
    pub code: String,
    pub visible: bool,
    pub minimized: bool,
    pub foreground: bool,
}

/// A flag under its first name, else under its second, else unset.
pub open spec fn flag_of(state: JsonTree, first: Seq<char>, second: Seq<char>) -> bool {
    match state.bool_at(first) {
        Some(value) => value,
        None => match state.bool_at(second) {
            Some(value) => value,
            None => false,
        },
    }
}

fn flag(state: &Json, first: &str, second: &str) -> (r: bool)
    ensures
        r == flag_of(state.view(), first@, second@),
{
    match state.bool_at(first) {
        Some(value) => value,
        None => match state.bool_at(second) {
            Some(value) => value,
            None => false,
        },
    }
}

impl ComputerUseTargetAvailability {
    /// The availability states exactly these facts of the target.
    pub open spec fn states(self, minimized: bool, visible: bool, foreground: bool) -> bool {
        &&& self.minimized == minimized
        &&& self.visible == visible
        &&& self.foreground == foreground
        &&& self.status == status_of(minimized, visible)
        &&& self.code@ == self.status.code_text()
    }

    /// The availability that minimization, visibility, and focus stand for.
    pub fn from_flags(minimized: bool, visible: bool, foreground: bool) -> (r: Self)
        ensures
            r.states(minimized, visible, foreground),
    {
        let status = if minimized {
            ComputerUseTargetStatus::Minimized
        } else if visible {
            ComputerUseTargetStatus::Available
        } else {
            ComputerUseTargetStatus::Unavailable
        };
        ComputerUseTargetAvailability {
            status,
            code: status.code().to_owned(),
            visible,
            minimized,
            foreground,
        }
    }

    #[must_use]
    pub fn from_window_state(state: &Json) -> (r: Self)
        ensures
            r.states(
                flag_of(state.view(), "minimized"@, "is_minimized"@),
                flag_of(state.view(), "visible"@, "is_on_screen"@),
                flag_of(state.view(), "foreground"@, "is_foreground"@),
            ),
    {
        let minimized = flag(state, "minimized", "is_minimized");
        let visible = flag(state, "visible", "is_on_screen");
        let foreground = flag(state, "foreground", "is_foreground");
        ComputerUseTargetAvailability::from_flags(minimized, visible, foreground)
    }
}

#[derive(Debug, Clone, PartialEq, Eq)]
pub struct ComputerUseSessionTargetState {
    pub status: ComputerUseTargetStatus,
    pub code: String,
    pub visible: bool,
    pub minimized: bool,
    pub foreground: bool,
    /// Unix epoch time in milliseconds of the latest read-only target sample.
    pub observed_at: u64,
    /// Per-session cursor of the last target transition.
    pub sequence: u64,
    pub target: ComputerUseInputTarget,
}

/// The first state of a session's window.
pub open spec fn target_state_begins(target: ComputerUseInputTarget, availability: ComputerUseTargetAvailability, observed_at: u64, r: ComputerUseSessionTargetState) -> bool {
    &&& r.status == availability.status
    &&& r.code == availability.code
    &&& r.visible == availability.visible
    &&& r.minimized == availability.minimized
    &&& r.foreground == availability.foreground
    &&& r.observed_at == observed_at
    &&& r.sequence == 1
    &&& r.target == target
}

impl ComputerUseSessionTargetState {
    #[must_use]
    pub fn initial(
        target: ComputerUseInputTarget,
        availability: ComputerUseTargetAvailability,
        observed_at: u64,
    ) -> (r: Self)
        ensures
            target_state_begins(target, availability, observed_at, r),
    {
        ComputerUseSessionTargetState {
            status: availability.status,
            code: availability.code,
            visible: availability.visible,
            minimized: availability.minimized,
            foreground: availability.foreground,
            observed_at,
            sequence: 1,
            target,
        }
    }
}

/// The first state of a session's input.
pub open spec fn input_state_begins(target: ComputerUseInputTarget, readiness: ComputerUseInputReadiness, observed_at: u64, r: ComputerUseSessionInputState) -> bool {
    &&& r.status == readiness.status
    &&& r.code == readiness.code
    &&& r.reason == readiness.reason
    &&& r.observed_at == observed_at
    &&& r.sequence == 1
    &&& r.target == target
}

impl ComputerUseSessionInputState {
    #[must_use]
    pub fn initial(
        target: ComputerUseInputTarget,
        readiness: ComputerUseInputReadiness,
        observed_at: u64,
    ) -> (r: Self)
        ensures
            input_state_begins(target, readiness, observed_at, r),
    {
        ComputerUseSessionInputState {
            status: readiness.status,
            code: readiness.code,
            reason: readiness.reason,
            observed_at,
            sequence: 1,
            target,
        }
    }
}

#[derive(Debug, Clone, Copy, PartialEq, Eq, Structural)]
pub enum ComputerUseSessionEventKind {
    InputSuspended,
    InputResumed,
}

#[derive(Debug, Clone, Copy, PartialEq, Eq, Structural)]
pub struct ComputerUseInputResumeRequirements {
    pub automatic_input: bool,
    pub exact_target_revalidation: bool,
    pub fresh_observation: bool,
    pub foreground_or_explicit_activation: bool,
    pub upstream_session_refresh_may_be_required: bool,
}

impl ComputerUseInputResumeRequirements {
    /// Everything is to be proved anew, and nothing is sent automatically.
    #[must_use]
    pub fn safe_continuation() -> (r: Self)
        ensures
            !r.automatic_input,
            r.exact_target_revalidation,
            r.fresh_observation,
            r.foreground_or_explicit_activation,
            r.upstream_session_refresh_may_be_required,
    {
        ComputerUseInputResumeRequirements {
            automatic_input: false,
            exact_target_revalidation: true,
            fresh_observation: true,
            foreground_or_explicit_activation: true,
            upstream_session_refresh_may_be_required: true,
        }
    }
}

#[derive(Debug, Clone, PartialEq, Eq)]
pub struct ComputerUseSessionEvent {
    pub kind: ComputerUseSessionEventKind,
    pub sequence: u64,
    pub previous: ComputerUseSessionInputState,
    pub current: ComputerUseSessionInputState,
    pub resume_requirements: Option<ComputerUseInputResumeRequirements>,
}

#[derive(Debug, Clone, Copy, PartialEq, Eq, Structural)]
pub enum ComputerUseSessionTargetEventKind {
    TargetMinimized,
    TargetRestored,
    TargetUnavailable,
    TargetAvailable,
}

/// Continuation contract for a minimized exact target. It names an explicit
/// operation and never authorizes an automatic focus change or input retry.
#[derive(Debug, Clone, PartialEq, Eq)]
pub struct ComputerUseTargetRecoveryRequirements {
    pub automatic_input: bool,
    pub explicit_request_required: bool,
    pub operation: String,
    pub exact_target_revalidation: bool,
    pub fresh_observation: bool,
    pub foreground_validation: bool,
    pub blind_retry: bool,
}

impl ComputerUseTargetRecoveryRequirements {
    #[must_use]
    pub fn explicit_restore_activate() -> (r: Self)
        ensures
            !r.automatic_input,
            r.explicit_request_required,
            r.operation@ == "restore_activate"@,
            r.exact_target_revalidation,
            r.fresh_observation,
            r.foreground_validation,
            !r.blind_retry,
    {
        ComputerUseTargetRecoveryRequirements {
            automatic_input: false,
            explicit_request_required: true,
            operation: "restore_activate".to_owned(),
            exact_target_revalidation: true,
            fresh_observation: true,
            foreground_validation: true,
            blind_retry: false,
        }
    }
}

#[derive(Debug, Clone, PartialEq, Eq)]
pub struct ComputerUseSessionTargetEvent {
    pub kind: ComputerUseSessionTargetEventKind,
    pub sequence: u64,
    pub previous: ComputerUseSessionTargetState,
    pub current: ComputerUseSessionTargetState,
    pub recovery_requirements: Option<ComputerUseTargetRecoveryRequirements>,
    pub continuation_requirements: Option<ComputerUseInputResumeRequirements>,
}

/// One item in the single bounded per-session event stream.
#[derive(Debug, Clone, PartialEq, Eq)]
pub enum ComputerUseSessionEventEnvelope {
    Input(ComputerUseSessionEvent),
    Target(ComputerUseSessionTargetEvent),
}

impl ComputerUseSessionEventEnvelope {
    #[must_use]
    pub fn sequence(&self) -> (r: u64)
        ensures
            r == match *self {
                ComputerUseSessionEventEnvelope::Input(event) => event.sequence,
                ComputerUseSessionEventEnvelope::Target(event) => event.sequence,
            },
    {
        match self {
            ComputerUseSessionEventEnvelope::Input(event) => event.sequence,
            ComputerUseSessionEventEnvelope::Target(event) => event.sequence,
        }
    }
}

impl From<ComputerUseSessionEvent> for ComputerUseSessionEventEnvelope {
    fn from(event: ComputerUseSessionEvent) -> (r: Self) {
        ComputerUseSessionEventEnvelope::Input(event)
    }
}

impl vstd::std_specs::convert::FromSpecImpl<ComputerUseSessionEvent> for ComputerUseSessionEventEnvelope {
    open spec fn obeys_from_spec() -> bool {
        true
    }

    open spec fn from_spec(event: ComputerUseSessionEvent) -> Self {
        ComputerUseSessionEventEnvelope::Input(event)
    }
}

impl From<ComputerUseSessionTargetEvent> for ComputerUseSessionEventEnvelope {
    fn from(event: ComputerUseSessionTargetEvent) -> (r: Self) {
        ComputerUseSessionEventEnvelope::Target(event)
    }
}

impl vstd::std_specs::convert::FromSpecImpl<ComputerUseSessionTargetEvent> for ComputerUseSessionEventEnvelope {
    open spec fn obeys_from_spec() -> bool {
        true
    }

    open spec fn from_spec(event: ComputerUseSessionTargetEvent) -> Self {
        ComputerUseSessionEventEnvelope::Target(event)
    }
}

#[derive(Debug, Clone, PartialEq, Eq)]
pub struct ComputerUseSessionEventsPage {
    pub after_sequence: u64,
    pub latest_sequence: u64,
    pub oldest_available_sequence: Option<u64>,
    pub resync_required: bool,
    pub timed_out: bool,
    pub current_state: ComputerUseSessionInputState,
    pub current_target_state: ComputerUseSessionTargetState,
    pub events: Vec<ComputerUseSessionEventEnvelope>,
}

/// Missing evidence never counts as readiness: without an explicit success
/// and an explicit input readiness, input stays suspended.
pub proof fn law_readiness_fails_closed(report: JsonTree)
    ensures
        report.bool_at("success"@) != Some(true) ==> !diagnostic_ready(report),
        report.bool_at("input_ready"@) != Some(true) ==> !diagnostic_ready(report),
        readiness_reason(report) is Some <==> !diagnostic_ready(report),
{
}

/// Missing visibility evidence never counts as availability.
pub proof fn law_availability_fails_closed(state: JsonTree)
    requires
        state.bool_at("visible"@) is None,
        state.bool_at("is_on_screen"@) is None,
    ensures
        status_of(
            flag_of(state, "minimized"@, "is_minimized"@),
            flag_of(state, "visible"@, "is_on_screen"@),
        ) != ComputerUseTargetStatus::Available,
{
}

/// Input is ready where the report is a success that says so; else the reason and
/// the code are the report's own.
pub proof fn law_readiness_tells_the_report(
    readiness: ComputerUseInputReadiness,
    report: JsonTree,
)
    requires
        readiness_reports(readiness, report),
    ensures
        readiness.status == ComputerUseInputStatus::Ready <==> report.bool_at("success"@) == Some(
            true,
        ) && report.bool_at("input_ready"@) == Some(true),
        readiness.status == ComputerUseInputStatus::Ready <==> readiness.reason is None,
        readiness.status == ComputerUseInputStatus::Ready && report.text_at("code"@) is Some
            ==> report.text_at("code"@) == Some(readiness.code@),
        readiness.status == ComputerUseInputStatus::Suspended && report.text_at("input_code"@)
            is Some ==> report.text_at("input_code"@) == Some(readiness.code@),
        readiness.status == ComputerUseInputStatus::Suspended && report.text_at("input_message"@)
            is Some ==> report.text_at("input_message"@) == Some(readiness.reason->0@),
{
}

/// A window's availability is told by its flags: a minimized one first, then one
/// that is not shown.
pub proof fn law_availability_tells_the_flags(
    availability: ComputerUseTargetAvailability,
    minimized: bool,
    visible: bool,
    foreground: bool,
)
    requires
        availability.states(minimized, visible, foreground),
    ensures
        availability.minimized == minimized,
        availability.visible == visible,
        availability.foreground == foreground,
        minimized ==> availability.status == ComputerUseTargetStatus::Minimized
            && availability.code@ == "target_minimized"@,
        !minimized && visible ==> availability.status == ComputerUseTargetStatus::Available
            && availability.code@ == "target_available"@,
        !minimized && !visible ==> availability.status == ComputerUseTargetStatus::Unavailable
            && availability.code@ == "target_unavailable"@,
{
}

/// The first states of a session hold what was found, when, of which window, and
/// are the first of their sequence.
pub proof fn law_first_states_hold_what_was_found(
    target: ComputerUseInputTarget,
    availability: ComputerUseTargetAvailability,
    readiness: ComputerUseInputReadiness,
    observed_at: u64,
    window: ComputerUseSessionTargetState,
    input: ComputerUseSessionInputState,
)
    requires
        target_state_begins(target, availability, observed_at, window),
        input_state_begins(target, readiness, observed_at, input),
    ensures
        window.status == availability.status,
        window.code == availability.code,
        window.visible == availability.visible,
        window.minimized == availability.minimized,
        window.foreground == availability.foreground,
        window.observed_at == observed_at,
        window.sequence == 1,
        window.target == target,
        input.status == readiness.status,
        input.code == readiness.code,
        input.reason == readiness.reason,
        input.observed_at == observed_at,
        input.sequence == 1,
        input.target == target,
{
}

} // verus!
