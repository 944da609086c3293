//! Window operations of a session: bringing its window to the front,
//! restoring it, and closing it. Each is a run that asks the host for what it
//! needs to know next.

use crate::contracts::{ComputerUseToolResult, ComputerUseToolStatus};
use crate::error_contracts::{
    activation_completion_unknown, foreground_activation_refused,
    local_activation_validation_failure,
};
#[allow(unused_imports)]
use crate::error_contracts::{
    activation_refused_details, activation_unknown_suffix, activation_validation_details,
};
use crate::errors::{
    ComputerUseError, ComputerUseErrorCode, ComputerUseErrorDetails, ComputerUseResult,
};
#[allow(unused_imports)]
use crate::errors::{fails_with, is_detailed_error, is_plain_error, no_details};
use crate::input_state::ComputerUseTargetAvailability;
use crate::json::{put_member, Json, JsonMember};
#[allow(unused_imports)]
use crate::json::{unsigned_tree, JsonTree};
use crate::session::{BannerActivity, ComputerUseSession};
#[allow(unused_imports)]
use crate::session::{is_revalidation_failure, is_target_failure, is_usable_target};
use crate::steps::Step;
#[allow(unused_imports)]
use crate::steps::{
    refused_gate_stops, stops, stops_plainly, stops_sensitively, unusable_target_stops,
};
use crate::text::join2;
#[allow(unused_imports)]
use crate::text::removed;
#[allow(unused_imports)]
use crate::tool_binding::session_members;
use crate::window_target::{ensure_target_available_for_bootstrap_activation, WindowTarget};
#[allow(unused_imports)]
use crate::window_target::bootstrap_target_refusal;
#[allow(unused_imports)]
use crate::json::optional_text;
use vstd::prelude::*;
use vstd::string::*;

verus! {

/// What a window run asks for.
#[derive(Debug, Clone, Copy, PartialEq, Eq, Structural)]
pub enum WindowRequest {
    ResolveTarget,
    CheckInput,
    CheckActivation,
    ActivateWindow,
    RestoreAndActivateWindow,
    BringToFront,
}

/// How a call of the driver's own activation ended.
#[derive(Debug)]
pub enum FrontCall {
    /// It came back, with a result or a failure.
    Returned(ComputerUseResult<ComputerUseToolResult>),
    /// It did not come back in time.
    NotReturned(ComputerUseError),
}

/// What the host hands back.
#[derive(Debug)]
pub enum WindowReply {
    Target(ComputerUseResult<WindowTarget>),
    Gate(ComputerUseResult<()>),
    Mutated(ComputerUseResult<()>),
    Front(FrontCall),
}

/// A window that was brought to the front.
#[derive(Debug)]
pub struct ActivationReport {
    pub target: WindowTarget,
    pub result: ComputerUseToolResult,
    /// The host had to bring the window to the front itself.
    pub fallback: bool,
}

/// The result of bringing a window to the front without the driver.
pub open spec fn is_exact_activation(result: ComputerUseToolResult, claims_success: bool) -> bool {
    &&& result.status == ComputerUseToolStatus::Succeeded
    &&& result.value.view() == JsonTree::Object(
        if claims_success {
            Map::<Seq<char>, JsonTree>::empty().insert("success"@, JsonTree::Bool(true)).insert(
                "path"@,
                JsonTree::Text("windows_exact_foreground"@),
            )
        } else {
            Map::<Seq<char>, JsonTree>::empty().insert(
                "path"@,
                JsonTree::Text("windows_exact_foreground"@),
            )
        },
    )
    &&& result.text@ == "Activated the exact Windows PID/HWND target."@
    &&& result.images@.len() == 0
    &&& !result.degraded
}

fn exact_activation_result(claims_success: bool) -> (r: ComputerUseToolResult)
    ensures
        is_exact_activation(r, claims_success),
{
    let mut members: Vec<JsonMember> = Vec::new();
    if claims_success {
        put_member(&mut members, "success", Json::Bool(true));
    }
    put_member(&mut members, "path", Json::text("windows_exact_foreground"));
    ComputerUseToolResult {
        status: ComputerUseToolStatus::Succeeded,
        value: Json::Object(members),
        text: "Activated the exact Windows PID/HWND target.".to_owned(),
        images: Vec::new(),
        degraded: false,
    }
}

/// Where an activation is in its course.
#[derive(Debug, Clone, Copy, PartialEq, Eq, Structural)]
pub enum ActivatePhase {
    Gate,
    Target,
    /// The input desktop once more, right before the window is touched.
    MutationGate,
    Mutation,
    TargetAfter,
    GateAfter,
    /// The driver brings the window to the front.
    Front,
    /// The window after the driver's call, by identity alone.
    Resolve,
}

/// Bringing the session's window to the front.
#[derive(Debug)]
pub struct ActivateRun {
    pub phase: ActivatePhase,
    pub expected: Option<WindowTarget>,
    pub target: Option<WindowTarget>,
    pub result: Option<ComputerUseToolResult>,
}

impl ActivateRun {
    pub open spec fn at(self, phase: ActivatePhase) -> ActivateRun {
        ActivateRun { phase, ..self }
    }

    /// The run holds what its phase needs.
    pub open spec fn well_formed(self) -> bool {
        match self.phase {
            ActivatePhase::Gate | ActivatePhase::Target => true,
            ActivatePhase::GateAfter => self.expected is Some && self.target is Some,
            ActivatePhase::Resolve => self.expected is Some && self.result is Some,
            _ => self.expected is Some,
        }
    }

    pub open spec fn asks(self) -> WindowRequest {
        match self.phase {
            ActivatePhase::Gate => WindowRequest::CheckActivation,
            ActivatePhase::Target => WindowRequest::ResolveTarget,
            ActivatePhase::MutationGate => WindowRequest::CheckActivation,
            ActivatePhase::Mutation => WindowRequest::ActivateWindow,
            ActivatePhase::TargetAfter => WindowRequest::ResolveTarget,
            ActivatePhase::GateAfter => WindowRequest::CheckActivation,
            ActivatePhase::Front => WindowRequest::BringToFront,
            ActivatePhase::Resolve => WindowRequest::ResolveTarget,
        }
    }

    pub fn request(&self) -> (r: WindowRequest)
        ensures
            r == self.asks(),
    {
        match self.phase {
            ActivatePhase::Gate => WindowRequest::CheckActivation,
            ActivatePhase::Target => WindowRequest::ResolveTarget,
            ActivatePhase::MutationGate => WindowRequest::CheckActivation,
            ActivatePhase::Mutation => WindowRequest::ActivateWindow,
            ActivatePhase::TargetAfter => WindowRequest::ResolveTarget,
            ActivatePhase::GateAfter => WindowRequest::CheckActivation,
            ActivatePhase::Front => WindowRequest::BringToFront,
            ActivatePhase::Resolve => WindowRequest::ResolveTarget,
        }
    }

    fn goes(self, phase: ActivatePhase) -> (r: Step<ActivateRun, ActivationReport>)
        ensures
            r == Step::<ActivateRun, ActivationReport>::Continue(self.at(phase)),
    {
        let mut run = self;
        run.phase = phase;
        Step::Continue(run)
    }
}

impl ActivateRun {
    /// What the banner shows while the run waits for its answer.
    pub open spec fn shows_activity(self) -> Option<BannerActivity> {
        if self.phase == ActivatePhase::Gate {
            None
        } else {
            Some(BannerActivity::Navigating)
        }
    }

    /// What the banner shows while the run waits for its answer.
    pub fn activity(&self) -> (r: Option<BannerActivity>)
        ensures
            r == self.shows_activity(),
    {
        if self.phase == ActivatePhase::Gate {
            None
        } else {
            Some(BannerActivity::Navigating)
        }
    }
}

/// The window is back in front and still the expected one, or not.
pub open spec fn activated_step(
    run: ActivateRun,
    before: ComputerUseSession,
    after: ComputerUseSession,
    step: Step<ActivateRun, ActivationReport>,
) -> bool {
    let target = run.target->0;
    if !target.same_window(run.expected->0) {
        after == before && stops_plainly(
            step,
            ComputerUseErrorCode::TargetUnavailable,
            "the exact target identity changed during session activation"@,
        )
    } else if !target.is_foreground {
        &&& after == before
        &&& step matches Step::Done(Err(error))
        &&& error.code == ComputerUseErrorCode::ForegroundActivationRefused
        &&& error.message@ == "the exact Windows target is not foreground after activation"@
        &&& exists|mode: String|
            mode@ == "background"@ && error.details == Some(
                #[trigger] activation_refused_details(mode),
            )
    } else {
        &&& after == (ComputerUseSession { target: Some(target), ..before }).showing(
            BannerActivity::Ready,
        )
        &&& step matches Step::Done(Ok(report))
        &&& report.target == target
        &&& is_exact_activation(report.result, false)
        &&& !report.fallback
    }
}

/// The window after the driver's call.
pub open spec fn resolved_after_front(
    expected: WindowTarget,
    result: ComputerUseToolResult,
    before: ComputerUseSession,
    resolved: ComputerUseResult<WindowTarget>,
    after: ComputerUseSession,
    step: Step<ActivateRun, ActivationReport>,
) -> bool {
    match resolved {
        Err(error) => after == before && stops(step, error),
        Ok(target) => if !target.same_window(expected) {
            after == before && stops_plainly(
                step,
                ComputerUseErrorCode::TargetUnavailable,
                "the exact target identity changed during "@ + "session activation"@,
            )
        } else if !target.is_foreground {
            after == before && stops_plainly(
                step,
                ComputerUseErrorCode::InputFailed,
                "CUA reported activation success but the exact target is not foreground"@,
            )
        } else {
            &&& after == before.showing(BannerActivity::Ready)
            &&& step == Step::<ActivateRun, ActivationReport>::Done(
                Ok(ActivationReport { target, result, fallback: false }),
            )
        },
    }
}

/// One step of an activation.
pub open spec fn activate_step(
    run: ActivateRun,
    before: ComputerUseSession,
    reply: WindowReply,
    after: ComputerUseSession,
    step: Step<ActivateRun, ActivationReport>,
) -> bool {
    match (run.phase, reply) {
        (ActivatePhase::Gate, WindowReply::Gate(gate)) => {
            &&& refused_gate_stops(before, gate, after, step)
            &&& gate is Ok ==> after == before && step == Step::<
                ActivateRun,
                ActivationReport,
            >::Continue(run.at(ActivatePhase::Target))
        },
        (ActivatePhase::Target, WindowReply::Target(resolved)) => {
            &&& unusable_target_stops(before, resolved, after, step)
            &&& is_usable_target(before, resolved) ==> after == before && step == Step::<
                ActivateRun,
                ActivationReport,
            >::Continue(
                ActivateRun { expected: Some(resolved->Ok_0), ..run }.at(
                    if before.native_windows {
                        ActivatePhase::MutationGate
                    } else {
                        ActivatePhase::Front
                    },
                ),
            )
        },
        (ActivatePhase::MutationGate, WindowReply::Gate(gate)) => {
            &&& refused_gate_stops(before, gate, after, step)
            &&& gate is Ok ==> after == before.without_evidence() && step == Step::<
                ActivateRun,
                ActivationReport,
            >::Continue(run.at(ActivatePhase::Mutation))
        },
        (ActivatePhase::Mutation, WindowReply::Mutated(attempt)) => match attempt {
            Err(error) => after == before && stops(step, error),
            Ok(()) => after == before && step == Step::<ActivateRun, ActivationReport>::Continue(
                run.at(ActivatePhase::TargetAfter),
            ),
        },
        (ActivatePhase::TargetAfter, WindowReply::Target(resolved)) => {
            &&& unusable_target_stops(before, resolved, after, step)
            &&& is_usable_target(before, resolved) ==> after == before && step == Step::<
                ActivateRun,
                ActivationReport,
            >::Continue(
                ActivateRun { target: Some(resolved->Ok_0), ..run }.at(ActivatePhase::GateAfter),
            )
        },
        (ActivatePhase::GateAfter, WindowReply::Gate(gate)) => {
            &&& refused_gate_stops(before, gate, after, step)
            &&& gate is Ok ==> activated_step(run, before, after, step)
        },
        (ActivatePhase::Front, WindowReply::Front(FrontCall::NotReturned(cause))) => {
            &&& after == before.without_evidence()
            &&& step matches Step::Done(Err(error))
            &&& is_plain_error(
                error,
                ComputerUseErrorCode::CompletionUnknown,
                removed(cause.message@, "; the window session was invalidated"@)
                    + activation_unknown_suffix(),
            )
        },
        (ActivatePhase::Front, WindowReply::Front(FrontCall::Returned(Err(error)))) => after
            == before && stops(step, error),
        (ActivatePhase::Front, WindowReply::Front(FrontCall::Returned(Ok(result)))) => after
            == before && step == Step::<ActivateRun, ActivationReport>::Continue(
            ActivateRun { result: Some(result), ..run }.at(ActivatePhase::Resolve),
        ),
        (ActivatePhase::Resolve, WindowReply::Target(resolved)) => resolved_after_front(
            run.expected->0,
            run.result->0,
            before,
            resolved,
            after,
            step,
        ),
        _ => after == before && step == Step::<ActivateRun, ActivationReport>::Continue(run),
    }
}

/// An activation begins at its gate.
pub open spec fn activation_begins(session: ComputerUseSession, r: ComputerUseResult<ActivateRun>) -> bool {
    if session.active {
        r == Ok::<ActivateRun, ComputerUseError>(
            ActivateRun {
                phase: ActivatePhase::Gate,
                expected: None,
                target: None,
                result: None,
            },
        )
    } else {
        fails_with(
            r,
            ComputerUseErrorCode::BackendUnavailable,
            "Computer Use session is not active"@,
        )
    }
}

impl ComputerUseSession {
    /// Begins to bring the session's window to the front.
    pub fn begin_activate(&self) -> (r: ComputerUseResult<ActivateRun>)
        ensures
            activation_begins(*self, r),
    {
        match self.ensure_active() {
            Ok(()) => {},
            Err(error) => return Err(error),
        }
        Ok(
            ActivateRun {
                phase: ActivatePhase::Gate,
                expected: None,
                target: None,
                result: None,
            },
        )
    }
}

impl ActivateRun {
    fn on_activated(self, session: &mut ComputerUseSession) -> (r: Step<
        ActivateRun,
        ActivationReport,
    >)
        requires
            self.expected is Some,
            self.target is Some,
        ensures
            activated_step(self, *old(session), *final(session), r),
    {
        let target = self.target.unwrap();
        let expected = self.expected.unwrap();
        if !target.is_same_window(&expected) {
            return Step::Done(
                Err(
                    ComputerUseError::new(
                        ComputerUseErrorCode::TargetUnavailable,
                        "the exact target identity changed during session activation",
                    ),
                ),
            );
        }
        if !target.is_foreground {
            return Step::Done(
                Err(
                    foreground_activation_refused(
                        "the exact Windows target is not foreground after activation",
                    ),
                ),
            );
        }
        session.target = Some(target.duplicate());
        session.set_banner_activity(BannerActivity::Ready);
        Step::Done(
            Ok(
                ActivationReport {
                    target,
                    result: exact_activation_result(false),
                    fallback: false,
                },
            ),
        )
    }

    fn on_resolved(
        self,
        session: &mut ComputerUseSession,
        resolved: ComputerUseResult<WindowTarget>,
    ) -> (r: Step<ActivateRun, ActivationReport>)
        requires
            self.expected is Some,
            self.result is Some,
        ensures
            resolved_after_front(
                self.expected->0,
                self.result->0,
                *old(session),
                resolved,
                *final(session),
                r,
            ),
    {
        let target = match resolved {
            Ok(target) => target,
            Err(error) => return Step::Done(Err(error)),
        };
        let expected = self.expected.unwrap();
        let result = self.result.unwrap();
        if !target.is_same_window(&expected) {
            return Step::Done(
                Err(
                    ComputerUseError::owned(
                        ComputerUseErrorCode::TargetUnavailable,
                        join2("the exact target identity changed during ", "session activation"),
                    ),
                ),
            );
        }
        if !target.is_foreground {
            return Step::Done(
                Err(
                    ComputerUseError::new(
                        ComputerUseErrorCode::InputFailed,
                        "CUA reported activation success but the exact target is not foreground",
                    ),
                ),
            );
        }
        session.set_banner_activity(BannerActivity::Ready);
        Step::Done(Ok(ActivationReport { target, result, fallback: false }))
    }

    /// Takes the answer to the run's request in. An answer to some other
    /// request changes nothing.
    pub fn advance(self, session: &mut ComputerUseSession, reply: WindowReply) -> (r: Step<
        ActivateRun,
        ActivationReport,
    >)
        requires
            self.well_formed(),
        ensures
            activate_step(self, *old(session), reply, *final(session), r),
            r matches Step::Continue(next) ==> next.well_formed(),
    {
        match (self.phase, reply) {
            (ActivatePhase::Gate, WindowReply::Gate(gate)) => {
                match session.finish_observation_sensitive_attempt(gate) {
                    Ok(()) => self.goes(ActivatePhase::Target),
                    Err(error) => Step::Done(Err(error)),
                }
            },
            (ActivatePhase::Target, WindowReply::Target(resolved)) => {
                match session.require_observed_target_available(resolved) {
                    Ok(target) => {
                        let mut run = self;
                        run.expected = Some(target);
                        if session.native_windows {
                            run.goes(ActivatePhase::MutationGate)
                        } else {
                            run.goes(ActivatePhase::Front)
                        }
                    },
                    Err(error) => Step::Done(Err(error)),
                }
            },
            (ActivatePhase::MutationGate, WindowReply::Gate(gate)) => {
                let gate = session.finish_observation_sensitive_attempt(gate);
                match session.begin_gated_window_mutation(gate) {
                    Ok(()) => self.goes(ActivatePhase::Mutation),
                    Err(error) => Step::Done(Err(error)),
                }
            },
            (ActivatePhase::Mutation, WindowReply::Mutated(attempt)) => match attempt {
                Ok(()) => self.goes(ActivatePhase::TargetAfter),
                Err(error) => Step::Done(Err(error)),
            },
            (ActivatePhase::TargetAfter, WindowReply::Target(resolved)) => {
                match session.require_observed_target_available(resolved) {
                    Ok(target) => {
                        let mut run = self;
                        run.target = Some(target);
                        run.goes(ActivatePhase::GateAfter)
                    },
                    Err(error) => Step::Done(Err(error)),
                }
            },
            (ActivatePhase::GateAfter, WindowReply::Gate(gate)) => {
                match session.finish_observation_sensitive_attempt(gate) {
                    Ok(()) => self.on_activated(session),
                    Err(error) => Step::Done(Err(error)),
                }
            },
            (ActivatePhase::Front, WindowReply::Front(call)) => match call {
                FrontCall::NotReturned(error) => {
                    session.invalidate_action_observations();
                    Step::Done(Err(activation_completion_unknown(error)))
                },
                FrontCall::Returned(Err(error)) => Step::Done(Err(error)),
                FrontCall::Returned(Ok(result)) => {
                    let mut run = self;
                    run.result = Some(result);
                    run.goes(ActivatePhase::Resolve)
                },
            },
            (ActivatePhase::Resolve, WindowReply::Target(resolved)) => self.on_resolved(
                session,
                resolved,
            ),
            _ => Step::Continue(self),
        }
    }
}

/// Where a restoration is in its course.
#[derive(Debug, Clone, Copy, PartialEq, Eq, Structural)]
pub enum RestorePhase {
    Gate,
    Target,
    MutationGate,
    Mutation,
    TargetAfter,
    GateAfter,
}

/// Restoring the session's window and bringing it to the front. It runs only
/// where it is asked for.
#[derive(Debug)]
pub struct RestoreRun {
    pub phase: RestorePhase,
    pub expected: Option<WindowTarget>,
    pub target: Option<WindowTarget>,
}

/// The window after a restoration.
pub type RestoreStep = Step<RestoreRun, WindowTarget>;

/// The failure of a restoration: nothing is retried without a look first.
pub open spec fn is_restore_failure(cause: ComputerUseError, error: ComputerUseError) -> bool {
    &&& error.code == cause.code
    &&& error.message == cause.message
    &&& error.details == Some(
        ComputerUseErrorDetails {
            automatic_input: Some(false),
            blind_retry: Some(false),
            fresh_observation_required: Some(true),
            ..match cause.details {
                Some(details) => details,
                None => no_details(),
            }
        },
    )
}

fn restore_failure(error: ComputerUseError) -> (r: ComputerUseError)
    ensures
        is_restore_failure(error, r),
{
    let mut details = match error.details {
        Some(details) => details,
        None => ComputerUseErrorDetails::default(),
    };
    details.automatic_input = Some(false);
    details.blind_retry = Some(false);
    details.fresh_observation_required = Some(true);
    ComputerUseError { code: error.code, message: error.message, details: Some(details) }
}

impl RestoreRun {
    pub open spec fn at(self, phase: RestorePhase) -> RestoreRun {
        RestoreRun { phase, ..self }
    }

    /// The run holds what its phase needs.
    pub open spec fn well_formed(self) -> bool {
        match self.phase {
            RestorePhase::Gate | RestorePhase::Target => true,
            RestorePhase::GateAfter => self.expected is Some && self.target is Some,
            _ => self.expected is Some,
        }
    }

    pub open spec fn asks(self) -> WindowRequest {
        match self.phase {
            RestorePhase::Gate => WindowRequest::CheckInput,
            RestorePhase::Target => WindowRequest::ResolveTarget,
            RestorePhase::MutationGate => WindowRequest::CheckInput,
            RestorePhase::Mutation => WindowRequest::RestoreAndActivateWindow,
            RestorePhase::TargetAfter => WindowRequest::ResolveTarget,
            RestorePhase::GateAfter => WindowRequest::CheckInput,
        }
    }

    pub fn request(&self) -> (r: WindowRequest)
        ensures
            r == self.asks(),
    {
        match self.phase {
            RestorePhase::Gate => WindowRequest::CheckInput,
            RestorePhase::Target => WindowRequest::ResolveTarget,
            RestorePhase::MutationGate => WindowRequest::CheckInput,
            RestorePhase::Mutation => WindowRequest::RestoreAndActivateWindow,
            RestorePhase::TargetAfter => WindowRequest::ResolveTarget,
            RestorePhase::GateAfter => WindowRequest::CheckInput,
        }
    }

    fn goes(self, phase: RestorePhase) -> (r: RestoreStep)
        ensures
            r == RestoreStep::Continue(self.at(phase)),
    {
        let mut run = self;
        run.phase = phase;
        Step::Continue(run)
    }
}

impl RestoreRun {
    /// What the banner shows while the run waits for its answer.
    pub open spec fn shows_activity(self) -> Option<BannerActivity> {
        if self.phase == RestorePhase::Gate {
            None
        } else {
            Some(BannerActivity::Navigating)
        }
    }

    /// What the banner shows while the run waits for its answer.
    pub fn activity(&self) -> (r: Option<BannerActivity>)
        ensures
            r == self.shows_activity(),
    {
        if self.phase == RestorePhase::Gate {
            None
        } else {
            Some(BannerActivity::Navigating)
        }
    }
}

/// The restored window is the expected one and in front, or not.
pub open spec fn restored_step(
    run: RestoreRun,
    before: ComputerUseSession,
    after: ComputerUseSession,
    step: RestoreStep,
) -> bool {
    let target = run.target->0;
    if !target.same_window(run.expected->0) {
        &&& after == before
        &&& step matches Step::Done(Err(error))
        &&& is_detailed_error(
            error,
            ComputerUseErrorCode::TargetUnavailable,
            "the exact target identity changed during restore_activate"@,
            activation_validation_details(),
        )
    } else if !target.is_foreground {
        &&& after == before
        &&& step matches Step::Done(Err(error))
        &&& is_detailed_error(
            error,
            ComputerUseErrorCode::InputFailed,
            "restore_activate did not leave the exact target restored, visible, and foreground"@,
            activation_validation_details(),
        )
    } else {
        after == before.showing(BannerActivity::Ready) && step == RestoreStep::Done(Ok(target))
    }
}

/// One step of a restoration.
pub open spec fn restore_step(
    run: RestoreRun,
    before: ComputerUseSession,
    reply: WindowReply,
    after: ComputerUseSession,
    step: RestoreStep,
) -> bool {
    match (run.phase, reply) {
        (RestorePhase::Gate, WindowReply::Gate(gate)) => {
            &&& refused_gate_stops(before, gate, after, step)
            &&& gate is Ok ==> after == before && if before.native_windows {
                step == RestoreStep::Continue(run.at(RestorePhase::Target))
            } else {
                stops_plainly(
                    step,
                    ComputerUseErrorCode::BackendUnavailable,
                    "restore_activate is currently available only for exact Windows PID/HWND targets"@,
                )
            }
        },
        (RestorePhase::Target, WindowReply::Target(resolved)) => if resolved matches Ok(target)
            && before.target matches Some(bound) && target.same_window(bound) {
            after == before && step == RestoreStep::Continue(
                RestoreRun { expected: Some(resolved->Ok_0), ..run }.at(RestorePhase::MutationGate),
            )
        } else {
            &&& step matches Step::Done(Err(error))
            &&& is_revalidation_failure(before, resolved, error)
            &&& after == before.after_failure(error.code)
        },
        (RestorePhase::MutationGate, WindowReply::Gate(gate)) => {
            &&& refused_gate_stops(before, gate, after, step)
            &&& gate is Ok ==> after == before.without_evidence() && step
                == RestoreStep::Continue(run.at(RestorePhase::Mutation))
        },
        (RestorePhase::Mutation, WindowReply::Mutated(attempt)) => match attempt {
            Err(cause) => {
                &&& after == before
                &&& step matches Step::Done(Err(error))
                &&& is_restore_failure(cause, error)
            },
            Ok(()) => after == before && step == RestoreStep::Continue(
                run.at(RestorePhase::TargetAfter),
            ),
        },
        (RestorePhase::TargetAfter, WindowReply::Target(resolved)) => {
            &&& unusable_target_stops(before, resolved, after, step)
            &&& is_usable_target(before, resolved) ==> after == before && step
                == RestoreStep::Continue(
                RestoreRun { target: Some(resolved->Ok_0), ..run }.at(RestorePhase::GateAfter),
            )
        },
        (RestorePhase::GateAfter, WindowReply::Gate(gate)) => {
            &&& refused_gate_stops(before, gate, after, step)
            &&& gate is Ok ==> restored_step(run, before, after, step)
        },
        _ => after == before && step == RestoreStep::Continue(run),
    }
}

/// A restoration begins at its gate, for an exact window.
pub open spec fn restore_begins(before: ComputerUseSession, after: ComputerUseSession, r: ComputerUseResult<RestoreRun>) -> bool {
    if !before.active {
        after == before && fails_with(
            r,
            ComputerUseErrorCode::BackendUnavailable,
            "Computer Use session is not active"@,
        )
    } else if before.scope.process_id is None || before.scope.window_handle is None {
        after == before.without_evidence() && fails_with(
            r,
            ComputerUseErrorCode::InvalidTarget,
            "restore_activate requires an exact process_id and window_handle grant binding"@,
        )
    } else {
        after == before && r == Ok::<RestoreRun, ComputerUseError>(
            RestoreRun { phase: RestorePhase::Gate, expected: None, target: None },
        )
    }
}

impl ComputerUseSession {
    /// Begins to restore the session's window, where the session was granted
    /// one exact window of one exact process.
    pub fn begin_restore_activate(&mut self) -> (r: ComputerUseResult<RestoreRun>)
        ensures
            restore_begins(*old(self), *final(self), r),
    {
        match self.ensure_active() {
            Ok(()) => {},
            Err(error) => return Err(error),
        }
        if self.scope.process_id.is_none() || self.scope.window_handle.is_none() {
            return self.finish_observation_sensitive_attempt(
                Err(
                    ComputerUseError::new(
                        ComputerUseErrorCode::InvalidTarget,
                        "restore_activate requires an exact process_id and window_handle grant binding",
                    ),
                ),
            );
        }
        Ok(RestoreRun { phase: RestorePhase::Gate, expected: None, target: None })
    }
}

impl RestoreRun {
    fn on_restored(self, session: &mut ComputerUseSession) -> (r: RestoreStep)
        requires
            self.expected is Some,
            self.target is Some,
        ensures
            restored_step(self, *old(session), *final(session), r),
    {
        let target = self.target.unwrap();
        let expected = self.expected.unwrap();
        if !target.is_same_window(&expected) {
            return Step::Done(
                Err(
                    local_activation_validation_failure(
                        ComputerUseErrorCode::TargetUnavailable,
                        "the exact target identity changed during restore_activate",
                    ),
                ),
            );
        }
        if !target.is_foreground {
            return Step::Done(
                Err(
                    local_activation_validation_failure(
                        ComputerUseErrorCode::InputFailed,
                        "restore_activate did not leave the exact target restored, visible, and foreground",
                    ),
                ),
            );
        }
        session.set_banner_activity(BannerActivity::Ready);
        Step::Done(Ok(target))
    }

    /// Takes the answer to the run's request in. An answer to some other
    /// request changes nothing.
    pub fn advance(self, session: &mut ComputerUseSession, reply: WindowReply) -> (r: RestoreStep)
        requires
            self.well_formed(),
        ensures
            restore_step(self, *old(session), reply, *final(session), r),
            r matches Step::Continue(next) ==> next.well_formed(),
    {
        match (self.phase, reply) {
            (RestorePhase::Gate, WindowReply::Gate(gate)) => {
                match session.finish_observation_sensitive_attempt(gate) {
                    Ok(()) => {},
                    Err(error) => return Step::Done(Err(error)),
                }
                if session.native_windows {
                    return self.goes(RestorePhase::Target);
                }
                Step::Done(
                    Err(
                        ComputerUseError::new(
                            ComputerUseErrorCode::BackendUnavailable,
                            "restore_activate is currently available only for exact Windows PID/HWND targets",
                        ),
                    ),
                )
            },
            (RestorePhase::Target, WindowReply::Target(resolved)) => {
                match session.revalidate_observed_target(resolved) {
                    Ok(target) => {
                        let mut run = self;
                        run.expected = Some(target);
                        run.goes(RestorePhase::MutationGate)
                    },
                    Err(error) => Step::Done(Err(error)),
                }
            },
            (RestorePhase::MutationGate, WindowReply::Gate(gate)) => {
                let gate = session.finish_observation_sensitive_attempt(gate);
                match session.begin_gated_window_mutation(gate) {
                    Ok(()) => self.goes(RestorePhase::Mutation),
                    Err(error) => Step::Done(Err(error)),
                }
            },
            (RestorePhase::Mutation, WindowReply::Mutated(attempt)) => match attempt {
                Ok(()) => self.goes(RestorePhase::TargetAfter),
                Err(error) => Step::Done(Err(restore_failure(error))),
            },
            (RestorePhase::TargetAfter, WindowReply::Target(resolved)) => {
                match session.require_observed_target_available(resolved) {
                    Ok(target) => {
                        let mut run = self;
                        run.target = Some(target);
                        run.goes(RestorePhase::GateAfter)
                    },
                    Err(error) => Step::Done(Err(error)),
                }
            },
            (RestorePhase::GateAfter, WindowReply::Gate(gate)) => {
                match session.finish_observation_sensitive_attempt(gate) {
                    Ok(()) => self.on_restored(session),
                    Err(error) => Step::Done(Err(error)),
                }
            },
            _ => Step::Continue(self),
        }
    }
}

/// Where the activation before a session's start is in its course.
#[derive(Debug, Clone, Copy, PartialEq, Eq, Structural)]
pub enum BootstrapPhase {
    Gate,
    Mutation,
    Front,
    Resolve,
    /// The host brings the window to the front itself after all.
    Fallback,
    ResolveAgain,
}

/// Bringing a window to the front before its session starts.
#[derive(Debug)]
pub struct BootstrapRun {
    pub phase: BootstrapPhase,
    pub expected: WindowTarget,
    pub result: Option<ComputerUseToolResult>,
}

pub type BootstrapStep = Step<BootstrapRun, ActivationReport>;

impl BootstrapRun {
    pub open spec fn at(self, phase: BootstrapPhase) -> BootstrapRun {
        BootstrapRun { phase, ..self }
    }

    /// The run holds what its phase needs.
    pub open spec fn well_formed(self) -> bool {
        match self.phase {
            BootstrapPhase::Resolve | BootstrapPhase::Fallback | BootstrapPhase::ResolveAgain => {
                self.result is Some
            },
            _ => true,
        }
    }

    pub open spec fn asks(self) -> WindowRequest {
        match self.phase {
            BootstrapPhase::Gate => WindowRequest::CheckActivation,
            BootstrapPhase::Mutation => WindowRequest::ActivateWindow,
            BootstrapPhase::Front => WindowRequest::BringToFront,
            BootstrapPhase::Resolve => WindowRequest::ResolveTarget,
            BootstrapPhase::Fallback => WindowRequest::ActivateWindow,
            BootstrapPhase::ResolveAgain => WindowRequest::ResolveTarget,
        }
    }

    pub fn request(&self) -> (r: WindowRequest)
        ensures
            r == self.asks(),
    {
        match self.phase {
            BootstrapPhase::Gate => WindowRequest::CheckActivation,
            BootstrapPhase::Mutation => WindowRequest::ActivateWindow,
            BootstrapPhase::Front => WindowRequest::BringToFront,
            BootstrapPhase::Resolve => WindowRequest::ResolveTarget,
            BootstrapPhase::Fallback => WindowRequest::ActivateWindow,
            BootstrapPhase::ResolveAgain => WindowRequest::ResolveTarget,
        }
    }

    fn goes(self, phase: BootstrapPhase) -> (r: BootstrapStep)
        ensures
            r == BootstrapStep::Continue(self.at(phase)),
    {
        let mut run = self;
        run.phase = phase;
        Step::Continue(run)
    }

    /// Begins to bring the window to the front.
    pub fn new(expected: WindowTarget) -> (r: BootstrapRun)
        ensures
            r == (BootstrapRun { phase: BootstrapPhase::Gate, expected, result: None }),
            r.well_formed(),
    {
        BootstrapRun { phase: BootstrapPhase::Gate, expected, result: None }
    }
}

/// The window after it was brought to the front, or not.
pub open spec fn bootstrapped_step(
    run: BootstrapRun,
    native_windows: bool,
    target: WindowTarget,
    fallback: bool,
    step: BootstrapStep,
) -> bool {
    if !target.is_foreground {
        stops_plainly(
            step,
            ComputerUseErrorCode::InputFailed,
            "CUA reported activation success but the exact target is not foreground"@,
        )
    } else if native_windows && !target.available() {
        stops_plainly(
            step,
            ComputerUseErrorCode::InputFailed,
            "CUA bootstrap activation did not restore the exact target to a capturable state"@,
        )
    } else {
        step == BootstrapStep::Done(
            Ok(ActivationReport { target, result: run.result->0, fallback }),
        )
    }
}

/// The window, resolved anew, is not the expected one.
pub open spec fn bootstrap_identity(
    run: BootstrapRun,
    resolved: ComputerUseResult<WindowTarget>,
    step: BootstrapStep,
) -> bool {
    match resolved {
        Err(error) => stops(step, error),
        Ok(target) => !target.same_window(run.expected) ==> stops_plainly(
            step,
            ComputerUseErrorCode::TargetUnavailable,
            "the exact target identity changed during "@ + "bootstrap activation"@,
        ),
    }
}

/// One step of the activation before a session's start.
pub open spec fn bootstrap_step(
    run: BootstrapRun,
    before: ComputerUseSession,
    reply: WindowReply,
    after: ComputerUseSession,
    step: BootstrapStep,
) -> bool {
    match (run.phase, reply) {
        (BootstrapPhase::Gate, WindowReply::Gate(gate)) => {
            &&& refused_gate_stops(before, gate, after, step)
            &&& gate is Ok ==> match bootstrap_target_refusal(run.expected) {
                Some((code, message)) => after == before.after_failure(code) && stops_plainly(
                    step,
                    code,
                    message,
                ),
                None => after == before && step == BootstrapStep::Continue(
                    run.at(
                        if before.native_windows {
                            BootstrapPhase::Mutation
                        } else {
                            BootstrapPhase::Front
                        },
                    ),
                ),
            }
        },
        (BootstrapPhase::Mutation, WindowReply::Mutated(attempt)) => match attempt {
            Err(error) => stops_sensitively(before, error, after, step),
            Ok(()) => {
                &&& after == before
                &&& step matches Step::Continue(next)
                &&& next.result matches Some(result)
                &&& is_exact_activation(result, true)
                &&& next == (BootstrapRun { result: Some(result), ..run }).at(
                    BootstrapPhase::Resolve,
                )
            },
        },
        (BootstrapPhase::Front, WindowReply::Front(call)) => {
            &&& after == before
            &&& match call {
                FrontCall::Returned(Ok(result)) => step == BootstrapStep::Continue(
                    BootstrapRun { result: Some(result), ..run }.at(BootstrapPhase::Resolve),
                ),
                FrontCall::Returned(Err(cause)) => if cause.timed_out() {
                    activation_unknown(cause, step)
                } else {
                    stops(step, cause)
                },
                FrontCall::NotReturned(cause) => activation_unknown(cause, step),
            }
        },
        (BootstrapPhase::Resolve, WindowReply::Target(resolved)) => {
            &&& after == before
            &&& bootstrap_identity(run, resolved, step)
            &&& (resolved matches Ok(target) && target.same_window(run.expected)) ==> if
                before.native_windows && !resolved->Ok_0.is_foreground {
                step == BootstrapStep::Continue(run.at(BootstrapPhase::Fallback))
            } else {
                bootstrapped_step(run, before.native_windows, resolved->Ok_0, false, step)
            }
        },
        (BootstrapPhase::Fallback, WindowReply::Mutated(attempt)) => match attempt {
            Err(error) => after == before && stops(step, error),
            Ok(()) => after == before && step == BootstrapStep::Continue(
                run.at(BootstrapPhase::ResolveAgain),
            ),
        },
        (BootstrapPhase::ResolveAgain, WindowReply::Target(resolved)) => {
            &&& after == before
            &&& bootstrap_identity(run, resolved, step)
            &&& (resolved matches Ok(target) && target.same_window(run.expected))
                ==> bootstrapped_step(run, before.native_windows, resolved->Ok_0, true, step)
        },
        _ => after == before && step == BootstrapStep::Continue(run),
    }
}

/// Nobody knows whether the window was brought to the front.
pub open spec fn activation_unknown(cause: ComputerUseError, step: BootstrapStep) -> bool {
    step matches Step::Done(Err(error)) && is_plain_error(
        error,
        ComputerUseErrorCode::CompletionUnknown,
        removed(cause.message@, "; the window session was invalidated"@)
            + activation_unknown_suffix(),
    )
}

fn bootstrap_identity_changed() -> (r: ComputerUseError)
    ensures
        is_plain_error(
            r,
            ComputerUseErrorCode::TargetUnavailable,
            "the exact target identity changed during "@ + "bootstrap activation"@,
        ),
{
    ComputerUseError::owned(
        ComputerUseErrorCode::TargetUnavailable,
        join2("the exact target identity changed during ", "bootstrap activation"),
    )
}

impl BootstrapRun {
    fn on_front(self, native_windows: bool, target: WindowTarget, fallback: bool) -> (r:
        BootstrapStep)
        requires
            self.result is Some,
        ensures
            bootstrapped_step(self, native_windows, target, fallback, r),
    {
        if !target.is_foreground {
            return Step::Done(
                Err(
                    ComputerUseError::new(
                        ComputerUseErrorCode::InputFailed,
                        "CUA reported activation success but the exact target is not foreground",
                    ),
                ),
            );
        }
        if native_windows && (target.is_minimized || !target.is_on_screen) {
            return Step::Done(
                Err(
                    ComputerUseError::new(
                        ComputerUseErrorCode::InputFailed,
                        "CUA bootstrap activation did not restore the exact target to a capturable state",
                    ),
                ),
            );
        }
        Step::Done(Ok(ActivationReport { target, result: self.result.unwrap(), fallback }))
    }

    fn on_gate(self, session: &mut ComputerUseSession) -> (r: BootstrapStep)
        ensures
            match bootstrap_target_refusal(self.expected) {
                Some((code, message)) => *final(session) == old(session).after_failure(code)
                    && stops_plainly(r, code, message),
                None => *final(session) == *old(session) && r == BootstrapStep::Continue(
                    self.at(
                        if old(session).native_windows {
                            BootstrapPhase::Mutation
                        } else {
                            BootstrapPhase::Front
                        },
                    ),
                ),
            },
    {
        let availability = ensure_target_available_for_bootstrap_activation(&self.expected);
        match session.finish_observation_sensitive_attempt(availability) {
            Ok(()) => {},
            Err(error) => return Step::Done(Err(error)),
        }
        if session.native_windows {
            self.goes(BootstrapPhase::Mutation)
        } else {
            self.goes(BootstrapPhase::Front)
        }
    }

    /// Takes the answer to the run's request in. An answer to some other
    /// request changes nothing.
    pub fn advance(self, session: &mut ComputerUseSession, reply: WindowReply) -> (r: BootstrapStep)
        requires
            self.well_formed(),
        ensures
            bootstrap_step(self, *old(session), reply, *final(session), r),
            r matches Step::Continue(next) ==> next.well_formed(),
    {
        match (self.phase, reply) {
            (BootstrapPhase::Gate, WindowReply::Gate(gate)) => {
                match session.finish_observation_sensitive_attempt(gate) {
                    Ok(()) => self.on_gate(session),
                    Err(error) => Step::Done(Err(error)),
                }
            },
            (BootstrapPhase::Mutation, WindowReply::Mutated(attempt)) => {
                match session.finish_observation_sensitive_attempt(attempt) {
                    Ok(()) => {
                        let mut run = self;
                        run.result = Some(exact_activation_result(true));
                        run.goes(BootstrapPhase::Resolve)
                    },
                    Err(error) => Step::Done(Err(error)),
                }
            },
            (BootstrapPhase::Front, WindowReply::Front(call)) => match call {
                FrontCall::Returned(Ok(result)) => {
                    let mut run = self;
                    run.result = Some(result);
                    run.goes(BootstrapPhase::Resolve)
                },
                FrontCall::Returned(Err(error)) => {
                    if error.is_timed_out() {
                        return Step::Done(Err(activation_completion_unknown(error)));
                    }
                    Step::Done(Err(error))
                },
                FrontCall::NotReturned(error) => Step::Done(
                    Err(activation_completion_unknown(error)),
                ),
            },
            (BootstrapPhase::Resolve, WindowReply::Target(resolved)) => {
                let target = match resolved {
                    Ok(target) => target,
                    Err(error) => return Step::Done(Err(error)),
                };
                if !target.is_same_window(&self.expected) {
                    return Step::Done(Err(bootstrap_identity_changed()));
                }
                if session.native_windows && !target.is_foreground {
                    return self.goes(BootstrapPhase::Fallback);
                }
                self.on_front(session.native_windows, target, false)
            },
            (BootstrapPhase::Fallback, WindowReply::Mutated(attempt)) => match attempt {
                Ok(()) => self.goes(BootstrapPhase::ResolveAgain),
                Err(error) => Step::Done(Err(error)),
            },
            (BootstrapPhase::ResolveAgain, WindowReply::Target(resolved)) => {
                let target = match resolved {
                    Ok(target) => target,
                    Err(error) => return Step::Done(Err(error)),
                };
                if !target.is_same_window(&self.expected) {
                    return Step::Done(Err(bootstrap_identity_changed()));
                }
                self.on_front(session.native_windows, target, true)
            },
            _ => Step::Continue(self),
        }
    }
}

/// The arguments that a window is brought to the front by.
pub open spec fn front_tree(target: WindowTarget, session_id: Option<Seq<char>>) -> JsonTree {
            JsonTree::Object(
        {
            let window = Map::<Seq<char>, JsonTree>::empty().insert(
                "pid"@,
                unsigned_tree(target.pid as u64),
            ).insert("window_id"@, unsigned_tree(target.window_id));
            match session_id {
                Some(session) => session_members(window, session),
                None => window,
            }
        },
    )
}

/// What the driver is asked to bring to the front: the window, for a session
/// where one runs.
pub fn front_arguments(target: &WindowTarget, session_id: Option<&str>) -> (r: Json)
    ensures
        r.view() == front_tree(*target, optional_text(session_id)),
{
    let mut members: Vec<JsonMember> = Vec::new();
    put_member(&mut members, "pid", Json::unsigned(target.pid as u64));
    put_member(&mut members, "window_id", Json::unsigned(target.window_id));
    if let Some(session) = session_id {
        put_member(&mut members, "session", Json::text(session));
    }
    Json::Object(members)
}

/// An exact window is found to be closed.
pub open spec fn close_begins(before: ComputerUseSession, resolved: ComputerUseResult<WindowTarget>, after: ComputerUseSession, r: ComputerUseResult<WindowTarget>) -> bool {
    if !before.active {
        after == before && fails_with(
            r,
            ComputerUseErrorCode::BackendUnavailable,
            "Computer Use session is not active"@,
        )
    } else if before.scope.process_id is None || before.scope.window_handle is None {
        after == before && fails_with(
            r,
            ComputerUseErrorCode::InvalidTarget,
            "close requires an exact process_id and window_handle grant binding"@,
        )
    } else if !before.native_windows {
        after == before && fails_with(
            r,
            ComputerUseErrorCode::BackendUnavailable,
            "exact polite window close is currently available only on Windows"@,
        )
    } else if is_usable_target(before, resolved) {
        after == before.without_evidence() && r == resolved
    } else {
        &&& r matches Err(error)
        &&& is_target_failure(before, resolved, error)
        &&& after == before.after_failure(error.code)
    }
}

/// The bound window is told of.
pub open spec fn window_is_told(before: ComputerUseSession, resolved: ComputerUseResult<WindowTarget>, after: ComputerUseSession, r: ComputerUseResult<WindowTarget>) -> bool {
    if !before.active {
        after == before && fails_with(
            r,
            ComputerUseErrorCode::BackendUnavailable,
            "Computer Use session is not active"@,
        )
    } else if resolved matches Ok(target) && before.target matches Some(bound)
        && target.same_window(bound) {
        &&& r == resolved
        &&& after == if resolved->Ok_0.available() {
            before
        } else {
            before.without_evidence()
        }
    } else {
        &&& r matches Err(error)
        &&& is_revalidation_failure(before, resolved, error)
        &&& after == before.after_failure(error.code)
    }
}

/// How far the bound window is there.
pub open spec fn availability_is_told(before: ComputerUseSession, resolved: ComputerUseResult<WindowTarget>, after: ComputerUseSession, r: ComputerUseResult<ComputerUseTargetAvailability>) -> bool {
    if !before.active {
        after == before && fails_with(
            r,
            ComputerUseErrorCode::BackendUnavailable,
            "Computer Use session is not active"@,
        )
    } else if before.native_windows && before.target is None {
        after == before && fails_with(
            r,
            ComputerUseErrorCode::MissingWindow,
            "session target is missing"@,
        )
    } else if resolved matches Ok(target) && before.target matches Some(bound)
        && target.same_window(bound) {
        &&& r matches Ok(availability)
        &&& availability.states(
            resolved->Ok_0.is_minimized,
            resolved->Ok_0.is_on_screen,
            resolved->Ok_0.is_foreground,
        )
        &&& after == if resolved->Ok_0.available() {
            before
        } else {
            before.without_evidence()
        }
    } else if before.native_windows {
        &&& r matches Ok(availability)
        &&& availability.states(false, false, false)
        &&& after == before.without_evidence()
    } else {
        &&& r matches Err(error)
        &&& is_revalidation_failure(before, resolved, error)
        &&& after == before.after_failure(error.code)
    }
}

impl ComputerUseSession {
    /// Checks that the session's window may be asked to close. The evidence of
    /// the window is spent before the request goes out; its process stays.
    pub fn begin_close_window(&mut self, resolved: ComputerUseResult<WindowTarget>) -> (r:
        ComputerUseResult<WindowTarget>)
        ensures
            close_begins(*old(self), resolved, *final(self), r),
    {
        match self.ensure_active() {
            Ok(()) => {},
            Err(error) => return Err(error),
        }
        if self.scope.process_id.is_none() || self.scope.window_handle.is_none() {
            return Err(
                ComputerUseError::new(
                    ComputerUseErrorCode::InvalidTarget,
                    "close requires an exact process_id and window_handle grant binding",
                ),
            );
        }
        if !self.native_windows {
            return Err(
                ComputerUseError::new(
                    ComputerUseErrorCode::BackendUnavailable,
                    "exact polite window close is currently available only on Windows",
                ),
            );
        }
        match self.require_observed_target_available(resolved) {
            Ok(target) => {
                self.invalidate_action_observations();
                Ok(target)
            },
            Err(error) => Err(error),
        }
    }

    /// The window as it now is. A window that cannot be seen voids evidence.
    pub fn window_state(&mut self, resolved: ComputerUseResult<WindowTarget>) -> (r:
        ComputerUseResult<WindowTarget>)
        ensures
            window_is_told(*old(self), resolved, *final(self), r),
    {
        match self.ensure_active() {
            Ok(()) => {},
            Err(error) => return Err(error),
        }
        let target = match self.revalidate_observed_target(resolved) {
            Ok(target) => target,
            Err(error) => return Err(error),
        };
        if target.is_minimized || !target.is_on_screen {
            self.invalidate_action_observations();
        }
        Ok(target)
    }

    /// Whether the bound window can be acted on, found out without touching
    /// it. On native windows a window that cannot be resolved is unavailable;
    /// elsewhere that is a failure.
    pub fn target_availability(&mut self, resolved: ComputerUseResult<WindowTarget>) -> (r:
        ComputerUseResult<ComputerUseTargetAvailability>)
        ensures
            availability_is_told(*old(self), resolved, *final(self), r),
    {
        match self.ensure_active() {
            Ok(()) => {},
            Err(error) => return Err(error),
        }
        if self.native_windows {
            let bound = match &self.target {
                Some(bound) => match &resolved {
                    Ok(target) => target.is_same_window(bound),
                    Err(_) => false,
                },
                None => return Err(
                    ComputerUseError::new(
                        ComputerUseErrorCode::MissingWindow,
                        "session target is missing",
                    ),
                ),
            };
            if !bound {
                self.invalidate_action_observations();
                return Ok(ComputerUseTargetAvailability::from_flags(false, false, false));
            }
        }
        let target = match self.revalidate_observed_target(resolved) {
            Ok(target) => target,
            Err(error) => return Err(error),
        };
        let availability = target.availability();
        if target.is_minimized || !target.is_on_screen {
            self.invalidate_action_observations();
        }
        Ok(availability)
    }
}

/// A gate that refuses right before the window would be touched leaves the
/// evidence as it was, unless it says that the desktop or the target is gone.
pub proof fn law_refused_activations_keep_evidence(
    run: ActivateRun,
    before: ComputerUseSession,
    error: ComputerUseError,
    after: ComputerUseSession,
    step: Step<ActivateRun, ActivationReport>,
)
    requires
        run.phase == ActivatePhase::MutationGate,
        activate_step(run, before, WindowReply::Gate(Err(error)), after, step),
        !crate::session::voids_evidence(error.code),
    ensures
        step == Step::<ActivateRun, ActivationReport>::Done(Err(error)),
        after == before,
{
}

/// Once an activation touches the window, the evidence from before is gone,
/// whatever comes of it.
pub proof fn law_attempted_activations_spend_evidence(
    run: ActivateRun,
    before: ComputerUseSession,
    reply: WindowReply,
    after: ComputerUseSession,
    next: ActivateRun,
)
    requires
        activate_step(
            run,
            before,
            reply,
            after,
            Step::<ActivateRun, ActivationReport>::Continue(next),
        ),
        run.phase != next.phase,
        next.phase == ActivatePhase::Mutation,
    ensures
        after.observation is None,
        after.action_evidence_epoch == before.action_evidence_epoch.next(),
{
}

/// The same holds of a restoration.
pub proof fn law_attempted_restorations_spend_evidence(
    run: RestoreRun,
    before: ComputerUseSession,
    reply: WindowReply,
    after: ComputerUseSession,
    next: RestoreRun,
)
    requires
        restore_step(run, before, reply, after, RestoreStep::Continue(next)),
        run.phase != next.phase,
        next.phase == RestorePhase::Mutation,
    ensures
        after.observation is None,
        after.action_evidence_epoch == before.action_evidence_epoch.next(),
{
}

/// A window that an activation reports is the session's own, and in front.
pub proof fn law_reported_activations_are_in_front(
    run: ActivateRun,
    before: ComputerUseSession,
    reply: WindowReply,
    after: ComputerUseSession,
    report: ActivationReport,
)
    requires
        activate_step(
            run,
            before,
            reply,
            after,
            Step::<ActivateRun, ActivationReport>::Done(Ok(report)),
        ),
    ensures
        report.target.is_foreground,
        report.target.same_window(run.expected->0),
{
}

/// An activation and a restoration begin at their gates in an active session; only
/// an exact window is restored.
pub proof fn law_activations_begin_at_their_gates(
    before: ComputerUseSession,
    activation: ComputerUseResult<ActivateRun>,
    after: ComputerUseSession,
    restoration: ComputerUseResult<RestoreRun>,
)
    requires
        activation_begins(before, activation),
        restore_begins(before, after, restoration),
    ensures
        activation is Ok <==> before.active,
        activation matches Ok(run) ==> run.asks() == WindowRequest::CheckActivation
            && run.expected is None && run.result is None,
        restoration is Ok <==> before.active && before.scope.process_id is Some
            && before.scope.window_handle is Some,
        restoration matches Ok(run) ==> run.asks() == WindowRequest::CheckInput && run.expected
            is None && after == before,
        after.active == before.active,
{
}

/// A window is brought to the front by its identity, for the session where one is
/// named.
pub proof fn law_fronts_name_the_window(target: WindowTarget, session_id: Option<Seq<char>>)
    ensures
        front_tree(target, session_id).u64_at("pid"@) == Some(target.pid as u64),
        front_tree(target, session_id).u64_at("window_id"@) == Some(target.window_id),
        front_tree(target, session_id).text_at("session"@) == session_id,
{
    reveal_strlit("pid");
    reveal_strlit("window_id");
    reveal_strlit("session");
    assert("pid"@.len() == 3);
    assert("window_id"@.len() == 9);
    assert("session"@.len() == 7);
}

/// The answer that was asked for takes an activation, a restoration or a first
/// activation on, and no other does.
pub proof fn law_activations_take_the_answer_they_asked_for(
    activation: ActivateRun,
    restoration: RestoreRun,
    bootstrap: BootstrapRun,
    before: ComputerUseSession,
    reply: WindowReply,
    after: ComputerUseSession,
    activated: Step<ActivateRun, ActivationReport>,
    restored: RestoreStep,
    bootstrapped: BootstrapStep,
)
    requires
        activation.well_formed(),
        restoration.well_formed(),
        bootstrap.well_formed(),
    ensures
        activate_step(activation, before, reply, after, activated) && !window_answers(
            activation.asks(),
            reply,
        ) ==> after == before && activated == Step::<ActivateRun, ActivationReport>::Continue(
            activation,
        ),
        activate_step(activation, before, reply, after, activated) && window_answers(
            activation.asks(),
            reply,
        ) ==> (activated matches Step::Continue(next) ==> next.phase != activation.phase),
        restore_step(restoration, before, reply, after, restored) && !window_answers(
            restoration.asks(),
            reply,
        ) ==> after == before && restored == RestoreStep::Continue(restoration),
        restore_step(restoration, before, reply, after, restored) && window_answers(
            restoration.asks(),
            reply,
        ) ==> (restored matches Step::Continue(next) ==> next.phase != restoration.phase),
        bootstrap_step(bootstrap, before, reply, after, bootstrapped) && !window_answers(
            bootstrap.asks(),
            reply,
        ) ==> after == before && bootstrapped == BootstrapStep::Continue(bootstrap),
        bootstrap_step(bootstrap, before, reply, after, bootstrapped) && window_answers(
            bootstrap.asks(),
            reply,
        ) ==> (bootstrapped matches Step::Continue(next) ==> next.phase != bootstrap.phase),
{
}

/// The reply is of the kind that was asked for.
pub open spec fn window_answers(request: WindowRequest, reply: WindowReply) -> bool {
    match request {
        WindowRequest::ResolveTarget => reply is Target,
        WindowRequest::CheckInput | WindowRequest::CheckActivation => reply is Gate,
        WindowRequest::ActivateWindow | WindowRequest::RestoreAndActivateWindow => {
            reply is Mutated
        },
        WindowRequest::BringToFront => reply is Front,
    }
}

/// An activation goes for the window that was found usable, past the activation
/// gates, and keeps what was handed back; natively it voids the evidence first.
pub proof fn law_activations_keep_what_was_handed_back(
    run: ActivateRun,
    before: ComputerUseSession,
    reply: WindowReply,
    after: ComputerUseSession,
    next: ActivateRun,
)
    requires
        run.well_formed(),
        activate_step(
            run,
            before,
            reply,
            after,
            Step::<ActivateRun, ActivationReport>::Continue(next),
        ),
        next.phase != run.phase,
    ensures
        next.phase == ActivatePhase::Target ==> reply is Gate && reply->Gate_0 is Ok,
        run.phase == ActivatePhase::Target ==> (reply matches WindowReply::Target(Ok(target))
            && is_usable_target(before, Ok(target)) && next.expected == Some(target))
            && (next.phase == ActivatePhase::MutationGate <==> before.native_windows) && (next.phase
            == ActivatePhase::Front <==> !before.native_windows),
        run.phase != ActivatePhase::Target ==> next.expected == run.expected,
        next.phase == ActivatePhase::Mutation ==> reply is Gate && reply->Gate_0 is Ok
            && after.observation is None,
        next.phase == ActivatePhase::TargetAfter ==> reply is Mutated && reply->Mutated_0 is Ok,
        next.phase == ActivatePhase::GateAfter ==> (reply matches WindowReply::Target(Ok(target))
            && is_usable_target(before, Ok(target)) && next.target == Some(target)),
        next.phase == ActivatePhase::Resolve ==> (
        reply matches WindowReply::Front(FrontCall::Returned(Ok(result))) && next.result == Some(
            result,
        )),
{
}

/// An activation that ends well left the window it went for in front, and reports
/// that window with what the driver answered; every failure on the way is its
/// error, and a call that did not come back is of unknown completion.
pub proof fn law_activations_end_in_front(
    run: ActivateRun,
    before: ComputerUseSession,
    reply: WindowReply,
    after: ComputerUseSession,
    outcome: ComputerUseResult<ActivationReport>,
)
    requires
        run.well_formed(),
        activate_step(
            run,
            before,
            reply,
            after,
            Step::<ActivateRun, ActivationReport>::Done(outcome),
        ),
    ensures
        outcome matches Ok(report) ==> {
            &&& report.target.is_foreground
            &&& report.target.pid == run.expected->0.pid
            &&& report.target.window_id == run.expected->0.window_id
            &&& !report.fallback
            &&& run.phase == ActivatePhase::Resolve ==> Some(report.result) == run.result && reply
                == WindowReply::Target(Ok(report.target))
            &&& run.phase == ActivatePhase::GateAfter ==> Some(report.target) == run.target
                && after.target == run.target && report.result.value.view().text_at("path"@)
                == Some("windows_exact_foreground"@) && !report.result.degraded && reply is Gate
                && reply->Gate_0 is Ok
            &&& run.phase == ActivatePhase::Resolve || run.phase == ActivatePhase::GateAfter
            &&& after.banner matches Some(banner) ==> banner.activity == BannerActivity::Ready
        },
        reply is Gate && reply->Gate_0 is Err ==> outcome == Err::<
            ActivationReport,
            ComputerUseError,
        >(reply->Gate_0->Err_0),
        reply is Mutated && reply->Mutated_0 is Err ==> outcome == Err::<
            ActivationReport,
            ComputerUseError,
        >(reply->Mutated_0->Err_0),
        run.phase == ActivatePhase::Resolve && reply is Target && reply->Target_0 is Err ==> outcome
            == Err::<ActivationReport, ComputerUseError>(reply->Target_0->Err_0),
        (reply matches WindowReply::Front(FrontCall::Returned(Err(error))) ==> outcome == Err::<
            ActivationReport,
            ComputerUseError,
        >(error)),
        (reply matches WindowReply::Front(FrontCall::NotReturned(_))) ==> (
        outcome matches Err(error) && error.code == ComputerUseErrorCode::CompletionUnknown)
            && after.observation is None,
        run.phase == ActivatePhase::GateAfter && reply is Gate && reply->Gate_0 is Ok
            && !run.target->0.is_foreground ==> outcome is Err,
{
    reveal_strlit("success");
    reveal_strlit("path");
    assert("success"@.len() == 7);
    assert("path"@.len() == 4);
}

/// A restoration goes for the bound window, past the input gates, and ends with it
/// in front; what failed on the way is its error, and asks for a fresh look rather
/// than a blind retry.
pub proof fn law_restorations_end_in_front(
    run: RestoreRun,
    before: ComputerUseSession,
    reply: WindowReply,
    after: ComputerUseSession,
    step: RestoreStep,
)
    requires
        run.well_formed(),
        restore_step(run, before, reply, after, step),
    ensures
        step matches Step::Continue(next) ==> {
            &&& next.phase == RestorePhase::Target && next.phase != run.phase ==> reply is Gate
                && reply->Gate_0 is Ok && before.native_windows
            &&& next.phase == RestorePhase::MutationGate && next.phase != run.phase ==> (
            reply matches WindowReply::Target(Ok(target)) && before.target is Some && target.pid
                == before.target->0.pid && target.window_id == before.target->0.window_id
                && next.expected == Some(target))
            &&& next.phase == RestorePhase::Mutation && next.phase != run.phase ==> reply is Gate
                && reply->Gate_0 is Ok && after.observation is None
            &&& next.phase == RestorePhase::TargetAfter && next.phase != run.phase
                ==> reply is Mutated && reply->Mutated_0 is Ok
            &&& next.phase == RestorePhase::GateAfter && next.phase != run.phase ==> (
            reply matches WindowReply::Target(Ok(target)) && is_usable_target(before, Ok(target))
                && next.target == Some(target))
            &&& run.phase != RestorePhase::Target ==> next.expected == run.expected
        },
        step matches Step::Done(Ok(target)) ==> run.phase == RestorePhase::GateAfter
            && Some(target) == run.target && target.is_foreground && target.pid
            == run.expected->0.pid && target.window_id == run.expected->0.window_id && reply is Gate
            && reply->Gate_0 is Ok,
        run.asks() == WindowRequest::CheckInput && reply is Gate && reply->Gate_0 is Err ==> step
            == RestoreStep::Done(Err(reply->Gate_0->Err_0)),
        run.phase == RestorePhase::Mutation && reply is Mutated && reply->Mutated_0 is Err ==> (
        step matches Step::Done(Err(error)) && error.code == reply->Mutated_0->Err_0.code
            && error.message == reply->Mutated_0->Err_0.message && error.details is Some
            && error.details->0.blind_retry == Some(false) && error.details->0.automatic_input
            == Some(false) && error.details->0.fresh_observation_required == Some(true)),
        run.phase == RestorePhase::GateAfter && reply is Gate && reply->Gate_0 is Ok
            && !run.target->0.is_foreground ==> (step matches Step::Done(Err(_))),
{
}

/// A first activation keeps to the window that was found, and ends with it in
/// front, with what the driver answered; on native Windows a window that stayed
/// behind is tried once more, which the report then says.
pub proof fn law_first_activations_end_in_front(
    run: BootstrapRun,
    before: ComputerUseSession,
    reply: WindowReply,
    after: ComputerUseSession,
    step: BootstrapStep,
)
    requires
        run.well_formed(),
        bootstrap_step(run, before, reply, after, step),
    ensures
        step matches Step::Continue(next) ==> {
            &&& next.expected == run.expected
            &&& run.phase == BootstrapPhase::Gate && next.phase != run.phase ==> reply is Gate
                && reply->Gate_0 is Ok && bootstrap_target_refusal(run.expected) is None && (
            next.phase == BootstrapPhase::Mutation <==> before.native_windows)
            &&& run.phase == BootstrapPhase::Front && next.phase != run.phase ==> (
            reply matches WindowReply::Front(FrontCall::Returned(Ok(result))) && next.result
                == Some(result))
            &&& run.phase == BootstrapPhase::Mutation && next.phase != run.phase ==> reply is Mutated
                && reply->Mutated_0 is Ok && next.result is Some
                && next.result->0.value.view().text_at("path"@) == Some("windows_exact_foreground"@)
                && next.result->0.value.view().bool_at("success"@) == Some(true)
            &&& run.phase == BootstrapPhase::Resolve || run.phase == BootstrapPhase::Fallback
                ==> next.result == run.result
            &&& next.phase == BootstrapPhase::Fallback && next.phase != run.phase
                ==> before.native_windows && (reply matches WindowReply::Target(Ok(target))
                && !target.is_foreground)
            &&& next.phase == BootstrapPhase::ResolveAgain && next.phase != run.phase
                ==> reply is Mutated && reply->Mutated_0 is Ok
        },
        step matches Step::Done(Ok(report)) ==> {
            &&& report.target.is_foreground
            &&& reply == WindowReply::Target(Ok(report.target))
            &&& report.target.pid == run.expected.pid
            &&& report.target.window_id == run.expected.window_id
            &&& Some(report.result) == run.result
            &&& report.fallback <==> run.phase == BootstrapPhase::ResolveAgain
            &&& before.native_windows ==> report.target.available()
            &&& after == before
        },
        run.phase == BootstrapPhase::Gate && reply is Gate && reply->Gate_0 is Err ==> step
            == BootstrapStep::Done(Err(reply->Gate_0->Err_0)),
        (run.phase == BootstrapPhase::Mutation || run.phase == BootstrapPhase::Fallback)
            && reply is Mutated && reply->Mutated_0 is Err ==> step == BootstrapStep::Done(
            Err(reply->Mutated_0->Err_0),
        ),
        (run.phase == BootstrapPhase::Resolve || run.phase == BootstrapPhase::ResolveAgain)
            && reply is Target && reply->Target_0 is Err ==> step == BootstrapStep::Done(
            Err(reply->Target_0->Err_0),
        ),
        run.phase == BootstrapPhase::Front && (
        reply matches WindowReply::Front(FrontCall::NotReturned(_))) ==> (
        step matches Step::Done(Err(error)) && error.code
            == ComputerUseErrorCode::CompletionUnknown),
{
    reveal_strlit("success");
    reveal_strlit("path");
    assert("success"@.len() == 7);
    assert("path"@.len() == 4);
}

/// Only an exact and usable window of a native session is closed, and closing
/// voids the evidence.
pub proof fn law_only_exact_windows_are_closed(
    before: ComputerUseSession,
    resolved: ComputerUseResult<WindowTarget>,
    after: ComputerUseSession,
    r: ComputerUseResult<WindowTarget>,
)
    requires
        close_begins(before, resolved, after, r),
    ensures
        r is Ok <==> before.active && before.scope.process_id is Some
            && before.scope.window_handle is Some && before.native_windows && is_usable_target(
            before,
            resolved,
        ),
        r is Ok ==> r == resolved && after.observation is None && after.active == before.active
            && after.target == before.target,
{
}

/// The state of the bound window is told as it was found, and evidence of a window
/// that is not there is void. On native Windows a window that is gone is told as
/// not there.
pub proof fn law_bound_windows_are_told_as_found(
    before: ComputerUseSession,
    resolved: ComputerUseResult<WindowTarget>,
    after: ComputerUseSession,
    told: ComputerUseResult<WindowTarget>,
    available_after: ComputerUseSession,
    availability: ComputerUseResult<ComputerUseTargetAvailability>,
)
    requires
        window_is_told(before, resolved, after, told),
        availability_is_told(before, resolved, available_after, availability),
    ensures
        told matches Ok(target) ==> resolved == Ok::<WindowTarget, ComputerUseError>(target)
            && before.active && before.target is Some && target.pid == before.target->0.pid
            && target.window_id == before.target->0.window_id,
        before.active && before.target is Some && (resolved matches Ok(target) && target.pid
            == before.target->0.pid && target.window_id == before.target->0.window_id)
            ==> told is Ok && availability is Ok,
        told is Ok && resolved->Ok_0.available() ==> after == before,
        told is Ok && !resolved->Ok_0.available() ==> after.observation is None,
        told is Ok ==> (availability matches Ok(state) && state.minimized
            == resolved->Ok_0.is_minimized && state.visible == resolved->Ok_0.is_on_screen
            && state.foreground == resolved->Ok_0.is_foreground),
        before.active && before.native_windows && before.target is Some && told is Err ==> (
        availability matches Ok(state) && !state.visible && !state.foreground && !state.minimized)
            && available_after.observation is None,
        !before.active ==> told is Err && availability is Err && after == before
            && available_after == before,
{
}

} // verus!
