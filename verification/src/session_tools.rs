//! Tools that a session calls on its own window: extension tools, browser
//! tools, downloads, and the cursor.

use crate::contracts::ComputerUseToolResult;
use crate::driver::{parse_bound_tool_value, DispatchOutcome, ToolReply};
#[allow(unused_imports)]
use crate::driver::invalid_json_message;
use crate::errors::{ComputerUseError, ComputerUseErrorCode, ComputerUseResult};
#[allow(unused_imports)]
use crate::errors::{fails_with, is_plain_error, refuses, Refusal};
use crate::json::Json;
#[allow(unused_imports)]
use crate::json::{parsed_text, JsonTree};
use crate::session::{BannerActivity, ComputerUseSession};
#[allow(unused_imports)]
use crate::session::{
    is_dispatch_outcome, is_evidence_outcome, is_refresh_failure, is_usable_target,
};
use crate::steps::Step;
#[allow(unused_imports)]
use crate::steps::{refused_gate_stops, stops, stops_plainly, unusable_target_stops};
use crate::text::{join2, text_eq};
use crate::tool_binding::{
    banner_activity_for_bound_tool, bind_browser_arguments, bind_tool_arguments, browser_tool_route,
    tool_failure, BrowserToolDisposition,
};
#[allow(unused_imports)]
use crate::tool_binding::{
    bound_members, bound_tool_activity, browser_members, browser_route, first_unbindable,
    tool_message, unbound,
};
use crate::window_target::WindowTarget;
use vstd::prelude::*;

verus! {

/// A tool's reply, with what the tool policy makes of it.
#[derive(Debug)]
pub struct ToolAnswer {
    pub reply: ToolReply,
    /// The reply reports success.
    pub accepted: ComputerUseResult<()>,
    /// The reply in the form that is handed on.
    pub result: ComputerUseResult<ComputerUseToolResult>,
}

/// A reply that was accepted.
#[derive(Debug)]
pub struct AcceptedAnswer {
    pub reply: ToolReply,
    pub result: ComputerUseResult<ComputerUseToolResult>,
}

/// The accepted answer is this one.
pub open spec fn accepts(answer: ToolAnswer, accepted: AcceptedAnswer) -> bool {
    accepted.reply == answer.reply && accepted.result == answer.result
}

/// What came of a tool call: a failure to reach the tool, or the tool's own.
pub open spec fn is_tool_outcome(
    before: ComputerUseSession,
    result: ComputerUseResult<ToolAnswer>,
    after: ComputerUseSession,
    r: ComputerUseResult<AcceptedAnswer>,
) -> bool {
    match result {
        Err(error) => r == Err::<AcceptedAnswer, ComputerUseError>(error) && after
            == before.after_failure(error.code),
        Ok(answer) => match answer.accepted {
            Err(error) => r == Err::<AcceptedAnswer, ComputerUseError>(error) && after
                == before.after_failure(error.code),
            Ok(()) => after == before && (r matches Ok(accepted) && accepts(answer, accepted)),
        },
    }
}

/// The context in which a tool is called.
pub open spec fn call_context(name: Seq<char>) -> Seq<char> {
    "call CUA "@ + name
}

pub fn tool_call_context(name: &str) -> (r: String)
    ensures
        r@ == call_context(name@),
{
    join2("call CUA ", name)
}

/// What came of a dispatched tool that may change something.
pub open spec fn is_mutating_call(
    before: ComputerUseSession,
    name: Seq<char>,
    outcome: DispatchOutcome<ToolAnswer>,
    after: ComputerUseSession,
    r: ComputerUseResult<AcceptedAnswer>,
) -> bool {
    exists|middle: ComputerUseSession, dispatched: ComputerUseResult<ToolAnswer>|
        {
            &&& #[trigger] is_dispatch_outcome(
                before,
                call_context(name),
                outcome,
                middle,
                dispatched,
            )
            &&& is_tool_outcome(middle, dispatched, after, r)
        }
}

impl ComputerUseSession {
    /// Hands on what came of a tool call. A failure voids what it has to.
    pub fn finish_observed_tool_attempt(&mut self, result: ComputerUseResult<ToolAnswer>) -> (r:
        ComputerUseResult<AcceptedAnswer>)
        ensures
            is_tool_outcome(*old(self), result, *final(self), r),
    {
        let answer = match self.finish_observation_sensitive_attempt(result) {
            Ok(answer) => answer,
            Err(error) => return Err(error),
        };
        match self.finish_observation_sensitive_attempt(answer.accepted) {
            Ok(()) => Ok(AcceptedAnswer { reply: answer.reply, result: answer.result }),
            Err(error) => Err(error),
        }
    }

    /// Hands on what came of a dispatched tool that may change something.
    pub fn finish_mutating_call(&mut self, name: &str, outcome: DispatchOutcome<ToolAnswer>) -> (r:
        ComputerUseResult<AcceptedAnswer>)
        ensures
            is_mutating_call(*old(self), name@, outcome, *final(self), r),
    {
        let ghost before = *self;
        let context = tool_call_context(name);
        let dispatched = self.finish_typed_dispatch_result(context.as_str(), outcome);
        let ghost middle = *self;
        assert(is_dispatch_outcome(before, call_context(name@), outcome, middle, dispatched));
        self.finish_observed_tool_attempt(dispatched)
    }
}

/// What a tool run asks for.
#[derive(Debug, Clone, Copy, PartialEq, Eq, Structural)]
pub enum ToolRequest {
    CheckInput,
    CheckObservation,
    ResolveTarget,
    ReadSchema,
    RefreshUpstream,
    MapPointer,
    /// Call the tool with the bound arguments.
    CallTool,
}

/// What the host hands back.
#[derive(Debug)]
pub enum ToolRunReply {
    Gate(ComputerUseResult<()>),
    Target(ComputerUseResult<WindowTarget>),
    Schema(ComputerUseResult<Json>),
    Refreshed(ComputerUseResult<()>),
    Mapped(ComputerUseResult<Json>),
    Dispatched(DispatchOutcome<ToolAnswer>),
    Called(ComputerUseResult<ToolAnswer>),
}

/// Where a call of an extension tool is in its course.
#[derive(Debug, Clone, Copy, PartialEq, Eq, Structural)]
pub enum ExtensionPhase {
    Input,
    Target,
    Schema,
    TargetAgain,
    Observation,
    Dispatch,
    ObservationAfter,
    TargetAfter,
}

/// A call of an extension tool, bound to the session's window.
#[derive(Debug)]
pub struct ExtensionRun {
    pub phase: ExtensionPhase,
    pub name: String,
    pub arguments: Json,
    pub target: Option<WindowTarget>,
    pub answer: Option<AcceptedAnswer>,
}

pub type ExtensionStep = Step<ExtensionRun, ComputerUseToolResult>;

impl ExtensionRun {
    pub open spec fn at(self, phase: ExtensionPhase) -> ExtensionRun {
        ExtensionRun { phase, ..self }
    }

    /// The run holds what its phase needs.
    pub open spec fn well_formed(self) -> bool {
        match self.phase {
            ExtensionPhase::Schema => self.target is Some,
            ExtensionPhase::ObservationAfter | ExtensionPhase::TargetAfter => self.answer is Some,
            _ => true,
        }
    }

    pub open spec fn asks(self) -> ToolRequest {
        match self.phase {
            ExtensionPhase::Input => ToolRequest::CheckInput,
            ExtensionPhase::Target => ToolRequest::ResolveTarget,
            ExtensionPhase::Schema => ToolRequest::ReadSchema,
            ExtensionPhase::TargetAgain => ToolRequest::ResolveTarget,
            ExtensionPhase::Observation => ToolRequest::CheckObservation,
            ExtensionPhase::Dispatch => ToolRequest::CallTool,
            ExtensionPhase::ObservationAfter => ToolRequest::CheckObservation,
            ExtensionPhase::TargetAfter => ToolRequest::ResolveTarget,
        }
    }

    pub fn request(&self) -> (r: ToolRequest)
        ensures
            r == self.asks(),
    {
        match self.phase {
            ExtensionPhase::Input => ToolRequest::CheckInput,
            ExtensionPhase::Target => ToolRequest::ResolveTarget,
            ExtensionPhase::Schema => ToolRequest::ReadSchema,
            ExtensionPhase::TargetAgain => ToolRequest::ResolveTarget,
            ExtensionPhase::Observation => ToolRequest::CheckObservation,
            ExtensionPhase::Dispatch => ToolRequest::CallTool,
            ExtensionPhase::ObservationAfter => ToolRequest::CheckObservation,
            ExtensionPhase::TargetAfter => ToolRequest::ResolveTarget,
        }
    }

    fn goes(self, phase: ExtensionPhase) -> (r: ExtensionStep)
        ensures
            r == ExtensionStep::Continue(self.at(phase)),
    {
        let mut run = self;
        run.phase = phase;
        Step::Continue(run)
    }
}

impl ExtensionRun {
    /// What the banner shows while the run waits for its answer.
    pub open spec fn shows_activity(self) -> Option<BannerActivity> {
        if self.phase == ExtensionPhase::Input {
            None
        } else {
            Some(bound_tool_activity(self.name@))
        }
    }

    /// What the banner shows while the run waits for its answer.
    pub fn activity(&self) -> (r: Option<BannerActivity>)
        ensures
            r == self.shows_activity(),
    {
        if self.phase == ExtensionPhase::Input {
            None
        } else {
            Some(banner_activity_for_bound_tool(self.name.as_str()))
        }
    }
}

/// The error says why a tool's arguments cannot be bound to the session's
/// window.
pub open spec fn is_binding_failure(
    name: Seq<char>,
    arguments: JsonTree,
    schema: JsonTree,
    error: ComputerUseError,
) -> bool {
    match (arguments, schema.get("properties"@)) {
        (JsonTree::Object(members), Some(JsonTree::Object(properties))) => {
            if first_unbindable(members, properties) is Some {
                is_plain_error(
                    error,
                    ComputerUseErrorCode::InvalidAction,
                    tool_message(
                        "native CUA tool argument "@,
                        first_unbindable(members, properties)->0,
                        " is not target-bindable"@,
                    ),
                )
            } else {
                unbound(properties) && is_plain_error(
                    error,
                    ComputerUseErrorCode::InvalidTarget,
                    tool_message(
                        "CUA tool "@,
                        name,
                        " is not bindable to an exact window session"@,
                    ),
                )
            }
        },
        (JsonTree::Object(_), _) => is_plain_error(
            error,
            ComputerUseErrorCode::BackendUnavailable,
            tool_message("CUA tool "@, name, " returned an invalid input schema"@),
        ),
        _ => is_plain_error(
            error,
            ComputerUseErrorCode::InvalidAction,
            "native CUA tool arguments must be a JSON object"@,
        ),
    }
}

/// The arguments of the run are bound, or the run ends.
pub open spec fn schema_step(
    run: ExtensionRun,
    before: ComputerUseSession,
    schema: ComputerUseResult<Json>,
    after: ComputerUseSession,
    step: ExtensionStep,
) -> bool {
    match schema {
        Err(error) => after == before && stops(step, error),
        Ok(schema) => match step {
            Step::Continue(next) => {
                &&& after == before
                &&& next == (ExtensionRun { arguments: next.arguments, ..run }).at(
                    ExtensionPhase::TargetAgain,
                )
                &&& run.arguments.view() matches JsonTree::Object(members)
                &&& schema.view().get("properties"@) matches Some(JsonTree::Object(properties))
                &&& first_unbindable(members, properties) is None
                &&& !unbound(properties)
                &&& next.arguments.view() == JsonTree::Object(
                    bound_members(members, properties, run.target->0, before.session_id@),
                )
            },
            Step::Done(result) => {
                &&& result matches Err(error)
                &&& is_binding_failure(run.name@, run.arguments.view(), schema.view(), error)
                &&& after == before.after_failure(error.code)
            },
        },
    }
}

/// One step of a call of an extension tool.
pub open spec fn extension_step(
    run: ExtensionRun,
    before: ComputerUseSession,
    reply: ToolRunReply,
    after: ComputerUseSession,
    step: ExtensionStep,
) -> bool {
    match (run.phase, reply) {
        (ExtensionPhase::Input, ToolRunReply::Gate(gate)) => {
            &&& refused_gate_stops(before, gate, after, step)
            &&& gate is Ok ==> after == before && step == ExtensionStep::Continue(
                run.at(ExtensionPhase::Target),
            )
        },
        (ExtensionPhase::Target, ToolRunReply::Target(resolved)) => {
            &&& unusable_target_stops(before, resolved, after, step)
            &&& is_usable_target(before, resolved) ==> after == before && step
                == ExtensionStep::Continue(
                ExtensionRun { target: Some(resolved->Ok_0), ..run }.at(ExtensionPhase::Schema),
            )
        },
        (ExtensionPhase::Schema, ToolRunReply::Schema(schema)) => schema_step(
            run,
            before,
            schema,
            after,
            step,
        ),
        (ExtensionPhase::TargetAgain, ToolRunReply::Target(resolved)) => {
            &&& unusable_target_stops(before, resolved, after, step)
            &&& is_usable_target(before, resolved) ==> after == before && step
                == ExtensionStep::Continue(run.at(ExtensionPhase::Observation))
        },
        (ExtensionPhase::Observation, ToolRunReply::Gate(gate)) => {
            &&& refused_gate_stops(before, gate, after, step)
            &&& gate is Ok ==> after == before && step == ExtensionStep::Continue(
                run.at(ExtensionPhase::Dispatch),
            )
        },
        (ExtensionPhase::Dispatch, ToolRunReply::Dispatched(outcome)) => match step {
            Step::Continue(next) => {
                &&& next.answer matches Some(answer)
                &&& next == (ExtensionRun { answer: Some(answer), ..run }).at(
                    ExtensionPhase::ObservationAfter,
                )
                &&& is_mutating_call(before, run.name@, outcome, after, Ok(answer))
            },
            Step::Done(result) => result matches Err(error) && is_mutating_call(
                before,
                run.name@,
                outcome,
                after,
                Err(error),
            ),
        },
        (ExtensionPhase::ObservationAfter, ToolRunReply::Gate(gate)) => {
            &&& refused_gate_stops(before, gate, after, step)
            &&& gate is Ok ==> after == before && step == ExtensionStep::Continue(
                run.at(ExtensionPhase::TargetAfter),
            )
        },
        (ExtensionPhase::TargetAfter, ToolRunReply::Target(resolved)) => {
            &&& unusable_target_stops(before, resolved, after, step)
            &&& is_usable_target(before, resolved) ==> after == before && step
                == ExtensionStep::Done(run.answer->0.result)
        },
        _ => after == before && step == ExtensionStep::Continue(run),
    }
}

/// A call of a tool begins as it was asked for.
pub open spec fn tool_call_begins(before: ComputerUseSession, name: String, arguments: Json, validation: ComputerUseResult<()>, allowed: bool, now_ms: u64, after: ComputerUseSession, r: ComputerUseResult<ExtensionRun>) -> bool {
    if validation is Err {
        after == before && r == Err::<ExtensionRun, ComputerUseError>(
            validation->Err_0,
        )
    } else if !allowed {
        after == before && fails_with(
            r,
            ComputerUseErrorCode::InvalidAction,
            tool_message("CUA tool "@, name@, " must use its dedicated typed route"@),
        )
    } else if !before.active {
        after == before && fails_with(
            r,
            ComputerUseErrorCode::BackendUnavailable,
            "Computer Use session is not active"@,
        )
    } else if before.evidence_current(now_ms) {
        after == before && r == Ok::<ExtensionRun, ComputerUseError>(
            ExtensionRun {
                phase: ExtensionPhase::Input,
                name,
                arguments,
                target: None,
                answer: None,
            },
        )
    } else {
        &&& r matches Err(error)
        &&& crate::session::is_evidence_failure(before, now_ms, error)
        &&& after == before.without_evidence()
    }
}

impl ComputerUseSession {
    /// Begins a call of an extension tool. Tools with a route of their own are
    /// refused here.
    pub fn begin_call_tool(
        &mut self,
        name: String,
        arguments: Json,
        validation: ComputerUseResult<()>,
        allowed: bool,
        now_ms: u64,
    ) -> (r: ComputerUseResult<ExtensionRun>)
        ensures
            tool_call_begins(*old(self), name, arguments, validation, allowed, now_ms, *final(self), r),
    {
        match validation {
            Ok(()) => {},
            Err(error) => return Err(error),
        }
        if !allowed {
            return Err(
                tool_failure(
                    ComputerUseErrorCode::InvalidAction,
                    "CUA tool ",
                    name.as_str(),
                    " must use its dedicated typed route",
                ),
            );
        }
        match self.ensure_active() {
            Ok(()) => {},
            Err(error) => return Err(error),
        }
        match self.require_current_upstream_session_for_evidence(now_ms) {
            Ok(()) => {},
            Err(error) => return Err(error),
        }
        Ok(
            ExtensionRun {
                phase: ExtensionPhase::Input,
                name,
                arguments,
                target: None,
                answer: None,
            },
        )
    }
}

impl ExtensionRun {
    fn on_schema(self, session: &mut ComputerUseSession, schema: ComputerUseResult<Json>) -> (r:
        ExtensionStep)
        requires
            self.target is Some,
        ensures
            schema_step(self, *old(session), schema, *final(session), r),
    {
        let schema = match schema {
            Ok(schema) => schema,
            Err(error) => return Step::Done(Err(error)),
        };
        let bound = match &self.target {
            Some(target) => bind_tool_arguments(
                self.name.as_str(),
                &self.arguments,
                &schema,
                target,
                session.session_id.as_str(),
            ),
            None => return Step::Continue(self),
        };
        match session.finish_observation_sensitive_attempt(bound) {
            Ok(arguments) => {
                let mut run = self;
                run.arguments = arguments;
                run.goes(ExtensionPhase::TargetAgain)
            },
            Err(error) => Step::Done(Err(error)),
        }
    }

    /// Takes the answer to the run's request in. An answer to some other
    /// request changes nothing.
    pub fn advance(self, session: &mut ComputerUseSession, reply: ToolRunReply) -> (r: ExtensionStep)
        requires
            self.well_formed(),
        ensures
            extension_step(self, *old(session), reply, *final(session), r),
            r matches Step::Continue(next) ==> next.well_formed(),
    {
        match (self.phase, reply) {
            (ExtensionPhase::Input, ToolRunReply::Gate(gate)) => {
                match session.finish_observation_sensitive_attempt(gate) {
                    Ok(()) => self.goes(ExtensionPhase::Target),
                    Err(error) => Step::Done(Err(error)),
                }
            },
            (ExtensionPhase::Target, ToolRunReply::Target(resolved)) => {
                match session.require_observed_target_available(resolved) {
                    Ok(target) => {
                        let mut run = self;
                        run.target = Some(target);
                        run.goes(ExtensionPhase::Schema)
                    },
                    Err(error) => Step::Done(Err(error)),
                }
            },
            (ExtensionPhase::Schema, ToolRunReply::Schema(schema)) => self.on_schema(
                session,
                schema,
            ),
            (ExtensionPhase::TargetAgain, ToolRunReply::Target(resolved)) => {
                match session.require_observed_target_available(resolved) {
                    Ok(_) => self.goes(ExtensionPhase::Observation),
                    Err(error) => Step::Done(Err(error)),
                }
            },
            (ExtensionPhase::Observation, ToolRunReply::Gate(gate)) => {
                match session.finish_observation_sensitive_attempt(gate) {
                    Ok(()) => self.goes(ExtensionPhase::Dispatch),
                    Err(error) => Step::Done(Err(error)),
                }
            },
            (ExtensionPhase::Dispatch, ToolRunReply::Dispatched(outcome)) => {
                match session.finish_mutating_call(self.name.as_str(), outcome) {
                    Ok(answer) => {
                        let mut run = self;
                        run.answer = Some(answer);
                        run.goes(ExtensionPhase::ObservationAfter)
                    },
                    Err(error) => Step::Done(Err(error)),
                }
            },
            (ExtensionPhase::ObservationAfter, ToolRunReply::Gate(gate)) => {
                match session.finish_observation_sensitive_attempt(gate) {
                    Ok(()) => self.goes(ExtensionPhase::TargetAfter),
                    Err(error) => Step::Done(Err(error)),
                }
            },
            (ExtensionPhase::TargetAfter, ToolRunReply::Target(resolved)) => {
                match session.require_observed_target_available(resolved) {
                    Ok(_) => Step::Done(self.answer.unwrap().result),
                    Err(error) => Step::Done(Err(error)),
                }
            },
            _ => Step::Continue(self),
        }
    }
}

/// Where a call of a browser tool is in its course.
#[derive(Debug, Clone, Copy, PartialEq, Eq, Structural)]
pub enum BrowserPhase {
    /// Input, for the refresh that has to come first.
    RefreshGate,
    Refresh,
    Target,
    Input,
    Observation,
    Dispatch,
    ObservationAfter,
    TargetAfter,
}

/// A call of a browser tool in the session's window.
#[derive(Debug)]
pub struct BrowserRun {
    pub phase: BrowserPhase,
    pub name: String,
    pub route: BrowserToolDisposition,
    pub arguments: Json,
    /// What the tool returns is evidence of the window.
    pub publishes: bool,
    pub answer: Option<ToolReply>,
}

pub type BrowserStep = Step<BrowserRun, Json>;

impl BrowserRun {
    pub open spec fn at(self, phase: BrowserPhase) -> BrowserRun {
        BrowserRun { phase, ..self }
    }

    /// The run holds what its phase needs.
    pub open spec fn well_formed(self) -> bool {
        &&& self.phase == BrowserPhase::Target ==> self.arguments.view() is Object
        &&& self.phase == BrowserPhase::RefreshGate ==> self.arguments.view() is Object
        &&& self.phase == BrowserPhase::Refresh ==> self.arguments.view() is Object
        &&& self.phase == BrowserPhase::ObservationAfter ==> self.answer is Some
        &&& self.phase == BrowserPhase::TargetAfter ==> self.answer is Some
    }

    pub open spec fn asks(self) -> ToolRequest {
        match self.phase {
            BrowserPhase::RefreshGate => ToolRequest::CheckInput,
            BrowserPhase::Refresh => ToolRequest::RefreshUpstream,
            BrowserPhase::Target => ToolRequest::ResolveTarget,
            BrowserPhase::Input => ToolRequest::CheckInput,
            BrowserPhase::Observation => ToolRequest::CheckObservation,
            BrowserPhase::Dispatch => ToolRequest::CallTool,
            BrowserPhase::ObservationAfter => ToolRequest::CheckObservation,
            BrowserPhase::TargetAfter => ToolRequest::ResolveTarget,
        }
    }

    pub fn request(&self) -> (r: ToolRequest)
        ensures
            r == self.asks(),
    {
        match self.phase {
            BrowserPhase::RefreshGate => ToolRequest::CheckInput,
            BrowserPhase::Refresh => ToolRequest::RefreshUpstream,
            BrowserPhase::Target => ToolRequest::ResolveTarget,
            BrowserPhase::Input => ToolRequest::CheckInput,
            BrowserPhase::Observation => ToolRequest::CheckObservation,
            BrowserPhase::Dispatch => ToolRequest::CallTool,
            BrowserPhase::ObservationAfter => ToolRequest::CheckObservation,
            BrowserPhase::TargetAfter => ToolRequest::ResolveTarget,
        }
    }

    fn goes(self, phase: BrowserPhase) -> (r: BrowserStep)
        ensures
            r == BrowserStep::Continue(self.at(phase)),
    {
        let mut run = self;
        run.phase = phase;
        Step::Continue(run)
    }

    /// A failed navigation is an answer, not a failure.
    pub open spec fn keeps_failure(self, reply: ToolReply) -> bool {
        self.name@ == "browser_navigate"@ && reply.is_error
    }

    /// Where the run goes once nothing but the tool itself is missing.
    pub open spec fn ready(self) -> BrowserRun {
        self.at(
            if self.publishes {
                BrowserPhase::Observation
            } else {
                BrowserPhase::Dispatch
            },
        )
    }
}

impl BrowserRun {
    /// What the banner shows while the run waits for its answer.
    pub open spec fn shows_activity(self) -> Option<BannerActivity> {
        if self.phase == BrowserPhase::RefreshGate || self.phase == BrowserPhase::Refresh {
            None
        } else {
            Some(bound_tool_activity(self.name@))
        }
    }

    /// What the banner shows while the run waits for its answer.
    pub fn activity(&self) -> (r: Option<BannerActivity>)
        ensures
            r == self.shows_activity(),
    {
        if self.phase == BrowserPhase::RefreshGate || self.phase == BrowserPhase::Refresh {
            None
        } else {
            Some(banner_activity_for_bound_tool(self.name.as_str()))
        }
    }
}

/// What came of the dispatched browser tool, before its own verdict.
pub open spec fn is_browser_dispatch(
    run: BrowserRun,
    before: ComputerUseSession,
    outcome: DispatchOutcome<ToolAnswer>,
    after: ComputerUseSession,
    r: ComputerUseResult<ToolAnswer>,
) -> bool {
    if run.route == BrowserToolDisposition::ReadOnlyEvidence {
        is_evidence_outcome(call_context(run.name@), outcome, r) && match r {
            Ok(_) => after == before,
            Err(error) => after == before.after_failure(error.code),
        }
    } else {
        exists|middle: ComputerUseSession|
            {
                &&& #[trigger] is_dispatch_outcome(
                    before,
                    call_context(run.name@),
                    outcome,
                    middle,
                    r,
                )
                &&& match r {
                    Ok(_) => after == middle,
                    Err(error) => after == middle.after_failure(error.code),
                }
            }
    }
}

/// What is accepted of a browser tool's answer.
pub open spec fn browser_verdict(
    run: BrowserRun,
    before: ComputerUseSession,
    answer: ToolAnswer,
    after: ComputerUseSession,
    r: ComputerUseResult<ToolReply>,
) -> bool {
    if run.keeps_failure(answer.reply) {
        after == before && r == Ok::<ToolReply, ComputerUseError>(answer.reply)
    } else {
        match answer.accepted {
            Ok(()) => after == before && r == Ok::<ToolReply, ComputerUseError>(answer.reply),
            Err(error) => after == before.after_failure(error.code) && r == Err::<
                ToolReply,
                ComputerUseError,
            >(error),
        }
    }
}

/// What came of a browser tool.
pub open spec fn is_browser_call(
    run: BrowserRun,
    before: ComputerUseSession,
    outcome: DispatchOutcome<ToolAnswer>,
    after: ComputerUseSession,
    r: ComputerUseResult<ToolReply>,
) -> bool {
    exists|middle: ComputerUseSession, dispatched: ComputerUseResult<ToolAnswer>|
        {
            &&& #[trigger] is_browser_dispatch(run, before, outcome, middle, dispatched)
            &&& match dispatched {
                Err(error) => after == middle && r == Err::<ToolReply, ComputerUseError>(error),
                Ok(answer) => browser_verdict(run, middle, answer, after, r),
            }
        }
}

/// The answer's value, or why it has none.
pub open spec fn browser_value(
    name: Seq<char>,
    reply: ToolReply,
    before: ComputerUseSession,
    after: ComputerUseSession,
    step: BrowserStep,
) -> bool {
    match parsed_text(reply.raw_json@) {
        Ok(tree) => {
            &&& after == before.showing(BannerActivity::Ready)
            &&& step matches Step::Done(Ok(value))
            &&& value.view() == tree
        },
        Err(message) => after == before && stops_plainly(
            step,
            ComputerUseErrorCode::BackendUnavailable,
            invalid_json_message(name, message),
        ),
    }
}

/// The tool was called.
pub open spec fn browser_dispatch_step(
    run: BrowserRun,
    before: ComputerUseSession,
    outcome: DispatchOutcome<ToolAnswer>,
    after: ComputerUseSession,
    step: BrowserStep,
) -> bool {
    exists|middle: ComputerUseSession, r: ComputerUseResult<ToolReply>|
        {
            &&& #[trigger] is_browser_call(run, before, outcome, middle, r)
            &&& match r {
                Err(error) => after == middle && stops(step, error),
                Ok(reply) => if run.publishes {
                    after == middle && step == BrowserStep::Continue(
                        BrowserRun { answer: Some(reply), ..run }.at(
                            BrowserPhase::ObservationAfter,
                        ),
                    )
                } else {
                    browser_value(run.name@, reply, middle, after, step)
                },
            }
        }
}

/// One step of a call of a browser tool.
pub open spec fn browser_step(
    run: BrowserRun,
    before: ComputerUseSession,
    now_ms: u64,
    reply: ToolRunReply,
    after: ComputerUseSession,
    step: BrowserStep,
) -> bool {
    match (run.phase, reply) {
        (BrowserPhase::RefreshGate, ToolRunReply::Gate(gate)) => match gate {
            Ok(()) => after == before && step == BrowserStep::Continue(
                run.at(BrowserPhase::Refresh),
            ),
            Err(cause) => {
                &&& after == before.after_failure(cause.code).without_evidence()
                &&& step matches Step::Done(Err(error))
                &&& is_refresh_failure(cause, error)
            },
        },
        (BrowserPhase::Refresh, ToolRunReply::Refreshed(result)) => match result {
            Ok(()) => after == before.refreshed(now_ms) && step == BrowserStep::Continue(
                run.at(BrowserPhase::Target),
            ),
            Err(cause) => {
                &&& after == before.without_evidence()
                &&& step matches Step::Done(Err(error))
                &&& is_refresh_failure(cause, error)
            },
        },
        (BrowserPhase::Target, ToolRunReply::Target(resolved)) => {
            &&& unusable_target_stops(before, resolved, after, step)
            &&& is_usable_target(before, resolved) ==> {
                &&& after == before
                &&& step matches Step::Continue(next)
                &&& next.arguments.view() == JsonTree::Object(
                    browser_members(
                        run.name@,
                        run.arguments.view()->Object_0,
                        resolved->Ok_0,
                        before.session_id@,
                    ),
                )
                &&& next == {
                    let bound = BrowserRun { arguments: next.arguments, ..run };
                    if run.route == BrowserToolDisposition::PotentialMutation {
                        bound.at(BrowserPhase::Input)
                    } else {
                        bound.ready()
                    }
                }
            }
        },
        (BrowserPhase::Input, ToolRunReply::Gate(gate)) => {
            &&& refused_gate_stops(before, gate, after, step)
            &&& gate is Ok ==> after == before && step == BrowserStep::Continue(run.ready())
        },
        (BrowserPhase::Observation, ToolRunReply::Gate(gate)) => {
            &&& refused_gate_stops(before, gate, after, step)
            &&& gate is Ok ==> after == before && step == BrowserStep::Continue(
                run.at(BrowserPhase::Dispatch),
            )
        },
        (BrowserPhase::Dispatch, ToolRunReply::Dispatched(outcome)) => browser_dispatch_step(
            run,
            before,
            outcome,
            after,
            step,
        ),
        (BrowserPhase::ObservationAfter, ToolRunReply::Gate(gate)) => {
            &&& refused_gate_stops(before, gate, after, step)
            &&& gate is Ok ==> after == before && step == BrowserStep::Continue(
                run.at(BrowserPhase::TargetAfter),
            )
        },
        (BrowserPhase::TargetAfter, ToolRunReply::Target(resolved)) => {
            &&& unusable_target_stops(before, resolved, after, step)
            &&& is_usable_target(before, resolved) ==> browser_value(
                run.name@,
                run.answer->0,
                before,
                after,
                step,
            )
        },
        _ => after == before && step == BrowserStep::Continue(run),
    }
}

/// Why a browser tool cannot be called, apart from its own validation and
/// the state of the evidence.
pub open spec fn browser_refusal(
    session: ComputerUseSession,
    name: Seq<char>,
    arguments: JsonTree,
) -> Refusal {
    if browser_route(name, arguments) is None {
        Some(
            (
                ComputerUseErrorCode::InvalidAction,
                tool_message("browser tool "@, name, " is not exposed by this host"@),
            ),
        )
    } else if !session.active {
        Some(
            (
                ComputerUseErrorCode::BackendUnavailable,
                "Computer Use session is not active"@,
            ),
        )
    } else if !(arguments is Object) {
        Some(
            (
                ComputerUseErrorCode::InvalidAction,
                "browser tool arguments must be a JSON object"@,
            ),
        )
    } else {
        None
    }
}

/// A call of a browser tool begins on its route.
pub open spec fn browser_call_begins(before: ComputerUseSession, name: String, arguments: Json, validation: ComputerUseResult<()>, now_ms: u64, after: ComputerUseSession, r: ComputerUseResult<BrowserRun>) -> bool {
    if validation is Err {
        after == before && r == Err::<BrowserRun, ComputerUseError>(
            validation->Err_0,
        )
    } else if browser_refusal(before, name@, arguments.view()) is Some {
        after == before && refuses(
            r,
            browser_refusal(before, name@, arguments.view()),
        )
    } else if browser_route(name@, arguments.view())
        == Some(BrowserToolDisposition::PotentialMutation) && !before.evidence_current(
        now_ms,
    ) {
        &&& r matches Err(error)
        &&& crate::session::is_evidence_failure(before, now_ms, error)
        &&& after == before.without_evidence()
    } else {
        &&& after == before
        &&& r matches Ok(run)
        &&& run.well_formed()
        &&& Some(run.route) == browser_route(name@, arguments.view())
        &&& run == (BrowserRun {
            phase: if run.route == BrowserToolDisposition::ReadOnlyEvidence && before.refresh_needed(now_ms) {
                BrowserPhase::RefreshGate
            } else {
                BrowserPhase::Target
            },
            name,
            route: run.route,
            arguments,
            publishes: run.route == BrowserToolDisposition::ReadOnlyEvidence || name@
                == "browser_prepare"@,
            answer: None,
        })
    }
}

impl ComputerUseSession {
    /// Begins a call of a browser tool. A read waits for a refresh that is
    /// due; anything that may change something does not cross one.
    pub fn begin_browser_tool(
        &mut self,
        name: String,
        arguments: Json,
        validation: ComputerUseResult<()>,
        now_ms: u64,
    ) -> (r: ComputerUseResult<BrowserRun>)
        ensures
            browser_call_begins(*old(self), name, arguments, validation, now_ms, *final(self), r),
    {
        match validation {
            Ok(()) => {},
            Err(error) => return Err(error),
        }
        let route = match browser_tool_route(name.as_str(), &arguments) {
            Some(route) => route,
            None => return Err(
                tool_failure(
                    ComputerUseErrorCode::InvalidAction,
                    "browser tool ",
                    name.as_str(),
                    " is not exposed by this host",
                ),
            ),
        };
        match self.ensure_active() {
            Ok(()) => {},
            Err(error) => return Err(error),
        }
        if !arguments.is_object() {
            return Err(
                ComputerUseError::new(
                    ComputerUseErrorCode::InvalidAction,
                    "browser tool arguments must be a JSON object",
                ),
            );
        }
        let phase = match route {
            BrowserToolDisposition::ReadOnlyEvidence => if self.upstream_refresh_needed(now_ms) {
                BrowserPhase::RefreshGate
            } else {
                BrowserPhase::Target
            },
            BrowserToolDisposition::PotentialMutation => {
                match self.require_current_upstream_session_for_evidence(now_ms) {
                    Ok(()) => BrowserPhase::Target,
                    Err(error) => return Err(error),
                }
            },
        };
        let publishes = route == BrowserToolDisposition::ReadOnlyEvidence || text_eq(
            name.as_str(),
            "browser_prepare",
        );
        Ok(BrowserRun { phase, name, route, arguments, publishes, answer: None })
    }

    /// Hands on what came of a dispatched browser tool.
    fn finish_browser_dispatch(
        &mut self,
        run: &BrowserRun,
        outcome: DispatchOutcome<ToolAnswer>,
    ) -> (r: ComputerUseResult<ToolAnswer>)
        ensures
            is_browser_dispatch(*run, *old(self), outcome, *final(self), r),
    {
        let ghost before = *self;
        let context = tool_call_context(run.name.as_str());
        match run.route {
            BrowserToolDisposition::ReadOnlyEvidence => {
                let result = self.finish_read_only_evidence_dispatch_result(
                    context.as_str(),
                    outcome,
                );
                self.finish_observation_sensitive_attempt(result)
            },
            BrowserToolDisposition::PotentialMutation => {
                let result = self.finish_typed_dispatch_result(context.as_str(), outcome);
                assert(is_dispatch_outcome(
                    before,
                    call_context(run.name@),
                    outcome,
                    *self,
                    result,
                ));
                self.finish_observation_sensitive_attempt(result)
            },
        }
    }

    /// What came of a browser tool. A failed navigation is an answer.
    pub fn dispatch_browser_tool(
        &mut self,
        run: &BrowserRun,
        outcome: DispatchOutcome<ToolAnswer>,
    ) -> (r: ComputerUseResult<ToolReply>)
        ensures
            is_browser_call(*run, *old(self), outcome, *final(self), r),
    {
        let ghost before = *self;
        let dispatched = self.finish_browser_dispatch(run, outcome);
        assert(is_browser_dispatch(*run, before, outcome, *self, dispatched));
        let answer = match dispatched {
            Ok(answer) => answer,
            Err(error) => return Err(error),
        };
        if text_eq(run.name.as_str(), "browser_navigate") && answer.reply.is_error {
            return Ok(answer.reply);
        }
        match self.finish_observation_sensitive_attempt(answer.accepted) {
            Ok(()) => Ok(answer.reply),
            Err(error) => Err(error),
        }
    }

    fn finish_browser_value(&mut self, name: &str, reply: &ToolReply) -> (r: BrowserStep)
        ensures
            browser_value(name@, *reply, *old(self), *final(self), r),
    {
        match parse_bound_tool_value(name, reply.raw_json.as_str()) {
            Ok(value) => {
                self.set_banner_activity(BannerActivity::Ready);
                Step::Done(Ok(value))
            },
            Err(error) => Step::Done(Err(error)),
        }
    }
}

impl BrowserRun {
    fn prepare(self) -> (r: BrowserStep)
        ensures
            r == BrowserStep::Continue(self.ready()),
    {
        if self.publishes {
            self.goes(BrowserPhase::Observation)
        } else {
            self.goes(BrowserPhase::Dispatch)
        }
    }

    fn on_target(self, session: &mut ComputerUseSession, resolved: ComputerUseResult<WindowTarget>)
        -> (r: BrowserStep)
        requires
            self.phase == BrowserPhase::Target,
            self.well_formed(),
        ensures
            browser_step(
                self,
                *old(session),
                0,
                ToolRunReply::Target(resolved),
                *final(session),
                r,
            ),
            r matches Step::Continue(next) ==> next.well_formed(),
    {
        let target = match session.require_observed_target_available(resolved) {
            Ok(target) => target,
            Err(error) => return Step::Done(Err(error)),
        };
        let arguments = match bind_browser_arguments(
            self.name.as_str(),
            &self.arguments,
            &target,
            session.session_id.as_str(),
        ) {
            Ok(arguments) => arguments,
            Err(error) => return Step::Done(Err(error)),
        };
        let mut run = self;
        run.arguments = arguments;
        match run.route {
            BrowserToolDisposition::PotentialMutation => run.goes(BrowserPhase::Input),
            BrowserToolDisposition::ReadOnlyEvidence => run.prepare(),
        }
    }

    fn on_dispatched(self, session: &mut ComputerUseSession, outcome: DispatchOutcome<ToolAnswer>)
        -> (r: BrowserStep)
        requires
            self.phase == BrowserPhase::Dispatch,
        ensures
            browser_dispatch_step(self, *old(session), outcome, *final(session), r),
            r matches Step::Continue(next) ==> next.well_formed(),
    {
        let ghost before = *session;
        let called = session.dispatch_browser_tool(&self, outcome);
        assert(is_browser_call(self, before, outcome, *session, called));
        match called {
            Ok(reply) => {
                if self.publishes {
                    let mut run = self;
                    run.answer = Some(reply);
                    return run.goes(BrowserPhase::ObservationAfter);
                }
                session.finish_browser_value(self.name.as_str(), &reply)
            },
            Err(error) => Step::Done(Err(error)),
        }
    }

    /// Takes the answer to the run's request in. An answer to some other
    /// request changes nothing.
    pub fn advance(self, session: &mut ComputerUseSession, now_ms: u64, reply: ToolRunReply) -> (r:
        BrowserStep)
        requires
            self.well_formed(),
        ensures
            browser_step(self, *old(session), now_ms, reply, *final(session), r),
            r matches Step::Continue(next) ==> next.well_formed(),
    {
        match (self.phase, reply) {
            (BrowserPhase::RefreshGate, ToolRunReply::Gate(gate)) => {
                match session.gate_upstream_refresh(gate) {
                    Ok(()) => self.goes(BrowserPhase::Refresh),
                    Err(error) => Step::Done(Err(error)),
                }
            },
            (BrowserPhase::Refresh, ToolRunReply::Refreshed(result)) => {
                match session.finish_upstream_refresh(result, now_ms) {
                    Ok(()) => self.goes(BrowserPhase::Target),
                    Err(error) => Step::Done(Err(error)),
                }
            },
            (BrowserPhase::Target, ToolRunReply::Target(resolved)) => self.on_target(
                session,
                resolved,
            ),
            (BrowserPhase::Input, ToolRunReply::Gate(gate)) => {
                match session.finish_observation_sensitive_attempt(gate) {
                    Ok(()) => self.prepare(),
                    Err(error) => Step::Done(Err(error)),
                }
            },
            (BrowserPhase::Observation, ToolRunReply::Gate(gate)) => {
                match session.finish_observation_sensitive_attempt(gate) {
                    Ok(()) => self.goes(BrowserPhase::Dispatch),
                    Err(error) => Step::Done(Err(error)),
                }
            },
            (BrowserPhase::Dispatch, ToolRunReply::Dispatched(outcome)) => self.on_dispatched(
                session,
                outcome,
            ),
            (BrowserPhase::ObservationAfter, ToolRunReply::Gate(gate)) => {
                match session.finish_observation_sensitive_attempt(gate) {
                    Ok(()) => self.goes(BrowserPhase::TargetAfter),
                    Err(error) => Step::Done(Err(error)),
                }
            },
            (BrowserPhase::TargetAfter, ToolRunReply::Target(resolved)) => {
                match session.require_observed_target_available(resolved) {
                    Ok(_) => {
                        let reply = self.answer.unwrap();
                        session.finish_browser_value(self.name.as_str(), &reply)
                    },
                    Err(error) => Step::Done(Err(error)),
                }
            },
            _ => Step::Continue(self),
        }
    }
}

/// An answer that the driver gave and that reports success is handed on as it
/// stands, and leaves the session as it was; a call that failed, or an answer that
/// reports failure, is that failure.
pub proof fn law_answers_are_handed_on(
    before: ComputerUseSession,
    result: ComputerUseResult<ToolAnswer>,
    after: ComputerUseSession,
    r: ComputerUseResult<AcceptedAnswer>,
)
    requires
        is_tool_outcome(before, result, after, r),
    ensures
        result matches Err(error) ==> r == Err::<AcceptedAnswer, ComputerUseError>(error),
        (result matches Ok(answer) && answer.accepted is Err) ==> r == Err::<
            AcceptedAnswer,
            ComputerUseError,
        >(result->Ok_0.accepted->Err_0),
        (result matches Ok(answer) && answer.accepted is Ok) ==> (r matches Ok(accepted)
            && accepted.reply == result->Ok_0.reply && accepted.result == result->Ok_0.result)
            && after == before,
{
}

/// A call that may change something is over with its answer: one that came is
/// handed on and takes the evidence with it, and one that was lost on the way ends
/// the session.
pub proof fn law_mutating_calls_hand_the_answer_on(
    before: ComputerUseSession,
    name: Seq<char>,
    outcome: DispatchOutcome<ToolAnswer>,
    after: ComputerUseSession,
    r: ComputerUseResult<AcceptedAnswer>,
)
    requires
        is_mutating_call(before, name, outcome, after, r),
    ensures
        r matches Ok(accepted) ==> (outcome matches DispatchOutcome::Completed(answer)
            && answer.accepted is Ok && accepted.reply == answer.reply && accepted.result
            == answer.result) && after.observation is None && after.active == before.active,
        (outcome matches DispatchOutcome::Completed(answer) && answer.accepted is Ok) ==> r is Ok,
        (outcome matches DispatchOutcome::Completed(answer) && answer.accepted is Err) ==> r
            == Err::<AcceptedAnswer, ComputerUseError>(outcome->Completed_0.accepted->Err_0),
        outcome is ConnectionLost || outcome is NotReturned ==> r is Err && !after.active,
        outcome is ToolFailed || outcome is Refused ==> r is Err,
{
}

/// A tool is called by the name given, with the arguments given, in an active
/// session with current evidence, where its route allows it.
pub proof fn law_tool_calls_begin_as_asked(
    before: ComputerUseSession,
    name: String,
    arguments: Json,
    validation: ComputerUseResult<()>,
    allowed: bool,
    now_ms: u64,
    after: ComputerUseSession,
    r: ComputerUseResult<ExtensionRun>,
)
    requires
        tool_call_begins(before, name, arguments, validation, allowed, now_ms, after, r),
    ensures
        r is Ok <==> validation is Ok && allowed && before.active && before.evidence_current(now_ms),
        r matches Ok(run) ==> run.name == name && run.arguments == arguments && run.asks()
            == ToolRequest::CheckInput && run.answer is None && after == before,
        validation matches Err(error) ==> r == Err::<ExtensionRun, ComputerUseError>(error),
        after.active == before.active,
{
}

/// A tool's call keeps its name; its arguments are bound to the window that was
/// found usable and to the session; it is sent only past its input gate, a usable
/// window found twice and an observation gate; and it ends with what the driver
/// answered.
pub proof fn law_tool_calls_hand_the_answer_on(
    run: ExtensionRun,
    before: ComputerUseSession,
    reply: ToolRunReply,
    after: ComputerUseSession,
    step: ExtensionStep,
)
    requires
        run.well_formed(),
        extension_step(run, before, reply, after, step),
    ensures
        step matches Step::Continue(next) ==> {
            &&& next.name == run.name
            &&& run.phase != ExtensionPhase::Schema ==> next.arguments == run.arguments
            &&& run.phase == ExtensionPhase::Target && next.phase != run.phase ==> (
            reply matches ToolRunReply::Target(Ok(target)) && is_usable_target(before, Ok(target))
                && next.target == Some(target))
            &&& run.phase != ExtensionPhase::Target ==> next.target == run.target
            &&& run.phase == ExtensionPhase::Dispatch && next.phase != run.phase ==> (
            reply matches ToolRunReply::Dispatched(DispatchOutcome::Completed(answer))
                && answer.accepted is Ok && next.answer is Some && next.answer->0.result
                == answer.result && next.answer->0.reply == answer.reply)
            &&& run.phase == ExtensionPhase::ObservationAfter ==> next.answer == run.answer
            &&& next.phase == ExtensionPhase::Target && next.phase != run.phase ==> reply is Gate
                && reply->Gate_0 is Ok && run.asks() == ToolRequest::CheckInput
            &&& next.phase == ExtensionPhase::Observation && next.phase != run.phase
                ==> reply is Target && is_usable_target(before, reply->Target_0)
            &&& next.phase == ExtensionPhase::Dispatch && next.phase != run.phase ==> reply is Gate
                && reply->Gate_0 is Ok && run.phase == ExtensionPhase::Observation
            &&& next.phase == ExtensionPhase::TargetAfter && next.phase != run.phase
                ==> reply is Gate && reply->Gate_0 is Ok
        },
        step matches Step::Done(Ok(result)) ==> run.phase == ExtensionPhase::TargetAfter
            && reply is Target && is_usable_target(before, reply->Target_0)
            && run.answer->0.result == Ok::<ComputerUseToolResult, ComputerUseError>(result)
            && after == before,
        run.phase == ExtensionPhase::Schema && reply is Schema && reply->Schema_0 is Err ==> step
            == ExtensionStep::Done(Err(reply->Schema_0->Err_0)),
        reply is Gate && reply->Gate_0 is Err && (run.asks() == ToolRequest::CheckInput
            || run.asks() == ToolRequest::CheckObservation) ==> step == ExtensionStep::Done(
            Err(reply->Gate_0->Err_0),
        ),
        reply is Target && !is_usable_target(before, reply->Target_0) && run.asks()
            == ToolRequest::ResolveTarget ==> (step matches Step::Done(Err(_))),
{
}

/// The arguments that a tool is called with are the caller's, but for the window
/// and the session, which are the bound ones wherever the schema takes them.
pub proof fn law_tool_calls_are_bound_by_their_schema(
    run: ExtensionRun,
    before: ComputerUseSession,
    schema: Json,
    properties: Map<Seq<char>, JsonTree>,
    after: ComputerUseSession,
    next: ExtensionRun,
    key: Seq<char>,
)
    requires
        run.phase == ExtensionPhase::Schema,
        run.well_formed(),
        schema.view().get("properties"@) == Some(JsonTree::Object(properties)),
        extension_step(
            run,
            before,
            ToolRunReply::Schema(Ok(schema)),
            after,
            ExtensionStep::Continue(next),
        ),
    ensures
        key != "pid"@ && key != "window_id"@ && key != "session"@ ==> next.arguments.view().get(key)
            == run.arguments.view().get(key),
        properties.dom().contains("pid"@) ==> next.arguments.view().u64_at("pid"@) == Some(
            run.target->0.pid as u64,
        ),
        properties.dom().contains("window_id"@) ==> next.arguments.view().u64_at("window_id"@)
            == Some(run.target->0.window_id),
        properties.dom().contains("session"@) ==> next.arguments.view().text_at("session"@) == Some(
            before.session_id@,
        ),
        !properties.dom().contains("pid"@) ==> next.arguments.view().get("pid"@) is None,
        !properties.dom().contains("window_id"@) ==> next.arguments.view().get("window_id"@)
            is None,
        !properties.dom().contains("session"@) ==> next.arguments.view().get("session"@) is None,
        next.phase == ExtensionPhase::TargetAgain,
        after == before,
{
    reveal_strlit("pid");
    reveal_strlit("window_id");
    reveal_strlit("session");
    assert("pid"@.len() == 3);
    assert("window_id"@.len() == 9);
    assert("session"@.len() == 7);
}

/// A browser tool is called on its route: one that may change the page needs
/// current evidence, one that only reads it may be refreshed first, and what it
/// reads, or prepares, is published past the gates.
pub proof fn law_browser_calls_begin_on_their_route(
    before: ComputerUseSession,
    name: String,
    arguments: Json,
    validation: ComputerUseResult<()>,
    now_ms: u64,
    after: ComputerUseSession,
    r: ComputerUseResult<BrowserRun>,
)
    requires
        browser_call_begins(before, name, arguments, validation, now_ms, after, r),
    ensures
        r is Ok <==> validation is Ok && before.active && arguments.view() is Object
            && browser_route(name@, arguments.view()) is Some && (browser_route(
            name@,
            arguments.view(),
        ) == Some(BrowserToolDisposition::PotentialMutation) ==> before.evidence_current(now_ms)),
        r matches Ok(run) ==> {
            &&& run.name == name
            &&& run.arguments == arguments
            &&& Some(run.route) == browser_route(name@, arguments.view())
            &&& run.publishes == (run.route == BrowserToolDisposition::ReadOnlyEvidence || name@
                == "browser_prepare"@)
            &&& run.asks() == ToolRequest::CheckInput <==> run.route
                == BrowserToolDisposition::ReadOnlyEvidence && before.refresh_needed(now_ms)
            &&& after == before
        },
        validation matches Err(error) ==> r == Err::<BrowserRun, ComputerUseError>(error),
        after.active == before.active,
{
}

/// What a browser tool answered is handed on: a call that went through keeps the
/// reply, and a navigation that failed keeps it too.
pub proof fn law_browser_answers_are_handed_on(
    run: BrowserRun,
    before: ComputerUseSession,
    outcome: DispatchOutcome<ToolAnswer>,
    after: ComputerUseSession,
    r: ComputerUseResult<ToolReply>,
)
    requires
        is_browser_call(run, before, outcome, after, r),
    ensures
        r matches Ok(reply) ==> (outcome matches DispatchOutcome::Completed(answer) && reply
            == answer.reply),
        (outcome matches DispatchOutcome::Completed(answer) && answer.accepted is Ok) ==> r is Ok,
        (outcome matches DispatchOutcome::Completed(answer) && run.name@ == "browser_navigate"@
            && answer.reply.is_error) ==> r is Ok,
        (outcome matches DispatchOutcome::Completed(answer) && answer.accepted is Err && !(
        run.name@ == "browser_navigate"@ && answer.reply.is_error)) ==> r == Err::<
            ToolReply,
            ComputerUseError,
        >(outcome->Completed_0.accepted->Err_0),
        !(outcome is Completed) ==> r is Err,
        run.route == BrowserToolDisposition::PotentialMutation && outcome is Completed
            ==> after.observation is None,
        run.route == BrowserToolDisposition::ReadOnlyEvidence && r is Ok ==> after == before,
{
}

/// A browser tool's call keeps its name and its route; it is bound to the session;
/// what may change the page passes the input gate first, what is published passes
/// an observation gate; and it ends with what the driver answered.
pub proof fn law_browser_calls_pass_their_gates(
    run: BrowserRun,
    before: ComputerUseSession,
    now_ms: u64,
    reply: ToolRunReply,
    after: ComputerUseSession,
    next: BrowserRun,
)
    requires
        run.well_formed(),
        browser_step(run, before, now_ms, reply, after, BrowserStep::Continue(next)),
        next.phase != run.phase,
    ensures
        next.name == run.name,
        next.route == run.route,
        next.publishes == run.publishes,
        run.phase != BrowserPhase::Target ==> next.arguments == run.arguments,
        run.phase == BrowserPhase::Target ==> (reply matches ToolRunReply::Target(Ok(target))
            && is_usable_target(before, Ok(target))) && next.arguments.view().text_at("session"@)
            == Some(before.session_id@),
        next.phase == BrowserPhase::Dispatch ==> (run.publishes ==> run.phase
            == BrowserPhase::Observation && reply is Gate && reply->Gate_0 is Ok) && (run.route
            == BrowserToolDisposition::PotentialMutation ==> (run.phase == BrowserPhase::Input
            || run.phase == BrowserPhase::Observation) && reply is Gate && reply->Gate_0 is Ok),
        run.phase == BrowserPhase::Target && run.route == BrowserToolDisposition::PotentialMutation
            ==> next.phase == BrowserPhase::Input,
        run.phase == BrowserPhase::Dispatch ==> run.publishes && next.phase
            == BrowserPhase::ObservationAfter && next.answer is Some && (
        reply matches ToolRunReply::Dispatched(DispatchOutcome::Completed(answer)) && next.answer
            == Some(answer.reply)),
        run.phase == BrowserPhase::ObservationAfter ==> next.answer == run.answer && reply is Gate
            && reply->Gate_0 is Ok,
{
    reveal_strlit("pid");
    reveal_strlit("window_id");
    reveal_strlit("session");
    assert("pid"@.len() == 3);
    assert("window_id"@.len() == 9);
    assert("session"@.len() == 7);
}

/// A browser tool ends with the answer that was kept, or that just came, read as
/// JSON; what is published shows a window that was found usable once more. A refused
/// gate, or a window that is not usable, is the error.
pub proof fn law_browser_calls_end_with_the_answer(
    run: BrowserRun,
    before: ComputerUseSession,
    now_ms: u64,
    reply: ToolRunReply,
    after: ComputerUseSession,
    outcome: ComputerUseResult<Json>,
)
    requires
        run.well_formed(),
        browser_step(run, before, now_ms, reply, after, BrowserStep::Done(outcome)),
    ensures
        outcome matches Ok(value) ==> {
            ||| run.phase == BrowserPhase::TargetAfter && reply is Target && is_usable_target(
                before,
                reply->Target_0,
            ) && parsed_text(run.answer->0.raw_json@) == Ok::<JsonTree, Seq<char>>(value.view())
            ||| run.phase == BrowserPhase::Dispatch && !run.publishes && (
            reply matches ToolRunReply::Dispatched(DispatchOutcome::Completed(answer))
                && parsed_text(answer.reply.raw_json@) == Ok::<JsonTree, Seq<char>>(value.view()))
        },
        reply is Gate && reply->Gate_0 is Err && run.phase != BrowserPhase::RefreshGate ==> outcome
            == Err::<Json, ComputerUseError>(reply->Gate_0->Err_0),
        reply is Gate && reply->Gate_0 is Err && run.phase == BrowserPhase::RefreshGate ==> (
        outcome matches Err(error) && error.message@ == reply->Gate_0->Err_0.message@),
        reply is Refreshed ==> (outcome matches Err(error) && error.message@
            == reply->Refreshed_0->Err_0.message@) && after.observation is None,
        reply is Target && !is_usable_target(before, reply->Target_0) ==> outcome is Err,
{
}

} // verus!
