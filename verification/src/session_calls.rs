//! Shorter tool calls of a session: downloads, the cursor, menus, window
//! frames, the clipboard, and the session's own state.

#[allow(unused_imports)]
use crate::application::with_text;
use crate::contracts::{
    ComputerUseClipboardWriteRequest, ComputerUseMenuRequest, ComputerUseToolResult,
};
use crate::driver::{parse_bound_tool_value, validated_action_effect, DispatchOutcome, ToolReply};
#[allow(unused_imports)]
use crate::driver::invalid_json_message;
use crate::errors::{ComputerUseError, ComputerUseErrorCode, ComputerUseResult};
#[allow(unused_imports)]
use crate::errors::{fails_with, refuses, Refusal};
use crate::json::{put_member, Json, JsonMember};
#[allow(unused_imports)]
use crate::json::{parsed_text, unsigned_tree, JsonTree};
use crate::session::{BannerActivity, ComputerUseSession};
#[allow(unused_imports)]
use crate::session::{
    is_evidence_failure, is_refresh_failure, is_revalidation_failure, is_usable_target,
};
use crate::session_tools::{AcceptedAnswer, ToolAnswer, ToolRequest, ToolRunReply};
#[allow(unused_imports)]
use crate::session_tools::{is_mutating_call, is_tool_outcome};
use crate::steps::Step;
#[allow(unused_imports)]
use crate::steps::{
    refused_gate_stops, stale_evidence_stops, stops, stops_plainly, stops_sensitively,
    unusable_target_stops,
};
use crate::text::text_eq;
use crate::tool_binding::{bind_download_arguments, bind_session, tool_failure};
#[allow(unused_imports)]
use crate::tool_binding::{session_members, tool_message};
use crate::window_target::WindowTarget;
use vstd::prelude::*;

verus! {

/// The step ends with the value of a reply, or with why it has none.
pub open spec fn ends_with_value<Run>(
    name: Seq<char>,
    raw_json: Seq<char>,
    step: Step<Run, Json>,
) -> bool {
    match parsed_text(raw_json) {
        Ok(tree) => step matches Step::Done(Ok(value)) && value.view() == tree,
        Err(message) => stops_plainly(
            step,
            ComputerUseErrorCode::BackendUnavailable,
            invalid_json_message(name, message),
        ),
    }
}

/// Where a download is in its course.
#[derive(Debug, Clone, Copy, PartialEq, Eq, Structural)]
pub enum DownloadPhase {
    Target,
    Input,
    Dispatch,
}

/// A browser download. Only the host approves it; a caller cannot.
#[derive(Debug)]
pub struct DownloadRun {
    pub phase: DownloadPhase,
    pub arguments: Json,
}

pub type DownloadStep = Step<DownloadRun, Json>;

impl DownloadRun {
    pub open spec fn asks(self) -> ToolRequest {
        match self.phase {
            DownloadPhase::Target => ToolRequest::ResolveTarget,
            DownloadPhase::Input => ToolRequest::CheckInput,
            DownloadPhase::Dispatch => ToolRequest::CallTool,
        }
    }

    pub fn request(&self) -> (r: ToolRequest)
        ensures
            r == self.asks(),
    {
        match self.phase {
            DownloadPhase::Target => ToolRequest::ResolveTarget,
            DownloadPhase::Input => ToolRequest::CheckInput,
            DownloadPhase::Dispatch => ToolRequest::CallTool,
        }
    }
}

/// What came of the download.
pub open spec fn download_dispatch_step(
    before: ComputerUseSession,
    outcome: DispatchOutcome<ToolAnswer>,
    after: ComputerUseSession,
    step: DownloadStep,
) -> bool {
    exists|r: ComputerUseResult<AcceptedAnswer>|
        {
            &&& #[trigger] is_mutating_call(before, "browser_download"@, outcome, after, r)
            &&& match r {
                Err(error) => stops(step, error),
                Ok(answer) => ends_with_value(
                    "browser_download"@,
                    answer.reply.raw_json@,
                    step,
                ),
            }
        }
}

/// One step of a download.
pub open spec fn download_step(
    run: DownloadRun,
    before: ComputerUseSession,
    reply: ToolRunReply,
    after: ComputerUseSession,
    step: DownloadStep,
) -> bool {
    match (run.phase, reply) {
        (DownloadPhase::Target, ToolRunReply::Target(resolved)) => {
            &&& unusable_target_stops(before, resolved, after, step)
            &&& is_usable_target(before, resolved) ==> after == before && step
                == DownloadStep::Continue(DownloadRun { phase: DownloadPhase::Input, ..run })
        },
        (DownloadPhase::Input, ToolRunReply::Gate(gate)) => {
            &&& refused_gate_stops(before, gate, after, step)
            &&& gate is Ok ==> after == before && match run.arguments.view() {
                JsonTree::Object(members) => {
                    &&& step matches Step::Continue(next)
                    &&& next.phase == DownloadPhase::Dispatch
                    &&& next.arguments.view() == JsonTree::Object(
                        session_members(members, before.session_id@).insert(
                            "_cua_browser_download_mcp_host_approved"@,
                            JsonTree::Bool(true),
                        ),
                    )
                },
                _ => stops_plainly(
                    step,
                    ComputerUseErrorCode::InvalidAction,
                    "browser download arguments must be a JSON object"@,
                ),
            }
        },
        (DownloadPhase::Dispatch, ToolRunReply::Dispatched(outcome)) => download_dispatch_step(
            before,
            outcome,
            after,
            step,
        ),
        _ => after == before && step == DownloadStep::Continue(run),
    }
}

/// A download begins as it was asked for.
pub open spec fn download_begins(before: ComputerUseSession, arguments: Json, validation: ComputerUseResult<()>, now_ms: u64, after: ComputerUseSession, r: ComputerUseResult<DownloadRun>) -> bool {
    if validation is Err {
        after == before && r == Err::<DownloadRun, ComputerUseError>(
            validation->Err_0,
        )
    } else if !before.active {
        after == before && fails_with(
            r,
            ComputerUseErrorCode::BackendUnavailable,
            "Computer Use session is not active"@,
        )
    } else if before.evidence_current(now_ms) {
        after == before && r == Ok::<DownloadRun, ComputerUseError>(
            DownloadRun { phase: DownloadPhase::Target, arguments },
        )
    } else {
        &&& r matches Err(error)
        &&& is_evidence_failure(before, now_ms, error)
        &&& after == before.without_evidence()
    }
}

impl ComputerUseSession {
    /// Begins a download.
    pub fn begin_browser_download(
        &mut self,
        arguments: Json,
        validation: ComputerUseResult<()>,
        now_ms: u64,
    ) -> (r: ComputerUseResult<DownloadRun>)
        ensures
            download_begins(*old(self), arguments, validation, now_ms, *final(self), r),
    {
        match validation {
            Ok(()) => {},
            Err(error) => return Err(error),
        }
        match self.ensure_active() {
            Ok(()) => {},
            Err(error) => return Err(error),
        }
        match self.require_current_upstream_session_for_evidence(now_ms) {
            Ok(()) => Ok(DownloadRun { phase: DownloadPhase::Target, arguments }),
            Err(error) => Err(error),
        }
    }
}

impl DownloadRun {
    /// Takes the answer to the run's request in. An answer to some other
    /// request changes nothing.
    pub fn advance(self, session: &mut ComputerUseSession, reply: ToolRunReply) -> (r: DownloadStep)
        ensures
            download_step(self, *old(session), reply, *final(session), r),
    {
        match (self.phase, reply) {
            (DownloadPhase::Target, ToolRunReply::Target(resolved)) => {
                match session.require_observed_target_available(resolved) {
                    Ok(_) => Step::Continue(
                        DownloadRun { phase: DownloadPhase::Input, arguments: self.arguments },
                    ),
                    Err(error) => Step::Done(Err(error)),
                }
            },
            (DownloadPhase::Input, ToolRunReply::Gate(gate)) => {
                match session.finish_observation_sensitive_attempt(gate) {
                    Ok(()) => {},
                    Err(error) => return Step::Done(Err(error)),
                }
                match bind_download_arguments(&self.arguments, session.session_id.as_str()) {
                    Ok(arguments) => Step::Continue(
                        DownloadRun { phase: DownloadPhase::Dispatch, arguments },
                    ),
                    Err(error) => Step::Done(Err(error)),
                }
            },
            (DownloadPhase::Dispatch, ToolRunReply::Dispatched(outcome)) => {
                let ghost before = *session;
                let called = session.finish_mutating_call("browser_download", outcome);
                assert(is_mutating_call(
                    before,
                    "browser_download"@,
                    outcome,
                    *session,
                    called,
                ));
                match called {
                    Ok(answer) => Step::Done(
                        parse_bound_tool_value(
                            "browser_download",
                            answer.reply.raw_json.as_str(),
                        ),
                    ),
                    Err(error) => Step::Done(Err(error)),
                }
            },
            _ => Step::Continue(self),
        }
    }
}

/// Where a cursor operation is in its course.
#[derive(Debug, Clone, Copy, PartialEq, Eq, Structural)]
pub enum CursorPhase {
    /// Input, before a move is even looked at.
    FirstInput,
    Input,
    Target,
    TargetInput,
    /// The place of the move on the desktop.
    Place,
    Dispatch,
    TargetAfter,
    InputAfter,
    /// The target of an operation that moves nothing.
    Revalidate,
    Call,
}

/// An operation on the visible cursor of the session.
#[derive(Debug)]
pub struct CursorRun {
    pub phase: CursorPhase,
    pub name: String,
    pub arguments: Json,
    /// What the cursor's visibility is set to.
    pub enabled: Option<bool>,
    pub target: Option<WindowTarget>,
    pub answer: Option<ToolReply>,
}

pub type CursorStep = Step<CursorRun, Json>;

impl CursorRun {
    pub open spec fn at(self, phase: CursorPhase) -> CursorRun {
        CursorRun { phase, ..self }
    }

    /// The run holds what its phase needs.
    pub open spec fn well_formed(self) -> bool {
        &&& self.phase == CursorPhase::InputAfter ==> self.answer is Some
        &&& self.phase == CursorPhase::TargetAfter ==> self.answer is Some
        &&& self.phase == CursorPhase::Revalidate ==> self.arguments.view() is Object
    }

    pub open spec fn asks(self) -> ToolRequest {
        match self.phase {
            CursorPhase::FirstInput => ToolRequest::CheckInput,
            CursorPhase::Input => ToolRequest::CheckInput,
            CursorPhase::Target => ToolRequest::ResolveTarget,
            CursorPhase::TargetInput => ToolRequest::CheckInput,
            CursorPhase::Place => ToolRequest::MapPointer,
            CursorPhase::Dispatch => ToolRequest::CallTool,
            CursorPhase::TargetAfter => ToolRequest::ResolveTarget,
            CursorPhase::InputAfter => ToolRequest::CheckInput,
            CursorPhase::Revalidate => ToolRequest::ResolveTarget,
            CursorPhase::Call => ToolRequest::CallTool,
        }
    }

    pub fn request(&self) -> (r: ToolRequest)
        ensures
            r == self.asks(),
    {
        match self.phase {
            CursorPhase::FirstInput => ToolRequest::CheckInput,
            CursorPhase::Input => ToolRequest::CheckInput,
            CursorPhase::Target => ToolRequest::ResolveTarget,
            CursorPhase::TargetInput => ToolRequest::CheckInput,
            CursorPhase::Place => ToolRequest::MapPointer,
            CursorPhase::Dispatch => ToolRequest::CallTool,
            CursorPhase::TargetAfter => ToolRequest::ResolveTarget,
            CursorPhase::InputAfter => ToolRequest::CheckInput,
            CursorPhase::Revalidate => ToolRequest::ResolveTarget,
            CursorPhase::Call => ToolRequest::CallTool,
        }
    }

    fn goes(self, phase: CursorPhase) -> (r: CursorStep)
        ensures
            r == CursorStep::Continue(self.at(phase)),
    {
        let mut run = self;
        run.phase = phase;
        Step::Continue(run)
    }
}

impl CursorRun {
    /// What the banner shows while the run waits for its answer.
    pub open spec fn shows_activity(self) -> Option<BannerActivity> {
        if self.phase == CursorPhase::FirstInput {
            None
        } else {
            Some(BannerActivity::Operating)
        }
    }

    /// What the banner shows while the run waits for its answer.
    pub fn activity(&self) -> (r: Option<BannerActivity>)
        ensures
            r == self.shows_activity(),
    {
        if self.phase == CursorPhase::FirstInput {
            None
        } else {
            Some(BannerActivity::Operating)
        }
    }
}

/// The operation moves the cursor.
pub open spec fn moves_cursor(name: Seq<char>) -> bool {
    name == "move_cursor"@
}

/// Why the arguments of a cursor operation are refused.
pub open spec fn cursor_arguments_refusal(arguments: JsonTree) -> Refusal {
    if !(arguments is Object) {
        Some(
            (
                ComputerUseErrorCode::InvalidAction,
                "cursor tool arguments must be a JSON object"@,
            ),
        )
    } else if arguments.get("session"@) is Some {
        Some((ComputerUseErrorCode::InvalidAction, "cursor tool session is host-owned"@))
    } else {
        None
    }
}

/// What the cursor's visibility is to be set to, where it is.
pub open spec fn asked_visibility(name: Seq<char>, arguments: JsonTree) -> Option<bool> {
    if name == "set_agent_cursor_enabled"@ {
        arguments.bool_at("enabled"@)
    } else {
        None
    }
}

/// The end of a cursor operation: what it returned, and the marker.
pub open spec fn cursor_value(
    run: CursorRun,
    raw_json: Seq<char>,
    before: ComputerUseSession,
    after: ComputerUseSession,
    step: CursorStep,
) -> bool {
    &&& ends_with_value(run.name@, raw_json, step)
    &&& after == match parsed_text(raw_json) {
        Err(_) => before,
        Ok(_) => match run.enabled {
            Some(enabled) => (ComputerUseSession {
                marker: crate::contracts::ComputerUseMarker { visible: enabled, ..before.marker },
                ..before
            }).showing(BannerActivity::Ready),
            None => before.showing(BannerActivity::Ready),
        },
    }
}

/// What came of a move of the cursor.
pub open spec fn cursor_dispatch_step(
    run: CursorRun,
    before: ComputerUseSession,
    outcome: DispatchOutcome<ToolAnswer>,
    after: ComputerUseSession,
    step: CursorStep,
) -> bool {
    exists|middle: ComputerUseSession, r: ComputerUseResult<AcceptedAnswer>|
        {
            &&& #[trigger] is_mutating_call(before, run.name@, outcome, middle, r)
            &&& match r {
                Err(error) => stops_sensitively(middle, error, after, step),
                Ok(answer) => after == middle && step == CursorStep::Continue(
                    CursorRun { answer: Some(answer.reply), ..run }.at(CursorPhase::TargetAfter),
                ),
            }
        }
}

/// What came of a cursor operation that moves nothing.
pub open spec fn cursor_call_step(
    run: CursorRun,
    before: ComputerUseSession,
    result: ComputerUseResult<ToolAnswer>,
    after: ComputerUseSession,
    step: CursorStep,
) -> bool {
    exists|middle: ComputerUseSession, r: ComputerUseResult<AcceptedAnswer>|
        {
            &&& #[trigger] is_tool_outcome(before, result, middle, r)
            &&& match r {
                Err(error) => after == middle && stops(step, error),
                Ok(answer) => cursor_value(run, answer.reply.raw_json@, middle, after, step),
            }
        }
}

/// One step of a cursor operation.
pub open spec fn cursor_step(
    run: CursorRun,
    before: ComputerUseSession,
    now_ms: u64,
    reply: ToolRunReply,
    after: ComputerUseSession,
    step: CursorStep,
) -> bool {
    match (run.phase, reply) {
        (CursorPhase::FirstInput, ToolRunReply::Gate(gate)) => {
            &&& refused_gate_stops(before, gate, after, step)
            &&& gate is Ok ==> if before.evidence_current(now_ms) {
                after == before && step == CursorStep::Continue(run.at(CursorPhase::Input))
            } else {
                stale_evidence_stops(before, now_ms, after, step)
            }
        },
        (CursorPhase::Input, ToolRunReply::Gate(gate)) => {
            &&& refused_gate_stops(before, gate, after, step)
            &&& gate is Ok ==> after == before && step == CursorStep::Continue(
                run.at(CursorPhase::Target),
            )
        },
        (CursorPhase::Target, ToolRunReply::Target(resolved)) => {
            &&& unusable_target_stops(before, resolved, after, step)
            &&& is_usable_target(before, resolved) ==> after == before && step
                == CursorStep::Continue(
                CursorRun { target: Some(resolved->Ok_0), ..run }.at(CursorPhase::TargetInput),
            )
        },
        (CursorPhase::TargetInput, ToolRunReply::Gate(gate)) => {
            &&& refused_gate_stops(before, gate, after, step)
            &&& gate is Ok ==> after == before && step == CursorStep::Continue(
                run.at(CursorPhase::Place),
            )
        },
        (CursorPhase::Place, ToolRunReply::Mapped(mapped)) => match mapped {
            Err(error) => after == before && stops(step, error),
            Ok(arguments) => after == before && match arguments.view() {
                JsonTree::Object(members) => {
                    &&& step matches Step::Continue(next)
                    &&& next == (CursorRun { arguments: next.arguments, ..run }).at(
                        CursorPhase::Dispatch,
                    )
                    &&& next.arguments.view() == JsonTree::Object(
                        session_members(members, before.session_id@),
                    )
                },
                _ => stops_plainly(
                    step,
                    ComputerUseErrorCode::InvalidAction,
                    "bound CUA tool arguments must be a JSON object"@,
                ),
            },
        },
        (CursorPhase::Dispatch, ToolRunReply::Dispatched(outcome)) => cursor_dispatch_step(
            run,
            before,
            outcome,
            after,
            step,
        ),
        (CursorPhase::TargetAfter, ToolRunReply::Target(resolved)) => {
            &&& unusable_target_stops(before, resolved, after, step)
            &&& is_usable_target(before, resolved) ==> after == before && step
                == CursorStep::Continue(run.at(CursorPhase::InputAfter))
        },
        (CursorPhase::InputAfter, ToolRunReply::Gate(gate)) => {
            &&& refused_gate_stops(before, gate, after, step)
            &&& gate is Ok ==> cursor_value(run, run.answer->0.raw_json@, before, after, step)
        },
        (CursorPhase::Revalidate, ToolRunReply::Target(resolved)) => if (
        resolved matches Ok(target) && before.target matches Some(bound) && target.same_window(
            bound,
        )) {
            if before.evidence_current(now_ms) {
                &&& after == before
                &&& step matches Step::Continue(next)
                &&& next == (CursorRun { arguments: next.arguments, ..run }).at(CursorPhase::Call)
                &&& next.arguments.view() == JsonTree::Object(
                    session_members(run.arguments.view()->Object_0, before.session_id@),
                )
            } else {
                stale_evidence_stops(before, now_ms, after, step)
            }
        } else {
            &&& step matches Step::Done(Err(error))
            &&& is_revalidation_failure(before, resolved, error)
            &&& after == before.after_failure(error.code)
        },
        (CursorPhase::Call, ToolRunReply::Called(result)) => cursor_call_step(
            run,
            before,
            result,
            after,
            step,
        ),
        _ => after == before && step == CursorStep::Continue(run),
    }
}

/// A cursor tool begins as it was asked for.
pub open spec fn cursor_tool_begins(session: ComputerUseSession, name: String, arguments: Json, allowed: bool, validation: ComputerUseResult<()>, movable: ComputerUseResult<()>, r: ComputerUseResult<CursorRun>) -> bool {
    if !allowed {
        fails_with(
            r,
            ComputerUseErrorCode::InvalidAction,
            tool_message("cursor tool "@, name@, " is not exposed by this host"@),
        )
    } else if validation is Err {
        r == Err::<CursorRun, ComputerUseError>(validation->Err_0)
    } else if cursor_arguments_refusal(arguments.view()) is Some {
        refuses(r, cursor_arguments_refusal(arguments.view()))
    } else if moves_cursor(name@) && movable is Err {
        r == Err::<CursorRun, ComputerUseError>(movable->Err_0)
    } else if name@ == "set_agent_cursor_enabled"@ && asked_visibility(
        name@,
        arguments.view(),
    ) is None {
        fails_with(
            r,
            ComputerUseErrorCode::InvalidAction,
            "set_agent_cursor_enabled requires enabled"@,
        )
    } else if !session.active {
        fails_with(
            r,
            ComputerUseErrorCode::BackendUnavailable,
            "Computer Use session is not active"@,
        )
    } else {
        &&& r == Ok::<CursorRun, ComputerUseError>(
            CursorRun {
                phase: if moves_cursor(name@) {
                    CursorPhase::FirstInput
                } else {
                    CursorPhase::Revalidate
                },
                name,
                arguments,
                enabled: asked_visibility(name@, arguments.view()),
                target: None,
                answer: None,
            },
        )
        &&& r->Ok_0.well_formed()
    }
}

impl ComputerUseSession {
    /// Begins an operation on the session's cursor. `allowed` says whether the
    /// host exposes the tool, `validation` whether its request is in order,
    /// and `movable` whether a move has a place to go to.
    pub fn begin_cursor_tool(
        &self,
        name: String,
        arguments: Json,
        allowed: bool,
        validation: ComputerUseResult<()>,
        movable: ComputerUseResult<()>,
    ) -> (r: ComputerUseResult<CursorRun>)
        ensures
            cursor_tool_begins(*self, name, arguments, allowed, validation, movable, r),
    {
        if !allowed {
            return Err(
                tool_failure(
                    ComputerUseErrorCode::InvalidAction,
                    "cursor tool ",
                    name.as_str(),
                    " is not exposed by this host",
                ),
            );
        }
        match validation {
            Ok(()) => {},
            Err(error) => return Err(error),
        }
        if !arguments.is_object() {
            return Err(
                ComputerUseError::new(
                    ComputerUseErrorCode::InvalidAction,
                    "cursor tool arguments must be a JSON object",
                ),
            );
        }
        if arguments.get("session").is_some() {
            return Err(
                ComputerUseError::new(
                    ComputerUseErrorCode::InvalidAction,
                    "cursor tool session is host-owned",
                ),
            );
        }
        let moves = text_eq(name.as_str(), "move_cursor");
        if moves {
            match movable {
                Ok(()) => {},
                Err(error) => return Err(error),
            }
        }
        let mut enabled: Option<bool> = None;
        if text_eq(name.as_str(), "set_agent_cursor_enabled") {
            enabled = arguments.bool_at("enabled");
            if enabled.is_none() {
                return Err(
                    ComputerUseError::new(
                        ComputerUseErrorCode::InvalidAction,
                        "set_agent_cursor_enabled requires enabled",
                    ),
                );
            }
        }
        match self.ensure_active() {
            Ok(()) => {},
            Err(error) => return Err(error),
        }
        let phase = if moves {
            CursorPhase::FirstInput
        } else {
            CursorPhase::Revalidate
        };
        Ok(CursorRun { phase, name, arguments, enabled, target: None, answer: None })
    }
}

impl CursorRun {
    fn finish(self, session: &mut ComputerUseSession, raw_json: &str) -> (r: CursorStep)
        ensures
            cursor_value(self, raw_json@, *old(session), *final(session), r),
    {
        match parse_bound_tool_value(self.name.as_str(), raw_json) {
            Ok(value) => {
                if let Some(enabled) = self.enabled {
                    session.marker.visible = enabled;
                }
                session.set_banner_activity(BannerActivity::Ready);
                Step::Done(Ok(value))
            },
            Err(error) => Step::Done(Err(error)),
        }
    }

    fn bind(self, session: &ComputerUseSession, arguments: &Json, phase: CursorPhase) -> (r:
        CursorStep)
        ensures
            match arguments.view() {
                JsonTree::Object(members) => {
                    &&& r matches Step::Continue(next)
                    &&& next == (CursorRun { arguments: next.arguments, ..self }).at(phase)
                    &&& next.arguments.view() == JsonTree::Object(
                        session_members(members, session.session_id@),
                    )
                },
                _ => stops_plainly(
                    r,
                    ComputerUseErrorCode::InvalidAction,
                    "bound CUA tool arguments must be a JSON object"@,
                ),
            },
    {
        match bind_session(
            arguments,
            session.session_id.as_str(),
            "bound CUA tool arguments must be a JSON object",
        ) {
            Ok(bound) => {
                let mut run = self;
                run.arguments = bound;
                run.goes(phase)
            },
            Err(error) => Step::Done(Err(error)),
        }
    }

    fn on_dispatched(self, session: &mut ComputerUseSession, outcome: DispatchOutcome<ToolAnswer>)
        -> (r: CursorStep)
        ensures
            cursor_dispatch_step(self, *old(session), outcome, *final(session), r),
            r matches Step::Continue(next) ==> next.well_formed(),
    {
        let ghost before = *session;
        let called = session.finish_mutating_call(self.name.as_str(), outcome);
        assert(is_mutating_call(before, self.name@, outcome, *session, called));
        match session.finish_observation_sensitive_attempt(called) {
            Ok(answer) => {
                let mut run = self;
                run.answer = Some(answer.reply);
                run.goes(CursorPhase::TargetAfter)
            },
            Err(error) => Step::Done(Err(error)),
        }
    }

    fn on_called(self, session: &mut ComputerUseSession, result: ComputerUseResult<ToolAnswer>) -> (r:
        CursorStep)
        ensures
            cursor_call_step(self, *old(session), result, *final(session), r),
            r is Done,
    {
        let ghost before = *session;
        let called = session.finish_observed_tool_attempt(result);
        assert(is_tool_outcome(before, result, *session, called));
        match called {
            Ok(answer) => self.finish(session, answer.reply.raw_json.as_str()),
            Err(error) => Step::Done(Err(error)),
        }
    }

    /// Takes the answer to the run's request in. An answer to some other
    /// request changes nothing.
    pub fn advance(self, session: &mut ComputerUseSession, now_ms: u64, reply: ToolRunReply) -> (r:
        CursorStep)
        requires
            self.well_formed(),
        ensures
            cursor_step(self, *old(session), now_ms, reply, *final(session), r),
            r matches Step::Continue(next) ==> next.well_formed(),
    {
        match (self.phase, reply) {
            (CursorPhase::FirstInput, ToolRunReply::Gate(gate)) => {
                match session.finish_observation_sensitive_attempt(gate) {
                    Ok(()) => {},
                    Err(error) => return Step::Done(Err(error)),
                }
                match session.require_current_upstream_session_for_evidence(now_ms) {
                    Ok(()) => self.goes(CursorPhase::Input),
                    Err(error) => Step::Done(Err(error)),
                }
            },
            (CursorPhase::Input, ToolRunReply::Gate(gate)) => {
                match session.finish_observation_sensitive_attempt(gate) {
                    Ok(()) => self.goes(CursorPhase::Target),
                    Err(error) => Step::Done(Err(error)),
                }
            },
            (CursorPhase::Target, ToolRunReply::Target(resolved)) => {
                match session.require_observed_target_available(resolved) {
                    Ok(target) => {
                        let mut run = self;
                        run.target = Some(target);
                        run.goes(CursorPhase::TargetInput)
                    },
                    Err(error) => Step::Done(Err(error)),
                }
            },
            (CursorPhase::TargetInput, ToolRunReply::Gate(gate)) => {
                match session.finish_observation_sensitive_attempt(gate) {
                    Ok(()) => self.goes(CursorPhase::Place),
                    Err(error) => Step::Done(Err(error)),
                }
            },
            (CursorPhase::Place, ToolRunReply::Mapped(mapped)) => match mapped {
                Ok(arguments) => self.bind(session, &arguments, CursorPhase::Dispatch),
                Err(error) => Step::Done(Err(error)),
            },
            (CursorPhase::Dispatch, ToolRunReply::Dispatched(outcome)) => self.on_dispatched(
                session,
                outcome,
            ),
            (CursorPhase::TargetAfter, ToolRunReply::Target(resolved)) => {
                match session.require_observed_target_available(resolved) {
                    Ok(_) => self.goes(CursorPhase::InputAfter),
                    Err(error) => Step::Done(Err(error)),
                }
            },
            (CursorPhase::InputAfter, ToolRunReply::Gate(gate)) => {
                match session.finish_observation_sensitive_attempt(gate) {
                    Ok(()) => {},
                    Err(error) => return Step::Done(Err(error)),
                }
                let mut run = self;
                let reply = run.answer.unwrap();
                run.answer = None;
                run.finish(session, reply.raw_json.as_str())
            },
            (CursorPhase::Revalidate, ToolRunReply::Target(resolved)) => {
                match session.revalidate_observed_target(resolved) {
                    Ok(_) => {},
                    Err(error) => return Step::Done(Err(error)),
                }
                match session.require_current_upstream_session_for_evidence(now_ms) {
                    Ok(()) => {},
                    Err(error) => return Step::Done(Err(error)),
                }
                let arguments = self.arguments.clone();
                self.bind(session, &arguments, CursorPhase::Call)
            },
            (CursorPhase::Call, ToolRunReply::Called(result)) => self.on_called(session, result),
            _ => Step::Continue(self),
        }
    }
}

/// Which operation reports a validated effect.
#[derive(Debug, Clone, Copy, PartialEq, Eq, Structural)]
pub enum EffectKind {
    Menu,
    Frame,
}

impl EffectKind {
    pub open spec fn tool_text(self) -> Seq<char> {
        match self {
            EffectKind::Menu => "invoke_menu"@,
            EffectKind::Frame => "set_window_frame"@,
        }
    }

    pub fn tool(self) -> (r: &'static str)
        ensures
            r@ == self.tool_text(),
    {
        match self {
            EffectKind::Menu => "invoke_menu",
            EffectKind::Frame => "set_window_frame",
        }
    }

    /// The effect counts as success. A menu's effect may stay unverifiable.
    pub open spec fn succeeds(self, effect: Seq<char>) -> bool {
        effect == "confirmed"@ || (self == EffectKind::Menu && effect == "unverifiable"@)
    }
}

/// Where an operation with a validated effect is in its course.
#[derive(Debug, Clone, Copy, PartialEq, Eq, Structural)]
pub enum EffectPhase {
    Input,
    Target,
    TargetInput,
    Call,
    TargetAfter,
    InputAfter,
}

/// A menu invocation, or a change of the window's frame.
#[derive(Debug)]
pub struct EffectRun {
    pub phase: EffectPhase,
    pub kind: EffectKind,
    pub arguments: Json,
    pub target: Option<WindowTarget>,
    pub effect: String,
    pub result: Option<ComputerUseToolResult>,
}

/// An operation that ended with a validated effect.
#[derive(Debug)]
pub struct EffectReport {
    pub success: bool,
    pub effect: String,
    pub verification_required: bool,
    pub target: WindowTarget,
    pub result: ComputerUseToolResult,
}

pub type EffectStep = Step<EffectRun, EffectReport>;

impl EffectRun {
    pub open spec fn at(self, phase: EffectPhase) -> EffectRun {
        EffectRun { phase, ..self }
    }

    /// The run holds what its phase needs.
    pub open spec fn well_formed(self) -> bool {
        &&& self.arguments.view() is Object
        &&& self.phase == EffectPhase::TargetInput ==> self.target is Some
        &&& self.phase == EffectPhase::TargetAfter ==> self.result is Some
        &&& self.phase == EffectPhase::InputAfter ==> self.result is Some && self.target is Some
    }

    pub open spec fn asks(self) -> ToolRequest {
        match self.phase {
            EffectPhase::Input => ToolRequest::CheckInput,
            EffectPhase::Target => ToolRequest::ResolveTarget,
            EffectPhase::TargetInput => ToolRequest::CheckInput,
            EffectPhase::Call => ToolRequest::CallTool,
            EffectPhase::TargetAfter => ToolRequest::ResolveTarget,
            EffectPhase::InputAfter => ToolRequest::CheckInput,
        }
    }

    pub fn request(&self) -> (r: ToolRequest)
        ensures
            r == self.asks(),
    {
        match self.phase {
            EffectPhase::Input => ToolRequest::CheckInput,
            EffectPhase::Target => ToolRequest::ResolveTarget,
            EffectPhase::TargetInput => ToolRequest::CheckInput,
            EffectPhase::Call => ToolRequest::CallTool,
            EffectPhase::TargetAfter => ToolRequest::ResolveTarget,
            EffectPhase::InputAfter => ToolRequest::CheckInput,
        }
    }

    fn goes(self, phase: EffectPhase) -> (r: EffectStep)
        ensures
            r == EffectStep::Continue(self.at(phase)),
    {
        let mut run = self;
        run.phase = phase;
        Step::Continue(run)
    }
}

/// The arguments of an operation, bound to the session's window.
pub open spec fn window_members(
    members: Map<Seq<char>, JsonTree>,
    target: WindowTarget,
    session_id: Seq<char>,
) -> Map<Seq<char>, JsonTree> {
    session_members(
        members.insert("pid"@, unsigned_tree(target.pid as u64)).insert(
            "window_id"@,
            unsigned_tree(target.window_id),
        ),
        session_id,
    )
}

/// The tool answered, or failed.
pub open spec fn effect_call_step(
    run: EffectRun,
    before: ComputerUseSession,
    result: ComputerUseResult<ToolAnswer>,
    after: ComputerUseSession,
    step: EffectStep,
) -> bool {
    exists|middle: ComputerUseSession, r: ComputerUseResult<AcceptedAnswer>|
        {
            &&& #[trigger] is_tool_outcome(before, result, middle, r)
            &&& match r {
                Err(error) => stops_sensitively(middle, error, after, step),
                Ok(answer) => after == middle && match answer.reply.action_effect {
                    None => stops_plainly(
                        step,
                        ComputerUseErrorCode::BackendUnavailable,
                        "CUA "@ + run.kind.tool_text() + " omitted its validated action effect"@,
                    ),
                    Some(effect) => match answer.result {
                        Err(error) => stops(step, error),
                        Ok(result) => {
                            &&& step matches Step::Continue(next)
                            &&& next.effect@ == effect@
                            &&& next == (EffectRun {
                                effect: next.effect,
                                result: Some(result),
                                ..run
                            }).at(EffectPhase::TargetAfter)
                        },
                    },
                },
            }
        }
}

/// One step of an operation with a validated effect.
pub open spec fn effect_step(
    run: EffectRun,
    before: ComputerUseSession,
    reply: ToolRunReply,
    after: ComputerUseSession,
    step: EffectStep,
) -> bool {
    match (run.phase, reply) {
        (EffectPhase::Input, ToolRunReply::Gate(gate)) => {
            &&& refused_gate_stops(before, gate, after, step)
            &&& gate is Ok ==> after == before && step == EffectStep::Continue(
                run.at(EffectPhase::Target),
            )
        },
        (EffectPhase::Target, ToolRunReply::Target(resolved)) => {
            &&& unusable_target_stops(before, resolved, after, step)
            &&& is_usable_target(before, resolved) ==> after == before && step
                == EffectStep::Continue(
                EffectRun { target: Some(resolved->Ok_0), ..run }.at(EffectPhase::TargetInput),
            )
        },
        (EffectPhase::TargetInput, ToolRunReply::Gate(gate)) => {
            &&& refused_gate_stops(before, gate, after, step)
            &&& gate is Ok ==> {
                &&& after == before.without_evidence()
                &&& step matches Step::Continue(next)
                &&& next == (EffectRun { arguments: next.arguments, ..run }).at(EffectPhase::Call)
                &&& next.arguments.view() == JsonTree::Object(
                    window_members(
                        run.arguments.view()->Object_0,
                        run.target->0,
                        before.session_id@,
                    ),
                )
            }
        },
        (EffectPhase::Call, ToolRunReply::Called(result)) => effect_call_step(
            run,
            before,
            result,
            after,
            step,
        ),
        (EffectPhase::TargetAfter, ToolRunReply::Target(resolved)) => {
            &&& unusable_target_stops(before, resolved, after, step)
            &&& is_usable_target(before, resolved) ==> after == before && step
                == EffectStep::Continue(
                EffectRun { target: Some(resolved->Ok_0), ..run }.at(EffectPhase::InputAfter),
            )
        },
        (EffectPhase::InputAfter, ToolRunReply::Gate(gate)) => {
            &&& refused_gate_stops(before, gate, after, step)
            &&& gate is Ok ==> {
                &&& after == (ComputerUseSession { target: run.target, ..before })
                &&& step == EffectStep::Done(
                    Ok(
                        EffectReport {
                            success: run.kind.succeeds(run.effect@),
                            effect: run.effect,
                            verification_required: run.effect@ != "confirmed"@,
                            target: run.target->0,
                            result: run.result->0,
                        },
                    ),
                )
            }
        },
        _ => after == before && step == EffectStep::Continue(run),
    }
}

/// A menu path as JSON.
pub open spec fn path_tree(path: Seq<String>) -> JsonTree {
    JsonTree::Array(Seq::new(path.len(), |i: int| JsonTree::Text(path[i]@)))
}

fn path_json(path: &Vec<String>) -> (r: Json)
    ensures
        r.view() == path_tree(path@),
{
    let mut items: Vec<Json> = Vec::new();
    let mut i: usize = 0;
    while i < path.len()
        invariant
            i <= path.len(),
            items.len() == i,
            forall|k: int| 0 <= k < i ==> (#[trigger] items@[k]).view() == JsonTree::Text(path@[k]@),
        decreases path.len() - i,
    {
        items.push(Json::text(path[i].as_str()));
        i = i + 1;
    }
    proof {
        crate::json::lemma_array_tree(items@);
        assert(crate::json::array_tree(items@) =~= path_tree(path@)->Array_0);
    }
    Json::Array(items)
}

/// A menu is invoked by the path given.
pub open spec fn menu_begins(before: ComputerUseSession, request: ComputerUseMenuRequest, now_ms: u64, after: ComputerUseSession, r: ComputerUseResult<EffectRun>) -> bool {
    if !request.acceptable() {
        after == before && fails_with(
            r,
            ComputerUseErrorCode::InvalidAction,
            "menu path requires 1..16 non-empty segments of at most 200 characters"@,
        )
    } else {
        effect_begins(
            before,
            EffectKind::Menu,
            JsonTree::Object(
                Map::<Seq<char>, JsonTree>::empty().insert(
                    "path"@,
                    path_tree(request.path@),
                ),
            ),
            now_ms,
            after,
            r,
        )
    }
}

/// A window is given the frame asked for.
pub open spec fn frame_change_begins(before: ComputerUseSession, frame: Json, validation: ComputerUseResult<()>, now_ms: u64, after: ComputerUseSession, r: ComputerUseResult<EffectRun>) -> bool {
    if validation is Err {
        after == before && r == Err::<EffectRun, ComputerUseError>(
            validation->Err_0,
        )
    } else if !(frame.view() is Object) {
        after == before && fails_with(
            r,
            ComputerUseErrorCode::InvalidAction,
            "bound CUA tool arguments must be a JSON object"@,
        )
    } else {
        effect_begins(
            before,
            EffectKind::Frame,
            frame.view(),
            now_ms,
            after,
            r,
        )
    }
}

impl ComputerUseSession {
    /// Begins an operation whose evidence has to be current.
    fn begin_effect(&mut self, kind: EffectKind, arguments: Json, now_ms: u64) -> (r:
        ComputerUseResult<EffectRun>)
        requires
            arguments.view() is Object,
        ensures
            effect_begins(*old(self), kind, arguments.view(), now_ms, *final(self), r),
    {
        match self.ensure_active() {
            Ok(()) => {},
            Err(error) => return Err(error),
        }
        match self.require_current_upstream_session_for_evidence(now_ms) {
            Ok(()) => Ok(
                EffectRun {
                    phase: EffectPhase::Input,
                    kind,
                    arguments,
                    target: None,
                    effect: "".to_owned(),
                    result: None,
                },
            ),
            Err(error) => Err(error),
        }
    }

    /// Begins to invoke one exact menu path of the session's window.
    pub fn begin_invoke_menu(&mut self, request: &ComputerUseMenuRequest, now_ms: u64) -> (r:
        ComputerUseResult<EffectRun>)
        ensures
            menu_begins(*old(self), *request, now_ms, *final(self), r),
    {
        match request.validate() {
            Ok(()) => {},
            Err(error) => return Err(error),
        }
        let mut members: Vec<JsonMember> = Vec::new();
        put_member(&mut members, "path", path_json(&request.path));
        let arguments = Json::Object(members);
        self.begin_effect(EffectKind::Menu, arguments, now_ms)
    }

    /// Begins to change the frame of the session's window through the driver.
    /// The frame comes as the tool's arguments.
    pub fn begin_set_window_frame(
        &mut self,
        frame: Json,
        validation: ComputerUseResult<()>,
        now_ms: u64,
    ) -> (r: ComputerUseResult<EffectRun>)
        ensures
            frame_change_begins(*old(self), frame, validation, now_ms, *final(self), r),
    {
        match validation {
            Ok(()) => {},
            Err(error) => return Err(error),
        }
        if !frame.is_object() {
            return Err(
                ComputerUseError::new(
                    ComputerUseErrorCode::InvalidAction,
                    "bound CUA tool arguments must be a JSON object",
                ),
            );
        }
        self.begin_effect(EffectKind::Frame, frame, now_ms)
    }
}

/// How an operation with a validated effect begins.
pub open spec fn effect_begins(
    before: ComputerUseSession,
    kind: EffectKind,
    arguments: JsonTree,
    now_ms: u64,
    after: ComputerUseSession,
    r: ComputerUseResult<EffectRun>,
) -> bool {
    if !before.active {
        after == before && fails_with(
            r,
            ComputerUseErrorCode::BackendUnavailable,
            "Computer Use session is not active"@,
        )
    } else if before.evidence_current(now_ms) {
        &&& after == before
        &&& r matches Ok(run)
        &&& run.phase == EffectPhase::Input
        &&& run.kind == kind
        &&& run.arguments.view() == arguments
        &&& run.well_formed()
    } else {
        &&& r matches Err(error)
        &&& is_evidence_failure(before, now_ms, error)
        &&& after == before.without_evidence()
    }
}

impl EffectRun {
    fn on_called(self, session: &mut ComputerUseSession, result: ComputerUseResult<ToolAnswer>) -> (r:
        EffectStep)
        requires
            self.arguments.view() is Object,
        ensures
            effect_call_step(self, *old(session), result, *final(session), r),
            r matches Step::Continue(next) ==> next.well_formed(),
    {
        let ghost before = *session;
        let called = session.finish_observed_tool_attempt(result);
        assert(is_tool_outcome(before, result, *session, called));
        let answer = match session.finish_observation_sensitive_attempt(called) {
            Ok(answer) => answer,
            Err(error) => return Step::Done(Err(error)),
        };
        let effect = match validated_action_effect(&answer.reply, self.kind.tool()) {
            Ok(effect) => effect,
            Err(error) => return Step::Done(Err(error)),
        };
        match answer.result {
            Ok(result) => {
                let mut run = self;
                run.effect = effect;
                run.result = Some(result);
                run.goes(EffectPhase::TargetAfter)
            },
            Err(error) => Step::Done(Err(error)),
        }
    }

    fn on_target_input(self, session: &mut ComputerUseSession) -> (r: EffectStep)
        requires
            self.target is Some,
            self.arguments.view() is Object,
        ensures
            *final(session) == old(session).without_evidence(),
            r matches Step::Continue(next) && next == (EffectRun {
                arguments: next.arguments,
                ..self
            }).at(EffectPhase::Call) && next.arguments.view() == JsonTree::Object(
                window_members(
                    self.arguments.view()->Object_0,
                    self.target->0,
                    old(session).session_id@,
                ),
            ),
    {
        session.invalidate_action_observations();
        let mut run = self;
        let bound = match (&run.arguments, &run.target) {
            (Json::Object(members), Some(target)) => {
                let mut members = crate::json::duplicate_members(members);
                put_member(&mut members, "pid", Json::unsigned(target.pid as u64));
                put_member(&mut members, "window_id", Json::unsigned(target.window_id));
                put_member(&mut members, "session", Json::text(session.session_id.as_str()));
                Json::Object(members)
            },
            _ => Json::Null,
        };
        run.arguments = bound;
        run.goes(EffectPhase::Call)
    }

    /// Takes the answer to the run's request in. An answer to some other
    /// request changes nothing.
    pub fn advance(self, session: &mut ComputerUseSession, reply: ToolRunReply) -> (r: EffectStep)
        requires
            self.well_formed(),
        ensures
            effect_step(self, *old(session), reply, *final(session), r),
            r matches Step::Continue(next) ==> next.well_formed(),
    {
        match (self.phase, reply) {
            (EffectPhase::Input, ToolRunReply::Gate(gate)) => {
                match session.finish_observation_sensitive_attempt(gate) {
                    Ok(()) => self.goes(EffectPhase::Target),
                    Err(error) => Step::Done(Err(error)),
                }
            },
            (EffectPhase::Target, ToolRunReply::Target(resolved)) => {
                match session.require_observed_target_available(resolved) {
                    Ok(target) => {
                        let mut run = self;
                        run.target = Some(target);
                        run.goes(EffectPhase::TargetInput)
                    },
                    Err(error) => Step::Done(Err(error)),
                }
            },
            (EffectPhase::TargetInput, ToolRunReply::Gate(gate)) => {
                match session.finish_observation_sensitive_attempt(gate) {
                    Ok(()) => self.on_target_input(session),
                    Err(error) => Step::Done(Err(error)),
                }
            },
            (EffectPhase::Call, ToolRunReply::Called(result)) => self.on_called(session, result),
            (EffectPhase::TargetAfter, ToolRunReply::Target(resolved)) => {
                match session.require_observed_target_available(resolved) {
                    Ok(target) => {
                        let mut run = self;
                        run.target = Some(target);
                        run.goes(EffectPhase::InputAfter)
                    },
                    Err(error) => Step::Done(Err(error)),
                }
            },
            (EffectPhase::InputAfter, ToolRunReply::Gate(gate)) => {
                match session.finish_observation_sensitive_attempt(gate) {
                    Ok(()) => {},
                    Err(error) => return Step::Done(Err(error)),
                }
                let target = self.target.unwrap();
                let result = self.result.unwrap();
                session.target = Some(target.duplicate());
                let confirmed = text_eq(self.effect.as_str(), "confirmed");
                let success = confirmed || (self.kind == EffectKind::Menu && text_eq(
                    self.effect.as_str(),
                    "unverifiable",
                ));
                Step::Done(
                    Ok(
                        EffectReport {
                            success,
                            effect: self.effect,
                            verification_required: !confirmed,
                            target,
                            result,
                        },
                    ),
                )
            },
            _ => Step::Continue(self),
        }
    }
}

/// Where the change of a native window's frame is in its course.
#[derive(Debug, Clone, Copy, PartialEq, Eq, Structural)]
pub enum NativeFramePhase {
    Gate,
    Target,
    SetFrame,
    TargetAfter,
}

/// A change of a native window's frame, made by the host.
#[derive(Debug)]
pub struct NativeFrameRun {
    pub phase: NativeFramePhase,
    pub applied: [i32; 4],
}

/// What the host hands back on a native frame.
#[derive(Debug)]
pub enum NativeFrameReply {
    Gate(ComputerUseResult<()>),
    Target(ComputerUseResult<WindowTarget>),
    Applied(ComputerUseResult<[i32; 4]>),
}

/// The frame that was applied, and the window that has it now.
#[derive(Debug)]
pub struct NativeFrameReport {
    pub applied: [i32; 4],
    pub target: WindowTarget,
}

pub type NativeFrameStep = Step<NativeFrameRun, NativeFrameReport>;

/// One step of a change of a native window's frame.
pub open spec fn native_frame_step(
    run: NativeFrameRun,
    before: ComputerUseSession,
    reply: NativeFrameReply,
    after: ComputerUseSession,
    step: NativeFrameStep,
) -> bool {
    match (run.phase, reply) {
        (NativeFramePhase::Gate, NativeFrameReply::Gate(gate)) => {
            &&& refused_gate_stops(before, gate, after, step)
            &&& gate is Ok ==> after == before && step == NativeFrameStep::Continue(
                NativeFrameRun { phase: NativeFramePhase::Target, ..run },
            )
        },
        (NativeFramePhase::Target, NativeFrameReply::Target(resolved)) => {
            &&& unusable_target_stops(before, resolved, after, step)
            &&& is_usable_target(before, resolved) ==> after == before.without_evidence() && step
                == NativeFrameStep::Continue(
                NativeFrameRun { phase: NativeFramePhase::SetFrame, ..run },
            )
        },
        (NativeFramePhase::SetFrame, NativeFrameReply::Applied(applied)) => match applied {
            Err(error) => after == before && stops(step, error),
            Ok(applied) => after == before && step == NativeFrameStep::Continue(
                NativeFrameRun { phase: NativeFramePhase::TargetAfter, applied },
            ),
        },
        (NativeFramePhase::TargetAfter, NativeFrameReply::Target(resolved)) => {
            &&& unusable_target_stops(before, resolved, after, step)
            &&& is_usable_target(before, resolved) ==> after == (ComputerUseSession {
                target: Some(resolved->Ok_0),
                ..before
            }) && step == NativeFrameStep::Done(
                Ok(NativeFrameReport { applied: run.applied, target: resolved->Ok_0 }),
            )
        },
        _ => after == before && step == NativeFrameStep::Continue(run),
    }
}

/// A native change of frame begins.
pub open spec fn native_frame_begins(session: ComputerUseSession, validation: ComputerUseResult<()>, r: ComputerUseResult<NativeFrameRun>) -> bool {
    match validation {
        Err(error) => r == Err::<NativeFrameRun, ComputerUseError>(error),
        Ok(()) => if session.active {
            r == Ok::<NativeFrameRun, ComputerUseError>(
                NativeFrameRun { phase: NativeFramePhase::Gate, applied: [0, 0, 0, 0] },
            )
        } else {
            fails_with(
                r,
                ComputerUseErrorCode::BackendUnavailable,
                "Computer Use session is not active"@,
            )
        },
    }
}

impl ComputerUseSession {
    /// Begins a change of a native window's frame. `validation` is the verdict on
    /// the frame that is asked for.
    pub fn begin_native_frame(&self, validation: ComputerUseResult<()>) -> (r: ComputerUseResult<
        NativeFrameRun,
    >)
        ensures
            native_frame_begins(*self, validation, r),
    {
        match validation {
            Ok(()) => {},
            Err(error) => return Err(error),
        }
        match self.ensure_active() {
            Ok(()) => Ok(NativeFrameRun { phase: NativeFramePhase::Gate, applied: [0, 0, 0, 0] }),
            Err(error) => Err(error),
        }
    }
}

impl NativeFrameRun {
    /// Takes an answer in. An answer to some other request changes nothing.
    pub fn advance(self, session: &mut ComputerUseSession, reply: NativeFrameReply) -> (r:
        NativeFrameStep)
        ensures
            native_frame_step(self, *old(session), reply, *final(session), r),
    {
        match (self.phase, reply) {
            (NativeFramePhase::Gate, NativeFrameReply::Gate(gate)) => {
                match session.finish_observation_sensitive_attempt(gate) {
                    Ok(()) => Step::Continue(
                        NativeFrameRun { phase: NativeFramePhase::Target, applied: self.applied },
                    ),
                    Err(error) => Step::Done(Err(error)),
                }
            },
            (NativeFramePhase::Target, NativeFrameReply::Target(resolved)) => {
                match session.require_observed_target_available(resolved) {
                    Ok(_) => {
                        session.invalidate_action_observations();
                        Step::Continue(
                            NativeFrameRun {
                                phase: NativeFramePhase::SetFrame,
                                applied: self.applied,
                            },
                        )
                    },
                    Err(error) => Step::Done(Err(error)),
                }
            },
            (NativeFramePhase::SetFrame, NativeFrameReply::Applied(applied)) => match applied {
                Ok(applied) => Step::Continue(
                    NativeFrameRun { phase: NativeFramePhase::TargetAfter, applied },
                ),
                Err(error) => Step::Done(Err(error)),
            },
            (NativeFramePhase::TargetAfter, NativeFrameReply::Target(resolved)) => {
                match session.require_observed_target_available(resolved) {
                    Ok(target) => {
                        session.target = Some(target.duplicate());
                        Step::Done(Ok(NativeFrameReport { applied: self.applied, target }))
                    },
                    Err(error) => Step::Done(Err(error)),
                }
            },
            _ => Step::Continue(self),
        }
    }
}

/// Which bound call is made.
#[derive(Debug, Clone, Copy, PartialEq, Eq, Structural)]
pub enum BoundCallKind {
    /// The clipboard, read or written.
    Clipboard,
    /// The driver's own view of the session.
    SessionState,
    /// The end of the process that owns the window.
    Termination,
}

/// The arguments that the clipboard is read by.
pub open spec fn clipboard_read_tree(include_text: bool) -> JsonTree {
            JsonTree::Object(
        Map::<Seq<char>, JsonTree>::empty().insert(
            "include_text"@,
            JsonTree::Bool(include_text),
        ),
    )
}

/// What a read of the clipboard asks for.
pub fn clipboard_read_arguments(include_text: bool) -> (r: Json)
    ensures
        r.view() == clipboard_read_tree(include_text),
{
    let mut members: Vec<JsonMember> = Vec::new();
    put_member(&mut members, "include_text", Json::Bool(include_text));
    Json::Object(members)
}

/// What the clipboard is to hold. What is not given is left out.
pub open spec fn clipboard_members(request: ComputerUseClipboardWriteRequest) -> Map<
    Seq<char>,
    JsonTree,
> {
    let start = Map::<Seq<char>, JsonTree>::empty();
    let texts = with_text(start, "text"@, request.text);
    let images = with_text(texts, "image_path"@, request.image_path);
    with_text(images, "file_path"@, request.file_path)
}

/// What a write of the clipboard asks for.
pub fn clipboard_write_arguments(request: &ComputerUseClipboardWriteRequest) -> (r: Json)
    ensures
        r.view() == JsonTree::Object(clipboard_members(*request)),
{
    let mut members: Vec<JsonMember> = Vec::new();
    if let Some(text) = &request.text {
        put_member(&mut members, "text", Json::text(text.as_str()));
    }
    if let Some(path) = &request.image_path {
        put_member(&mut members, "image_path", Json::text(path.as_str()));
    }
    if let Some(path) = &request.file_path {
        put_member(&mut members, "file_path", Json::text(path.as_str()));
    }
    Json::Object(members)
}

/// Where a bound call is in its course.
#[derive(Debug, Clone, Copy, PartialEq, Eq, Structural)]
pub enum BoundCallPhase {
    RefreshGate,
    Refresh,
    Target,
    Call,
}

/// A bound call that returns a value.
#[derive(Debug)]
pub struct BoundCallRun {
    pub phase: BoundCallPhase,
    pub kind: BoundCallKind,
    pub name: String,
    pub arguments: Json,
    pub target: Option<WindowTarget>,
}

pub type BoundCallStep = Step<BoundCallRun, Json>;

impl BoundCallRun {
    pub open spec fn at(self, phase: BoundCallPhase) -> BoundCallRun {
        BoundCallRun { phase, ..self }
    }

    pub open spec fn asks(self) -> ToolRequest {
        match self.phase {
            BoundCallPhase::RefreshGate => ToolRequest::CheckInput,
            BoundCallPhase::Refresh => ToolRequest::RefreshUpstream,
            BoundCallPhase::Target => ToolRequest::ResolveTarget,
            BoundCallPhase::Call => ToolRequest::CallTool,
        }
    }

    pub fn request(&self) -> (r: ToolRequest)
        ensures
            r == self.asks(),
    {
        match self.phase {
            BoundCallPhase::RefreshGate => ToolRequest::CheckInput,
            BoundCallPhase::Refresh => ToolRequest::RefreshUpstream,
            BoundCallPhase::Target => ToolRequest::ResolveTarget,
            BoundCallPhase::Call => ToolRequest::CallTool,
        }
    }

    fn goes(self, phase: BoundCallPhase) -> (r: BoundCallStep)
        ensures
            r == BoundCallStep::Continue(self.at(phase)),
    {
        let mut run = self;
        run.phase = phase;
        Step::Continue(run)
    }
}

/// The call goes out with the session bound into its arguments; the end of a
/// process names the process of the bound window.
pub open spec fn bound_call_ready(
    run: BoundCallRun,
    session_id: Seq<char>,
    step: BoundCallStep,
) -> bool {
    match run.arguments.view() {
        JsonTree::Object(members) => {
            &&& step matches Step::Continue(next)
            &&& next == (BoundCallRun { arguments: next.arguments, ..run }).at(
                BoundCallPhase::Call,
            )
            &&& next.arguments.view() == JsonTree::Object(
                session_members(
                    if run.kind == BoundCallKind::Termination && run.target is Some {
                        members.insert("pid"@, unsigned_tree(run.target->0.pid as u64))
                    } else {
                        members
                    },
                    session_id,
                ),
            )
        },
        _ => stops_plainly(
            step,
            ComputerUseErrorCode::InvalidAction,
            "bound CUA tool arguments must be a JSON object"@,
        ),
    }
}

/// What came of the bound call.
pub open spec fn bound_call_result(
    run: BoundCallRun,
    before: ComputerUseSession,
    result: ComputerUseResult<ToolAnswer>,
    after: ComputerUseSession,
    step: BoundCallStep,
) -> bool {
    exists|r: ComputerUseResult<AcceptedAnswer>|
        {
            &&& #[trigger] is_tool_outcome(before, result, after, r)
            &&& match r {
                Err(error) => stops(step, error),
                Ok(answer) => ends_with_value(run.name@, answer.reply.raw_json@, step),
            }
        }
}

/// One step of a bound call.
pub open spec fn bound_call_step(
    run: BoundCallRun,
    before: ComputerUseSession,
    now_ms: u64,
    reply: ToolRunReply,
    after: ComputerUseSession,
    step: BoundCallStep,
) -> bool {
    match (run.phase, reply) {
        (BoundCallPhase::RefreshGate, ToolRunReply::Gate(gate)) => match gate {
            Ok(()) => after == before && step == BoundCallStep::Continue(
                run.at(BoundCallPhase::Refresh),
            ),
            Err(cause) => {
                &&& after == before.after_failure(cause.code).without_evidence()
                &&& step matches Step::Done(Err(error))
                &&& is_refresh_failure(cause, error)
            },
        },
        (BoundCallPhase::Refresh, ToolRunReply::Refreshed(result)) => match result {
            Ok(()) => after == before.refreshed(now_ms) && bound_call_ready(
                run,
                before.session_id@,
                step,
            ),
            Err(cause) => {
                &&& after == before.without_evidence()
                &&& step matches Step::Done(Err(error))
                &&& is_refresh_failure(cause, error)
            },
        },
        (BoundCallPhase::Target, ToolRunReply::Target(resolved)) => if (
        resolved matches Ok(target) && before.target matches Some(bound) && target.same_window(
            bound,
        )) {
            if before.evidence_current(now_ms) {
                after == before && bound_call_ready(
                    BoundCallRun { target: Some(resolved->Ok_0), ..run },
                    before.session_id@,
                    step,
                )
            } else {
                stale_evidence_stops(before, now_ms, after, step)
            }
        } else {
            &&& step matches Step::Done(Err(error))
            &&& is_revalidation_failure(before, resolved, error)
            &&& after == before.after_failure(error.code)
        },
        (BoundCallPhase::Call, ToolRunReply::Called(result)) => bound_call_result(
            run,
            before,
            result,
            after,
            step,
        ),
        _ => after == before && step == BoundCallStep::Continue(run),
    }
}

/// A call that is bound to the session begins.
pub open spec fn bound_call_begins(session: ComputerUseSession, kind: BoundCallKind, name: String, arguments: Json, validation: ComputerUseResult<()>, now_ms: u64, r: ComputerUseResult<BoundCallStep>) -> bool {
    if validation is Err {
        r == Err::<BoundCallStep, ComputerUseError>(validation->Err_0)
    } else if !session.active {
        fails_with(
            r,
            ComputerUseErrorCode::BackendUnavailable,
            "Computer Use session is not active"@,
        )
    } else {
        &&& r matches Ok(step)
        &&& {
            let run = BoundCallRun {
                phase: BoundCallPhase::Target,
                kind,
                name,
                arguments,
                target: None,
            };
            if kind != BoundCallKind::SessionState {
                step == BoundCallStep::Continue(run)
            } else if session.refresh_needed(now_ms) {
                step == BoundCallStep::Continue(run.at(BoundCallPhase::RefreshGate))
            } else {
                bound_call_ready(run, session.session_id@, step)
            }
        }
    }
}

impl ComputerUseSession {
    /// Begins a bound call. The driver's view of the session is read after a
    /// refresh that is due; everything else starts at the bound window.
    pub fn begin_bound_call(
        &self,
        kind: BoundCallKind,
        name: String,
        arguments: Json,
        validation: ComputerUseResult<()>,
        now_ms: u64,
    ) -> (r: ComputerUseResult<BoundCallStep>)
        ensures
            bound_call_begins(*self, kind, name, arguments, validation, now_ms, r),
    {
        match validation {
            Ok(()) => {},
            Err(error) => return Err(error),
        }
        match self.ensure_active() {
            Ok(()) => {},
            Err(error) => return Err(error),
        }
        let run = BoundCallRun {
            phase: BoundCallPhase::Target,
            kind,
            name,
            arguments,
            target: None,
        };
        if kind != BoundCallKind::SessionState {
            return Ok(Step::Continue(run));
        }
        if self.upstream_refresh_needed(now_ms) {
            return Ok(run.goes(BoundCallPhase::RefreshGate));
        }
        Ok(run.prepare(self))
    }
}

impl BoundCallRun {
    fn prepare(self, session: &ComputerUseSession) -> (r: BoundCallStep)
        ensures
            bound_call_ready(self, session.session_id@, r),
    {
        let mut run = self;
        let bound = match &run.arguments {
            Json::Object(members) => {
                let mut members = crate::json::duplicate_members(members);
                if run.kind == BoundCallKind::Termination {
                    if let Some(target) = &run.target {
                        put_member(&mut members, "pid", Json::unsigned(target.pid as u64));
                    }
                }
                put_member(&mut members, "session", Json::text(session.session_id.as_str()));
                Json::Object(members)
            },
            _ => return Step::Done(
                Err(
                    ComputerUseError::new(
                        ComputerUseErrorCode::InvalidAction,
                        "bound CUA tool arguments must be a JSON object",
                    ),
                ),
            ),
        };
        run.arguments = bound;
        run.goes(BoundCallPhase::Call)
    }

    fn on_called(self, session: &mut ComputerUseSession, result: ComputerUseResult<ToolAnswer>) -> (r:
        BoundCallStep)
        ensures
            bound_call_result(self, *old(session), result, *final(session), r),
    {
        let ghost before = *session;
        let called = session.finish_observed_tool_attempt(result);
        assert(is_tool_outcome(before, result, *session, called));
        match called {
            Ok(answer) => Step::Done(
                parse_bound_tool_value(self.name.as_str(), answer.reply.raw_json.as_str()),
            ),
            Err(error) => Step::Done(Err(error)),
        }
    }

    /// Takes the answer to the run's request in. An answer to some other
    /// request changes nothing.
    pub fn advance(self, session: &mut ComputerUseSession, now_ms: u64, reply: ToolRunReply) -> (r:
        BoundCallStep)
        ensures
            bound_call_step(self, *old(session), now_ms, reply, *final(session), r),
    {
        match (self.phase, reply) {
            (BoundCallPhase::RefreshGate, ToolRunReply::Gate(gate)) => {
                match session.gate_upstream_refresh(gate) {
                    Ok(()) => self.goes(BoundCallPhase::Refresh),
                    Err(error) => Step::Done(Err(error)),
                }
            },
            (BoundCallPhase::Refresh, ToolRunReply::Refreshed(result)) => {
                match session.finish_upstream_refresh(result, now_ms) {
                    Ok(()) => self.prepare(session),
                    Err(error) => Step::Done(Err(error)),
                }
            },
            (BoundCallPhase::Target, ToolRunReply::Target(resolved)) => {
                let target = match session.revalidate_observed_target(resolved) {
                    Ok(target) => target,
                    Err(error) => return Step::Done(Err(error)),
                };
                match session.require_current_upstream_session_for_evidence(now_ms) {
                    Ok(()) => {},
                    Err(error) => return Step::Done(Err(error)),
                }
                let mut run = self;
                run.target = Some(target);
                run.prepare(session)
            },
            (BoundCallPhase::Call, ToolRunReply::Called(result)) => self.on_called(session, result),
            _ => Step::Continue(self),
        }
    }
}

/// A move of the cursor, a menu, or a frame goes out only after the bound
/// window was seen to be usable: the run that calls the tool holds it.
pub proof fn law_effects_follow_a_usable_window(
    run: EffectRun,
    before: ComputerUseSession,
    reply: ToolRunReply,
    after: ComputerUseSession,
    next: EffectRun,
)
    requires
        run.well_formed(),
        effect_step(run, before, reply, after, EffectStep::Continue(next)),
        run.phase != next.phase,
        next.phase == EffectPhase::Call,
    ensures
        next.target is Some,
        next.arguments.view().get("pid"@) == Some(unsigned_tree(next.target->0.pid as u64)),
        next.arguments.view().get("window_id"@) == Some(unsigned_tree(next.target->0.window_id)),
        after.observation is None,
{
    reveal_strlit("pid");
    reveal_strlit("window_id");
    reveal_strlit("session");
    assert("pid"@.len() == 3);
    assert("window_id"@.len() == 9);
    assert("session"@.len() == 7);
}

/// A download is sent with the caller's arguments, the session's name and the
/// host's approval, past a usable window and the input gate, and ends with what the
/// driver answered, read as JSON.
pub proof fn law_downloads_hand_the_answer_on(
    run: DownloadRun,
    before: ComputerUseSession,
    reply: ToolRunReply,
    after: ComputerUseSession,
    step: DownloadStep,
    key: Seq<char>,
)
    requires
        download_step(run, before, reply, after, step),
    ensures
        (step matches Step::Continue(next) && next.phase == DownloadPhase::Input && run.phase
            == DownloadPhase::Target) ==> step->Continue_0.arguments == run.arguments
            && reply is Target && is_usable_target(before, reply->Target_0),
        (step matches Step::Continue(next) && next.phase == DownloadPhase::Dispatch && run.phase
            != DownloadPhase::Dispatch) ==> {
            let sent = step->Continue_0.arguments.view();
            &&& run.phase == DownloadPhase::Input
            &&& run.asks() == ToolRequest::CheckInput
            &&& reply is Gate
            &&& reply->Gate_0 is Ok
            &&& sent.text_at("session"@) == Some(before.session_id@)
            &&& sent.bool_at("_cua_browser_download_mcp_host_approved"@) == Some(true)
            &&& key != "session"@ && key != "_cua_browser_download_mcp_host_approved"@
                ==> sent.get(key) == run.arguments.view().get(key)
        },
        step matches Step::Done(Ok(value)) ==> run.phase == DownloadPhase::Dispatch && (
        reply matches ToolRunReply::Dispatched(DispatchOutcome::Completed(answer)) && parsed_text(
            answer.reply.raw_json@,
        ) == Ok::<JsonTree, Seq<char>>(value.view())) && after.observation is None,
        run.phase == DownloadPhase::Input && reply is Gate && reply->Gate_0 is Err ==> step
            == DownloadStep::Done(Err(reply->Gate_0->Err_0)),
        run.phase == DownloadPhase::Target && reply is Target && !is_usable_target(
            before,
            reply->Target_0,
        ) ==> (step matches Step::Done(Err(_))),
{
    reveal_strlit("session");
    reveal_strlit("_cua_browser_download_mcp_host_approved");
    assert("session"@.len() == 7);
    assert("_cua_browser_download_mcp_host_approved"@.len() == 39);
}

/// A download begins in an active session with current evidence, with the
/// arguments given.
pub proof fn law_downloads_begin_as_asked(
    before: ComputerUseSession,
    arguments: Json,
    validation: ComputerUseResult<()>,
    now_ms: u64,
    after: ComputerUseSession,
    r: ComputerUseResult<DownloadRun>,
)
    requires
        download_begins(before, arguments, validation, now_ms, after, r),
    ensures
        r is Ok <==> validation is Ok && before.active && before.evidence_current(now_ms),
        r matches Ok(run) ==> run.arguments == arguments && run.asks() == ToolRequest::ResolveTarget
            && after == before,
        validation matches Err(error) ==> r == Err::<DownloadRun, ComputerUseError>(error),
        after.active == before.active,
{
}

/// A cursor tool begins by its name, with the arguments given, which name no
/// session; to move the cursor is input, and what it shows is what was asked for.
pub proof fn law_cursor_tools_begin_as_asked(
    session: ComputerUseSession,
    name: String,
    arguments: Json,
    allowed: bool,
    validation: ComputerUseResult<()>,
    movable: ComputerUseResult<()>,
    r: ComputerUseResult<CursorRun>,
)
    requires
        cursor_tool_begins(session, name, arguments, allowed, validation, movable, r),
    ensures
        r is Ok <==> allowed && validation is Ok && arguments.view() is Object
            && arguments.view().get("session"@) is None && (name@ == "move_cursor"@
            ==> movable is Ok) && (name@ == "set_agent_cursor_enabled"@ ==> arguments.view().bool_at(
            "enabled"@,
        ) is Some) && session.active,
        r matches Ok(run) ==> {
            &&& run.name == name
            &&& run.arguments == arguments
            &&& run.asks() == ToolRequest::CheckInput <==> name@ == "move_cursor"@
            &&& run.asks() == ToolRequest::ResolveTarget <==> name@ != "move_cursor"@
            &&& name@ == "set_agent_cursor_enabled"@ ==> run.enabled == arguments.view().bool_at(
                "enabled"@,
            )
            &&& name@ != "set_agent_cursor_enabled"@ ==> run.enabled is None
        },
{
}

/// A cursor is moved where it was mapped to, past the input gates and a usable
/// window, and only with current evidence; other cursor tools are called for the
/// bound window. Each names the session and ends with what the driver answered; the
/// marker is shown or hidden exactly as asked.
pub proof fn law_cursor_tools_hand_the_answer_on(
    run: CursorRun,
    before: ComputerUseSession,
    now_ms: u64,
    reply: ToolRunReply,
    after: ComputerUseSession,
    step: CursorStep,
    key: Seq<char>,
)
    requires
        run.well_formed(),
        cursor_step(run, before, now_ms, reply, after, step),
    ensures
        step matches Step::Continue(next) ==> {
            &&& next.name == run.name
            &&& next.enabled == run.enabled
            &&& next.phase == CursorPhase::Input && next.phase != run.phase ==> reply is Gate
                && reply->Gate_0 is Ok && before.evidence_current(now_ms)
            &&& next.phase == CursorPhase::Target && next.phase != run.phase ==> reply is Gate
                && reply->Gate_0 is Ok
            &&& next.phase == CursorPhase::TargetInput && next.phase != run.phase ==> (
            reply matches ToolRunReply::Target(Ok(target)) && is_usable_target(before, Ok(target))
                && next.target == Some(target))
            &&& next.phase == CursorPhase::Place && next.phase != run.phase ==> reply is Gate
                && reply->Gate_0 is Ok && next.target == run.target
            &&& next.phase == CursorPhase::Dispatch && next.phase != run.phase ==> (
            reply matches ToolRunReply::Mapped(Ok(mapped)) && next.arguments.view().text_at(
                "session"@,
            ) == Some(before.session_id@) && (key != "session"@ ==> next.arguments.view().get(key)
                == mapped.view().get(key)))
            &&& next.phase == CursorPhase::Call && next.phase != run.phase ==> (
            reply matches ToolRunReply::Target(Ok(target)) && before.target is Some && target.pid
                == before.target->0.pid && target.window_id == before.target->0.window_id)
                && before.evidence_current(now_ms) && next.arguments.view().text_at("session"@)
                == Some(before.session_id@) && (key != "session"@ ==> next.arguments.view().get(key)
                == run.arguments.view().get(key))
            &&& next.phase == CursorPhase::TargetAfter && next.phase != run.phase ==> (
            reply matches ToolRunReply::Dispatched(DispatchOutcome::Completed(answer))
                && next.answer == Some(answer.reply))
            &&& next.phase == CursorPhase::InputAfter && next.phase != run.phase ==> next.answer
                == run.answer && reply is Target && is_usable_target(before, reply->Target_0)
        },
        step matches Step::Done(Ok(value)) ==> {
            &&& run.phase == CursorPhase::InputAfter || run.phase == CursorPhase::Call
            &&& run.phase == CursorPhase::InputAfter ==> reply is Gate && reply->Gate_0 is Ok
                && parsed_text(run.answer->0.raw_json@) == Ok::<JsonTree, Seq<char>>(value.view())
            &&& run.phase == CursorPhase::Call ==> (reply matches ToolRunReply::Called(Ok(answer))
                && parsed_text(answer.reply.raw_json@) == Ok::<JsonTree, Seq<char>>(value.view()))
            &&& run.enabled matches Some(enabled) ==> after.marker.visible == enabled
            &&& run.enabled is None ==> after.marker == before.marker
            &&& after.active == before.active
        },
        !(step matches Step::Done(Ok(_))) && after.active ==> after.marker == before.marker,
        run.phase == CursorPhase::Place && reply is Mapped && reply->Mapped_0 is Err ==> step
            == CursorStep::Done(Err(reply->Mapped_0->Err_0)),
        run.phase == CursorPhase::Call && reply is Called && reply->Called_0 is Err ==> step
            == CursorStep::Done(Err(reply->Called_0->Err_0)),
        run.asks() == ToolRequest::CheckInput && reply is Gate && reply->Gate_0 is Err ==> step
            == CursorStep::Done(Err(reply->Gate_0->Err_0)),
{
    reveal_strlit("session");
    assert("session"@.len() == 7);
}

/// A menu is invoked by the path given, segment by segment; a window is given the
/// frame asked for. Both need an active session with current evidence.
pub proof fn law_effects_begin_as_asked(
    before: ComputerUseSession,
    request: ComputerUseMenuRequest,
    frame: Json,
    validation: ComputerUseResult<()>,
    now_ms: u64,
    menu_after: ComputerUseSession,
    menu: ComputerUseResult<EffectRun>,
    frame_after: ComputerUseSession,
    placed: ComputerUseResult<EffectRun>,
)
    requires
        menu_begins(before, request, now_ms, menu_after, menu),
        frame_change_begins(before, frame, validation, now_ms, frame_after, placed),
    ensures
        menu is Ok <==> request.acceptable() && before.active && before.evidence_current(now_ms),
        menu matches Ok(run) ==> run.kind == EffectKind::Menu && run.asks()
            == ToolRequest::CheckInput && (run.arguments.view().get("path"@) matches Some(
            JsonTree::Array(path),
        ) && path.len() == request.path@.len() && forall|i: int|
            0 <= i < path.len() ==> #[trigger] path[i] == JsonTree::Text(request.path@[i]@)),
        placed is Ok <==> validation is Ok && frame.view() is Object && before.active
            && before.evidence_current(now_ms),
        placed matches Ok(run) ==> run.kind == EffectKind::Frame && run.arguments.view()
            == frame.view() && run.asks() == ToolRequest::CheckInput,
        validation matches Err(error) ==> placed == Err::<EffectRun, ComputerUseError>(error),
        EffectKind::Menu.tool_text() == "invoke_menu"@,
        EffectKind::Frame.tool_text() == "set_window_frame"@,
{
    reveal_strlit("path");
    assert("path"@.len() == 4);
}

/// A menu's or a frame's call names the usable window and the session beside what
/// was asked for, passes the input gates, and its report tells the effect, the
/// result and the window as they were handed back.
pub proof fn law_effects_hand_the_answer_on(
    run: EffectRun,
    before: ComputerUseSession,
    reply: ToolRunReply,
    after: ComputerUseSession,
    step: EffectStep,
    key: Seq<char>,
)
    requires
        run.well_formed(),
        effect_step(run, before, reply, after, step),
    ensures
        step matches Step::Continue(next) ==> {
            &&& next.kind == run.kind
            &&& next.phase == EffectPhase::Target && next.phase != run.phase ==> reply is Gate
                && reply->Gate_0 is Ok && next.arguments == run.arguments
            &&& run.asks() == ToolRequest::ResolveTarget && next.phase != run.phase ==> (
            reply matches ToolRunReply::Target(Ok(target)) && is_usable_target(before, Ok(target))
                && next.target == Some(target)) && next.arguments == run.arguments && next.result
                == run.result && next.effect == run.effect
            &&& next.phase == EffectPhase::Call && next.phase != run.phase ==> {
                &&& run.asks() == ToolRequest::CheckInput
                &&& reply is Gate
                &&& reply->Gate_0 is Ok
                &&& next.arguments.view().u64_at("pid"@) == Some(run.target->0.pid as u64)
                &&& next.arguments.view().u64_at("window_id"@) == Some(run.target->0.window_id)
                &&& next.arguments.view().text_at("session"@) == Some(before.session_id@)
                &&& key != "pid"@ && key != "window_id"@ && key != "session"@
                    ==> next.arguments.view().get(key) == run.arguments.view().get(key)
                &&& after.observation is None
            }
            &&& next.phase == EffectPhase::TargetAfter && next.phase != run.phase ==> (
            reply matches ToolRunReply::Called(Ok(answer)) && answer.accepted is Ok
                && answer.reply.action_effect is Some && next.effect@
                == answer.reply.action_effect->0@ && answer.result is Ok && next.result == Some(
                answer.result->Ok_0,
            ))
        },
        step matches Step::Done(Ok(report)) ==> {
            &&& run.phase == EffectPhase::InputAfter
            &&& reply is Gate
            &&& reply->Gate_0 is Ok
            &&& report.effect == run.effect
            &&& Some(report.result) == run.result
            &&& Some(report.target) == run.target
            &&& after.target == run.target
            &&& report.success == (run.effect@ == "confirmed"@ || (run.kind == EffectKind::Menu
                && run.effect@ == "unverifiable"@))
            &&& report.verification_required == (run.effect@ != "confirmed"@)
        },
        run.phase == EffectPhase::Call && reply is Called && reply->Called_0 is Err ==> step
            == EffectStep::Done(Err(reply->Called_0->Err_0)),
        run.asks() == ToolRequest::CheckInput && reply is Gate && reply->Gate_0 is Err ==> step
            == EffectStep::Done(Err(reply->Gate_0->Err_0)),
        run.asks() == ToolRequest::ResolveTarget && reply is Target && !is_usable_target(
            before,
            reply->Target_0,
        ) ==> (step matches Step::Done(Err(_))),
{
    reveal_strlit("pid");
    reveal_strlit("window_id");
    reveal_strlit("session");
    assert("pid"@.len() == 3);
    assert("window_id"@.len() == 9);
    assert("session"@.len() == 7);
}

/// A window is placed past its gate and a usable window, voids the evidence before
/// it, and reports the frame that was read back.
pub proof fn law_native_frames_report_what_was_applied(
    run: NativeFrameRun,
    before: ComputerUseSession,
    reply: NativeFrameReply,
    after: ComputerUseSession,
    step: NativeFrameStep,
)
    requires
        native_frame_step(run, before, reply, after, step),
    ensures
        step matches Step::Continue(next) ==> {
            &&& next.phase == NativeFramePhase::Target && next.phase != run.phase ==> reply is Gate
                && reply->Gate_0 is Ok
            &&& next.phase == NativeFramePhase::SetFrame && next.phase != run.phase
                ==> reply is Target && is_usable_target(before, reply->Target_0)
                && after.observation is None
            &&& next.phase == NativeFramePhase::TargetAfter && next.phase != run.phase ==> reply
                == NativeFrameReply::Applied(Ok(next.applied))
        },
        step matches Step::Done(Ok(report)) ==> run.phase == NativeFramePhase::TargetAfter
            && report.applied == run.applied && reply == NativeFrameReply::Target(Ok(report.target))
            && is_usable_target(before, Ok(report.target)) && after.target == Some(report.target),
        run.phase == NativeFramePhase::Gate && reply is Gate && reply->Gate_0 is Err ==> step
            == NativeFrameStep::Done(Err(reply->Gate_0->Err_0)),
        run.phase == NativeFramePhase::SetFrame && reply is Applied && reply->Applied_0 is Err
            ==> step == NativeFrameStep::Done(Err(reply->Applied_0->Err_0)),
{
}

/// A native change of frame begins at its gate, in an active session.
pub proof fn law_native_frames_begin_at_the_gate(
    session: ComputerUseSession,
    validation: ComputerUseResult<()>,
    r: ComputerUseResult<NativeFrameRun>,
)
    requires
        native_frame_begins(session, validation, r),
    ensures
        r is Ok <==> validation is Ok && session.active,
        r matches Ok(run) ==> run.phase == NativeFramePhase::Gate,
        validation matches Err(error) ==> r == Err::<NativeFrameRun, ComputerUseError>(error),
{
}

/// The clipboard is read with or without its text, and written with exactly what
/// was given.
pub proof fn law_clipboards_take_what_was_given(
    include_text: bool,
    request: ComputerUseClipboardWriteRequest,
)
    ensures
        clipboard_read_tree(include_text).bool_at("include_text"@) == Some(include_text),
        JsonTree::Object(clipboard_members(request)).text_at("text"@) == match request.text {
            Some(text) => Some(text@),
            None => None,
        },
        JsonTree::Object(clipboard_members(request)).text_at("image_path"@)
            == match request.image_path {
            Some(path) => Some(path@),
            None => None,
        },
        JsonTree::Object(clipboard_members(request)).text_at("file_path"@)
            == match request.file_path {
            Some(path) => Some(path@),
            None => None,
        },
{
    reveal_strlit("include_text");
    reveal_strlit("text");
    reveal_strlit("image_path");
    reveal_strlit("file_path");
    assert("include_text"@.len() == 12);
    assert("text"@.len() == 4);
    assert("image_path"@.len() == 10);
    assert("file_path"@.len() == 9);
}

/// A bound call begins by its name with the arguments given; only the session's
/// state may be asked for without its window.
pub proof fn law_bound_calls_begin_as_asked(
    session: ComputerUseSession,
    kind: BoundCallKind,
    name: String,
    arguments: Json,
    validation: ComputerUseResult<()>,
    now_ms: u64,
    r: ComputerUseResult<BoundCallStep>,
)
    requires
        bound_call_begins(session, kind, name, arguments, validation, now_ms, r),
    ensures
        r is Ok <==> validation is Ok && session.active,
        validation matches Err(error) ==> r == Err::<BoundCallStep, ComputerUseError>(error),
        r matches Ok(Step::Continue(run)) ==> {
            &&& run.kind == kind
            &&& run.name == name
            &&& kind != BoundCallKind::SessionState ==> run.asks() == ToolRequest::ResolveTarget
                && run.arguments == arguments
            &&& kind == BoundCallKind::SessionState && session.refresh_needed(now_ms) ==> run.asks()
                == ToolRequest::CheckInput && run.arguments == arguments
            &&& kind == BoundCallKind::SessionState && !session.refresh_needed(now_ms)
                ==> run.asks() == ToolRequest::CallTool && run.arguments.view().text_at("session"@)
                == Some(session.session_id@)
        },
{
    reveal_strlit("session");
    assert("session"@.len() == 7);
}

/// A bound call names the session, and the process where it ends one, beside the
/// arguments given; it needs the bound window and current evidence, or a refresh;
/// and it ends with what the driver answered, read as JSON.
pub proof fn law_bound_calls_hand_the_answer_on(
    run: BoundCallRun,
    before: ComputerUseSession,
    now_ms: u64,
    reply: ToolRunReply,
    after: ComputerUseSession,
    step: BoundCallStep,
    key: Seq<char>,
)
    requires
        bound_call_step(run, before, now_ms, reply, after, step),
    ensures
        step matches Step::Continue(next) ==> {
            &&& next.kind == run.kind
            &&& next.name == run.name
            &&& next.phase == BoundCallPhase::Refresh && next.phase != run.phase ==> reply is Gate
                && reply->Gate_0 is Ok && next.arguments == run.arguments
            &&& next.phase == BoundCallPhase::Call && next.phase != run.phase ==> {
                &&& next.arguments.view().text_at("session"@) == Some(before.session_id@)
                &&& key != "session"@ && key != "pid"@ ==> next.arguments.view().get(key)
                    == run.arguments.view().get(key)
                &&& run.kind != BoundCallKind::Termination ==> next.arguments.view().get("pid"@)
                    == run.arguments.view().get("pid"@)
                &&& run.kind == BoundCallKind::Termination && run.phase == BoundCallPhase::Target
                    ==> next.arguments.view().u64_at("pid"@) == Some(before.target->0.pid as u64)
                &&& run.phase == BoundCallPhase::Target ==> (
                reply matches ToolRunReply::Target(Ok(target)) && before.target is Some
                    && target.pid == before.target->0.pid && target.window_id
                    == before.target->0.window_id) && before.evidence_current(now_ms)
                &&& run.phase == BoundCallPhase::Refresh ==> reply is Refreshed
                    && reply->Refreshed_0 is Ok
            }
        },
        step matches Step::Done(Ok(value)) ==> run.phase == BoundCallPhase::Call && (
        reply matches ToolRunReply::Called(Ok(answer)) && answer.accepted is Ok && parsed_text(
            answer.reply.raw_json@,
        ) == Ok::<JsonTree, Seq<char>>(value.view())) && after == before,
        run.phase == BoundCallPhase::Call && reply is Called && reply->Called_0 is Err ==> step
            == BoundCallStep::Done(Err(reply->Called_0->Err_0)),
        run.phase == BoundCallPhase::RefreshGate && reply is Gate && reply->Gate_0 is Err ==> (
        step matches Step::Done(Err(error)) && error.message@ == reply->Gate_0->Err_0.message@),
        run.phase == BoundCallPhase::Refresh && reply is Refreshed && reply->Refreshed_0 is Err ==> (
        step matches Step::Done(Err(error)) && error.message@
            == reply->Refreshed_0->Err_0.message@) && after.observation is None,
{
    reveal_strlit("session");
    reveal_strlit("pid");
    assert("session"@.len() == 7);
    assert("pid"@.len() == 3);
}

} // verus!
