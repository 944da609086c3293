//! Evidence read from the session's window: zoomed regions, verified
//! predicates, and accessibility trees.

use crate::contracts::{
    ComputerUseImage, ComputerUseObservation, ComputerUseToolResult, ComputerUseVerification,
};
use crate::driver::{parse_bound_tool_value, structured_state, ToolReply};
#[allow(unused_imports)]
use crate::driver::invalid_json_message;
use crate::errors::{ComputerUseError, ComputerUseErrorCode, ComputerUseResult};
#[allow(unused_imports)]
use crate::errors::fails_with;
use crate::json::{put_member, Json, JsonMember};
#[allow(unused_imports)]
use crate::json::{object_tree, parsed_text, unsigned_or_null, unsigned_tree, JsonTree};
use crate::media::decode_image_data;
#[allow(unused_imports)]
use crate::media::base64_decoded;
use crate::session::{BannerActivity, ComputerUseSession};
#[allow(unused_imports)]
use crate::session::{is_evidence_failure, is_refresh_failure, is_usable_target};
use crate::session_tools::{AcceptedAnswer, ToolAnswer};
#[allow(unused_imports)]
use crate::session_tools::is_tool_outcome;
use crate::steps::Step;
#[allow(unused_imports)]
use crate::tool_binding::session_members;
#[allow(unused_imports)]
use crate::steps::{
    refused_gate_stops, stale_evidence_stops, stops, stops_plainly, stops_sensitively,
    unusable_target_stops,
};
use crate::window_capture::{state_arguments, SnapshotBounds};
#[allow(unused_imports)]
use crate::window_capture::state_tree;
use crate::window_target::WindowTarget;
use vstd::prelude::*;

verus! {

/// What a read of evidence asks for.
#[derive(Debug, Clone, Copy, PartialEq, Eq, Structural)]
pub enum EvidenceRequest {
    CheckInput,
    CheckObservation,
    ResolveTarget,
    RefreshUpstream,
    CallTool,
    ReadAccessibility,
    /// The observation that the accessibility tree of the window makes.
    ObserveSemantics,
}

/// What the host hands back.
#[derive(Debug)]
pub enum EvidenceReply {
    Gate(ComputerUseResult<()>),
    Target(ComputerUseResult<WindowTarget>),
    Refreshed(ComputerUseResult<()>),
    Called(ComputerUseResult<ToolAnswer>),
    Accessibility(ComputerUseResult<Json>),
    Semantics(ComputerUseObservation),
}

/// Where a zoom is in its course.
#[derive(Debug, Clone, Copy, PartialEq, Eq, Structural)]
pub enum ZoomPhase {
    Target,
    Gate,
    Call,
    GateAfter,
    TargetAfter,
}

/// A native-resolution crop of the latest observation.
#[derive(Debug)]
pub struct ZoomRun {
    pub phase: ZoomPhase,
    pub window_handle: u64,
    pub process_id: u32,
    pub target: Option<WindowTarget>,
    pub answer: Option<AcceptedAnswer>,
    pub failure: Option<ComputerUseError>,
}

pub type ZoomStep = Step<ZoomRun, ComputerUseToolResult>;

/// The arguments that a region is zoomed by.
pub open spec fn zoom_arguments(run: ZoomRun, session_id: Seq<char>, region: Map<Seq<char>, JsonTree>) -> JsonTree {
                JsonTree::Object(
        session_members(
            region.insert("pid"@, unsigned_tree(run.process_id as u64)).insert(
                "window_id"@,
                unsigned_tree(run.window_handle),
            ),
            session_id,
        ),
    )
}

impl ZoomRun {
    /// What the driver is asked to zoom: the region, in the window that the
    /// observation showed.
    pub fn arguments(&self, session: &ComputerUseSession, region: Vec<JsonMember>) -> (r: Json)
        ensures
            r.view() == zoom_arguments(*self, session.session_id@, object_tree(region@)),
    {
        let mut members = region;
        put_member(&mut members, "pid", Json::unsigned(self.process_id as u64));
        put_member(&mut members, "window_id", Json::unsigned(self.window_handle));
        put_member(&mut members, "session", Json::text(session.session_id.as_str()));
        Json::Object(members)
    }
}

impl ZoomRun {
    pub open spec fn at(self, phase: ZoomPhase) -> ZoomRun {
        ZoomRun { phase, ..self }
    }

    /// The run holds what its phase needs.
    pub open spec fn well_formed(self) -> bool {
        self.phase == ZoomPhase::GateAfter || self.phase == ZoomPhase::TargetAfter
            ==> self.answer is Some || self.failure is Some
    }

    pub open spec fn shows(self, target: WindowTarget) -> bool {
        target.window_id == self.window_handle && target.pid == self.process_id
    }

    pub open spec fn asks(self) -> EvidenceRequest {
        match self.phase {
            ZoomPhase::Target => EvidenceRequest::ResolveTarget,
            ZoomPhase::Gate => EvidenceRequest::CheckObservation,
            ZoomPhase::Call => EvidenceRequest::CallTool,
            ZoomPhase::GateAfter => EvidenceRequest::CheckObservation,
            ZoomPhase::TargetAfter => EvidenceRequest::ResolveTarget,
        }
    }

    pub fn request(&self) -> (r: EvidenceRequest)
        ensures
            r == self.asks(),
    {
        match self.phase {
            ZoomPhase::Target => EvidenceRequest::ResolveTarget,
            ZoomPhase::Gate => EvidenceRequest::CheckObservation,
            ZoomPhase::Call => EvidenceRequest::CallTool,
            ZoomPhase::GateAfter => EvidenceRequest::CheckObservation,
            ZoomPhase::TargetAfter => EvidenceRequest::ResolveTarget,
        }
    }

    fn goes(self, phase: ZoomPhase) -> (r: ZoomStep)
        ensures
            r == ZoomStep::Continue(self.at(phase)),
    {
        let mut run = self;
        run.phase = phase;
        Step::Continue(run)
    }
}

/// The call was made: its answer or failure is kept until the window was
/// looked at again.
pub open spec fn zoom_called_step(
    run: ZoomRun,
    before: ComputerUseSession,
    result: ComputerUseResult<ToolAnswer>,
    after: ComputerUseSession,
    step: ZoomStep,
) -> bool {
    exists|r: ComputerUseResult<AcceptedAnswer>|
        {
            &&& #[trigger] is_tool_outcome(before, result, after, r)
            &&& step == ZoomStep::Continue(
                match r {
                    Ok(answer) => ZoomRun { answer: Some(answer), failure: None, ..run },
                    Err(error) => ZoomRun { answer: None, failure: Some(error), ..run },
                }.at(ZoomPhase::GateAfter),
            )
        }
}

/// One step of a zoom.
pub open spec fn zoom_step(
    run: ZoomRun,
    before: ComputerUseSession,
    now_ms: u64,
    reply: EvidenceReply,
    after: ComputerUseSession,
    step: ZoomStep,
) -> bool {
    match (run.phase, reply) {
        (ZoomPhase::Target, EvidenceReply::Target(resolved)) => {
            &&& unusable_target_stops(before, resolved, after, step)
            &&& is_usable_target(before, resolved) ==> after == before && if run.shows(
                resolved->Ok_0,
            ) {
                step == ZoomStep::Continue(
                    ZoomRun { target: Some(resolved->Ok_0), ..run }.at(ZoomPhase::Gate),
                )
            } else {
                stops_plainly(
                    step,
                    ComputerUseErrorCode::StaleObservation,
                    "the exact target window changed after the screenshot"@,
                )
            }
        },
        (ZoomPhase::Gate, EvidenceReply::Gate(gate)) => {
            &&& refused_gate_stops(before, gate, after, step)
            &&& gate is Ok ==> if before.evidence_current(now_ms) {
                after == before && step == ZoomStep::Continue(run.at(ZoomPhase::Call))
            } else {
                &&& after == before.without_evidence()
                &&& step matches Step::Continue(next)
                &&& next.failure matches Some(error)
                &&& is_evidence_failure(before, now_ms, error)
                &&& next == (ZoomRun { answer: None, failure: Some(error), ..run }).at(
                    ZoomPhase::GateAfter,
                )
            }
        },
        (ZoomPhase::Call, EvidenceReply::Called(result)) => zoom_called_step(
            run,
            before,
            result,
            after,
            step,
        ),
        (ZoomPhase::GateAfter, EvidenceReply::Gate(gate)) => {
            &&& refused_gate_stops(before, gate, after, step)
            &&& gate is Ok ==> after == before && step == ZoomStep::Continue(
                run.at(ZoomPhase::TargetAfter),
            )
        },
        (ZoomPhase::TargetAfter, EvidenceReply::Target(resolved)) => {
            &&& unusable_target_stops(before, resolved, after, step)
            &&& is_usable_target(before, resolved) ==> match run.answer {
                Some(answer) => after == before && step == ZoomStep::Done(answer.result),
                None => stops_sensitively(before, run.failure->0, after, step),
            }
        },
        _ => after == before && step == ZoomStep::Continue(run),
    }
}

/// A zoom begins on the window that was observed.
pub open spec fn zoom_begins(before: ComputerUseSession, validation: ComputerUseResult<()>, now_ms: u64, after: ComputerUseSession, r: ComputerUseResult<ZoomRun>) -> bool {
    if !before.active {
        after == before && fails_with(
            r,
            ComputerUseErrorCode::BackendUnavailable,
            "Computer Use session is not active"@,
        )
    } else if before.observation is None {
        after == before && fails_with(
            r,
            ComputerUseErrorCode::StaleObservation,
            "take a screenshot before zooming an observation region"@,
        )
    } else if validation is Err {
        after == before && r == Err::<ZoomRun, ComputerUseError>(
            validation->Err_0,
        )
    } else if before.evidence_current(now_ms) {
        &&& after == before
        &&& r == Ok::<ZoomRun, ComputerUseError>(
            ZoomRun {
                phase: ZoomPhase::Target,
                window_handle: before.observation->0.window_handle,
                process_id: before.observation->0.process_id,
                target: None,
                answer: None,
                failure: None,
            },
        )
    } else {
        &&& r matches Err(error)
        &&& is_evidence_failure(before, now_ms, error)
        &&& after == before.without_evidence()
    }
}

impl ComputerUseSession {
    /// Begins a zoom into the latest observation. `validation` is the verdict
    /// on the region.
    pub fn begin_zoom(&mut self, validation: ComputerUseResult<()>, now_ms: u64) -> (r:
        ComputerUseResult<ZoomRun>)
        ensures
            zoom_begins(*old(self), validation, now_ms, *final(self), r),
    {
        match self.ensure_active() {
            Ok(()) => {},
            Err(error) => return Err(error),
        }
        let (window_handle, process_id) = match &self.observation {
            Some(observation) => (observation.window_handle, observation.process_id),
            None => return Err(
                ComputerUseError::new(
                    ComputerUseErrorCode::StaleObservation,
                    "take a screenshot before zooming an observation region",
                ),
            ),
        };
        match validation {
            Ok(()) => {},
            Err(error) => return Err(error),
        }
        match self.require_current_upstream_session_for_evidence(now_ms) {
            Ok(()) => Ok(
                ZoomRun {
                    phase: ZoomPhase::Target,
                    window_handle,
                    process_id,
                    target: None,
                    answer: None,
                    failure: None,
                },
            ),
            Err(error) => Err(error),
        }
    }
}

impl ZoomRun {
    fn on_called(self, session: &mut ComputerUseSession, result: ComputerUseResult<ToolAnswer>) -> (r:
        ZoomStep)
        ensures
            zoom_called_step(self, *old(session), result, *final(session), r),
            r matches Step::Continue(next) && next.well_formed(),
    {
        let ghost before = *session;
        let called = session.finish_observed_tool_attempt(result);
        assert(is_tool_outcome(before, result, *session, called));
        let mut run = self;
        match called {
            Ok(answer) => {
                run.answer = Some(answer);
                run.failure = None;
            },
            Err(error) => {
                run.answer = None;
                run.failure = Some(error);
            },
        }
        run.goes(ZoomPhase::GateAfter)
    }

    /// Takes the answer to the run's request in. An answer to some other
    /// request changes nothing.
    pub fn advance(self, session: &mut ComputerUseSession, now_ms: u64, reply: EvidenceReply) -> (r:
        ZoomStep)
        requires
            self.well_formed(),
        ensures
            zoom_step(self, *old(session), now_ms, reply, *final(session), r),
            r matches Step::Continue(next) ==> next.well_formed(),
    {
        match (self.phase, reply) {
            (ZoomPhase::Target, EvidenceReply::Target(resolved)) => {
                let target = match session.require_observed_target_available(resolved) {
                    Ok(target) => target,
                    Err(error) => return Step::Done(Err(error)),
                };
                if target.window_id != self.window_handle || target.pid != self.process_id {
                    return Step::Done(
                        Err(
                            ComputerUseError::new(
                                ComputerUseErrorCode::StaleObservation,
                                "the exact target window changed after the screenshot",
                            ),
                        ),
                    );
                }
                let mut run = self;
                run.target = Some(target);
                run.goes(ZoomPhase::Gate)
            },
            (ZoomPhase::Gate, EvidenceReply::Gate(gate)) => {
                match session.finish_observation_sensitive_attempt(gate) {
                    Ok(()) => {},
                    Err(error) => return Step::Done(Err(error)),
                }
                match session.require_current_upstream_session_for_evidence(now_ms) {
                    Ok(()) => self.goes(ZoomPhase::Call),
                    Err(error) => {
                        let mut run = self;
                        run.answer = None;
                        run.failure = Some(error);
                        run.goes(ZoomPhase::GateAfter)
                    },
                }
            },
            (ZoomPhase::Call, EvidenceReply::Called(result)) => self.on_called(session, result),
            (ZoomPhase::GateAfter, EvidenceReply::Gate(gate)) => {
                match session.finish_observation_sensitive_attempt(gate) {
                    Ok(()) => self.goes(ZoomPhase::TargetAfter),
                    Err(error) => Step::Done(Err(error)),
                }
            },
            (ZoomPhase::TargetAfter, EvidenceReply::Target(resolved)) => {
                match session.require_observed_target_available(resolved) {
                    Ok(_) => {},
                    Err(error) => return Step::Done(Err(error)),
                }
                match self.answer {
                    Some(answer) => Step::Done(answer.result),
                    None => {
                        let error = self.failure.unwrap();
                        let failed: ComputerUseResult<ComputerUseToolResult> =
                            session.finish_observation_sensitive_attempt(Err(error));
                        Step::Done(failed)
                    },
                }
            },
            _ => Step::Continue(self),
        }
    }
}

/// Where a verification is in its course.
#[derive(Debug, Clone, Copy, PartialEq, Eq, Structural)]
pub enum VerifyPhase {
    Target,
    Gate,
    Call,
    GateAfter,
    TargetAfter,
}

/// A verification of structured predicates against the window.
#[derive(Debug)]
pub struct VerifyRun {
    pub phase: VerifyPhase,
    pub include_screenshot: bool,
    pub target: Option<WindowTarget>,
    pub reply: Option<ToolReply>,
}

pub type VerifyStep = Step<VerifyRun, ComputerUseVerification>;

/// What a verification hands to the driver, but for the session.
pub open spec fn verify_members(
    target: WindowTarget,
    expect: JsonTree,
    timeout_ms: Option<u64>,
    stable_samples: Option<u64>,
    include_screenshot: bool,
) -> Map<Seq<char>, JsonTree> {
    Map::<Seq<char>, JsonTree>::empty().insert("pid"@, unsigned_tree(target.pid as u64)).insert(
        "window_id"@,
        unsigned_tree(target.window_id),
    ).insert("expect"@, expect).insert("timeout_ms"@, unsigned_or_null(timeout_ms)).insert(
        "stable_samples"@,
        unsigned_or_null(stable_samples),
    ).insert("include_screenshot"@, JsonTree::Bool(include_screenshot))
}

/// The arguments that a state is verified by.
pub open spec fn verify_is_asked(run: VerifyRun, session_id: Seq<char>, expect: JsonTree, timeout_ms: Option<u64>, stable_samples: Option<u64>, r: Option<Json>) -> bool {
    match run.target {
        Some(target) => r matches Some(arguments) && arguments.view() == JsonTree::Object(
            session_members(
                verify_members(
                    target,
                    expect,
                    timeout_ms,
                    stable_samples,
                    run.include_screenshot,
                ),
                session_id,
            ),
        ),
        None => r is None,
    }
}

impl VerifyRun {
    /// What the driver is asked to verify in the run's window. There is
    /// nothing to ask before the window was seen.
    pub fn arguments(
        &self,
        session: &ComputerUseSession,
        expect: &Json,
        timeout_ms: Option<u64>,
        stable_samples: Option<u64>,
    ) -> (r: Option<Json>)
        ensures
            verify_is_asked(*self, session.session_id@, expect.view(), timeout_ms, stable_samples, r),
    {
        match &self.target {
            Some(target) => {
                let mut members: Vec<JsonMember> = Vec::new();
                put_member(&mut members, "pid", Json::unsigned(target.pid as u64));
                put_member(&mut members, "window_id", Json::unsigned(target.window_id));
                put_member(&mut members, "expect", expect.duplicate());
                put_member(&mut members, "timeout_ms", Json::optional_unsigned(timeout_ms));
                put_member(&mut members, "stable_samples", Json::optional_unsigned(stable_samples));
                put_member(
                    &mut members,
                    "include_screenshot",
                    Json::Bool(self.include_screenshot),
                );
                put_member(&mut members, "session", Json::text(session.session_id.as_str()));
                Some(Json::Object(members))
            },
            None => None,
        }
    }
}

impl VerifyRun {
    /// What the banner shows while the run waits for its answer.
    pub open spec fn shows_activity(self) -> Option<BannerActivity> {
        Some(BannerActivity::Waiting)
    }

    /// What the banner shows while the run waits for its answer.
    pub fn activity(&self) -> (r: Option<BannerActivity>)
        ensures
            r == self.shows_activity(),
    {
        Some(BannerActivity::Waiting)
    }
}

impl VerifyRun {
    pub open spec fn at(self, phase: VerifyPhase) -> VerifyRun {
        VerifyRun { phase, ..self }
    }

    /// The run holds what its phase needs.
    pub open spec fn well_formed(self) -> bool {
        self.phase == VerifyPhase::GateAfter || self.phase == VerifyPhase::TargetAfter
            ==> self.reply is Some
    }

    pub open spec fn asks(self) -> EvidenceRequest {
        match self.phase {
            VerifyPhase::Target => EvidenceRequest::ResolveTarget,
            VerifyPhase::Gate => EvidenceRequest::CheckObservation,
            VerifyPhase::Call => EvidenceRequest::CallTool,
            VerifyPhase::GateAfter => EvidenceRequest::CheckObservation,
            VerifyPhase::TargetAfter => EvidenceRequest::ResolveTarget,
        }
    }

    pub fn request(&self) -> (r: EvidenceRequest)
        ensures
            r == self.asks(),
    {
        match self.phase {
            VerifyPhase::Target => EvidenceRequest::ResolveTarget,
            VerifyPhase::Gate => EvidenceRequest::CheckObservation,
            VerifyPhase::Call => EvidenceRequest::CallTool,
            VerifyPhase::GateAfter => EvidenceRequest::CheckObservation,
            VerifyPhase::TargetAfter => EvidenceRequest::ResolveTarget,
        }
    }

    fn goes(self, phase: VerifyPhase) -> (r: VerifyStep)
        ensures
            r == VerifyStep::Continue(self.at(phase)),
    {
        let mut run = self;
        run.phase = phase;
        Step::Continue(run)
    }
}

/// The call goes out while the evidence is current.
pub open spec fn verify_callable(
    run: VerifyRun,
    before: ComputerUseSession,
    now_ms: u64,
    after: ComputerUseSession,
    step: VerifyStep,
) -> bool {
    if before.evidence_current(now_ms) {
        after == before && step == VerifyStep::Continue(run.at(VerifyPhase::Call))
    } else {
        stale_evidence_stops(before, now_ms, after, step)
    }
}

/// The predicates were checked.
pub open spec fn verify_called_step(
    run: VerifyRun,
    before: ComputerUseSession,
    result: ComputerUseResult<ToolAnswer>,
    after: ComputerUseSession,
    step: VerifyStep,
) -> bool {
    exists|r: ComputerUseResult<AcceptedAnswer>|
        {
            &&& #[trigger] is_tool_outcome(before, result, after, r)
            &&& match r {
                Err(error) => stops(step, error),
                Ok(answer) => step == VerifyStep::Continue(
                    VerifyRun { reply: Some(answer.reply), ..run }.at(
                        if run.include_screenshot {
                            VerifyPhase::GateAfter
                        } else {
                            VerifyPhase::TargetAfter
                        },
                    ),
                ),
            }
        }
}

/// What a verification returns of its reply: the value, and the first image.
pub open spec fn verification_step(
    reply: ToolReply,
    before: ComputerUseSession,
    after: ComputerUseSession,
    step: VerifyStep,
) -> bool {
    match parsed_text(reply.raw_json@) {
        Err(message) => after == before && stops_plainly(
            step,
            ComputerUseErrorCode::BackendUnavailable,
            invalid_json_message("verify_state"@, message),
        ),
        Ok(tree) => if reply.images@.len() == 0 {
            &&& after == before.showing(BannerActivity::Ready)
            &&& step matches Step::Done(Ok(verification))
            &&& verification.value.view() == tree
            &&& verification.image is None
        } else {
            match base64_decoded(reply.images@[0].data_base64@) {
                Err(message) => after == before && stops_plainly(
                    step,
                    ComputerUseErrorCode::CaptureFailed,
                    message,
                ),
                Ok(bytes) => {
                    &&& after == before.showing(BannerActivity::Ready)
                    &&& step matches Step::Done(Ok(verification))
                    &&& verification.value.view() == tree
                    &&& verification.image matches Some(image)
                    &&& image.data@ == bytes
                    &&& image.mime_type == reply.images@[0].mime_type
                },
            }
        },
    }
}

/// One step of a verification.
pub open spec fn verify_step(
    run: VerifyRun,
    before: ComputerUseSession,
    now_ms: u64,
    reply: EvidenceReply,
    after: ComputerUseSession,
    step: VerifyStep,
) -> bool {
    match (run.phase, reply) {
        (VerifyPhase::Target, EvidenceReply::Target(resolved)) => {
            &&& unusable_target_stops(before, resolved, after, step)
            &&& is_usable_target(before, resolved) ==> {
                let bound = VerifyRun { target: Some(resolved->Ok_0), ..run };
                if run.include_screenshot {
                    after == before && step == VerifyStep::Continue(bound.at(VerifyPhase::Gate))
                } else {
                    verify_callable(bound, before, now_ms, after, step)
                }
            }
        },
        (VerifyPhase::Gate, EvidenceReply::Gate(gate)) => {
            &&& refused_gate_stops(before, gate, after, step)
            &&& gate is Ok ==> verify_callable(run, before, now_ms, after, step)
        },
        (VerifyPhase::Call, EvidenceReply::Called(result)) => verify_called_step(
            run,
            before,
            result,
            after,
            step,
        ),
        (VerifyPhase::GateAfter, EvidenceReply::Gate(gate)) => {
            &&& refused_gate_stops(before, gate, after, step)
            &&& gate is Ok ==> after == before && step == VerifyStep::Continue(
                run.at(VerifyPhase::TargetAfter),
            )
        },
        (VerifyPhase::TargetAfter, EvidenceReply::Target(resolved)) => {
            &&& unusable_target_stops(before, resolved, after, step)
            &&& is_usable_target(before, resolved) ==> verification_step(
                run.reply->0,
                before,
                after,
                step,
            )
        },
        _ => after == before && step == VerifyStep::Continue(run),
    }
}

/// A verification begins as it was asked for.
pub open spec fn verify_begins(before: ComputerUseSession, validation: ComputerUseResult<()>, include_screenshot: bool, now_ms: u64, after: ComputerUseSession, r: ComputerUseResult<VerifyRun>) -> bool {
    if !before.active {
        after == before && fails_with(
            r,
            ComputerUseErrorCode::BackendUnavailable,
            "Computer Use session is not active"@,
        )
    } else if validation is Err {
        after == before && r == Err::<VerifyRun, ComputerUseError>(
            validation->Err_0,
        )
    } else if before.evidence_current(now_ms) {
        after == before && r == Ok::<VerifyRun, ComputerUseError>(
            VerifyRun {
                phase: VerifyPhase::Target,
                include_screenshot,
                target: None,
                reply: None,
            },
        )
    } else {
        &&& r matches Err(error)
        &&& is_evidence_failure(before, now_ms, error)
        &&& after == before.without_evidence()
    }
}

impl ComputerUseSession {
    /// Begins a verification. `validation` is the verdict on the predicates.
    pub fn begin_verify_state(
        &mut self,
        validation: ComputerUseResult<()>,
        include_screenshot: bool,
        now_ms: u64,
    ) -> (r: ComputerUseResult<VerifyRun>)
        ensures
            verify_begins(*old(self), validation, include_screenshot, now_ms, *final(self), r),
    {
        match self.ensure_active() {
            Ok(()) => {},
            Err(error) => return Err(error),
        }
        match validation {
            Ok(()) => {},
            Err(error) => return Err(error),
        }
        match self.require_current_upstream_session_for_evidence(now_ms) {
            Ok(()) => Ok(
                VerifyRun {
                    phase: VerifyPhase::Target,
                    include_screenshot,
                    target: None,
                    reply: None,
                },
            ),
            Err(error) => Err(error),
        }
    }

    fn finish_verification(&mut self, reply: &ToolReply) -> (r: VerifyStep)
        ensures
            verification_step(*reply, *old(self), *final(self), r),
            r is Done,
    {
        let value = match parse_bound_tool_value("verify_state", reply.raw_json.as_str()) {
            Ok(value) => value,
            Err(error) => return Step::Done(Err(error)),
        };
        let mut image: Option<ComputerUseImage> = None;
        if reply.images.len() > 0 {
            match decode_image_data(reply.images[0].data_base64.as_str()) {
                Ok(data) => {
                    image = Some(
                        ComputerUseImage { data, mime_type: reply.images[0].mime_type.clone() },
                    );
                },
                Err(error) => return Step::Done(Err(error)),
            }
        }
        self.set_banner_activity(BannerActivity::Ready);
        Step::Done(Ok(ComputerUseVerification { value, image }))
    }
}

impl VerifyRun {
    fn call(self, session: &mut ComputerUseSession, now_ms: u64) -> (r: VerifyStep)
        ensures
            verify_callable(self, *old(session), now_ms, *final(session), r),
            r matches Step::Continue(next) ==> next.well_formed(),
    {
        match session.require_current_upstream_session_for_evidence(now_ms) {
            Ok(()) => self.goes(VerifyPhase::Call),
            Err(error) => Step::Done(Err(error)),
        }
    }

    fn on_called(self, session: &mut ComputerUseSession, result: ComputerUseResult<ToolAnswer>) -> (r:
        VerifyStep)
        ensures
            verify_called_step(self, *old(session), result, *final(session), r),
            r matches Step::Continue(next) ==> next.well_formed(),
    {
        let ghost before = *session;
        let called = session.finish_observed_tool_attempt(result);
        assert(is_tool_outcome(before, result, *session, called));
        match called {
            Ok(answer) => {
                let mut run = self;
                run.reply = Some(answer.reply);
                if run.include_screenshot {
                    run.goes(VerifyPhase::GateAfter)
                } else {
                    run.goes(VerifyPhase::TargetAfter)
                }
            },
            Err(error) => Step::Done(Err(error)),
        }
    }

    /// Takes the answer to the run's request in. An answer to some other
    /// request changes nothing.
    pub fn advance(self, session: &mut ComputerUseSession, now_ms: u64, reply: EvidenceReply) -> (r:
        VerifyStep)
        requires
            self.well_formed(),
        ensures
            verify_step(self, *old(session), now_ms, reply, *final(session), r),
            r matches Step::Continue(next) ==> next.well_formed(),
    {
        match (self.phase, reply) {
            (VerifyPhase::Target, EvidenceReply::Target(resolved)) => {
                let target = match session.require_observed_target_available(resolved) {
                    Ok(target) => target,
                    Err(error) => return Step::Done(Err(error)),
                };
                let mut run = self;
                run.target = Some(target);
                if run.include_screenshot {
                    run.goes(VerifyPhase::Gate)
                } else {
                    run.call(session, now_ms)
                }
            },
            (VerifyPhase::Gate, EvidenceReply::Gate(gate)) => {
                match session.finish_observation_sensitive_attempt(gate) {
                    Ok(()) => self.call(session, now_ms),
                    Err(error) => Step::Done(Err(error)),
                }
            },
            (VerifyPhase::Call, EvidenceReply::Called(result)) => self.on_called(session, result),
            (VerifyPhase::GateAfter, EvidenceReply::Gate(gate)) => {
                match session.finish_observation_sensitive_attempt(gate) {
                    Ok(()) => self.goes(VerifyPhase::TargetAfter),
                    Err(error) => Step::Done(Err(error)),
                }
            },
            (VerifyPhase::TargetAfter, EvidenceReply::Target(resolved)) => {
                match session.require_observed_target_available(resolved) {
                    Ok(_) => {
                        let reply = self.reply.unwrap();
                        session.finish_verification(&reply)
                    },
                    Err(error) => Step::Done(Err(error)),
                }
            },
            _ => Step::Continue(self),
        }
    }
}

/// Where a read of an accessibility tree is in its course.
#[derive(Debug, Clone, Copy, PartialEq, Eq, Structural)]
pub enum SnapshotPhase {
    RefreshGate,
    Refresh,
    Target,
    Gate,
    Call,
    Accessibility,
    GateAfter,
    TargetAfter,
    Semantics,
}

/// A read of the window's accessibility tree, without pixels.
#[derive(Debug)]
pub struct SnapshotRun {
    pub phase: SnapshotPhase,
    pub target: Option<WindowTarget>,
    pub bounds: SnapshotBounds,
    pub accessibility: Json,
}

pub type SnapshotStep = Step<SnapshotRun, Json>;

impl SnapshotRun {
    pub open spec fn at(self, phase: SnapshotPhase) -> SnapshotRun {
        SnapshotRun { phase, ..self }
    }

    pub open spec fn asks(self) -> EvidenceRequest {
        match self.phase {
            SnapshotPhase::RefreshGate => EvidenceRequest::CheckInput,
            SnapshotPhase::Refresh => EvidenceRequest::RefreshUpstream,
            SnapshotPhase::Target => EvidenceRequest::ResolveTarget,
            SnapshotPhase::Gate => EvidenceRequest::CheckObservation,
            SnapshotPhase::Call => EvidenceRequest::CallTool,
            SnapshotPhase::Accessibility => EvidenceRequest::ReadAccessibility,
            SnapshotPhase::GateAfter => EvidenceRequest::CheckObservation,
            SnapshotPhase::TargetAfter => EvidenceRequest::ResolveTarget,
            SnapshotPhase::Semantics => EvidenceRequest::ObserveSemantics,
        }
    }

    pub fn request(&self) -> (r: EvidenceRequest)
        ensures
            r == self.asks(),
    {
        match self.phase {
            SnapshotPhase::RefreshGate => EvidenceRequest::CheckInput,
            SnapshotPhase::Refresh => EvidenceRequest::RefreshUpstream,
            SnapshotPhase::Target => EvidenceRequest::ResolveTarget,
            SnapshotPhase::Gate => EvidenceRequest::CheckObservation,
            SnapshotPhase::Call => EvidenceRequest::CallTool,
            SnapshotPhase::Accessibility => EvidenceRequest::ReadAccessibility,
            SnapshotPhase::GateAfter => EvidenceRequest::CheckObservation,
            SnapshotPhase::TargetAfter => EvidenceRequest::ResolveTarget,
            SnapshotPhase::Semantics => EvidenceRequest::ObserveSemantics,
        }
    }

    fn goes(self, phase: SnapshotPhase) -> (r: SnapshotStep)
        ensures
            r == SnapshotStep::Continue(self.at(phase)),
    {
        let mut run = self;
        run.phase = phase;
        Step::Continue(run)
    }
}

impl SnapshotRun {
    /// What the banner shows while the run waits for its answer.
    pub open spec fn shows_activity(self) -> Option<BannerActivity> {
        Some(BannerActivity::Observing)
    }

    /// What the banner shows while the run waits for its answer.
    pub fn activity(&self) -> (r: Option<BannerActivity>)
        ensures
            r == self.shows_activity(),
    {
        Some(BannerActivity::Observing)
    }
}

/// The structured state of a reply.
pub open spec fn structured_tree(reply: ToolReply) -> Option<JsonTree> {
    match reply.structured_json {
        None => None,
        Some(text) => match parsed_text(text@) {
            Ok(tree) => Some(tree),
            Err(_) => None,
        },
    }
}

/// The driver's accessibility tree was read.
pub open spec fn snapshot_called_step(
    run: SnapshotRun,
    before: ComputerUseSession,
    result: ComputerUseResult<ToolAnswer>,
    after: ComputerUseSession,
    step: SnapshotStep,
) -> bool {
    exists|r: ComputerUseResult<AcceptedAnswer>|
        {
            &&& #[trigger] is_tool_outcome(before, result, after, r)
            &&& match r {
                Err(error) => stops(step, error),
                Ok(answer) => match structured_tree(answer.reply) {
                    None => stops_plainly(
                        step,
                        ComputerUseErrorCode::CaptureFailed,
                        "CUA window state returned no structured accessibility state"@,
                    ),
                    Some(tree) => {
                        &&& step matches Step::Continue(next)
                        &&& next.accessibility.view() == tree
                        &&& next == (SnapshotRun { accessibility: next.accessibility, ..run }).at(
                            SnapshotPhase::GateAfter,
                        )
                    },
                },
            }
        }
}

/// One step of a read of an accessibility tree.
pub open spec fn snapshot_step(
    run: SnapshotRun,
    before: ComputerUseSession,
    now_ms: u64,
    reply: EvidenceReply,
    after: ComputerUseSession,
    step: SnapshotStep,
) -> bool {
    match (run.phase, reply) {
        (SnapshotPhase::RefreshGate, EvidenceReply::Gate(gate)) => match gate {
            Ok(()) => after == before && step == SnapshotStep::Continue(
                run.at(SnapshotPhase::Refresh),
            ),
            Err(cause) => {
                &&& after == before.after_failure(cause.code).without_evidence()
                &&& step matches Step::Done(Err(error))
                &&& is_refresh_failure(cause, error)
            },
        },
        (SnapshotPhase::Refresh, EvidenceReply::Refreshed(result)) => match result {
            Ok(()) => after == before.refreshed(now_ms) && step == SnapshotStep::Continue(
                run.at(SnapshotPhase::Target),
            ),
            Err(cause) => {
                &&& after == before.without_evidence()
                &&& step matches Step::Done(Err(error))
                &&& is_refresh_failure(cause, error)
            },
        },
        (SnapshotPhase::Target, EvidenceReply::Target(resolved)) => {
            &&& unusable_target_stops(before, resolved, after, step)
            &&& is_usable_target(before, resolved) ==> after == before && step
                == SnapshotStep::Continue(
                SnapshotRun { target: Some(resolved->Ok_0), ..run }.at(SnapshotPhase::Gate),
            )
        },
        (SnapshotPhase::Gate, EvidenceReply::Gate(gate)) => {
            &&& refused_gate_stops(before, gate, after, step)
            &&& gate is Ok ==> after == before && step == SnapshotStep::Continue(
                run.at(
                    if before.native_windows {
                        SnapshotPhase::Accessibility
                    } else {
                        SnapshotPhase::Call
                    },
                ),
            )
        },
        (SnapshotPhase::Call, EvidenceReply::Called(result)) => snapshot_called_step(
            run,
            before,
            result,
            after,
            step,
        ),
        (SnapshotPhase::Accessibility, EvidenceReply::Accessibility(read)) => match read {
            Err(error) => after == before && stops(step, error),
            Ok(accessibility) => after == (ComputerUseSession { windows_uia: true, ..before })
                && step == SnapshotStep::Continue(
                SnapshotRun { accessibility, ..run }.at(SnapshotPhase::GateAfter),
            ),
        },
        (SnapshotPhase::GateAfter, EvidenceReply::Gate(gate)) => {
            &&& refused_gate_stops(before, gate, after, step)
            &&& gate is Ok ==> after == before && step == SnapshotStep::Continue(
                run.at(SnapshotPhase::TargetAfter),
            )
        },
        (SnapshotPhase::TargetAfter, EvidenceReply::Target(resolved)) => {
            &&& unusable_target_stops(before, resolved, after, step)
            &&& is_usable_target(before, resolved) ==> after == before && step
                == SnapshotStep::Continue(
                SnapshotRun { target: Some(resolved->Ok_0), ..run }.at(SnapshotPhase::Semantics),
            )
        },
        (SnapshotPhase::Semantics, EvidenceReply::Semantics(observation)) => {
            &&& after == (ComputerUseSession {
                target: run.target,
                observation: Some(observation),
                ..before
            })
            &&& step == SnapshotStep::Done(Ok(run.accessibility))
        },
        _ => after == before && step == SnapshotStep::Continue(run),
    }
}

/// A snapshot begins within its bounds.
pub open spec fn snapshot_begins(session: ComputerUseSession, now_ms: u64, bounds: SnapshotBounds, r: ComputerUseResult<SnapshotRun>) -> bool {
    if !session.active {
        fails_with(
            r,
            ComputerUseErrorCode::BackendUnavailable,
            "Computer Use session is not active"@,
        )
    } else {
        r == Ok::<SnapshotRun, ComputerUseError>(
            SnapshotRun {
                phase: if session.refresh_needed(now_ms) {
                    SnapshotPhase::RefreshGate
                } else {
                    SnapshotPhase::Target
                },
                target: None,
                bounds,
                accessibility: Json::Null,
            },
        )
    }
}

impl ComputerUseSession {
    /// Begins a read of as much of the window's accessibility tree as the bounds
    /// allow.
    pub fn begin_accessibility_snapshot(&self, now_ms: u64, bounds: SnapshotBounds) -> (r:
        ComputerUseResult<SnapshotRun>)
        ensures
            snapshot_begins(*self, now_ms, bounds, r),
    {
        match self.ensure_active() {
            Ok(()) => {},
            Err(error) => return Err(error),
        }
        let phase = if self.upstream_refresh_needed(now_ms) {
            SnapshotPhase::RefreshGate
        } else {
            SnapshotPhase::Target
        };
        Ok(SnapshotRun { phase, target: None, bounds, accessibility: Json::Null })
    }
}

/// The arguments that a snapshot is taken by.
pub open spec fn snapshot_is_asked(run: SnapshotRun, session_id: Seq<char>, r: Option<Json>) -> bool {
    match run.target {
        Some(target) => r matches Some(arguments) && arguments.view() == state_tree(
            target.pid,
            target.window_id,
            false,
            run.bounds,
            session_id,
        ),
        None => r is None,
    }
}

impl SnapshotRun {
    /// What the driver is asked: the bounded tree of the window that was seen,
    /// and no pixels. There is nothing to ask before it was seen.
    pub fn capture_arguments(&self, session_id: &str) -> (r: Option<Json>)
        ensures
            snapshot_is_asked(*self, session_id@, r),
    {
        match &self.target {
            Some(target) => Some(
                state_arguments(target.pid, target.window_id, false, self.bounds, session_id),
            ),
            None => None,
        }
    }

    fn on_called(self, session: &mut ComputerUseSession, result: ComputerUseResult<ToolAnswer>) -> (r:
        SnapshotStep)
        ensures
            snapshot_called_step(self, *old(session), result, *final(session), r),
    {
        let ghost before = *session;
        let called = session.finish_observed_tool_attempt(result);
        assert(is_tool_outcome(before, result, *session, called));
        let answer = match called {
            Ok(answer) => answer,
            Err(error) => return Step::Done(Err(error)),
        };
        let parsed = match &answer.reply.structured_json {
            Some(text) => structured_state(Some(text.as_str())),
            None => None,
        };
        match parsed {
            Some(accessibility) => {
                let mut run = self;
                run.accessibility = accessibility;
                run.goes(SnapshotPhase::GateAfter)
            },
            None => Step::Done(
                Err(
                    ComputerUseError::new(
                        ComputerUseErrorCode::CaptureFailed,
                        "CUA window state returned no structured accessibility state",
                    ),
                ),
            ),
        }
    }

    /// Takes the answer to the run's request in. An answer to some other
    /// request changes nothing.
    pub fn advance(self, session: &mut ComputerUseSession, now_ms: u64, reply: EvidenceReply) -> (r:
        SnapshotStep)
        ensures
            snapshot_step(self, *old(session), now_ms, reply, *final(session), r),
    {
        match (self.phase, reply) {
            (SnapshotPhase::RefreshGate, EvidenceReply::Gate(gate)) => {
                match session.gate_upstream_refresh(gate) {
                    Ok(()) => self.goes(SnapshotPhase::Refresh),
                    Err(error) => Step::Done(Err(error)),
                }
            },
            (SnapshotPhase::Refresh, EvidenceReply::Refreshed(result)) => {
                match session.finish_upstream_refresh(result, now_ms) {
                    Ok(()) => self.goes(SnapshotPhase::Target),
                    Err(error) => Step::Done(Err(error)),
                }
            },
            (SnapshotPhase::Target, EvidenceReply::Target(resolved)) => {
                match session.require_observed_target_available(resolved) {
                    Ok(target) => {
                        let mut run = self;
                        run.target = Some(target);
                        run.goes(SnapshotPhase::Gate)
                    },
                    Err(error) => Step::Done(Err(error)),
                }
            },
            (SnapshotPhase::Gate, EvidenceReply::Gate(gate)) => {
                match session.finish_observation_sensitive_attempt(gate) {
                    Ok(()) => {},
                    Err(error) => return Step::Done(Err(error)),
                }
                if session.native_windows {
                    self.goes(SnapshotPhase::Accessibility)
                } else {
                    self.goes(SnapshotPhase::Call)
                }
            },
            (SnapshotPhase::Call, EvidenceReply::Called(result)) => self.on_called(session, result),
            (SnapshotPhase::Accessibility, EvidenceReply::Accessibility(read)) => match read {
                Ok(accessibility) => {
                    session.windows_uia = true;
                    let mut run = self;
                    run.accessibility = accessibility;
                    run.goes(SnapshotPhase::GateAfter)
                },
                Err(error) => Step::Done(Err(error)),
            },
            (SnapshotPhase::GateAfter, EvidenceReply::Gate(gate)) => {
                match session.finish_observation_sensitive_attempt(gate) {
                    Ok(()) => self.goes(SnapshotPhase::TargetAfter),
                    Err(error) => Step::Done(Err(error)),
                }
            },
            (SnapshotPhase::TargetAfter, EvidenceReply::Target(resolved)) => {
                match session.require_observed_target_available(resolved) {
                    Ok(target) => {
                        let mut run = self;
                        run.target = Some(target);
                        run.goes(SnapshotPhase::Semantics)
                    },
                    Err(error) => Step::Done(Err(error)),
                }
            },
            (SnapshotPhase::Semantics, EvidenceReply::Semantics(observation)) => {
                session.observation = Some(observation);
                session.target = self.target;
                Step::Done(Ok(self.accessibility))
            },
            _ => Step::Continue(self),
        }
    }
}

/// A tree is asked of the very window that was seen to be usable, within the
/// bounds of the caller, and what it makes is an observation of the window that
/// was found usable afterwards.
pub proof fn law_snapshots_ask_for_the_usable_window(
    run: SnapshotRun,
    before: ComputerUseSession,
    now_ms: u64,
    reply: EvidenceReply,
    after: ComputerUseSession,
    next: SnapshotRun,
)
    requires
        snapshot_step(run, before, now_ms, reply, after, SnapshotStep::Continue(next)),
    ensures
        next.bounds == run.bounds,
        run.phase != SnapshotPhase::Gate && next.phase == SnapshotPhase::Gate ==> (
        next.target matches Some(target) && is_usable_target(before, Ok(target))),
        run.phase == SnapshotPhase::Gate && next.phase != run.phase ==> next.target == run.target
            && (next.phase == SnapshotPhase::Call || next.phase == SnapshotPhase::Accessibility),
        run.phase != SnapshotPhase::Semantics && next.phase == SnapshotPhase::Semantics ==> (
        next.target matches Some(target) && is_usable_target(before, Ok(target))),
{
}

/// A region is zoomed in the window that was observed, for the session, by what
/// the caller gave of it.
pub proof fn law_zooms_name_the_observed_window(
    run: ZoomRun,
    session_id: Seq<char>,
    region: Map<Seq<char>, JsonTree>,
    key: Seq<char>,
)
    ensures
        zoom_arguments(run, session_id, region).u64_at("pid"@) == Some(run.process_id as u64),
        zoom_arguments(run, session_id, region).u64_at("window_id"@) == Some(run.window_handle),
        zoom_arguments(run, session_id, region).text_at("session"@) == Some(session_id),
        key != "pid"@ && key != "window_id"@ && key != "session"@ ==> zoom_arguments(
            run,
            session_id,
            region,
        ).get(key) == JsonTree::Object(region).get(key),
{
    reveal_strlit("pid");
    reveal_strlit("window_id");
    reveal_strlit("session");
    assert("pid"@.len() == 3);
    assert("window_id"@.len() == 9);
    assert("session"@.len() == 7);
}

/// A zoom begins in an active session, on its current observation.
pub proof fn law_zooms_begin_on_the_observation(
    before: ComputerUseSession,
    validation: ComputerUseResult<()>,
    now_ms: u64,
    after: ComputerUseSession,
    r: ComputerUseResult<ZoomRun>,
)
    requires
        zoom_begins(before, validation, now_ms, after, r),
    ensures
        r is Ok <==> before.active && before.observation is Some && validation is Ok
            && before.evidence_current(now_ms),
        r matches Ok(run) ==> run.window_handle == before.observation->0.window_handle
            && run.process_id == before.observation->0.process_id && run.asks()
            == EvidenceRequest::ResolveTarget && run.phase == ZoomPhase::Target && run.answer is None
            && after == before,
        before.active && before.observation is Some && validation is Err ==> r == Err::<
            ZoomRun,
            ComputerUseError,
        >(validation->Err_0),
        after.active == before.active,
{
}

/// A zoom is called for only past an open gate with current evidence, of a usable
/// window that is still the observed one. What the driver answered is kept, and is
/// what the zoom ends with once its gate and the window held once more.
pub proof fn law_zooms_hand_the_answer_on(
    run: ZoomRun,
    before: ComputerUseSession,
    now_ms: u64,
    reply: EvidenceReply,
    after: ComputerUseSession,
    step: ZoomStep,
)
    requires
        run.well_formed(),
        zoom_step(run, before, now_ms, reply, after, step),
    ensures
        step matches Step::Continue(next) ==> {
            &&& next.window_handle == run.window_handle
            &&& next.process_id == run.process_id
            &&& next.phase == ZoomPhase::Gate && run.phase == ZoomPhase::Target ==> (
            reply matches EvidenceReply::Target(Ok(target)) && is_usable_target(before, Ok(target))
                && target.window_id == run.window_handle && target.pid == run.process_id
                && next.target == Some(target))
            &&& next.phase == ZoomPhase::Call && run.phase != ZoomPhase::Call ==> run.phase
                == ZoomPhase::Gate && reply is Gate && reply->Gate_0 is Ok
                && before.evidence_current(now_ms)
            &&& run.phase == ZoomPhase::Call && (reply matches EvidenceReply::Called(Ok(answer))
                && answer.accepted is Ok) ==> (next.answer matches Some(kept) && kept.result
                == reply->Called_0->Ok_0.result && next.failure is None)
            &&& run.phase == ZoomPhase::Call && (reply matches EvidenceReply::Called(Err(_)))
                ==> next.failure == Some(reply->Called_0->Err_0) && next.answer is None
            &&& run.phase == ZoomPhase::GateAfter ==> next.answer == run.answer && next.failure
                == run.failure
            &&& next.phase == ZoomPhase::TargetAfter && run.phase == ZoomPhase::GateAfter
                ==> reply is Gate && reply->Gate_0 is Ok
        },
        (step matches Step::Done(Ok(result)) ==> run.phase == ZoomPhase::TargetAfter
            && run.answer is Some && run.answer->0.result == Ok::<
            ComputerUseToolResult,
            ComputerUseError,
        >(result) && reply is Target && is_usable_target(before, reply->Target_0) && after
            == before),
        run.phase == ZoomPhase::TargetAfter && reply is Target && is_usable_target(
            before,
            reply->Target_0,
        ) && run.answer is None ==> step == ZoomStep::Done(Err(run.failure->0)),
        (run.phase == ZoomPhase::Gate || run.phase == ZoomPhase::GateAfter) && reply is Gate
            && reply->Gate_0 is Err ==> step == ZoomStep::Done(Err(reply->Gate_0->Err_0)),
        (run.phase == ZoomPhase::Target || run.phase == ZoomPhase::TargetAfter) && reply is Target
            && !is_usable_target(before, reply->Target_0) ==> (step matches Step::Done(Err(_))),
{
}

/// A state is verified in the usable window, for the session, by exactly what the
/// caller expects and allows.
pub proof fn law_verifications_ask_what_was_expected(
    run: VerifyRun,
    session_id: Seq<char>,
    expect: JsonTree,
    timeout_ms: Option<u64>,
    stable_samples: Option<u64>,
    r: Option<Json>,
)
    requires
        verify_is_asked(run, session_id, expect, timeout_ms, stable_samples, r),
    ensures
        r is Some <==> run.target is Some,
        r matches Some(asked) ==> {
            &&& asked.view().u64_at("pid"@) == Some(run.target->0.pid as u64)
            &&& asked.view().u64_at("window_id"@) == Some(run.target->0.window_id)
            &&& asked.view().get("expect"@) == Some(expect)
            &&& asked.view().u64_at("timeout_ms"@) == timeout_ms
            &&& asked.view().u64_at("stable_samples"@) == stable_samples
            &&& asked.view().bool_at("include_screenshot"@) == Some(run.include_screenshot)
            &&& asked.view().text_at("session"@) == Some(session_id)
        },
{
    reveal_strlit("pid");
    reveal_strlit("window_id");
    reveal_strlit("expect");
    reveal_strlit("timeout_ms");
    reveal_strlit("stable_samples");
    reveal_strlit("include_screenshot");
    reveal_strlit("session");
    assert("pid"@.len() == 3);
    assert("window_id"@.len() == 9);
    assert("expect"@.len() == 6);
    assert("timeout_ms"@.len() == 10);
    assert("stable_samples"@.len() == 14);
    assert("include_screenshot"@.len() == 18);
    assert("session"@.len() == 7);
}

/// A verification begins in an active session with current evidence, with a
/// picture where that was asked for.
pub proof fn law_verifications_begin_as_asked(
    before: ComputerUseSession,
    validation: ComputerUseResult<()>,
    include_screenshot: bool,
    now_ms: u64,
    after: ComputerUseSession,
    r: ComputerUseResult<VerifyRun>,
)
    requires
        verify_begins(before, validation, include_screenshot, now_ms, after, r),
    ensures
        r is Ok <==> before.active && validation is Ok && before.evidence_current(now_ms),
        r matches Ok(run) ==> run.include_screenshot == include_screenshot && run.phase
            == VerifyPhase::Target && run.reply is None && after == before,
        before.active && validation is Err ==> r == Err::<VerifyRun, ComputerUseError>(
            validation->Err_0,
        ),
        after.active == before.active,
{
}

/// A verification is called for only with current evidence and a usable window,
/// and past an open gate where it shows a picture. What the driver answered is kept
/// and read into the result, its first picture with it.
pub proof fn law_verifications_hand_the_answer_on(
    run: VerifyRun,
    before: ComputerUseSession,
    now_ms: u64,
    reply: EvidenceReply,
    after: ComputerUseSession,
    step: VerifyStep,
)
    requires
        run.well_formed(),
        verify_step(run, before, now_ms, reply, after, step),
    ensures
        step matches Step::Continue(next) ==> {
            &&& next.include_screenshot == run.include_screenshot
            &&& run.phase == VerifyPhase::Target && next.phase != run.phase ==> (
            reply matches EvidenceReply::Target(Ok(target)) && is_usable_target(before, Ok(target))
                && next.target == Some(target))
            &&& run.phase != VerifyPhase::Target ==> next.target == run.target
            &&& next.phase == VerifyPhase::Call && run.phase != VerifyPhase::Call
                ==> before.evidence_current(now_ms) && (run.include_screenshot ==> run.phase
                == VerifyPhase::Gate && reply is Gate && reply->Gate_0 is Ok)
            &&& run.phase == VerifyPhase::Call && (reply matches EvidenceReply::Called(Ok(answer)))
                ==> next.reply == Some(reply->Called_0->Ok_0.reply)
            &&& run.phase == VerifyPhase::GateAfter ==> next.reply == run.reply
            &&& run.phase == VerifyPhase::Call && next.phase != run.phase ==> (next.phase
                == VerifyPhase::GateAfter <==> run.include_screenshot)
        },
        run.phase == VerifyPhase::Call && (reply matches EvidenceReply::Called(Err(_))) ==> step
            == VerifyStep::Done(Err(reply->Called_0->Err_0)),
        run.phase == VerifyPhase::Call && (reply matches EvidenceReply::Called(Ok(answer))
            && answer.accepted is Err) ==> step == VerifyStep::Done(
            Err(reply->Called_0->Ok_0.accepted->Err_0),
        ),
        step matches Step::Done(Ok(verification)) ==> {
            &&& run.phase == VerifyPhase::TargetAfter
            &&& reply is Target
            &&& is_usable_target(before, reply->Target_0)
            &&& parsed_text(run.reply->0.raw_json@) == Ok::<JsonTree, Seq<char>>(
                verification.value.view(),
            )
            &&& verification.image is Some <==> run.reply->0.images@.len() > 0
            &&& verification.image matches Some(image) ==> base64_decoded(
                run.reply->0.images@[0].data_base64@,
            ) == Ok::<Seq<u8>, Seq<char>>(image.data@) && image.mime_type
                == run.reply->0.images@[0].mime_type
            &&& after.observation == before.observation
            &&& after.target == before.target
            &&& after.active == before.active
        },
        (run.phase == VerifyPhase::Gate || run.phase == VerifyPhase::GateAfter) && reply is Gate
            && reply->Gate_0 is Err ==> step == VerifyStep::Done(Err(reply->Gate_0->Err_0)),
        (run.phase == VerifyPhase::Target || run.phase == VerifyPhase::TargetAfter)
            && reply is Target && !is_usable_target(before, reply->Target_0) ==> (
        step matches Step::Done(Err(_))),
{
}

/// A snapshot begins in an active session, within the bounds given, with a refresh
/// where the evidence has aged.
pub proof fn law_snapshots_begin_within_their_bounds(
    session: ComputerUseSession,
    now_ms: u64,
    bounds: SnapshotBounds,
    r: ComputerUseResult<SnapshotRun>,
)
    requires
        snapshot_begins(session, now_ms, bounds, r),
    ensures
        r is Ok <==> session.active,
        r matches Ok(run) ==> run.bounds == bounds && (run.asks() == EvidenceRequest::CheckInput
            <==> session.refresh_needed(now_ms)) && (run.asks() == EvidenceRequest::ResolveTarget
            <==> !session.refresh_needed(now_ms)),
{
}

/// A snapshot is asked of the usable window, without a picture, within its bounds.
pub proof fn law_snapshots_ask_within_their_bounds(
    run: SnapshotRun,
    session_id: Seq<char>,
    r: Option<Json>,
)
    requires
        snapshot_is_asked(run, session_id, r),
    ensures
        r is Some <==> run.target is Some,
        r matches Some(asked) ==> {
            &&& asked.view().u64_at("pid"@) == Some(run.target->0.pid as u64)
            &&& asked.view().u64_at("window_id"@) == Some(run.target->0.window_id)
            &&& asked.view().bool_at("include_screenshot"@) == Some(false)
            &&& asked.view().u64_at("max_elements"@) == Some(run.bounds.max_elements as u64)
            &&& asked.view().u64_at("max_depth"@) == Some(run.bounds.max_depth as u64)
            &&& asked.view().text_at("session"@) == Some(session_id)
        },
{
    reveal_strlit("pid");
    reveal_strlit("window_id");
    reveal_strlit("include_screenshot");
    reveal_strlit("max_elements");
    reveal_strlit("max_depth");
    reveal_strlit("session");
    assert("pid"@.len() == 3);
    assert("window_id"@.len() == 9);
    assert("include_screenshot"@.len() == 18);
    assert("max_elements"@.len() == 12);
    assert("max_depth"@.len() == 9);
    assert("session"@.len() == 7);
    assert("window_id"@[0] != "max_depth"@[0]);
}

/// What was read of the window's accessibility is kept and is what the snapshot
/// ends with; the session then holds the observation that was made of it, and the
/// window that was found usable last.
pub proof fn law_snapshots_hand_the_accessibility_on(
    run: SnapshotRun,
    before: ComputerUseSession,
    now_ms: u64,
    reply: EvidenceReply,
    after: ComputerUseSession,
    step: SnapshotStep,
)
    requires
        snapshot_step(run, before, now_ms, reply, after, step),
    ensures
        step matches Step::Continue(next) ==> {
            &&& next.bounds == run.bounds
            &&& run.phase == SnapshotPhase::Accessibility && (
            reply matches EvidenceReply::Accessibility(Ok(_))) ==> next.accessibility
                == reply->Accessibility_0->Ok_0 && after.windows_uia
            &&& run.phase == SnapshotPhase::Call && (reply matches EvidenceReply::Called(Ok(_)))
                ==> reply->Called_0->Ok_0.reply.structured_json is Some && parsed_text(
                reply->Called_0->Ok_0.reply.structured_json->0@,
            ) == Ok::<JsonTree, Seq<char>>(next.accessibility.view())
            &&& run.phase == SnapshotPhase::GateAfter || run.phase == SnapshotPhase::TargetAfter
                ==> next.accessibility == run.accessibility
            &&& (run.phase == SnapshotPhase::Target || run.phase == SnapshotPhase::TargetAfter)
                && next.phase != run.phase ==> (reply matches EvidenceReply::Target(Ok(target))
                && is_usable_target(before, Ok(target)) && next.target == Some(target))
            &&& run.phase != SnapshotPhase::Target && run.phase != SnapshotPhase::TargetAfter
                ==> next.target == run.target
            &&& next.phase == SnapshotPhase::Accessibility && next.phase != run.phase
                ==> before.native_windows && reply is Gate && reply->Gate_0 is Ok
            &&& next.phase == SnapshotPhase::Call && next.phase != run.phase
                ==> !before.native_windows && reply is Gate && reply->Gate_0 is Ok
        },
        step matches Step::Done(Ok(accessibility)) ==> {
            &&& run.phase == SnapshotPhase::Semantics
            &&& accessibility == run.accessibility
            &&& reply is Semantics
            &&& after.observation == Some(reply->Semantics_0)
            &&& after.target == run.target
            &&& after.active == before.active
            &&& after.live == before.live
        },
        run.phase == SnapshotPhase::Accessibility && (
        reply matches EvidenceReply::Accessibility(Err(_))) ==> step == SnapshotStep::Done(
            Err(reply->Accessibility_0->Err_0),
        ),
        run.phase == SnapshotPhase::Call && (reply matches EvidenceReply::Called(Err(_))) ==> step
            == SnapshotStep::Done(Err(reply->Called_0->Err_0)),
        (run.phase == SnapshotPhase::Gate || run.phase == SnapshotPhase::GateAfter) && reply is Gate
            && reply->Gate_0 is Err ==> step == SnapshotStep::Done(Err(reply->Gate_0->Err_0)),
        (run.phase == SnapshotPhase::RefreshGate) && reply is Gate && reply->Gate_0 is Err ==> (
        step matches Step::Done(Err(error)) && error.message@ == reply->Gate_0->Err_0.message@)
            && after.observation is None,
        run.phase == SnapshotPhase::Refresh && reply is Refreshed && reply->Refreshed_0 is Err ==> (
        step matches Step::Done(Err(error)) && error.message@
            == reply->Refreshed_0->Err_0.message@) && after.observation is None,
        (run.phase == SnapshotPhase::Target || run.phase == SnapshotPhase::TargetAfter)
            && reply is Target && !is_usable_target(before, reply->Target_0) ==> (
        step matches Step::Done(Err(_))),
{
}

} // verus!
