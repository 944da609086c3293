//! Observations from the latest-frame feed: the newest frame past every
//! boundary at which evidence was spent.

use crate::contracts::ComputerUseScreenshot;
use crate::errors::ComputerUseResult;
use crate::json::{put_member, Json, JsonMember};
#[allow(unused_imports)]
use crate::json::{unsigned_or_null, unsigned_tree, JsonTree};
use crate::live_observation::{observation_sequence_fence, LiveObservationFence};
#[allow(unused_imports)]
use crate::live_observation::{fence_in, later_of};
use crate::session::{BannerActivity, ComputerUseSession};
#[allow(unused_imports)]
use crate::session::is_usable_target;
use crate::session_observation::new_observation;
#[allow(unused_imports)]
use crate::session_observation::{is_publishable, is_published, observation_of, publication_stops};
use crate::steps::Step;
#[allow(unused_imports)]
use crate::steps::{refused_gate_stops, stops_sensitively, unusable_target_stops};
use crate::window_target::WindowTarget;
use vstd::prelude::*;

verus! {

/// Where an observation from the feed is in its course.
#[derive(Debug, Clone, Copy, PartialEq, Eq, Structural)]
pub enum FramePhase {
    Gate,
    Target,
    GateAgain,
    /// The desktop, right before the frame is taken.
    FrameGate,
    Frame,
    EncodeGate,
    Encode,
    EncodedGate,
    TargetAfter,
    PublishGate,
    PublishTarget,
}

/// One frame of the feed, as far as an observation speaks of it.
#[derive(Debug, Clone, Copy, PartialEq, Eq, Structural)]
pub struct FrameFacts {
    pub sequence: u64,
    pub captured_at_ms: u64,
    pub width: u32,
    pub height: u32,
}

/// An observation from the feed.
#[derive(Debug)]
pub struct FrameRun {
    pub phase: FramePhase,
    pub stream_id: u64,
    pub max_dimension: u32,
    /// The frame of the observation before this one.
    pub previous: Option<LiveObservationFence>,
    pub action_fence: Option<LiveObservationFence>,
    pub transition_fence: Option<LiveObservationFence>,
    /// The sequence that the frame has to come after.
    pub after_sequence: Option<u64>,
    pub frame: FrameFacts,
    pub data: Vec<u8>,
    pub size: (u32, u32),
    pub target: Option<WindowTarget>,
}

/// What an observation from the feed asks for.
#[derive(Debug, Clone, Copy, PartialEq, Eq, Structural)]
pub enum FrameRequest {
    CheckObservation,
    ResolveTarget,
    /// A frame that comes after the sequence.
    WaitForFrame { after_sequence: Option<u64> },
    EncodeFrame,
    /// The window, the number of the observation, and the frame's age.
    ResolvePublication,
}

/// What the host hands back.
#[derive(Debug)]
pub enum FrameReply {
    Gate(ComputerUseResult<()>),
    Target(ComputerUseResult<WindowTarget>),
    Frame(ComputerUseResult<FrameFacts>),
    Encoded(ComputerUseResult<(Vec<u8>, (u32, u32))>),
    Publication { resolved: ComputerUseResult<WindowTarget>, serial: u64, age_ms: u64 },
}

pub type FrameStep = Step<FrameRun, ComputerUseScreenshot>;

impl FrameRun {
    pub open spec fn at(self, phase: FramePhase) -> FrameRun {
        FrameRun { phase, ..self }
    }

    /// The run holds what its phase needs.
    pub open spec fn well_formed(self) -> bool {
        self.phase == FramePhase::PublishGate || self.phase == FramePhase::PublishTarget
            ==> self.target is Some
    }

    pub open spec fn asks(self) -> FrameRequest {
        match self.phase {
            FramePhase::Target | FramePhase::TargetAfter => FrameRequest::ResolveTarget,
            FramePhase::Frame => FrameRequest::WaitForFrame {
                after_sequence: self.after_sequence,
            },
            FramePhase::Encode => FrameRequest::EncodeFrame,
            FramePhase::PublishTarget => FrameRequest::ResolvePublication,
            _ => FrameRequest::CheckObservation,
        }
    }

    pub fn request(&self) -> (r: FrameRequest)
        ensures
            r == self.asks(),
    {
        match self.phase {
            FramePhase::Target | FramePhase::TargetAfter => FrameRequest::ResolveTarget,
            FramePhase::Frame => FrameRequest::WaitForFrame {
                after_sequence: self.after_sequence,
            },
            FramePhase::Encode => FrameRequest::EncodeFrame,
            FramePhase::PublishTarget => FrameRequest::ResolvePublication,
            _ => FrameRequest::CheckObservation,
        }
    }

    fn goes(self, phase: FramePhase) -> (r: FrameStep)
        ensures
            r == FrameStep::Continue(self.at(phase)),
    {
        let mut run = self;
        run.phase = phase;
        Step::Continue(run)
    }
}

impl FrameRun {
    /// What the banner shows while the run waits for its answer.
    pub open spec fn shows_activity(self) -> Option<BannerActivity> {
        Some(BannerActivity::Observing)
    }

    /// What the banner shows while the run waits for its answer.
    pub fn activity(&self) -> (r: Option<BannerActivity>)
        ensures
            r == self.shows_activity(),
    {
        Some(BannerActivity::Observing)
    }
}

/// The frame that the latest observation shows, where it came from a feed.
pub open spec fn observed_frame(session: ComputerUseSession) -> Option<LiveObservationFence> {
    match session.observation {
        None => None,
        Some(observation) => {
            let provenance = observation.capture_provenance.view();
            match (
                provenance.u64_at("live_stream_id"@),
                provenance.u64_at("live_frame_sequence"@),
            ) {
                (Some(stream), Some(last_sequence)) => Some(
                    LiveObservationFence { stream, last_sequence },
                ),
                _ => None,
            }
        },
    }
}

/// The session whose waiting boundary moved to the newest frame.
pub open spec fn rebaselined(session: ComputerUseSession) -> ComputerUseSession {
    ComputerUseSession {
        transition_fence: if session.transition_fence is Some && session.live_fence() is Some {
            session.live_fence()
        } else {
            session.transition_fence
        },
        ..session
    }
}

/// The run with the boundaries its frame has to pass.
pub open spec fn fenced(run: FrameRun, session: ComputerUseSession) -> FrameRun {
    let previous = observed_frame(session);
    FrameRun {
        previous,
        action_fence: session.post_action_fence,
        transition_fence: session.transition_fence,
        after_sequence: later_of(
            later_of(
                fence_in(previous, run.stream_id),
                fence_in(session.post_action_fence, run.stream_id),
            ),
            fence_in(session.transition_fence, run.stream_id),
        ),
        ..run
    }
}

/// How many frames went by unseen.
pub open spec fn frames_skipped(previous: Option<u64>, sequence: u64) -> u64 {
    match previous {
        None => 0,
        Some(seen) => if sequence > seen + 1 {
            (sequence - seen - 1) as u64
        } else {
            0
        },
    }
}

pub open spec fn fence_stream(fence: Option<LiveObservationFence>) -> Option<u64> {
    match fence {
        Some(fence) => Some(fence.stream),
        None => None,
    }
}

/// Where the pixels of a frame came from.
pub open spec fn frame_provenance(run: FrameRun, target: WindowTarget, age_ms: u64) -> JsonTree {
    JsonTree::Object(
        Map::<Seq<char>, JsonTree>::empty().insert(
            "backend"@,
            JsonTree::Text("cua-live-wgc-latest-frame"@),
        ).insert("pixels_captured"@, JsonTree::Bool(true)).insert(
            "scope"@,
            JsonTree::Text("window"@),
        ).insert("process_id"@, unsigned_tree(target.pid as u64)).insert(
            "window_handle"@,
            unsigned_tree(target.window_id),
        ).insert("live_stream_id"@, unsigned_tree(run.stream_id)).insert(
            "live_frame_sequence"@,
            unsigned_tree(run.frame.sequence),
        ).insert(
            "post_action_sequence_fence"@,
            unsigned_or_null(fence_in(run.action_fence, run.stream_id)),
        ).insert("post_action_stream_id"@, unsigned_or_null(fence_stream(run.action_fence))).insert(
            "transition_sequence_fence"@,
            unsigned_or_null(fence_in(run.transition_fence, run.stream_id)),
        ).insert(
            "transition_stream_id"@,
            unsigned_or_null(fence_stream(run.transition_fence)),
        ).insert("captured_at_ms"@, unsigned_tree(run.frame.captured_at_ms)).insert(
            "frame_age_ms"@,
            unsigned_tree(age_ms),
        ).insert("native_frame_width"@, unsigned_tree(run.frame.width as u64)).insert(
            "native_frame_height"@,
            unsigned_tree(run.frame.height as u64),
        ).insert("max_dimension"@, unsigned_tree(run.max_dimension as u64)).insert(
            "frames_skipped_since_previous_observation"@,
            unsigned_tree(frames_skipped(fence_in(run.previous, run.stream_id), run.frame.sequence)),
        ).insert("accessibility_available"@, JsonTree::Bool(false)),
    )
}

/// What is said of accessibility where a frame is all there is.
pub open spec fn frame_accessibility(target: WindowTarget) -> JsonTree {
    JsonTree::Object(
        Map::<Seq<char>, JsonTree>::empty().insert("degraded"@, JsonTree::Bool(true)).insert(
            "accessibility_available"@,
            JsonTree::Bool(false),
        ).insert("fallback"@, JsonTree::Text("live_observation"@)).insert(
            "window_id"@,
            unsigned_tree(target.window_id),
        ).insert("pid"@, unsigned_tree(target.pid as u64)),
    )
}

/// The frame is published: every boundary before it is spent.
pub open spec fn frame_publication_step(
    run: FrameRun,
    before: ComputerUseSession,
    resolved: ComputerUseResult<WindowTarget>,
    serial: u64,
    age_ms: u64,
    after: ComputerUseSession,
    step: FrameStep,
) -> bool {
    &&& publication_stops(before, resolved, run.target->0, after, step)
    &&& is_publishable(before, resolved, run.target->0) ==> {
        &&& step matches Step::Done(Ok(screenshot))
        &&& screenshot.data == run.data
        &&& screenshot.accessibility.view() == frame_accessibility(resolved->Ok_0)
        &&& is_published(
            ComputerUseSession { post_action_fence: None, transition_fence: None, ..before },
            resolved->Ok_0,
            observation_of(
                before.session_id@,
                serial,
                resolved->Ok_0,
                run.size,
                "cua-live-wgc-latest-frame"@,
                frame_provenance(run, resolved->Ok_0, age_ms),
            ),
            BannerActivity::Observing,
            after,
            screenshot.observation,
        )
    }
}

/// A gate between the stages of a frame.
pub open spec fn frame_gate(
    run: FrameRun,
    next: FramePhase,
    before: ComputerUseSession,
    gate: ComputerUseResult<()>,
    after: ComputerUseSession,
    step: FrameStep,
) -> bool {
    &&& refused_gate_stops(before, gate, after, step)
    &&& gate is Ok ==> after == before && step == FrameStep::Continue(run.at(next))
}

/// One step of an observation from the feed.
pub open spec fn frame_step(
    run: FrameRun,
    before: ComputerUseSession,
    reply: FrameReply,
    after: ComputerUseSession,
    step: FrameStep,
) -> bool {
    match (run.phase, reply) {
        (FramePhase::Gate, FrameReply::Gate(gate)) => frame_gate(
            run,
            FramePhase::Target,
            before,
            gate,
            after,
            step,
        ),
        (FramePhase::Target, FrameReply::Target(resolved)) => {
            &&& unusable_target_stops(before, resolved, after, step)
            &&& is_usable_target(before, resolved) ==> after == before && step
                == FrameStep::Continue(run.at(FramePhase::GateAgain))
        },
        (FramePhase::GateAgain, FrameReply::Gate(gate)) => {
            &&& refused_gate_stops(before, gate, after, step)
            &&& gate is Ok ==> after == rebaselined(before) && step == FrameStep::Continue(
                fenced(run, after).at(FramePhase::FrameGate),
            )
        },
        (FramePhase::FrameGate, FrameReply::Gate(gate)) => frame_gate(
            run,
            FramePhase::Frame,
            before,
            gate,
            after,
            step,
        ),
        (FramePhase::Frame, FrameReply::Frame(found)) => match found {
            Err(error) => stops_sensitively(before, error, after, step),
            Ok(frame) => after == before && step == FrameStep::Continue(
                FrameRun { frame, ..run }.at(FramePhase::EncodeGate),
            ),
        },
        (FramePhase::EncodeGate, FrameReply::Gate(gate)) => frame_gate(
            run,
            FramePhase::Encode,
            before,
            gate,
            after,
            step,
        ),
        (FramePhase::Encode, FrameReply::Encoded(encoded)) => match encoded {
            Err(error) => stops_sensitively(before, error, after, step),
            Ok((data, size)) => after == before && step == FrameStep::Continue(
                FrameRun { data, size, ..run }.at(FramePhase::EncodedGate),
            ),
        },
        (FramePhase::EncodedGate, FrameReply::Gate(gate)) => frame_gate(
            run,
            FramePhase::TargetAfter,
            before,
            gate,
            after,
            step,
        ),
        (FramePhase::TargetAfter, FrameReply::Target(resolved)) => {
            &&& unusable_target_stops(before, resolved, after, step)
            &&& is_usable_target(before, resolved) ==> after == before && step
                == FrameStep::Continue(
                FrameRun { target: Some(resolved->Ok_0), ..run }.at(FramePhase::PublishGate),
            )
        },
        (FramePhase::PublishGate, FrameReply::Gate(gate)) => frame_gate(
            run,
            FramePhase::PublishTarget,
            before,
            gate,
            after,
            step,
        ),
        (FramePhase::PublishTarget, FrameReply::Publication { resolved, serial, age_ms }) => {
            frame_publication_step(run, before, resolved, serial, age_ms, after, step)
        },
        _ => after == before && step == FrameStep::Continue(run),
    }
}

/// An observation of the running feed begins.
pub open spec fn frame_begins(session: ComputerUseSession, r: FrameRun) -> bool {
    &&& r.phase == FramePhase::Gate
    &&& r.stream_id == session.live->0.stream_id
    &&& r.max_dimension == session.live->0.max_dimension
    &&& r.well_formed()
}

impl ComputerUseSession {
    /// Begins an observation from the feed that runs.
    pub fn begin_frame_observation(&self) -> (r: FrameRun)
        requires
            self.live is Some,
        ensures
            frame_begins(*self, r),
    {
        let link = self.live.unwrap();
        FrameRun {
            phase: FramePhase::Gate,
            stream_id: link.stream_id,
            max_dimension: link.max_dimension,
            previous: None,
            action_fence: None,
            transition_fence: None,
            after_sequence: None,
            frame: FrameFacts { sequence: 0, captured_at_ms: 0, width: 0, height: 0 },
            data: Vec::new(),
            size: (0, 0),
            target: None,
        }
    }

    fn latest_observed_frame(&self) -> (r: Option<LiveObservationFence>)
        ensures
            r == observed_frame(*self),
    {
        match &self.observation {
            None => None,
            Some(observation) => {
                let stream = observation.capture_provenance.u64_at("live_stream_id");
                let sequence = observation.capture_provenance.u64_at("live_frame_sequence");
                match (stream, sequence) {
                    (Some(stream), Some(sequence)) => Some(
                        LiveObservationFence::new(stream, sequence),
                    ),
                    _ => None,
                }
            },
        }
    }
}

fn skipped(previous: Option<u64>, sequence: u64) -> (r: u64)
    ensures
        r == frames_skipped(previous, sequence),
{
    match previous {
        None => 0,
        Some(seen) => if sequence > seen && sequence - seen > 1 {
            sequence - seen - 1
        } else {
            0
        },
    }
}

fn sequence_in(fence: Option<LiveObservationFence>, stream_id: u64) -> (r: Option<u64>)
    ensures
        r == fence_in(fence, stream_id),
{
    match fence {
        Some(fence) => fence.sequence_for(stream_id),
        None => None,
    }
}

fn stream_of(fence: Option<LiveObservationFence>) -> (r: Option<u64>)
    ensures
        r == fence_stream(fence),
{
    match fence {
        Some(fence) => Some(fence.stream_id()),
        None => None,
    }
}

impl FrameRun {
    fn provenance(&self, target: &WindowTarget, age_ms: u64) -> (r: Json)
        ensures
            r.view() == frame_provenance(*self, *target, age_ms),
    {
        let mut members: Vec<JsonMember> = Vec::new();
        put_member(&mut members, "backend", Json::text("cua-live-wgc-latest-frame"));
        put_member(&mut members, "pixels_captured", Json::Bool(true));
        put_member(&mut members, "scope", Json::text("window"));
        put_member(&mut members, "process_id", Json::unsigned(target.pid as u64));
        put_member(&mut members, "window_handle", Json::unsigned(target.window_id));
        put_member(&mut members, "live_stream_id", Json::unsigned(self.stream_id));
        put_member(&mut members, "live_frame_sequence", Json::unsigned(self.frame.sequence));
        put_member(
            &mut members,
            "post_action_sequence_fence",
            Json::optional_unsigned(sequence_in(self.action_fence, self.stream_id)),
        );
        put_member(
            &mut members,
            "post_action_stream_id",
            Json::optional_unsigned(stream_of(self.action_fence)),
        );
        put_member(
            &mut members,
            "transition_sequence_fence",
            Json::optional_unsigned(sequence_in(self.transition_fence, self.stream_id)),
        );
        put_member(
            &mut members,
            "transition_stream_id",
            Json::optional_unsigned(stream_of(self.transition_fence)),
        );
        put_member(&mut members, "captured_at_ms", Json::unsigned(self.frame.captured_at_ms));
        put_member(&mut members, "frame_age_ms", Json::unsigned(age_ms));
        put_member(&mut members, "native_frame_width", Json::unsigned(self.frame.width as u64));
        put_member(&mut members, "native_frame_height", Json::unsigned(self.frame.height as u64));
        put_member(&mut members, "max_dimension", Json::unsigned(self.max_dimension as u64));
        put_member(
            &mut members,
            "frames_skipped_since_previous_observation",
            Json::unsigned(
                skipped(sequence_in(self.previous, self.stream_id), self.frame.sequence),
            ),
        );
        put_member(&mut members, "accessibility_available", Json::Bool(false));
        Json::Object(members)
    }

    fn on_fences(self, session: &mut ComputerUseSession) -> (r: FrameStep)
        ensures
            *final(session) == rebaselined(*old(session)),
            r == FrameStep::Continue(fenced(self, *final(session)).at(FramePhase::FrameGate)),
    {
        session.rebaseline_live_observation_transition_fence();
        let mut run = self;
        run.previous = session.latest_observed_frame();
        run.action_fence = session.post_action_fence;
        run.transition_fence = session.transition_fence;
        run.after_sequence = observation_sequence_fence(
            run.stream_id,
            run.previous,
            run.action_fence,
            run.transition_fence,
        );
        run.goes(FramePhase::FrameGate)
    }

    fn on_publication(
        self,
        session: &mut ComputerUseSession,
        resolved: ComputerUseResult<WindowTarget>,
        serial: u64,
        age_ms: u64,
    ) -> (r: FrameStep)
        requires
            self.target is Some,
        ensures
            frame_publication_step(
                self,
                *old(session),
                resolved,
                serial,
                age_ms,
                *final(session),
                r,
            ),
            r is Done,
    {
        let mut run = self;
        let expected = run.target.unwrap();
        let target = match session.revalidate_observed_exact_publication_target(
            Ok(()),
            resolved,
            &expected,
        ) {
            Ok(target) => target,
            Err(error) => return Step::Done(Err(error)),
        };
        run.target = Some(expected);
        let mut members: Vec<JsonMember> = Vec::new();
        put_member(&mut members, "degraded", Json::Bool(true));
        put_member(&mut members, "accessibility_available", Json::Bool(false));
        put_member(&mut members, "fallback", Json::text("live_observation"));
        put_member(&mut members, "window_id", Json::unsigned(target.window_id));
        put_member(&mut members, "pid", Json::unsigned(target.pid as u64));
        let provenance = run.provenance(&target, age_ms);
        let observation = new_observation(
            session.session_id.as_str(),
            serial,
            &target,
            run.size,
            "cua-live-wgc-latest-frame",
            provenance,
        );
        session.post_action_fence = None;
        session.transition_fence = None;
        session.publish(target, &observation, BannerActivity::Observing);
        Step::Done(
            Ok(
                ComputerUseScreenshot {
                    data: run.data,
                    observation,
                    accessibility: Json::Object(members),
                },
            ),
        )
    }

    fn pass(
        self,
        session: &mut ComputerUseSession,
        gate: ComputerUseResult<()>,
        next: FramePhase,
    ) -> (r: FrameStep)
        ensures
            frame_gate(self, next, *old(session), gate, *final(session), r),
    {
        match session.finish_observation_sensitive_attempt(gate) {
            Ok(()) => self.goes(next),
            Err(error) => Step::Done(Err(error)),
        }
    }

    /// Takes the answer to the run's request in. An answer to some other
    /// request changes nothing.
    pub fn advance(self, session: &mut ComputerUseSession, reply: FrameReply) -> (r: FrameStep)
        requires
            self.well_formed(),
        ensures
            frame_step(self, *old(session), reply, *final(session), r),
            r matches Step::Continue(next) ==> next.well_formed(),
    {
        match (self.phase, reply) {
            (FramePhase::Gate, FrameReply::Gate(gate)) => self.pass(
                session,
                gate,
                FramePhase::Target,
            ),
            (FramePhase::Target, FrameReply::Target(resolved)) => {
                match session.require_observed_target_available(resolved) {
                    Ok(_) => self.goes(FramePhase::GateAgain),
                    Err(error) => Step::Done(Err(error)),
                }
            },
            (FramePhase::GateAgain, FrameReply::Gate(gate)) => {
                match session.finish_observation_sensitive_attempt(gate) {
                    Ok(()) => self.on_fences(session),
                    Err(error) => Step::Done(Err(error)),
                }
            },
            (FramePhase::FrameGate, FrameReply::Gate(gate)) => self.pass(
                session,
                gate,
                FramePhase::Frame,
            ),
            (FramePhase::Frame, FrameReply::Frame(found)) => {
                match session.finish_observation_sensitive_attempt(found) {
                    Ok(frame) => {
                        let mut run = self;
                        run.frame = frame;
                        run.goes(FramePhase::EncodeGate)
                    },
                    Err(error) => Step::Done(Err(error)),
                }
            },
            (FramePhase::EncodeGate, FrameReply::Gate(gate)) => self.pass(
                session,
                gate,
                FramePhase::Encode,
            ),
            (FramePhase::Encode, FrameReply::Encoded(encoded)) => {
                match session.finish_observation_sensitive_attempt(encoded) {
                    Ok((data, size)) => {
                        let mut run = self;
                        run.data = data;
                        run.size = size;
                        run.goes(FramePhase::EncodedGate)
                    },
                    Err(error) => Step::Done(Err(error)),
                }
            },
            (FramePhase::EncodedGate, FrameReply::Gate(gate)) => self.pass(
                session,
                gate,
                FramePhase::TargetAfter,
            ),
            (FramePhase::TargetAfter, FrameReply::Target(resolved)) => {
                match session.require_observed_target_available(resolved) {
                    Ok(target) => {
                        let mut run = self;
                        run.target = Some(target);
                        run.goes(FramePhase::PublishGate)
                    },
                    Err(error) => Step::Done(Err(error)),
                }
            },
            (FramePhase::PublishGate, FrameReply::Gate(gate)) => self.pass(
                session,
                gate,
                FramePhase::PublishTarget,
            ),
            (FramePhase::PublishTarget, FrameReply::Publication { resolved, serial, age_ms }) => {
                self.on_publication(session, resolved, serial, age_ms)
            },
            _ => Step::Continue(self),
        }
    }
}

/// The frame that is waited for has to be newer than the one observed last,
/// than the newest at the end of the last action, and than the newest at the
/// last loss of evidence, each where it belongs to the same stream.
pub proof fn law_awaited_frames_are_fresh(
    run: FrameRun,
    before: ComputerUseSession,
    after: ComputerUseSession,
    next: FrameRun,
    sequence: u64,
)
    requires
        run.phase == FramePhase::GateAgain,
        frame_step(run, before, FrameReply::Gate(Ok(())), after, FrameStep::Continue(next)),
        crate::live_observation::newer_than(sequence, next.after_sequence),
    ensures
        crate::live_observation::newer_than(
            sequence,
            fence_in(observed_frame(before), run.stream_id),
        ),
        crate::live_observation::newer_than(
            sequence,
            fence_in(before.post_action_fence, run.stream_id),
        ),
        crate::live_observation::newer_than(
            sequence,
            fence_in(rebaselined(before).transition_fence, run.stream_id),
        ),
{
}

/// A published frame clears the boundaries it passed, and becomes the
/// boundary of the next one.
pub proof fn law_published_frames_bound_the_next(
    run: FrameRun,
    before: ComputerUseSession,
    reply: FrameReply,
    after: ComputerUseSession,
    screenshot: ComputerUseScreenshot,
)
    requires
        run.well_formed(),
        frame_step(run, before, reply, after, FrameStep::Done(Ok(screenshot))),
    ensures
        after.post_action_fence is None,
        after.transition_fence is None,
        observed_frame(after) == Some(
            LiveObservationFence { stream: run.stream_id, last_sequence: run.frame.sequence },
        ),
{
    let provenance = after.observation->0.capture_provenance.view();
    lemma_frame_members(run, after.target->0, provenance);
}

proof fn lemma_frame_members(run: FrameRun, target: WindowTarget, provenance: JsonTree)
    requires
        exists|age_ms: u64| provenance == #[trigger] frame_provenance(run, target, age_ms),
    ensures
        provenance.u64_at("live_stream_id"@) == Some(run.stream_id),
        provenance.u64_at("live_frame_sequence"@) == Some(run.frame.sequence),
{
    reveal_strlit("live_stream_id");
    reveal_strlit("live_frame_sequence");
    reveal_strlit("post_action_sequence_fence");
    reveal_strlit("post_action_stream_id");
    reveal_strlit("transition_sequence_fence");
    reveal_strlit("transition_stream_id");
    reveal_strlit("captured_at_ms");
    reveal_strlit("frame_age_ms");
    reveal_strlit("native_frame_width");
    reveal_strlit("native_frame_height");
    reveal_strlit("max_dimension");
    reveal_strlit("frames_skipped_since_previous_observation");
    reveal_strlit("accessibility_available");
    assert("live_stream_id"@[0] == 'l');
    assert("live_frame_sequence"@[0] == 'l');
    assert("live_stream_id"@.len() == 14);
    assert("live_frame_sequence"@.len() == 19);
    assert("post_action_sequence_fence"@[0] == 'p');
    assert("post_action_stream_id"@[0] == 'p');
    assert("transition_sequence_fence"@[0] == 't');
    assert("transition_stream_id"@[0] == 't');
    assert("captured_at_ms"@[0] == 'c');
    assert("frame_age_ms"@[0] == 'f');
    assert("native_frame_width"@[0] == 'n');
    assert("native_frame_height"@[0] == 'n');
    assert("max_dimension"@[0] == 'm');
    assert("frames_skipped_since_previous_observation"@[0] == 'f');
    assert("accessibility_available"@[0] == 'a');
}

/// One step of an observation from the feed, with what was asked and answered.
pub struct FrameRecord {
    pub run: FrameRun,
    pub before: ComputerUseSession,
    pub reply: FrameReply,
    pub after: ComputerUseSession,
    pub step: FrameStep,
}

impl FrameRecord {
    /// The step is one that the observation takes on such an answer.
    #[verifier::opaque]
    pub open spec fn holds(self) -> bool {
        frame_step(self.run, self.before, self.reply, self.after, self.step)
    }
}

/// The step before this one went on to it.
pub open spec fn frame_goes_on(course: Seq<FrameRecord>, i: int) -> bool {
    course[i - 1].step == FrameStep::Continue(course[i].run)
}

/// The steps of one observation, each from where the one before it went on. The
/// feed may go on between them.
pub open spec fn is_frame_course(course: Seq<FrameRecord>) -> bool {
    &&& forall|i: int| 0 <= i < course.len() ==> (#[trigger] course[i]).holds()
    &&& forall|i: int| 0 < i < course.len() ==> #[trigger] frame_goes_on(course, i)
}

/// A frame was handed over before such a phase.
pub open spec fn is_past_the_frame(phase: FramePhase) -> bool {
    phase == FramePhase::EncodeGate || phase == FramePhase::Encode || is_past_the_picture(phase)
}

/// A picture was made before such a phase.
pub open spec fn is_past_the_picture(phase: FramePhase) -> bool {
    phase == FramePhase::EncodedGate || phase == FramePhase::TargetAfter || phase
        == FramePhase::PublishGate || phase == FramePhase::PublishTarget
}

/// One step keeps the frame and the picture once they are there.
proof fn lemma_step_carries_the_frame(record: FrameRecord, next: FrameRun)
    requires
        record.holds(),
        record.step == FrameStep::Continue(next),
    ensures
        next.stream_id == record.run.stream_id,
        next.max_dimension == record.run.max_dimension,
        is_past_the_frame(record.run.phase) ==> is_past_the_frame(next.phase) && next.frame
            == record.run.frame,
        is_past_the_picture(record.run.phase) ==> is_past_the_picture(next.phase) && next.data
            == record.run.data && next.size == record.run.size,
        record.run.phase == FramePhase::Frame && (record.reply matches FrameReply::Frame(Ok(_)))
            ==> is_past_the_frame(next.phase) && next.frame == record.reply->Frame_0->Ok_0,
        record.run.phase == FramePhase::Encode && (record.reply matches FrameReply::Encoded(Ok(_)))
            ==> {
            let (data, size) = record.reply->Encoded_0->Ok_0;
            is_past_the_picture(next.phase) && next.data == data && next.size == size
        },
{
    reveal(FrameRecord::holds);
}

proof fn lemma_frame_stays(course: Seq<FrameRecord>, at: int, later: int)
    requires
        is_frame_course(course),
        0 <= at < later < course.len(),
        course[at].run.phase == FramePhase::Frame,
        course[at].reply matches FrameReply::Frame(Ok(_)),
    ensures
        is_past_the_frame(course[later].run.phase),
        course[later].run.frame == course[at].reply->Frame_0->Ok_0,
        course[later].run.stream_id == course[at].run.stream_id,
    decreases later,
{
    assert(frame_goes_on(course, later));
    lemma_step_carries_the_frame(course[later - 1], course[later].run);
    if later > at + 1 {
        lemma_frame_stays(course, at, later - 1);
    }
}

proof fn lemma_picture_stays(course: Seq<FrameRecord>, at: int, later: int)
    requires
        is_frame_course(course),
        0 <= at < later < course.len(),
        course[at].run.phase == FramePhase::Encode,
        course[at].reply matches FrameReply::Encoded(Ok(_)),
    ensures
        is_past_the_picture(course[later].run.phase),
        ({
            let (data, size) = course[at].reply->Encoded_0->Ok_0;
            course[later].run.data == data && course[later].run.size == size
        }),
    decreases later,
{
    assert(frame_goes_on(course, later));
    lemma_step_carries_the_frame(course[later - 1], course[later].run);
    if later > at + 1 {
        lemma_picture_stays(course, at, later - 1);
    }
}

/// What is published of a frame is what the feed delivered: its number, its time
/// and its size. The next observation of that stream waits for a later one.
pub proof fn law_frames_are_published_as_delivered(
    course: Seq<FrameRecord>,
    at: int,
    end: int,
    later: FrameRun,
)
    requires
        is_frame_course(course),
        0 <= at < end < course.len(),
        course[at].run.asks() matches FrameRequest::WaitForFrame { .. },
        course[at].reply matches FrameReply::Frame(Ok(_)),
        course[end].run.well_formed(),
        course[end].step matches Step::Done(Ok(_)),
        later.stream_id == course[at].run.stream_id,
    ensures
        ({
            let frame = course[at].reply->Frame_0->Ok_0;
            let shown = course[end].step->Done_0->Ok_0.observation;
            let provenance = shown.capture_provenance.view();
            &&& provenance.u64_at("live_stream_id"@) == Some(course[at].run.stream_id)
            &&& provenance.u64_at("live_frame_sequence"@) == Some(frame.sequence)
            &&& provenance.u64_at("captured_at_ms"@) == Some(frame.captured_at_ms)
            &&& provenance.u64_at("native_frame_width"@) == Some(frame.width as u64)
            &&& provenance.u64_at("native_frame_height"@) == Some(frame.height as u64)
            &&& fenced(later, course[end].after).after_sequence matches Some(boundary) && boundary
                >= frame.sequence
        }),
{
    let last = course[end];
    lemma_frame_stays(course, at, end);
    assert(last.holds());
    reveal(FrameRecord::holds);
    let screenshot = last.step->Done_0->Ok_0;
    law_published_frames_bound_the_next(
        last.run,
        last.before,
        last.reply,
        last.after,
        screenshot,
    );
    law_frame_provenance_says_where_a_frame_is_from(
        last.run,
        last.reply->Publication_resolved->Ok_0,
        last.reply->Publication_age_ms,
    );
}

/// The picture that is published is the one that was made of the frame, at its
/// size.
pub proof fn law_frames_are_published_as_encoded(course: Seq<FrameRecord>, at: int, end: int)
    requires
        is_frame_course(course),
        0 <= at < end < course.len(),
        course[at].run.asks() == FrameRequest::EncodeFrame,
        course[at].reply matches FrameReply::Encoded(Ok(_)),
        course[end].run.well_formed(),
        course[end].step matches Step::Done(Ok(_)),
    ensures
        ({
            let (data, size) = course[at].reply->Encoded_0->Ok_0;
            let screenshot = course[end].step->Done_0->Ok_0;
            &&& screenshot.data == data
            &&& screenshot.observation.width == size.0
            &&& screenshot.observation.height == size.1
        }),
{
    lemma_picture_stays(course, at, end);
    assert(course[end].holds());
    reveal(FrameRecord::holds);
}

/// The provenance of a frame tells its window, its stream, its number, its time,
/// its age and its sizes, and the boundaries that it had to pass.
pub proof fn law_frame_provenance_says_where_a_frame_is_from(
    run: FrameRun,
    target: WindowTarget,
    age_ms: u64,
)
    ensures
        ({
            let provenance = frame_provenance(run, target, age_ms);
            &&& provenance.text_at("backend"@) == Some("cua-live-wgc-latest-frame"@)
            &&& provenance.bool_at("pixels_captured"@) == Some(true)
            &&& provenance.text_at("scope"@) == Some("window"@)
            &&& provenance.u64_at("process_id"@) == Some(target.pid as u64)
            &&& provenance.u64_at("window_handle"@) == Some(target.window_id)
            &&& provenance.u64_at("live_stream_id"@) == Some(run.stream_id)
            &&& provenance.u64_at("live_frame_sequence"@) == Some(run.frame.sequence)
            &&& provenance.u64_at("captured_at_ms"@) == Some(run.frame.captured_at_ms)
            &&& provenance.u64_at("frame_age_ms"@) == Some(age_ms)
            &&& provenance.u64_at("native_frame_width"@) == Some(run.frame.width as u64)
            &&& provenance.u64_at("native_frame_height"@) == Some(run.frame.height as u64)
            &&& provenance.u64_at("max_dimension"@) == Some(run.max_dimension as u64)
            &&& provenance.bool_at("accessibility_available"@) == Some(false)
            &&& provenance.u64_at("post_action_stream_id"@) == match run.action_fence {
                Some(fence) => Some(fence.stream),
                None => None,
            }
            &&& provenance.u64_at("transition_stream_id"@) == match run.transition_fence {
                Some(fence) => Some(fence.stream),
                None => None,
            }
            &&& provenance.u64_at("post_action_sequence_fence"@) == match run.action_fence {
                Some(fence) => if fence.stream == run.stream_id {
                    Some(fence.last_sequence)
                } else {
                    None
                },
                None => None,
            }
            &&& provenance.u64_at("transition_sequence_fence"@) == match run.transition_fence {
                Some(fence) => if fence.stream == run.stream_id {
                    Some(fence.last_sequence)
                } else {
                    None
                },
                None => None,
            }
            &&& (run.previous matches Some(seen) && seen.stream == run.stream_id
                && run.frame.sequence > seen.last_sequence) ==> provenance.u64_at(
                "frames_skipped_since_previous_observation"@,
            ) == Some((run.frame.sequence - run.previous->0.last_sequence - 1) as u64)
        }),
{
    reveal_strlit("backend");
    reveal_strlit("pixels_captured");
    reveal_strlit("scope");
    reveal_strlit("process_id");
    reveal_strlit("window_handle");
    reveal_strlit("live_stream_id");
    reveal_strlit("live_frame_sequence");
    reveal_strlit("post_action_sequence_fence");
    reveal_strlit("post_action_stream_id");
    reveal_strlit("transition_sequence_fence");
    reveal_strlit("transition_stream_id");
    reveal_strlit("captured_at_ms");
    reveal_strlit("frame_age_ms");
    reveal_strlit("native_frame_width");
    reveal_strlit("native_frame_height");
    reveal_strlit("max_dimension");
    reveal_strlit("frames_skipped_since_previous_observation");
    reveal_strlit("accessibility_available");
    assert("backend"@.len() == 7);
    assert("pixels_captured"@.len() == 15);
    assert("scope"@.len() == 5);
    assert("process_id"@.len() == 10);
    assert("window_handle"@.len() == 13);
    assert("live_stream_id"@.len() == 14);
    assert("live_frame_sequence"@.len() == 19);
    assert("post_action_sequence_fence"@.len() == 26);
    assert("post_action_stream_id"@.len() == 21);
    assert("transition_sequence_fence"@.len() == 25);
    assert("transition_stream_id"@.len() == 20);
    assert("captured_at_ms"@.len() == 14);
    assert("frame_age_ms"@.len() == 12);
    assert("native_frame_width"@.len() == 18);
    assert("native_frame_height"@.len() == 19);
    assert("max_dimension"@.len() == 13);
    assert("frames_skipped_since_previous_observation"@.len() == 41);
    assert("accessibility_available"@.len() == 23);
    assert("window_handle"@[0] != "max_dimension"@[0]);
    assert("live_stream_id"@[0] != "captured_at_ms"@[0]);
    assert("live_frame_sequence"@[0] != "native_frame_height"@[0]);
}

/// The picture of a feed comes without accessibility, and says so of its window.
pub proof fn law_frames_come_without_accessibility(target: WindowTarget)
    ensures
        frame_accessibility(target).bool_at("degraded"@) == Some(true),
        frame_accessibility(target).bool_at("accessibility_available"@) == Some(false),
        frame_accessibility(target).text_at("fallback"@) == Some("live_observation"@),
        frame_accessibility(target).u64_at("window_id"@) == Some(target.window_id),
        frame_accessibility(target).u64_at("pid"@) == Some(target.pid as u64),
{
    reveal_strlit("degraded");
    reveal_strlit("accessibility_available");
    reveal_strlit("fallback");
    reveal_strlit("window_id");
    reveal_strlit("pid");
    assert("degraded"@.len() == 8);
    assert("accessibility_available"@.len() == 23);
    assert("fallback"@.len() == 8);
    assert("window_id"@.len() == 9);
    assert("pid"@.len() == 3);
    assert("degraded"@[0] != "fallback"@[0]);
}

/// A published frame shows the window that was found usable once more just
/// before, and is the session's observation from then on.
pub proof fn law_published_frames_show_the_usable_window(
    run: FrameRun,
    before: ComputerUseSession,
    reply: FrameReply,
    after: ComputerUseSession,
    screenshot: ComputerUseScreenshot,
)
    requires
        run.well_formed(),
        frame_step(run, before, reply, after, FrameStep::Done(Ok(screenshot))),
    ensures
        ({
            let target = reply->Publication_resolved->Ok_0;
            &&& reply is Publication
            &&& reply->Publication_resolved is Ok
            &&& is_usable_target(before, Ok(target))
            &&& run.target matches Some(expected) && target.pid == expected.pid && target.window_id
                == expected.window_id
            &&& screenshot.observation.window_handle == target.window_id
            &&& screenshot.observation.process_id == target.pid
            &&& screenshot.observation.source_rect == target.bounds
            &&& after.target == Some(target)
        }),
        after.observation matches Some(kept) && kept.observation_id@
            == screenshot.observation.observation_id@ && kept.window_handle
            == screenshot.observation.window_handle && kept.capture_provenance.view()
            == screenshot.observation.capture_provenance.view(),
        after.active == before.active,
        after.live == before.live,
        after.recording_active == before.recording_active,
{
}

/// A frame is waited for past the boundary that was found, encoded past an open
/// gate, and published past another; whatever is refused on the way ends the
/// observation with the refusal.
pub proof fn law_frames_pass_their_gates(
    run: FrameRun,
    before: ComputerUseSession,
    reply: FrameReply,
    after: ComputerUseSession,
    step: FrameStep,
)
    requires
        run.well_formed(),
        frame_step(run, before, reply, after, step),
    ensures
        run.asks() == FrameRequest::CheckObservation && reply is Gate && reply->Gate_0 is Err
            ==> step == FrameStep::Done(Err(reply->Gate_0->Err_0)),
        run.phase == FramePhase::Frame && reply is Frame && reply->Frame_0 is Err ==> step
            == FrameStep::Done(Err(reply->Frame_0->Err_0)),
        run.phase == FramePhase::Encode && reply is Encoded && reply->Encoded_0 is Err ==> step
            == FrameStep::Done(Err(reply->Encoded_0->Err_0)),
        step matches Step::Continue(next) ==> {
            &&& next.phase == FramePhase::Frame && run.phase != FramePhase::Frame ==> run.asks()
                == FrameRequest::CheckObservation && reply is Gate && reply->Gate_0 is Ok
            &&& next.phase == FramePhase::Encode && run.phase != FramePhase::Encode ==> run.asks()
                == FrameRequest::CheckObservation && reply is Gate && reply->Gate_0 is Ok
            &&& next.phase == FramePhase::PublishTarget && run.phase != FramePhase::PublishTarget
                ==> run.asks() == FrameRequest::CheckObservation && reply is Gate && reply->Gate_0
                is Ok
            &&& next.phase == FramePhase::PublishGate && run.phase != FramePhase::PublishGate ==> (
            reply matches FrameReply::Target(Ok(target)) && is_usable_target(before, Ok(target))
                && next.target == Some(target))
            &&& next.after_sequence == run.after_sequence || run.phase == FramePhase::GateAgain
        },
{
}

/// An observation of the feed is of the stream that runs, at its size.
pub proof fn law_frames_are_of_the_running_stream(session: ComputerUseSession, r: FrameRun)
    requires
        session.live is Some,
        frame_begins(session, r),
    ensures
        r.stream_id == session.live->0.stream_id,
        r.max_dimension == session.live->0.max_dimension,
        r.asks() == FrameRequest::CheckObservation,
        r.shows_activity() == Some(BannerActivity::Observing),
{
}

/// The answer that was asked for takes the observation on, and no other does.
pub proof fn law_frames_take_the_answer_they_asked_for(
    run: FrameRun,
    before: ComputerUseSession,
    reply: FrameReply,
    after: ComputerUseSession,
    step: FrameStep,
)
    requires
        run.well_formed(),
        frame_step(run, before, reply, after, step),
    ensures
        ({
            let asked = match run.asks() {
                FrameRequest::CheckObservation => reply is Gate,
                FrameRequest::ResolveTarget => reply is Target,
                FrameRequest::WaitForFrame { .. } => reply is Frame,
                FrameRequest::EncodeFrame => reply is Encoded,
                FrameRequest::ResolvePublication => reply is Publication,
            };
            &&& asked ==> (step matches Step::Continue(next) ==> next.phase != run.phase)
            &&& !asked ==> after == before && step == FrameStep::Continue(run)
        }),
        run.asks() matches FrameRequest::WaitForFrame { after_sequence } ==> after_sequence
            == run.after_sequence,
{
}

/// A boundary that a change of windows left is moved to what the feed shows now;
/// nothing else of the session changes.
pub proof fn law_transitions_are_moved_to_the_feed(session: ComputerUseSession)
    ensures
        session.transition_fence is None ==> rebaselined(session) == session,
        session.transition_fence is Some && session.live_fence() is Some ==> rebaselined(
            session,
        ).transition_fence == session.live_fence(),
        session.live_fence() is None ==> rebaselined(session) == session,
        rebaselined(session).post_action_fence == session.post_action_fence,
        rebaselined(session).observation == session.observation,
        rebaselined(session).active == session.active,
        rebaselined(session).live == session.live,
        rebaselined(session).target == session.target,
{
}

/// The frames that were skipped are those between the last observed one and this.
pub proof fn law_skipped_frames_are_counted(seen: u64, sequence: u64)
    ensures
        frames_skipped(None, sequence) == 0,
        sequence <= seen ==> frames_skipped(Some(seen), sequence) == 0,
        sequence > seen ==> seen + frames_skipped(Some(seen), sequence) + 1 == sequence,
{
}

} // verus!
