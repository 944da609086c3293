//! The recording of a session: its start, its end, and its state.

use crate::contracts::ComputerUseRecordingStartRequest;
use crate::driver::parse_bound_tool_value;
#[allow(unused_imports)]
use crate::driver::invalid_json_message;
use crate::errors::{ComputerUseError, ComputerUseErrorCode, ComputerUseResult};
#[allow(unused_imports)]
use crate::errors::fails_with;
use crate::json::{put_member, Json, JsonMember};
#[allow(unused_imports)]
use crate::json::{optional_tree, parsed_text, JsonTree};
use crate::recording::{
    aggregate_recording_state, keepalive_continues, RecordingHealth,
    RecordingVideoTerminalEvidence,
};
#[allow(unused_imports)]
use crate::recording::{
    aggregate_members, is_finalized, is_video_paused, lease_enabled, lease_owned, projects,
    video_active,
};
use crate::sensitive_target_policy::texts;
use crate::session::{ActiveShowcase, BannerActivity, ComputerUseSession};
#[allow(unused_imports)]
use crate::session::is_usable_target;
use crate::session_lifecycle::LiveObservationStartDisposition;
use crate::session_tools::{AcceptedAnswer, ToolAnswer};
#[allow(unused_imports)]
use crate::session_tools::is_tool_outcome;
use crate::steps::Step;
#[allow(unused_imports)]
use crate::steps::{stale_evidence_stops, stops, stops_plainly, unusable_target_stops};
#[allow(unused_imports)]
use crate::tool_binding::session_members;
use crate::window_target::WindowTarget;
use vstd::prelude::*;

verus! {

/// How often a running recording is kept alive.
pub const RECORDING_KEEPALIVE_INTERVAL_MS: u64 = 30_000;

/// The value, where there is one.
pub open spec fn view_of(value: Option<Json>) -> Option<JsonTree> {
    match value {
        Some(value) => Some(value.view()),
        None => None,
    }
}

/// The lease the trajectory shows is the owner's.
pub open spec fn lease_holds(trajectory: JsonTree, owner: Seq<char>) -> bool {
    lease_enabled(trajectory) && lease_owned(trajectory, owner)
}

/// The health of a recording right after its start.
pub open spec fn is_first_health(
    health: RecordingHealth,
    trajectory: JsonTree,
    owner: Seq<char>,
) -> bool {
    &&& health.expected_owner@ == owner
    &&& health.lease_lost == !lease_enabled(trajectory)
    &&& health.owner_mismatch == !lease_owned(trajectory, owner)
    &&& !health.video_stopped
}

/// A recording runs from here on, kept alive where its lease holds.
pub open spec fn is_kept_alive(
    before: ComputerUseSession,
    expected_video: bool,
    trajectory: JsonTree,
    after: ComputerUseSession,
) -> bool {
    &&& after.recording_health matches Some(health)
    &&& is_first_health(health, trajectory, before.session_id@)
    &&& after == (ComputerUseSession {
        recording_expected_video: expected_video,
        recording_health: after.recording_health,
        recording_keepalive: lease_holds(trajectory, before.session_id@),
        ..before
    })
}

/// What a probe changes of a recording that is kept alive: a probe that failed
/// changes nothing, and a lease that was lost or went elsewhere ends it.
pub open spec fn is_keepalive_probe(
    before: ComputerUseSession,
    probe: ComputerUseResult<Json>,
    after: ComputerUseSession,
) -> bool {
    match (before.recording_keepalive, before.recording_health) {
        (false, _) => after == before,
        (true, None) => after == (ComputerUseSession { recording_keepalive: false, ..before }),
        (true, Some(health)) => match probe {
            Err(_) => after == before,
            Ok(trajectory) => {
                let enabled = lease_enabled(trajectory.view());
                let owned = lease_owned(trajectory.view(), health.expected_owner@);
                after == (ComputerUseSession {
                    recording_keepalive: enabled && owned,
                    recording_health: Some(
                        RecordingHealth {
                            expected_owner: health.expected_owner,
                            lease_lost: health.lease_lost || !enabled,
                            owner_mismatch: health.owner_mismatch || !owned,
                            video_stopped: health.video_stopped,
                        },
                    ),
                    ..before
                })
            },
        },
    }
}

impl ComputerUseSession {
    /// Starts to keep a recording alive. A lease that does not hold is not.
    pub fn start_recording_keepalive(&mut self, expected_video: bool, trajectory: &Json)
        ensures
            is_kept_alive(*old(self), expected_video, trajectory.view(), *final(self)),
    {
        let mut health = RecordingHealth::new(self.session_id.as_str());
        let healthy = health.observe_trajectory(trajectory);
        self.recording_expected_video = expected_video;
        self.recording_health = Some(health);
        self.recording_keepalive = healthy;
    }

    /// Takes a probe of the running keepalive in, and tells whether it goes on.
    /// One that does not run stays as it is.
    pub fn observe_keepalive(&mut self, probe: ComputerUseResult<Json>) -> (r: bool)
        ensures
            r == final(self).recording_keepalive,
            is_keepalive_probe(*old(self), probe, *final(self)),
    {
        if !self.recording_keepalive {
            return false;
        }
        match self.recording_health.take() {
            Some(health) => {
                let mut health = health;
                self.recording_keepalive = keepalive_continues(&mut health, probe);
                self.recording_health = Some(health);
                self.recording_keepalive
            },
            None => {
                self.recording_keepalive = false;
                false
            },
        }
    }

    /// The session whose recording did not come about.
    pub open spec fn recording_abandoned(self) -> ComputerUseSession {
        (ComputerUseSession { recording_active: false, ..self }).recording_shown(false).showing(
            BannerActivity::Ready,
        )
    }
}

/// Where the start of a recording is in its course.
#[derive(Debug, Clone, Copy, PartialEq, Eq, Structural)]
pub enum RecordingStartPhase {
    Target,
    /// The driver starts the trajectory.
    Start,
    /// The feed that the video is made of.
    Live,
    /// The video recorder.
    Recorder,
    /// The trajectory is stopped again, because no feed could be had.
    LiveCleanup,
    /// The trajectory is stopped again, because no recorder could be had.
    RecorderCleanup,
}

/// The start of a recording.
#[derive(Debug)]
pub struct RecordingStartRun {
    pub phase: RecordingStartPhase,
    pub output_dir: String,
    pub record_video: bool,
    pub trajectory: Json,
    pub owns_live_observation: bool,
    pub failure: Option<ComputerUseError>,
}

/// What the start of a recording asks for.
#[derive(Debug, Clone, Copy, PartialEq, Eq, Structural)]
pub enum RecordingStartRequestKind {
    ResolveTarget,
    CallStartRecording,
    StartFeed,
    StartRecorder,
    CallStopRecording,
}

/// What the host hands back.
#[derive(Debug)]
pub enum RecordingStartReply {
    Target(ComputerUseResult<WindowTarget>),
    Called(ComputerUseResult<ToolAnswer>),
    Feed(ComputerUseResult<LiveObservationStartDisposition>),
    Recorder(ComputerUseResult<Json>),
}

/// A recording that runs.
#[derive(Debug)]
pub struct RecordingStarted {
    pub trajectory: Json,
    pub video: Option<Json>,
}

pub type RecordingStartStep = Step<RecordingStartRun, RecordingStarted>;

/// The arguments of the call that starts a trajectory.
pub open spec fn trajectory_arguments(output_dir: Seq<char>, session_id: Seq<char>) -> JsonTree {
    JsonTree::Object(
        session_members(
            Map::<Seq<char>, JsonTree>::empty().insert(
                "output_dir"@,
                JsonTree::Text(output_dir),
            ).insert("record_video"@, JsonTree::Bool(false)),
            session_id,
        ),
    )
}

impl RecordingStartRun {
    pub open spec fn at(self, phase: RecordingStartPhase) -> RecordingStartRun {
        RecordingStartRun { phase, ..self }
    }

    /// The run holds what its phase needs.
    pub open spec fn well_formed(self) -> bool {
        &&& self.phase == RecordingStartPhase::LiveCleanup ==> self.failure is Some
        &&& self.phase == RecordingStartPhase::RecorderCleanup ==> self.failure is Some
    }

    pub open spec fn asks(self) -> RecordingStartRequestKind {
        match self.phase {
            RecordingStartPhase::Target => RecordingStartRequestKind::ResolveTarget,
            RecordingStartPhase::Start => RecordingStartRequestKind::CallStartRecording,
            RecordingStartPhase::Live => RecordingStartRequestKind::StartFeed,
            RecordingStartPhase::Recorder => RecordingStartRequestKind::StartRecorder,
            RecordingStartPhase::LiveCleanup => RecordingStartRequestKind::CallStopRecording,
            RecordingStartPhase::RecorderCleanup => RecordingStartRequestKind::CallStopRecording,
        }
    }

    pub fn request(&self) -> (r: RecordingStartRequestKind)
        ensures
            r == self.asks(),
    {
        match self.phase {
            RecordingStartPhase::Target => RecordingStartRequestKind::ResolveTarget,
            RecordingStartPhase::Start => RecordingStartRequestKind::CallStartRecording,
            RecordingStartPhase::Live => RecordingStartRequestKind::StartFeed,
            RecordingStartPhase::Recorder => RecordingStartRequestKind::StartRecorder,
            RecordingStartPhase::LiveCleanup => RecordingStartRequestKind::CallStopRecording,
            RecordingStartPhase::RecorderCleanup => RecordingStartRequestKind::CallStopRecording,
        }
    }

    fn goes(self, phase: RecordingStartPhase) -> (r: RecordingStartStep)
        ensures
            r == RecordingStartStep::Continue(self.at(phase)),
    {
        let mut run = self;
        run.phase = phase;
        Step::Continue(run)
    }

    /// The arguments of the call that starts the trajectory.
    pub fn start_arguments(&self, session: &ComputerUseSession) -> (r: Json)
        ensures
            r.view() == trajectory_arguments(self.output_dir@, session.session_id@),
    {
        let mut members: Vec<JsonMember> = Vec::new();
        put_member(&mut members, "output_dir", Json::text(self.output_dir.as_str()));
        put_member(&mut members, "record_video", Json::Bool(false));
        put_member(&mut members, "session", Json::text(session.session_id.as_str()));
        Json::Object(members)
    }
}

impl RecordingStartRun {
    /// What the banner shows while the run waits for its answer.
    pub open spec fn shows_activity(self) -> Option<BannerActivity> {
        if self.phase == RecordingStartPhase::Target {
            None
        } else {
            Some(BannerActivity::Recording)
        }
    }

    /// What the banner shows while the run waits for its answer.
    pub fn activity(&self) -> (r: Option<BannerActivity>)
        ensures
            r == self.shows_activity(),
    {
        if self.phase == RecordingStartPhase::Target {
            None
        } else {
            Some(BannerActivity::Recording)
        }
    }
}

/// The window is usable: the trajectory is started, unless one runs already.
pub open spec fn recording_target_step(
    run: RecordingStartRun,
    before: ComputerUseSession,
    now_ms: u64,
    resolved: ComputerUseResult<WindowTarget>,
    after: ComputerUseSession,
    step: RecordingStartStep,
) -> bool {
    &&& unusable_target_stops(before, resolved, after, step)
    &&& is_usable_target(before, resolved) ==> if before.recording_active {
        after == before && stops_plainly(
            step,
            ComputerUseErrorCode::InvalidAction,
            "showcase recording is already active"@,
        )
    } else if before.evidence_current(now_ms) {
        after == before && step == RecordingStartStep::Continue(
            run.at(RecordingStartPhase::Start),
        )
    } else {
        stale_evidence_stops(before, now_ms, after, step)
    }
}

/// The trajectory runs, or does not.
pub open spec fn trajectory_step(
    run: RecordingStartRun,
    before: ComputerUseSession,
    result: ComputerUseResult<ToolAnswer>,
    after: ComputerUseSession,
    step: RecordingStartStep,
) -> bool {
    exists|middle: ComputerUseSession, r: ComputerUseResult<AcceptedAnswer>|
        {
            &&& #[trigger] is_tool_outcome(before, result, middle, r)
            &&& match r {
                Err(error) => after == middle && stops(step, error),
                Ok(answer) => match parsed_text(answer.reply.raw_json@) {
                    Err(message) => after == middle && stops_plainly(
                        step,
                        ComputerUseErrorCode::BackendUnavailable,
                        invalid_json_message("start_recording"@, message),
                    ),
                    Ok(trajectory) => trajectory_started(run, middle, trajectory, after, step),
                },
            }
        }
}

/// The trajectory runs. Without a video, so does the recording.
pub open spec fn trajectory_started(
    run: RecordingStartRun,
    before: ComputerUseSession,
    trajectory: JsonTree,
    after: ComputerUseSession,
    step: RecordingStartStep,
) -> bool {
    let running = (ComputerUseSession { recording_active: true, ..before }).recording_shown(true);
    if run.record_video {
        &&& after == running
        &&& step matches Step::Continue(next)
        &&& next.trajectory.view() == trajectory
        &&& next == (RecordingStartRun { trajectory: next.trajectory, ..run }).at(
            RecordingStartPhase::Live,
        )
    } else {
        &&& is_kept_alive(
            ComputerUseSession { last_recording_video: None, ..running },
            false,
            trajectory,
            after,
        )
        &&& step matches Step::Done(Ok(started))
        &&& started.trajectory.view() == trajectory
        &&& started.video is None
    }
}

/// The trajectory is stopped again for the given failure, where the driver may
/// still be asked; either way the recording is off.
pub open spec fn cleanup_begins(
    run: RecordingStartRun,
    phase: RecordingStartPhase,
    before: ComputerUseSession,
    now_ms: u64,
    error: ComputerUseError,
    after: ComputerUseSession,
    step: RecordingStartStep,
) -> bool {
    if before.evidence_current(now_ms) {
        after == before && step == RecordingStartStep::Continue(
            RecordingStartRun { failure: Some(error), ..run }.at(phase),
        )
    } else {
        after == abandoned(run, phase, before.without_evidence()) && stops(step, error)
    }
}

/// The session after its recording was given up.
pub open spec fn abandoned(
    run: RecordingStartRun,
    phase: RecordingStartPhase,
    session: ComputerUseSession,
) -> ComputerUseSession {
    if phase == RecordingStartPhase::RecorderCleanup && run.owns_live_observation {
        (ComputerUseSession { recording_active: false, ..session }).without_feed().recording_shown(
            false,
        ).showing(BannerActivity::Ready)
    } else {
        session.recording_abandoned()
    }
}

/// The recorder runs, or does not.
pub open spec fn recorder_step(
    run: RecordingStartRun,
    before: ComputerUseSession,
    now_ms: u64,
    started: ComputerUseResult<Json>,
    after: ComputerUseSession,
    step: RecordingStartStep,
) -> bool {
    match started {
        Err(error) => cleanup_begins(
            run,
            RecordingStartPhase::RecorderCleanup,
            before,
            now_ms,
            error,
            after,
            step,
        ),
        Ok(video) => {
            &&& is_kept_alive(
                ComputerUseSession {
                    showcase: Some(
                        ActiveShowcase { owns_live_observation: run.owns_live_observation },
                    ),
                    last_recording_video: None,
                    ..before
                },
                true,
                run.trajectory.view(),
                after,
            )
            &&& step == RecordingStartStep::Done(
                Ok(RecordingStarted { trajectory: run.trajectory, video: Some(video) }),
            )
        },
    }
}

/// The trajectory was stopped again, whatever came of it.
pub open spec fn cleanup_step(
    run: RecordingStartRun,
    before: ComputerUseSession,
    result: ComputerUseResult<ToolAnswer>,
    after: ComputerUseSession,
    step: RecordingStartStep,
) -> bool {
    exists|middle: ComputerUseSession, r: ComputerUseResult<AcceptedAnswer>|
        {
            &&& #[trigger] is_tool_outcome(before, result, middle, r)
            &&& after == abandoned(run, run.phase, middle)
            &&& stops(step, run.failure->0)
        }
}

/// One step of the start of a recording.
pub open spec fn recording_start_step(
    run: RecordingStartRun,
    before: ComputerUseSession,
    now_ms: u64,
    reply: RecordingStartReply,
    after: ComputerUseSession,
    step: RecordingStartStep,
) -> bool {
    match (run.phase, reply) {
        (RecordingStartPhase::Target, RecordingStartReply::Target(resolved)) => {
            recording_target_step(run, before, now_ms, resolved, after, step)
        },
        (RecordingStartPhase::Start, RecordingStartReply::Called(result)) => trajectory_step(
            run,
            before,
            result,
            after,
            step,
        ),
        (RecordingStartPhase::Live, RecordingStartReply::Feed(started)) => match started {
            Err(error) => cleanup_begins(
                run,
                RecordingStartPhase::LiveCleanup,
                before,
                now_ms,
                error,
                after,
                step,
            ),
            Ok(disposition) => after == before && step == RecordingStartStep::Continue(
                RecordingStartRun {
                    owns_live_observation: disposition
                        == LiveObservationStartDisposition::StartedNew,
                    ..run
                }.at(RecordingStartPhase::Recorder),
            ),
        },
        (RecordingStartPhase::Recorder, RecordingStartReply::Recorder(started)) => recorder_step(
            run,
            before,
            now_ms,
            started,
            after,
            step,
        ),
        (RecordingStartPhase::LiveCleanup, RecordingStartReply::Called(result)) => cleanup_step(
            run,
            before,
            result,
            after,
            step,
        ),
        (RecordingStartPhase::RecorderCleanup, RecordingStartReply::Called(result)) => {
            cleanup_step(run, before, result, after, step)
        },
        _ => after == before && step == RecordingStartStep::Continue(run),
    }
}

/// A recording of an active session is begun as it was asked for.
pub open spec fn recording_begins(
    session: ComputerUseSession,
    request: ComputerUseRecordingStartRequest,
    validation: ComputerUseResult<()>,
    r: ComputerUseResult<RecordingStartRun>,
) -> bool {
    if validation is Err {
        r == Err::<RecordingStartRun, ComputerUseError>(validation->Err_0)
    } else if !session.active {
        fails_with(
            r,
            ComputerUseErrorCode::BackendUnavailable,
            "Computer Use session is not active"@,
        )
    } else {
        r == Ok::<RecordingStartRun, ComputerUseError>(
            RecordingStartRun {
                phase: RecordingStartPhase::Target,
                output_dir: request.output_dir,
                record_video: request.record_video,
                trajectory: Json::Null,
                owns_live_observation: false,
                failure: None,
            },
        )
    }
}

impl ComputerUseSession {
    /// Begins to start a recording.
    pub fn begin_recording(
        &self,
        request: ComputerUseRecordingStartRequest,
        validation: ComputerUseResult<()>,
    ) -> (r: ComputerUseResult<RecordingStartRun>)
        ensures
            recording_begins(*self, request, validation, r),
    {
        match validation {
            Ok(()) => {},
            Err(error) => return Err(error),
        }
        match self.ensure_active() {
            Ok(()) => {},
            Err(error) => return Err(error),
        }
        Ok(
            RecordingStartRun {
                phase: RecordingStartPhase::Target,
                output_dir: request.output_dir,
                record_video: request.record_video,
                trajectory: Json::Null,
                owns_live_observation: false,
                failure: None,
            },
        )
    }

    /// Gives a recording up.
    fn abandon_recording(&mut self, run: &RecordingStartRun, phase: RecordingStartPhase)
        ensures
            *final(self) == abandoned(*run, phase, *old(self)),
    {
        self.recording_active = false;
        if phase == RecordingStartPhase::RecorderCleanup && run.owns_live_observation {
            self.stop_live_observation();
        }
        self.set_banner_recording(false);
        self.set_banner_activity(BannerActivity::Ready);
    }
}

impl RecordingStartRun {
    fn on_target(
        self,
        session: &mut ComputerUseSession,
        now_ms: u64,
        resolved: ComputerUseResult<WindowTarget>,
    ) -> (r: RecordingStartStep)
        ensures
            recording_target_step(self, *old(session), now_ms, resolved, *final(session), r),
            r matches Step::Continue(next) ==> next.phase == RecordingStartPhase::Start,
    {
        match session.require_observed_target_available(resolved) {
            Ok(_) => {},
            Err(error) => return Step::Done(Err(error)),
        }
        if session.recording_active {
            return Step::Done(
                Err(
                    ComputerUseError::new(
                        ComputerUseErrorCode::InvalidAction,
                        "showcase recording is already active",
                    ),
                ),
            );
        }
        match session.require_current_upstream_session_for_evidence(now_ms) {
            Ok(()) => self.goes(RecordingStartPhase::Start),
            Err(error) => Step::Done(Err(error)),
        }
    }

    fn on_started(self, session: &mut ComputerUseSession, trajectory: Json) -> (r:
        RecordingStartStep)
        ensures
            trajectory_started(self, *old(session), trajectory.view(), *final(session), r),
            r matches Step::Continue(next) ==> next.phase == RecordingStartPhase::Live,
    {
        session.recording_active = true;
        session.set_banner_recording(true);
        if self.record_video {
            let mut run = self;
            run.trajectory = trajectory;
            return run.goes(RecordingStartPhase::Live);
        }
        session.last_recording_video = None;
        session.start_recording_keepalive(false, &trajectory);
        Step::Done(Ok(RecordingStarted { trajectory, video: None }))
    }

    fn on_trajectory(self, session: &mut ComputerUseSession, result: ComputerUseResult<ToolAnswer>)
        -> (r: RecordingStartStep)
        ensures
            trajectory_step(self, *old(session), result, *final(session), r),
            r matches Step::Continue(next) ==> next.phase == RecordingStartPhase::Live,
    {
        let ghost before = *session;
        let called = session.finish_observed_tool_attempt(result);
        assert(is_tool_outcome(before, result, *session, called));
        let answer = match called {
            Ok(answer) => answer,
            Err(error) => return Step::Done(Err(error)),
        };
        match parse_bound_tool_value("start_recording", answer.reply.raw_json.as_str()) {
            Ok(trajectory) => self.on_started(session, trajectory),
            Err(error) => Step::Done(Err(error)),
        }
    }

    fn clean_up(
        self,
        session: &mut ComputerUseSession,
        now_ms: u64,
        phase: RecordingStartPhase,
        error: ComputerUseError,
    ) -> (r: RecordingStartStep)
        ensures
            cleanup_begins(self, phase, *old(session), now_ms, error, *final(session), r),
            r matches Step::Continue(next) ==> next.well_formed(),
    {
        match session.require_current_upstream_session_for_evidence(now_ms) {
            Ok(()) => {
                let mut run = self;
                run.failure = Some(error);
                run.goes(phase)
            },
            Err(_) => {
                session.abandon_recording(&self, phase);
                Step::Done(Err(error))
            },
        }
    }

    fn on_recorder(
        self,
        session: &mut ComputerUseSession,
        now_ms: u64,
        started: ComputerUseResult<Json>,
    ) -> (r: RecordingStartStep)
        ensures
            recorder_step(self, *old(session), now_ms, started, *final(session), r),
            r matches Step::Continue(next) ==> next.well_formed(),
    {
        match started {
            Ok(video) => {
                session.showcase = Some(
                    ActiveShowcase { owns_live_observation: self.owns_live_observation },
                );
                session.last_recording_video = None;
                session.start_recording_keepalive(true, &self.trajectory);
                Step::Done(
                    Ok(RecordingStarted { trajectory: self.trajectory, video: Some(video) }),
                )
            },
            Err(error) => self.clean_up(
                session,
                now_ms,
                RecordingStartPhase::RecorderCleanup,
                error,
            ),
        }
    }

    fn on_cleaned(self, session: &mut ComputerUseSession, result: ComputerUseResult<ToolAnswer>) -> (r:
        RecordingStartStep)
        requires
            self.failure is Some,
        ensures
            cleanup_step(self, *old(session), result, *final(session), r),
            r is Done,
    {
        let ghost before = *session;
        let called = session.finish_observed_tool_attempt(result);
        assert(is_tool_outcome(before, result, *session, called));
        session.abandon_recording(&self, self.phase);
        Step::Done(Err(self.failure.unwrap()))
    }

    /// Takes the answer to the run's request in. An answer to some other
    /// request changes nothing.
    pub fn advance(
        self,
        session: &mut ComputerUseSession,
        now_ms: u64,
        reply: RecordingStartReply,
    ) -> (r: RecordingStartStep)
        requires
            self.well_formed(),
        ensures
            recording_start_step(self, *old(session), now_ms, reply, *final(session), r),
            r matches Step::Continue(next) ==> next.well_formed(),
    {
        match (self.phase, reply) {
            (RecordingStartPhase::Target, RecordingStartReply::Target(resolved)) => {
                self.on_target(session, now_ms, resolved)
            },
            (RecordingStartPhase::Start, RecordingStartReply::Called(result)) => {
                self.on_trajectory(session, result)
            },
            (RecordingStartPhase::Live, RecordingStartReply::Feed(started)) => match started {
                Ok(disposition) => {
                    let mut run = self;
                    run.owns_live_observation = disposition
                        == LiveObservationStartDisposition::StartedNew;
                    run.goes(RecordingStartPhase::Recorder)
                },
                Err(error) => self.clean_up(
                    session,
                    now_ms,
                    RecordingStartPhase::LiveCleanup,
                    error,
                ),
            },
            (RecordingStartPhase::Recorder, RecordingStartReply::Recorder(started)) => {
                self.on_recorder(session, now_ms, started)
            },
            (RecordingStartPhase::LiveCleanup, RecordingStartReply::Called(result)) => {
                self.on_cleaned(session, result)
            },
            (RecordingStartPhase::RecorderCleanup, RecordingStartReply::Called(result)) => {
                self.on_cleaned(session, result)
            },
            _ => Step::Continue(self),
        }
    }
}

/// Where the stop of a recording is in its course.
#[derive(Debug, Clone, Copy, PartialEq, Eq, Structural)]
pub enum RecordingStopPhase {
    /// The video recorder is being stopped.
    Recorder,
    /// Who owns the trajectory now.
    Probe,
    /// The driver stops the trajectory.
    Stop,
}

/// The stop of a recording.
#[derive(Debug)]
pub struct RecordingStopRun {
    pub phase: RecordingStopPhase,
    pub video: ComputerUseResult<Option<Json>>,
}

/// What the host hands back.
#[derive(Debug)]
pub enum RecordingStopReply {
    RecorderStopped(ComputerUseResult<Json>),
    Probed(ComputerUseResult<Json>),
    TrajectoryStopped(ComputerUseResult<Json>),
}

/// A recording that was stopped.
#[derive(Debug)]
pub struct RecordingStopped {
    pub trajectory: Json,
    pub video: Option<Json>,
}

pub type RecordingStopStep = Step<RecordingStopRun, RecordingStopped>;

/// The end of a stop, once the trajectory's last state is known. A recording
/// whose trajectory could not be read stays on; a video that was not finalized
/// is a failure, and comes before that of the trajectory.
pub open spec fn recording_stopped_step(
    video: ComputerUseResult<Option<Json>>,
    trajectory: ComputerUseResult<Json>,
    before: ComputerUseSession,
    after: ComputerUseSession,
    step: RecordingStopStep,
) -> bool {
    let quiet = (if trajectory is Ok {
        (ComputerUseSession { recording_active: false, ..before }).recording_shown(false)
    } else {
        before
    }).showing(BannerActivity::Ready);
    match video {
        Err(error) => after == quiet && stops(step, error),
        Ok(None) => after == quiet && match trajectory {
            Err(error) => stops(step, error),
            Ok(trajectory) => step == RecordingStopStep::Done(
                Ok(RecordingStopped { trajectory, video: None }),
            ),
        },
        Ok(Some(video)) => if !is_finalized(video.view()) {
            after == quiet && stops_plainly(
                step,
                ComputerUseErrorCode::CaptureFailed,
                "showcase stop did not return finalized terminal video evidence"@,
            )
        } else {
            &&& after.last_recording_video matches Some(evidence)
            &&& evidence.final_state.view() == video.view()
            &&& after == (ComputerUseSession {
                last_recording_video: after.last_recording_video,
                ..quiet
            })
            &&& match trajectory {
                Err(error) => stops(step, error),
                Ok(trajectory) => step == RecordingStopStep::Done(
                    Ok(RecordingStopped { trajectory, video: Some(video) }),
                ),
            }
        },
    }
}

/// The session's record of its recording's health, after one more look.
pub open spec fn is_observed_health(
    before: ComputerUseSession,
    trajectory: JsonTree,
    after: ComputerUseSession,
) -> bool {
    match before.recording_health {
        None => after == before,
        Some(health) => {
            &&& after.recording_health matches Some(observed)
            &&& observed == (RecordingHealth {
                lease_lost: health.lease_lost || !lease_enabled(trajectory),
                owner_mismatch: health.owner_mismatch || !lease_owned(
                    trajectory,
                    health.expected_owner@,
                ),
                ..health
            })
            &&& after == (ComputerUseSession { recording_health: after.recording_health, ..before })
        },
    }
}

/// The trajectory is the session's own.
pub open spec fn owns_trajectory(session: ComputerUseSession, trajectory: JsonTree) -> bool {
    session.recording_health matches Some(health) && lease_holds(
        trajectory,
        health.expected_owner@,
    )
}

/// One step of the stop of a recording.
pub open spec fn recording_stop_step(
    run: RecordingStopRun,
    before: ComputerUseSession,
    reply: RecordingStopReply,
    after: ComputerUseSession,
    step: RecordingStopStep,
) -> bool {
    match (run.phase, reply) {
        (RecordingStopPhase::Recorder, RecordingStopReply::RecorderStopped(stopped)) => {
            let released = ComputerUseSession { showcase: None, ..before };
            &&& after == if (before.showcase matches Some(showcase)
                && showcase.owns_live_observation) {
                released.without_feed()
            } else {
                released
            }
            &&& step == RecordingStopStep::Continue(
                RecordingStopRun {
                    phase: RecordingStopPhase::Probe,
                    video: match stopped {
                        Ok(video) => Ok(Some(video)),
                        Err(error) => Err(error),
                    },
                },
            )
        },
        (RecordingStopPhase::Probe, RecordingStopReply::Probed(probed)) => match probed {
            Err(error) => recording_stopped_step(run.video, Err(error), before, after, step),
            Ok(current) => if owns_trajectory(before, current.view()) {
                &&& is_observed_health(before, current.view(), after)
                &&& step == RecordingStopStep::Continue(
                    RecordingStopRun { phase: RecordingStopPhase::Stop, ..run },
                )
            } else {
                exists|middle: ComputerUseSession|
                    {
                        &&& #[trigger] is_observed_health(before, current.view(), middle)
                        &&& recording_stopped_step(run.video, Ok(current), middle, after, step)
                    }
            },
        },
        (RecordingStopPhase::Stop, RecordingStopReply::TrajectoryStopped(stopped)) => {
            recording_stopped_step(run.video, stopped, before, after, step)
        },
        _ => after == before && step == RecordingStopStep::Continue(run),
    }
}

/// A running recording of an active session begins to stop, and is no longer kept
/// alive.
pub open spec fn recording_stop_begins(
    before: ComputerUseSession,
    after: ComputerUseSession,
    r: ComputerUseResult<RecordingStopRun>,
) -> bool {
    if !before.active {
        after == before && fails_with(
            r,
            ComputerUseErrorCode::BackendUnavailable,
            "Computer Use session is not active"@,
        )
    } else if !before.recording_active {
        after == before && fails_with(
            r,
            ComputerUseErrorCode::InvalidAction,
            "showcase recording is not active"@,
        )
    } else {
        &&& after == (ComputerUseSession {
            recording_keepalive: false,
            ..before
        })
        &&& r == Ok::<RecordingStopRun, ComputerUseError>(
            RecordingStopRun {
                phase: if before.showcase is Some {
                    RecordingStopPhase::Recorder
                } else {
                    RecordingStopPhase::Probe
                },
                video: Ok(None),
            },
        )
    }
}

impl ComputerUseSession {
    /// Begins to stop the recording. It is no longer kept alive from here on.
    pub fn begin_recording_stop(&mut self) -> (r: ComputerUseResult<RecordingStopRun>)
        ensures
            recording_stop_begins(*old(self), *final(self), r),
    {
        match self.ensure_active() {
            Ok(()) => {},
            Err(error) => return Err(error),
        }
        if !self.recording_active {
            return Err(
                ComputerUseError::new(
                    ComputerUseErrorCode::InvalidAction,
                    "showcase recording is not active",
                ),
            );
        }
        self.recording_keepalive = false;
        let phase = if self.showcase.is_some() {
            RecordingStopPhase::Recorder
        } else {
            RecordingStopPhase::Probe
        };
        Ok(RecordingStopRun { phase, video: Ok(None) })
    }

    /// Takes one more look at the trajectory in, and says whether it is the
    /// session's own.
    fn observe_recording(&mut self, trajectory: &Json) -> (r: bool)
        ensures
            r == owns_trajectory(*old(self), trajectory.view()),
            is_observed_health(*old(self), trajectory.view(), *final(self)),
    {
        match self.recording_health.take() {
            None => false,
            Some(health) => {
                let mut health = health;
                let owned = health.observe_trajectory(trajectory);
                self.recording_health = Some(health);
                owned
            },
        }
    }

    fn finish_recording_stop(
        &mut self,
        video: ComputerUseResult<Option<Json>>,
        trajectory: ComputerUseResult<Json>,
    ) -> (r: RecordingStopStep)
        ensures
            recording_stopped_step(video, trajectory, *old(self), *final(self), r),
    {
        if trajectory.is_ok() {
            self.recording_active = false;
            self.set_banner_recording(false);
        }
        self.set_banner_activity(BannerActivity::Ready);
        let video = match video {
            Ok(video) => video,
            Err(error) => return Step::Done(Err(error)),
        };
        if let Some(video) = &video {
            match RecordingVideoTerminalEvidence::try_from_finalized(video.clone()) {
                Ok(evidence) => {
                    self.last_recording_video = Some(evidence);
                },
                Err(error) => return Step::Done(Err(error)),
            }
        }
        match trajectory {
            Ok(trajectory) => Step::Done(Ok(RecordingStopped { trajectory, video })),
            Err(error) => Step::Done(Err(error)),
        }
    }

    /// The health of the recording after one more look at a running one.
    pub open spec fn is_state_health(
        self,
        trajectory: JsonTree,
        video: Option<JsonTree>,
        after: RecordingHealth,
    ) -> bool {
        let health = self.recording_health->0;
        after == if self.recording_active {
            RecordingHealth {
                lease_lost: health.lease_lost || !lease_enabled(trajectory),
                owner_mismatch: health.owner_mismatch || !lease_owned(
                    trajectory,
                    health.expected_owner@,
                ),
                video_stopped: health.video_stopped || (self.recording_expected_video
                    && !video_active(video)),
                ..health
            }
        } else {
            health
        }
    }

    /// The video that the recording's state speaks of: the running one, or the
    /// last that was finalized.
    pub open spec fn shown_video(self, running: Option<JsonTree>) -> Option<JsonTree> {
        match running {
            Some(video) => Some(video),
            None => match self.last_recording_video {
                Some(evidence) => Some(evidence.final_state.view()),
                None => None,
            },
        }
    }

    /// The state of the recording. It does not depend on the window.
    pub fn recording_state(
        &mut self,
        trajectory: ComputerUseResult<Json>,
        running_video: Option<Json>,
    ) -> (r: ComputerUseResult<Json>)
        ensures
            recording_is_reported(*old(self), trajectory, running_video, *final(self), r),
    {
        match self.ensure_active() {
            Ok(()) => {},
            Err(error) => return Err(error),
        }
        let trajectory = match trajectory {
            Ok(trajectory) => trajectory,
            Err(error) => return Err(error),
        };
        let ghost before = *self;
        let ghost running = view_of(running_video);
        let health = self.recording_health.take();
        let (state, observed) = {
            let video: Option<&Json> = match &running_video {
                Some(video) => Some(video),
                None => match &self.last_recording_video {
                    Some(evidence) => Some(evidence.state()),
                    None => None,
                },
            };
            assert(optional_tree(video) == before.shown_video(running));
            let mut observed: Option<RecordingHealth> = None;
            let mut issues: Vec<&str> = Vec::new();
            if let Some(health) = health {
                let mut health = health;
                if self.recording_active {
                    let _ = health.observe_trajectory(&trajectory);
                    health.observe_video(video, self.recording_expected_video);
                }
                issues = health.issue_names();
                observed = Some(health);
            } else {
                assert(texts(issues@) =~= Seq::<Seq<char>>::empty());
            }
            assert(texts(issues@) == issues_of(observed));
            let state = aggregate_recording_state(
                self.recording_active,
                self.recording_expected_video,
                &trajectory,
                video,
                &issues,
            );
            (state, observed)
        };
        self.recording_health = observed;
        Ok(state)
    }
}

/// What is told of the recording of an active session.
pub open spec fn recording_is_reported(
    before: ComputerUseSession,
    trajectory: ComputerUseResult<Json>,
    running_video: Option<Json>,
    after: ComputerUseSession,
    r: ComputerUseResult<Json>,
) -> bool {
    if !before.active {
        after == before && fails_with(
            r,
            ComputerUseErrorCode::BackendUnavailable,
            "Computer Use session is not active"@,
        )
    } else if trajectory is Err {
        after == before && r == Err::<Json, ComputerUseError>(
            trajectory->Err_0,
        )
    } else {
        is_recording_state(
            before,
            trajectory->Ok_0.view(),
            view_of(running_video),
            after,
            r,
        )
    }
}

/// The names of the issues seen.
pub open spec fn issues_of(health: Option<RecordingHealth>) -> Seq<Seq<char>> {
    match health {
        Some(health) => health.issue_texts(),
        None => Seq::empty(),
    }
}

/// The state of a recording, as it is reported, and the health it leaves.
pub open spec fn is_recording_state(
    before: ComputerUseSession,
    trajectory: JsonTree,
    running: Option<JsonTree>,
    after: ComputerUseSession,
    r: ComputerUseResult<Json>,
) -> bool {
    let video = before.shown_video(running);
    &&& after == (ComputerUseSession { recording_health: after.recording_health, ..before })
    &&& after.recording_health is Some <==> before.recording_health is Some
    &&& before.recording_health is Some ==> before.is_state_health(
        trajectory,
        video,
        after.recording_health->0,
    )
    &&& r matches Ok(state)
    &&& exists|projected: Seq<Seq<char>>|
        {
            &&& #[trigger] projects(
                projected,
                issues_of(after.recording_health),
                is_video_paused(before.recording_active, before.recording_expected_video, video),
            )
            &&& state.view() == JsonTree::Object(
                aggregate_members(
                    before.recording_active,
                    before.recording_expected_video,
                    trajectory,
                    video,
                    issues_of(after.recording_health),
                    projected,
                ),
            )
        }
}

impl RecordingStopRun {
    fn on_recorder(self, session: &mut ComputerUseSession, stopped: ComputerUseResult<Json>) -> (r:
        RecordingStopStep)
        requires
            self.phase == RecordingStopPhase::Recorder,
        ensures
            recording_stop_step(
                self,
                *old(session),
                RecordingStopReply::RecorderStopped(stopped),
                *final(session),
                r,
            ),
    {
        let owns = match session.showcase {
            Some(showcase) => showcase.owns_live_observation,
            None => false,
        };
        session.showcase = None;
        if owns {
            session.stop_live_observation();
        }
        let video = match stopped {
            Ok(video) => Ok(Some(video)),
            Err(error) => Err(error),
        };
        Step::Continue(RecordingStopRun { phase: RecordingStopPhase::Probe, video })
    }

    /// Takes an answer in. An answer to some other request changes nothing.
    pub fn advance(self, session: &mut ComputerUseSession, reply: RecordingStopReply) -> (r:
        RecordingStopStep)
        ensures
            recording_stop_step(self, *old(session), reply, *final(session), r),
    {
        match (self.phase, reply) {
            (RecordingStopPhase::Recorder, RecordingStopReply::RecorderStopped(stopped)) => {
                self.on_recorder(session, stopped)
            },
            (RecordingStopPhase::Probe, RecordingStopReply::Probed(probed)) => match probed {
                Err(error) => session.finish_recording_stop(self.video, Err(error)),
                Ok(current) => {
                    let ghost before = *session;
                    let owned = session.observe_recording(&current);
                    assert(is_observed_health(before, current.view(), *session));
                    if owned {
                        return Step::Continue(
                            RecordingStopRun { phase: RecordingStopPhase::Stop, video: self.video },
                        );
                    }
                    session.finish_recording_stop(self.video, Ok(current))
                },
            },
            (RecordingStopPhase::Stop, RecordingStopReply::TrajectoryStopped(stopped)) => {
                session.finish_recording_stop(self.video, stopped)
            },
            _ => Step::Continue(self),
        }
    }
}

impl RecordingStopRun {
    /// What the banner shows while the run waits for its answer.
    pub open spec fn shows_activity(self) -> Option<BannerActivity> {
        Some(BannerActivity::Waiting)
    }

    /// What the banner shows while the run waits for its answer.
    pub fn activity(&self) -> (r: Option<BannerActivity>)
        ensures
            r == self.shows_activity(),
    {
        Some(BannerActivity::Waiting)
    }
}

/// The driver's recording is process-wide: a session asks for its end only
/// where the trajectory is its own.
pub proof fn law_only_owned_trajectories_are_stopped(
    run: RecordingStopRun,
    before: ComputerUseSession,
    reply: RecordingStopReply,
    after: ComputerUseSession,
    next: RecordingStopRun,
)
    requires
        recording_stop_step(run, before, reply, after, RecordingStopStep::Continue(next)),
        run.phase != next.phase,
        next.phase == RecordingStopPhase::Stop,
    ensures
        reply matches RecordingStopReply::Probed(Ok(current)) && owns_trajectory(
            before,
            current.view(),
        ),
{
}

/// The video of an earlier recording is forgotten only once a new one runs; a
/// start that fails keeps it.
pub proof fn law_failed_starts_keep_the_last_video(
    run: RecordingStartRun,
    before: ComputerUseSession,
    now_ms: u64,
    reply: RecordingStartReply,
    after: ComputerUseSession,
    step: RecordingStartStep,
)
    requires
        recording_start_step(run, before, now_ms, reply, after, step),
        !(step matches Step::Done(Ok(_))),
    ensures
        after.last_recording_video == before.last_recording_video,
{
}

/// A start that fails leaves no recording on.
pub proof fn law_failed_starts_leave_nothing_on(
    run: RecordingStartRun,
    before: ComputerUseSession,
    now_ms: u64,
    reply: RecordingStartReply,
    after: ComputerUseSession,
    error: ComputerUseError,
)
    requires
        recording_start_step(run, before, now_ms, reply, after, RecordingStartStep::Done(Err(error))),
        run.phase == RecordingStartPhase::Live || run.phase == RecordingStartPhase::Recorder
            || run.phase == RecordingStartPhase::LiveCleanup || run.phase
            == RecordingStartPhase::RecorderCleanup,
    ensures
        !after.recording_active,
{
}

/// What the end of a stop leaves of the session.
proof fn lemma_stops_end(
    video: ComputerUseResult<Option<Json>>,
    trajectory: ComputerUseResult<Json>,
    before: ComputerUseSession,
    after: ComputerUseSession,
    outcome: ComputerUseResult<RecordingStopped>,
)
    requires
        recording_stopped_step(video, trajectory, before, after, RecordingStopStep::Done(outcome)),
    ensures
        after.recording_active == (before.recording_active && trajectory is Err),
        outcome is Ok ==> trajectory is Ok,
        after.banner is Some == before.banner is Some,
        after.banner matches Some(banner) ==> banner.activity == BannerActivity::Ready
            && banner.recording == (before.banner->0.recording && trajectory is Err)
            && banner.live_observation == before.banner->0.live_observation,
        after.active == before.active,
        after.live == before.live,
        after.target == before.target,
        after.observation == before.observation,
        after.action_evidence_epoch == before.action_evidence_epoch,
        after.recording_keepalive == before.recording_keepalive,
{
}

/// The session as the end of a stop finds it, and the trajectory it ends with.
proof fn lemma_stops_end_in_one_way(
    run: RecordingStopRun,
    before: ComputerUseSession,
    reply: RecordingStopReply,
    after: ComputerUseSession,
    outcome: ComputerUseResult<RecordingStopped>,
) -> (r: (ComputerUseSession, ComputerUseResult<Json>))
    requires
        recording_stop_step(run, before, reply, after, RecordingStopStep::Done(outcome)),
    ensures
        recording_stopped_step(run.video, r.1, r.0, after, RecordingStopStep::Done(outcome)),
        r.0 == (ComputerUseSession { recording_health: r.0.recording_health, ..before }),
        reply == RecordingStopReply::TrajectoryStopped(r.1) || reply == RecordingStopReply::Probed(
            r.1,
        ),
{
    match reply {
        RecordingStopReply::Probed(Ok(current)) => {
            let middle = choose|middle: ComputerUseSession|
                {
                    &&& #[trigger] is_observed_health(before, current.view(), middle)
                    &&& recording_stopped_step(
                        run.video,
                        Ok(current),
                        middle,
                        after,
                        RecordingStopStep::Done(outcome),
                    )
                };
            (middle, Ok(current))
        },
        RecordingStopReply::Probed(Err(error)) => (before, Err(error)),
        RecordingStopReply::TrajectoryStopped(stopped) => (before, stopped),
        RecordingStopReply::RecorderStopped(_) => (before, Err(arbitrary())),
    }
}

/// A stop that ends well leaves no recording on, with or without a video: the
/// session is not recording, and its banner shows none. Nothing else of the
/// session is lost to it.
pub proof fn law_stopped_recordings_are_off(
    run: RecordingStopRun,
    before: ComputerUseSession,
    reply: RecordingStopReply,
    after: ComputerUseSession,
    stopped: RecordingStopped,
)
    requires
        recording_stop_step(run, before, reply, after, RecordingStopStep::Done(Ok(stopped))),
    ensures
        !after.recording_active,
        after.banner is Some == before.banner is Some,
        after.banner matches Some(banner) ==> !banner.recording && banner.activity
            == BannerActivity::Ready && banner.live_observation
            == before.banner->0.live_observation,
        after.active == before.active,
        after.live == before.live,
        after.target == before.target,
        after.observation == before.observation,
        after.action_evidence_epoch == before.action_evidence_epoch,
        after.recording_keepalive == before.recording_keepalive,
{
    let (middle, trajectory) = lemma_stops_end_in_one_way(run, before, reply, after, Ok(stopped));
    lemma_stops_end(run.video, trajectory, middle, after, Ok(stopped));
}

/// A stop is over for the session once the trajectory is known to have ended,
/// whatever came of the video; where it could not be told, the recording stays on.
pub proof fn law_trajectories_that_ended_end_the_recording(
    run: RecordingStopRun,
    before: ComputerUseSession,
    reply: RecordingStopReply,
    after: ComputerUseSession,
    outcome: ComputerUseResult<RecordingStopped>,
)
    requires
        recording_stop_step(run, before, reply, after, RecordingStopStep::Done(outcome)),
    ensures
        (reply matches RecordingStopReply::TrajectoryStopped(Ok(_))) ==> !after.recording_active,
        (reply matches RecordingStopReply::Probed(Ok(_))) ==> !after.recording_active,
        (reply matches RecordingStopReply::TrajectoryStopped(Err(_))) ==> after.recording_active
            == before.recording_active && outcome is Err,
        (reply matches RecordingStopReply::Probed(Err(_))) ==> after.recording_active
            == before.recording_active && outcome is Err,
        after.banner matches Some(banner) ==> banner.activity == BannerActivity::Ready,
        after.banner matches Some(banner) ==> banner.recording == (before.banner->0.recording
            && !((reply matches RecordingStopReply::TrajectoryStopped(Ok(_))) || (
        reply matches RecordingStopReply::Probed(Ok(_))))),
{
    let (middle, trajectory) = lemma_stops_end_in_one_way(run, before, reply, after, outcome);
    lemma_stops_end(run.video, trajectory, middle, after, outcome);
}

/// The video that the recorder handed over is the one that the stop ends with and
/// the session remembers; a recorder that failed fails the stop with its own error.
pub proof fn law_stops_hand_the_video_over(
    run: RecordingStopRun,
    before: ComputerUseSession,
    reply: RecordingStopReply,
    after: ComputerUseSession,
    step: RecordingStopStep,
)
    requires
        recording_stop_step(run, before, reply, after, step),
    ensures
        run.phase == RecordingStopPhase::Recorder && (
        reply matches RecordingStopReply::RecorderStopped(Ok(_))) ==> (
        step matches Step::Continue(next) && (next.video matches Ok(Some(video)) && video
            == reply->RecorderStopped_0->Ok_0)),
        run.phase == RecordingStopPhase::Recorder && (
        reply matches RecordingStopReply::RecorderStopped(Err(_))) ==> (
        step matches Step::Continue(next) && (next.video matches Err(error) && error
            == reply->RecorderStopped_0->Err_0)),
        (step matches Step::Continue(next) && run.phase != RecordingStopPhase::Recorder) ==> step->Continue_0.video
            == run.video,
        step matches Step::Done(Ok(stopped)) ==> run.video == Ok::<Option<Json>, ComputerUseError>(
            stopped.video,
        ),
        (step matches Step::Done(Ok(stopped)) && stopped.video is Some) ==> (
        after.last_recording_video matches Some(evidence) && evidence.final_state.view()
            == step->Done_0->Ok_0.video->0.view() && is_finalized(evidence.final_state.view())),
        (step matches Step::Done(Ok(stopped)) && stopped.video is None)
            ==> after.last_recording_video == before.last_recording_video,
        step is Done && run.video is Err ==> step == RecordingStopStep::Done(
            Err(run.video->Err_0),
        ),
        step is Done && (run.video matches Ok(Some(video)) && !is_finalized(video.view())) ==> (
        step matches Step::Done(Err(error)) && error.code == ComputerUseErrorCode::CaptureFailed),
{
}

/// The trajectory that a stop ends with is the one that the driver told of last,
/// and a driver that failed fails the stop with its own error.
pub proof fn law_stops_hand_the_trajectory_over(
    run: RecordingStopRun,
    before: ComputerUseSession,
    reply: RecordingStopReply,
    after: ComputerUseSession,
    outcome: ComputerUseResult<RecordingStopped>,
)
    requires
        recording_stop_step(run, before, reply, after, RecordingStopStep::Done(outcome)),
        run.video matches Ok(None),
    ensures
        reply matches RecordingStopReply::TrajectoryStopped(stopped) ==> match stopped {
            Ok(trajectory) => outcome matches Ok(ended) && ended.trajectory == trajectory,
            Err(error) => outcome == Err::<RecordingStopped, ComputerUseError>(error),
        },
        reply matches RecordingStopReply::Probed(probed) ==> match probed {
            Ok(trajectory) => outcome matches Ok(ended) && ended.trajectory == trajectory,
            Err(error) => outcome == Err::<RecordingStopped, ComputerUseError>(error),
        },
{
}

/// A recorder that stops gives up the feed that was started for it, and no other.
pub proof fn law_recorders_give_up_their_own_feed(
    run: RecordingStopRun,
    before: ComputerUseSession,
    reply: RecordingStopReply,
    after: ComputerUseSession,
    step: RecordingStopStep,
)
    requires
        recording_stop_step(run, before, reply, after, step),
        run.phase == RecordingStopPhase::Recorder,
        reply is RecorderStopped,
    ensures
        after.showcase is None,
        (before.showcase matches Some(showcase) && showcase.owns_live_observation)
            ==> after.live is None,
        !(before.showcase matches Some(showcase) && showcase.owns_live_observation) ==> after.live
            == before.live,
        after.recording_active == before.recording_active,
        step matches Step::Continue(next) && next.phase == RecordingStopPhase::Probe,
{
}

/// A recording is stopped only where an active session has one; it is stopped by
/// its recorder first, and is not kept alive meanwhile.
pub proof fn law_only_running_recordings_are_stopped(
    before: ComputerUseSession,
    after: ComputerUseSession,
    r: ComputerUseResult<RecordingStopRun>,
)
    requires
        recording_stop_begins(before, after, r),
    ensures
        r is Ok <==> before.active && before.recording_active,
        r is Err ==> after == before,
        r matches Ok(run) ==> {
            &&& !after.recording_keepalive
            &&& after.recording_active
            &&& after.showcase == before.showcase
            &&& after.recording_health == before.recording_health
            &&& run.phase == RecordingStopPhase::Recorder <==> before.showcase is Some
            &&& run.phase == RecordingStopPhase::Probe <==> before.showcase is None
            &&& run.video matches Ok(None)
        },
{
}

/// A recording begins with what was asked for, in an active session whose request
/// holds.
pub proof fn law_recordings_begin_as_asked(
    session: ComputerUseSession,
    request: ComputerUseRecordingStartRequest,
    validation: ComputerUseResult<()>,
    r: ComputerUseResult<RecordingStartRun>,
)
    requires
        recording_begins(session, request, validation, r),
    ensures
        r is Ok <==> validation is Ok && session.active,
        validation matches Err(error) ==> r == Err::<RecordingStartRun, ComputerUseError>(error),
        r matches Ok(run) ==> run.output_dir == request.output_dir && run.record_video
            == request.record_video && run.asks() == RecordingStartRequestKind::ResolveTarget
            && run.failure is None && !run.owns_live_observation,
{
}

/// A trajectory is started into the directory that was asked for, for the session,
/// and without a video of its own.
pub proof fn law_trajectories_start_where_they_were_asked_to(
    output_dir: Seq<char>,
    session_id: Seq<char>,
)
    ensures
        trajectory_arguments(output_dir, session_id).text_at("output_dir"@) == Some(output_dir),
        trajectory_arguments(output_dir, session_id).bool_at("record_video"@) == Some(false),
        trajectory_arguments(output_dir, session_id).text_at("session"@) == Some(session_id),
{
    reveal_strlit("output_dir");
    reveal_strlit("record_video");
    reveal_strlit("session");
    assert("output_dir"@.len() == 10);
    assert("record_video"@.len() == 12);
    assert("session"@.len() == 7);
}

/// A recording that starts is on: the session records and shows it, expects a
/// video exactly where one runs, and watches over the lease in its own name.
pub proof fn law_started_recordings_are_on(
    run: RecordingStartRun,
    before: ComputerUseSession,
    now_ms: u64,
    reply: RecordingStartReply,
    after: ComputerUseSession,
    started: RecordingStarted,
)
    requires
        recording_start_step(run, before, now_ms, reply, after, RecordingStartStep::Done(Ok(started))),
    ensures
        run.phase == RecordingStartPhase::Start ==> after.recording_active && !run.record_video
            && started.video is None && (after.banner matches Some(banner) ==> banner.recording),
        run.phase == RecordingStartPhase::Recorder ==> (
        reply matches RecordingStartReply::Recorder(Ok(video)) && started.video == Some(video)
            && started.trajectory == run.trajectory && after.recording_active
            == before.recording_active && after.showcase is Some
            && after.showcase->0.owns_live_observation == run.owns_live_observation),
        run.phase == RecordingStartPhase::Start || run.phase == RecordingStartPhase::Recorder,
        after.recording_expected_video == started.video is Some,
        after.last_recording_video is None,
        after.recording_health matches Some(health) && health.expected_owner@ == before.session_id@
            && health.lease_lost == !lease_enabled(started.trajectory.view())
            && health.owner_mismatch == !lease_owned(started.trajectory.view(), before.session_id@)
            && !health.video_stopped,
        after.recording_keepalive == (lease_enabled(started.trajectory.view()) && lease_owned(
            started.trajectory.view(),
            before.session_id@,
        )),
        after.session_id@ == before.session_id@,
        after.active == before.active,
{
}

/// A start goes on only past a usable window with current evidence and no other
/// recording; a video is made only where it was asked for, and what the driver and
/// the host told on the way is kept.
pub proof fn law_starts_go_on_past_their_guards(
    run: RecordingStartRun,
    before: ComputerUseSession,
    now_ms: u64,
    reply: RecordingStartReply,
    after: ComputerUseSession,
    next: RecordingStartRun,
)
    requires
        recording_start_step(run, before, now_ms, reply, after, RecordingStartStep::Continue(next)),
        next.phase != run.phase,
    ensures
        next.output_dir == run.output_dir,
        next.record_video == run.record_video,
        next.phase == RecordingStartPhase::Start ==> (
        reply matches RecordingStartReply::Target(resolved) && is_usable_target(before, resolved))
            && !before.recording_active && before.evidence_current(now_ms) && after == before,
        next.phase == RecordingStartPhase::Live ==> run.record_video && after.recording_active && (
        after.banner matches Some(banner) ==> banner.recording),
        next.phase == RecordingStartPhase::Recorder ==> (
        reply matches RecordingStartReply::Feed(Ok(disposition)) && next.owns_live_observation == (
        disposition == LiveObservationStartDisposition::StartedNew)) && next.trajectory
            == run.trajectory,
        next.phase == RecordingStartPhase::LiveCleanup ==> (
        reply matches RecordingStartReply::Feed(Err(error)) && next.failure == Some(error)),
        next.phase == RecordingStartPhase::RecorderCleanup ==> (
        reply matches RecordingStartReply::Recorder(Err(error)) && next.failure == Some(error)
            && next.owns_live_observation == run.owns_live_observation),
        next.phase != RecordingStartPhase::Target,
{
}

/// A start that is given up ends with what it failed by, and takes back what it
/// had started: the recording, its light, and a feed of its own.
pub proof fn law_given_up_starts_take_everything_back(
    run: RecordingStartRun,
    before: ComputerUseSession,
    now_ms: u64,
    reply: RecordingStartReply,
    after: ComputerUseSession,
    outcome: ComputerUseResult<RecordingStarted>,
)
    requires
        run.well_formed(),
        recording_start_step(run, before, now_ms, reply, after, RecordingStartStep::Done(outcome)),
        run.phase == RecordingStartPhase::LiveCleanup || run.phase
            == RecordingStartPhase::RecorderCleanup,
    ensures
        outcome == Err::<RecordingStarted, ComputerUseError>(run.failure->0),
        !after.recording_active,
        after.banner matches Some(banner) ==> !banner.recording && banner.activity
            == BannerActivity::Ready,
        run.phase == RecordingStartPhase::RecorderCleanup && run.owns_live_observation
            ==> after.live is None,
        !run.owns_live_observation || run.phase == RecordingStartPhase::LiveCleanup ==> after.live
            == before.live,
{
}

/// A probe that failed changes nothing of a recording that is kept alive. One that
/// shows the lease lost or gone elsewhere ends the keepalive and is remembered, and
/// no probe brings it back or forgets what was seen.
pub proof fn law_keepalives_end_with_the_lease(
    before: ComputerUseSession,
    probe: ComputerUseResult<Json>,
    after: ComputerUseSession,
)
    requires
        is_keepalive_probe(before, probe, after),
    ensures
        after.recording_keepalive ==> before.recording_keepalive,
        probe is Err && before.recording_health is Some ==> after == before,
        before.recording_keepalive && before.recording_health is Some && (
        probe matches Ok(trajectory) && !(lease_enabled(trajectory.view()) && lease_owned(
            trajectory.view(),
            before.recording_health->0.expected_owner@,
        ))) ==> !after.recording_keepalive && (after.recording_health->0.lease_lost
            || after.recording_health->0.owner_mismatch),
        before.recording_keepalive && before.recording_health is Some && (
        probe matches Ok(trajectory) && lease_enabled(trajectory.view()) && lease_owned(
            trajectory.view(),
            before.recording_health->0.expected_owner@,
        )) ==> after == before,
        before.recording_health matches Some(seen) ==> (after.recording_health matches Some(kept)
            && kept.expected_owner == seen.expected_owner && (seen.lease_lost ==> kept.lease_lost)
            && (seen.owner_mismatch ==> kept.owner_mismatch) && kept.video_stopped
            == seen.video_stopped),
        after.recording_active == before.recording_active,
        after.active == before.active,
        after.live == before.live,
        after.observation == before.observation,
{
}

/// The state of a recording is told whether or not its window is there; a driver
/// that could not be asked is an error, and telling changes nothing but the health.
pub proof fn law_recordings_are_told_of(
    before: ComputerUseSession,
    trajectory: ComputerUseResult<Json>,
    running_video: Option<Json>,
    after: ComputerUseSession,
    r: ComputerUseResult<Json>,
)
    requires
        recording_is_reported(before, trajectory, running_video, after, r),
    ensures
        r is Ok <==> before.active && trajectory is Ok,
        r is Err ==> after == before,
        before.active && trajectory is Err ==> r == Err::<Json, ComputerUseError>(
            trajectory->Err_0,
        ),
        after.recording_active == before.recording_active,
        after.last_recording_video == before.last_recording_video,
        after.recording_keepalive == before.recording_keepalive,
        after.recording_health is Some == before.recording_health is Some,
        !before.recording_active ==> after.recording_health == before.recording_health,
        (before.recording_health is Some && r is Ok) ==> {
            let seen = before.recording_health->0;
            let kept = after.recording_health->0;
            &&& kept.expected_owner == seen.expected_owner
            &&& seen.lease_lost ==> kept.lease_lost
            &&& seen.owner_mismatch ==> kept.owner_mismatch
            &&& seen.video_stopped ==> kept.video_stopped
            &&& before.recording_active && !lease_enabled(trajectory->Ok_0.view())
                ==> kept.lease_lost
            &&& before.recording_active && !lease_owned(
                trajectory->Ok_0.view(),
                seen.expected_owner@,
            ) ==> kept.owner_mismatch
            &&& before.recording_active && before.recording_expected_video && running_video is None
                && before.last_recording_video is None ==> kept.video_stopped
            &&& !before.recording_expected_video ==> kept.video_stopped == seen.video_stopped
        },
{
}

} // verus!
