//! The start of a session: its window is resolved, brought to the front where
//! that is asked for, and only then handed to the driver.

use crate::contracts::ComputerUseToolResult;
use crate::errors::{ComputerUseErrorCode, ComputerUseResult};
#[allow(unused_imports)]
use crate::errors::{fails_with, ComputerUseError};
use crate::session::ComputerUseSession;
#[allow(unused_imports)]
use crate::session_lifecycle::upstream_start_ends;
use crate::session_windows::{BootstrapRun, WindowReply, WindowRequest};
#[allow(unused_imports)]
use crate::session_windows::{bootstrap_step, BootstrapPhase, BootstrapStep};
use crate::steps::Step;
#[allow(unused_imports)]
use crate::steps::stops;
use crate::window_target::WindowTarget;
use vstd::prelude::*;

verus! {

/// Where a start is in its course.
#[derive(Debug)]
pub enum StartPhase {
    Target,
    Activation(BootstrapRun),
    Upstream(WindowTarget),
    Banner(WindowTarget),
}

/// How the window was brought to the front before the start.
#[derive(Debug)]
pub struct StartActivation {
    pub result: ComputerUseToolResult,
    pub fallback: bool,
}

/// A start of a session.
#[derive(Debug)]
pub struct StartRun {
    pub phase: StartPhase,
    pub activate_before: bool,
    pub activation: Option<StartActivation>,
}

/// What a start asks for.
#[derive(Debug, Clone, Copy, PartialEq, Eq, Structural)]
pub enum StartRequest {
    ResolveTarget,
    /// A step of the activation.
    Window(WindowRequest),
    StartUpstream,
    StartBanner,
}

/// What the host hands back.
#[derive(Debug)]
pub enum StartReply {
    Target(ComputerUseResult<WindowTarget>),
    Window(WindowReply),
    Started(ComputerUseResult<()>),
    /// Whether a control banner runs.
    Banner(bool),
}

pub type StartStep = Step<StartRun, Option<StartActivation>>;

impl StartRun {
    pub open spec fn at(self, phase: StartPhase) -> StartRun {
        StartRun { phase, ..self }
    }

    /// The run holds what its phase needs, and a window that was to come to
    /// the front did so before the driver hears of it.
    pub open spec fn well_formed(self) -> bool {
        match self.phase {
            StartPhase::Target => self.activation is None,
            StartPhase::Activation(run) => run.well_formed() && self.activate_before
                && self.activation is None,
            StartPhase::Upstream(_) | StartPhase::Banner(_) => self.activation is Some
                == self.activate_before,
        }
    }

    pub open spec fn asks(self) -> StartRequest {
        match self.phase {
            StartPhase::Target => StartRequest::ResolveTarget,
            StartPhase::Activation(run) => StartRequest::Window(run.asks()),
            StartPhase::Upstream(_) => StartRequest::StartUpstream,
            StartPhase::Banner(_) => StartRequest::StartBanner,
        }
    }

    pub fn request(&self) -> (r: StartRequest)
        ensures
            r == self.asks(),
    {
        match &self.phase {
            StartPhase::Target => StartRequest::ResolveTarget,
            StartPhase::Activation(run) => StartRequest::Window(run.request()),
            StartPhase::Upstream(_) => StartRequest::StartUpstream,
            StartPhase::Banner(_) => StartRequest::StartBanner,
        }
    }
}

/// One step of the activation inside a start.
pub open spec fn start_activation_step(
    run: StartRun,
    activation: BootstrapRun,
    before: ComputerUseSession,
    reply: WindowReply,
    after: ComputerUseSession,
    step: StartStep,
) -> bool {
    exists|inner: BootstrapStep|
        {
            &&& #[trigger] bootstrap_step(activation, before, reply, after, inner)
            &&& match inner {
                Step::Continue(next) => step == StartStep::Continue(
                    run.at(StartPhase::Activation(next)),
                ),
                Step::Done(Err(error)) => stops(step, error),
                Step::Done(Ok(report)) => step == StartStep::Continue(
                    StartRun {
                        phase: StartPhase::Upstream(report.target),
                        activate_before: run.activate_before,
                        activation: Some(
                            StartActivation { result: report.result, fallback: report.fallback },
                        ),
                    },
                ),
            }
        }
}

/// One step of a start.
pub open spec fn start_step(
    run: StartRun,
    before: ComputerUseSession,
    now_ms: u64,
    reply: StartReply,
    after: ComputerUseSession,
    step: StartStep,
) -> bool {
    match (run.phase, reply) {
        (StartPhase::Target, StartReply::Target(resolved)) => {
            &&& after == before
            &&& match resolved {
                Err(error) => stops(step, error),
                Ok(target) => step == StartStep::Continue(
                    run.at(
                        if run.activate_before {
                            StartPhase::Activation(
                                BootstrapRun {
                                    phase: BootstrapPhase::Gate,
                                    expected: target,
                                    result: None,
                                },
                            )
                        } else {
                            StartPhase::Upstream(target)
                        },
                    ),
                ),
            }
        },
        (StartPhase::Activation(activation), StartReply::Window(reply)) => start_activation_step(
            run,
            activation,
            before,
            reply,
            after,
            step,
        ),
        (StartPhase::Upstream(target), StartReply::Started(result)) => {
            exists|r: ComputerUseResult<()>|
                {
                    &&& #[trigger] upstream_start_ends(before, result, now_ms, after, r)
                    &&& match r {
                        Err(error) => stops(step, error),
                        Ok(()) => step == StartStep::Continue(run.at(StartPhase::Banner(target))),
                    }
                }
        },
        (StartPhase::Banner(target), StartReply::Banner(running)) => {
            &&& after == before.started(target, running)
            &&& step == StartStep::Done(Ok(run.activation))
        },
        _ => after == before && step == StartStep::Continue(run),
    }
}

/// The start of a session begins with its window.
pub open spec fn session_start_begins(before: ComputerUseSession, activate_before: bool, validation: ComputerUseResult<()>, after: ComputerUseSession, r: ComputerUseResult<StartRun>) -> bool {
    &&& if before.active {
        after == before && fails_with(
            r,
            ComputerUseErrorCode::InvalidAction,
            "window session is already active"@,
        )
    } else {
        &&& after == (ComputerUseSession { pixel_route: None, ..before })
        &&& match validation {
            Err(error) => r == Err::<StartRun, ComputerUseError>(error),
            Ok(()) => r == Ok::<StartRun, ComputerUseError>(
                StartRun { phase: StartPhase::Target, activate_before, activation: None },
            ),
        }
    }
    &&& r matches Ok(run) ==> run.well_formed()
}

impl ComputerUseSession {
    /// Begins a start. `validation` is the verdict on the request for the
    /// session's scope.
    pub fn begin_session_start(
        &mut self,
        activate_before: bool,
        validation: ComputerUseResult<()>,
    ) -> (r: ComputerUseResult<StartRun>)
        ensures
            session_start_begins(*old(self), activate_before, validation, *final(self), r),
    {
        match self.begin_start(validation) {
            Ok(()) => Ok(
                StartRun { phase: StartPhase::Target, activate_before, activation: None },
            ),
            Err(error) => Err(error),
        }
    }
}

impl StartRun {
    /// Takes the answer to the run's request in. An answer to some other
    /// request changes nothing.
    pub fn advance(self, session: &mut ComputerUseSession, now_ms: u64, reply: StartReply) -> (r:
        StartStep)
        requires
            self.well_formed(),
        ensures
            start_step(self, *old(session), now_ms, reply, *final(session), r),
            r matches Step::Continue(next) ==> next.well_formed(),
    {
        let ghost before = *session;
        let StartRun { phase, activate_before, activation } = self;
        match (phase, reply) {
            (StartPhase::Target, StartReply::Target(resolved)) => {
                let target = match resolved {
                    Ok(target) => target,
                    Err(error) => return Step::Done(Err(error)),
                };
                let phase = if activate_before {
                    StartPhase::Activation(BootstrapRun::new(target))
                } else {
                    StartPhase::Upstream(target)
                };
                Step::Continue(StartRun { phase, activate_before, activation })
            },
            (StartPhase::Activation(run), StartReply::Window(reply)) => {
                let inner = run.advance(session, reply);
                assert(bootstrap_step(run, before, reply, *session, inner));
                match inner {
                    Step::Continue(next) => Step::Continue(
                        StartRun {
                            phase: StartPhase::Activation(next),
                            activate_before,
                            activation,
                        },
                    ),
                    Step::Done(Err(error)) => Step::Done(Err(error)),
                    Step::Done(Ok(report)) => Step::Continue(
                        StartRun {
                            phase: StartPhase::Upstream(report.target),
                            activate_before,
                            activation: Some(
                                StartActivation {
                                    result: report.result,
                                    fallback: report.fallback,
                                },
                            ),
                        },
                    ),
                }
            },
            (StartPhase::Upstream(target), StartReply::Started(result)) => {
                let ended = session.finish_upstream_start(result, now_ms);
                assert(upstream_start_ends(before, result, now_ms, *session, ended));
                match ended {
                    Ok(()) => Step::Continue(
                        StartRun { phase: StartPhase::Banner(target), activate_before, activation },
                    ),
                    Err(error) => Step::Done(Err(error)),
                }
            },
            (StartPhase::Banner(target), StartReply::Banner(running)) => {
                session.finish_started_session(target, running);
                Step::Done(Ok(activation))
            },
            (phase, _) => Step::Continue(StartRun { phase, activate_before, activation }),
        }
    }
}

/// A session becomes active in one step only: the last one of a start, which
/// binds the window that the driver was started for. Every other step leaves
/// an inactive session inactive.
pub proof fn law_start_binds_at_its_end(
    run: StartRun,
    before: ComputerUseSession,
    now_ms: u64,
    reply: StartReply,
    after: ComputerUseSession,
    step: StartStep,
)
    requires
        start_step(run, before, now_ms, reply, after, step),
        !before.active,
    ensures
        after.active <==> (step matches Step::Done(Ok(_))),
        after.active ==> (run.phase matches StartPhase::Banner(target) && after.target == Some(
            target,
        ) && after.marker.visible),
{
}

/// Where the window is to come to the front, the driver is started only after
/// it did, and for no other window than the one that was resolved.
pub proof fn law_activation_precedes_the_driver(
    run: StartRun,
    before: ComputerUseSession,
    now_ms: u64,
    reply: StartReply,
    after: ComputerUseSession,
    next: StartRun,
)
    requires
        run.well_formed(),
        run.activate_before,
        start_step(run, before, now_ms, reply, after, StartStep::Continue(next)),
        !(run.phase is Upstream),
        next.phase is Upstream,
    ensures
        run.phase matches StartPhase::Activation(activation)
            && next.phase->Upstream_0.same_window(activation.expected)
            && next.phase->Upstream_0.is_foreground,
{
}

/// A session starts only where it does not run, with its window first, and with an
/// activation where that was asked for.
pub proof fn law_starts_begin_with_the_window(
    before: ComputerUseSession,
    activate_before: bool,
    validation: ComputerUseResult<()>,
    after: ComputerUseSession,
    r: ComputerUseResult<StartRun>,
)
    requires
        session_start_begins(before, activate_before, validation, after, r),
    ensures
        r is Ok <==> !before.active && validation is Ok,
        r matches Ok(run) ==> run.asks() == StartRequest::ResolveTarget && run.activate_before
            == activate_before && run.activation is None && after.pixel_route is None,
        !before.active && validation is Err ==> r == Err::<StartRun, ComputerUseError>(
            validation->Err_0,
        ),
        before.active ==> after == before,
        after.active == before.active,
        after.target == before.target,
{
}

/// The window that was found is the one that is activated, that the driver starts
/// for, and that the session is bound to; what an activation answered is reported.
/// Every failure on the way is the error, and leaves the session unbound.
pub proof fn law_starts_keep_to_their_window(
    run: StartRun,
    before: ComputerUseSession,
    now_ms: u64,
    reply: StartReply,
    after: ComputerUseSession,
    step: StartStep,
)
    requires
        run.well_formed(),
        start_step(run, before, now_ms, reply, after, step),
    ensures
        step matches Step::Continue(next) ==> {
            &&& next.activate_before == run.activate_before
            &&& after.target == before.target
            &&& run.phase is Target && !(next.phase is Target) ==> {
                &&& reply is Target
                &&& reply->Target_0 is Ok
                &&& run.activate_before ==> (next.phase matches StartPhase::Activation(activation)
                    && activation.expected == reply->Target_0->Ok_0)
                &&& !run.activate_before ==> next.phase == StartPhase::Upstream(
                    reply->Target_0->Ok_0,
                )
            }
            &&& (run.phase matches StartPhase::Activation(activation)
                && next.phase matches StartPhase::Activation(going)) ==> (run.phase->Activation_0.expected
                == next.phase->Activation_0.expected)
            &&& run.phase is Activation && next.phase is Upstream ==> {
                &&& next.activation is Some
                &&& Some(next.activation->0.result) == run.phase->Activation_0.result
                &&& reply == StartReply::Window(WindowReply::Target(Ok(next.phase->Upstream_0)))
                &&& next.phase->Upstream_0.is_foreground
                &&& next.phase->Upstream_0.pid == run.phase->Activation_0.expected.pid
                &&& next.phase->Upstream_0.window_id == run.phase->Activation_0.expected.window_id
            }
            &&& run.phase is Upstream && !(next.phase is Upstream) ==> next.phase
                == StartPhase::Banner(run.phase->Upstream_0) && next.activation == run.activation
        },
        step matches Step::Done(Ok(activation)) ==> {
            &&& run.phase is Banner
            &&& activation == run.activation
            &&& after.target == Some(run.phase->Banner_0)
            &&& after.active
            &&& reply == StartReply::Banner(after.banner is Some)
        },
        run.phase is Target && reply is Target && reply->Target_0 is Err ==> step
            == StartStep::Done(Err(reply->Target_0->Err_0)) && after == before,
        (step matches Step::Done(Err(_))) ==> after.target == before.target || after.target is None,
{
    if let StartPhase::Activation(activation) = run.phase {
        if let StartReply::Window(answer) = reply {
            let inner = choose|inner: BootstrapStep|
                {
                    &&& #[trigger] bootstrap_step(activation, before, answer, after, inner)
                    &&& match inner {
                        Step::Continue(next) => step == StartStep::Continue(
                            run.at(StartPhase::Activation(next)),
                        ),
                        Step::Done(Err(error)) => stops(step, error),
                        Step::Done(Ok(report)) => step == StartStep::Continue(
                            StartRun {
                                phase: StartPhase::Upstream(report.target),
                                activate_before: run.activate_before,
                                activation: Some(
                                    StartActivation {
                                        result: report.result,
                                        fallback: report.fallback,
                                    },
                                ),
                            },
                        ),
                    }
                };
            assert(bootstrap_step(activation, before, answer, after, inner));
        }
    }
}

} // verus!
