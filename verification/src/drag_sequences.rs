//! Drags made of single pointer events: when the button goes down, what has to
//! hold before the path is walked, and how the button comes up again.

use vstd::prelude::*;

verus! {

/// A pause between pointer events.
#[derive(Debug, Clone, Copy, PartialEq, Eq, Structural)]
pub enum DragSettle {
    BeforeDown,
    BeforeDrop,
    AfterUp,
}

impl DragSettle {
    /// How long the pause is.
    pub fn duration_ms(self) -> (r: u64)
        ensures
            r == match self {
                DragSettle::BeforeDown => 50u64,
                DragSettle::BeforeDrop => 75u64,
                DragSettle::AfterUp => 50u64,
            },
    {
        match self {
            DragSettle::BeforeDown => 50,
            DragSettle::BeforeDrop => 75,
            DragSettle::AfterUp => 50,
        }
    }
}

/// What came of a drag with separate pointer events.
#[derive(Debug)]
pub struct RawDragSequenceOutcome<T, E> {
    pub trace: T,
    pub path_sent: bool,
    pub release_error: Option<E>,
}

/// How far a drag with separate pointer events got.
#[derive(Debug)]
pub enum RawDragPhase<T, E> {
    /// The pointer moved to the source.
    SourceMove,
    SettleSource,
    /// The button pressed.
    Down,
    /// What is seen after the button went down.
    Inspect { inserted: u32 },
    SettleDown { trace: T },
    /// The path walked.
    Path { trace: T },
    SettleDrop { trace: T },
    /// The button released, after the path where there was one.
    Up { trace: T, path: Option<Result<(), E>> },
    SettleUp { trace: T, path: Option<Result<(), E>> },
}

/// What came of what the phase asks for.
#[derive(Debug)]
pub enum RawDragEvent<T, E> {
    Moved(Result<(), E>),
    Settled,
    Pressed(Result<u32, E>),
    Inspected { trace: T, allows_path: bool },
    Walked(Result<(), E>),
    Released(Result<(), E>),
}

/// A drag that goes on, or is done.
#[derive(Debug)]
pub enum DragStep<Phase, Outcome> {
    Continue(Phase),
    Done(Outcome),
}

pub type RawDragResult<T, E> = Result<RawDragSequenceOutcome<T, E>, E>;

pub type RawDragStep<T, E> = DragStep<RawDragPhase<T, E>, RawDragResult<T, E>>;

/// What a drag returns once the button was released, or could not be.
pub open spec fn raw_drag_result<T, E>(
    trace: T,
    path: Option<Result<(), E>>,
    released: Result<(), E>,
) -> RawDragResult<T, E> {
    match path {
        None => Ok(
            RawDragSequenceOutcome {
                trace,
                path_sent: false,
                release_error: match released {
                    Ok(()) => None,
                    Err(error) => Some(error),
                },
            },
        ),
        Some(Err(error)) => Err(error),
        Some(Ok(())) => match released {
            Ok(()) => Ok(RawDragSequenceOutcome { trace, path_sent: true, release_error: None }),
            Err(error) => Err(error),
        },
    }
}

/// One step of a drag with separate pointer events.
pub open spec fn raw_drag_step<T, E>(
    phase: RawDragPhase<T, E>,
    event: RawDragEvent<T, E>,
) -> RawDragStep<T, E> {
    match (phase, event) {
        (RawDragPhase::SourceMove, RawDragEvent::Moved(Err(error))) => DragStep::Done(Err(error)),
        (RawDragPhase::SourceMove, RawDragEvent::Moved(Ok(()))) => DragStep::Continue(
            RawDragPhase::SettleSource,
        ),
        (RawDragPhase::SettleSource, RawDragEvent::Settled) => DragStep::Continue(
            RawDragPhase::Down,
        ),
        (RawDragPhase::Down, RawDragEvent::Pressed(Err(error))) => DragStep::Done(Err(error)),
        (RawDragPhase::Down, RawDragEvent::Pressed(Ok(inserted))) => DragStep::Continue(
            RawDragPhase::Inspect { inserted },
        ),
        (RawDragPhase::Inspect { .. }, RawDragEvent::Inspected { trace, allows_path }) =>
            DragStep::Continue(
            if allows_path {
                RawDragPhase::SettleDown { trace }
            } else {
                RawDragPhase::Up { trace, path: None }
            },
        ),
        (RawDragPhase::SettleDown { trace }, RawDragEvent::Settled) => DragStep::Continue(
            RawDragPhase::Path { trace },
        ),
        (RawDragPhase::Path { trace }, RawDragEvent::Walked(Ok(()))) => DragStep::Continue(
            RawDragPhase::SettleDrop { trace },
        ),
        (RawDragPhase::Path { trace }, RawDragEvent::Walked(Err(error))) => DragStep::Continue(
            RawDragPhase::Up { trace, path: Some(Err(error)) },
        ),
        (RawDragPhase::SettleDrop { trace }, RawDragEvent::Settled) => DragStep::Continue(
            RawDragPhase::Up { trace, path: Some(Ok(())) },
        ),
        (RawDragPhase::Up { trace, path }, RawDragEvent::Released(Ok(()))) => DragStep::Continue(
            RawDragPhase::SettleUp { trace, path },
        ),
        (RawDragPhase::Up { trace, path }, RawDragEvent::Released(Err(error))) => DragStep::Done(
            raw_drag_result(trace, path, Err(error)),
        ),
        (RawDragPhase::SettleUp { trace, path }, RawDragEvent::Settled) => DragStep::Done(
            raw_drag_result(trace, path, Ok(())),
        ),
        (phase, _) => DragStep::Continue(phase),
    }
}

impl<T, E> RawDragPhase<T, E> {
    /// The pause the phase asks for.
    pub fn settle(&self) -> (r: Option<DragSettle>)
        ensures
            r == match self {
                RawDragPhase::SettleSource => Some(DragSettle::BeforeDown),
                RawDragPhase::SettleDown { .. } => Some(DragSettle::BeforeDown),
                RawDragPhase::SettleDrop { .. } => Some(DragSettle::BeforeDrop),
                RawDragPhase::SettleUp { .. } => Some(DragSettle::AfterUp),
                _ => None,
            },
    {
        match self {
            RawDragPhase::SettleSource => Some(DragSettle::BeforeDown),
            RawDragPhase::SettleDown { .. } => Some(DragSettle::BeforeDown),
            RawDragPhase::SettleDrop { .. } => Some(DragSettle::BeforeDrop),
            RawDragPhase::SettleUp { .. } => Some(DragSettle::AfterUp),
            _ => None,
        }
    }

    /// Takes in what came of what the phase asks for. Anything else changes
    /// nothing.
    pub fn advance(self, event: RawDragEvent<T, E>) -> (r: RawDragStep<T, E>)
        ensures
            r == raw_drag_step(self, event),
    {
        match (self, event) {
            (RawDragPhase::SourceMove, RawDragEvent::Moved(moved)) => match moved {
                Ok(()) => DragStep::Continue(RawDragPhase::SettleSource),
                Err(error) => DragStep::Done(Err(error)),
            },
            (RawDragPhase::SettleSource, RawDragEvent::Settled) => DragStep::Continue(
                RawDragPhase::Down,
            ),
            (RawDragPhase::Down, RawDragEvent::Pressed(pressed)) => match pressed {
                Ok(inserted) => DragStep::Continue(RawDragPhase::Inspect { inserted }),
                Err(error) => DragStep::Done(Err(error)),
            },
            (RawDragPhase::Inspect { .. }, RawDragEvent::Inspected { trace, allows_path }) => {
                if allows_path {
                    DragStep::Continue(RawDragPhase::SettleDown { trace })
                } else {
                    DragStep::Continue(RawDragPhase::Up { trace, path: None })
                }
            },
            (RawDragPhase::SettleDown { trace }, RawDragEvent::Settled) => DragStep::Continue(
                RawDragPhase::Path { trace },
            ),
            (RawDragPhase::Path { trace }, RawDragEvent::Walked(walked)) => match walked {
                Ok(()) => DragStep::Continue(RawDragPhase::SettleDrop { trace }),
                Err(error) => DragStep::Continue(
                    RawDragPhase::Up { trace, path: Some(Err(error)) },
                ),
            },
            (RawDragPhase::SettleDrop { trace }, RawDragEvent::Settled) => DragStep::Continue(
                RawDragPhase::Up { trace, path: Some(Ok(())) },
            ),
            (RawDragPhase::Up { trace, path }, RawDragEvent::Released(released)) => match released {
                Ok(()) => DragStep::Continue(RawDragPhase::SettleUp { trace, path }),
                Err(error) => DragStep::Done(
                    match path {
                        None => Ok(
                            RawDragSequenceOutcome {
                                trace,
                                path_sent: false,
                                release_error: Some(error),
                            },
                        ),
                        Some(Ok(())) => Err(error),
                        Some(Err(cause)) => Err(cause),
                    },
                ),
            },
            (RawDragPhase::SettleUp { trace, path }, RawDragEvent::Settled) => DragStep::Done(
                match path {
                    None => Ok(
                        RawDragSequenceOutcome { trace, path_sent: false, release_error: None },
                    ),
                    Some(Ok(())) => Ok(
                        RawDragSequenceOutcome { trace, path_sent: true, release_error: None },
                    ),
                    Some(Err(cause)) => Err(cause),
                },
            ),
            (phase, _) => DragStep::Continue(phase),
        }
    }
}

/// The button is down and has not been released.
pub open spec fn holds_button<T, E>(phase: RawDragPhase<T, E>) -> bool {
    phase is Inspect || phase is SettleDown || phase is Path || phase is SettleDrop || phase is Up
}

/// A button that went down is released before the drag ends: whatever comes of
/// the inspection or the path, the drag goes on until its release was tried.
pub proof fn law_pressed_button_is_released<T, E>(
    phase: RawDragPhase<T, E>,
    event: RawDragEvent<T, E>,
)
    requires
        holds_button(phase),
    ensures
        match raw_drag_step(phase, event) {
            DragStep::Continue(next) => holds_button(next) || (phase is Up && next is SettleUp),
            DragStep::Done(_) => phase is Up && event is Released,
        },
{
}

/// The path is walked only after what was seen with the button down allows it.
pub proof fn law_path_follows_an_inspection<T, E>(
    phase: RawDragPhase<T, E>,
    event: RawDragEvent<T, E>,
)
    requires
        raw_drag_step(phase, event) matches DragStep::Continue(next) && next is SettleDown,
        !(phase is SettleDown),
    ensures
        phase is Inspect,
        event matches RawDragEvent::Inspected { allows_path, .. } && allows_path,
{
}

/// How many of the two events of a combined press were inserted.
#[derive(Debug)]
pub struct CombinedDownInjection<E> {
    pub inserted: u32,
    pub error: Option<E>,
}

impl<E> CombinedDownInjection<E> {
    /// Both events went in.
    pub open spec fn accepted_both(self) -> bool {
        self.inserted == 2 && self.error is None
    }

    pub fn accepted() -> (r: CombinedDownInjection<E>)
        ensures
            r.inserted == 2,
            r.error is None,
    {
        CombinedDownInjection { inserted: 2, error: None }
    }

    pub fn incomplete(inserted: u32, error: E) -> (r: CombinedDownInjection<E>)
        ensures
            r.inserted == inserted,
            r.error == Some(error),
    {
        CombinedDownInjection { inserted, error: Some(error) }
    }

    pub fn was_accepted(&self) -> (r: bool)
        ensures
            r == self.accepted_both(),
    {
        self.inserted == 2 && self.error.is_none()
    }

    pub fn inserted(&self) -> (r: u32)
        ensures
            r == self.inserted,
    {
        self.inserted
    }
}

/// Whether a single event was inserted.
#[derive(Debug)]
pub struct SingleInputInjection<E> {
    pub inserted: u32,
    pub error: Option<E>,
}

impl<E> SingleInputInjection<E> {
    pub open spec fn accepted_one(self) -> bool {
        self.inserted == 1 && self.error is None
    }

    pub fn accepted() -> (r: SingleInputInjection<E>)
        ensures
            r.inserted == 1,
            r.error is None,
    {
        SingleInputInjection { inserted: 1, error: None }
    }

    pub fn incomplete(inserted: u32, error: E) -> (r: SingleInputInjection<E>)
        ensures
            r.inserted == inserted,
            r.error == Some(error),
    {
        SingleInputInjection { inserted, error: Some(error) }
    }

    pub fn was_accepted(&self) -> (r: bool)
        ensures
            r == self.accepted_one(),
    {
        self.inserted == 1 && self.error.is_none()
    }
}

/// Where a combined drag failed.
#[derive(Debug, Clone, Copy, PartialEq, Eq, Structural)]
pub enum DragFailurePhase {
    PreBatchTargetFence,
    PreBatchFence,
    CombinedMoveDownBatch,
    AfterButtonDownProbe,
    AfterButtonDownFence,
    AbsolutePath,
}

impl DragFailurePhase {
    pub open spec fn name_text(self) -> Seq<char> {
        match self {
            DragFailurePhase::PreBatchTargetFence => "pre_batch_target_fence"@,
            DragFailurePhase::PreBatchFence => "pre_batch_fence"@,
            DragFailurePhase::CombinedMoveDownBatch => "combined_move_down_batch"@,
            DragFailurePhase::AfterButtonDownProbe => "after_button_down_probe"@,
            DragFailurePhase::AfterButtonDownFence => "after_button_down_fence"@,
            DragFailurePhase::AbsolutePath => "absolute_path"@,
        }
    }

    pub fn name(self) -> (r: &'static str)
        ensures
            r@ == self.name_text(),
    {
        match self {
            DragFailurePhase::PreBatchTargetFence => "pre_batch_target_fence",
            DragFailurePhase::PreBatchFence => "pre_batch_fence",
            DragFailurePhase::CombinedMoveDownBatch => "combined_move_down_batch",
            DragFailurePhase::AfterButtonDownProbe => "after_button_down_probe",
            DragFailurePhase::AfterButtonDownFence => "after_button_down_fence",
            DragFailurePhase::AbsolutePath => "absolute_path",
        }
    }
}

/// Where the release of a combined drag failed.
#[derive(Debug, Clone, Copy, PartialEq, Eq, Structural)]
pub enum DragCleanupPhase {
    ButtonUpInjection,
    PostButtonUpFence,
    PostButtonUpProbe,
}

impl DragCleanupPhase {
    pub open spec fn name_text(self) -> Seq<char> {
        match self {
            DragCleanupPhase::ButtonUpInjection => "button_up_injection"@,
            DragCleanupPhase::PostButtonUpFence => "post_button_up_fence"@,
            DragCleanupPhase::PostButtonUpProbe => "post_button_up_probe"@,
        }
    }

    pub fn name(self) -> (r: &'static str)
        ensures
            r@ == self.name_text(),
    {
        match self {
            DragCleanupPhase::ButtonUpInjection => "button_up_injection",
            DragCleanupPhase::PostButtonUpFence => "post_button_up_fence",
            DragCleanupPhase::PostButtonUpProbe => "post_button_up_probe",
        }
    }
}

/// What came of a combined drag.
#[derive(Debug)]
pub struct CombinedDownDragSequenceOutcome<T, P, E> {
    pub batch_inserted: u32,
    pub pre_batch: Option<T>,
    pub after_down: Option<T>,
    pub post_up: Option<P>,
    pub path_sent: bool,
    pub path_started: bool,
    pub path_moves_inserted: usize,
    pub waypoints_completed: usize,
    pub total_waypoints: usize,
    pub failure_phase: Option<DragFailurePhase>,
    pub failure_error: Option<E>,
    pub release_attempted: bool,
    pub release_inserted: Option<u32>,
    pub release_error: Option<E>,
    pub post_up_error: Option<E>,
    pub post_up_released: Option<bool>,
    pub cleanup_failure_phase: Option<DragCleanupPhase>,
}

/// How far a combined drag got.
#[derive(Debug, Clone, Copy, PartialEq, Eq, Structural)]
pub enum CombinedDragPhase {
    /// What is seen before anything is sent.
    PreBatch,
    /// The pointer moved and the button pressed at once.
    Batch,
    /// What is seen after the button went down.
    AfterDown,
    SettleDown,
    /// The path walked.
    Path,
    SettleDrop,
    /// The button released.
    Up,
    SettleUp,
    /// What is seen after the release.
    PostUp,
}

/// What came of what the phase asks for.
#[derive(Debug)]
pub enum CombinedDragEvent<T, P, E> {
    PreBatch { seen: Result<T, E>, allows_batch: bool },
    Batch(CombinedDownInjection<E>),
    AfterDown { seen: Result<T, E>, allows_path: bool },
    Settled,
    Walked(Result<(), E>),
    Released(SingleInputInjection<E>),
    PostUp { seen: Result<P, E>, released: bool },
}

/// A combined drag and what came of it so far.
#[derive(Debug)]
pub struct CombinedDrag<T, P, E> {
    pub phase: CombinedDragPhase,
    pub outcome: CombinedDownDragSequenceOutcome<T, P, E>,
}

pub type CombinedDragStep<T, P, E> = DragStep<
    CombinedDrag<T, P, E>,
    CombinedDownDragSequenceOutcome<T, P, E>,
>;

impl<T, P, E> CombinedDownDragSequenceOutcome<T, P, E> {
    /// Nothing has happened.
    pub open spec fn untouched() -> CombinedDownDragSequenceOutcome<T, P, E> {
        CombinedDownDragSequenceOutcome {
            batch_inserted: 0,
            pre_batch: None,
            after_down: None,
            post_up: None,
            path_sent: false,
            path_started: false,
            path_moves_inserted: 0,
            waypoints_completed: 0,
            total_waypoints: 0,
            failure_phase: None,
            failure_error: None,
            release_attempted: false,
            release_inserted: None,
            release_error: None,
            post_up_error: None,
            post_up_released: None,
            cleanup_failure_phase: None,
        }
    }

    /// The drag failed here.
    pub open spec fn failed(
        self,
        phase: DragFailurePhase,
        error: Option<E>,
    ) -> CombinedDownDragSequenceOutcome<T, P, E> {
        CombinedDownDragSequenceOutcome {
            failure_phase: Some(phase),
            failure_error: error,
            ..self
        }
    }

    /// The path was walked.
    pub open spec fn walked(self) -> CombinedDownDragSequenceOutcome<T, P, E> {
        CombinedDownDragSequenceOutcome {
            path_sent: true,
            path_started: true,
            path_moves_inserted: 1,
            waypoints_completed: 1,
            total_waypoints: 1,
            ..self
        }
    }

    /// The release was tried.
    pub open spec fn released(
        self,
        release: SingleInputInjection<E>,
    ) -> CombinedDownDragSequenceOutcome<T, P, E> {
        CombinedDownDragSequenceOutcome {
            release_attempted: true,
            release_inserted: Some(release.inserted),
            release_error: release.error,
            cleanup_failure_phase: if release.accepted_one() {
                self.cleanup_failure_phase
            } else {
                Some(DragCleanupPhase::ButtonUpInjection)
            },
            ..self
        }
    }

    /// What is seen after the release was tried.
    pub open spec fn inspected(
        self,
        seen: Result<P, E>,
        released: bool,
    ) -> CombinedDownDragSequenceOutcome<T, P, E> {
        match seen {
            Ok(post_up) => CombinedDownDragSequenceOutcome {
                post_up: Some(post_up),
                post_up_released: Some(released),
                cleanup_failure_phase: if !released && self.cleanup_failure_phase is None {
                    Some(DragCleanupPhase::PostButtonUpFence)
                } else {
                    self.cleanup_failure_phase
                },
                ..self
            },
            Err(error) => CombinedDownDragSequenceOutcome {
                post_up_error: Some(error),
                cleanup_failure_phase: if self.cleanup_failure_phase is None {
                    Some(DragCleanupPhase::PostButtonUpProbe)
                } else {
                    self.cleanup_failure_phase
                },
                ..self
            },
        }
    }
}

/// The drag goes to a phase.
pub open spec fn drag_at<T, P, E>(
    phase: CombinedDragPhase,
    outcome: CombinedDownDragSequenceOutcome<T, P, E>,
) -> CombinedDragStep<T, P, E> {
    DragStep::Continue(CombinedDrag { phase, outcome })
}

/// One step of a combined drag.
pub open spec fn combined_drag_step<T, P, E>(
    drag: CombinedDrag<T, P, E>,
    event: CombinedDragEvent<T, P, E>,
) -> CombinedDragStep<T, P, E> {
    let outcome = drag.outcome;
    match (drag.phase, event) {
        (CombinedDragPhase::PreBatch, CombinedDragEvent::PreBatch { seen, allows_batch }) =>
            match seen {
            Err(error) => DragStep::Done(
                outcome.failed(DragFailurePhase::PreBatchTargetFence, Some(error)),
            ),
            Ok(pre_batch) => {
                let inspected = CombinedDownDragSequenceOutcome {
                    pre_batch: Some(pre_batch),
                    ..outcome
                };
                if allows_batch {
                    drag_at(CombinedDragPhase::Batch, inspected)
                } else {
                    DragStep::Done(
                        CombinedDownDragSequenceOutcome {
                            failure_phase: Some(DragFailurePhase::PreBatchFence),
                            ..inspected
                        },
                    )
                }
            },
        },
        (CombinedDragPhase::Batch, CombinedDragEvent::Batch(injection)) => {
            let sent = CombinedDownDragSequenceOutcome {
                batch_inserted: injection.inserted,
                ..outcome
            };
            if injection.accepted_both() {
                drag_at(CombinedDragPhase::AfterDown, sent)
            } else {
                let failed = sent.failed(DragFailurePhase::CombinedMoveDownBatch, injection.error);
                if injection.inserted == 2 {
                    drag_at(CombinedDragPhase::Up, failed)
                } else {
                    DragStep::Done(failed)
                }
            }
        },
        (CombinedDragPhase::AfterDown, CombinedDragEvent::AfterDown { seen, allows_path }) =>
            match seen {
            Err(error) => drag_at(
                CombinedDragPhase::Up,
                outcome.failed(DragFailurePhase::AfterButtonDownProbe, Some(error)),
            ),
            Ok(after_down) => {
                let inspected = CombinedDownDragSequenceOutcome {
                    after_down: Some(after_down),
                    ..outcome
                };
                if allows_path {
                    drag_at(CombinedDragPhase::SettleDown, inspected)
                } else {
                    drag_at(
                        CombinedDragPhase::Up,
                        CombinedDownDragSequenceOutcome {
                            failure_phase: Some(DragFailurePhase::AfterButtonDownFence),
                            ..inspected
                        },
                    )
                }
            },
        },
        (CombinedDragPhase::SettleDown, CombinedDragEvent::Settled) => drag_at(
            CombinedDragPhase::Path,
            outcome,
        ),
        (CombinedDragPhase::Path, CombinedDragEvent::Walked(walked)) => match walked {
            Ok(()) => drag_at(CombinedDragPhase::SettleDrop, outcome),
            Err(error) => drag_at(
                CombinedDragPhase::Up,
                outcome.failed(DragFailurePhase::AbsolutePath, Some(error)),
            ),
        },
        (CombinedDragPhase::SettleDrop, CombinedDragEvent::Settled) => drag_at(
            CombinedDragPhase::Up,
            outcome.walked(),
        ),
        (CombinedDragPhase::Up, CombinedDragEvent::Released(release)) => drag_at(
            if release.accepted_one() {
                CombinedDragPhase::SettleUp
            } else {
                CombinedDragPhase::PostUp
            },
            outcome.released(release),
        ),
        (CombinedDragPhase::SettleUp, CombinedDragEvent::Settled) => drag_at(
            CombinedDragPhase::PostUp,
            outcome,
        ),
        (CombinedDragPhase::PostUp, CombinedDragEvent::PostUp { seen, released }) => DragStep::Done(
            outcome.inspected(seen, released),
        ),
        _ => DragStep::Continue(drag),
    }
}

/// The button is down, or its release has been tried: what every phase keeps.
pub open spec fn keeps_button<T, P, E>(drag: CombinedDrag<T, P, E>) -> bool {
    match drag.phase {
        CombinedDragPhase::PreBatch => drag.outcome == CombinedDownDragSequenceOutcome::<
            T,
            P,
            E,
        >::untouched(),
        CombinedDragPhase::Batch => drag.outcome.batch_inserted == 0
            && !drag.outcome.release_attempted && !drag.outcome.path_sent
            && drag.outcome.failure_phase is None,
        CombinedDragPhase::SettleUp => drag.outcome.batch_inserted == 2
            && drag.outcome.release_attempted && (drag.outcome.path_sent
            ==> drag.outcome.failure_phase is None),
        CombinedDragPhase::PostUp => drag.outcome.batch_inserted == 2
            && drag.outcome.release_attempted && (drag.outcome.path_sent
            ==> drag.outcome.failure_phase is None),
        CombinedDragPhase::Up => drag.outcome.batch_inserted == 2
            && !drag.outcome.release_attempted && (drag.outcome.path_sent
            ==> drag.outcome.failure_phase is None),
        _ => drag.outcome.batch_inserted == 2 && !drag.outcome.release_attempted
            && !drag.outcome.path_sent && drag.outcome.failure_phase is None,
    }
}

impl<T, P, E> CombinedDrag<T, P, E> {
    /// A combined drag about to begin.
    pub fn new() -> (r: CombinedDrag<T, P, E>)
        ensures
            r.phase == CombinedDragPhase::PreBatch,
            r.outcome == CombinedDownDragSequenceOutcome::<T, P, E>::untouched(),
            keeps_button(r),
    {
        CombinedDrag {
            phase: CombinedDragPhase::PreBatch,
            outcome: CombinedDownDragSequenceOutcome {
                batch_inserted: 0,
                pre_batch: None,
                after_down: None,
                post_up: None,
                path_sent: false,
                path_started: false,
                path_moves_inserted: 0,
                waypoints_completed: 0,
                total_waypoints: 0,
                failure_phase: None,
                failure_error: None,
                release_attempted: false,
                release_inserted: None,
                release_error: None,
                post_up_error: None,
                post_up_released: None,
                cleanup_failure_phase: None,
            },
        }
    }

    fn goes(self, phase: CombinedDragPhase) -> (r: CombinedDragStep<T, P, E>)
        ensures
            r == drag_at(phase, self.outcome),
    {
        DragStep::Continue(CombinedDrag { phase, outcome: self.outcome })
    }

    /// The pause the phase asks for.
    pub fn settle(&self) -> (r: Option<DragSettle>)
        ensures
            r == match self.phase {
                CombinedDragPhase::SettleDown => Some(DragSettle::BeforeDown),
                CombinedDragPhase::SettleDrop => Some(DragSettle::BeforeDrop),
                CombinedDragPhase::SettleUp => Some(DragSettle::AfterUp),
                _ => None,
            },
    {
        match self.phase {
            CombinedDragPhase::SettleDown => Some(DragSettle::BeforeDown),
            CombinedDragPhase::SettleDrop => Some(DragSettle::BeforeDrop),
            CombinedDragPhase::SettleUp => Some(DragSettle::AfterUp),
            _ => None,
        }
    }

    fn on_batch(self, injection: CombinedDownInjection<E>) -> (r: CombinedDragStep<T, P, E>)
        requires
            self.phase == CombinedDragPhase::Batch,
        ensures
            r == combined_drag_step(self, CombinedDragEvent::Batch(injection)),
    {
        let accepted = injection.was_accepted();
        let mut drag = self;
        drag.outcome.batch_inserted = injection.inserted;
        if accepted {
            return drag.goes(CombinedDragPhase::AfterDown);
        }
        let owns_button_down = injection.inserted == 2;
        drag.outcome.failure_phase = Some(DragFailurePhase::CombinedMoveDownBatch);
        drag.outcome.failure_error = injection.error;
        if owns_button_down {
            drag.goes(CombinedDragPhase::Up)
        } else {
            DragStep::Done(drag.outcome)
        }
    }

    fn on_released(self, release: SingleInputInjection<E>) -> (r: CombinedDragStep<T, P, E>)
        requires
            self.phase == CombinedDragPhase::Up,
        ensures
            r == combined_drag_step(self, CombinedDragEvent::Released(release)),
    {
        let accepted = release.was_accepted();
        let mut drag = self;
        drag.outcome.release_attempted = true;
        drag.outcome.release_inserted = Some(release.inserted);
        drag.outcome.release_error = release.error;
        if accepted {
            drag.goes(CombinedDragPhase::SettleUp)
        } else {
            drag.outcome.cleanup_failure_phase = Some(DragCleanupPhase::ButtonUpInjection);
            drag.goes(CombinedDragPhase::PostUp)
        }
    }

    fn on_post_up(self, seen: Result<P, E>, released: bool) -> (r: CombinedDragStep<T, P, E>)
        requires
            self.phase == CombinedDragPhase::PostUp,
        ensures
            r == combined_drag_step(self, (CombinedDragEvent::PostUp { seen, released })),
    {
        let mut outcome = self.outcome;
        match seen {
            Ok(post_up) => {
                outcome.post_up = Some(post_up);
                outcome.post_up_released = Some(released);
                if !released && outcome.cleanup_failure_phase.is_none() {
                    outcome.cleanup_failure_phase = Some(DragCleanupPhase::PostButtonUpFence);
                }
            },
            Err(error) => {
                outcome.post_up_error = Some(error);
                if outcome.cleanup_failure_phase.is_none() {
                    outcome.cleanup_failure_phase = Some(DragCleanupPhase::PostButtonUpProbe);
                }
            },
        }
        DragStep::Done(outcome)
    }

    fn on_pre_batch(self, seen: Result<T, E>, allows_batch: bool) -> (r: CombinedDragStep<T, P, E>)
        requires
            self.phase == CombinedDragPhase::PreBatch,
        ensures
            r == combined_drag_step(self, (CombinedDragEvent::PreBatch { seen, allows_batch })),
    {
        let mut drag = self;
        match seen {
            Err(error) => {
                drag.outcome.failure_phase = Some(DragFailurePhase::PreBatchTargetFence);
                drag.outcome.failure_error = Some(error);
                DragStep::Done(drag.outcome)
            },
            Ok(pre_batch) => {
                drag.outcome.pre_batch = Some(pre_batch);
                if allows_batch {
                    drag.goes(CombinedDragPhase::Batch)
                } else {
                    drag.outcome.failure_phase = Some(DragFailurePhase::PreBatchFence);
                    DragStep::Done(drag.outcome)
                }
            },
        }
    }

    fn on_after_down(self, seen: Result<T, E>, allows_path: bool) -> (r: CombinedDragStep<T, P, E>)
        requires
            self.phase == CombinedDragPhase::AfterDown,
        ensures
            r == combined_drag_step(self, (CombinedDragEvent::AfterDown { seen, allows_path })),
    {
        let mut drag = self;
        match seen {
            Err(error) => {
                drag.outcome.failure_phase = Some(DragFailurePhase::AfterButtonDownProbe);
                drag.outcome.failure_error = Some(error);
                drag.goes(CombinedDragPhase::Up)
            },
            Ok(after_down) => {
                drag.outcome.after_down = Some(after_down);
                if allows_path {
                    drag.goes(CombinedDragPhase::SettleDown)
                } else {
                    drag.outcome.failure_phase = Some(DragFailurePhase::AfterButtonDownFence);
                    drag.goes(CombinedDragPhase::Up)
                }
            },
        }
    }

    /// Takes in what came of what the phase asks for. Anything else changes
    /// nothing.
    pub fn advance(self, event: CombinedDragEvent<T, P, E>) -> (r: CombinedDragStep<T, P, E>)
        ensures
            r == combined_drag_step(self, event),
    {
        match (self.phase, event) {
            (CombinedDragPhase::PreBatch, CombinedDragEvent::PreBatch { seen, allows_batch }) =>
                self.on_pre_batch(seen, allows_batch),
            (CombinedDragPhase::Batch, CombinedDragEvent::Batch(injection)) => self.on_batch(
                injection,
            ),
            (CombinedDragPhase::AfterDown, CombinedDragEvent::AfterDown { seen, allows_path }) =>
                self.on_after_down(seen, allows_path),
            (CombinedDragPhase::SettleDown, CombinedDragEvent::Settled) => self.goes(
                CombinedDragPhase::Path,
            ),
            (CombinedDragPhase::Path, CombinedDragEvent::Walked(walked)) => match walked {
                Ok(()) => self.goes(CombinedDragPhase::SettleDrop),
                Err(error) => {
                    let mut drag = self;
                    drag.outcome.failure_phase = Some(DragFailurePhase::AbsolutePath);
                    drag.outcome.failure_error = Some(error);
                    drag.goes(CombinedDragPhase::Up)
                },
            },
            (CombinedDragPhase::SettleDrop, CombinedDragEvent::Settled) => {
                let mut drag = self;
                drag.outcome.path_sent = true;
                drag.outcome.path_started = true;
                drag.outcome.path_moves_inserted = 1;
                drag.outcome.waypoints_completed = 1;
                drag.outcome.total_waypoints = 1;
                drag.goes(CombinedDragPhase::Up)
            },
            (CombinedDragPhase::Up, CombinedDragEvent::Released(release)) => self.on_released(
                release,
            ),
            (CombinedDragPhase::SettleUp, CombinedDragEvent::Settled) => self.goes(
                CombinedDragPhase::PostUp,
            ),
            (CombinedDragPhase::PostUp, CombinedDragEvent::PostUp { seen, released }) =>
                self.on_post_up(seen, released),
            _ => DragStep::Continue(self),
        }
    }
}

/// A combined drag that pressed the button tries to release it, whatever else
/// came of it, and one that did not press it releases nothing.
pub proof fn law_combined_drag_releases_what_it_pressed<T, P, E>(
    drag: CombinedDrag<T, P, E>,
    event: CombinedDragEvent<T, P, E>,
)
    requires
        keeps_button(drag),
    ensures
        match combined_drag_step(drag, event) {
            DragStep::Continue(next) => keeps_button(next),
            DragStep::Done(outcome) => {
                &&& outcome.release_attempted <==> outcome.batch_inserted == 2
                &&& outcome.path_sent ==> outcome.failure_phase is None
                &&& outcome.path_sent ==> outcome.release_attempted
            },
        },
{
}

/// The walk along a path, move by move.
#[derive(Debug)]
pub struct FencedAbsolutePathOutcome<E> {
    pub total_waypoints: usize,
    pub waypoints_completed: usize,
    pub moves_inserted: usize,
    pub error: Option<E>,
}

impl<E> FencedAbsolutePathOutcome<E> {
    pub fn path_started(&self) -> (r: bool)
        ensures
            r == (self.moves_inserted > 0),
    {
        self.moves_inserted > 0
    }

    pub fn moves_inserted(&self) -> (r: usize)
        ensures
            r == self.moves_inserted,
    {
        self.moves_inserted
    }

    pub fn waypoints_completed(&self) -> (r: usize)
        ensures
            r == self.waypoints_completed,
    {
        self.waypoints_completed
    }

    pub fn total_waypoints(&self) -> (r: usize)
        ensures
            r == self.total_waypoints,
    {
        self.total_waypoints
    }

    pub fn into_result(self) -> (r: Result<(), E>)
        ensures
            match self.error {
                Some(error) => r == Err::<(), E>(error),
                None => r is Ok,
            },
    {
        match self.error {
            Some(error) => Err(error),
            None => Ok(()),
        }
    }
}

/// How far a walk got.
#[derive(Debug, Clone, Copy, PartialEq, Eq, Structural)]
pub enum PathPhase {
    /// The exact target checked.
    Validate,
    /// The pointer moved to the next waypoint.
    Move,
    Settle,
}

#[derive(Debug)]
pub enum PathEvent<E> {
    Validated(Result<(), E>),
    Moved(Result<(), E>),
    Settled,
}

/// A walk along waypoints, each behind a check of the exact target.
#[derive(Debug)]
pub struct FencedPath {
    pub phase: PathPhase,
    pub total_waypoints: usize,
    pub completed: usize,
    pub step_delay_ms: u64,
}

pub type FencedPathStep<E> = DragStep<FencedPath, FencedAbsolutePathOutcome<E>>;

impl FencedPath {
    pub open spec fn well_formed(self) -> bool {
        match self.phase {
            PathPhase::Settle => 0 < self.completed <= self.total_waypoints,
            _ => self.completed < self.total_waypoints,
        }
    }

    pub open spec fn at(self, phase: PathPhase) -> FencedPath {
        FencedPath { phase, ..self }
    }

    /// The walk is over.
    pub open spec fn ends<E>(self, error: Option<E>) -> FencedPathStep<E> {
        DragStep::Done(
            FencedAbsolutePathOutcome {
                total_waypoints: self.total_waypoints,
                waypoints_completed: self.completed,
                moves_inserted: self.completed,
                error,
            },
        )
    }

    /// The walk goes to its next waypoint, or is over after its last.
    pub open spec fn next_waypoint<E>(self) -> FencedPathStep<E> {
        if self.completed >= self.total_waypoints {
            self.ends(None)
        } else {
            DragStep::Continue(self.at(PathPhase::Validate))
        }
    }

    /// A walk of at least one step, with its time spread evenly.
    pub fn new(steps: usize, duration_ms: u64) -> (r: FencedPath)
        ensures
            r.well_formed(),
            r.phase == PathPhase::Validate,
            r.completed == 0,
            r.total_waypoints == if steps == 0 {
                1usize
            } else {
                steps
            },
            r.step_delay_ms == duration_ms / (r.total_waypoints as u64),
    {
        let total_waypoints: usize = if steps == 0 {
            1
        } else {
            steps
        };
        assert(total_waypoints as u64 == total_waypoints);
        FencedPath {
            phase: PathPhase::Validate,
            total_waypoints,
            completed: 0,
            step_delay_ms: duration_ms / (total_waypoints as u64),
        }
    }
}

/// One step of a walk.
pub open spec fn fenced_path_step<E>(path: FencedPath, event: PathEvent<E>) -> FencedPathStep<E> {
    match (path.phase, event) {
        (PathPhase::Validate, PathEvent::Validated(Err(error))) => path.ends(Some(error)),
        (PathPhase::Validate, PathEvent::Validated(Ok(()))) => DragStep::Continue(
            path.at(PathPhase::Move),
        ),
        (PathPhase::Move, PathEvent::Moved(Err(error))) => path.ends(Some(error)),
        (PathPhase::Move, PathEvent::Moved(Ok(()))) => {
            let further = FencedPath { completed: (path.completed + 1) as usize, ..path };
            if path.step_delay_ms == 0 {
                further.next_waypoint()
            } else {
                DragStep::Continue(further.at(PathPhase::Settle))
            }
        },
        (PathPhase::Settle, PathEvent::Settled) => path.next_waypoint(),
        _ => DragStep::Continue(path),
    }
}

impl FencedPath {
    fn finish<E>(self, error: Option<E>) -> (r: FencedPathStep<E>)
        ensures
            r == self.ends(error),
    {
        DragStep::Done(
            FencedAbsolutePathOutcome {
                total_waypoints: self.total_waypoints,
                waypoints_completed: self.completed,
                moves_inserted: self.completed,
                error,
            },
        )
    }

    fn go_on<E>(self) -> (r: FencedPathStep<E>)
        requires
            self.completed <= self.total_waypoints,
        ensures
            r == self.next_waypoint::<E>(),
            r matches DragStep::Continue(next) ==> next.well_formed(),
    {
        if self.completed >= self.total_waypoints {
            self.finish(None)
        } else {
            self.goes(PathPhase::Validate)
        }
    }

    fn goes<E>(self, phase: PathPhase) -> (r: FencedPathStep<E>)
        ensures
            r == FencedPathStep::<E>::Continue(self.at(phase)),
    {
        let mut path = self;
        path.phase = phase;
        DragStep::Continue(path)
    }

    /// Takes in what came of what the phase asks for. Anything else changes
    /// nothing.
    pub fn advance<E>(self, event: PathEvent<E>) -> (r: FencedPathStep<E>)
        requires
            self.well_formed(),
        ensures
            r == fenced_path_step(self, event),
            r matches DragStep::Continue(next) ==> next.well_formed(),
    {
        match (self.phase, event) {
            (PathPhase::Validate, PathEvent::Validated(validated)) => match validated {
                Ok(()) => self.goes(PathPhase::Move),
                Err(error) => self.finish(Some(error)),
            },
            (PathPhase::Move, PathEvent::Moved(moved)) => match moved {
                Err(error) => self.finish(Some(error)),
                Ok(()) => {
                    let mut further = self;
                    further.completed = further.completed + 1;
                    if further.step_delay_ms == 0 {
                        further.go_on()
                    } else {
                        further.goes(PathPhase::Settle)
                    }
                },
            },
            (PathPhase::Settle, PathEvent::Settled) => self.go_on(),
            _ => DragStep::Continue(self),
        }
    }
}

/// Every move of a walk stands behind its own check of the exact target, and a
/// walk without an error reached every waypoint.
pub proof fn law_moves_are_fenced<E>(path: FencedPath, event: PathEvent<E>)
    requires
        path.well_formed(),
    ensures
        match fenced_path_step(path, event) {
            DragStep::Continue(next) => {
                &&& next.total_waypoints == path.total_waypoints
                &&& next.phase == PathPhase::Move && path.phase != PathPhase::Move ==> path.phase
                    == PathPhase::Validate && (event matches PathEvent::Validated(Ok(_)))
                &&& next.completed != path.completed ==> path.phase == PathPhase::Move
                    && next.phase != PathPhase::Move
            },
            DragStep::Done(outcome) => {
                &&& outcome.error is None ==> outcome.waypoints_completed
                    == outcome.total_waypoints
                &&& outcome.waypoints_completed <= outcome.total_waypoints
                &&& outcome.moves_inserted == outcome.waypoints_completed
            },
        },
{
}

/// A drag keeps what was seen on its way: the trace of the inspection and what came
/// of the path are what it ends with; a failure before the button was pressed is
/// its error, and a button that was pressed is released before it ends.
pub proof fn law_drags_end_with_what_was_seen<T, E>(
    phase: RawDragPhase<T, E>,
    event: RawDragEvent<T, E>,
)
    ensures
        phase is SourceMove && (event matches RawDragEvent::Moved(Err(_))) ==> raw_drag_step(
            phase,
            event,
        ) == RawDragStep::<T, E>::Done(Err(event->Moved_0->Err_0)),
        phase is Down && (event matches RawDragEvent::Pressed(Err(_))) ==> raw_drag_step(
            phase,
            event,
        ) == RawDragStep::<T, E>::Done(Err(event->Pressed_0->Err_0)),
        phase is Down && (event matches RawDragEvent::Pressed(Ok(_))) ==> (raw_drag_step(
            phase,
            event,
        ) matches DragStep::Continue(next) && next == (RawDragPhase::<T, E>::Inspect {
            inserted: event->Pressed_0->Ok_0,
        })),
        (phase is Inspect && (event matches RawDragEvent::Inspected { trace, allows_path }
            && !allows_path)) ==> raw_drag_step(phase, event) == RawDragStep::<T, E>::Continue(
            RawDragPhase::Up { trace: event->Inspected_trace, path: None },
        ),
        (phase is Inspect && (event matches RawDragEvent::Inspected { trace, allows_path }
            && allows_path)) ==> raw_drag_step(phase, event) == RawDragStep::<T, E>::Continue(
            RawDragPhase::SettleDown { trace: event->Inspected_trace },
        ),
        (phase is Path && (event matches RawDragEvent::Walked(Err(_)))) ==> raw_drag_step(
            phase,
            event,
        ) == RawDragStep::<T, E>::Continue(
            RawDragPhase::Up {
                trace: phase->Path_trace,
                path: Some(Err(event->Walked_0->Err_0)),
            },
        ),
        (phase is SettleDrop && event is Settled) ==> raw_drag_step(phase, event) == RawDragStep::<
            T,
            E,
        >::Continue(RawDragPhase::Up { trace: phase->SettleDrop_trace, path: Some(Ok(())) }),
        (phase is Up && (event matches RawDragEvent::Released(Ok(_)))) ==> raw_drag_step(
            phase,
            event,
        ) == RawDragStep::<T, E>::Continue(
            RawDragPhase::SettleUp { trace: phase->Up_trace, path: phase->Up_path },
        ),
        (raw_drag_step(phase, event) matches DragStep::Done(Ok(outcome))) ==> {
            let outcome = raw_drag_step(phase, event)->Done_0->Ok_0;
            &&& phase is Up || phase is SettleUp
            &&& phase is SettleUp ==> outcome.trace == phase->SettleUp_trace
                && outcome.release_error is None && (outcome.path_sent
                <==> phase->SettleUp_path is Some)
            &&& phase is Up ==> outcome.trace == phase->Up_trace && !outcome.path_sent
                && outcome.release_error is Some
        },
        (phase is SettleUp && event is Settled && (phase->SettleUp_path matches Some(Err(_))))
            ==> raw_drag_step(phase, event) == RawDragStep::<T, E>::Done(
            Err(phase->SettleUp_path->0->Err_0),
        ),
{
}

/// A combined drag tells what happened, as it happened: what was inserted, what was
/// seen before and after the press and after the release, which stage failed and
/// by what, and how the release went.
pub proof fn law_combined_drags_tell_what_happened<T, P, E>(
    drag: CombinedDrag<T, P, E>,
    event: CombinedDragEvent<T, P, E>,
)
    ensures
        ({
            let after = match combined_drag_step(drag, event) {
                DragStep::Continue(next) => next.outcome,
                DragStep::Done(outcome) => outcome,
            };
            &&& drag.phase == CombinedDragPhase::PreBatch && (event matches CombinedDragEvent::PreBatch {
                seen: Ok(seen),
                ..
            }) ==> after.pre_batch is Some && after.batch_inserted == drag.outcome.batch_inserted
            &&& drag.phase == CombinedDragPhase::PreBatch && (event matches CombinedDragEvent::PreBatch {
                seen: Err(error),
                ..
            }) ==> after.failure_phase == Some(DragFailurePhase::PreBatchTargetFence)
                && after.failure_error is Some && combined_drag_step(drag, event) is Done
            &&& drag.phase == CombinedDragPhase::PreBatch && (event matches CombinedDragEvent::PreBatch {
                seen: Ok(_),
                allows_batch,
            } && !allows_batch) ==> after.failure_phase == Some(DragFailurePhase::PreBatchFence)
                && combined_drag_step(drag, event) is Done
            &&& drag.phase == CombinedDragPhase::Batch && event is Batch ==> after.batch_inserted
                == event->Batch_0.inserted
            &&& drag.phase == CombinedDragPhase::Batch && event is Batch && !(
            event->Batch_0.inserted == 2 && event->Batch_0.error is None) ==> after.failure_phase
                == Some(DragFailurePhase::CombinedMoveDownBatch) && after.failure_error
                == event->Batch_0.error
            &&& drag.phase == CombinedDragPhase::Batch && event is Batch && event->Batch_0.inserted
                == 2 ==> combined_drag_step(drag, event) is Continue
            &&& drag.phase == CombinedDragPhase::AfterDown && (
            event matches CombinedDragEvent::AfterDown { seen: Ok(_), .. })
                ==> after.after_down is Some
            &&& drag.phase == CombinedDragPhase::AfterDown && (
            event matches CombinedDragEvent::AfterDown { seen: Err(_), .. }) ==> after.failure_phase
                == Some(DragFailurePhase::AfterButtonDownProbe) && after.failure_error is Some
            &&& drag.phase == CombinedDragPhase::Path && (event matches CombinedDragEvent::Walked(
                Err(_),
            )) ==> after.failure_phase == Some(DragFailurePhase::AbsolutePath)
                && after.failure_error == Some(event->Walked_0->Err_0)
            &&& drag.phase == CombinedDragPhase::SettleDrop && event is Settled ==> after.path_sent
                && after.path_started && after.path_moves_inserted == 1 && after.waypoints_completed
                == 1 && after.total_waypoints == 1
            &&& drag.phase == CombinedDragPhase::Up && event is Released
                ==> after.release_attempted && after.release_inserted == Some(
                event->Released_0.inserted,
            ) && after.release_error == event->Released_0.error
            &&& drag.phase == CombinedDragPhase::Up && event is Released && !(
            event->Released_0.inserted == 1 && event->Released_0.error is None)
                ==> after.cleanup_failure_phase == Some(DragCleanupPhase::ButtonUpInjection)
            &&& drag.phase == CombinedDragPhase::PostUp && (event matches CombinedDragEvent::PostUp {
                seen: Ok(_),
                ..
            }) ==> after.post_up is Some && after.post_up_released is Some
                && after.post_up_released->0 == event->PostUp_released
            &&& drag.phase == CombinedDragPhase::PostUp && (event matches CombinedDragEvent::PostUp {
                seen: Ok(_),
                released,
            } && !released && drag.outcome.cleanup_failure_phase is None)
                ==> after.cleanup_failure_phase == Some(DragCleanupPhase::PostButtonUpFence)
            &&& drag.phase == CombinedDragPhase::PostUp && (event matches CombinedDragEvent::PostUp {
                seen: Err(_),
                ..
            }) ==> after.post_up_error is Some && after.cleanup_failure_phase is Some
            &&& drag.phase != CombinedDragPhase::Up ==> after.release_attempted
                == drag.outcome.release_attempted && after.release_error
                == drag.outcome.release_error
            &&& drag.outcome.failure_phase is Some && (drag.phase == CombinedDragPhase::Up
                || drag.phase == CombinedDragPhase::SettleUp || drag.phase
                == CombinedDragPhase::PostUp) ==> after.failure_phase == drag.outcome.failure_phase
                && after.failure_error == drag.outcome.failure_error
        }),
{
}

/// A path is walked waypoint by waypoint, each validated before it is moved to; it
/// tells how many were completed, and by what it failed.
pub proof fn law_paths_count_their_waypoints<E>(path: FencedPath, event: PathEvent<E>)
    requires
        path.well_formed(),
    ensures
        path.phase == PathPhase::Validate && (event matches PathEvent::Validated(Err(_))) ==> (
        fenced_path_step(path, event) matches DragStep::Done(outcome) && outcome.error == Some(
            event->Validated_0->Err_0,
        ) && outcome.waypoints_completed == path.completed),
        path.phase == PathPhase::Move && (event matches PathEvent::Moved(Err(_))) ==> (
        fenced_path_step(path, event) matches DragStep::Done(outcome) && outcome.error == Some(
            event->Moved_0->Err_0,
        ) && outcome.waypoints_completed == path.completed),
        fenced_path_step(path, event) matches DragStep::Done(outcome) ==> outcome.total_waypoints
            == path.total_waypoints && outcome.moves_inserted == outcome.waypoints_completed && (
        outcome.error is None ==> outcome.waypoints_completed >= path.total_waypoints),
        fenced_path_step(path, event) matches DragStep::Continue(next) ==> next.total_waypoints
            == path.total_waypoints && next.step_delay_ms == path.step_delay_ms && (next.completed
            == path.completed + 1 <==> path.phase == PathPhase::Move && (
        event matches PathEvent::Moved(Ok(_)))) && (next.phase == PathPhase::Move ==> path.phase
            == PathPhase::Move || (event matches PathEvent::Validated(Ok(_)))),
{
}

} // verus!
