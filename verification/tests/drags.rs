use dcc_cua::drag_sequences::{
    CombinedDownDragSequenceOutcome, CombinedDownInjection, CombinedDrag, CombinedDragEvent,
    CombinedDragPhase,
    DragCleanupPhase, DragFailurePhase, DragSettle, DragStep, FencedPath, PathEvent, PathPhase,
    RawDragEvent, RawDragPhase, RawDragResult, SingleInputInjection,
};

type RawPhase = RawDragPhase<u32, String>;

/// Runs a drag with separate pointer events and returns its pauses with it.
fn raw_drag(
    pressed: Result<u32, &str>,
    allows_path: bool,
    walked: Result<(), &str>,
    released: Result<(), &str>,
) -> (Vec<DragSettle>, RawDragResult<u32, String>) {
    let mut settles = Vec::new();
    let mut phase: RawPhase = RawDragPhase::SourceMove;
    loop {
        if let Some(settle) = phase.settle() {
            settles.push(settle);
        }
        let event = match &phase {
            RawDragPhase::SourceMove => RawDragEvent::Moved(Ok(())),
            RawDragPhase::Down => RawDragEvent::Pressed(pressed.map_err(str::to_owned)),
            RawDragPhase::Inspect { inserted } => {
                RawDragEvent::Inspected { trace: *inserted, allows_path }
            }
            RawDragPhase::Path { .. } => RawDragEvent::Walked(walked.map_err(str::to_owned)),
            RawDragPhase::Up { .. } => RawDragEvent::Released(released.map_err(str::to_owned)),
            _ => RawDragEvent::Settled,
        };
        match phase.advance(event) {
            DragStep::Continue(next) => phase = next,
            DragStep::Done(result) => return (settles, result),
        }
    }
}

#[test]
fn a_raw_drag_presses_walks_and_releases() {
    let (settles, result) = raw_drag(Ok(1), true, Ok(()), Ok(()));
    let outcome = result.unwrap();
    assert_eq!(outcome.trace, 1);
    assert!(outcome.path_sent);
    assert!(outcome.release_error.is_none());
    assert_eq!(
        settles,
        [
            DragSettle::BeforeDown,
            DragSettle::BeforeDown,
            DragSettle::BeforeDrop,
            DragSettle::AfterUp,
        ]
    );
    assert_eq!(DragSettle::BeforeDown.duration_ms(), 50);
    assert_eq!(DragSettle::BeforeDrop.duration_ms(), 75);
    assert_eq!(DragSettle::AfterUp.duration_ms(), 50);
}

#[test]
fn a_raw_drag_without_permission_releases_without_a_path() {
    let (_, result) = raw_drag(Ok(1), false, Ok(()), Ok(()));
    let outcome = result.unwrap();
    assert!(!outcome.path_sent);
    assert!(outcome.release_error.is_none());
    let (settles, result) = raw_drag(Ok(1), false, Ok(()), Err("stuck"));
    assert_eq!(result.unwrap().release_error.as_deref(), Some("stuck"));
    assert_eq!(settles, [DragSettle::BeforeDown]);
}

#[test]
fn a_raw_drag_reports_its_first_failure() {
    assert_eq!(raw_drag(Err("down"), true, Ok(()), Ok(())).1.unwrap_err(), "down");
    assert_eq!(raw_drag(Ok(1), true, Err("path"), Ok(())).1.unwrap_err(), "path");
    assert_eq!(raw_drag(Ok(1), true, Err("path"), Err("up")).1.unwrap_err(), "path");
    assert_eq!(raw_drag(Ok(1), true, Ok(()), Err("up")).1.unwrap_err(), "up");
    let phase: RawPhase = RawDragPhase::SourceMove;
    match phase.advance(RawDragEvent::Moved(Err("move".to_owned()))) {
        DragStep::Done(Err(error)) => assert_eq!(error, "move"),
        other => panic!("unexpected step {other:?}"),
    }
}

struct Script {
    before: Result<bool, &'static str>,
    batch: CombinedDownInjection<String>,
    after: Result<bool, &'static str>,
    walked: Result<(), &'static str>,
    release: SingleInputInjection<String>,
    post: Result<bool, &'static str>,
}

fn script() -> Script {
    Script {
        before: Ok(true),
        batch: CombinedDownInjection::accepted(),
        after: Ok(true),
        walked: Ok(()),
        release: SingleInputInjection::accepted(),
        post: Ok(true),
    }
}

fn seen(result: Result<bool, &'static str>) -> (Result<&'static str, String>, bool) {
    match result {
        Ok(allows) => (Ok("seen"), allows),
        Err(error) => (Err(error.to_owned()), false),
    }
}

fn combined(script: Script) -> CombinedDownDragSequenceOutcome<&'static str, &'static str, String> {
    let mut drag = CombinedDrag::new();
    let Script { before, batch, after, walked, release, post } = script;
    let mut batch = Some(batch);
    let mut release = Some(release);
    loop {
        let event = match drag.phase {
            CombinedDragPhase::PreBatch => {
                let (seen, allows_batch) = seen(before);
                CombinedDragEvent::PreBatch { seen, allows_batch }
            }
            CombinedDragPhase::Batch => CombinedDragEvent::Batch(batch.take().expect("one batch")),
            CombinedDragPhase::AfterDown => {
                let (seen, allows_path) = seen(after);
                CombinedDragEvent::AfterDown { seen, allows_path }
            }
            CombinedDragPhase::Path => CombinedDragEvent::Walked(walked.map_err(str::to_owned)),
            CombinedDragPhase::Up => CombinedDragEvent::Released(release.take().expect("one release")),
            CombinedDragPhase::PostUp => {
                let (seen, released) = seen(post);
                CombinedDragEvent::PostUp { seen, released }
            }
            _ => CombinedDragEvent::Settled,
        };
        match drag.advance(event) {
            DragStep::Continue(next) => drag = next,
            DragStep::Done(outcome) => return outcome,
        }
    }
}

#[test]
fn a_combined_drag_runs_to_its_end() {
    let outcome = combined(script());
    assert_eq!(outcome.batch_inserted, 2);
    assert!(outcome.path_sent && outcome.path_started);
    assert_eq!(
        (outcome.path_moves_inserted, outcome.waypoints_completed, outcome.total_waypoints),
        (1, 1, 1)
    );
    assert!(outcome.failure_phase.is_none());
    assert!(outcome.release_attempted);
    assert_eq!(outcome.release_inserted, Some(1));
    assert_eq!(outcome.post_up_released, Some(true));
    assert!(outcome.cleanup_failure_phase.is_none());
}

#[test]
fn a_combined_drag_that_sent_nothing_releases_nothing() {
    let outcome = combined(Script { before: Err("gone"), ..script() });
    assert_eq!(outcome.failure_phase, Some(DragFailurePhase::PreBatchTargetFence));
    assert_eq!(outcome.failure_error.as_deref(), Some("gone"));
    assert!(!outcome.release_attempted);

    let outcome = combined(Script { before: Ok(false), ..script() });
    assert_eq!(outcome.failure_phase, Some(DragFailurePhase::PreBatchFence));
    assert_eq!(outcome.pre_batch, Some("seen"));
    assert!(!outcome.release_attempted);

    let batch = CombinedDownInjection::incomplete(1, "half".to_owned());
    let outcome = combined(Script { batch, ..script() });
    assert_eq!(outcome.failure_phase, Some(DragFailurePhase::CombinedMoveDownBatch));
    assert_eq!(outcome.batch_inserted, 1);
    assert!(!outcome.release_attempted);
}

#[test]
fn a_combined_drag_releases_whatever_it_pressed() {
    let batch = CombinedDownInjection::incomplete(2, "late".to_owned());
    let outcome = combined(Script { batch, ..script() });
    assert_eq!(outcome.failure_phase, Some(DragFailurePhase::CombinedMoveDownBatch));
    assert!(outcome.release_attempted);
    assert!(!outcome.path_sent);

    for (after, phase) in [
        (Err("probe"), DragFailurePhase::AfterButtonDownProbe),
        (Ok(false), DragFailurePhase::AfterButtonDownFence),
    ] {
        let outcome = combined(Script { after, ..script() });
        assert_eq!(outcome.failure_phase, Some(phase));
        assert!(outcome.release_attempted && !outcome.path_sent);
    }

    let outcome = combined(Script { walked: Err("path"), ..script() });
    assert_eq!(outcome.failure_phase, Some(DragFailurePhase::AbsolutePath));
    assert_eq!(outcome.failure_error.as_deref(), Some("path"));
    assert!(outcome.release_attempted && !outcome.path_sent);
}

#[test]
fn a_combined_drag_names_where_its_release_failed() {
    let release = SingleInputInjection::incomplete(0, "blocked".to_owned());
    let outcome = combined(Script { release, post: Ok(false), ..script() });
    assert_eq!(outcome.cleanup_failure_phase, Some(DragCleanupPhase::ButtonUpInjection));
    assert_eq!(outcome.release_error.as_deref(), Some("blocked"));
    assert_eq!(outcome.post_up_released, Some(false));
    let outcome = combined(Script { post: Ok(false), ..script() });
    assert_eq!(outcome.cleanup_failure_phase, Some(DragCleanupPhase::PostButtonUpFence));
    let outcome = combined(Script { post: Err("probe"), ..script() });
    assert_eq!(outcome.cleanup_failure_phase, Some(DragCleanupPhase::PostButtonUpProbe));
    assert_eq!(outcome.post_up_error.as_deref(), Some("probe"));
    assert_eq!(DragCleanupPhase::PostButtonUpProbe.name(), "post_button_up_probe");
    assert_eq!(DragFailurePhase::AbsolutePath.name(), "absolute_path");
}

#[test]
fn a_walk_checks_its_target_before_every_move() {
    let mut path = FencedPath::new(3, 30);
    assert_eq!(path.step_delay_ms, 10);
    let mut trail = Vec::new();
    let outcome = loop {
        trail.push(path.phase);
        let event: PathEvent<String> = match path.phase {
            PathPhase::Validate => PathEvent::Validated(Ok(())),
            PathPhase::Move => PathEvent::Moved(Ok(())),
            PathPhase::Settle => PathEvent::Settled,
        };
        match path.advance(event) {
            DragStep::Continue(next) => path = next,
            DragStep::Done(outcome) => break outcome,
        }
    };
    assert_eq!(trail, [PathPhase::Validate, PathPhase::Move, PathPhase::Settle].repeat(3));
    assert_eq!(outcome.total_waypoints(), 3);
    assert_eq!(outcome.waypoints_completed(), 3);
    assert_eq!(outcome.moves_inserted(), 3);
    assert!(outcome.path_started());
    assert!(outcome.into_result().is_ok());
}

#[test]
fn a_walk_stops_where_its_target_is_lost() {
    let path = FencedPath::new(0, 0);
    assert_eq!(path.total_waypoints, 1);
    match path.advance(PathEvent::Validated(Err("lost".to_owned()))) {
        DragStep::Done(outcome) => {
            assert!(!outcome.path_started());
            assert_eq!(outcome.into_result().unwrap_err(), "lost");
        }
        other => panic!("unexpected step {other:?}"),
    }
    let path = FencedPath::new(2, 0);
    let path = match path.advance::<String>(PathEvent::Validated(Ok(()))) {
        DragStep::Continue(path) => path,
        other => panic!("unexpected step {other:?}"),
    };
    let path = match path.advance::<String>(PathEvent::Moved(Ok(()))) {
        DragStep::Continue(path) => path,
        other => panic!("unexpected step {other:?}"),
    };
    assert_eq!(path.phase, PathPhase::Validate);
    match path.advance(PathEvent::Validated(Err("moved away".to_owned()))) {
        DragStep::Done(outcome) => {
            assert_eq!((outcome.moves_inserted, outcome.total_waypoints), (1, 2));
            assert_eq!(outcome.into_result().unwrap_err(), "moved away");
        }
        other => panic!("unexpected step {other:?}"),
    }
}
