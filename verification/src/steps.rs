//! Runs that ask the host for what they need to know next, and how they end.

use crate::errors::{ComputerUseError, ComputerUseErrorCode, ComputerUseResult};
#[allow(unused_imports)]
use crate::errors::fails_with;
use crate::session::ComputerUseSession;
#[allow(unused_imports)]
use crate::session::{is_evidence_failure, is_target_failure, is_usable_target};
use crate::window_target::WindowTarget;
use vstd::prelude::*;

verus! {

/// A run that goes on, or is done.
#[derive(Debug)]
pub enum Step<Run, Report> {
    Continue(Run),
    Done(ComputerUseResult<Report>),
}

/// The step ends with this failure.
pub open spec fn stops<Run, Report>(step: Step<Run, Report>, error: ComputerUseError) -> bool {
    step == Step::<Run, Report>::Done(Err(error))
}

/// The step ends with a plain failure.
pub open spec fn stops_plainly<Run, Report>(
    step: Step<Run, Report>,
    code: ComputerUseErrorCode,
    message: Seq<char>,
) -> bool {
    step matches Step::Done(result) && fails_with(result, code, message)
}

/// The step ends with a failure that voids what it has to.
pub open spec fn stops_sensitively<Run, Report>(
    before: ComputerUseSession,
    error: ComputerUseError,
    after: ComputerUseSession,
    step: Step<Run, Report>,
) -> bool {
    after == before.after_failure(error.code) && stops(step, error)
}

/// A window that cannot be used ends the run.
pub open spec fn unusable_target_stops<Run, Report>(
    before: ComputerUseSession,
    resolved: ComputerUseResult<WindowTarget>,
    after: ComputerUseSession,
    step: Step<Run, Report>,
) -> bool {
    !is_usable_target(before, resolved) ==> {
        &&& step matches Step::Done(Err(error))
        &&& is_target_failure(before, resolved, error)
        &&& after == before.after_failure(error.code)
    }
}

/// A refused gate ends the run.
pub open spec fn refused_gate_stops<Run, Report>(
    before: ComputerUseSession,
    gate: ComputerUseResult<()>,
    after: ComputerUseSession,
    step: Step<Run, Report>,
) -> bool {
    gate matches Err(error) ==> stops_sensitively(before, error, after, step)
}

/// Evidence that is not current ends the run.
pub open spec fn stale_evidence_stops<Run, Report>(
    before: ComputerUseSession,
    now_ms: u64,
    after: ComputerUseSession,
    step: Step<Run, Report>,
) -> bool {
    &&& step matches Step::Done(Err(error))
    &&& is_evidence_failure(before, now_ms, error)
    &&& after == before.without_evidence()
}

} // verus!
