//! Captures of one exact window through the driver, for the live feed.

use crate::contracts::{DEFAULT_SNAPSHOT_MAX_DEPTH, DEFAULT_SNAPSHOT_MAX_ELEMENTS};
use crate::driver::ToolReply;
use crate::errors::{ComputerUseError, ComputerUseErrorCode, ComputerUseResult};
use crate::json::{put_member, Json, JsonMember};
#[allow(unused_imports)]
use crate::json::{unsigned_tree, JsonTree};
use crate::media::decode_image_data;
#[allow(unused_imports)]
use crate::media::base64_decoded;
use crate::steps::Step;
#[allow(unused_imports)]
use crate::steps::{stops, stops_plainly};
use crate::window_target::WindowTarget;
use vstd::prelude::*;

verus! {

/// Where a capture is in its course.
#[derive(Debug)]
pub enum CapturePhase {
    /// The windows of the process, before.
    Before,
    Capture,
    /// The windows of the process, after.
    After { reply: ToolReply },
}

/// What comes back.
#[derive(Debug)]
pub enum CaptureReply {
    Listed(ComputerUseResult<Vec<WindowTarget>>),
    Captured(ComputerUseResult<ToolReply>),
}

/// A capture of one exact window.
#[derive(Debug)]
pub struct CaptureRun {
    pub process_id: u32,
    pub window_handle: u64,
    pub phase: CapturePhase,
}

pub type CaptureStep = Step<CaptureRun, Vec<u8>>;

/// The window is among those listed.
pub open spec fn lists_window(
    windows: Seq<WindowTarget>,
    process_id: u32,
    window_handle: u64,
) -> bool {
    exists|i: int|
        0 <= i < windows.len() && (#[trigger] windows[i]).pid == process_id && windows[i].window_id
            == window_handle
}

/// Whether the window is among those listed.
pub fn holds_window(windows: &Vec<WindowTarget>, process_id: u32, window_handle: u64) -> (r: bool)
    ensures
        r == lists_window(windows@, process_id, window_handle),
{
    let mut i: usize = 0;
    while i < windows.len()
        invariant
            i <= windows.len(),
            forall|k: int|
                0 <= k < i ==> !((#[trigger] windows@[k]).pid == process_id && windows@[k].window_id
                    == window_handle),
        decreases windows.len() - i,
    {
        if windows[i].pid == process_id && windows[i].window_id == window_handle {
            assert(windows@[i as int].pid == process_id);
            return true;
        }
        i = i + 1;
    }
    false
}

/// How much of a window's accessibility tree is read, within the limits of the
/// driver.
#[derive(Debug, Clone, Copy, PartialEq, Eq, Structural)]
pub struct SnapshotBounds {
    pub max_elements: u32,
    pub max_depth: u32,
}

impl SnapshotBounds {
    /// How much is read where the caller does not say.
    pub fn usual() -> (r: Self)
        ensures
            r.max_elements == DEFAULT_SNAPSHOT_MAX_ELEMENTS,
            r.max_depth == DEFAULT_SNAPSHOT_MAX_DEPTH,
    {
        SnapshotBounds {
            max_elements: DEFAULT_SNAPSHOT_MAX_ELEMENTS,
            max_depth: DEFAULT_SNAPSHOT_MAX_DEPTH,
        }
    }
}

/// What the driver is asked of the state of one exact window.
pub open spec fn state_tree(
    process_id: u32,
    window_handle: u64,
    include_screenshot: bool,
    bounds: SnapshotBounds,
    session_id: Seq<char>,
) -> JsonTree {
    JsonTree::Object(
        Map::<Seq<char>, JsonTree>::empty().insert(
            "window_id"@,
            unsigned_tree(window_handle),
        ).insert("pid"@, unsigned_tree(process_id as u64)).insert(
            "include_screenshot"@,
            JsonTree::Bool(include_screenshot),
        ).insert("max_elements"@, unsigned_tree(bounds.max_elements as u64)).insert(
            "max_depth"@,
            unsigned_tree(bounds.max_depth as u64),
        ).insert("session"@, JsonTree::Text(session_id)),
    )
}

/// What the driver is asked of the state of one exact window.
pub fn state_arguments(
    process_id: u32,
    window_handle: u64,
    include_screenshot: bool,
    bounds: SnapshotBounds,
    session_id: &str,
) -> (r: Json)
    ensures
        r.view() == state_tree(
            process_id,
            window_handle,
            include_screenshot,
            bounds,
            session_id@,
        ),
{
    let mut members: Vec<JsonMember> = Vec::new();
    put_member(&mut members, "window_id", Json::unsigned(window_handle));
    put_member(&mut members, "pid", Json::unsigned(process_id as u64));
    put_member(&mut members, "include_screenshot", Json::Bool(include_screenshot));
    put_member(&mut members, "max_elements", Json::unsigned(bounds.max_elements as u64));
    put_member(&mut members, "max_depth", Json::unsigned(bounds.max_depth as u64));
    put_member(&mut members, "session", Json::text(session_id));
    Json::Object(members)
}

/// What is returned of a reply with a picture.
pub open spec fn pictured_step(reply: ToolReply, step: CaptureStep) -> bool {
    if reply.images@.len() == 0 {
        stops_plainly(
            step,
            ComputerUseErrorCode::CaptureFailed,
            "CUA live window state returned no screenshot"@,
        )
    } else {
        match base64_decoded(reply.images@[0].data_base64@) {
            Ok(bytes) => step matches Step::Done(Ok(data)) && data@ == bytes,
            Err(message) => stops_plainly(step, ComputerUseErrorCode::CaptureFailed, message),
        }
    }
}

/// One step of a capture.
pub open spec fn capture_step(run: CaptureRun, reply: CaptureReply, step: CaptureStep) -> bool {
    match (run.phase, reply) {
        (CapturePhase::Before, CaptureReply::Listed(listed)) => match listed {
            Err(error) => stops(step, error),
            Ok(windows) => if lists_window(windows@, run.process_id, run.window_handle) {
                step == CaptureStep::Continue(CaptureRun { phase: CapturePhase::Capture, ..run })
            } else {
                stops_plainly(
                    step,
                    ComputerUseErrorCode::InvalidTarget,
                    "live observation target identity changed"@,
                )
            },
        },
        (CapturePhase::Capture, CaptureReply::Captured(captured)) => match captured {
            Err(error) => stops(step, error),
            Ok(reply) => step == CaptureStep::Continue(
                CaptureRun { phase: CapturePhase::After { reply }, ..run },
            ),
        },
        (CapturePhase::After { reply }, CaptureReply::Listed(listed)) => match listed {
            Err(error) => stops(step, error),
            Ok(windows) => if lists_window(windows@, run.process_id, run.window_handle) {
                pictured_step(reply, step)
            } else {
                stops_plainly(
                    step,
                    ComputerUseErrorCode::InvalidTarget,
                    "live observation target identity changed during capture"@,
                )
            },
        },
        _ => step == CaptureStep::Continue(run),
    }
}

fn finish_picture(reply: &ToolReply) -> (r: CaptureStep)
    ensures
        pictured_step(*reply, r),
{
    if reply.images.len() == 0 {
        return Step::Done(
            Err(
                ComputerUseError::new(
                    ComputerUseErrorCode::CaptureFailed,
                    "CUA live window state returned no screenshot",
                ),
            ),
        );
    }
    Step::Done(decode_image_data(reply.images[0].data_base64.as_str()))
}

impl CaptureRun {
    pub fn new(process_id: u32, window_handle: u64) -> (r: CaptureRun)
        ensures
            r.process_id == process_id,
            r.window_handle == window_handle,
            r.phase is Before,
    {
        CaptureRun { process_id, window_handle, phase: CapturePhase::Before }
    }

    /// The arguments of the capture: pixels, and next to nothing of the tree.
    pub fn arguments(&self, session_id: &str) -> (r: Json)
        ensures
            r.view() == state_tree(
                self.process_id,
                self.window_handle,
                true,
                (SnapshotBounds { max_elements: 1, max_depth: 1 }),
                session_id@,
            ),
    {
        state_arguments(
            self.process_id,
            self.window_handle,
            true,
            SnapshotBounds { max_elements: 1, max_depth: 1 },
            session_id,
        )
    }

    /// Takes in what came back. What the phase did not ask for changes nothing.
    pub fn advance(self, reply: CaptureReply) -> (r: CaptureStep)
        ensures
            capture_step(self, reply, r),
    {
        let CaptureRun { process_id, window_handle, phase } = self;
        match (phase, reply) {
            (CapturePhase::Before, CaptureReply::Listed(listed)) => match listed {
                Err(error) => Step::Done(Err(error)),
                Ok(windows) => {
                    if !holds_window(&windows, process_id, window_handle) {
                        return Step::Done(
                            Err(
                                ComputerUseError::new(
                                    ComputerUseErrorCode::InvalidTarget,
                                    "live observation target identity changed",
                                ),
                            ),
                        );
                    }
                    Step::Continue(
                        CaptureRun { process_id, window_handle, phase: CapturePhase::Capture },
                    )
                },
            },
            (CapturePhase::Capture, CaptureReply::Captured(captured)) => match captured {
                Err(error) => Step::Done(Err(error)),
                Ok(reply) => Step::Continue(
                    CaptureRun { process_id, window_handle, phase: CapturePhase::After { reply } },
                ),
            },
            (CapturePhase::After { reply }, CaptureReply::Listed(listed)) => match listed {
                Err(error) => Step::Done(Err(error)),
                Ok(windows) => {
                    if !holds_window(&windows, process_id, window_handle) {
                        return Step::Done(
                            Err(
                                ComputerUseError::new(
                                    ComputerUseErrorCode::InvalidTarget,
                                    "live observation target identity changed during capture",
                                ),
                            ),
                        );
                    }
                    finish_picture(&reply)
                },
            },
            (phase, _) => Step::Continue(CaptureRun { process_id, window_handle, phase }),
        }
    }
}

/// A picture is handed out only of a window that was there before and after.
pub proof fn law_captured_window_stayed(run: CaptureRun, reply: CaptureReply, step: CaptureStep)
    requires
        capture_step(run, reply, step),
        step matches Step::Done(Ok(_)),
    ensures
        run.phase is After,
        reply matches CaptureReply::Listed(Ok(windows)) && lists_window(
            windows@,
            run.process_id,
            run.window_handle,
        ),
{
}

/// The state of a window is asked for by its identity, for the session, within the
/// given bounds.
pub proof fn law_states_are_asked_for_by_identity(
    process_id: u32,
    window_handle: u64,
    include_screenshot: bool,
    bounds: SnapshotBounds,
    session_id: Seq<char>,
)
    ensures
        ({
            let asked = state_tree(
                process_id,
                window_handle,
                include_screenshot,
                bounds,
                session_id,
            );
            &&& asked.u64_at("pid"@) == Some(process_id as u64)
            &&& asked.u64_at("window_id"@) == Some(window_handle)
            &&& asked.bool_at("include_screenshot"@) == Some(include_screenshot)
            &&& asked.u64_at("max_elements"@) == Some(bounds.max_elements as u64)
            &&& asked.u64_at("max_depth"@) == Some(bounds.max_depth as u64)
            &&& asked.text_at("session"@) == Some(session_id)
        }),
{
    reveal_strlit("pid");
    reveal_strlit("window_id");
    reveal_strlit("include_screenshot");
    reveal_strlit("max_elements");
    reveal_strlit("max_depth");
    reveal_strlit("session");
    assert("pid"@.len() == 3);
    assert("window_id"@.len() == 9);
    assert("include_screenshot"@.len() == 18);
    assert("max_elements"@.len() == 12);
    assert("max_depth"@.len() == 9);
    assert("session"@.len() == 7);
    assert("window_id"@[0] != "max_depth"@[0]);
}

/// A capture that ends well shows the first picture of the driver's answer, of a
/// window that was listed before and after; what failed on the way is the error.
pub proof fn law_captures_show_the_answered_picture(
    run: CaptureRun,
    reply: CaptureReply,
    step: CaptureStep,
)
    requires
        capture_step(run, reply, step),
    ensures
        (reply matches CaptureReply::Listed(Err(_))) && !(run.phase is Capture) ==> step
            == CaptureStep::Done(Err(reply->Listed_0->Err_0)),
        (reply matches CaptureReply::Captured(Err(_))) && run.phase is Capture ==> step
            == CaptureStep::Done(Err(reply->Captured_0->Err_0)),
        (reply matches CaptureReply::Captured(Ok(_))) && run.phase is Capture ==> (
        step matches Step::Continue(next) && (next.phase matches CapturePhase::After {
            reply: kept,
        } && kept == reply->Captured_0->Ok_0)),
        step matches Step::Done(Ok(data)) ==> {
            &&& run.phase is After
            &&& reply is Listed
            &&& exists|i: int|
                0 <= i < reply->Listed_0->Ok_0@.len() && (#[trigger] reply->Listed_0->Ok_0@[i]).pid
                    == run.process_id && reply->Listed_0->Ok_0@[i].window_id == run.window_handle
            &&& run.phase->After_reply.images@.len() > 0
            &&& base64_decoded(run.phase->After_reply.images@[0].data_base64@) == Ok::<
                Seq<u8>,
                Seq<char>,
            >(data@)
        },
        step matches Step::Continue(next) ==> next.process_id == run.process_id
            && next.window_handle == run.window_handle,
        (step matches Step::Continue(next) && next.phase is Capture && run.phase is Before) ==> (
        reply matches CaptureReply::Listed(Ok(windows)) && exists|i: int|
            0 <= i < windows@.len() && (#[trigger] windows@[i]).pid == run.process_id
                && windows@[i].window_id == run.window_handle),
{
}

} // verus!
