//! Observations of the exact window's own pixels: the provider-free route, and
//! the visual fallback that a user approved.

use crate::contracts::ComputerUseScreenshot;
use crate::desktop_session::session_arguments;
#[allow(unused_imports)]
use crate::desktop_session::session_tree;
use crate::errors::{ComputerUseError, ComputerUseErrorCode, ComputerUseResult};
#[allow(unused_imports)]
use crate::errors::{fails_with, is_plain_error};
use crate::json::{put_member, Json, JsonMember};
#[allow(unused_imports)]
use crate::json::{object_tree, unsigned_tree, JsonTree};
use crate::media::decode_image_data;
#[allow(unused_imports)]
use crate::media::base64_decoded;
use crate::pixel_observation::{
    exact_window_pixel_provenance, rect_json, validate_bracketed_publication,
    validate_exact_window_pixel_target_state, validate_native_exact_window_pixel_evidence,
    BracketedCapture, PixelObservationRoute,
};
#[allow(unused_imports)]
use crate::pixel_observation::{
    bracketed_refusal, native_evidence_refusal, pixel_provenance, pixel_target_refusal, rect_tree,
};
use crate::session::{BannerActivity, ComputerUseSession};
#[allow(unused_imports)]
use crate::session::is_usable_target;
use crate::session_observation::{new_observation, structured_or_empty};
#[allow(unused_imports)]
use crate::session_observation::{
    accessibility_of, is_publishable, is_published, observation_of, publication_stops,
};
use crate::session_tools::ToolAnswer;
use crate::steps::Step;
#[allow(unused_imports)]
use crate::steps::{
    refused_gate_stops, stops, stops_plainly, stops_sensitively, unusable_target_stops,
};
use crate::text::join3;
use crate::window_capture::SnapshotBounds;
use crate::window_target::WindowTarget;
use vstd::prelude::*;

verus! {

/// Why the window's own pixels are captured.
#[derive(Debug, Clone, Copy, PartialEq, Eq, Structural)]
pub enum PixelPurpose {
    /// The session is on this pixel route.
    Route(PixelObservationRoute),
    /// A user approved pixels in place of accessibility, which is read within
    /// these bounds where it still answers.
    Approved { bounds: SnapshotBounds },
}

/// Where a capture of pixels is in its course.
#[derive(Debug, Clone, Copy, PartialEq, Eq, Structural)]
pub enum PixelPhase {
    Gate,
    Capture,
    Encode,
    GateAfter,
    Target,
    /// Whether the desktop may stand in for a window that was not captured.
    Fallback,
    /// The desktop, for a crop of it in place of the window.
    DesktopGate,
    Desktop,
    DesktopGateAfter,
    Crop,
    /// What accessibility still has to say beside approved pixels.
    Accessibility,
    PublishGate,
    PublishTarget,
    /// The window is captured once more: nothing may have changed.
    Recapture,
    Reencode,
}

/// A capture of the window, before it is encoded.
#[derive(Debug)]
pub struct PixelCapture {
    pub bracket: BracketedCapture,
    pub backend: String,
    pub fallback: String,
}

/// A capture of the exact window's pixels.
#[derive(Debug)]
pub struct PixelRun {
    pub phase: PixelPhase,
    pub purpose: PixelPurpose,
    /// The window that is captured.
    pub target: WindowTarget,
    pub capture: Option<PixelCapture>,
    pub answer: Option<ToolAnswer>,
    /// Why the window was not captured.
    pub failure: Option<ComputerUseError>,
    pub data: Vec<u8>,
    /// The size of the capture, where it is a picture.
    pub measured: Option<(u32, u32)>,
    pub size: (u32, u32),
    pub backend: String,
    pub fallback: String,
    pub provenance: Json,
    pub accessibility: Json,
    /// The window that is published, once it was seen again.
    pub seen: Option<WindowTarget>,
    pub serial: u64,
    /// The second capture.
    pub last: Option<PixelCapture>,
}

/// What a capture of pixels asks for.
#[derive(Debug, Clone, Copy, PartialEq, Eq, Structural)]
pub enum PixelRequest {
    CheckObservation,
    CaptureWindow,
    EncodeWindow,
    ResolveTarget,
    /// Whether the desktop may stand in after such a failure.
    CheckFallback,
    CheckDesktop,
    CaptureDesktop,
    CropDesktop,
    ReadAccessibility,
    /// The window, and the number of the observation.
    ResolvePublication,
}

/// What the host hands back.
#[derive(Debug)]
pub enum PixelReply {
    Gate(ComputerUseResult<()>),
    Captured(ComputerUseResult<PixelCapture>),
    /// The encoded image and its size, where it is one.
    Encoded(ComputerUseResult<(Vec<u8>, Option<(u32, u32)>)>),
    Target(ComputerUseResult<WindowTarget>),
    Fallback(bool),
    Desktop(ComputerUseResult<ToolAnswer>),
    /// The crop of the desktop, its size, its place, and its resolution.
    Cropped(ComputerUseResult<DesktopCrop>),
    Accessibility(Json),
    Publication { resolved: ComputerUseResult<WindowTarget>, serial: u64 },
}

/// A crop of the desktop at the window's place.
#[derive(Debug)]
pub struct DesktopCrop {
    pub data: Vec<u8>,
    pub size: Option<(u32, u32)>,
    pub bounds: [i32; 4],
    pub dpi: u32,
}

pub type PixelStep = Step<PixelRun, ComputerUseScreenshot>;

impl PixelRun {
    pub open spec fn at(self, phase: PixelPhase) -> PixelRun {
        PixelRun { phase, ..self }
    }

    /// The run holds what its phase needs.
    pub open spec fn well_formed(self) -> bool {
        &&& self.provenance.view() is Object
        &&& match self.phase {
            PixelPhase::Encode | PixelPhase::GateAfter => self.capture is Some,
            PixelPhase::Target => self.purpose is Route && self.capture is Some,
            PixelPhase::Fallback => self.purpose is Approved && self.failure is Some,
            PixelPhase::DesktopGate | PixelPhase::Desktop => self.purpose is Approved,
            PixelPhase::DesktopGateAfter | PixelPhase::Crop => {
                self.purpose is Approved && self.answer is Some
            },
            PixelPhase::Accessibility | PixelPhase::PublishGate | PixelPhase::PublishTarget => {
                self.purpose is Route ==> self.capture is Some
            },
            PixelPhase::Recapture => self.capture is Some && self.seen is Some,
            PixelPhase::Reencode => self.capture is Some && self.seen is Some && self.last is Some,
            _ => true,
        }
    }

    pub open spec fn asks(self) -> PixelRequest {
        match self.phase {
            PixelPhase::Gate => PixelRequest::CheckObservation,
            PixelPhase::Capture => PixelRequest::CaptureWindow,
            PixelPhase::GateAfter => PixelRequest::CheckObservation,
            PixelPhase::Encode => PixelRequest::EncodeWindow,
            PixelPhase::Target => PixelRequest::ResolveTarget,
            PixelPhase::Fallback => PixelRequest::CheckFallback,
            PixelPhase::DesktopGate => PixelRequest::CheckDesktop,
            PixelPhase::Desktop => PixelRequest::CaptureDesktop,
            PixelPhase::DesktopGateAfter => PixelRequest::CheckDesktop,
            PixelPhase::Crop => PixelRequest::CropDesktop,
            PixelPhase::Accessibility => PixelRequest::ReadAccessibility,
            PixelPhase::PublishGate => PixelRequest::CheckObservation,
            PixelPhase::PublishTarget => PixelRequest::ResolvePublication,
            PixelPhase::Recapture => PixelRequest::CaptureWindow,
            PixelPhase::Reencode => PixelRequest::EncodeWindow,
        }
    }

    pub fn request(&self) -> (r: PixelRequest)
        ensures
            r == self.asks(),
    {
        match self.phase {
            PixelPhase::Gate => PixelRequest::CheckObservation,
            PixelPhase::Capture => PixelRequest::CaptureWindow,
            PixelPhase::GateAfter => PixelRequest::CheckObservation,
            PixelPhase::Encode => PixelRequest::EncodeWindow,
            PixelPhase::Target => PixelRequest::ResolveTarget,
            PixelPhase::Fallback => PixelRequest::CheckFallback,
            PixelPhase::DesktopGate => PixelRequest::CheckDesktop,
            PixelPhase::Desktop => PixelRequest::CaptureDesktop,
            PixelPhase::DesktopGateAfter => PixelRequest::CheckDesktop,
            PixelPhase::Crop => PixelRequest::CropDesktop,
            PixelPhase::Accessibility => PixelRequest::ReadAccessibility,
            PixelPhase::PublishGate => PixelRequest::CheckObservation,
            PixelPhase::PublishTarget => PixelRequest::ResolvePublication,
            PixelPhase::Recapture => PixelRequest::CaptureWindow,
            PixelPhase::Reencode => PixelRequest::EncodeWindow,
        }
    }

    fn goes(self, phase: PixelPhase) -> (r: PixelStep)
        ensures
            r == PixelStep::Continue(self.at(phase)),
    {
        let mut run = self;
        run.phase = phase;
        Step::Continue(run)
    }
}

/// The pixels of the window, where a user approved them.
pub open spec fn approved_provenance(
    backend: Seq<char>,
    fallback: Seq<char>,
    target: WindowTarget,
) -> Map<Seq<char>, JsonTree> {
    Map::<Seq<char>, JsonTree>::empty().insert("backend"@, JsonTree::Text(backend)).insert(
        "pixels_captured"@,
        JsonTree::Bool(true),
    ).insert("scope"@, JsonTree::Text("window"@)).insert("fallback"@, JsonTree::Text(fallback)).insert(
        "accessibility_available"@,
        JsonTree::Bool(false),
    ).insert("process_id"@, unsigned_tree(target.pid as u64)).insert(
        "window_handle"@,
        unsigned_tree(target.window_id),
    ).insert("native_window_bounds"@, rect_tree(target.bounds))
}

fn approved_members(backend: &str, fallback: &str, target: &WindowTarget) -> (r: Vec<JsonMember>)
    ensures
        object_tree(r@) == approved_provenance(backend@, fallback@, *target),
{
    let mut members: Vec<JsonMember> = Vec::new();
    put_member(&mut members, "backend", Json::text(backend));
    put_member(&mut members, "pixels_captured", Json::Bool(true));
    put_member(&mut members, "scope", Json::text("window"));
    put_member(&mut members, "fallback", Json::text(fallback));
    put_member(&mut members, "accessibility_available", Json::Bool(false));
    put_member(&mut members, "process_id", Json::unsigned(target.pid as u64));
    put_member(&mut members, "window_handle", Json::unsigned(target.window_id));
    put_member(&mut members, "native_window_bounds", rect_json(&target.bounds));
    members
}

/// The pixels cut from the desktop at the window's place.
pub open spec fn cropped_provenance(
    target: WindowTarget,
    crop: DesktopCrop,
    state: JsonTree,
) -> Map<Seq<char>, JsonTree> {
    approved_provenance("cua-driver-sdk-desktop-crop"@, "desktop_crop"@, target).insert(
        "desktop_crop_bounds"@,
        rect_tree(crop.bounds),
    ).insert("window_dpi"@, unsigned_tree(crop.dpi as u64)).insert("desktop_state"@, state)
}

/// Provenance of a route's pixels.
pub open spec fn route_provenance(
    route: PixelObservationRoute,
    target: WindowTarget,
    capture: PixelCapture,
) -> Map<Seq<char>, JsonTree> {
    pixel_provenance(
        route,
        target,
        capture.bracket.generation,
        capture.bracket.after.dpi,
        capture.backend@,
    ).insert("fallback"@, JsonTree::Text(capture.fallback@))
}

/// What is said of accessibility on a pixel route.
pub open spec fn route_accessibility(
    route: PixelObservationRoute,
    fallback: Seq<char>,
    target: WindowTarget,
) -> JsonTree {
    JsonTree::Object(
        Map::<Seq<char>, JsonTree>::empty().insert(
            "accessibility_available"@,
            JsonTree::Bool(false),
        ).insert(
            "degraded"@,
            JsonTree::Bool(route != PixelObservationRoute::ExplicitPixelsOnly),
        ).insert("observation_mode"@, JsonTree::Text(route.mode_text())).insert(
            "fallback"@,
            JsonTree::Text(fallback),
        ).insert("pid"@, unsigned_tree(target.pid as u64)).insert(
            "window_id"@,
            unsigned_tree(target.window_id),
        ),
    )
}

/// The provenance of approved pixels, once accessibility was asked.
pub open spec fn completed_provenance(
    members: Map<Seq<char>, JsonTree>,
    accessibility: JsonTree,
) -> Map<Seq<char>, JsonTree> {
    if accessibility.bool_at("accessibility_available"@) == Some(true) {
        members.insert("accessibility_available"@, JsonTree::Bool(true)).insert(
            "accessibility_backend"@,
            JsonTree::Text("windows_uia"@),
        )
    } else {
        members.insert("accessibility_available"@, JsonTree::Bool(false))
    }
}

/// The window was not captured. That ends a route; of approved pixels it is
/// asked whether the desktop may stand in.
pub open spec fn capture_failure_step(
    run: PixelRun,
    before: ComputerUseSession,
    error: ComputerUseError,
    after: ComputerUseSession,
    step: PixelStep,
) -> bool {
    &&& after == before.after_failure(error.code)
    &&& match run.purpose {
        PixelPurpose::Route(_) => stops(step, error),
        PixelPurpose::Approved { .. } => step == PixelStep::Continue(
            PixelRun { capture: None, failure: Some(error), ..run }.at(PixelPhase::Fallback),
        ),
    }
}

/// The desktop stands in where it may and shows the window.
pub open spec fn fallback_step(
    run: PixelRun,
    before: ComputerUseSession,
    allowed: bool,
    after: ComputerUseSession,
    step: PixelStep,
) -> bool {
    &&& after == before
    &&& if !allowed {
        stops(step, run.failure->0)
    } else if !run.target.is_on_screen || !run.target.is_foreground {
        stops_plainly(
            step,
            ComputerUseErrorCode::CaptureFailed,
            "exact window capture failed ("@ + run.failure->0.display()
                + "); desktop visual fallback requires the target to be on-screen and foreground"@,
        )
    } else {
        step == PixelStep::Continue(run.at(PixelPhase::DesktopGate))
    }
}

/// The capture came through: its own evidence has to hold it.
pub open spec fn captured_step(
    run: PixelRun,
    before: ComputerUseSession,
    capture: PixelCapture,
    after: ComputerUseSession,
    step: PixelStep,
) -> bool {
    let bracket = capture.bracket;
    match native_evidence_refusal(bracket.before, bracket.after, bracket.mode) {
        Some((code, message)) => exists|error: ComputerUseError|
            {
                &&& is_plain_error(error, code, message)
                &&& #[trigger] capture_failure_step(run, before, error, after, step)
            },
        None => after == before && step == PixelStep::Continue(
            PixelRun { capture: Some(capture), ..run }.at(PixelPhase::Encode),
        ),
    }
}

/// The image, and its size.
pub open spec fn encoded_step(
    run: PixelRun,
    before: ComputerUseSession,
    encoded: ComputerUseResult<(Vec<u8>, Option<(u32, u32)>)>,
    after: ComputerUseSession,
    step: PixelStep,
) -> bool {
    match encoded {
        Err(error) => capture_failure_step(run, before, error, after, step),
        Ok((data, measured)) => after == before && step == PixelStep::Continue(
            PixelRun { data, measured, ..run }.at(PixelPhase::GateAfter),
        ),
    }
}

/// The window could be observed until it was captured, and the capture is a
/// picture.
pub open spec fn capture_held_step(
    run: PixelRun,
    before: ComputerUseSession,
    after: ComputerUseSession,
    step: PixelStep,
) -> bool {
    let capture = run.capture->0;
    &&& after == before
    &&& match (run.measured, run.purpose) {
        (None, PixelPurpose::Route(_)) => stops_plainly(
            step,
            ComputerUseErrorCode::CaptureFailed,
            "exact-window pixel capture returned a non-PNG or truncated screenshot"@,
        ),
        (None, PixelPurpose::Approved { .. }) => stops_plainly(
            step,
            ComputerUseErrorCode::CaptureFailed,
            "desktop fallback crop returned a non-PNG screenshot"@,
        ),
        (Some(size), PixelPurpose::Route(_)) => step == PixelStep::Continue(
            PixelRun { size, ..run }.at(PixelPhase::Target),
        ),
        (Some(size), PixelPurpose::Approved { .. }) => {
            &&& step matches Step::Continue(next)
            &&& next.provenance.view() == JsonTree::Object(
                approved_provenance(capture.backend@, capture.fallback@, run.target),
            )
            &&& next.backend == capture.backend
            &&& next.fallback == capture.fallback
            &&& next == (PixelRun {
                size,
                provenance: next.provenance,
                backend: next.backend,
                fallback: next.fallback,
                ..run
            }).at(PixelPhase::Accessibility)
        },
    }
}

/// The window after the capture stands where it was captured.
pub open spec fn pixel_target_step(
    run: PixelRun,
    before: ComputerUseSession,
    resolved: ComputerUseResult<WindowTarget>,
    after: ComputerUseSession,
    step: PixelStep,
) -> bool {
    let capture = run.capture->0;
    &&& unusable_target_stops(before, resolved, after, step)
    &&& is_usable_target(before, resolved) ==> {
        &&& after == before
        &&& if run.target.bounds@ != capture.bracket.after.bounds@ || resolved->Ok_0.bounds@
            != capture.bracket.after.bounds@ {
            stops_plainly(
                step,
                ComputerUseErrorCode::StaleObservation,
                "native inventory bounds and exact pixel capture bounds do not match"@,
            )
        } else {
            step == PixelStep::Continue(run.at(PixelPhase::PublishGate))
        }
    }
}

/// The desktop stands in: its picture, or why there is none.
pub open spec fn desktop_step(
    run: PixelRun,
    before: ComputerUseSession,
    after: ComputerUseSession,
    step: PixelStep,
) -> bool {
    match run.answer->0.accepted {
        Err(error) => stops_sensitively(before, error, after, step),
        Ok(()) => {
            let reply = run.answer->0.reply;
            &&& after == before
            &&& if reply.images@.len() == 0 {
                stops_plainly(
                    step,
                    ComputerUseErrorCode::CaptureFailed,
                    "CUA desktop fallback returned no screenshot"@,
                )
            } else {
                match base64_decoded(reply.images@[0].data_base64@) {
                    Err(message) => stops_plainly(
                        step,
                        ComputerUseErrorCode::CaptureFailed,
                        message,
                    ),
                    Ok(bytes) => {
                        &&& step matches Step::Continue(next)
                        &&& next.data@ == bytes
                        &&& next.accessibility.view() == accessibility_of(reply)
                        &&& next == (PixelRun {
                            data: next.data,
                            accessibility: next.accessibility,
                            answer: next.answer,
                            ..run
                        }).at(PixelPhase::Crop)
                    },
                }
            }
        },
    }
}

/// The desktop was cropped to the window.
pub open spec fn crop_step(
    run: PixelRun,
    before: ComputerUseSession,
    cropped: ComputerUseResult<DesktopCrop>,
    after: ComputerUseSession,
    step: PixelStep,
) -> bool {
    &&& after == before
    &&& match cropped {
        Err(error) => stops(step, error),
        Ok(crop) => match crop.size {
            None => stops_plainly(
                step,
                ComputerUseErrorCode::CaptureFailed,
                "desktop fallback crop returned a non-PNG screenshot"@,
            ),
            Some(size) => {
                &&& step matches Step::Continue(next)
                &&& next.provenance.view() == JsonTree::Object(
                    cropped_provenance(run.target, crop, run.accessibility.view()),
                )
                &&& next.backend@ == "cua-driver-sdk-desktop-crop"@
                &&& next.fallback@ == "desktop_crop"@
                &&& next == (PixelRun {
                    data: crop.data,
                    size,
                    provenance: next.provenance,
                    backend: next.backend,
                    fallback: next.fallback,
                    ..run
                }).at(PixelPhase::Accessibility)
            },
        },
    }
}

/// The published screenshot.
pub open spec fn pixels_published(
    run: PixelRun,
    before: ComputerUseSession,
    target: WindowTarget,
    serial: u64,
    after: ComputerUseSession,
    step: PixelStep,
) -> bool {
    &&& step matches Step::Done(Ok(screenshot))
    &&& screenshot.data == run.data
    &&& match run.purpose {
        PixelPurpose::Route(route) => {
            &&& screenshot.accessibility.view() == route_accessibility(
                route,
                run.capture->0.fallback@,
                target,
            )
            &&& is_published(
                before,
                target,
                observation_of(
                    before.session_id@,
                    serial,
                    target,
                    run.size,
                    run.capture->0.backend@,
                    JsonTree::Object(route_provenance(route, target, run.capture->0)),
                ),
                BannerActivity::Ready,
                after,
                screenshot.observation,
            )
        },
        PixelPurpose::Approved { .. } => {
            &&& screenshot.accessibility == run.accessibility
            &&& is_published(
                before,
                target,
                observation_of(
                    before.session_id@,
                    serial,
                    target,
                    run.size,
                    run.backend@,
                    run.provenance.view(),
                ),
                BannerActivity::Ready,
                after,
                screenshot.observation,
            )
        },
    }
}

/// The window was seen again. Pixels of the window itself are captured once
/// more before they are published.
pub open spec fn pixel_publication_step(
    run: PixelRun,
    before: ComputerUseSession,
    resolved: ComputerUseResult<WindowTarget>,
    serial: u64,
    after: ComputerUseSession,
    step: PixelStep,
) -> bool {
    &&& publication_stops(before, resolved, run.target, after, step)
    &&& is_publishable(before, resolved, run.target) ==> if run.capture is Some {
        after == before && step == PixelStep::Continue(
            PixelRun { seen: Some(resolved->Ok_0), serial, ..run }.at(PixelPhase::Recapture),
        )
    } else {
        pixels_published(run, before, resolved->Ok_0, serial, after, step)
    }
}

/// The window was captured once more: its own evidence has to hold it too.
pub open spec fn recapture_step(
    run: PixelRun,
    before: ComputerUseSession,
    capture: ComputerUseResult<PixelCapture>,
    after: ComputerUseSession,
    step: PixelStep,
) -> bool {
    match capture {
        Err(error) => stops_sensitively(before, error, after, step),
        Ok(last) => match native_evidence_refusal(
            last.bracket.before,
            last.bracket.after,
            last.bracket.mode,
        ) {
            Some((code, message)) => after == before.after_failure(code) && stops_plainly(
                step,
                code,
                message,
            ),
            None => after == before && step == PixelStep::Continue(
                PixelRun { last: Some(last), ..run }.at(PixelPhase::Reencode),
            ),
        },
    }
}

/// The second capture is a picture too. The first one is published where the
/// window did not change between them.
pub open spec fn reencoded_step(
    run: PixelRun,
    before: ComputerUseSession,
    encoded: ComputerUseResult<(Vec<u8>, Option<(u32, u32)>)>,
    after: ComputerUseSession,
    step: PixelStep,
) -> bool {
    match encoded {
        Err(error) => stops_sensitively(before, error, after, step),
        Ok(_) => match bracketed_refusal(
            run.target,
            run.seen->0,
            run.capture->0.bracket,
            run.last->0.bracket,
        ) {
            Some((code, message)) => after == before && stops_plainly(step, code, message),
            None => pixels_published(run, before, run.seen->0, run.serial, after, step),
        },
    }
}

/// One step of a capture of pixels.
pub open spec fn pixel_step(
    run: PixelRun,
    before: ComputerUseSession,
    reply: PixelReply,
    after: ComputerUseSession,
    step: PixelStep,
) -> bool {
    match (run.phase, reply) {
        (PixelPhase::Gate, PixelReply::Gate(gate)) => match gate {
            Err(error) => capture_failure_step(run, before, error, after, step),
            Ok(()) => after == before && step == PixelStep::Continue(run.at(PixelPhase::Capture)),
        },
        (PixelPhase::Capture, PixelReply::Captured(capture)) => match capture {
            Err(error) => capture_failure_step(run, before, error, after, step),
            Ok(capture) => captured_step(run, before, capture, after, step),
        },
        (PixelPhase::Encode, PixelReply::Encoded(encoded)) => encoded_step(
            run,
            before,
            encoded,
            after,
            step,
        ),
        (PixelPhase::GateAfter, PixelReply::Gate(gate)) => match gate {
            Err(error) => capture_failure_step(run, before, error, after, step),
            Ok(()) => capture_held_step(run, before, after, step),
        },
        (PixelPhase::Fallback, PixelReply::Fallback(allowed)) => fallback_step(
            run,
            before,
            allowed,
            after,
            step,
        ),
        (PixelPhase::Target, PixelReply::Target(resolved)) => pixel_target_step(
            run,
            before,
            resolved,
            after,
            step,
        ),
        (PixelPhase::DesktopGate, PixelReply::Gate(gate)) => {
            &&& refused_gate_stops(before, gate, after, step)
            &&& gate is Ok ==> after == before && step == PixelStep::Continue(
                run.at(PixelPhase::Desktop),
            )
        },
        (PixelPhase::Desktop, PixelReply::Desktop(captured)) => match captured {
            Err(error) => stops_sensitively(before, error, after, step),
            Ok(answer) => after == before && step == PixelStep::Continue(
                PixelRun { answer: Some(answer), ..run }.at(PixelPhase::DesktopGateAfter),
            ),
        },
        (PixelPhase::DesktopGateAfter, PixelReply::Gate(gate)) => {
            &&& refused_gate_stops(before, gate, after, step)
            &&& gate is Ok ==> desktop_step(run, before, after, step)
        },
        (PixelPhase::Crop, PixelReply::Cropped(cropped)) => crop_step(
            run,
            before,
            cropped,
            after,
            step,
        ),
        (PixelPhase::Accessibility, PixelReply::Accessibility(accessibility)) => {
            &&& after == before
            &&& step matches Step::Continue(next)
            &&& next.provenance.view() == JsonTree::Object(
                completed_provenance(run.provenance.view()->Object_0, accessibility.view()),
            )
            &&& next == (PixelRun { accessibility, provenance: next.provenance, ..run }).at(
                PixelPhase::PublishGate,
            )
        },
        (PixelPhase::PublishGate, PixelReply::Gate(gate)) => {
            &&& refused_gate_stops(before, gate, after, step)
            &&& gate is Ok ==> after == before && step == PixelStep::Continue(
                run.at(PixelPhase::PublishTarget),
            )
        },
        (PixelPhase::PublishTarget, PixelReply::Publication { resolved, serial }) => {
            pixel_publication_step(run, before, resolved, serial, after, step)
        },
        (PixelPhase::Recapture, PixelReply::Captured(capture)) => recapture_step(
            run,
            before,
            capture,
            after,
            step,
        ),
        (PixelPhase::Reencode, PixelReply::Encoded(encoded)) => reencoded_step(
            run,
            before,
            encoded,
            after,
            step,
        ),
        _ => after == before && step == PixelStep::Continue(run),
    }
}

fn fresh_run(purpose: PixelPurpose, target: WindowTarget) -> (r: PixelRun)
    ensures
        r.phase == PixelPhase::Gate,
        r.purpose == purpose,
        r.target == target,
        r.capture is None,
        r.well_formed(),
{
    PixelRun {
        phase: PixelPhase::Gate,
        purpose,
        target,
        capture: None,
        answer: None,
        failure: None,
        data: Vec::new(),
        measured: None,
        size: (0, 0),
        backend: "".to_owned(),
        fallback: "".to_owned(),
        provenance: Json::Object(Vec::new()),
        accessibility: Json::Null,
        seen: None,
        serial: 0,
        last: None,
    }
}

/// A capture of a window by its pixels begins.
pub open spec fn pixel_capture_begins(target: WindowTarget, route: PixelObservationRoute, r: ComputerUseResult<PixelRun>) -> bool {
    match pixel_target_refusal(target, true) {
        Some((code, message)) => fails_with(r, code, message),
        None => r matches Ok(run) && run.phase == PixelPhase::Gate && run.purpose
            == PixelPurpose::Route(route) && run.target == target && run.capture is None
            && run.well_formed(),
    }
}

/// A capture by pixels alone begins where the session was started for it.
pub open spec fn pixels_only_begins(before: ComputerUseSession, resolved: ComputerUseResult<WindowTarget>, after: ComputerUseSession, r: ComputerUseResult<PixelRun>) -> bool {
    if !before.native_windows {
        after == before && fails_with(
            r,
            ComputerUseErrorCode::BackendUnavailable,
            "pixels-only exact native window capture is unavailable on this platform"@,
        )
    } else if !before.active {
        after == before && fails_with(
            r,
            ComputerUseErrorCode::BackendUnavailable,
            "Computer Use session is not active"@,
        )
    } else if before.pixel_route != Some(PixelObservationRoute::ExplicitPixelsOnly) {
        after == before && fails_with(
            r,
            ComputerUseErrorCode::InvalidAction,
            "pixels-only capture requires start_pixels_only on the same exact-window session"@,
        )
    } else if is_usable_target(before, resolved) {
        &&& after == before
        &&& r matches Ok(run)
        &&& run.phase == PixelPhase::Gate
        &&& run.purpose == PixelPurpose::Route(PixelObservationRoute::ExplicitPixelsOnly)
        &&& run.target == resolved->Ok_0
        &&& run.well_formed()
    } else {
        &&& r matches Err(error)
        &&& crate::session::is_target_failure(before, resolved, error)
        &&& after == before.after_failure(error.code)
    }
}

/// A capture by the picture alone begins where it was approved.
pub open spec fn visual_capture_begins(session: ComputerUseSession, target: WindowTarget, bounds: SnapshotBounds, r: ComputerUseResult<PixelRun>) -> bool {
    if !session.escalated {
        fails_with(
            r,
            ComputerUseErrorCode::BackendUnavailable,
            "UIA window snapshot timed out; call escalate_session with explicit approval before using the visual fallback"@,
        )
    } else if target.is_minimized {
        fails_with(
            r,
            ComputerUseErrorCode::CaptureFailed,
            "UIA window snapshot timed out and the target is minimized"@,
        )
    } else {
        r matches Ok(run) && run.phase == PixelPhase::Gate && run.purpose
            == (PixelPurpose::Approved { bounds }) && run.target == target && run.capture is None
            && run.well_formed()
    }
}

impl ComputerUseSession {
    /// Begins a capture on a pixel route.
    pub fn begin_pixel_capture(&self, target: WindowTarget, route: PixelObservationRoute) -> (r:
        ComputerUseResult<PixelRun>)
        ensures
            pixel_capture_begins(target, route, r),
    {
        match validate_exact_window_pixel_target_state(&target, true) {
            Ok(()) => Ok(fresh_run(PixelPurpose::Route(route), target)),
            Err(error) => Err(error),
        }
    }

    /// Begins a capture on the pixels-only route, which the session must have
    /// been started on.
    pub fn screenshot_pixels_only(&mut self, resolved: ComputerUseResult<WindowTarget>) -> (r:
        ComputerUseResult<PixelRun>)
        ensures
            pixels_only_begins(*old(self), resolved, *final(self), r),
    {
        if !self.native_windows {
            return Err(
                ComputerUseError::new(
                    ComputerUseErrorCode::BackendUnavailable,
                    "pixels-only exact native window capture is unavailable on this platform",
                ),
            );
        }
        match self.ensure_active() {
            Ok(()) => {},
            Err(error) => return Err(error),
        }
        let explicit = match self.pixel_route {
            Some(route) => route == PixelObservationRoute::ExplicitPixelsOnly,
            None => false,
        };
        if !explicit {
            return Err(
                ComputerUseError::new(
                    ComputerUseErrorCode::InvalidAction,
                    "pixels-only capture requires start_pixels_only on the same exact-window session",
                ),
            );
        }
        match self.require_observed_target_available(resolved) {
            Ok(target) => self.begin_pixel_capture(
                target,
                PixelObservationRoute::ExplicitPixelsOnly,
            ),
            Err(error) => Err(error),
        }
    }

    /// Begins the visual fallback, where it was approved.
    pub fn begin_visual_capture(&self, target: WindowTarget, bounds: SnapshotBounds) -> (r:
        ComputerUseResult<PixelRun>)
        ensures
            visual_capture_begins(*self, target, bounds, r),
    {
        if !self.escalated {
            return Err(
                ComputerUseError::new(
                    ComputerUseErrorCode::BackendUnavailable,
                    "UIA window snapshot timed out; call escalate_session with explicit approval before using the visual fallback",
                ),
            );
        }
        if target.is_minimized {
            return Err(
                ComputerUseError::new(
                    ComputerUseErrorCode::CaptureFailed,
                    "UIA window snapshot timed out and the target is minimized",
                ),
            );
        }
        Ok(fresh_run(PixelPurpose::Approved { bounds }, target))
    }
}

impl PixelRun {
    /// What the driver is asked of the desktop that stands in for the window.
    pub fn desktop_arguments(&self, session: &ComputerUseSession) -> (r: Json)
        ensures
            r.view() == JsonTree::Object(session_tree(session.session_id@)),
    {
        session_arguments(session.session_id.as_str())
    }

    fn on_capture_failure(self, session: &mut ComputerUseSession, error: ComputerUseError) -> (r:
        PixelStep)
        requires
            self.provenance.view() is Object,
        ensures
            capture_failure_step(self, *old(session), error, *final(session), r),
            r matches Step::Continue(next) ==> next.well_formed(),
    {
        let failed: ComputerUseResult<()> = session.finish_observation_sensitive_attempt(
            Err(error),
        );
        let error = match failed {
            Ok(()) => return Step::Continue(self),
            Err(error) => error,
        };
        match self.purpose {
            PixelPurpose::Route(_) => Step::Done(Err(error)),
            PixelPurpose::Approved { .. } => {
                let mut run = self;
                run.capture = None;
                run.failure = Some(error);
                run.goes(PixelPhase::Fallback)
            },
        }
    }

    fn on_fallback(self, session: &mut ComputerUseSession, allowed: bool) -> (r: PixelStep)
        requires
            self.well_formed(),
            self.phase == PixelPhase::Fallback,
        ensures
            fallback_step(self, *old(session), allowed, *final(session), r),
            r matches Step::Continue(next) ==> next.well_formed(),
    {
        let mut run = self;
        let error = run.failure.unwrap();
        if !allowed {
            return Step::Done(Err(error));
        }
        if !run.target.is_on_screen || !run.target.is_foreground {
            let text = error.display_text();
            return Step::Done(
                Err(
                    ComputerUseError::owned(
                        ComputerUseErrorCode::CaptureFailed,
                        join3(
                            "exact window capture failed (",
                            text.as_str(),
                            "); desktop visual fallback requires the target to be on-screen and foreground",
                        ),
                    ),
                ),
            );
        }
        run.failure = Some(error);
        run.goes(PixelPhase::DesktopGate)
    }

    fn on_captured(self, session: &mut ComputerUseSession, capture: PixelCapture) -> (r: PixelStep)
        requires
            self.provenance.view() is Object,
        ensures
            captured_step(self, *old(session), capture, *final(session), r),
            r matches Step::Continue(next) ==> next.well_formed(),
    {
        let held = validate_native_exact_window_pixel_evidence(
            &capture.bracket.before,
            &capture.bracket.after,
            capture.bracket.mode,
        );
        match held {
            Ok(()) => {
                let mut run = self;
                run.capture = Some(capture);
                run.goes(PixelPhase::Encode)
            },
            Err(error) => self.on_capture_failure(session, error),
        }
    }

    fn on_encoded(
        self,
        session: &mut ComputerUseSession,
        encoded: ComputerUseResult<(Vec<u8>, Option<(u32, u32)>)>,
    ) -> (r: PixelStep)
        requires
            self.capture is Some,
            self.provenance.view() is Object,
        ensures
            encoded_step(self, *old(session), encoded, *final(session), r),
            r matches Step::Continue(next) ==> next.well_formed(),
    {
        match encoded {
            Ok((data, measured)) => {
                let mut run = self;
                run.data = data;
                run.measured = measured;
                run.goes(PixelPhase::GateAfter)
            },
            Err(error) => self.on_capture_failure(session, error),
        }
    }

    fn on_held(self, session: &mut ComputerUseSession) -> (r: PixelStep)
        requires
            self.capture is Some,
            self.provenance.view() is Object,
        ensures
            capture_held_step(self, *old(session), *final(session), r),
            r matches Step::Continue(next) ==> next.well_formed(),
    {
        let mut run = self;
        match (run.measured, run.purpose) {
            (None, PixelPurpose::Route(_)) => Step::Done(
                Err(
                    ComputerUseError::new(
                        ComputerUseErrorCode::CaptureFailed,
                        "exact-window pixel capture returned a non-PNG or truncated screenshot",
                    ),
                ),
            ),
            (None, PixelPurpose::Approved { .. }) => Step::Done(
                Err(
                    ComputerUseError::new(
                        ComputerUseErrorCode::CaptureFailed,
                        "desktop fallback crop returned a non-PNG screenshot",
                    ),
                ),
            ),
            (Some(size), PixelPurpose::Route(_)) => {
                run.size = size;
                run.goes(PixelPhase::Target)
            },
            (Some(size), PixelPurpose::Approved { .. }) => {
                let capture = run.capture.unwrap();
                run.size = size;
                run.provenance = Json::Object(
                    approved_members(
                        capture.backend.as_str(),
                        capture.fallback.as_str(),
                        &run.target,
                    ),
                );
                run.backend = capture.backend.clone();
                run.fallback = capture.fallback.clone();
                run.capture = Some(capture);
                run.goes(PixelPhase::Accessibility)
            },
        }
    }

    fn on_target(self, session: &mut ComputerUseSession, resolved: ComputerUseResult<WindowTarget>)
        -> (r: PixelStep)
        requires
            self.capture is Some,
            self.provenance.view() is Object,
        ensures
            pixel_target_step(self, *old(session), resolved, *final(session), r),
            r matches Step::Continue(next) ==> next.well_formed(),
    {
        let after = match session.require_observed_target_available(resolved) {
            Ok(target) => target,
            Err(error) => return Step::Done(Err(error)),
        };
        let mut run = self;
        let capture = run.capture.unwrap();
        let stands = same_bounds(&run.target.bounds, &capture.bracket.after.bounds) && same_bounds(
            &after.bounds,
            &capture.bracket.after.bounds,
        );
        if !stands {
            return Step::Done(
                Err(
                    ComputerUseError::new(
                        ComputerUseErrorCode::StaleObservation,
                        "native inventory bounds and exact pixel capture bounds do not match",
                    ),
                ),
            );
        }
        run.capture = Some(capture);
        run.goes(PixelPhase::PublishGate)
    }

    fn on_desktop(self, session: &mut ComputerUseSession) -> (r: PixelStep)
        requires
            self.answer is Some,
            self.purpose is Approved,
            self.provenance.view() is Object,
        ensures
            desktop_step(self, *old(session), *final(session), r),
            r matches Step::Continue(next) ==> next.well_formed(),
    {
        let mut run = self;
        let answer = run.answer.unwrap();
        match session.finish_observation_sensitive_attempt(answer.accepted) {
            Ok(()) => {},
            Err(error) => return Step::Done(Err(error)),
        }
        let reply = answer.reply;
        if reply.images.len() == 0 {
            return Step::Done(
                Err(
                    ComputerUseError::new(
                        ComputerUseErrorCode::CaptureFailed,
                        "CUA desktop fallback returned no screenshot",
                    ),
                ),
            );
        }
        let data = match decode_image_data(reply.images[0].data_base64.as_str()) {
            Ok(data) => data,
            Err(error) => return Step::Done(Err(error)),
        };
        run.data = data;
        run.accessibility = structured_or_empty(&reply);
        run.answer = Some(ToolAnswer { reply, accepted: Ok(()), result: answer.result });
        run.goes(PixelPhase::Crop)
    }

    fn on_cropped(self, session: &ComputerUseSession, cropped: ComputerUseResult<DesktopCrop>) -> (r:
        PixelStep)
        requires
            self.purpose is Approved,
        ensures
            crop_step(self, *session, cropped, *session, r),
            r matches Step::Continue(next) ==> next.well_formed(),
    {
        let crop = match cropped {
            Ok(crop) => crop,
            Err(error) => return Step::Done(Err(error)),
        };
        let size = match crop.size {
            Some(size) => size,
            None => return Step::Done(
                Err(
                    ComputerUseError::new(
                        ComputerUseErrorCode::CaptureFailed,
                        "desktop fallback crop returned a non-PNG screenshot",
                    ),
                ),
            ),
        };
        let mut members = approved_members(
            "cua-driver-sdk-desktop-crop",
            "desktop_crop",
            &self.target,
        );
        put_member(&mut members, "desktop_crop_bounds", rect_json(&crop.bounds));
        put_member(&mut members, "window_dpi", Json::unsigned(crop.dpi as u64));
        put_member(&mut members, "desktop_state", self.accessibility.clone());
        let mut run = self;
        run.data = crop.data;
        run.size = size;
        run.provenance = Json::Object(members);
        run.backend = "cua-driver-sdk-desktop-crop".to_owned();
        run.fallback = "desktop_crop".to_owned();
        run.goes(PixelPhase::Accessibility)
    }

    fn publish(self, session: &mut ComputerUseSession, target: WindowTarget, serial: u64) -> (r:
        PixelStep)
        requires
            self.purpose is Route ==> self.capture is Some,
        ensures
            pixels_published(self, *old(session), target, serial, *final(session), r),
    {
        match self.purpose {
            PixelPurpose::Route(route) => {
                let capture = self.capture.unwrap();
                let provenance = exact_window_pixel_provenance(
                    route,
                    &target,
                    capture.bracket.generation,
                    capture.bracket.after.dpi,
                    capture.backend.as_str(),
                );
                let mut members: Vec<JsonMember> = match provenance {
                    Json::Object(members) => members,
                    _ => Vec::new(),
                };
                put_member(&mut members, "fallback", Json::text(capture.fallback.as_str()));
                let observation = new_observation(
                    session.session_id.as_str(),
                    serial,
                    &target,
                    self.size,
                    capture.backend.as_str(),
                    Json::Object(members),
                );
                let mut shown: Vec<JsonMember> = Vec::new();
                put_member(&mut shown, "accessibility_available", Json::Bool(false));
                put_member(&mut shown, "degraded", Json::Bool(route.degraded()));
                put_member(&mut shown, "observation_mode", Json::text(route.observation_mode()));
                put_member(&mut shown, "fallback", Json::text(capture.fallback.as_str()));
                put_member(&mut shown, "pid", Json::unsigned(target.pid as u64));
                put_member(&mut shown, "window_id", Json::unsigned(target.window_id));
                session.publish(target, &observation, BannerActivity::Ready);
                Step::Done(
                    Ok(
                        ComputerUseScreenshot {
                            data: self.data,
                            observation,
                            accessibility: Json::Object(shown),
                        },
                    ),
                )
            },
            PixelPurpose::Approved { .. } => {
                let observation = new_observation(
                    session.session_id.as_str(),
                    serial,
                    &target,
                    self.size,
                    self.backend.as_str(),
                    self.provenance,
                );
                session.publish(target, &observation, BannerActivity::Ready);
                Step::Done(
                    Ok(
                        ComputerUseScreenshot {
                            data: self.data,
                            observation,
                            accessibility: self.accessibility,
                        },
                    ),
                )
            },
        }
    }

    fn on_publication(
        self,
        session: &mut ComputerUseSession,
        resolved: ComputerUseResult<WindowTarget>,
        serial: u64,
    ) -> (r: PixelStep)
        requires
            self.purpose is Route ==> self.capture is Some,
            self.provenance.view() is Object,
        ensures
            pixel_publication_step(self, *old(session), resolved, serial, *final(session), r),
            r matches Step::Continue(next) ==> next.well_formed(),
    {
        let target = match session.revalidate_observed_exact_publication_target(
            Ok(()),
            resolved,
            &self.target,
        ) {
            Ok(target) => target,
            Err(error) => return Step::Done(Err(error)),
        };
        if self.capture.is_some() {
            let mut run = self;
            run.seen = Some(target);
            run.serial = serial;
            return run.goes(PixelPhase::Recapture);
        }
        self.publish(session, target, serial)
    }

    fn on_recaptured(
        self,
        session: &mut ComputerUseSession,
        capture: ComputerUseResult<PixelCapture>,
    ) -> (r: PixelStep)
        requires
            self.capture is Some,
            self.seen is Some,
        ensures
            recapture_step(self, *old(session), capture, *final(session), r),
            r matches Step::Continue(next) ==> next.last is Some,
    {
        let last = match session.finish_observation_sensitive_attempt(capture) {
            Ok(capture) => capture,
            Err(error) => return Step::Done(Err(error)),
        };
        let held = validate_native_exact_window_pixel_evidence(
            &last.bracket.before,
            &last.bracket.after,
            last.bracket.mode,
        );
        match session.finish_observation_sensitive_attempt(held) {
            Ok(()) => {},
            Err(error) => return Step::Done(Err(error)),
        }
        let mut run = self;
        run.last = Some(last);
        run.goes(PixelPhase::Reencode)
    }

    fn on_reencoded(
        self,
        session: &mut ComputerUseSession,
        encoded: ComputerUseResult<(Vec<u8>, Option<(u32, u32)>)>,
    ) -> (r: PixelStep)
        requires
            self.capture is Some,
            self.seen is Some,
            self.last is Some,
        ensures
            reencoded_step(self, *old(session), encoded, *final(session), r),
            r is Done,
    {
        match session.finish_observation_sensitive_attempt(encoded) {
            Ok(_) => {},
            Err(error) => return Step::Done(Err(error)),
        }
        let mut run = self;
        let seen = run.seen.unwrap();
        let first = run.capture.unwrap();
        let last = run.last.unwrap();
        let held = validate_bracketed_publication(
            &run.target,
            &seen,
            &first.bracket,
            &last.bracket,
        );
        match held {
            Ok(()) => {},
            Err(error) => return Step::Done(Err(error)),
        }
        let serial: u64 = run.serial;
        run.capture = Some(first);
        run.seen = None;
        run.last = None;
        run.publish(session, seen, serial)
    }

    fn advance_capture(self, session: &mut ComputerUseSession, reply: PixelReply) -> (r: PixelStep)
        requires
            self.well_formed(),
            self.phase == PixelPhase::Gate || self.phase == PixelPhase::Capture || self.phase
                == PixelPhase::GateAfter || self.phase == PixelPhase::Encode || self.phase
                == PixelPhase::Target || self.phase == PixelPhase::Fallback,
        ensures
            pixel_step(self, *old(session), reply, *final(session), r),
            r matches Step::Continue(next) ==> next.well_formed(),
    {
        match (self.phase, reply) {
            (PixelPhase::Gate, PixelReply::Gate(gate)) => match gate {
                Ok(()) => self.goes(PixelPhase::Capture),
                Err(error) => self.on_capture_failure(session, error),
            },
            (PixelPhase::Capture, PixelReply::Captured(capture)) => match capture {
                Ok(capture) => self.on_captured(session, capture),
                Err(error) => self.on_capture_failure(session, error),
            },
            (PixelPhase::Encode, PixelReply::Encoded(encoded)) => self.on_encoded(session, encoded),
            (PixelPhase::GateAfter, PixelReply::Gate(gate)) => match gate {
                Ok(()) => self.on_held(session),
                Err(error) => self.on_capture_failure(session, error),
            },
            (PixelPhase::Fallback, PixelReply::Fallback(allowed)) => {
                self.on_fallback(session, allowed)
            },
            (PixelPhase::Target, PixelReply::Target(resolved)) => self.on_target(session, resolved),
            _ => Step::Continue(self),
        }
    }

    fn on_accessibility(self, accessibility: Json) -> (r: PixelStep)
        requires
            self.well_formed(),
            self.phase == PixelPhase::Accessibility,
        ensures
            r matches Step::Continue(next) && next.provenance.view() == JsonTree::Object(
                completed_provenance(self.provenance.view()->Object_0, accessibility.view()),
            ) && next == (PixelRun { accessibility, provenance: next.provenance, ..self }).at(
                PixelPhase::PublishGate,
            ),
    {
        let available = match accessibility.bool_at("accessibility_available") {
            Some(available) => available,
            None => false,
        };
        let mut run = self;
        let completed = match &run.provenance {
            Json::Object(members) => {
                let mut members = crate::json::duplicate_members(members);
                put_member(&mut members, "accessibility_available", Json::Bool(available));
                if available {
                    put_member(&mut members, "accessibility_backend", Json::text("windows_uia"));
                }
                Json::Object(members)
            },
            _ => Json::Null,
        };
        run.provenance = completed;
        run.accessibility = accessibility;
        run.goes(PixelPhase::PublishGate)
    }

    fn advance_desktop(self, session: &mut ComputerUseSession, reply: PixelReply) -> (r: PixelStep)
        requires
            self.well_formed(),
            self.phase == PixelPhase::DesktopGate || self.phase == PixelPhase::Desktop
                || self.phase == PixelPhase::DesktopGateAfter || self.phase == PixelPhase::Crop,
        ensures
            pixel_step(self, *old(session), reply, *final(session), r),
            r matches Step::Continue(next) ==> next.well_formed(),
    {
        match (self.phase, reply) {
            (PixelPhase::DesktopGate, PixelReply::Gate(gate)) => {
                match session.finish_observation_sensitive_attempt(gate) {
                    Ok(()) => self.goes(PixelPhase::Desktop),
                    Err(error) => Step::Done(Err(error)),
                }
            },
            (PixelPhase::Desktop, PixelReply::Desktop(captured)) => {
                match session.finish_observation_sensitive_attempt(captured) {
                    Ok(answer) => {
                        let mut run = self;
                        run.answer = Some(answer);
                        run.goes(PixelPhase::DesktopGateAfter)
                    },
                    Err(error) => Step::Done(Err(error)),
                }
            },
            (PixelPhase::DesktopGateAfter, PixelReply::Gate(gate)) => {
                match session.finish_observation_sensitive_attempt(gate) {
                    Ok(()) => self.on_desktop(session),
                    Err(error) => Step::Done(Err(error)),
                }
            },
            (PixelPhase::Crop, PixelReply::Cropped(cropped)) => self.on_cropped(session, cropped),
            _ => Step::Continue(self),
        }
    }

    fn advance_publication(self, session: &mut ComputerUseSession, reply: PixelReply) -> (r:
        PixelStep)
        requires
            self.well_formed(),
            self.phase == PixelPhase::Accessibility || self.phase == PixelPhase::PublishGate
                || self.phase == PixelPhase::PublishTarget || self.phase == PixelPhase::Recapture
                || self.phase == PixelPhase::Reencode,
        ensures
            pixel_step(self, *old(session), reply, *final(session), r),
            r matches Step::Continue(next) ==> next.well_formed(),
    {
        match (self.phase, reply) {
            (PixelPhase::Accessibility, PixelReply::Accessibility(accessibility)) => {
                self.on_accessibility(accessibility)
            },
            (PixelPhase::PublishGate, PixelReply::Gate(gate)) => {
                match session.finish_observation_sensitive_attempt(gate) {
                    Ok(()) => self.goes(PixelPhase::PublishTarget),
                    Err(error) => Step::Done(Err(error)),
                }
            },
            (PixelPhase::PublishTarget, PixelReply::Publication { resolved, serial }) => {
                self.on_publication(session, resolved, serial)
            },
            (PixelPhase::Recapture, PixelReply::Captured(capture)) => {
                self.on_recaptured(session, capture)
            },
            (PixelPhase::Reencode, PixelReply::Encoded(encoded)) => {
                self.on_reencoded(session, encoded)
            },
            _ => Step::Continue(self),
        }
    }

    /// Takes the answer to the run's request in. An answer to some other
    /// request changes nothing.
    pub fn advance(self, session: &mut ComputerUseSession, reply: PixelReply) -> (r: PixelStep)
        requires
            self.well_formed(),
        ensures
            pixel_step(self, *old(session), reply, *final(session), r),
            r matches Step::Continue(next) ==> next.well_formed(),
    {
        match self.phase {
            PixelPhase::Gate | PixelPhase::Capture | PixelPhase::GateAfter | PixelPhase::Encode
            | PixelPhase::Target | PixelPhase::Fallback => self.advance_capture(session, reply),
            PixelPhase::DesktopGate | PixelPhase::Desktop | PixelPhase::DesktopGateAfter
            | PixelPhase::Crop => self.advance_desktop(session, reply),
            PixelPhase::Accessibility | PixelPhase::PublishGate | PixelPhase::PublishTarget
            | PixelPhase::Recapture | PixelPhase::Reencode => self.advance_publication(session, reply),
        }
    }
}

fn same_bounds(a: &[i32; 4], b: &[i32; 4]) -> (r: bool)
    ensures
        r == (a@ == b@),
{
    let same = a[0] == b[0] && a[1] == b[1] && a[2] == b[2] && a[3] == b[3];
    assert(same ==> a@ =~= b@);
    same
}

/// Pixels on a route are published only after a second capture of the same,
/// unchanged window.
pub proof fn law_route_pixels_are_captured_twice(
    run: PixelRun,
    before: ComputerUseSession,
    reply: PixelReply,
    after: ComputerUseSession,
    screenshot: ComputerUseScreenshot,
)
    requires
        run.well_formed(),
        run.purpose is Route,
        pixel_step(run, before, reply, after, PixelStep::Done(Ok(screenshot))),
    ensures
        run.phase == PixelPhase::Reencode,
        run.last is Some,
        bracketed_refusal(
            run.target,
            run.seen->0,
            run.capture->0.bracket,
            run.last->0.bracket,
        ) is None,
{
}

/// A capture whose window was replaced while it was taken is never encoded,
/// neither the first nor the second.
pub proof fn law_drifted_captures_are_never_encoded(
    run: PixelRun,
    before: ComputerUseSession,
    reply: PixelReply,
    after: ComputerUseSession,
    next: PixelRun,
)
    requires
        pixel_step(run, before, reply, after, PixelStep::Continue(next)),
        run.phase != next.phase,
    ensures
        next.phase == PixelPhase::Encode ==> (reply matches PixelReply::Captured(Ok(first))
            && next.capture == Some(first) && first.bracket.before.instance
            == first.bracket.after.instance),
        next.phase == PixelPhase::Reencode ==> (reply matches PixelReply::Captured(Ok(last))
            && next.last == Some(last) && last.bracket.before.instance
            == last.bracket.after.instance),
{
}

/// Pixels are captured of the window given and by the route given, where it is
/// shown; by pixels alone only where the session was started for that, and by the
/// picture alone only where that was approved.
pub proof fn law_pixel_captures_begin_where_they_may(
    session: ComputerUseSession,
    target: WindowTarget,
    route: PixelObservationRoute,
    bounds: SnapshotBounds,
    routed: ComputerUseResult<PixelRun>,
    visual: ComputerUseResult<PixelRun>,
)
    requires
        pixel_capture_begins(target, route, routed),
        visual_capture_begins(session, target, bounds, visual),
    ensures
        routed is Ok <==> !target.is_minimized && target.is_on_screen,
        routed matches Ok(run) ==> run.target == target && run.purpose == PixelPurpose::Route(route)
            && run.asks() == PixelRequest::CheckObservation && run.capture is None,
        visual is Ok <==> session.escalated && !target.is_minimized,
        visual matches Ok(run) ==> run.target == target && run.purpose == (PixelPurpose::Approved {
            bounds,
        }) && run.asks() == PixelRequest::CheckObservation && run.capture is None,
{
}

/// Pixels alone are captured of a usable window, in a session that was started for
/// it.
pub proof fn law_pixels_only_begin_where_started(
    before: ComputerUseSession,
    resolved: ComputerUseResult<WindowTarget>,
    after: ComputerUseSession,
    r: ComputerUseResult<PixelRun>,
)
    requires
        pixels_only_begins(before, resolved, after, r),
    ensures
        r is Ok <==> before.native_windows && before.active && before.pixel_route == Some(
            PixelObservationRoute::ExplicitPixelsOnly,
        ) && is_usable_target(before, resolved),
        r matches Ok(run) ==> run.target == resolved->Ok_0 && run.purpose == PixelPurpose::Route(
            PixelObservationRoute::ExplicitPixelsOnly,
        ) && run.asks() == PixelRequest::CheckObservation && after == before,
{
}

/// The answer that was asked for takes the capture on, and no other does.
pub proof fn law_pixels_take_the_answer_they_asked_for(
    run: PixelRun,
    before: ComputerUseSession,
    reply: PixelReply,
    after: ComputerUseSession,
    step: PixelStep,
)
    requires
        run.well_formed(),
        pixel_step(run, before, reply, after, step),
    ensures
        ({
            let asked = match run.asks() {
                PixelRequest::CheckObservation | PixelRequest::CheckDesktop => reply is Gate,
                PixelRequest::CaptureWindow => reply is Captured,
                PixelRequest::EncodeWindow => reply is Encoded,
                PixelRequest::ResolveTarget => reply is Target,
                PixelRequest::CheckFallback => reply is Fallback,
                PixelRequest::CaptureDesktop => reply is Desktop,
                PixelRequest::CropDesktop => reply is Cropped,
                PixelRequest::ReadAccessibility => reply is Accessibility,
                PixelRequest::ResolvePublication => reply is Publication,
            };
            &&& asked ==> (step matches Step::Continue(next) ==> next.phase != run.phase)
            &&& !asked ==> after == before && step == PixelStep::Continue(run)
        }),
        run.phase == PixelPhase::DesktopGate || run.phase == PixelPhase::DesktopGateAfter
            ==> run.asks() == PixelRequest::CheckDesktop,
        run.phase == PixelPhase::Gate || run.phase == PixelPhase::GateAfter || run.phase
            == PixelPhase::PublishGate ==> run.asks() == PixelRequest::CheckObservation,
{
}

/// What the host handed back on the way is what a capture goes on with: the
/// capture, its picture and size, the desktop's answer, the crop of it, and what
/// was read of the window's accessibility.
pub proof fn law_pixels_keep_what_was_handed_back(
    run: PixelRun,
    before: ComputerUseSession,
    reply: PixelReply,
    after: ComputerUseSession,
    next: PixelRun,
)
    requires
        run.well_formed(),
        pixel_step(run, before, reply, after, PixelStep::Continue(next)),
    ensures
        next.purpose == run.purpose,
        next.target == run.target,
        run.phase == PixelPhase::Capture && next.phase == PixelPhase::Encode ==> reply
            == PixelReply::Captured(Ok(next.capture->0)) && next.capture is Some,
        run.phase == PixelPhase::Encode && next.phase == PixelPhase::GateAfter ==> reply
            == PixelReply::Encoded(Ok((next.data, next.measured))) && next.capture == run.capture,
        run.phase == PixelPhase::GateAfter && next.phase != run.phase && next.phase
            != PixelPhase::Fallback ==> Some(next.size) == run.measured && next.data == run.data
            && next.capture == run.capture,
        run.phase == PixelPhase::Desktop && next.phase != run.phase ==> reply == PixelReply::Desktop(
            Ok(next.answer->0),
        ) && next.answer is Some,
        run.phase == PixelPhase::DesktopGateAfter && next.phase != run.phase ==> {
            &&& run.answer->0.accepted is Ok
            &&& run.answer->0.reply.images@.len() > 0
            &&& base64_decoded(run.answer->0.reply.images@[0].data_base64@) == Ok::<
                Seq<u8>,
                Seq<char>,
            >(next.data@)
            &&& next.accessibility.view() == accessibility_of(run.answer->0.reply)
        },
        run.phase == PixelPhase::Crop && next.phase != run.phase ==> {
            &&& reply is Cropped
            &&& reply->Cropped_0 is Ok
            &&& next.data == reply->Cropped_0->Ok_0.data
            &&& Some(next.size) == reply->Cropped_0->Ok_0.size
            &&& next.backend@ == "cua-driver-sdk-desktop-crop"@
            &&& next.fallback@ == "desktop_crop"@
        },
        run.phase == PixelPhase::Accessibility && next.phase != run.phase ==> reply
            == PixelReply::Accessibility(next.accessibility) && next.data == run.data && next.size
            == run.size && next.backend == run.backend && next.capture == run.capture,
        run.phase == PixelPhase::Target || run.phase == PixelPhase::PublishGate || run.phase
            == PixelPhase::PublishTarget || run.phase == PixelPhase::Recapture ==> next.data
            == run.data && next.size == run.size && next.capture == run.capture && next.provenance
            == run.provenance && next.accessibility == run.accessibility && next.backend
            == run.backend,
        run.phase == PixelPhase::PublishTarget && next.phase != run.phase ==> (
        reply matches PixelReply::Publication { resolved, serial } && next.serial == serial
            && next.seen == Some(resolved->Ok_0) && is_usable_target(before, resolved)),
        run.phase == PixelPhase::Recapture && next.phase != run.phase ==> reply
            == PixelReply::Captured(Ok(next.last->0)) && next.last is Some && next.seen == run.seen
            && next.serial == run.serial,
        next.phase == PixelPhase::Fallback && next.phase != run.phase ==> next.failure is Some && (
        run.purpose is Approved) && (reply matches PixelReply::Gate(Err(error)) ==> next.failure
            == Some(error)) && (reply matches PixelReply::Captured(Err(error)) ==> next.failure
            == Some(error)) && (reply matches PixelReply::Encoded(Err(error)) ==> next.failure
            == Some(error)),
{
}

/// Pixels are captured, and published, past open gates; the desktop is asked for
/// only where the fallback is allowed and the window is on screen and in front.
pub proof fn law_pixels_pass_their_gates(
    run: PixelRun,
    before: ComputerUseSession,
    reply: PixelReply,
    after: ComputerUseSession,
    next: PixelRun,
)
    requires
        run.well_formed(),
        pixel_step(run, before, reply, after, PixelStep::Continue(next)),
        next.phase != run.phase,
    ensures
        next.phase == PixelPhase::Capture ==> reply is Gate && reply->Gate_0 is Ok,
        next.phase == PixelPhase::Desktop ==> reply is Gate && reply->Gate_0 is Ok,
        next.phase == PixelPhase::Crop ==> reply is Gate && reply->Gate_0 is Ok,
        next.phase == PixelPhase::PublishTarget ==> reply is Gate && reply->Gate_0 is Ok,
        next.phase == PixelPhase::DesktopGate ==> reply == PixelReply::Fallback(true)
            && run.target.is_on_screen && run.target.is_foreground && run.purpose is Approved,
        run.phase == PixelPhase::Target ==> (reply matches PixelReply::Target(Ok(found))
            && is_usable_target(before, Ok(found)) && found.bounds@
            == run.capture->0.bracket.after.bounds@ && run.target.bounds@
            == run.capture->0.bracket.after.bounds@),
        next.phase == PixelPhase::Encode || next.phase == PixelPhase::Reencode ==> (
        reply matches PixelReply::Captured(Ok(capture)) && native_evidence_refusal(
            capture.bracket.before,
            capture.bracket.after,
            capture.bracket.mode,
        ) is None),
{
}

/// A published picture is the one that was kept, at its size, of the window that
/// was found usable last and is still the same, and the session holds it from then
/// on.
pub proof fn law_published_pixels_are_those_kept(
    run: PixelRun,
    before: ComputerUseSession,
    reply: PixelReply,
    after: ComputerUseSession,
    screenshot: ComputerUseScreenshot,
)
    requires
        run.well_formed(),
        pixel_step(run, before, reply, after, PixelStep::Done(Ok(screenshot))),
    ensures
        run.phase == PixelPhase::Reencode || (run.phase == PixelPhase::PublishTarget
            && run.capture is None),
        screenshot.data == run.data,
        screenshot.observation.width == run.size.0,
        screenshot.observation.height == run.size.1,
        screenshot.observation.session_id@ == before.session_id@,
        run.phase == PixelPhase::Reencode ==> screenshot.observation.window_handle
            == run.seen->0.window_id && screenshot.observation.process_id == run.seen->0.pid
            && after.target == run.seen && bracketed_refusal(
            run.target,
            run.seen->0,
            run.capture->0.bracket,
            run.last->0.bracket,
        ) is None && (reply matches PixelReply::Encoded(Ok(_))),
        run.phase == PixelPhase::PublishTarget ==> (reply matches PixelReply::Publication {
            resolved,
            serial,
        } && is_usable_target(before, resolved) && resolved->Ok_0.pid == run.target.pid
            && resolved->Ok_0.window_id == run.target.window_id
            && screenshot.observation.window_handle == run.target.window_id
            && screenshot.observation.process_id == run.target.pid && after.target == Some(
            resolved->Ok_0,
        )),
        run.purpose is Approved ==> screenshot.accessibility == run.accessibility
            && screenshot.observation.capture_backend@ == run.backend@
            && screenshot.observation.capture_provenance.view() == run.provenance.view(),
        run.purpose is Route ==> screenshot.observation.capture_backend@ == run.capture->0.backend@,
        after.observation is Some,
        after.observation->0.observation_id@ == screenshot.observation.observation_id@,
        after.active == before.active,
        after.live == before.live,
{
}

/// What a capture by a route fails by is its error; an approved one may fall back
/// to the desktop, and then fails by what that failed by.
pub proof fn law_pixels_fail_by_what_failed(
    run: PixelRun,
    before: ComputerUseSession,
    reply: PixelReply,
    after: ComputerUseSession,
    step: PixelStep,
)
    requires
        run.well_formed(),
        pixel_step(run, before, reply, after, step),
    ensures
        run.purpose is Route && reply is Gate && reply->Gate_0 is Err && (run.asks()
            == PixelRequest::CheckObservation) ==> step == PixelStep::Done(
            Err(reply->Gate_0->Err_0),
        ),
        run.asks() == PixelRequest::CheckDesktop && reply is Gate && reply->Gate_0 is Err ==> step
            == PixelStep::Done(Err(reply->Gate_0->Err_0)),
        run.phase == PixelPhase::PublishGate && reply is Gate && reply->Gate_0 is Err ==> step
            == PixelStep::Done(Err(reply->Gate_0->Err_0)),
        (run.purpose is Route || run.phase == PixelPhase::Recapture) && run.asks()
            == PixelRequest::CaptureWindow && reply is Captured && reply->Captured_0 is Err ==> step
            == PixelStep::Done(Err(reply->Captured_0->Err_0)),
        (run.purpose is Route || run.phase == PixelPhase::Reencode) && run.asks()
            == PixelRequest::EncodeWindow && reply is Encoded && reply->Encoded_0 is Err ==> step
            == PixelStep::Done(Err(reply->Encoded_0->Err_0)),
        run.phase == PixelPhase::Desktop && reply is Desktop && reply->Desktop_0 is Err ==> step
            == PixelStep::Done(Err(reply->Desktop_0->Err_0)),
        run.phase == PixelPhase::Crop && reply is Cropped && reply->Cropped_0 is Err ==> step
            == PixelStep::Done(Err(reply->Cropped_0->Err_0)),
        run.phase == PixelPhase::Fallback && reply == PixelReply::Fallback(false) ==> step
            == PixelStep::Done(Err(run.failure->0)),
        run.phase == PixelPhase::Target && reply is Target && !is_usable_target(
            before,
            reply->Target_0,
        ) ==> (step matches Step::Done(Err(_))),
{
}

/// The provenance of an approved picture, and of one that was cut out of the
/// desktop, tells its window, its place and the way it was taken.
pub proof fn law_approved_provenance_tells_the_window(
    backend: Seq<char>,
    fallback: Seq<char>,
    target: WindowTarget,
    crop: DesktopCrop,
    state: JsonTree,
)
    ensures
        ({
            let told = JsonTree::Object(approved_provenance(backend, fallback, target));
            &&& told.text_at("backend"@) == Some(backend)
            &&& told.text_at("fallback"@) == Some(fallback)
            &&& told.bool_at("pixels_captured"@) == Some(true)
            &&& told.text_at("scope"@) == Some("window"@)
            &&& told.bool_at("accessibility_available"@) == Some(false)
            &&& told.u64_at("process_id"@) == Some(target.pid as u64)
            &&& told.u64_at("window_handle"@) == Some(target.window_id)
            &&& told.get("native_window_bounds"@) == Some(rect_tree(target.bounds))
        }),
        ({
            let told = JsonTree::Object(cropped_provenance(target, crop, state));
            &&& told.text_at("backend"@) == Some("cua-driver-sdk-desktop-crop"@)
            &&& told.text_at("fallback"@) == Some("desktop_crop"@)
            &&& told.u64_at("process_id"@) == Some(target.pid as u64)
            &&& told.u64_at("window_handle"@) == Some(target.window_id)
            &&& told.get("desktop_crop_bounds"@) == Some(rect_tree(crop.bounds))
            &&& told.u64_at("window_dpi"@) == Some(crop.dpi as u64)
            &&& told.get("desktop_state"@) == Some(state)
        }),
{
    reveal_strlit("backend");
    reveal_strlit("fallback");
    reveal_strlit("pixels_captured");
    reveal_strlit("scope");
    reveal_strlit("accessibility_available");
    reveal_strlit("process_id");
    reveal_strlit("window_handle");
    reveal_strlit("native_window_bounds");
    reveal_strlit("desktop_crop_bounds");
    reveal_strlit("window_dpi");
    reveal_strlit("desktop_state");
    assert("backend"@.len() == 7);
    assert("fallback"@.len() == 8);
    assert("pixels_captured"@.len() == 15);
    assert("scope"@.len() == 5);
    assert("accessibility_available"@.len() == 23);
    assert("process_id"@.len() == 10);
    assert("window_handle"@.len() == 13);
    assert("native_window_bounds"@.len() == 20);
    assert("desktop_crop_bounds"@.len() == 19);
    assert("window_dpi"@.len() == 10);
    assert("desktop_state"@.len() == 13);
    assert("process_id"@[0] != "window_dpi"@[0]);
    assert("window_handle"@[0] != "desktop_state"@[0]);
}

/// The provenance of a route's pixels tells the capture they are from; their
/// accessibility says that there is none, and why.
pub proof fn law_route_provenance_tells_the_capture(
    route: PixelObservationRoute,
    target: WindowTarget,
    capture: PixelCapture,
)
    ensures
        ({
            let told = JsonTree::Object(route_provenance(route, target, capture));
            &&& told.text_at("backend"@) == Some(capture.backend@)
            &&& told.text_at("fallback"@) == Some(capture.fallback@)
            &&& told.u64_at("process_id"@) == Some(target.pid as u64)
            &&& told.u64_at("window_handle"@) == Some(target.window_id)
            &&& told.u64_at("capture_generation"@) == Some(capture.bracket.generation)
            &&& told.u64_at("window_dpi"@) == Some(capture.bracket.after.dpi as u64)
            &&& told.bool_at("degraded"@) == Some(
                route != PixelObservationRoute::ExplicitPixelsOnly,
            )
            &&& told.text_at("observation_mode"@) == Some(route.mode_text())
        }),
        ({
            let told = route_accessibility(route, capture.fallback@, target);
            &&& told.bool_at("accessibility_available"@) == Some(false)
            &&& told.bool_at("degraded"@) == Some(
                route != PixelObservationRoute::ExplicitPixelsOnly,
            )
            &&& told.text_at("observation_mode"@) == Some(route.mode_text())
            &&& told.text_at("fallback"@) == Some(capture.fallback@)
            &&& told.u64_at("pid"@) == Some(target.pid as u64)
            &&& told.u64_at("window_id"@) == Some(target.window_id)
        }),
{
    reveal_strlit("backend");
    reveal_strlit("pixels_captured");
    reveal_strlit("scope");
    reveal_strlit("whole_desktop_capture");
    reveal_strlit("observation_mode");
    reveal_strlit("degraded");
    reveal_strlit("accessibility_available");
    reveal_strlit("process_id");
    reveal_strlit("window_handle");
    reveal_strlit("native_window_bounds");
    reveal_strlit("capture_generation");
    reveal_strlit("window_dpi");
    reveal_strlit("fallback");
    reveal_strlit("pid");
    reveal_strlit("window_id");
    assert("backend"@.len() == 7);
    assert("pixels_captured"@.len() == 15);
    assert("scope"@.len() == 5);
    assert("whole_desktop_capture"@.len() == 21);
    assert("observation_mode"@.len() == 16);
    assert("degraded"@.len() == 8);
    assert("accessibility_available"@.len() == 23);
    assert("process_id"@.len() == 10);
    assert("window_handle"@.len() == 13);
    assert("native_window_bounds"@.len() == 20);
    assert("capture_generation"@.len() == 18);
    assert("window_dpi"@.len() == 10);
    assert("fallback"@.len() == 8);
    assert("pid"@.len() == 3);
    assert("window_id"@.len() == 9);
    assert("degraded"@[0] != "fallback"@[0]);
    assert("process_id"@[0] != "window_dpi"@[0]);
}

/// A provenance is completed with whether accessibility came with the picture;
/// whatever else it tells stays.
pub proof fn law_completed_provenance_tells_the_accessibility(
    members: Map<Seq<char>, JsonTree>,
    accessibility: JsonTree,
    key: Seq<char>,
)
    ensures
        ({
            let told = JsonTree::Object(completed_provenance(members, accessibility));
            let came = accessibility.bool_at("accessibility_available"@) == Some(true);
            &&& told.bool_at("accessibility_available"@) == Some(came)
            &&& came ==> told.text_at("accessibility_backend"@) == Some("windows_uia"@)
            &&& key != "accessibility_available"@ && key != "accessibility_backend"@ ==> told.get(
                key,
            ) == JsonTree::Object(members).get(key)
        }),
{
    reveal_strlit("accessibility_available");
    reveal_strlit("accessibility_backend");
    assert("accessibility_available"@.len() == 23);
    assert("accessibility_backend"@.len() == 21);
}

} // verus!
