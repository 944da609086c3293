//! Fresh observations of a session's window: what is captured, when it may be
//! published, and what it is bound to.

use crate::contracts::{ComputerUseObservation, ComputerUseScreenshot};
use crate::driver::{structured_state, ToolReply};
use crate::errors::{ComputerUseError, ComputerUseErrorCode, ComputerUseResult};
#[allow(unused_imports)]
use crate::errors::fails_with;
use crate::json::{put_member, Json, JsonMember};
#[allow(unused_imports)]
use crate::json::{object_tree, parsed_text, unsigned_tree, JsonTree};
use crate::media::decode_image_data;
#[allow(unused_imports)]
use crate::media::base64_decoded;
use crate::pixel_observation::{
    pixel_route_for_accessibility_failure, pixel_route_for_uia_tool_failure, PixelObservationRoute,
};
#[allow(unused_imports)]
use crate::pixel_observation::{route_after, route_after_tool};
use crate::session::{BannerActivity, ComputerUseSession, UpstreamSessionState};
#[allow(unused_imports)]
use crate::session::{is_refresh_failure, is_usable_target};
use crate::session_tools::ToolAnswer;
use crate::steps::Step;
#[allow(unused_imports)]
use crate::steps::{refused_gate_stops, stops_plainly, stops_sensitively, unusable_target_stops};
use crate::text::{decimal_text, join3};
#[allow(unused_imports)]
use crate::text::decimal;
use crate::window_capture::{state_arguments, SnapshotBounds};
#[allow(unused_imports)]
use crate::window_capture::state_tree;
use crate::window_target::WindowTarget;
use vstd::prelude::*;
use vstd::string::*;

verus! {

/// The identifier of an observation: the session's, and a number that is used
/// once.
pub open spec fn observation_name(session_id: Seq<char>, serial: u64) -> Seq<char> {
    session_id + "-"@ + decimal(serial as nat)
}

/// What an observation is made of.
pub struct ObservationView {
    pub observation_id: Seq<char>,
    pub window_handle: u64,
    pub process_id: u32,
    pub window_title: Seq<char>,
    pub width: u32,
    pub height: u32,
    pub source_rect: [i32; 4],
    pub capture_backend: Seq<char>,
    pub capture_provenance: JsonTree,
    pub session_id: Seq<char>,
}

impl ComputerUseObservation {
    pub open spec fn view(&self) -> ObservationView {
        ObservationView {
            observation_id: self.observation_id@,
            window_handle: self.window_handle,
            process_id: self.process_id,
            window_title: self.window_title@,
            width: self.width,
            height: self.height,
            source_rect: self.source_rect,
            capture_backend: self.capture_backend@,
            capture_provenance: self.capture_provenance.view(),
            session_id: self.session_id@,
        }
    }

    pub fn duplicate(&self) -> (r: ComputerUseObservation)
        ensures
            r.view() == self.view(),
    {
        ComputerUseObservation {
            observation_id: self.observation_id.clone(),
            window_handle: self.window_handle,
            process_id: self.process_id,
            window_title: self.window_title.clone(),
            width: self.width,
            height: self.height,
            source_rect: self.source_rect,
            capture_backend: self.capture_backend.clone(),
            capture_provenance: self.capture_provenance.clone(),
            session_id: self.session_id.clone(),
        }
    }
}

/// The observation of a window in a session.
pub open spec fn observation_of(
    session_id: Seq<char>,
    serial: u64,
    target: WindowTarget,
    size: (u32, u32),
    backend: Seq<char>,
    provenance: JsonTree,
) -> ObservationView {
    ObservationView {
        observation_id: observation_name(session_id, serial),
        window_handle: target.window_id,
        process_id: target.pid,
        window_title: target.title@,
        width: size.0,
        height: size.1,
        source_rect: target.bounds,
        capture_backend: backend,
        capture_provenance: provenance,
        session_id,
    }
}

pub fn new_observation(
    session_id: &str,
    serial: u64,
    target: &WindowTarget,
    size: (u32, u32),
    backend: &str,
    provenance: Json,
) -> (r: ComputerUseObservation)
    ensures
        r.view() == observation_of(
            session_id@,
            serial,
            *target,
            size,
            backend@,
            provenance.view(),
        ),
{
    let digits = decimal_text(serial);
    ComputerUseObservation {
        observation_id: join3(session_id, "-", digits.as_str()),
        window_handle: target.window_id,
        process_id: target.pid,
        window_title: target.title.clone(),
        width: size.0,
        height: size.1,
        source_rect: target.bounds,
        capture_backend: backend.to_owned(),
        capture_provenance: provenance,
        session_id: session_id.to_owned(),
    }
}

/// The session bound to a fresh observation, and the screenshot that shows it.
pub open spec fn is_published(
    before: ComputerUseSession,
    target: WindowTarget,
    observation: ObservationView,
    activity: BannerActivity,
    after: ComputerUseSession,
    shown: ComputerUseObservation,
) -> bool {
    &&& shown.view() == observation
    &&& after.observation matches Some(kept)
    &&& kept.view() == observation
    &&& after == (ComputerUseSession {
        target: Some(target),
        observation: after.observation,
        ..before
    }).showing(activity)
}

impl ComputerUseSession {
    pub fn publish(
        &mut self,
        target: WindowTarget,
        observation: &ComputerUseObservation,
        activity: BannerActivity,
    )
        ensures
            is_published(
                *old(self),
                target,
                observation.view(),
                activity,
                *final(self),
                *observation,
            ),
    {
        self.target = Some(target);
        self.observation = Some(observation.duplicate());
        self.set_banner_activity(activity);
    }
}

/// How a capture through the driver goes on or ends.
#[derive(Debug)]
pub enum ScreenshotOutcome {
    Captured(ComputerUseScreenshot),
    /// The running feed has the newest frame.
    UseFeed,
    /// The window's pixels, without accessibility.
    UsePixels { target: WindowTarget, route: PixelObservationRoute },
    /// The approved visual fallback.
    UseVisual { target: WindowTarget, bounds: SnapshotBounds },
}

/// Where a capture through the driver is in its course.
#[derive(Debug, Clone, Copy, PartialEq, Eq, Structural)]
pub enum ScreenshotPhase {
    RefreshGate,
    Refresh,
    Target,
    Gate,
    Capture,
    GateAfter,
    TargetAfter,
    Measure,
    /// Whether the driver's accessibility tree has what the policy needs.
    Tiers,
    /// The platform's own accessibility tree.
    Accessibility,
    PublishGate,
    PublishTarget,
}

/// A capture through the driver.
#[derive(Debug)]
pub struct ScreenshotRun {
    pub phase: ScreenshotPhase,
    pub answer: Option<ToolAnswer>,
    /// Why there is no answer.
    pub failure: Option<ComputerUseError>,
    /// The window that was seen last.
    pub target: Option<WindowTarget>,
    pub bounds: SnapshotBounds,
    pub data: Vec<u8>,
    pub size: (u32, u32),
    pub accessibility: Json,
}

/// What a capture asks for.
#[derive(Debug, Clone, Copy, PartialEq, Eq, Structural)]
pub enum ScreenshotRequest {
    CheckInput,
    RefreshUpstream,
    ResolveTarget,
    CheckObservation,
    CaptureWindowState,
    MeasureImage,
    CheckTiers,
    ReadAccessibility,
    /// The window, and the number of the observation.
    ResolvePublication,
}

/// What the host hands back.
#[derive(Debug)]
pub enum ScreenshotReply {
    Gate(ComputerUseResult<()>),
    Refreshed(ComputerUseResult<()>),
    Target(ComputerUseResult<WindowTarget>),
    Captured(ComputerUseResult<ToolAnswer>),
    /// The size of the image, where it is one.
    Measured(Option<(u32, u32)>),
    Tiers(bool),
    Accessibility(ComputerUseResult<Json>),
    Publication { resolved: ComputerUseResult<WindowTarget>, serial: u64 },
}

pub type ScreenshotStep = Step<ScreenshotRun, ScreenshotOutcome>;

impl ScreenshotRun {
    pub open spec fn at(self, phase: ScreenshotPhase) -> ScreenshotRun {
        ScreenshotRun { phase, ..self }
    }

    /// The run holds what its phase needs.
    pub open spec fn well_formed(self) -> bool {
        match self.phase {
            ScreenshotPhase::Gate | ScreenshotPhase::Capture => self.target is Some,
            ScreenshotPhase::GateAfter => self.answer is Some,
            ScreenshotPhase::TargetAfter => self.answer is Some || self.failure is Some,
            ScreenshotPhase::Measure | ScreenshotPhase::Tiers | ScreenshotPhase::Accessibility
            | ScreenshotPhase::PublishGate | ScreenshotPhase::PublishTarget => {
                self.target is Some
            },
            _ => true,
        }
    }

    pub open spec fn asks(self) -> ScreenshotRequest {
        match self.phase {
            ScreenshotPhase::RefreshGate => ScreenshotRequest::CheckInput,
            ScreenshotPhase::Refresh => ScreenshotRequest::RefreshUpstream,
            ScreenshotPhase::Target => ScreenshotRequest::ResolveTarget,
            ScreenshotPhase::Gate => ScreenshotRequest::CheckObservation,
            ScreenshotPhase::Capture => ScreenshotRequest::CaptureWindowState,
            ScreenshotPhase::GateAfter => ScreenshotRequest::CheckObservation,
            ScreenshotPhase::TargetAfter => ScreenshotRequest::ResolveTarget,
            ScreenshotPhase::Measure => ScreenshotRequest::MeasureImage,
            ScreenshotPhase::Tiers => ScreenshotRequest::CheckTiers,
            ScreenshotPhase::Accessibility => ScreenshotRequest::ReadAccessibility,
            ScreenshotPhase::PublishGate => ScreenshotRequest::CheckObservation,
            ScreenshotPhase::PublishTarget => ScreenshotRequest::ResolvePublication,
        }
    }

    pub fn request(&self) -> (r: ScreenshotRequest)
        ensures
            r == self.asks(),
    {
        match self.phase {
            ScreenshotPhase::RefreshGate => ScreenshotRequest::CheckInput,
            ScreenshotPhase::Refresh => ScreenshotRequest::RefreshUpstream,
            ScreenshotPhase::Target => ScreenshotRequest::ResolveTarget,
            ScreenshotPhase::Gate => ScreenshotRequest::CheckObservation,
            ScreenshotPhase::Capture => ScreenshotRequest::CaptureWindowState,
            ScreenshotPhase::GateAfter => ScreenshotRequest::CheckObservation,
            ScreenshotPhase::TargetAfter => ScreenshotRequest::ResolveTarget,
            ScreenshotPhase::Measure => ScreenshotRequest::MeasureImage,
            ScreenshotPhase::Tiers => ScreenshotRequest::CheckTiers,
            ScreenshotPhase::Accessibility => ScreenshotRequest::ReadAccessibility,
            ScreenshotPhase::PublishGate => ScreenshotRequest::CheckObservation,
            ScreenshotPhase::PublishTarget => ScreenshotRequest::ResolvePublication,
        }
    }

    fn goes(self, phase: ScreenshotPhase) -> (r: ScreenshotStep)
        ensures
            r == ScreenshotStep::Continue(self.at(phase)),
    {
        let mut run = self;
        run.phase = phase;
        Step::Continue(run)
    }
}

impl ScreenshotRun {
    /// What the banner shows while the run waits for its answer.
    pub open spec fn shows_activity(self) -> Option<BannerActivity> {
        Some(BannerActivity::Observing)
    }

    /// What the banner shows while the run waits for its answer.
    pub fn activity(&self) -> (r: Option<BannerActivity>)
        ensures
            r == self.shows_activity(),
    {
        Some(BannerActivity::Observing)
    }
}

/// Where a capture goes once the upstream session is current: to the feed,
/// where one runs.
pub open spec fn current_step(
    run: ScreenshotRun,
    session: ComputerUseSession,
    step: ScreenshotStep,
) -> bool {
    if session.live is Some {
        step == ScreenshotStep::Done(Ok(ScreenshotOutcome::UseFeed))
    } else {
        step == ScreenshotStep::Continue(run.at(ScreenshotPhase::Target))
    }
}

/// The first look at the window decides the route.
pub open spec fn routed_step(
    run: ScreenshotRun,
    before: ComputerUseSession,
    target: WindowTarget,
    after: ComputerUseSession,
    step: ScreenshotStep,
) -> bool {
    if before.native_windows && before.pixel_route is Some {
        after == before && step == ScreenshotStep::Done(
            Ok(ScreenshotOutcome::UsePixels { target, route: before.pixel_route->0 }),
        )
    } else if before.native_windows && before.upstream is VisualOnly {
        leaves_for_pixels(
            before,
            target,
            PixelObservationRoute::AccessibilityTimeoutDegraded,
            after,
            step,
        )
    } else if before.native_windows && before.windows_uia {
        after == before && step == ScreenshotStep::Done(
            Ok(ScreenshotOutcome::UseVisual { target, bounds: run.bounds }),
        )
    } else {
        after == before && step == ScreenshotStep::Continue(
            ScreenshotRun { target: Some(target), ..run }.at(ScreenshotPhase::Gate),
        )
    }
}

/// The session stays on pixels from here on.
pub open spec fn leaves_for_pixels(
    before: ComputerUseSession,
    target: WindowTarget,
    route: PixelObservationRoute,
    after: ComputerUseSession,
    step: ScreenshotStep,
) -> bool {
    &&& after == (ComputerUseSession { pixel_route: Some(route), ..before })
    &&& step == ScreenshotStep::Done(Ok(ScreenshotOutcome::UsePixels { target, route }))
}

/// Accessibility failed in a way that leaves pixels.
pub open spec fn degraded_step(
    before: ComputerUseSession,
    target: WindowTarget,
    bounds: SnapshotBounds,
    route: PixelObservationRoute,
    after: ComputerUseSession,
    step: ScreenshotStep,
) -> bool {
    if before.native_windows {
        leaves_for_pixels(before, target, route, after, step)
    } else {
        after == before && step == ScreenshotStep::Done(
            Ok(ScreenshotOutcome::UseVisual { target, bounds }),
        )
    }
}

/// The image of an accepted answer, or why there is none.
pub open spec fn image_step(
    run: ScreenshotRun,
    target: WindowTarget,
    reply: ToolReply,
    step: ScreenshotStep,
) -> bool {
    if reply.images@.len() == 0 {
        stops_plainly(
            step,
            ComputerUseErrorCode::CaptureFailed,
            "CUA window state returned no screenshot"@,
        )
    } else {
        match base64_decoded(reply.images@[0].data_base64@) {
            Err(message) => stops_plainly(step, ComputerUseErrorCode::CaptureFailed, message),
            Ok(bytes) => {
                &&& step matches Step::Continue(next)
                &&& next.data@ == bytes
                &&& next.accessibility.view() == accessibility_of(reply)
                &&& next == (ScreenshotRun {
                    answer: None,
                    failure: None,
                    target: Some(target),
                    data: next.data,
                    accessibility: next.accessibility,
                    ..run
                }).at(ScreenshotPhase::Measure)
            },
        }
    }
}

/// The accessibility tree of a reply; nothing is known where it has none.
pub open spec fn accessibility_of(reply: ToolReply) -> JsonTree {
    match reply.structured_json {
        Some(text) => match parsed_text(text@) {
            Ok(tree) => tree,
            Err(_) => JsonTree::Object(Map::empty()),
        },
        None => JsonTree::Object(Map::empty()),
    }
}

/// The window after the capture: the answer is used, or degrades.
pub open spec fn captured_step(
    run: ScreenshotRun,
    before: ComputerUseSession,
    target: WindowTarget,
    after: ComputerUseSession,
    step: ScreenshotStep,
) -> bool {
    match run.answer {
        None => match route_after(run.failure->0) {
            Some(route) => degraded_step(before, target, run.bounds, route, after, step),
            None => stops_sensitively(before, run.failure->0, after, step),
        },
        Some(answer) => match route_after_tool(answer.reply) {
            Some(route) => degraded_step(before, target, run.bounds, route, after, step),
            None => match answer.accepted {
                Err(error) => stops_sensitively(before, error, after, step),
                Ok(()) => after == before && image_step(run, target, answer.reply, step),
            },
        },
    }
}

/// What the platform's own accessibility tree gave.
pub open spec fn accessibility_step(
    run: ScreenshotRun,
    before: ComputerUseSession,
    read: ComputerUseResult<Json>,
    after: ComputerUseSession,
    step: ScreenshotStep,
) -> bool {
    match read {
        Ok(accessibility) => {
            &&& after == (ComputerUseSession { windows_uia: true, ..before })
            &&& step == ScreenshotStep::Continue(
                ScreenshotRun { accessibility, ..run }.at(ScreenshotPhase::PublishGate),
            )
        },
        Err(error) => {
            let without = ComputerUseSession { windows_uia: false, ..before };
            match route_after(error) {
                Some(route) => leaves_for_pixels(without, run.target->0, route, after, step),
                None => after == without && step == ScreenshotStep::Continue(
                    run.at(ScreenshotPhase::PublishGate),
                ),
            }
        },
    }
}

/// Where the pixels of a capture through the driver came from.
pub open spec fn driver_provenance(accessibility: JsonTree, target: WindowTarget) -> JsonTree {
    JsonTree::Object(
        Map::<Seq<char>, JsonTree>::empty().insert(
            "backend"@,
            JsonTree::Text("cua-driver-sdk"@),
        ).insert("pixels_captured"@, JsonTree::Bool(true)).insert(
            "scope"@,
            JsonTree::Text("window"@),
        ).insert(
            "accessibility_available"@,
            JsonTree::Bool(accessibility.array_at("elements"@) is Some),
        ).insert(
            "accessibility_backend"@,
            match accessibility.text_at("backend"@) {
                Some(backend) => JsonTree::Text(backend),
                None => JsonTree::Text("cua-driver-sdk"@),
            },
        ).insert("process_id"@, unsigned_tree(target.pid as u64)).insert(
            "window_handle"@,
            unsigned_tree(target.window_id),
        ),
    )
}

fn driver_provenance_json(accessibility: &Json, target: &WindowTarget) -> (r: Json)
    ensures
        r.view() == driver_provenance(accessibility.view(), *target),
{
    let elements = match accessibility.get("elements") {
        Some(elements) => elements.as_array().is_some(),
        None => false,
    };
    let backend = match accessibility.text_at("backend") {
        Some(backend) => Json::text(backend),
        None => Json::text("cua-driver-sdk"),
    };
    let mut members: Vec<JsonMember> = Vec::new();
    put_member(&mut members, "backend", Json::text("cua-driver-sdk"));
    put_member(&mut members, "pixels_captured", Json::Bool(true));
    put_member(&mut members, "scope", Json::text("window"));
    put_member(&mut members, "accessibility_available", Json::Bool(elements));
    put_member(&mut members, "accessibility_backend", backend);
    put_member(&mut members, "process_id", Json::unsigned(target.pid as u64));
    put_member(&mut members, "window_handle", Json::unsigned(target.window_id));
    Json::Object(members)
}

/// The window that is about to be published: still the captured one.
pub open spec fn publication_stops<Run, Report>(
    before: ComputerUseSession,
    resolved: ComputerUseResult<WindowTarget>,
    expected: WindowTarget,
    after: ComputerUseSession,
    step: Step<Run, Report>,
) -> bool {
    &&& unusable_target_stops(before, resolved, after, step)
    &&& is_usable_target(before, resolved) && !resolved->Ok_0.same_window(expected) ==> after
        == before.after_failure(ComputerUseErrorCode::TargetUnavailable) && stops_plainly(
        step,
        ComputerUseErrorCode::TargetUnavailable,
        "the exact target identity changed before observation publication"@,
    )
}

/// The window may be published.
pub open spec fn is_publishable(
    before: ComputerUseSession,
    resolved: ComputerUseResult<WindowTarget>,
    expected: WindowTarget,
) -> bool {
    is_usable_target(before, resolved) && resolved->Ok_0.same_window(expected)
}

/// The capture through the driver is published.
pub open spec fn publication_step(
    run: ScreenshotRun,
    before: ComputerUseSession,
    resolved: ComputerUseResult<WindowTarget>,
    serial: u64,
    after: ComputerUseSession,
    step: ScreenshotStep,
) -> bool {
    &&& publication_stops(before, resolved, run.target->0, after, step)
    &&& is_publishable(before, resolved, run.target->0) ==> {
        &&& step matches Step::Done(Ok(ScreenshotOutcome::Captured(screenshot)))
        &&& screenshot.data == run.data
        &&& screenshot.accessibility == run.accessibility
        &&& is_published(
            before,
            resolved->Ok_0,
            observation_of(
                before.session_id@,
                serial,
                resolved->Ok_0,
                run.size,
                "cua-driver-sdk"@,
                driver_provenance(run.accessibility.view(), resolved->Ok_0),
            ),
            BannerActivity::Ready,
            after,
            screenshot.observation,
        )
    }
}

/// A failure of the capture is kept until the window was looked at again.
pub open spec fn capture_failed(
    run: ScreenshotRun,
    before: ComputerUseSession,
    error: ComputerUseError,
    after: ComputerUseSession,
    step: ScreenshotStep,
) -> bool {
    after == before.after_failure(error.code) && step == ScreenshotStep::Continue(
        ScreenshotRun { answer: None, failure: Some(error), ..run }.at(
            ScreenshotPhase::TargetAfter,
        ),
    )
}

/// One step of a capture through the driver.
pub open spec fn screenshot_step(
    run: ScreenshotRun,
    before: ComputerUseSession,
    now_ms: u64,
    reply: ScreenshotReply,
    after: ComputerUseSession,
    step: ScreenshotStep,
) -> bool {
    match (run.phase, reply) {
        (ScreenshotPhase::RefreshGate, ScreenshotReply::Gate(gate)) => match gate {
            Ok(()) => after == before && step == ScreenshotStep::Continue(
                run.at(ScreenshotPhase::Refresh),
            ),
            Err(cause) => {
                &&& after == before.after_failure(cause.code).without_evidence()
                &&& step matches Step::Done(Err(error))
                &&& is_refresh_failure(cause, error)
            },
        },
        (ScreenshotPhase::Refresh, ScreenshotReply::Refreshed(result)) => match result {
            Ok(()) => after == before.refreshed(now_ms) && current_step(run, after, step),
            Err(cause) => {
                &&& after == before.without_evidence()
                &&& step matches Step::Done(Err(error))
                &&& is_refresh_failure(cause, error)
            },
        },
        (ScreenshotPhase::Target, ScreenshotReply::Target(resolved)) => {
            &&& unusable_target_stops(before, resolved, after, step)
            &&& is_usable_target(before, resolved) ==> routed_step(
                run,
                before,
                resolved->Ok_0,
                after,
                step,
            )
        },
        (ScreenshotPhase::Gate, ScreenshotReply::Gate(gate)) => match gate {
            Ok(()) => after == before && step == ScreenshotStep::Continue(
                run.at(ScreenshotPhase::Capture),
            ),
            Err(error) => capture_failed(run, before, error, after, step),
        },
        (ScreenshotPhase::Capture, ScreenshotReply::Captured(captured)) => match captured {
            Ok(answer) => after == before && step == ScreenshotStep::Continue(
                ScreenshotRun { answer: Some(answer), ..run }.at(ScreenshotPhase::GateAfter),
            ),
            Err(error) => capture_failed(run, before, error, after, step),
        },
        (ScreenshotPhase::GateAfter, ScreenshotReply::Gate(gate)) => match gate {
            Ok(()) => after == before && step == ScreenshotStep::Continue(
                run.at(ScreenshotPhase::TargetAfter),
            ),
            Err(error) => capture_failed(run, before, error, after, step),
        },
        (ScreenshotPhase::TargetAfter, ScreenshotReply::Target(resolved)) => {
            &&& unusable_target_stops(before, resolved, after, step)
            &&& is_usable_target(before, resolved) ==> captured_step(
                run,
                before,
                resolved->Ok_0,
                after,
                step,
            )
        },
        (ScreenshotPhase::Measure, ScreenshotReply::Measured(size)) => match size {
            None => after == before && stops_plainly(
                step,
                ComputerUseErrorCode::CaptureFailed,
                "CUA returned a non-PNG or truncated screenshot"@,
            ),
            Some(size) => after == before && step == ScreenshotStep::Continue(
                ScreenshotRun { size, ..run }.at(
                    if before.native_windows {
                        ScreenshotPhase::Tiers
                    } else {
                        ScreenshotPhase::PublishGate
                    },
                ),
            ),
        },
        (ScreenshotPhase::Tiers, ScreenshotReply::Tiers(closed)) => after == before && step
            == ScreenshotStep::Continue(
            run.at(
                if closed {
                    ScreenshotPhase::PublishGate
                } else {
                    ScreenshotPhase::Accessibility
                },
            ),
        ),
        (ScreenshotPhase::Accessibility, ScreenshotReply::Accessibility(read)) => {
            accessibility_step(run, before, read, after, step)
        },
        (ScreenshotPhase::PublishGate, ScreenshotReply::Gate(gate)) => {
            &&& refused_gate_stops(before, gate, after, step)
            &&& gate is Ok ==> after == before && step == ScreenshotStep::Continue(
                run.at(ScreenshotPhase::PublishTarget),
            )
        },
        (ScreenshotPhase::PublishTarget, ScreenshotReply::Publication { resolved, serial }) => {
            publication_step(run, before, resolved, serial, after, step)
        },
        _ => after == before && step == ScreenshotStep::Continue(run),
    }
}

/// An observation begins with what the session needs first.
pub open spec fn screenshot_begins(session: ComputerUseSession, now_ms: u64, bounds: SnapshotBounds, r: ComputerUseResult<ScreenshotStep>) -> bool {
    &&& if !session.active {
        fails_with(
            r,
            ComputerUseErrorCode::BackendUnavailable,
            "Computer Use session is not active"@,
        )
    } else {
        &&& r matches Ok(step)
        &&& if session.refresh_needed(now_ms) {
            &&& step matches Step::Continue(run)
            &&& run.phase == ScreenshotPhase::RefreshGate
        } else if session.live is Some {
            step == ScreenshotStep::Done(Ok(ScreenshotOutcome::UseFeed))
        } else {
            &&& step matches Step::Continue(run)
            &&& run.phase == ScreenshotPhase::Target
        }
    }
    &&& r matches Ok(Step::Continue(run)) ==> run.well_formed() && run.bounds == bounds
        && run.target is None && run.answer is None && run.failure is None
}

impl ComputerUseSession {
    /// Begins a capture through the driver, with as much of the window's
    /// accessibility tree as the bounds allow.
    pub fn begin_screenshot(&self, now_ms: u64, bounds: SnapshotBounds) -> (r: ComputerUseResult<
        ScreenshotStep,
    >)
        ensures
            screenshot_begins(*self, now_ms, bounds, r),
    {
        match self.ensure_active() {
            Ok(()) => {},
            Err(error) => return Err(error),
        }
        let run = ScreenshotRun {
            phase: ScreenshotPhase::RefreshGate,
            answer: None,
            failure: None,
            target: None,
            bounds,
            data: Vec::new(),
            size: (0, 0),
            accessibility: Json::Null,
        };
        if self.upstream_refresh_needed(now_ms) {
            return Ok(Step::Continue(run));
        }
        Ok(run.when_current(self))
    }
}

/// The arguments that a window is captured by.
pub open spec fn capture_is_asked(run: ScreenshotRun, session_id: Seq<char>, r: Option<Json>) -> bool {
    match run.target {
        Some(target) => r matches Some(arguments) && arguments.view() == state_tree(
            target.pid,
            target.window_id,
            true,
            run.bounds,
            session_id,
        ),
        None => r is None,
    }
}

impl ScreenshotRun {
    /// What the driver is asked: the pixels and the bounded tree of the window
    /// that was seen. There is nothing to ask before it was.
    pub fn capture_arguments(&self, session_id: &str) -> (r: Option<Json>)
        ensures
            capture_is_asked(*self, session_id@, r),
    {
        match &self.target {
            Some(target) => Some(
                state_arguments(target.pid, target.window_id, true, self.bounds, session_id),
            ),
            None => None,
        }
    }

    fn when_current(self, session: &ComputerUseSession) -> (r: ScreenshotStep)
        ensures
            current_step(self, *session, r),
    {
        if session.live.is_some() {
            return Step::Done(Ok(ScreenshotOutcome::UseFeed));
        }
        self.goes(ScreenshotPhase::Target)
    }

    fn route(self, session: &mut ComputerUseSession, target: WindowTarget) -> (r: ScreenshotStep)
        ensures
            routed_step(self, *old(session), target, *final(session), r),
            r matches Step::Continue(next) ==> next.well_formed(),
    {
        if session.native_windows {
            if let Some(route) = session.pixel_route {
                return Step::Done(Ok(ScreenshotOutcome::UsePixels { target, route }));
            }
            let visual_only = match &session.upstream {
                UpstreamSessionState::VisualOnly { .. } => true,
                _ => false,
            };
            if visual_only {
                let route = PixelObservationRoute::AccessibilityTimeoutDegraded;
                session.pixel_route = Some(route);
                return Step::Done(Ok(ScreenshotOutcome::UsePixels { target, route }));
            }
            if session.windows_uia {
                return Step::Done(
                    Ok(ScreenshotOutcome::UseVisual { target, bounds: self.bounds }),
                );
            }
        }
        let mut run = self;
        run.target = Some(target);
        run.goes(ScreenshotPhase::Gate)
    }

    fn failed(self, session: &mut ComputerUseSession, error: ComputerUseError) -> (r:
        ScreenshotStep)
        ensures
            capture_failed(self, *old(session), error, *final(session), r),
    {
        let failed: ComputerUseResult<()> = session.finish_observation_sensitive_attempt(
            Err(error),
        );
        let mut run = self;
        run.answer = None;
        run.failure = match failed {
            Ok(()) => None,
            Err(error) => Some(error),
        };
        run.goes(ScreenshotPhase::TargetAfter)
    }

    fn degrade(
        session: &mut ComputerUseSession,
        target: WindowTarget,
        bounds: SnapshotBounds,
        route: PixelObservationRoute,
    ) -> (r: ScreenshotStep)
        ensures
            degraded_step(*old(session), target, bounds, route, *final(session), r),
            r is Done,
    {
        if session.native_windows {
            session.pixel_route = Some(route);
            return Step::Done(Ok(ScreenshotOutcome::UsePixels { target, route }));
        }
        Step::Done(Ok(ScreenshotOutcome::UseVisual { target, bounds }))
    }

    fn take_image(self, target: WindowTarget, reply: &ToolReply) -> (r: ScreenshotStep)
        ensures
            image_step(self, target, *reply, r),
            r matches Step::Continue(next) ==> next.well_formed(),
    {
        if reply.images.len() == 0 {
            return Step::Done(
                Err(
                    ComputerUseError::new(
                        ComputerUseErrorCode::CaptureFailed,
                        "CUA window state returned no screenshot",
                    ),
                ),
            );
        }
        let data = match decode_image_data(reply.images[0].data_base64.as_str()) {
            Ok(data) => data,
            Err(error) => return Step::Done(Err(error)),
        };
        let accessibility = structured_or_empty(reply);
        let mut run = self;
        run.answer = None;
        run.failure = None;
        run.target = Some(target);
        run.data = data;
        run.accessibility = accessibility;
        run.goes(ScreenshotPhase::Measure)
    }

    fn on_captured(self, session: &mut ComputerUseSession, target: WindowTarget) -> (r:
        ScreenshotStep)
        requires
            self.answer is Some || self.failure is Some,
        ensures
            captured_step(self, *old(session), target, *final(session), r),
            r matches Step::Continue(next) ==> next.well_formed(),
    {
        let mut run = self;
        match run.answer {
            None => {
                let error = run.failure.unwrap();
                if let Some(route) = pixel_route_for_accessibility_failure(&error) {
                    return Self::degrade(session, target, run.bounds, route);
                }
                let failed: ComputerUseResult<ScreenshotOutcome> =
                    session.finish_observation_sensitive_attempt(Err(error));
                Step::Done(failed)
            },
            Some(answer) => {
                run.answer = None;
                if let Some(route) = pixel_route_for_uia_tool_failure(&answer.reply) {
                    return Self::degrade(session, target, run.bounds, route);
                }
                match session.finish_observation_sensitive_attempt(answer.accepted) {
                    Ok(()) => run.take_image(target, &answer.reply),
                    Err(error) => Step::Done(Err(error)),
                }
            },
        }
    }

    fn on_accessibility(self, session: &mut ComputerUseSession, read: ComputerUseResult<Json>) -> (r:
        ScreenshotStep)
        requires
            self.target is Some,
        ensures
            accessibility_step(self, *old(session), read, *final(session), r),
            r matches Step::Continue(next) ==> next.phase == ScreenshotPhase::PublishGate
                && next.target is Some,
    {
        match read {
            Ok(accessibility) => {
                session.windows_uia = true;
                let mut run = self;
                run.accessibility = accessibility;
                run.goes(ScreenshotPhase::PublishGate)
            },
            Err(error) => {
                session.windows_uia = false;
                if let Some(route) = pixel_route_for_accessibility_failure(&error) {
                    session.pixel_route = Some(route);
                    return Step::Done(
                        Ok(ScreenshotOutcome::UsePixels { target: self.target.unwrap(), route }),
                    );
                }
                self.goes(ScreenshotPhase::PublishGate)
            },
        }
    }

    fn on_publication(
        self,
        session: &mut ComputerUseSession,
        resolved: ComputerUseResult<WindowTarget>,
        serial: u64,
    ) -> (r: ScreenshotStep)
        requires
            self.target is Some,
        ensures
            publication_step(self, *old(session), resolved, serial, *final(session), r),
            r is Done,
    {
        let expected = self.target.unwrap();
        let target = match session.revalidate_observed_exact_publication_target(
            Ok(()),
            resolved,
            &expected,
        ) {
            Ok(target) => target,
            Err(error) => return Step::Done(Err(error)),
        };
        let provenance = driver_provenance_json(&self.accessibility, &target);
        let observation = new_observation(
            session.session_id.as_str(),
            serial,
            &target,
            self.size,
            "cua-driver-sdk",
            provenance,
        );
        session.publish(target, &observation, BannerActivity::Ready);
        Step::Done(
            Ok(
                ScreenshotOutcome::Captured(
                    ComputerUseScreenshot {
                        data: self.data,
                        observation,
                        accessibility: self.accessibility,
                    },
                ),
            ),
        )
    }

    fn advance_capture(
        self,
        session: &mut ComputerUseSession,
        now_ms: u64,
        reply: ScreenshotReply,
    ) -> (r: ScreenshotStep)
        requires
            self.well_formed(),
        ensures
            self.phase == ScreenshotPhase::RefreshGate || self.phase == ScreenshotPhase::Refresh
                || self.phase == ScreenshotPhase::Target || self.phase == ScreenshotPhase::Gate
                || self.phase == ScreenshotPhase::Capture || self.phase
                == ScreenshotPhase::GateAfter ==> screenshot_step(
                self,
                *old(session),
                now_ms,
                reply,
                *final(session),
                r,
            ),
            r matches Step::Continue(next) ==> next.well_formed(),
    {
        match (self.phase, reply) {
            (ScreenshotPhase::RefreshGate, ScreenshotReply::Gate(gate)) => {
                match session.gate_upstream_refresh(gate) {
                    Ok(()) => self.goes(ScreenshotPhase::Refresh),
                    Err(error) => Step::Done(Err(error)),
                }
            },
            (ScreenshotPhase::Refresh, ScreenshotReply::Refreshed(result)) => {
                match session.finish_upstream_refresh(result, now_ms) {
                    Ok(()) => self.when_current(session),
                    Err(error) => Step::Done(Err(error)),
                }
            },
            (ScreenshotPhase::Target, ScreenshotReply::Target(resolved)) => {
                match session.require_observed_target_available(resolved) {
                    Ok(target) => self.route(session, target),
                    Err(error) => Step::Done(Err(error)),
                }
            },
            (ScreenshotPhase::Gate, ScreenshotReply::Gate(gate)) => match gate {
                Ok(()) => self.goes(ScreenshotPhase::Capture),
                Err(error) => self.failed(session, error),
            },
            (ScreenshotPhase::Capture, ScreenshotReply::Captured(captured)) => match captured {
                Ok(answer) => {
                    let mut run = self;
                    run.answer = Some(answer);
                    run.goes(ScreenshotPhase::GateAfter)
                },
                Err(error) => self.failed(session, error),
            },
            (ScreenshotPhase::GateAfter, ScreenshotReply::Gate(gate)) => match gate {
                Ok(()) => self.goes(ScreenshotPhase::TargetAfter),
                Err(error) => self.failed(session, error),
            },
            _ => Step::Continue(self),
        }
    }

    fn advance_publication(
        self,
        session: &mut ComputerUseSession,
        now_ms: u64,
        reply: ScreenshotReply,
    ) -> (r: ScreenshotStep)
        requires
            self.well_formed(),
        ensures
            self.phase == ScreenshotPhase::TargetAfter || self.phase == ScreenshotPhase::Measure
                || self.phase == ScreenshotPhase::Tiers || self.phase
                == ScreenshotPhase::Accessibility || self.phase == ScreenshotPhase::PublishGate
                || self.phase == ScreenshotPhase::PublishTarget ==> screenshot_step(
                self,
                *old(session),
                now_ms,
                reply,
                *final(session),
                r,
            ),
            r matches Step::Continue(next) ==> next.well_formed(),
    {
        match (self.phase, reply) {
            (ScreenshotPhase::TargetAfter, ScreenshotReply::Target(resolved)) => {
                match session.require_observed_target_available(resolved) {
                    Ok(target) => self.on_captured(session, target),
                    Err(error) => Step::Done(Err(error)),
                }
            },
            (ScreenshotPhase::Measure, ScreenshotReply::Measured(size)) => match size {
                Some(size) => {
                    let mut run = self;
                    run.size = size;
                    if session.native_windows {
                        run.goes(ScreenshotPhase::Tiers)
                    } else {
                        run.goes(ScreenshotPhase::PublishGate)
                    }
                },
                None => Step::Done(
                    Err(
                        ComputerUseError::new(
                            ComputerUseErrorCode::CaptureFailed,
                            "CUA returned a non-PNG or truncated screenshot",
                        ),
                    ),
                ),
            },
            (ScreenshotPhase::Tiers, ScreenshotReply::Tiers(closed)) => {
                if closed {
                    self.goes(ScreenshotPhase::PublishGate)
                } else {
                    self.goes(ScreenshotPhase::Accessibility)
                }
            },
            (ScreenshotPhase::Accessibility, ScreenshotReply::Accessibility(read)) => {
                self.on_accessibility(session, read)
            },
            (ScreenshotPhase::PublishGate, ScreenshotReply::Gate(gate)) => {
                match session.finish_observation_sensitive_attempt(gate) {
                    Ok(()) => self.goes(ScreenshotPhase::PublishTarget),
                    Err(error) => Step::Done(Err(error)),
                }
            },
            (ScreenshotPhase::PublishTarget, ScreenshotReply::Publication { resolved, serial }) => {
                self.on_publication(session, resolved, serial)
            },
            _ => Step::Continue(self),
        }
    }

    /// Takes the answer to the run's request in. An answer to some other
    /// request changes nothing.
    pub fn advance(self, session: &mut ComputerUseSession, now_ms: u64, reply: ScreenshotReply) -> (r:
        ScreenshotStep)
        requires
            self.well_formed(),
        ensures
            screenshot_step(self, *old(session), now_ms, reply, *final(session), r),
            r matches Step::Continue(next) ==> next.well_formed(),
    {
        match self.phase {
            ScreenshotPhase::RefreshGate | ScreenshotPhase::Refresh | ScreenshotPhase::Target
            | ScreenshotPhase::Gate | ScreenshotPhase::Capture | ScreenshotPhase::GateAfter => {
                self.advance_capture(session, now_ms, reply)
            },
            _ => self.advance_publication(session, now_ms, reply),
        }
    }
}

pub fn structured_or_empty(reply: &ToolReply) -> (r: Json)
    ensures
        r.view() == accessibility_of(*reply),
{
    let parsed = match &reply.structured_json {
        Some(text) => structured_state(Some(text.as_str())),
        None => None,
    };
    match parsed {
        Some(tree) => tree,
        None => {
            let members: Vec<JsonMember> = Vec::new();
            assert(object_tree(members@) =~= Map::empty());
            Json::Object(members)
        },
    }
}

/// The driver is asked for a picture of the very window that was seen to be
/// usable, and for no more of its tree than the caller allowed.
pub proof fn law_captures_ask_for_the_usable_window(
    run: ScreenshotRun,
    before: ComputerUseSession,
    now_ms: u64,
    reply: ScreenshotReply,
    after: ComputerUseSession,
    next: ScreenshotRun,
)
    requires
        run.well_formed(),
        screenshot_step(run, before, now_ms, reply, after, ScreenshotStep::Continue(next)),
    ensures
        next.bounds == run.bounds,
        run.phase != ScreenshotPhase::Gate && next.phase == ScreenshotPhase::Gate ==> (
        next.target matches Some(target) && is_usable_target(before, Ok(target))),
        run.phase == ScreenshotPhase::Gate && next.phase == ScreenshotPhase::Capture ==> next.target
            == run.target && next.target is Some,
{
}

/// An observation that is published names its session and its number, shows the
/// window as it was found, at the size of its picture, with the given provenance;
/// the session keeps the same one, is bound to that window, and is else as it was.
pub proof fn law_observations_show_what_was_found(
    before: ComputerUseSession,
    session_id: Seq<char>,
    serial: u64,
    target: WindowTarget,
    size: (u32, u32),
    backend: Seq<char>,
    provenance: JsonTree,
    activity: BannerActivity,
    after: ComputerUseSession,
    shown: ComputerUseObservation,
)
    requires
        is_published(
            before,
            target,
            observation_of(session_id, serial, target, size, backend, provenance),
            activity,
            after,
            shown,
        ),
    ensures
        shown.observation_id@ == session_id + "-"@ + decimal(serial as nat),
        shown.session_id@ == session_id,
        shown.window_handle == target.window_id,
        shown.process_id == target.pid,
        shown.window_title@ == target.title@,
        shown.source_rect == target.bounds,
        shown.width == size.0,
        shown.height == size.1,
        shown.capture_backend@ == backend,
        shown.capture_provenance.view() == provenance,
        after.target == Some(target),
        after.observation matches Some(kept) && kept.observation_id@ == shown.observation_id@
            && kept.window_handle == shown.window_handle && kept.process_id == shown.process_id
            && kept.width == shown.width && kept.height == shown.height && kept.source_rect
            == shown.source_rect && kept.capture_provenance.view()
            == shown.capture_provenance.view() && kept.session_id@ == shown.session_id@,
        after.action_evidence_epoch == before.action_evidence_epoch,
        after.active == before.active,
        after.live == before.live,
        after.banner is Some == before.banner is Some,
        after.banner matches Some(banner) ==> banner.activity == activity && banner.recording
            == before.banner->0.recording && banner.live_observation
            == before.banner->0.live_observation,
{
}

/// A copy of an observation is the same in every field.
pub proof fn law_copied_observations_keep_every_field(
    a: ComputerUseObservation,
    b: ComputerUseObservation,
)
    requires
        a.view() == b.view(),
    ensures
        a.observation_id@ == b.observation_id@,
        a.session_id@ == b.session_id@,
        a.window_handle == b.window_handle,
        a.process_id == b.process_id,
        a.window_title@ == b.window_title@,
        a.width == b.width,
        a.height == b.height,
        a.source_rect == b.source_rect,
        a.capture_backend@ == b.capture_backend@,
        a.capture_provenance.view() == b.capture_provenance.view(),
{
}

/// An observation begins in an active session: with a refresh where the evidence
/// has aged, else by the feed where one runs, else with the window.
pub proof fn law_observations_begin_with_what_is_needed(
    session: ComputerUseSession,
    now_ms: u64,
    bounds: SnapshotBounds,
    r: ComputerUseResult<ScreenshotStep>,
)
    requires
        screenshot_begins(session, now_ms, bounds, r),
    ensures
        r is Ok <==> session.active,
        r matches Ok(Step::Continue(run)) ==> run.bounds == bounds && (run.asks()
            == ScreenshotRequest::CheckInput <==> session.refresh_needed(now_ms)) && (run.asks()
            == ScreenshotRequest::ResolveTarget <==> !session.refresh_needed(now_ms)),
        session.active && !session.refresh_needed(now_ms) && session.live is Some ==> r == Ok::<
            ScreenshotStep,
            ComputerUseError,
        >(ScreenshotStep::Done(Ok(ScreenshotOutcome::UseFeed))),
        (r matches Ok(Step::Done(_))) ==> session.live is Some && !session.refresh_needed(now_ms),
{
}

/// A window is captured by its identity, with a picture, within the bounds given.
pub proof fn law_captures_ask_for_a_picture(
    run: ScreenshotRun,
    session_id: Seq<char>,
    r: Option<Json>,
)
    requires
        capture_is_asked(run, session_id, r),
    ensures
        r is Some <==> run.target is Some,
        r matches Some(asked) ==> {
            &&& asked.view().u64_at("pid"@) == Some(run.target->0.pid as u64)
            &&& asked.view().u64_at("window_id"@) == Some(run.target->0.window_id)
            &&& asked.view().bool_at("include_screenshot"@) == Some(true)
            &&& asked.view().u64_at("max_elements"@) == Some(run.bounds.max_elements as u64)
            &&& asked.view().u64_at("max_depth"@) == Some(run.bounds.max_depth as u64)
            &&& asked.view().text_at("session"@) == Some(session_id)
        },
{
    reveal_strlit("pid");
    reveal_strlit("window_id");
    reveal_strlit("include_screenshot");
    reveal_strlit("max_elements");
    reveal_strlit("max_depth");
    reveal_strlit("session");
    assert("pid"@.len() == 3);
    assert("window_id"@.len() == 9);
    assert("include_screenshot"@.len() == 18);
    assert("max_elements"@.len() == 12);
    assert("max_depth"@.len() == 9);
    assert("session"@.len() == 7);
    assert("window_id"@[0] != "max_depth"@[0]);
}

/// What the host handed back on the way is what an observation goes on with: the
/// driver's answer and its first picture, the picture's size, and what was read of
/// the window's accessibility.
pub proof fn law_observations_keep_what_was_handed_back(
    run: ScreenshotRun,
    before: ComputerUseSession,
    now_ms: u64,
    reply: ScreenshotReply,
    after: ComputerUseSession,
    next: ScreenshotRun,
)
    requires
        run.well_formed(),
        screenshot_step(run, before, now_ms, reply, after, ScreenshotStep::Continue(next)),
    ensures
        next.bounds == run.bounds,
        run.phase == ScreenshotPhase::Target && next.phase != run.phase ==> (
        reply matches ScreenshotReply::Target(Ok(target)) && is_usable_target(before, Ok(target))
            && next.target == Some(target)),
        run.phase == ScreenshotPhase::Capture && (reply matches ScreenshotReply::Captured(Ok(_)))
            ==> next.answer == Some(reply->Captured_0->Ok_0) && next.phase
            == ScreenshotPhase::GateAfter,
        run.phase == ScreenshotPhase::Capture && (reply matches ScreenshotReply::Captured(Err(_)))
            ==> next.failure == Some(reply->Captured_0->Err_0) && next.answer is None,
        (run.phase == ScreenshotPhase::Gate || run.phase == ScreenshotPhase::GateAfter) && (
        reply matches ScreenshotReply::Gate(Err(_))) ==> next.failure == Some(reply->Gate_0->Err_0)
            && next.answer is None && next.phase == ScreenshotPhase::TargetAfter,
        run.phase == ScreenshotPhase::GateAfter && (reply matches ScreenshotReply::Gate(Ok(_)))
            ==> next.answer == run.answer,
        run.phase == ScreenshotPhase::TargetAfter && next.phase != run.phase ==> {
            &&& run.answer is Some
            &&& run.answer->0.accepted is Ok
            &&& run.answer->0.reply.images@.len() > 0
            &&& base64_decoded(run.answer->0.reply.images@[0].data_base64@) == Ok::<
                Seq<u8>,
                Seq<char>,
            >(next.data@)
            &&& next.accessibility.view() == accessibility_of(run.answer->0.reply)
            &&& reply is Target
            &&& is_usable_target(before, reply->Target_0)
            &&& next.target == Some(reply->Target_0->Ok_0)
        },
        run.phase == ScreenshotPhase::Measure && (reply matches ScreenshotReply::Measured(Some(_)))
            ==> next.size == reply->Measured_0->0,
        run.phase == ScreenshotPhase::Accessibility && (
        reply matches ScreenshotReply::Accessibility(Ok(_))) ==> next.accessibility
            == reply->Accessibility_0->Ok_0 && after.windows_uia,
        run.phase == ScreenshotPhase::Accessibility && (
        reply matches ScreenshotReply::Accessibility(Err(_))) ==> next.accessibility
            == run.accessibility && !after.windows_uia,
        run.phase == ScreenshotPhase::Measure || run.phase == ScreenshotPhase::Tiers || run.phase
            == ScreenshotPhase::Accessibility || run.phase == ScreenshotPhase::PublishGate
            ==> next.data == run.data && next.target == run.target,
        run.phase == ScreenshotPhase::Tiers || run.phase == ScreenshotPhase::Accessibility
            || run.phase == ScreenshotPhase::PublishGate ==> next.size == run.size,
        run.phase == ScreenshotPhase::Tiers || run.phase == ScreenshotPhase::PublishGate
            || run.phase == ScreenshotPhase::Measure ==> next.accessibility == run.accessibility,
        next.phase == ScreenshotPhase::Capture && next.phase != run.phase ==> (
        reply matches ScreenshotReply::Gate(Ok(_))),
        next.phase == ScreenshotPhase::PublishTarget && next.phase != run.phase ==> (
        reply matches ScreenshotReply::Gate(Ok(_))) && run.phase == ScreenshotPhase::PublishGate,
        next.phase == ScreenshotPhase::Accessibility && next.phase != run.phase ==> reply
            == ScreenshotReply::Tiers(false) && after == before,
{
}

/// A captured observation shows the picture and the accessibility that were kept,
/// at the size that was measured, of the window that was found usable once more and
/// is still the same.
pub proof fn law_captured_observations_show_what_was_kept(
    run: ScreenshotRun,
    before: ComputerUseSession,
    now_ms: u64,
    reply: ScreenshotReply,
    after: ComputerUseSession,
    screenshot: ComputerUseScreenshot,
)
    requires
        run.well_formed(),
        screenshot_step(
            run,
            before,
            now_ms,
            reply,
            after,
            ScreenshotStep::Done(Ok(ScreenshotOutcome::Captured(screenshot))),
        ),
    ensures
        run.phase == ScreenshotPhase::PublishTarget,
        reply is Publication,
        ({
            let target = reply->Publication_resolved->Ok_0;
            let provenance = screenshot.observation.capture_provenance.view();
            &&& is_usable_target(before, reply->Publication_resolved)
            &&& target.pid == run.target->0.pid
            &&& target.window_id == run.target->0.window_id
            &&& screenshot.data == run.data
            &&& screenshot.accessibility == run.accessibility
            &&& screenshot.observation.width == run.size.0
            &&& screenshot.observation.height == run.size.1
            &&& screenshot.observation.window_handle == target.window_id
            &&& screenshot.observation.process_id == target.pid
            &&& screenshot.observation.source_rect == target.bounds
            &&& screenshot.observation.window_title@ == target.title@
            &&& screenshot.observation.session_id@ == before.session_id@
            &&& screenshot.observation.observation_id@ == before.session_id@ + "-"@ + decimal(
                reply->Publication_serial as nat,
            )
            &&& screenshot.observation.capture_backend@ == "cua-driver-sdk"@
            &&& provenance.text_at("backend"@) == Some("cua-driver-sdk"@)
            &&& provenance.bool_at("pixels_captured"@) == Some(true)
            &&& provenance.text_at("scope"@) == Some("window"@)
            &&& provenance.bool_at("accessibility_available"@) == Some(
                run.accessibility.view().array_at("elements"@) is Some,
            )
            &&& provenance.text_at("accessibility_backend"@) == Some(
                match run.accessibility.view().text_at("backend"@) {
                    Some(backend) => backend,
                    None => "cua-driver-sdk"@,
                },
            )
            &&& provenance.u64_at("process_id"@) == Some(target.pid as u64)
            &&& provenance.u64_at("window_handle"@) == Some(target.window_id)
            &&& after.target == Some(target)
            &&& after.observation is Some
            &&& after.observation->0.observation_id@ == screenshot.observation.observation_id@
            &&& after.observation->0.window_handle == target.window_id
            &&& after.observation->0.width == run.size.0
            &&& after.observation->0.height == run.size.1
        }),
{
    reveal_strlit("backend");
    reveal_strlit("pixels_captured");
    reveal_strlit("scope");
    reveal_strlit("accessibility_available");
    reveal_strlit("accessibility_backend");
    reveal_strlit("process_id");
    reveal_strlit("window_handle");
    assert("backend"@.len() == 7);
    assert("pixels_captured"@.len() == 15);
    assert("scope"@.len() == 5);
    assert("accessibility_available"@.len() == 23);
    assert("accessibility_backend"@.len() == 21);
    assert("process_id"@.len() == 10);
    assert("window_handle"@.len() == 13);
}

/// An observation is left to the pixels, or to the picture alone, of the window
/// that was found usable, and the session remembers the route; a feed takes it over
/// only where one runs.
pub proof fn law_observations_are_left_with_their_window(
    run: ScreenshotRun,
    before: ComputerUseSession,
    now_ms: u64,
    reply: ScreenshotReply,
    after: ComputerUseSession,
    outcome: ScreenshotOutcome,
)
    requires
        run.well_formed(),
        screenshot_step(run, before, now_ms, reply, after, ScreenshotStep::Done(Ok(outcome))),
    ensures
        outcome is UseFeed ==> before.live is Some && run.phase == ScreenshotPhase::Refresh && (
        reply matches ScreenshotReply::Refreshed(Ok(_))),
        outcome matches ScreenshotOutcome::UsePixels { target, route } ==> {
            &&& after.pixel_route == Some(route)
            &&& run.phase != ScreenshotPhase::Accessibility ==> before.native_windows
            &&& (reply matches ScreenshotReply::Target(Ok(found)) && found == target
                && is_usable_target(before, Ok(found))) || (run.phase
                == ScreenshotPhase::Accessibility && Some(target) == run.target)
            &&& after.observation == before.observation
            &&& after.active == before.active
        },
        outcome matches ScreenshotOutcome::UseVisual { target, bounds } ==> {
            &&& bounds == run.bounds
            &&& reply == ScreenshotReply::Target(Ok(target))
            &&& is_usable_target(before, Ok(target))
            &&& after == before
        },
{
}

/// What an observation fails by is its error: a refused gate, a refresh or a
/// capture that failed, an answer that reports failure, or a picture that cannot be
/// read.
pub proof fn law_observations_fail_by_what_failed(
    run: ScreenshotRun,
    before: ComputerUseSession,
    now_ms: u64,
    reply: ScreenshotReply,
    after: ComputerUseSession,
    step: ScreenshotStep,
)
    requires
        run.well_formed(),
        screenshot_step(run, before, now_ms, reply, after, step),
    ensures
        run.phase == ScreenshotPhase::RefreshGate && (reply matches ScreenshotReply::Gate(Err(_)))
            ==> (step matches Step::Done(Err(error)) && error.message@
            == reply->Gate_0->Err_0.message@) && after.observation is None,
        run.phase == ScreenshotPhase::Refresh && (reply matches ScreenshotReply::Refreshed(Err(_)))
            ==> (step matches Step::Done(Err(error)) && error.message@
            == reply->Refreshed_0->Err_0.message@) && after.observation is None,
        run.phase == ScreenshotPhase::PublishGate && (reply matches ScreenshotReply::Gate(Err(_)))
            ==> step == ScreenshotStep::Done(Err(reply->Gate_0->Err_0)),
        run.phase == ScreenshotPhase::Measure && reply == ScreenshotReply::Measured(None) ==> (
        step matches Step::Done(Err(error)) && error.code == ComputerUseErrorCode::CaptureFailed),
        (run.phase == ScreenshotPhase::Target || run.phase == ScreenshotPhase::TargetAfter)
            && reply is Target && !is_usable_target(before, reply->Target_0) ==> (
        step matches Step::Done(Err(_))),
        run.phase == ScreenshotPhase::PublishTarget && reply is Publication && !is_usable_target(
            before,
            reply->Publication_resolved,
        ) ==> (step matches Step::Done(Err(_))),
        run.phase == ScreenshotPhase::PublishTarget && reply is Publication && is_usable_target(
            before,
            reply->Publication_resolved,
        ) && !(reply->Publication_resolved->Ok_0.pid == run.target->0.pid
            && reply->Publication_resolved->Ok_0.window_id == run.target->0.window_id) ==> (
        step matches Step::Done(Err(error)) && error.code
            == ComputerUseErrorCode::TargetUnavailable),
{
}

/// The accessibility of an answer is its structured text, read as JSON, or empty.
pub proof fn law_structured_answers_are_read(reply: ToolReply, tree: JsonTree)
    ensures
        (reply.structured_json matches Some(text) && parsed_text(text@) == Ok::<
            JsonTree,
            Seq<char>,
        >(tree)) ==> accessibility_of(reply) == tree,
        reply.structured_json is None ==> accessibility_of(reply) == JsonTree::Object(Map::empty()),
{
}

} // verus!
