//! The start, the end, and the status of a session, and its latest-frame feed.

use crate::contracts::{ComputerUseLiveObservationStartRequest, ComputerUseMarker};
use crate::errors::{ComputerUseError, ComputerUseErrorCode, ComputerUseResult};
#[allow(unused_imports)]
use crate::errors::{fails_with, refuses};
use crate::json::{put_member, Json, JsonMember};
#[allow(unused_imports)]
use crate::json::{optional_tree, JsonTree};
use crate::pixel_observation::PixelObservationRoute;
use crate::session::{
    BannerActivity, BannerState, ComputerUseSession, LiveLink, UpstreamSessionState,
};
#[allow(unused_imports)]
use crate::session::{is_target_failure, is_usable_target};
use crate::steps::Step;
#[allow(unused_imports)]
use crate::steps::{refused_gate_stops, stops};
use crate::text::{text_contains, text_eq};
#[allow(unused_imports)]
use crate::text::occurs_in;
use crate::window_target::WindowTarget;
use vstd::prelude::*;

verus! {

/// The failure of the driver's session start lets the session run on pixels
/// alone: it did not come back in time.
pub open spec fn degrades_to_pixels(error: ComputerUseError) -> bool {
    error.code == ComputerUseErrorCode::InputFailed && occurs_in(error.message@, "timed out"@)
}

/// Why the session runs on pixels alone after the driver did not start one.
pub fn visual_only_start_degradation(error: &ComputerUseError) -> (r: Option<String>)
    ensures
        match r {
            Some(reason) => degrades_to_pixels(*error) && reason@ == error.message@,
            None => !degrades_to_pixels(*error),
        },
{
    if error.code == ComputerUseErrorCode::InputFailed && text_contains(
        error.message.as_str(),
        "timed out",
    ) {
        Some(error.message.clone())
    } else {
        None
    }
}

/// What came of the driver's own session start: a session that runs, one that
/// runs on pixels alone, or a failure that changes nothing.
pub open spec fn upstream_start_ends(
    before: ComputerUseSession,
    result: ComputerUseResult<()>,
    now_ms: u64,
    after: ComputerUseSession,
    r: ComputerUseResult<()>,
) -> bool {
    match result {
        Ok(()) => r is Ok && after == (ComputerUseSession {
            upstream: UpstreamSessionState::Active,
            last_refresh_ms: Some(now_ms),
            ..before
        }),
        Err(cause) => if before.native_windows && degrades_to_pixels(cause) {
            &&& r is Ok
            &&& after.upstream matches UpstreamSessionState::VisualOnly { reason }
            &&& reason@ == cause.message@
            &&& after == (ComputerUseSession {
                upstream: after.upstream,
                last_refresh_ms: None,
                ..before
            })
        } else {
            after == before && r == result
        },
    }
}

/// A session that does not run may start.
pub open spec fn start_begins(before: ComputerUseSession, validation: ComputerUseResult<()>, after: ComputerUseSession, r: ComputerUseResult<()>) -> bool {
    if before.active {
        after == before && fails_with(
            r,
            ComputerUseErrorCode::InvalidAction,
            "window session is already active"@,
        )
    } else {
        &&& after == (ComputerUseSession { pixel_route: None, ..before })
        &&& r == validation
    }
}

/// A session starts for pixels alone.
pub open spec fn pixels_only_starts(before: ComputerUseSession, validation: ComputerUseResult<()>, resolved: ComputerUseResult<WindowTarget>, after: ComputerUseSession, r: ComputerUseResult<WindowTarget>) -> bool {
    if !before.native_windows {
        after == before && fails_with(
            r,
            ComputerUseErrorCode::BackendUnavailable,
            "pixels-only exact native window capture is unavailable on this platform"@,
        )
    } else if before.active {
        after == before && fails_with(
            r,
            ComputerUseErrorCode::InvalidAction,
            "window session is already active"@,
        )
    } else if validation is Err {
        after == before && r == Err::<WindowTarget, ComputerUseError>(
            validation->Err_0,
        )
    } else if resolved is Err {
        after == before && r == resolved
    } else {
        &&& r == resolved
        &&& after.upstream matches UpstreamSessionState::VisualOnly { reason }
        &&& reason@
            == "explicit pixels-only observation; accessibility provider was not started"@
        &&& after == (ComputerUseSession {
            upstream: after.upstream,
            last_refresh_ms: None,
            pixel_route: Some(PixelObservationRoute::ExplicitPixelsOnly),
            ..before
        })
    }
}

/// The picture alone is approved for a usable window.
pub open spec fn escalates(before: ComputerUseSession, reason: Seq<char>, validation: ComputerUseResult<()>, resolved: ComputerUseResult<WindowTarget>, after: ComputerUseSession, r: ComputerUseResult<WindowTarget>) -> bool {
    if validation is Err {
        after == before && r == Err::<WindowTarget, ComputerUseError>(
            validation->Err_0,
        )
    } else if !before.active {
        after == before && fails_with(
            r,
            ComputerUseErrorCode::BackendUnavailable,
            "Computer Use session is not active"@,
        )
    } else if is_usable_target(before, resolved) {
        &&& r == resolved
        &&& after == (ComputerUseSession {
            escalated: true,
            uia_timeout_escalated: reason == "uia_timeout"@,
            windows_uia: before.windows_uia || before.native_windows,
            ..before
        })
    } else {
        &&& r matches Err(error)
        &&& is_target_failure(before, resolved, error)
        &&& after == before.after_failure(error.code)
    }
}

/// The end of a feed is shown.
pub open spec fn feed_end_is_noted(before: ComputerUseSession, feed_runs: bool, after: ComputerUseSession) -> bool {
    after == if before.live is Some && !feed_runs {
        before.live_shown(false)
    } else {
        before
    }
}

/// What is told of the banner.
pub open spec fn banner_tree(session: ComputerUseSession, running: JsonTree) -> JsonTree {
                if session.banner is Some {
        running
    } else {
        no_banner_tree()
    }
}

impl ComputerUseSession {
    /// The session, bound to its window.
    pub open spec fn started(self, target: WindowTarget, banner_running: bool) -> ComputerUseSession {
        ComputerUseSession {
            target: Some(target),
            active: true,
            marker: ComputerUseMarker { visible: true, ..self.marker },
            banner: if banner_running {
                Some(
                    BannerState {
                        activity: BannerActivity::Ready,
                        recording: false,
                        live_observation: false,
                    },
                )
            } else {
                None
            },
            ..self
        }
    }

    /// Checks that a start may begin. A session that runs is left as it is.
    pub fn begin_start(&mut self, validation: ComputerUseResult<()>) -> (r: ComputerUseResult<()>)
        ensures
            start_begins(*old(self), validation, *final(self), r),
    {
        if self.active {
            return Err(
                ComputerUseError::new(
                    ComputerUseErrorCode::InvalidAction,
                    "window session is already active",
                ),
            );
        }
        self.pixel_route = None;
        validation
    }

    /// What came of the driver's own session start.
    pub fn finish_upstream_start(&mut self, result: ComputerUseResult<()>, now_ms: u64) -> (r:
        ComputerUseResult<()>)
        ensures
            upstream_start_ends(*old(self), result, now_ms, *final(self), r),
    {
        match result {
            Ok(()) => {
                self.last_refresh_ms = Some(now_ms);
                self.upstream = UpstreamSessionState::Active;
                Ok(())
            },
            Err(error) => {
                if self.native_windows {
                    if let Some(reason) = visual_only_start_degradation(&error) {
                        self.last_refresh_ms = None;
                        self.upstream = UpstreamSessionState::VisualOnly { reason };
                        return Ok(());
                    }
                }
                Err(error)
            },
        }
    }

    /// Enters the provider-free route: pixels of the exact window, and no
    /// accessibility provider. The window was resolved for it.
    pub fn start_pixels_only(
        &mut self,
        validation: ComputerUseResult<()>,
        resolved: ComputerUseResult<WindowTarget>,
    ) -> (r: ComputerUseResult<WindowTarget>)
        ensures
            pixels_only_starts(*old(self), validation, resolved, *final(self), r),
    {
        if !self.native_windows {
            return Err(
                ComputerUseError::new(
                    ComputerUseErrorCode::BackendUnavailable,
                    "pixels-only exact native window capture is unavailable on this platform",
                ),
            );
        }
        if self.active {
            return Err(
                ComputerUseError::new(
                    ComputerUseErrorCode::InvalidAction,
                    "window session is already active",
                ),
            );
        }
        match validation {
            Ok(()) => {},
            Err(error) => return Err(error),
        }
        let target = match resolved {
            Ok(target) => target,
            Err(error) => return Err(error),
        };
        self.upstream = UpstreamSessionState::VisualOnly {
            reason: "explicit pixels-only observation; accessibility provider was not started".to_owned(),
        };
        self.last_refresh_ms = None;
        self.pixel_route = Some(PixelObservationRoute::ExplicitPixelsOnly);
        Ok(target)
    }

    /// Binds a started session to its window.
    pub fn finish_started_session(&mut self, target: WindowTarget, banner_running: bool)
        ensures
            *final(self) == old(self).started(target, banner_running),
    {
        self.target = Some(target);
        self.active = true;
        self.marker.visible = true;
        self.banner = if banner_running {
            Some(
                BannerState {
                    activity: BannerActivity::Ready,
                    recording: false,
                    live_observation: false,
                },
            )
        } else {
            None
        };
    }

    /// A session that still runs is not resumed.
    pub fn resume_after_user_approval(&self) -> (r: ComputerUseResult<()>)
        ensures
            r is Ok <==> !self.active,
            self.active ==> fails_with(
                r,
                ComputerUseErrorCode::InvalidAction,
                "stop the active session before resuming after user approval"@,
            ),
    {
        if self.active {
            return Err(
                ComputerUseError::new(
                    ComputerUseErrorCode::InvalidAction,
                    "stop the active session before resuming after user approval",
                ),
            );
        }
        Ok(())
    }

    /// Approves the pixel fallback for the session's window. On Windows the
    /// window's own accessibility stands in from then on.
    pub fn escalate(
        &mut self,
        reason: &str,
        validation: ComputerUseResult<()>,
        resolved: ComputerUseResult<WindowTarget>,
    ) -> (r: ComputerUseResult<WindowTarget>)
        ensures
            escalates(*old(self), reason@, validation, resolved, *final(self), r),
    {
        match validation {
            Ok(()) => {},
            Err(error) => return Err(error),
        }
        match self.ensure_active() {
            Ok(()) => {},
            Err(error) => return Err(error),
        }
        match self.require_observed_target_available(resolved) {
            Ok(target) => {
                self.escalated = true;
                self.uia_timeout_escalated = text_eq(reason, "uia_timeout");
                if self.native_windows {
                    self.windows_uia = true;
                }
                Ok(target)
            },
            Err(error) => Err(error),
        }
    }

    /// The session without its latest-frame feed.
    pub open spec fn without_feed(self) -> ComputerUseSession {
        (ComputerUseSession {
            post_action_fence: None,
            transition_fence: None,
            live: None,
            ..self
        }).live_shown(false).showing(BannerActivity::Ready)
    }

    /// Lets go of the latest-frame feed.
    pub fn stop_live_observation(&mut self)
        ensures
            *final(self) == old(self).without_feed(),
    {
        self.post_action_fence = None;
        self.transition_fence = None;
        self.live = None;
        self.set_banner_live_observation(false);
        self.set_banner_activity(BannerActivity::Ready);
    }

    /// How the driver's own session stands.
    pub open spec fn upstream_tree(self) -> JsonTree {
        JsonTree::Object(
            match self.upstream {
                UpstreamSessionState::Inactive => Map::<Seq<char>, JsonTree>::empty().insert(
                    "state"@,
                    JsonTree::Text("inactive"@),
                ).insert("degraded"@, JsonTree::Bool(false)),
                UpstreamSessionState::Active => Map::<Seq<char>, JsonTree>::empty().insert(
                    "state"@,
                    JsonTree::Text("active"@),
                ).insert("degraded"@, JsonTree::Bool(false)),
                UpstreamSessionState::VisualOnly { reason } => Map::<
                    Seq<char>,
                    JsonTree,
                >::empty().insert("state"@, JsonTree::Text("visual_only"@)).insert(
                    "degraded"@,
                    JsonTree::Bool(true),
                ).insert("reason"@, JsonTree::Text(reason@)).insert(
                    "requires_explicit_escalation"@,
                    JsonTree::Bool(true),
                ).insert("scope"@, JsonTree::Text("exact_window"@)),
            },
        )
    }

    pub fn upstream_session_status(&self) -> (r: Json)
        ensures
            r.view() == self.upstream_tree(),
    {
        let mut members: Vec<JsonMember> = Vec::new();
        match &self.upstream {
            UpstreamSessionState::Inactive => {
                put_member(&mut members, "state", Json::text("inactive"));
                put_member(&mut members, "degraded", Json::Bool(false));
            },
            UpstreamSessionState::Active => {
                put_member(&mut members, "state", Json::text("active"));
                put_member(&mut members, "degraded", Json::Bool(false));
            },
            UpstreamSessionState::VisualOnly { reason } => {
                put_member(&mut members, "state", Json::text("visual_only"));
                put_member(&mut members, "degraded", Json::Bool(true));
                put_member(&mut members, "reason", Json::text(reason.as_str()));
                put_member(&mut members, "requires_explicit_escalation", Json::Bool(true));
                put_member(&mut members, "scope", Json::text("exact_window"));
            },
        }
        Json::Object(members)
    }

    /// What the session says of itself, with its window and its banner as
    /// their owners put them.
    pub open spec fn status_tree(self, target: JsonTree, banner: JsonTree) -> JsonTree {
        JsonTree::Object(
            Map::<Seq<char>, JsonTree>::empty().insert(
                "active"@,
                JsonTree::Bool(self.active),
            ).insert("escalated"@, JsonTree::Bool(self.escalated)).insert(
                "session_id"@,
                JsonTree::Text(self.session_id@),
            ).insert(
                "target"@,
                if self.target is Some {
                    target
                } else {
                    JsonTree::Null
                },
            ).insert("banner"@, banner).insert("marker"@, marker_tree(self.marker)).insert(
                "latest_observation_id"@,
                match self.observation {
                    Some(observation) => JsonTree::Text(observation.observation_id@),
                    None => JsonTree::Null,
                },
            ).insert("backend"@, JsonTree::Text("cua-driver-sdk"@)).insert(
                "upstream_session"@,
                self.upstream_tree(),
            ),
        )
    }

    /// Notes, before the banner is reported on, whether the feed still runs. The
    /// banner does not go on to show one that ended.
    pub fn note_feed_end(&mut self, feed_runs: bool)
        ensures
            feed_end_is_noted(*old(self), feed_runs, *final(self)),
    {
        if self.live.is_some() && !feed_runs {
            self.set_banner_live_observation(false);
        }
    }

    /// The banner's status: what the running banner says, or that none runs.
    pub fn banner_status(&self, running: Json) -> (r: Json)
        ensures
            r.view() == banner_tree(*self, running.view()),
    {
        if self.banner.is_some() {
            running
        } else {
            no_banner_json()
        }
    }

    pub fn status(&self, target: Json, banner: Json) -> (r: Json)
        ensures
            r.view() == self.status_tree(target.view(), banner.view()),
    {
        let mut members: Vec<JsonMember> = Vec::new();
        put_member(&mut members, "active", Json::Bool(self.active));
        put_member(&mut members, "escalated", Json::Bool(self.escalated));
        put_member(&mut members, "session_id", Json::text(self.session_id.as_str()));
        let shown = if self.target.is_some() {
            target
        } else {
            Json::Null
        };
        put_member(&mut members, "target", shown);
        put_member(&mut members, "banner", banner);
        put_member(&mut members, "marker", marker_json(&self.marker));
        let latest = match &self.observation {
            Some(observation) => Json::text(observation.observation_id.as_str()),
            None => Json::Null,
        };
        put_member(&mut members, "latest_observation_id", latest);
        put_member(&mut members, "backend", Json::text("cua-driver-sdk"));
        put_member(&mut members, "upstream_session", self.upstream_session_status());
        Json::Object(members)
    }

    /// The session's window, as it was last validated.
    pub fn target(&self) -> (r: Option<&WindowTarget>)
        ensures
            match r {
                Some(target) => self.target == Some(*target),
                None => self.target is None,
            },
    {
        self.target.as_ref()
    }
}

pub open spec fn marker_tree(marker: ComputerUseMarker) -> JsonTree {
    JsonTree::Object(
        Map::<Seq<char>, JsonTree>::empty().insert(
            "visible"@,
            JsonTree::Bool(marker.visible),
        ).insert("label"@, JsonTree::Text(marker.label@)).insert(
            "backend"@,
            JsonTree::Text(marker.backend@),
        ),
    )
}

pub fn marker_json(marker: &ComputerUseMarker) -> (r: Json)
    ensures
        r.view() == marker_tree(*marker),
{
    let mut members: Vec<JsonMember> = Vec::new();
    put_member(&mut members, "visible", Json::Bool(marker.visible));
    put_member(&mut members, "label", Json::text(marker.label.as_str()));
    put_member(&mut members, "backend", Json::text(marker.backend));
    Json::Object(members)
}

/// What is said of a banner that does not run.
pub open spec fn no_banner_tree() -> JsonTree {
    JsonTree::Object(
        Map::<Seq<char>, JsonTree>::empty().insert(
            "backend"@,
            JsonTree::Text("unavailable"@),
        ).insert("healthy"@, JsonTree::Bool(false)).insert(
            "running"@,
            JsonTree::Bool(false),
        ).insert("last_error"@, JsonTree::Text("control banner is not running"@)).insert(
            "failure"@,
            JsonTree::Object(
                Map::<Seq<char>, JsonTree>::empty().insert(
                    "kind"@,
                    JsonTree::Text("backend"@),
                ).insert("message"@, JsonTree::Text("control banner is not running"@)),
            ),
        ).insert("visible"@, JsonTree::Bool(false)).insert(
            "target_frame_visible"@,
            JsonTree::Bool(false),
        ).insert("interrupted"@, JsonTree::Bool(false)).insert(
            "stop_key"@,
            JsonTree::Text("Escape"@),
        ).insert("activity"@, JsonTree::Text("stopping"@)).insert(
            "activity_label"@,
            JsonTree::Text("Stopping…"@),
        ).insert("recording"@, JsonTree::Bool(false)).insert(
            "live_observation"@,
            JsonTree::Bool(false),
        ).insert("placement"@, JsonTree::Text("unavailable"@)),
    )
}

fn no_banner_json() -> (r: Json)
    ensures
        r.view() == no_banner_tree(),
{
    let mut failure: Vec<JsonMember> = Vec::new();
    put_member(&mut failure, "kind", Json::text("backend"));
    put_member(&mut failure, "message", Json::text("control banner is not running"));
    let mut members: Vec<JsonMember> = Vec::new();
    put_member(&mut members, "backend", Json::text("unavailable"));
    put_member(&mut members, "healthy", Json::Bool(false));
    put_member(&mut members, "running", Json::Bool(false));
    put_member(&mut members, "last_error", Json::text("control banner is not running"));
    put_member(&mut members, "failure", Json::Object(failure));
    put_member(&mut members, "visible", Json::Bool(false));
    put_member(&mut members, "target_frame_visible", Json::Bool(false));
    put_member(&mut members, "interrupted", Json::Bool(false));
    put_member(&mut members, "stop_key", Json::text("Escape"));
    put_member(&mut members, "activity", Json::text("stopping"));
    put_member(&mut members, "activity_label", Json::text("Stopping…"));
    put_member(&mut members, "recording", Json::Bool(false));
    put_member(&mut members, "live_observation", Json::Bool(false));
    put_member(&mut members, "placement", Json::text("unavailable"));
    Json::Object(members)
}

/// What went wrong with a banner.
#[derive(Debug, Clone, Copy, PartialEq, Eq, Structural)]
pub enum BannerFailureKind {
    TargetLost,
    Backend,
    Rendering,
}

/// The failure of a banner that ends a session.
pub open spec fn banner_failure(kind: BannerFailureKind, message: Seq<char>, r: Option<ComputerUseError>) -> bool {
    match kind {
        BannerFailureKind::TargetLost => r matches Some(error)
            && crate::errors::is_plain_error(
            error,
            ComputerUseErrorCode::InvalidTarget,
            message,
        ),
        BannerFailureKind::Backend => r matches Some(error) && crate::errors::is_plain_error(
            error,
            ComputerUseErrorCode::BackendUnavailable,
            message,
        ),
        BannerFailureKind::Rendering => r is None,
    }
}

/// The failure of a banner, as far as it concerns the session: one that only
/// draws badly does not.
pub fn control_banner_failure(kind: BannerFailureKind, message: &str) -> (r: Option<
    ComputerUseError,
>)
    ensures
        banner_failure(kind, message@, r),
{
    match kind {
        BannerFailureKind::TargetLost => Some(
            ComputerUseError::new(ComputerUseErrorCode::InvalidTarget, message),
        ),
        BannerFailureKind::Backend => Some(
            ComputerUseError::new(ComputerUseErrorCode::BackendUnavailable, message),
        ),
        BannerFailureKind::Rendering => None,
    }
}

/// Whether a feed that runs is kept, or a new one takes its place.
#[derive(Debug, Clone, Copy, PartialEq, Eq, Structural)]
pub enum LiveObservationStartDisposition {
    ReuseExisting,
    StartedNew,
}

/// A feed in this state goes on.
pub open spec fn feed_goes_on(state: Option<JsonTree>) -> bool {
    state matches Some(state) && state.bool_at("active"@) == Some(true) && (state.get(
        "terminal_reason"@,
    ) is None || state.get("terminal_reason"@) == Some(JsonTree::Null))
}

/// A feed that goes on is used again.
pub open spec fn feed_disposition(state: Option<JsonTree>, r: LiveObservationStartDisposition) -> bool {
    r == if feed_goes_on(state) {
        LiveObservationStartDisposition::ReuseExisting
    } else {
        LiveObservationStartDisposition::StartedNew
    }
}

pub fn live_observation_start_disposition(state: Option<&Json>) -> (r:
    LiveObservationStartDisposition)
    ensures
        feed_disposition(optional_tree(state), r),
{
    if let Some(state) = state {
        let active = match state.bool_at("active") {
            Some(active) => active,
            None => false,
        };
        let running = match state.get("terminal_reason") {
            Some(reason) => reason.is_null(),
            None => true,
        };
        if active && running {
            return LiveObservationStartDisposition::ReuseExisting;
        }
    }
    LiveObservationStartDisposition::StartedNew
}

/// Where the start of a feed is in its course.
#[derive(Debug, Clone, Copy, PartialEq, Eq, Structural)]
pub enum LiveStartPhase {
    Gate,
    Target,
    /// The old feed is being stopped.
    Replace,
    Start,
}

/// The start of a latest-frame feed.
#[derive(Debug)]
pub struct LiveStartRun {
    pub phase: LiveStartPhase,
    pub request: ComputerUseLiveObservationStartRequest,
    pub disposition: LiveObservationStartDisposition,
    pub target: Option<WindowTarget>,
}

/// What the start of a feed asks for.
#[derive(Debug, Clone, Copy, PartialEq, Eq, Structural)]
pub enum LiveStartRequest {
    CheckObservation,
    ResolveTarget,
    StopFeed,
    StartFeed,
}

/// What the host hands back.
#[derive(Debug)]
pub enum LiveStartReply {
    Gate(ComputerUseResult<()>),
    Target(ComputerUseResult<WindowTarget>),
    Stopped,
    Started(ComputerUseResult<LiveLink>),
}

pub type LiveStartStep = Step<LiveStartRun, LiveObservationStartDisposition>;

impl LiveStartRun {
    pub open spec fn at(self, phase: LiveStartPhase) -> LiveStartRun {
        LiveStartRun { phase, ..self }
    }

    pub open spec fn asks(self) -> LiveStartRequest {
        match self.phase {
            LiveStartPhase::Gate => LiveStartRequest::CheckObservation,
            LiveStartPhase::Target => LiveStartRequest::ResolveTarget,
            LiveStartPhase::Replace => LiveStartRequest::StopFeed,
            LiveStartPhase::Start => LiveStartRequest::StartFeed,
        }
    }

    pub fn request(&self) -> (r: LiveStartRequest)
        ensures
            r == self.asks(),
    {
        match self.phase {
            LiveStartPhase::Gate => LiveStartRequest::CheckObservation,
            LiveStartPhase::Target => LiveStartRequest::ResolveTarget,
            LiveStartPhase::Replace => LiveStartRequest::StopFeed,
            LiveStartPhase::Start => LiveStartRequest::StartFeed,
        }
    }

    fn goes(self, phase: LiveStartPhase) -> (r: LiveStartStep)
        ensures
            r == LiveStartStep::Continue(self.at(phase)),
    {
        let mut run = self;
        run.phase = phase;
        Step::Continue(run)
    }
}

impl LiveStartRun {
    /// What the banner shows while the run waits for its answer.
    pub open spec fn shows_activity(self) -> Option<BannerActivity> {
        if self.phase == LiveStartPhase::Start {
            Some(BannerActivity::Observing)
        } else {
            None
        }
    }

    /// What the banner shows while the run waits for its answer.
    pub fn activity(&self) -> (r: Option<BannerActivity>)
        ensures
            r == self.shows_activity(),
    {
        if self.phase == LiveStartPhase::Start {
            Some(BannerActivity::Observing)
        } else {
            None
        }
    }
}

/// The window of the feed was found.
pub open spec fn live_target_step(
    run: LiveStartRun,
    before: ComputerUseSession,
    resolved: ComputerUseResult<WindowTarget>,
    after: ComputerUseSession,
    step: LiveStartStep,
) -> bool {
    if !is_usable_target(before, resolved) {
        &&& step matches Step::Done(Err(error))
        &&& is_target_failure(before, resolved, error)
        &&& after == before.after_failure(error.code).after_failure(error.code)
    } else if run.disposition == LiveObservationStartDisposition::ReuseExisting {
        after == before.live_shown(true) && step == LiveStartStep::Done(Ok(run.disposition))
    } else {
        let bound = LiveStartRun { target: Some(resolved->Ok_0), ..run };
        if before.live is Some {
            after == (ComputerUseSession { live: None, ..before }) && step
                == LiveStartStep::Continue(bound.at(LiveStartPhase::Replace))
        } else {
            after == before.without_evidence() && step == LiveStartStep::Continue(
                bound.at(LiveStartPhase::Start),
            )
        }
    }
}

/// One step of the start of a feed.
pub open spec fn live_start_step(
    run: LiveStartRun,
    before: ComputerUseSession,
    reply: LiveStartReply,
    after: ComputerUseSession,
    step: LiveStartStep,
) -> bool {
    match (run.phase, reply) {
        (LiveStartPhase::Gate, LiveStartReply::Gate(gate)) => {
            &&& refused_gate_stops(before, gate, after, step)
            &&& gate is Ok ==> after == before && step == LiveStartStep::Continue(
                run.at(LiveStartPhase::Target),
            )
        },
        (LiveStartPhase::Target, LiveStartReply::Target(resolved)) => live_target_step(
            run,
            before,
            resolved,
            after,
            step,
        ),
        (LiveStartPhase::Replace, LiveStartReply::Stopped) => after == before.live_shown(
            false,
        ).without_evidence() && step == LiveStartStep::Continue(run.at(LiveStartPhase::Start)),
        (LiveStartPhase::Start, LiveStartReply::Started(started)) => match started {
            Err(error) => after == before && stops(step, error),
            Ok(link) => after == (ComputerUseSession { live: Some(link), ..before }).live_shown(
                true,
            ) && step == LiveStartStep::Done(Ok(run.disposition)),
        },
        _ => after == before && step == LiveStartStep::Continue(run),
    }
}

/// A feed begins as it was asked for.
pub open spec fn feed_begins(session: ComputerUseSession, request: ComputerUseLiveObservationStartRequest, existing: Option<JsonTree>, r: ComputerUseResult<LiveStartRun>) -> bool {
    if !session.active {
        fails_with(
            r,
            ComputerUseErrorCode::BackendUnavailable,
            "Computer Use session is not active"@,
        )
    } else if request.refusal() is Some {
        refuses(r, request.refusal())
    } else {
        r == Ok::<LiveStartRun, ComputerUseError>(
            LiveStartRun {
                phase: if session.native_windows {
                    LiveStartPhase::Gate
                } else {
                    LiveStartPhase::Target
                },
                request,
                disposition: if feed_goes_on(existing) {
                    LiveObservationStartDisposition::ReuseExisting
                } else {
                    LiveObservationStartDisposition::StartedNew
                },
                target: None,
            },
        )
    }
}

impl ComputerUseSession {
    /// Begins to start a feed. `existing` is the state of the feed that runs.
    pub fn begin_live_observation(
        &self,
        request: ComputerUseLiveObservationStartRequest,
        existing: Option<&Json>,
    ) -> (r: ComputerUseResult<LiveStartRun>)
        ensures
            feed_begins(*self, request, optional_tree(existing), r),
    {
        match self.ensure_active() {
            Ok(()) => {},
            Err(error) => return Err(error),
        }
        match request.validate() {
            Ok(()) => {},
            Err(error) => return Err(error),
        }
        let disposition = live_observation_start_disposition(existing);
        let phase = if self.native_windows {
            LiveStartPhase::Gate
        } else {
            LiveStartPhase::Target
        };
        Ok(LiveStartRun { phase, request, disposition, target: None })
    }
}

impl LiveStartRun {
    fn on_target(self, session: &mut ComputerUseSession, resolved: ComputerUseResult<WindowTarget>)
        -> (r: LiveStartStep)
        ensures
            live_target_step(self, *old(session), resolved, *final(session), r),
    {
        let found = session.require_observed_target_available(resolved);
        let target = match session.finish_observation_sensitive_attempt(found) {
            Ok(target) => target,
            Err(error) => return Step::Done(Err(error)),
        };
        if self.disposition == LiveObservationStartDisposition::ReuseExisting {
            session.set_banner_live_observation(true);
            return Step::Done(Ok(self.disposition));
        }
        let mut run = self;
        run.target = Some(target);
        if session.live.is_some() {
            session.live = None;
            return run.goes(LiveStartPhase::Replace);
        }
        session.begin_live_observation_replacement();
        run.goes(LiveStartPhase::Start)
    }

    /// Takes the answer to the run's request in. An answer to some other
    /// request changes nothing.
    pub fn advance(self, session: &mut ComputerUseSession, reply: LiveStartReply) -> (r:
        LiveStartStep)
        ensures
            live_start_step(self, *old(session), reply, *final(session), r),
    {
        match (self.phase, reply) {
            (LiveStartPhase::Gate, LiveStartReply::Gate(gate)) => {
                match session.finish_observation_sensitive_attempt(gate) {
                    Ok(()) => self.goes(LiveStartPhase::Target),
                    Err(error) => Step::Done(Err(error)),
                }
            },
            (LiveStartPhase::Target, LiveStartReply::Target(resolved)) => self.on_target(
                session,
                resolved,
            ),
            (LiveStartPhase::Replace, LiveStartReply::Stopped) => {
                session.set_banner_live_observation(false);
                session.begin_live_observation_replacement();
                self.goes(LiveStartPhase::Start)
            },
            (LiveStartPhase::Start, LiveStartReply::Started(started)) => match started {
                Ok(link) => {
                    session.live = Some(link);
                    session.set_banner_live_observation(true);
                    Step::Done(Ok(self.disposition))
                },
                Err(error) => Step::Done(Err(error)),
            },
            _ => Step::Continue(self),
        }
    }
}

/// What part of a cleanup went wrong.
#[derive(Debug, Clone, Copy, PartialEq, Eq, Structural)]
pub enum ComputerUseCleanupPhase {
    RecordingStop,
}

/// Something that went wrong while a session was cleaned up.
#[derive(Debug)]
pub struct ComputerUseCleanupIssue {
    pub phase: ComputerUseCleanupPhase,
    pub code: ComputerUseErrorCode,
    pub message: String,
}

impl ComputerUseCleanupIssue {
    pub fn from_error(phase: ComputerUseCleanupPhase, error: ComputerUseError) -> (r: Self)
        ensures
            r == (ComputerUseCleanupIssue { phase, code: error.code, message: error.message }),
    {
        ComputerUseCleanupIssue { phase, code: error.code, message: error.message }
    }
}

/// How a stopped session ended. It succeeded where nothing went wrong.
#[derive(Debug)]
pub struct ComputerUseSessionStopResult {
    pub success: bool,
    pub active: bool,
    pub cleanup_pending: bool,
    pub marker: ComputerUseMarker,
    pub cleanup_issues: Vec<ComputerUseCleanupIssue>,
}

/// The result of a stop that ran to its end.
pub open spec fn is_completed_stop(
    marker: ComputerUseMarker,
    issues: Seq<ComputerUseCleanupIssue>,
    r: ComputerUseSessionStopResult,
) -> bool {
    &&& r.success == (issues.len() == 0)
    &&& !r.active
    &&& !r.cleanup_pending
    &&& r.marker == marker
    &&& r.cleanup_issues@ == issues
}

impl ComputerUseSessionStopResult {
    pub fn completed(
        marker: ComputerUseMarker,
        cleanup_issues: Vec<ComputerUseCleanupIssue>,
    ) -> (r: Self)
        ensures
            is_completed_stop(marker, cleanup_issues@, r),
    {
        ComputerUseSessionStopResult {
            success: cleanup_issues.len() == 0,
            active: false,
            cleanup_pending: false,
            marker,
            cleanup_issues,
        }
    }
}

/// Where a stop is in its course.
#[derive(Debug, Clone, Copy, PartialEq, Eq, Structural)]
pub enum StopPhase {
    /// The recording is being stopped.
    Recording,
    /// The feed is being stopped.
    Live,
    /// The driver's session is being ended.
    End,
}

/// The stop of a session.
#[derive(Debug)]
pub struct StopRun {
    pub phase: StopPhase,
    pub issues: Vec<ComputerUseCleanupIssue>,
}

/// What the host hands back.
#[derive(Debug)]
pub enum StopReply {
    RecordingStopped(ComputerUseResult<()>),
    LiveStopped,
    Ended(ComputerUseResult<()>),
}

pub type StopStep = Step<StopRun, ComputerUseSessionStopResult>;

/// The feed is gone: the driver's session is ended where the session still
/// has a window there.
pub open spec fn live_stopped_step(
    run: StopRun,
    before: ComputerUseSession,
    after: ComputerUseSession,
    step: StopStep,
) -> bool {
    let quiet = before.without_feed();
    let stopping = quiet.showing(BannerActivity::Stopping);
    if before.active && before.target is Some && before.upstream is Active {
        after == stopping && step == StopStep::Continue(StopRun { phase: StopPhase::End, ..run })
    } else {
        &&& after == if before.active {
            stopping.ended()
        } else {
            quiet.ended()
        }
        &&& step matches Step::Done(Ok(result))
        &&& is_completed_stop(after.marker, run.issues@, result)
    }
}

/// One step of a stop.
pub open spec fn stop_step(
    run: StopRun,
    before: ComputerUseSession,
    reply: StopReply,
    after: ComputerUseSession,
    step: StopStep,
) -> bool {
    match (run.phase, reply) {
        (StopPhase::Recording, StopReply::RecordingStopped(result)) => {
            &&& after == before
            &&& step matches Step::Continue(next)
            &&& next.phase == StopPhase::Live
            &&& next.issues@ == match result {
                Ok(()) => run.issues@,
                Err(error) => run.issues@.push(
                    ComputerUseCleanupIssue {
                        phase: ComputerUseCleanupPhase::RecordingStop,
                        code: error.code,
                        message: error.message,
                    },
                ),
            }
        },
        (StopPhase::Live, StopReply::LiveStopped) => live_stopped_step(run, before, after, step),
        (StopPhase::End, StopReply::Ended(result)) => {
            &&& after == before.ended()
            &&& match result {
                Err(error) => stops(step, error),
                Ok(()) => step matches Step::Done(Ok(done)) && is_completed_stop(
                    after.marker,
                    run.issues@,
                    done,
                ),
            }
        },
        _ => after == before && step == StopStep::Continue(run),
    }
}

fn marker_copy(marker: &ComputerUseMarker) -> (r: ComputerUseMarker)
    ensures
        r == *marker,
{
    ComputerUseMarker {
        visible: marker.visible,
        label: marker.label.clone(),
        backend: marker.backend,
    }
}

/// A stop begins with the recording, where one runs.
pub open spec fn stop_begins(session: ComputerUseSession, r: StopRun) -> bool {
    &&& r.phase == if session.recording_active {
        StopPhase::Recording
    } else {
        StopPhase::Live
    }
    &&& r.issues@.len() == 0
}

impl ComputerUseSession {
    /// Begins to stop the session: its recording first, where one runs.
    pub fn begin_stop(&self) -> (r: StopRun)
        ensures
            stop_begins(*self, r),
    {
        StopRun {
            phase: if self.recording_active {
                StopPhase::Recording
            } else {
                StopPhase::Live
            },
            issues: Vec::new(),
        }
    }
}

impl StopRun {
    fn on_live_stopped(self, session: &mut ComputerUseSession) -> (r: StopStep)
        ensures
            live_stopped_step(self, *old(session), *final(session), r),
    {
        session.stop_live_observation();
        if session.active {
            session.set_banner_activity(BannerActivity::Stopping);
            let upstream = match &session.upstream {
                UpstreamSessionState::Active => true,
                _ => false,
            };
            if session.target.is_some() && upstream {
                return Step::Continue(StopRun { phase: StopPhase::End, issues: self.issues });
            }
        }
        session.invalidate_local_session();
        Step::Done(
            Ok(ComputerUseSessionStopResult::completed(marker_copy(&session.marker), self.issues)),
        )
    }

    /// Takes an answer in. An answer to some other request changes nothing.
    pub fn advance(self, session: &mut ComputerUseSession, reply: StopReply) -> (r: StopStep)
        ensures
            stop_step(self, *old(session), reply, *final(session), r),
    {
        match (self.phase, reply) {
            (StopPhase::Recording, StopReply::RecordingStopped(result)) => {
                let mut run = self;
                run.phase = StopPhase::Live;
                if let Err(error) = result {
                    run.issues.push(
                        ComputerUseCleanupIssue::from_error(
                            ComputerUseCleanupPhase::RecordingStop,
                            error,
                        ),
                    );
                }
                Step::Continue(run)
            },
            (StopPhase::Live, StopReply::LiveStopped) => self.on_live_stopped(session),
            (StopPhase::End, StopReply::Ended(result)) => {
                session.invalidate_local_session();
                match result {
                    Ok(()) => Step::Done(
                        Ok(
                            ComputerUseSessionStopResult::completed(
                                marker_copy(&session.marker),
                                self.issues,
                            ),
                        ),
                    ),
                    Err(error) => Step::Done(Err(error)),
                }
            },
            _ => Step::Continue(self),
        }
    }
}

/// However a stop ends, the session is over locally: nothing of it holds the
/// window, the feed, or a recording.
pub proof fn law_stopped_sessions_hold_nothing(
    run: StopRun,
    before: ComputerUseSession,
    reply: StopReply,
    after: ComputerUseSession,
    result: ComputerUseResult<ComputerUseSessionStopResult>,
)
    requires
        stop_step(run, before, reply, after, StopStep::Done(result)),
    ensures
        !after.active,
        after.target is None,
        after.live is None,
        !after.recording_active,
        after.observation is None,
        after.upstream is Inactive,
        !after.marker.visible,
{
}

/// A window that vanished is never ended at the driver.
pub proof fn law_vanished_windows_are_not_ended_upstream(
    run: StopRun,
    before: ComputerUseSession,
    after: ComputerUseSession,
    step: StopStep,
)
    requires
        run.phase == StopPhase::Live,
        before.target is None,
        stop_step(run, before, StopReply::LiveStopped, after, step),
    ensures
        step is Done,
        !after.active,
{
}

/// A new feed starts a new line of evidence: what was seen before is spent.
pub proof fn law_new_feeds_spend_evidence(
    run: LiveStartRun,
    before: ComputerUseSession,
    reply: LiveStartReply,
    after: ComputerUseSession,
    next: LiveStartRun,
)
    requires
        live_start_step(run, before, reply, after, LiveStartStep::Continue(next)),
        run.phase != next.phase,
        next.phase == LiveStartPhase::Start,
    ensures
        after.observation is None,
        after.action_evidence_epoch == before.action_evidence_epoch.next(),
{
}

/// A driver that started makes the session's upstream active; on native Windows one
/// that timed out leaves the session to its pixels and says why; any other failure
/// is the error, and changes nothing.
pub proof fn law_upstreams_start_or_say_why(
    before: ComputerUseSession,
    result: ComputerUseResult<()>,
    now_ms: u64,
    after: ComputerUseSession,
    r: ComputerUseResult<()>,
)
    requires
        upstream_start_ends(before, result, now_ms, after, r),
    ensures
        result is Ok ==> r is Ok && after.upstream is Active && after.last_refresh_ms == Some(
            now_ms,
        ),
        (result matches Err(cause) && before.native_windows && cause.code
            == ComputerUseErrorCode::InputFailed && occurs_in(cause.message@, "timed out"@))
            ==> r is Ok && (after.upstream matches UpstreamSessionState::VisualOnly { reason }
            && reason@ == result->Err_0.message@) && after.last_refresh_ms is None,
        result is Err && r is Ok ==> before.native_windows && result->Err_0.code
            == ComputerUseErrorCode::InputFailed,
        r is Err ==> r == result && after == before,
        after.target == before.target,
        after.active == before.active,
        after.session_id == before.session_id,
        after.live == before.live,
{
}

/// A session that started is bound to its window, runs, and shows its marker and,
/// where one runs, a banner that is ready and shows neither a recording nor a feed.
pub proof fn law_started_sessions_are_bound(
    before: ComputerUseSession,
    target: WindowTarget,
    banner_running: bool,
)
    ensures
        ({
            let after = before.started(target, banner_running);
            &&& after.target == Some(target)
            &&& after.active
            &&& after.marker.visible
            &&& after.marker.label == before.marker.label
            &&& after.marker.backend == before.marker.backend
            &&& after.banner is Some == banner_running
            &&& after.banner matches Some(banner) ==> banner.activity == BannerActivity::Ready
                && !banner.recording && !banner.live_observation
            &&& after.session_id == before.session_id
            &&& after.upstream == before.upstream
            &&& after.pixel_route == before.pixel_route
            &&& after.observation == before.observation
            &&& after.scope == before.scope
        }),
{
}

/// A session starts only where it does not run; one that starts anew is on no pixel
/// route, and one for pixels alone is on that one, with no driver.
pub proof fn law_sessions_start_once(
    before: ComputerUseSession,
    validation: ComputerUseResult<()>,
    resolved: ComputerUseResult<WindowTarget>,
    after: ComputerUseSession,
    r: ComputerUseResult<()>,
    pixels_after: ComputerUseSession,
    pixels: ComputerUseResult<WindowTarget>,
)
    requires
        start_begins(before, validation, after, r),
        pixels_only_starts(before, validation, resolved, pixels_after, pixels),
    ensures
        r is Ok <==> !before.active && validation is Ok,
        !before.active ==> r == validation && after.pixel_route is None,
        before.active ==> after == before && pixels_after == before && pixels is Err,
        pixels is Ok <==> before.native_windows && !before.active && validation is Ok
            && resolved is Ok,
        pixels is Ok ==> pixels == resolved && pixels_after.pixel_route == Some(
            PixelObservationRoute::ExplicitPixelsOnly,
        ) && pixels_after.upstream is VisualOnly && pixels_after.last_refresh_ms is None,
        pixels is Err ==> pixels_after == before,
        before.native_windows && !before.active && validation is Err ==> pixels == Err::<
            WindowTarget,
            ComputerUseError,
        >(validation->Err_0),
        before.native_windows && !before.active && validation is Ok && resolved is Err ==> pixels
            == resolved,
        after.active == before.active,
        pixels_after.active == before.active,
{
}

/// The picture alone is approved in an active session for a usable window; the
/// approval is remembered, and so is whether it was for a timeout.
pub proof fn law_approvals_are_remembered(
    before: ComputerUseSession,
    reason: Seq<char>,
    validation: ComputerUseResult<()>,
    resolved: ComputerUseResult<WindowTarget>,
    after: ComputerUseSession,
    r: ComputerUseResult<WindowTarget>,
)
    requires
        escalates(before, reason, validation, resolved, after, r),
    ensures
        r is Ok <==> validation is Ok && before.active && is_usable_target(before, resolved),
        r is Ok ==> {
            &&& r == resolved
            &&& after.escalated
            &&& after.uia_timeout_escalated == (reason == "uia_timeout"@)
            &&& after.windows_uia == (before.windows_uia || before.native_windows)
            &&& after.observation == before.observation
            &&& after.target == before.target
            &&& after.active
        },
        r is Err ==> after.escalated == before.escalated,
        validation matches Err(error) ==> r == Err::<WindowTarget, ComputerUseError>(error),
{
}

/// A session without its feed has no feed and none of its boundaries, and shows
/// none; what it has else stays.
pub proof fn law_feeds_are_put_away_whole(session: ComputerUseSession)
    ensures
        session.without_feed().live is None,
        session.without_feed().post_action_fence is None,
        session.without_feed().transition_fence is None,
        session.without_feed().banner is Some == session.banner is Some,
        session.without_feed().banner matches Some(banner) ==> !banner.live_observation
            && banner.activity == BannerActivity::Ready && banner.recording
            == session.banner->0.recording,
        session.without_feed().active == session.active,
        session.without_feed().target == session.target,
        session.without_feed().observation == session.observation,
        session.without_feed().recording_active == session.recording_active,
        session.without_feed().session_id == session.session_id,
{
}

/// A feed that ended by itself is no longer shown; nothing else changes.
pub proof fn law_ended_feeds_are_not_shown(
    before: ComputerUseSession,
    feed_runs: bool,
    after: ComputerUseSession,
)
    requires
        feed_end_is_noted(before, feed_runs, after),
    ensures
        feed_runs || before.live is None ==> after == before,
        !feed_runs && before.live is Some ==> (after.banner matches Some(banner)
            ==> !banner.live_observation),
        after.live == before.live,
        after.active == before.active,
        after.observation == before.observation,
{
}

/// The status tells the session as it is: whether it runs and was escalated, its
/// name, its window, its banner and marker, its latest observation and its driver.
pub proof fn law_statuses_tell_the_session(
    session: ComputerUseSession,
    target: JsonTree,
    banner: JsonTree,
)
    ensures
        ({
            let told = session.status_tree(target, banner);
            &&& told.bool_at("active"@) == Some(session.active)
            &&& told.bool_at("escalated"@) == Some(session.escalated)
            &&& told.text_at("session_id"@) == Some(session.session_id@)
            &&& session.target is Some ==> told.get("target"@) == Some(target)
            &&& session.target is None ==> told.get("target"@) == Some(JsonTree::Null)
            &&& told.get("banner"@) == Some(banner)
            &&& told.get("marker"@) == Some(marker_tree(session.marker))
            &&& told.text_at("latest_observation_id"@) == match session.observation {
                Some(observation) => Some(observation.observation_id@),
                None => None,
            }
            &&& told.text_at("backend"@) == Some("cua-driver-sdk"@)
            &&& told.get("upstream_session"@) == Some(session.upstream_tree())
        }),
        marker_tree(session.marker).bool_at("visible"@) == Some(session.marker.visible),
        marker_tree(session.marker).text_at("label"@) == Some(session.marker.label@),
        marker_tree(session.marker).text_at("backend"@) == Some(session.marker.backend@),
        session.banner is Some ==> banner_tree(session, banner) == banner,
        session.banner is None ==> banner_tree(session, banner) == no_banner_tree(),
{
    reveal_strlit("active");
    reveal_strlit("escalated");
    reveal_strlit("session_id");
    reveal_strlit("target");
    reveal_strlit("banner");
    reveal_strlit("marker");
    reveal_strlit("latest_observation_id");
    reveal_strlit("backend");
    reveal_strlit("upstream_session");
    reveal_strlit("visible");
    reveal_strlit("label");
    assert("active"@.len() == 6);
    assert("escalated"@.len() == 9);
    assert("session_id"@.len() == 10);
    assert("target"@.len() == 6);
    assert("banner"@.len() == 6);
    assert("marker"@.len() == 6);
    assert("latest_observation_id"@.len() == 21);
    assert("backend"@.len() == 7);
    assert("upstream_session"@.len() == 16);
    assert("visible"@.len() == 7);
    assert("label"@.len() == 5);
    assert("active"@[0] != "target"@[0]);
    assert("active"@[0] != "banner"@[0]);
    assert("active"@[0] != "marker"@[0]);
    assert("target"@[0] != "banner"@[0]);
    assert("target"@[0] != "marker"@[0]);
    assert("banner"@[0] != "marker"@[0]);
    assert("backend"@[0] != "visible"@[0]);
}

/// The driver's state is told by its name; one that is for the picture alone says
/// that it is degraded, why, and that it needs an approval.
pub proof fn law_upstreams_tell_how_they_are(session: ComputerUseSession)
    ensures
        session.upstream is Active ==> session.upstream_tree().text_at("state"@) == Some("active"@)
            && session.upstream_tree().bool_at("degraded"@) == Some(false),
        session.upstream is Inactive ==> session.upstream_tree().text_at("state"@) == Some(
            "inactive"@,
        ) && session.upstream_tree().bool_at("degraded"@) == Some(false),
        session.upstream matches UpstreamSessionState::VisualOnly { reason } ==> {
            &&& session.upstream_tree().text_at("state"@) == Some("visual_only"@)
            &&& session.upstream_tree().bool_at("degraded"@) == Some(true)
            &&& session.upstream_tree().text_at("reason"@) == Some(reason@)
            &&& session.upstream_tree().bool_at("requires_explicit_escalation"@) == Some(true)
            &&& session.upstream_tree().text_at("scope"@) == Some("exact_window"@)
        },
{
    reveal_strlit("state");
    reveal_strlit("degraded");
    reveal_strlit("reason");
    reveal_strlit("requires_explicit_escalation");
    reveal_strlit("scope");
    assert("state"@.len() == 5);
    assert("degraded"@.len() == 8);
    assert("reason"@.len() == 6);
    assert("requires_explicit_escalation"@.len() == 28);
    assert("scope"@.len() == 5);
    assert("state"@[1] != "scope"@[1]);
}

/// A banner that does not run is told as one that shows nothing and stops.
pub proof fn law_missing_banners_show_nothing()
    ensures
        no_banner_tree().text_at("backend"@) == Some("unavailable"@),
        no_banner_tree().bool_at("healthy"@) == Some(false),
        no_banner_tree().bool_at("running"@) == Some(false),
        no_banner_tree().bool_at("visible"@) == Some(false),
        no_banner_tree().bool_at("target_frame_visible"@) == Some(false),
        no_banner_tree().bool_at("interrupted"@) == Some(false),
        no_banner_tree().text_at("stop_key"@) == Some("Escape"@),
        no_banner_tree().text_at("activity"@) == Some("stopping"@),
        no_banner_tree().bool_at("recording"@) == Some(false),
        no_banner_tree().bool_at("live_observation"@) == Some(false),
        no_banner_tree().text_at("placement"@) == Some("unavailable"@),
        no_banner_tree().text_at("last_error"@) == Some("control banner is not running"@),
{
    reveal_strlit("backend");
    reveal_strlit("healthy");
    reveal_strlit("running");
    reveal_strlit("last_error");
    reveal_strlit("failure");
    reveal_strlit("visible");
    reveal_strlit("target_frame_visible");
    reveal_strlit("interrupted");
    reveal_strlit("stop_key");
    reveal_strlit("activity");
    reveal_strlit("activity_label");
    reveal_strlit("recording");
    reveal_strlit("live_observation");
    reveal_strlit("placement");
    assert("backend"@.len() == 7);
    assert("healthy"@.len() == 7);
    assert("running"@.len() == 7);
    assert("last_error"@.len() == 10);
    assert("failure"@.len() == 7);
    assert("visible"@.len() == 7);
    assert("target_frame_visible"@.len() == 20);
    assert("interrupted"@.len() == 11);
    assert("stop_key"@.len() == 8);
    assert("activity"@.len() == 8);
    assert("activity_label"@.len() == 14);
    assert("recording"@.len() == 9);
    assert("live_observation"@.len() == 16);
    assert("placement"@.len() == 9);
    assert("backend"@[0] != "healthy"@[0]);
    assert("backend"@[0] != "running"@[0]);
    assert("backend"@[0] != "failure"@[0]);
    assert("backend"@[0] != "visible"@[0]);
    assert("healthy"@[0] != "running"@[0]);
    assert("healthy"@[0] != "failure"@[0]);
    assert("healthy"@[0] != "visible"@[0]);
    assert("running"@[0] != "failure"@[0]);
    assert("running"@[0] != "visible"@[0]);
    assert("failure"@[0] != "visible"@[0]);
    assert("stop_key"@[0] != "activity"@[0]);
    assert("recording"@[0] != "placement"@[0]);
}

/// A banner that lost its window or its backend ends the session in its own words;
/// one that only could not be drawn does not.
pub proof fn law_banner_failures_are_told_apart(
    kind: BannerFailureKind,
    message: Seq<char>,
    r: Option<ComputerUseError>,
)
    requires
        banner_failure(kind, message, r),
    ensures
        r is None <==> kind is Rendering,
        r matches Some(error) ==> error.message@ == message,
        kind is TargetLost ==> r->0.code == ComputerUseErrorCode::InvalidTarget,
        kind is Backend ==> r->0.code == ComputerUseErrorCode::BackendUnavailable,
{
}

/// A feed that is on and has not ended is used again; any other is started anew.
pub proof fn law_running_feeds_are_used_again(
    session: ComputerUseSession,
    request: ComputerUseLiveObservationStartRequest,
    existing: Option<JsonTree>,
    disposition: LiveObservationStartDisposition,
    r: ComputerUseResult<LiveStartRun>,
)
    requires
        feed_disposition(existing, disposition),
        feed_begins(session, request, existing, r),
    ensures
        disposition == LiveObservationStartDisposition::ReuseExisting <==> (
        existing matches Some(state) && state.get("active"@) == Some(JsonTree::Bool(true)) && (
        state.get("terminal_reason"@) is None || state.get("terminal_reason"@) == Some(
            JsonTree::Null,
        ))),
        r is Ok <==> session.active && request.refusal() is None,
        r matches Ok(run) ==> run.request == request && run.disposition == disposition
            && run.target is None && (run.asks() == LiveStartRequest::CheckObservation
            <==> session.native_windows) && (run.asks() == LiveStartRequest::ResolveTarget
            <==> !session.native_windows),
{
}

/// A feed is started of the usable window, past its gate; one that it replaces is
/// put away first. The session then holds the link that was handed back and shows
/// the feed; what failed is the error.
pub proof fn law_started_feeds_are_held(
    run: LiveStartRun,
    before: ComputerUseSession,
    reply: LiveStartReply,
    after: ComputerUseSession,
    step: LiveStartStep,
)
    requires
        live_start_step(run, before, reply, after, step),
    ensures
        step matches Step::Continue(next) ==> {
            &&& next.request == run.request
            &&& next.disposition == run.disposition
            &&& next.phase == LiveStartPhase::Target && next.phase != run.phase ==> reply is Gate
                && reply->Gate_0 is Ok
            &&& run.phase == LiveStartPhase::Target && next.phase != run.phase ==> (
            reply matches LiveStartReply::Target(Ok(target)) && is_usable_target(before, Ok(target))
                && next.target == Some(target)) && run.disposition
                == LiveObservationStartDisposition::StartedNew
            &&& next.phase == LiveStartPhase::Replace && next.phase != run.phase
                ==> before.live is Some && after.live is None
            &&& next.phase == LiveStartPhase::Start && next.phase != run.phase
                ==> after.observation is None && (after.live is None || run.phase
                == LiveStartPhase::Replace)
            &&& run.phase != LiveStartPhase::Target ==> next.target == run.target
        },
        step matches Step::Done(Ok(disposition)) ==> {
            &&& disposition == run.disposition
            &&& after.banner matches Some(banner) ==> banner.live_observation
            &&& run.phase == LiveStartPhase::Start ==> reply == LiveStartReply::Started(
                Ok(after.live->0),
            ) && after.live is Some
            &&& run.phase == LiveStartPhase::Target ==> after.live == before.live && disposition
                == LiveObservationStartDisposition::ReuseExisting && reply is Target
                && is_usable_target(before, reply->Target_0)
            &&& run.phase == LiveStartPhase::Start || run.phase == LiveStartPhase::Target
            &&& after.active == before.active
            &&& after.observation == before.observation
        },
        run.phase == LiveStartPhase::Gate && reply is Gate && reply->Gate_0 is Err ==> step
            == LiveStartStep::Done(Err(reply->Gate_0->Err_0)),
        run.phase == LiveStartPhase::Start && reply is Started && reply->Started_0 is Err ==> step
            == LiveStartStep::Done(Err(reply->Started_0->Err_0)) && after == before,
        run.phase == LiveStartPhase::Target && reply is Target && !is_usable_target(
            before,
            reply->Target_0,
        ) ==> (step matches Step::Done(Err(_))),
        run.shows_activity() == Some(BannerActivity::Observing) <==> run.asks()
            == LiveStartRequest::StartFeed,
{
}

/// A stop begins with the recording where one runs, else with the feed; a
/// recording that did not stop is noted with its own error, and does not keep the
/// session from stopping.
pub proof fn law_stops_go_through_every_stage(
    session: ComputerUseSession,
    begun: StopRun,
    run: StopRun,
    before: ComputerUseSession,
    reply: StopReply,
    after: ComputerUseSession,
    step: StopStep,
)
    requires
        stop_begins(session, begun),
        stop_step(run, before, reply, after, step),
    ensures
        begun.phase == StopPhase::Recording <==> session.recording_active,
        begun.phase == StopPhase::Live <==> !session.recording_active,
        begun.issues@.len() == 0,
        run.phase == StopPhase::Recording && (reply matches StopReply::RecordingStopped(Ok(_)))
            ==> (step matches Step::Continue(next) && next.phase == StopPhase::Live && next.issues@
            == run.issues@),
        run.phase == StopPhase::Recording && (reply matches StopReply::RecordingStopped(Err(_)))
            ==> (step matches Step::Continue(next) && next.phase == StopPhase::Live
            && next.issues@.len() == run.issues@.len() + 1 && next.issues@.last().code
            == reply->RecordingStopped_0->Err_0.code && next.issues@.last().message
            == reply->RecordingStopped_0->Err_0.message && next.issues@.drop_last() == run.issues@),
        run.phase == StopPhase::Live && reply is LiveStopped ==> after.live is None,
        (step matches Step::Continue(next) && next.phase == StopPhase::End && run.phase
            != StopPhase::End) ==> before.active && before.target is Some
            && before.upstream is Active && step->Continue_0.issues == run.issues && (
        after.banner matches Some(banner) ==> banner.activity == BannerActivity::Stopping),
        step matches Step::Done(Ok(result)) ==> {
            &&& !after.active
            &&& !result.active
            &&& !result.cleanup_pending
            &&& result.cleanup_issues@ == run.issues@
            &&& result.success <==> run.issues@.len() == 0
            &&& result.marker == after.marker
            &&& !after.marker.visible
            &&& after.observation is None
            &&& after.target is None
        },
        run.phase == StopPhase::End && (reply matches StopReply::Ended(Err(_))) ==> step
            == StopStep::Done(Err(reply->Ended_0->Err_0)) && !after.active,
{
    match reply {
        StopReply::RecordingStopped(Err(error)) => {
            if run.phase == StopPhase::Recording {
                let issue = ComputerUseCleanupIssue {
                    phase: ComputerUseCleanupPhase::RecordingStop,
                    code: error.code,
                    message: error.message,
                };
                assert(run.issues@.push(issue).drop_last() =~= run.issues@);
            }
        },
        _ => {},
    }
}

} // verus!
