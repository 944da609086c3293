//! The state of one exact-window session, and what every outcome does to it.

use crate::contracts::{ComputerUseMarker, ComputerUseObservation, ComputerUseTargetScope};
use crate::driver::{ActionCompletion, DispatchOutcome};
use crate::error_contracts::{
    action_dispatch_completion_unknown, evidence_failure, interrupted,
    local_activation_attempt_failure, local_mutation_attempt_failure, mutation_known_failure,
    pre_dispatch_failure, session_refresh_required, session_refresh_unknown,
};
#[allow(unused_imports)]
use crate::error_contracts::{
    activation_attempt_details, evidence_completion, evidence_details, in_context,
    known_dispatch_details, local_mutation_details, pre_dispatch_details,
    refresh_required_details, refresh_unknown_details, restated, unknown_dispatch_details,
};
use crate::errors::{
    ComputerUseCompletionState, ComputerUseError, ComputerUseErrorCode, ComputerUseResult,
};
#[allow(unused_imports)]
use crate::errors::{decides, fails_with, is_detailed_error, is_plain_error, Refusal};
use crate::evidence::ActionEvidenceEpoch;
use crate::live_observation::LiveObservationFence;
use crate::pixel_observation::PixelObservationRoute;
use crate::recording::{RecordingHealth, RecordingVideoTerminalEvidence};
use crate::text::is_blank;
#[allow(unused_imports)]
use crate::text::trimmed;
use crate::window_target::{ensure_target_available_for_action, revalidate_target, WindowTarget};
#[allow(unused_imports)]
use crate::window_target::action_target_refusal;
use vstd::prelude::*;

verus! {

/// How long an upstream session stays current.
pub const SESSION_REFRESH_INTERVAL_MS: u64 = 30_000;

/// How long one driver call may take.
pub const INPUT_CALL_TIMEOUT_MS: u64 = 15_000;

/// The session's relation to the driver's own session.
#[derive(Debug)]
pub enum UpstreamSessionState {
    Inactive,
    Active,
    /// Only explicitly approved pixels of the exact window are available.
    VisualOnly { reason: String },
}

/// What the control banner says the session is doing.
#[derive(Debug, Clone, Copy, PartialEq, Eq, Structural)]
pub enum BannerActivity {
    Ready,
    Observing,
    Operating,
    Navigating,
    Recording,
    Waiting,
    Stopping,
    PointerInput,
    KeyboardInput,
}

/// What the control banner shows.
#[derive(Debug, Clone, Copy, PartialEq, Eq, Structural)]
pub struct BannerState {
    pub activity: BannerActivity,
    pub recording: bool,
    pub live_observation: bool,
}

/// The running latest-frame feed, as far as the session reads it.
#[derive(Debug, Clone, Copy, PartialEq, Eq, Structural)]
pub struct LiveLink {
    pub stream_id: u64,
    pub latest: Option<LiveObservationFence>,
    pub max_dimension: u32,
    pub fps: u32,
}

/// The running video recorder.
#[derive(Debug, Clone, Copy, PartialEq, Eq, Structural)]
pub struct ActiveShowcase {
    /// The feed was started for this recorder and ends with it.
    pub owns_live_observation: bool,
}

/// A long-lived, exact-window session.
#[derive(Debug)]
pub struct ComputerUseSession {
    pub scope: ComputerUseTargetScope,
    pub app_name: String,
    pub agent_name: String,
    pub session_id: String,
    pub marker: ComputerUseMarker,
    pub banner: Option<BannerState>,
    pub target: Option<WindowTarget>,
    pub observation: Option<ComputerUseObservation>,
    pub action_evidence_epoch: ActionEvidenceEpoch,
    pub live: Option<LiveLink>,
    pub post_action_fence: Option<LiveObservationFence>,
    pub transition_fence: Option<LiveObservationFence>,
    pub showcase: Option<ActiveShowcase>,
    pub last_recording_video: Option<RecordingVideoTerminalEvidence>,
    pub recording_active: bool,
    pub recording_expected_video: bool,
    pub recording_health: Option<RecordingHealth>,
    pub recording_keepalive: bool,
    /// A platform accessibility snapshot backs the latest observation.
    pub windows_uia: bool,
    pub upstream: UpstreamSessionState,
    /// When the upstream session was last refreshed, on a clock that never
    /// runs backwards.
    pub last_refresh_ms: Option<u64>,
    pub active: bool,
    pub escalated: bool,
    pub uia_timeout_escalated: bool,
    pub pixel_route: Option<PixelObservationRoute>,
    /// The host moves native windows and pointers itself.
    pub native_windows: bool,
}

/// Failures after which the evidence of a target no longer holds.
pub open spec fn voids_evidence(code: ComputerUseErrorCode) -> bool {
    code == ComputerUseErrorCode::MissingWindow || code == ComputerUseErrorCode::InvalidTarget
        || code == ComputerUseErrorCode::TargetMinimized || code
        == ComputerUseErrorCode::TargetUnavailable || code
        == ComputerUseErrorCode::InteractiveDesktopUnavailable
}

/// The session's window, resolved anew, is the bound one and can be acted on.
pub open spec fn is_usable_target(
    session: ComputerUseSession,
    resolved: ComputerUseResult<WindowTarget>,
) -> bool {
    resolved matches Ok(target) && session.target matches Some(bound) && target.same_window(bound)
        && target.available()
}

/// The error says why the resolved window is not the bound one.
pub open spec fn is_revalidation_failure(
    session: ComputerUseSession,
    resolved: ComputerUseResult<WindowTarget>,
    error: ComputerUseError,
) -> bool {
    match (resolved, session.target) {
        (Err(cause), _) => error == cause,
        (Ok(_), None) => is_plain_error(
            error,
            ComputerUseErrorCode::MissingWindow,
            "session target is missing"@,
        ),
        (Ok(target), Some(bound)) => !target.same_window(bound) && is_plain_error(
            error,
            ComputerUseErrorCode::TargetUnavailable,
            "the exact target identity changed"@,
        ),
    }
}

/// The error says why the session's window cannot be used.
pub open spec fn is_target_failure(
    session: ComputerUseSession,
    resolved: ComputerUseResult<WindowTarget>,
    error: ComputerUseError,
) -> bool {
    if resolved matches Ok(target) && session.target matches Some(bound) && target.same_window(
        bound,
    ) {
        action_target_refusal(resolved->Ok_0) matches Some((code, message)) && is_plain_error(
            error,
            code,
            message,
        )
    } else {
        is_revalidation_failure(session, resolved, error)
    }
}

/// The result of a step that is sensitive to what it observes: a failure is
/// handed on, and voids what it has to.
pub open spec fn is_sensitive_outcome<T>(
    before: ComputerUseSession,
    result: ComputerUseResult<T>,
    after: ComputerUseSession,
) -> bool {
    match result {
        Ok(_) => after == before,
        Err(error) => after == before.after_failure(error.code),
    }
}

/// Why evidence may not be used now.
pub open spec fn is_evidence_failure(
    session: ComputerUseSession,
    now_ms: u64,
    error: ComputerUseError,
) -> bool {
    if !(session.upstream is Active) {
        is_plain_error(
            error,
            ComputerUseErrorCode::BackendUnavailable,
            "the upstream semantic session is unavailable; this session is restricted to explicitly approved exact-window visual fallback"@,
        )
    } else {
        &&& session.refresh_due(now_ms)
        &&& is_detailed_error(
            error,
            ComputerUseErrorCode::SessionRefreshRequired,
            "the upstream session requires a fresh exact-target refresh"@,
            refresh_required_details(),
        )
    }
}

/// The error of a refresh. One that did not come back in time is of unknown
/// completion.
pub open spec fn is_refresh_failure(cause: ComputerUseError, error: ComputerUseError) -> bool {
    if cause.code == ComputerUseErrorCode::InputFailed && cause.timed_out() {
        is_detailed_error(
            error,
            ComputerUseErrorCode::CompletionUnknown,
            cause.message@,
            refresh_unknown_details(),
        )
    } else {
        error == cause
    }
}

/// What a dispatched mutation does to the session, and what is returned of it.
pub open spec fn is_dispatch_outcome<T>(
    before: ComputerUseSession,
    context: Seq<char>,
    outcome: DispatchOutcome<T>,
    after: ComputerUseSession,
    result: ComputerUseResult<T>,
) -> bool {
    match outcome {
        DispatchOutcome::Completed(value) => after == before.without_evidence() && result == Ok::<
            T,
            ComputerUseError,
        >(value),
        DispatchOutcome::Interrupted { completion: ActionCompletion::Unknown, reason } => {
            &&& after == before.ended()
            &&& result matches Err(error) && is_detailed_error(
                error,
                ComputerUseErrorCode::CompletionUnknown,
                in_context(context, reason@),
                unknown_dispatch_details(),
            )
        },
        DispatchOutcome::Interrupted { completion: ActionCompletion::NotStarted, reason } => {
            &&& after == before
            &&& result matches Err(error) && is_detailed_error(
                error,
                ComputerUseErrorCode::InputFailed,
                in_context(context, reason@),
                pre_dispatch_details(false),
            )
        },
        DispatchOutcome::Interrupted { completion: ActionCompletion::Completed, reason } => {
            &&& after == before.without_evidence()
            &&& result matches Err(error) && is_detailed_error(
                error,
                ComputerUseErrorCode::InputFailed,
                in_context(context, reason@),
                known_dispatch_details(),
            )
        },
        DispatchOutcome::ToolFailed(cause) => {
            &&& after == before.without_evidence()
            &&& result matches Err(error) && restated(cause, error, known_dispatch_details())
        },
        DispatchOutcome::Refused(cause) => {
            &&& after == before
            &&& result matches Err(error) && restated(cause, error, pre_dispatch_details(false))
        },
        DispatchOutcome::ConnectionLost(cause) => {
            &&& after == before.ended()
            &&& result matches Err(error) && is_unknown_completion(cause, error)
        },
        DispatchOutcome::NotReturned(cause) => {
            &&& after == before.ended()
            &&& result matches Err(error) && is_unknown_completion(cause, error)
        },
    }
}

/// The error says of the cause that nobody knows whether the action ended.
pub open spec fn is_unknown_completion(cause: ComputerUseError, error: ComputerUseError) -> bool {
    error.code == ComputerUseErrorCode::CompletionUnknown && error.message == cause.message
        && error.details == Some(unknown_dispatch_details())
}

/// What is returned of a dispatched read of evidence.
pub open spec fn is_evidence_outcome<T>(
    context: Seq<char>,
    outcome: DispatchOutcome<T>,
    result: ComputerUseResult<T>,
) -> bool {
    match outcome {
        DispatchOutcome::Completed(value) => result == Ok::<T, ComputerUseError>(value),
        DispatchOutcome::Interrupted { completion, reason } => result matches Err(error)
            && is_detailed_error(
            error,
            ComputerUseErrorCode::BackendUnavailable,
            in_context(context, reason@),
            evidence_details(None, Some(evidence_completion(completion))),
        ),
        DispatchOutcome::ToolFailed(cause) => result == Err::<T, ComputerUseError>(cause),
        DispatchOutcome::ConnectionLost(cause) => result == Err::<T, ComputerUseError>(cause),
        DispatchOutcome::Refused(cause) => result == Err::<T, ComputerUseError>(cause),
        DispatchOutcome::NotReturned(cause) => result matches Err(error) && restated(
            cause,
            error,
            evidence_details(
                match cause.details {
                    Some(details) => details.timed_out,
                    None => None,
                },
                None,
            ),
        ),
    }
}

/// A window is found the same once more before it is published.
pub open spec fn publication_is_revalidated(before: ComputerUseSession, observation_gate: ComputerUseResult<()>, resolved: ComputerUseResult<WindowTarget>, expected: WindowTarget, after: ComputerUseSession, r: ComputerUseResult<WindowTarget>) -> bool {
    &&& match r {
        Ok(target) => {
            &&& observation_gate is Ok
            &&& resolved == Ok::<WindowTarget, ComputerUseError>(target)
            &&& is_usable_target(before, resolved)
            &&& target.same_window(expected)
        },
        Err(error) => if observation_gate is Err {
            observation_gate == Err::<(), ComputerUseError>(error)
        } else if is_usable_target(before, resolved) {
            !resolved->Ok_0.same_window(expected) && is_plain_error(
                error,
                ComputerUseErrorCode::TargetUnavailable,
                "the exact target identity changed before observation publication"@,
            )
        } else {
            is_target_failure(before, resolved, error)
        },
    }
    &&& is_sensitive_outcome(before, r, after)
}

/// A session as it is made.
pub open spec fn session_is_made(scope: ComputerUseTargetScope, app_name: String, agent_name: String, session_id: String, label: String, native_windows: bool, r: ComputerUseResult<ComputerUseSession>) -> bool {
    match ComputerUseSession::creation_refusal(scope, session_id@) {
        Some((code, message)) => fails_with(r, code, message),
        None => {
            &&& r matches Ok(session)
            &&& session.is_fresh()
            &&& session.scope == scope
            &&& session.app_name == app_name
            &&& session.agent_name == agent_name
            &&& session.session_id == session_id
            &&& session.marker.label == label
            &&& session.marker.backend@ == "cua-driver-sdk"@
            &&& session.native_windows == native_windows
        },
    }
}

impl ComputerUseSession {
    /// The newest frame of the running feed.
    pub open spec fn live_fence(self) -> Option<LiveObservationFence> {
        match self.live {
            Some(link) => link.latest,
            None => None,
        }
    }

    /// The session with its action-scoped evidence dropped. The feed's newest
    /// frame stays behind as the boundary that fresh evidence has to pass.
    pub open spec fn without_evidence(self) -> ComputerUseSession {
        ComputerUseSession {
            action_evidence_epoch: self.action_evidence_epoch.next(),
            transition_fence: if self.live_fence() is Some {
                self.live_fence()
            } else {
                self.transition_fence
            },
            observation: None,
            post_action_fence: None,
            windows_uia: false,
            ..self
        }
    }

    /// The session after a failure with the given code.
    pub open spec fn after_failure(self, code: ComputerUseErrorCode) -> ComputerUseSession {
        if code == ComputerUseErrorCode::MissingWindow {
            (ComputerUseSession { target: None, ..self }).without_evidence()
        } else if voids_evidence(code) {
            self.without_evidence()
        } else {
            self
        }
    }

    /// The session after it ended: nothing local owns the target any more.
    pub open spec fn ended(self) -> ComputerUseSession {
        (ComputerUseSession {
            recording_keepalive: false,
            showcase: None,
            live: None,
            post_action_fence: None,
            transition_fence: None,
            recording_active: false,
            banner: None,
            active: false,
            upstream: UpstreamSessionState::Inactive,
            pixel_route: None,
            last_refresh_ms: None,
            marker: ComputerUseMarker { visible: false, ..self.marker },
            target: None,
            ..self
        }).without_evidence()
    }

    /// The banner's activity, where there is a banner.
    pub open spec fn showing(self, activity: BannerActivity) -> ComputerUseSession {
        ComputerUseSession {
            banner: match self.banner {
                Some(banner) => Some(BannerState { activity, ..banner }),
                None => None,
            },
            ..self
        }
    }

    /// The banner's recording light, where there is a banner.
    pub open spec fn recording_shown(self, recording: bool) -> ComputerUseSession {
        ComputerUseSession {
            banner: match self.banner {
                Some(banner) => Some(BannerState { recording, ..banner }),
                None => None,
            },
            ..self
        }
    }

    /// The banner's feed light, where there is a banner.
    pub open spec fn live_shown(self, live_observation: bool) -> ComputerUseSession {
        ComputerUseSession {
            banner: match self.banner {
                Some(banner) => Some(BannerState { live_observation, ..banner }),
                None => None,
            },
            ..self
        }
    }

    /// The upstream session is no longer current.
    pub open spec fn refresh_due(self, now_ms: u64) -> bool {
        match self.last_refresh_ms {
            None => true,
            Some(refreshed) => now_ms - refreshed >= SESSION_REFRESH_INTERVAL_MS,
        }
    }

    /// Evidence of the upstream session may be used.
    pub open spec fn evidence_current(self, now_ms: u64) -> bool {
        self.upstream is Active && !self.refresh_due(now_ms)
    }

    /// A refresh has to come before the next observation.
    pub open spec fn refresh_needed(self, now_ms: u64) -> bool {
        self.upstream is Active && self.refresh_due(now_ms)
    }

    /// The session after a refresh: evidence from before it is spent.
    pub open spec fn refreshed(self, now_ms: u64) -> ComputerUseSession {
        (ComputerUseSession { last_refresh_ms: Some(now_ms), ..self }).without_evidence()
    }

    /// The session after an action completed.
    pub open spec fn acted(self) -> ComputerUseSession {
        (ComputerUseSession { post_action_fence: self.live_fence(), ..self }).showing(
            BannerActivity::Ready,
        )
    }

    /// Why a session cannot be made.
    pub open spec fn creation_refusal(
        scope: ComputerUseTargetScope,
        session_id: Seq<char>,
    ) -> Refusal {
        if scope.refusal() is Some {
            scope.refusal()
        } else if trimmed(session_id).len() == 0 {
            Some((ComputerUseErrorCode::InvalidAction, "session_id must not be empty"@))
        } else {
            None
        }
    }

    /// Nothing is bound, observed, recorded, or shown.
    pub open spec fn is_fresh(self) -> bool {
        &&& !self.active
        &&& !self.escalated
        &&& !self.uia_timeout_escalated
        &&& self.upstream is Inactive
        &&& self.last_refresh_ms is None
        &&& self.target is None
        &&& self.observation is None
        &&& self.action_evidence_epoch.value == 0
        &&& self.live is None
        &&& self.post_action_fence is None
        &&& self.transition_fence is None
        &&& self.showcase is None
        &&& self.last_recording_video is None
        &&& !self.recording_active
        &&& !self.recording_expected_video
        &&& self.recording_health is None
        &&& !self.recording_keepalive
        &&& !self.windows_uia
        &&& self.pixel_route is None
        &&& self.banner is None
        &&& !self.marker.visible
    }

    /// A session that was not started yet.
    pub fn new(
        scope: ComputerUseTargetScope,
        app_name: String,
        agent_name: String,
        session_id: String,
        label: String,
        native_windows: bool,
    ) -> (r: ComputerUseResult<ComputerUseSession>)
        ensures
            session_is_made(scope, app_name, agent_name, session_id, label, native_windows, r),
    {
        match scope.validate() {
            Ok(()) => {},
            Err(error) => return Err(error),
        }
        if is_blank(session_id.as_str()) {
            return Err(
                ComputerUseError::new(
                    ComputerUseErrorCode::InvalidAction,
                    "session_id must not be empty",
                ),
            );
        }
        Ok(
            ComputerUseSession {
                scope,
                app_name,
                agent_name,
                session_id,
                marker: ComputerUseMarker { visible: false, label, backend: "cua-driver-sdk" },
                banner: None,
                target: None,
                observation: None,
                action_evidence_epoch: ActionEvidenceEpoch::default(),
                live: None,
                post_action_fence: None,
                transition_fence: None,
                showcase: None,
                last_recording_video: None,
                recording_active: false,
                recording_expected_video: false,
                recording_health: None,
                recording_keepalive: false,
                windows_uia: false,
                upstream: UpstreamSessionState::Inactive,
                last_refresh_ms: None,
                active: false,
                escalated: false,
                uia_timeout_escalated: false,
                pixel_route: None,
                native_windows,
            },
        )
    }

    /// Whether the session runs on the provider-free pixels-only route.
    #[must_use]
    pub fn is_pixels_only(&self) -> (r: bool)
        ensures
            r == (self.native_windows && self.pixel_route
                == Some(PixelObservationRoute::ExplicitPixelsOnly)),
    {
        self.native_windows && match self.pixel_route {
            Some(route) => route == PixelObservationRoute::ExplicitPixelsOnly,
            None => false,
        }
    }

    /// The monotonic receipt for all action-scoped evidence.
    #[must_use]
    pub fn action_evidence_epoch(&self) -> (r: ActionEvidenceEpoch)
        ensures
            r == self.action_evidence_epoch,
    {
        self.action_evidence_epoch
    }

    pub fn ensure_active(&self) -> (r: ComputerUseResult<()>)
        ensures
            decides(
                r,
                if self.active {
                    None
                } else {
                    Some(
                        (
                            ComputerUseErrorCode::BackendUnavailable,
                            "Computer Use session is not active"@,
                        ),
                    )
                },
            ),
    {
        if self.active {
            Ok(())
        } else {
            Err(
                ComputerUseError::new(
                    ComputerUseErrorCode::BackendUnavailable,
                    "Computer Use session is not active",
                ),
            )
        }
    }

    /// Takes the newest frame of the running feed in.
    pub fn note_live_frame(&mut self, latest: Option<LiveObservationFence>)
        ensures
            *final(self) == (ComputerUseSession {
                live: match old(self).live {
                    Some(link) => Some(LiveLink { latest, ..link }),
                    None => None,
                },
                ..*old(self)
            }),
    {
        if let Some(link) = self.live {
            self.live = Some(
                LiveLink {
                    stream_id: link.stream_id,
                    latest,
                    max_dimension: link.max_dimension,
                    fps: link.fps,
                },
            );
        }
    }

    fn latest_fence(&self) -> (r: Option<LiveObservationFence>)
        ensures
            r == self.live_fence(),
    {
        match self.live {
            Some(link) => link.latest,
            None => None,
        }
    }

    pub fn set_banner_activity(&mut self, activity: BannerActivity)
        ensures
            *final(self) == old(self).showing(activity),
    {
        if let Some(banner) = self.banner {
            self.banner = Some(
                BannerState {
                    activity,
                    recording: banner.recording,
                    live_observation: banner.live_observation,
                },
            );
        }
    }

    pub fn set_banner_recording(&mut self, recording: bool)
        ensures
            *final(self) == old(self).recording_shown(recording),
    {
        if let Some(banner) = self.banner {
            self.banner = Some(
                BannerState {
                    activity: banner.activity,
                    recording,
                    live_observation: banner.live_observation,
                },
            );
        }
    }

    pub fn set_banner_live_observation(&mut self, live_observation: bool)
        ensures
            *final(self) == old(self).live_shown(live_observation),
    {
        if let Some(banner) = self.banner {
            self.banner = Some(
                BannerState {
                    activity: banner.activity,
                    recording: banner.recording,
                    live_observation,
                },
            );
        }
    }

    /// Drops action-scoped evidence without stopping the feed, the recorder,
    /// or the recording.
    pub fn invalidate_action_observations(&mut self)
        ensures
            *final(self) == old(self).without_evidence(),
    {
        self.action_evidence_epoch = self.action_evidence_epoch.advanced();
        let fence = self.latest_fence();
        if fence.is_some() {
            self.transition_fence = fence;
        }
        self.observation = None;
        self.post_action_fence = None;
        self.windows_uia = false;
    }

    /// A feed is about to be replaced: evidence of the old one is spent.
    pub fn begin_live_observation_replacement(&mut self)
        ensures
            *final(self) == old(self).without_evidence(),
    {
        self.invalidate_action_observations();
    }

    /// Ends the session locally after a terminal failure or a stop.
    pub fn invalidate_local_session(&mut self)
        ensures
            *final(self) == old(self).ended(),
    {
        self.recording_keepalive = false;
        self.showcase = None;
        self.live = None;
        self.post_action_fence = None;
        self.transition_fence = None;
        self.recording_active = false;
        self.banner = None;
        self.active = false;
        self.upstream = UpstreamSessionState::Inactive;
        self.pixel_route = None;
        self.last_refresh_ms = None;
        self.marker.visible = false;
        self.target = None;
        self.invalidate_action_observations();
    }

    /// Hands the result on. A failure that voids evidence does so here, and a
    /// vanished window is let go of.
    pub fn finish_observation_sensitive_attempt<T>(&mut self, result: ComputerUseResult<T>) -> (r:
        ComputerUseResult<T>)
        ensures
            r == result,
            is_sensitive_outcome(*old(self), result, *final(self)),
    {
        if let Err(error) = &result {
            if error.code == ComputerUseErrorCode::MissingWindow {
                self.target = None;
            }
            if error.code == ComputerUseErrorCode::MissingWindow || error.code
                == ComputerUseErrorCode::InvalidTarget || error.code
                == ComputerUseErrorCode::TargetMinimized || error.code
                == ComputerUseErrorCode::TargetUnavailable || error.code
                == ComputerUseErrorCode::InteractiveDesktopUnavailable {
                self.invalidate_action_observations();
            }
        }
        result
    }

    /// The session's window, resolved anew and still the bound one.
    pub fn revalidate_observed_target(&mut self, resolved: ComputerUseResult<WindowTarget>) -> (r:
        ComputerUseResult<WindowTarget>)
        ensures
            match r {
                Ok(target) => {
                    &&& resolved == Ok::<WindowTarget, ComputerUseError>(target)
                    &&& old(self).target matches Some(bound) && target.same_window(bound)
                },
                Err(error) => is_revalidation_failure(*old(self), resolved, error),
            },
            is_sensitive_outcome(*old(self), r, *final(self)),
    {
        let result = revalidate_target(self.target.as_ref(), resolved);
        self.finish_observation_sensitive_attempt(result)
    }

    /// The session's window, resolved anew, still the bound one, and usable.
    pub fn require_observed_target_available(
        &mut self,
        resolved: ComputerUseResult<WindowTarget>,
    ) -> (r: ComputerUseResult<WindowTarget>)
        ensures
            match r {
                Ok(target) => resolved == Ok::<WindowTarget, ComputerUseError>(target)
                    && is_usable_target(*old(self), resolved),
                Err(error) => is_target_failure(*old(self), resolved, error),
            },
            is_sensitive_outcome(*old(self), r, *final(self)),
    {
        let target = match self.revalidate_observed_target(resolved) {
            Ok(target) => target,
            Err(error) => return Err(error),
        };
        let available = ensure_target_available_for_action(&target);
        match self.finish_observation_sensitive_attempt(available) {
            Ok(()) => Ok(target),
            Err(error) => Err(error),
        }
    }

    /// The window that is about to be published, still the expected one.
    pub fn revalidate_observed_exact_publication_target(
        &mut self,
        observation_gate: ComputerUseResult<()>,
        resolved: ComputerUseResult<WindowTarget>,
        expected: &WindowTarget,
    ) -> (r: ComputerUseResult<WindowTarget>)
        ensures
            publication_is_revalidated(*old(self), observation_gate, resolved, *expected, *final(self), r),
    {
        match self.finish_observation_sensitive_attempt(observation_gate) {
            Ok(()) => {},
            Err(error) => return Err(error),
        }
        let observed = match self.require_observed_target_available(resolved) {
            Ok(target) => target,
            Err(error) => return Err(error),
        };
        if !observed.is_same_window(expected) {
            return self.finish_observation_sensitive_attempt(
                Err(
                    ComputerUseError::new(
                        ComputerUseErrorCode::TargetUnavailable,
                        "the exact target identity changed before observation publication",
                    ),
                ),
            );
        }
        Ok(observed)
    }

    /// A later frame of the feed takes the place of the waiting boundary.
    pub fn rebaseline_live_observation_transition_fence(&mut self)
        ensures
            *final(self) == (ComputerUseSession {
                transition_fence: if old(self).transition_fence is Some && old(self).live_fence()
                    is Some {
                    old(self).live_fence()
                } else {
                    old(self).transition_fence
                },
                ..*old(self)
            }),
    {
        let fence = self.latest_fence();
        if self.transition_fence.is_some() && fence.is_some() {
            self.transition_fence = fence;
        }
    }

    pub fn upstream_session_refresh_due(&self, now_ms: u64) -> (r: bool)
        ensures
            r == self.refresh_due(now_ms),
    {
        match self.last_refresh_ms {
            None => true,
            Some(refreshed) => now_ms >= refreshed && now_ms - refreshed
                >= SESSION_REFRESH_INTERVAL_MS,
        }
    }

    fn upstream_active(&self) -> (r: bool)
        ensures
            r == (self.upstream is Active),
    {
        match &self.upstream {
            UpstreamSessionState::Active => true,
            _ => false,
        }
    }

    /// Whether a confirmed action must renew its evidence before it goes out.
    #[must_use]
    pub fn confirmed_action_evidence_refresh_due(&self, now_ms: u64) -> (r: bool)
        ensures
            r == (self.active && self.refresh_needed(now_ms)),
    {
        self.active && self.upstream_active() && self.upstream_session_refresh_due(now_ms)
    }

    /// Whether an observation has to wait for a refresh.
    pub fn upstream_refresh_needed(&self, now_ms: u64) -> (r: bool)
        ensures
            r == self.refresh_needed(now_ms),
    {
        self.upstream_active() && self.upstream_session_refresh_due(now_ms)
    }

    /// Evidence may be used only while the upstream session is current.
    pub fn require_current_upstream_session_for_evidence(&mut self, now_ms: u64) -> (r:
        ComputerUseResult<()>)
        ensures
            match r {
                Ok(()) => old(self).evidence_current(now_ms) && *final(self) == *old(self),
                Err(error) => {
                    &&& !old(self).evidence_current(now_ms)
                    &&& is_evidence_failure(*old(self), now_ms, error)
                    &&& *final(self) == old(self).without_evidence()
                },
            },
    {
        if !self.upstream_active() {
            self.invalidate_action_observations();
            return Err(
                ComputerUseError::new(
                    ComputerUseErrorCode::BackendUnavailable,
                    "the upstream semantic session is unavailable; this session is restricted to explicitly approved exact-window visual fallback",
                ),
            );
        }
        if !self.upstream_session_refresh_due(now_ms) {
            return Ok(());
        }
        self.invalidate_action_observations();
        Err(session_refresh_required())
    }

    /// What came of a refresh. A refresh that did not come back leaves the
    /// session active and its completion unknown.
    pub fn finish_upstream_refresh_attempt<T>(&mut self, result: ComputerUseResult<T>) -> (r:
        ComputerUseResult<T>)
        ensures
            match result {
                Ok(_) => r == result && *final(self) == *old(self),
                Err(cause) => {
                    &&& *final(self) == old(self).without_evidence()
                    &&& r matches Err(error) && is_refresh_failure(cause, error)
                },
            },
    {
        match result {
            Ok(value) => Ok(value),
            Err(error) => {
                self.invalidate_action_observations();
                if error.code != ComputerUseErrorCode::InputFailed || !error.is_timed_out() {
                    return Err(error);
                }
                Err(session_refresh_unknown(error.message))
            },
        }
    }

    /// A refresh took place: evidence from before it is spent.
    pub fn complete_upstream_session_refresh(&mut self, now_ms: u64)
        ensures
            *final(self) == old(self).refreshed(now_ms),
    {
        self.last_refresh_ms = Some(now_ms);
        self.invalidate_action_observations();
    }

    /// A refresh starts only where input is available. One that cannot start
    /// leaves no evidence behind.
    pub fn gate_upstream_refresh(&mut self, gate: ComputerUseResult<()>) -> (r: ComputerUseResult<
        (),
    >)
        ensures
            match gate {
                Ok(()) => r is Ok && *final(self) == *old(self),
                Err(cause) => {
                    &&& *final(self) == old(self).after_failure(cause.code).without_evidence()
                    &&& r matches Err(error) && is_refresh_failure(cause, error)
                },
            },
    {
        let gate = self.finish_observation_sensitive_attempt(gate);
        self.finish_upstream_refresh_attempt(gate)
    }

    /// What came of a refresh that was started.
    pub fn finish_upstream_refresh(&mut self, result: ComputerUseResult<()>, now_ms: u64) -> (r:
        ComputerUseResult<()>)
        ensures
            match result {
                Ok(()) => r is Ok && *final(self) == old(self).refreshed(now_ms),
                Err(cause) => {
                    &&& *final(self) == old(self).without_evidence()
                    &&& r matches Err(error) && is_refresh_failure(cause, error)
                },
            },
    {
        match self.finish_upstream_refresh_attempt(result) {
            Ok(()) => {
                self.complete_upstream_session_refresh(now_ms);
                Ok(())
            },
            Err(error) => Err(error),
        }
    }

    /// What came of a dispatched mutation.
    pub fn finish_typed_dispatch_result<T>(
        &mut self,
        context: &str,
        outcome: DispatchOutcome<T>,
    ) -> (r: ComputerUseResult<T>)
        ensures
            is_dispatch_outcome(*old(self), context@, outcome, *final(self), r),
    {
        match outcome {
            DispatchOutcome::Completed(value) => {
                self.invalidate_action_observations();
                Ok(value)
            },
            DispatchOutcome::Interrupted { completion, reason } => {
                let error = interrupted(
                    ComputerUseErrorCode::InputFailed,
                    context,
                    reason.as_str(),
                );
                match completion {
                    ActionCompletion::Unknown => {
                        self.invalidate_local_session();
                        Err(action_dispatch_completion_unknown(error))
                    },
                    ActionCompletion::NotStarted => Err(pre_dispatch_failure(error)),
                    ActionCompletion::Completed => {
                        self.invalidate_action_observations();
                        Err(mutation_known_failure(error))
                    },
                }
            },
            DispatchOutcome::ToolFailed(error) => {
                self.invalidate_action_observations();
                Err(mutation_known_failure(error))
            },
            DispatchOutcome::ConnectionLost(error) => {
                self.invalidate_local_session();
                Err(action_dispatch_completion_unknown(error))
            },
            DispatchOutcome::Refused(error) => Err(pre_dispatch_failure(error)),
            DispatchOutcome::NotReturned(error) => {
                self.invalidate_local_session();
                Err(action_dispatch_completion_unknown(error))
            },
        }
    }

    /// What came of a dispatched read of evidence. The session is untouched.
    pub fn finish_read_only_evidence_dispatch_result<T>(
        &self,
        context: &str,
        outcome: DispatchOutcome<T>,
    ) -> (r: ComputerUseResult<T>)
        ensures
            is_evidence_outcome(context@, outcome, r),
    {
        match outcome {
            DispatchOutcome::Completed(value) => Ok(value),
            DispatchOutcome::Interrupted { completion, reason } => {
                let known = match completion {
                    ActionCompletion::NotStarted => ComputerUseCompletionState::Known,
                    ActionCompletion::Completed => ComputerUseCompletionState::Known,
                    ActionCompletion::Unknown => ComputerUseCompletionState::Unknown,
                };
                let error = interrupted(
                    ComputerUseErrorCode::BackendUnavailable,
                    context,
                    reason.as_str(),
                );
                Err(evidence_failure(error, None, Some(known)))
            },
            DispatchOutcome::ToolFailed(error) => Err(error),
            DispatchOutcome::ConnectionLost(error) => Err(error),
            DispatchOutcome::Refused(error) => Err(error),
            DispatchOutcome::NotReturned(error) => {
                let timed_out = match &error.details {
                    Some(details) => details.timed_out,
                    None => None,
                };
                Err(evidence_failure(error, timed_out, None))
            },
        }
    }

    /// What came of a mutation the host made itself.
    pub fn finish_local_mutation_attempt<T>(&mut self, result: ComputerUseResult<T>) -> (r:
        ComputerUseResult<T>)
        ensures
            match result {
                Ok(_) => r == result && *final(self) == *old(self),
                Err(cause) => {
                    &&& *final(self) == old(self).without_evidence()
                    &&& r matches Err(error) && restated(cause, error, local_mutation_details())
                },
            },
    {
        match result {
            Ok(value) => Ok(value),
            Err(error) => {
                self.invalidate_action_observations();
                Err(local_mutation_attempt_failure(error))
            },
        }
    }

    /// Drops evidence for a window mutation that is about to start, unless its
    /// gate refuses: a refused mutation leaves the evidence as it was.
    pub fn begin_gated_window_mutation(&mut self, gate: ComputerUseResult<()>) -> (r:
        ComputerUseResult<()>)
        ensures
            r == gate,
            gate is Ok ==> *final(self) == old(self).without_evidence(),
            gate is Err ==> *final(self) == *old(self),
    {
        if gate.is_ok() {
            self.invalidate_action_observations();
        }
        gate
    }

    /// What came of an activation that an action made on the way.
    pub fn finish_implicit_activation<T>(&self, result: ComputerUseResult<T>) -> (r:
        ComputerUseResult<T>)
        ensures
            match result {
                Ok(_) => r == result,
                Err(cause) => r matches Err(error) && restated(
                    cause,
                    error,
                    activation_attempt_details(),
                ),
            },
    {
        match result {
            Ok(value) => Ok(value),
            Err(error) => Err(local_activation_attempt_failure(error)),
        }
    }

    /// An action is done: frames up to now are older than its effect.
    pub fn complete_action(&mut self)
        ensures
            *final(self) == old(self).acted(),
    {
        self.post_action_fence = self.latest_fence();
        self.set_banner_activity(BannerActivity::Ready);
    }

    /// A mutating action is done: the evidence it was based on is spent.
    pub fn complete_mutating_action(&mut self)
        ensures
            *final(self) == old(self).without_evidence().acted(),
    {
        self.invalidate_action_observations();
        self.complete_action();
    }
}

/// A mutation nobody knows the end of ends the session with it: the error says
/// so, nothing local owns the target any more, and no evidence is left.
pub proof fn law_unknown_completion_ends_the_session<T>(
    before: ComputerUseSession,
    context: Seq<char>,
    outcome: DispatchOutcome<T>,
    after: ComputerUseSession,
    result: ComputerUseResult<T>,
)
    requires
        is_dispatch_outcome(before, context, outcome, after, result),
    ensures
        (result matches Err(error) && error.details == Some(unknown_dispatch_details())) <==> (
        outcome is ConnectionLost || outcome is NotReturned || outcome
            matches DispatchOutcome::Interrupted { completion: ActionCompletion::Unknown, .. }),
        (result matches Err(error) && error.details == Some(unknown_dispatch_details())) ==> {
            &&& after == before.ended()
            &&& !after.active
            &&& after.target is None
            &&& after.observation is None
            &&& result->Err_0.code == ComputerUseErrorCode::CompletionUnknown
        },
{
    let unknown = unknown_dispatch_details();
    assert(unknown.completion == Some(ComputerUseCompletionState::Unknown));
    assert(known_dispatch_details().completion == Some(ComputerUseCompletionState::Known));
    assert(pre_dispatch_details(false).completion == Some(ComputerUseCompletionState::Known));
}

/// A mutation that never started leaves the session as it was, and every other
/// one spends the evidence it was based on: no mutation is followed by another
/// on the same observation.
pub proof fn law_evidence_serves_one_dispatch<T>(
    before: ComputerUseSession,
    context: Seq<char>,
    outcome: DispatchOutcome<T>,
    after: ComputerUseSession,
    result: ComputerUseResult<T>,
)
    requires
        is_dispatch_outcome(before, context, outcome, after, result),
    ensures
        (outcome is Refused || outcome
            matches DispatchOutcome::Interrupted { completion: ActionCompletion::NotStarted, .. })
            ==> after == before && result is Err,
        !(outcome is Refused || outcome
            matches DispatchOutcome::Interrupted { completion: ActionCompletion::NotStarted, .. })
            ==> after.observation is None && after.post_action_fence is None
            && after.action_evidence_epoch == before.action_evidence_epoch.next(),
        result is Ok <==> outcome is Completed,
{
}

/// The error of a dispatched mutation tells the truth of the session it leaves
/// behind: it claims that the session remains active only where the session
/// is what it was but for its evidence.
pub proof fn law_dispatch_error_tells_the_session<T>(
    before: ComputerUseSession,
    context: Seq<char>,
    outcome: DispatchOutcome<T>,
    after: ComputerUseSession,
    result: ComputerUseResult<T>,
)
    requires
        is_dispatch_outcome(before, context, outcome, after, result),
        result is Err,
    ensures
        result->Err_0.details is Some,
        result->Err_0.details->0.blind_retry == Some(false),
        result->Err_0.details->0.automatic_input == Some(false),
        result->Err_0.details->0.session_remains_active == Some(true) ==> after.active
            == before.active && after.target == before.target,
        result->Err_0.details->0.local_session_invalidated == Some(true) <==> after
            == before.ended() && result->Err_0.details->0.completion == Some(
            ComputerUseCompletionState::Unknown,
        ),
        result->Err_0.details->0.action_attempted == Some(false) <==> outcome is Refused || outcome
            matches DispatchOutcome::Interrupted { completion: ActionCompletion::NotStarted, .. },
{
}

/// A session that ended is over for good: nothing short of a new start makes
/// it active, and ending it once more changes no more than its epoch.
pub proof fn law_ended_session_owns_nothing(session: ComputerUseSession)
    ensures
        !session.ended().active,
        session.ended().upstream is Inactive,
        session.ended().target is None,
        session.ended().observation is None,
        session.ended().live is None,
        session.ended().banner is None,
        session.ended().showcase is None,
        session.ended().pixel_route is None,
        !session.ended().recording_active,
        !session.ended().marker.visible,
        session.ended().session_id == session.session_id,
        session.ended().scope == session.scope,
        session.ended().ended() == (ComputerUseSession {
            action_evidence_epoch: session.ended().action_evidence_epoch.next(),
            ..session.ended()
        }),
{
}

/// Each light of the banner is set by itself: the others, and all else of the
/// session, stay as they are, and a session without a banner gets none.
pub proof fn law_lights_are_set_one_by_one(
    session: ComputerUseSession,
    activity: BannerActivity,
    lit: bool,
)
    ensures
        session.showing(activity) == (ComputerUseSession {
            banner: session.showing(activity).banner,
            ..session
        }),
        session.recording_shown(lit) == (ComputerUseSession {
            banner: session.recording_shown(lit).banner,
            ..session
        }),
        session.live_shown(lit) == (ComputerUseSession {
            banner: session.live_shown(lit).banner,
            ..session
        }),
        session.banner is None ==> session.showing(activity).banner is None
            && session.recording_shown(lit).banner is None && session.live_shown(lit).banner
            is None,
        session.banner matches Some(shown) ==> {
            &&& session.showing(activity).banner == Some(
                BannerState {
                    activity,
                    recording: shown.recording,
                    live_observation: shown.live_observation,
                },
            )
            &&& session.recording_shown(lit).banner == Some(
                BannerState {
                    activity: shown.activity,
                    recording: lit,
                    live_observation: shown.live_observation,
                },
            )
            &&& session.live_shown(lit).banner == Some(
                BannerState {
                    activity: shown.activity,
                    recording: shown.recording,
                    live_observation: lit,
                },
            )
        },
{
}

/// Dropped evidence takes the observation with it and nothing that is owned: the
/// window, the feed, the recorder, the recording and the banner stay. The newest
/// frame of a feed becomes a boundary, and the receipt moves on.
pub proof fn law_dropped_evidence_drops_nothing_else(session: ComputerUseSession)
    ensures
        session.without_evidence().observation is None,
        session.without_evidence().post_action_fence is None,
        !session.without_evidence().windows_uia,
        session.action_evidence_epoch.value < u64::MAX
            ==> session.without_evidence().action_evidence_epoch.value
            == session.action_evidence_epoch.value + 1,
        (session.live matches Some(link) && link.latest is Some)
            ==> session.without_evidence().transition_fence == session.live->0.latest,
        !(session.live matches Some(link) && link.latest is Some)
            ==> session.without_evidence().transition_fence == session.transition_fence,
        session.without_evidence() == (ComputerUseSession {
            observation: None,
            post_action_fence: None,
            windows_uia: false,
            action_evidence_epoch: session.without_evidence().action_evidence_epoch,
            transition_fence: session.without_evidence().transition_fence,
            ..session
        }),
{
}

/// A failure drops evidence exactly where it says that the window is gone, is
/// another one, cannot be seen, or that the desktop cannot; a window that is gone
/// is let go of as well. No other failure changes anything.
pub proof fn law_failures_void_what_they_have_to(
    session: ComputerUseSession,
    code: ComputerUseErrorCode,
)
    ensures
        session.after_failure(code).target == if code == ComputerUseErrorCode::MissingWindow {
            None
        } else {
            session.target
        },
        code == ComputerUseErrorCode::MissingWindow || code == ComputerUseErrorCode::InvalidTarget
            || code == ComputerUseErrorCode::TargetMinimized || code
            == ComputerUseErrorCode::TargetUnavailable || code
            == ComputerUseErrorCode::InteractiveDesktopUnavailable ==> session.after_failure(
            code,
        ).observation is None && session.after_failure(code).post_action_fence is None
            && session.after_failure(code).action_evidence_epoch
            == session.action_evidence_epoch.next(),
        !(code == ComputerUseErrorCode::MissingWindow || code == ComputerUseErrorCode::InvalidTarget
            || code == ComputerUseErrorCode::TargetMinimized || code
            == ComputerUseErrorCode::TargetUnavailable || code
            == ComputerUseErrorCode::InteractiveDesktopUnavailable) ==> session.after_failure(code)
            == session,
        session.after_failure(code).active == session.active,
        session.after_failure(code).live == session.live,
        session.after_failure(code).showcase == session.showcase,
        session.after_failure(code).recording_active == session.recording_active,
        session.after_failure(code).banner == session.banner,
{
}

/// After an action the newest frame of the feed is a boundary, and the banner is
/// ready again; what was observed before is not touched by that alone.
pub proof fn law_actions_leave_a_boundary(session: ComputerUseSession)
    ensures
        session.acted().post_action_fence == match session.live {
            Some(link) => link.latest,
            None => None,
        },
        session.banner matches Some(shown) ==> (session.acted().banner matches Some(now)
            && now.activity == BannerActivity::Ready && now.recording == shown.recording
            && now.live_observation == shown.live_observation),
        session.acted().observation == session.observation,
        session.acted().transition_fence == session.transition_fence,
        session.acted().target == session.target,
        session.acted().active == session.active,
        session.acted().action_evidence_epoch == session.action_evidence_epoch,
{
}

/// Evidence is current for less than thirty seconds after a refresh, and only of
/// a session that runs upstream. A refresh makes it current and spends what was
/// seen before.
pub proof fn law_evidence_is_current_for_half_a_minute(session: ComputerUseSession, now_ms: u64)
    ensures
        session.evidence_current(now_ms) <==> session.upstream is Active && (
        session.last_refresh_ms matches Some(refreshed) && now_ms < refreshed + 30_000),
        session.refresh_needed(now_ms) <==> session.upstream is Active
            && !session.evidence_current(now_ms),
        session.refreshed(now_ms).last_refresh_ms == Some(now_ms),
        session.refreshed(now_ms).observation is None,
        session.refreshed(now_ms).target == session.target,
        session.refreshed(now_ms).upstream == session.upstream,
        session.upstream is Active ==> session.refreshed(now_ms).evidence_current(now_ms),
{
}

/// A window may be used exactly where it was found, is the one the session is
/// bound to, is on the screen and is not minimized. Else the error says which of
/// these fails first.
pub proof fn law_usable_windows_are_the_bound_ones(
    session: ComputerUseSession,
    target: WindowTarget,
    error: ComputerUseError,
)
    ensures
        is_usable_target(session, Ok(target)) <==> (session.target matches Some(bound) && bound.pid
            == target.pid && bound.window_id == target.window_id && target.is_on_screen
            && !target.is_minimized),
        !is_usable_target(session, Err(error)),
        is_target_failure(session, Err(error), error),
        is_target_failure(session, Ok(target), error) ==> {
            &&& session.target is None ==> error.code == ComputerUseErrorCode::MissingWindow
            &&& (session.target matches Some(bound) && (bound.pid != target.pid || bound.window_id
                != target.window_id)) ==> error.code == ComputerUseErrorCode::TargetUnavailable
            &&& (session.target matches Some(bound) && bound.pid == target.pid && bound.window_id
                == target.window_id && target.is_minimized) ==> error.code
                == ComputerUseErrorCode::TargetMinimized
        },
{
}

/// What a completed dispatch hands back is what the driver answered; a failed one
/// hands back no value, and its error keeps the driver's words.
pub proof fn law_dispatches_hand_the_answer_on<T>(
    before: ComputerUseSession,
    context: Seq<char>,
    outcome: DispatchOutcome<T>,
    after: ComputerUseSession,
    result: ComputerUseResult<T>,
)
    requires
        is_dispatch_outcome(before, context, outcome, after, result),
    ensures
        outcome matches DispatchOutcome::Completed(value) ==> (result matches Ok(given) && given
            == value),
        (outcome matches DispatchOutcome::ToolFailed(cause) && result matches Err(error))
            ==> result->Err_0.message == outcome->ToolFailed_0.message,
        (outcome matches DispatchOutcome::Refused(cause) && result matches Err(error))
            ==> result->Err_0.message == outcome->Refused_0.message,
        outcome matches DispatchOutcome::ConnectionLost(cause) ==> result is Err
            && result->Err_0.message == cause.message && !after.active && after.target is None,
        outcome matches DispatchOutcome::NotReturned(cause) ==> result is Err
            && result->Err_0.message == cause.message && !after.active && after.target is None,
        outcome matches DispatchOutcome::ToolFailed(cause) ==> result is Err && after.active
            == before.active && after.target == before.target,
        outcome matches DispatchOutcome::Refused(cause) ==> result is Err && after == before,
        outcome is Completed ==> after.active == before.active && after.target == before.target
            && after.observation is None,
{
}

/// A read of evidence hands the answer on, or why there is none, in the driver's
/// words.
pub proof fn law_evidence_reads_hand_the_answer_on<T>(
    context: Seq<char>,
    outcome: DispatchOutcome<T>,
    result: ComputerUseResult<T>,
)
    requires
        is_evidence_outcome(context, outcome, result),
    ensures
        outcome matches DispatchOutcome::Completed(value) ==> (result matches Ok(given) && given
            == value),
        !(outcome is Completed) ==> result is Err,
        outcome matches DispatchOutcome::ToolFailed(cause) ==> result->Err_0 == cause,
        outcome matches DispatchOutcome::ConnectionLost(cause) ==> result->Err_0 == cause,
        outcome matches DispatchOutcome::Refused(cause) ==> result->Err_0 == cause,
        outcome matches DispatchOutcome::NotReturned(cause) ==> result->Err_0.message
            == cause.message && result->Err_0.code == cause.code,
{
}

/// A refresh that did not come back in time is of unknown completion; any other
/// failure of it is handed on as it is.
pub proof fn law_late_refreshes_are_of_unknown_completion(
    cause: ComputerUseError,
    error: ComputerUseError,
)
    requires
        is_refresh_failure(cause, error),
    ensures
        error.message@ == cause.message@,
        cause.code == ComputerUseErrorCode::InputFailed && (cause.details matches Some(details)
            && details.timed_out == Some(true)) ==> error.code
            == ComputerUseErrorCode::CompletionUnknown,
        cause.code != ComputerUseErrorCode::InputFailed ==> error == cause,
{
}

/// What is published shows a window that was found usable and the same once more,
/// past an open gate; a refused gate is the error.
pub proof fn law_published_windows_are_revalidated(
    before: ComputerUseSession,
    observation_gate: ComputerUseResult<()>,
    resolved: ComputerUseResult<WindowTarget>,
    expected: WindowTarget,
    after: ComputerUseSession,
    r: ComputerUseResult<WindowTarget>,
)
    requires
        publication_is_revalidated(before, observation_gate, resolved, expected, after, r),
    ensures
        r is Ok <==> observation_gate is Ok && is_usable_target(before, resolved)
            && resolved->Ok_0.pid == expected.pid && resolved->Ok_0.window_id
            == expected.window_id,
        r is Ok ==> r == resolved,
        observation_gate matches Err(error) ==> r == Err::<WindowTarget, ComputerUseError>(error),
{
}

/// A session that was made is the one asked for and does not run yet; it owns no
/// lease, has no evidence and records nothing.
pub proof fn law_new_sessions_are_as_asked_for(
    scope: ComputerUseTargetScope,
    app_name: String,
    agent_name: String,
    session_id: String,
    label: String,
    native_windows: bool,
    r: ComputerUseResult<ComputerUseSession>,
)
    requires
        session_is_made(scope, app_name, agent_name, session_id, label, native_windows, r),
        r is Ok,
    ensures
        r->Ok_0.scope == scope,
        r->Ok_0.app_name == app_name,
        r->Ok_0.agent_name == agent_name,
        r->Ok_0.session_id == session_id,
        r->Ok_0.marker.label == label,
        r->Ok_0.native_windows == native_windows,
        !r->Ok_0.active,
        r->Ok_0.target is None,
        r->Ok_0.observation is None,
        r->Ok_0.live is None,
        r->Ok_0.pixel_route is None,
        r->Ok_0.banner is None,
        r->Ok_0.post_action_fence is None,
        !r->Ok_0.marker.visible,
        !r->Ok_0.recording_active,
        r->Ok_0.transition_fence is None,
        trimmed(session_id@).len() > 0,
        scope.refusal() is None,
{
}

} // verus!
