//! Sessions with the whole desktop: start, snapshot, screen-absolute actions,
//! and stop.

use crate::contracts::{
    ComputerUseAction, ComputerUseDesktopSnapshot, ComputerUseMarker, ComputerUseToolResult,
    MOUSE_CURSOR_THEME,
};
use crate::driver::ToolReply;
use crate::errors::{ComputerUseError, ComputerUseErrorCode, ComputerUseResult};
#[allow(unused_imports)]
use crate::errors::fails_with;
use crate::json::{members_of, put_member, without_member, Json, JsonMember};
#[allow(unused_imports)]
use crate::json::{object_tree, unsigned_tree, JsonTree};
use crate::media::decode_image_data;
#[allow(unused_imports)]
use crate::media::base64_decoded;
use crate::session_lifecycle::marker_json;
#[allow(unused_imports)]
use crate::session_lifecycle::marker_tree;
use crate::session_observation::structured_or_empty;
#[allow(unused_imports)]
use crate::session_observation::accessibility_of;
use crate::steps::Step;
#[allow(unused_imports)]
use crate::steps::stops;
use crate::text::{decimal_text, is_blank, join2, text_eq};
#[allow(unused_imports)]
use crate::text::{decimal, trimmed};
#[allow(unused_imports)]
use crate::json::optional_text;
use vstd::prelude::*;
use vstd::string::*;

verus! {

/// How long the agent's cursor glides to a new place.
pub const CURSOR_GLIDE_MS: u64 = 180;

/// The scope of an upstream session.
#[derive(Debug, Clone, Copy, PartialEq, Eq, Structural)]
pub enum CaptureScope {
    Window,
    Desktop,
}

impl CaptureScope {
    pub open spec fn wire_text(self) -> Seq<char> {
        match self {
            CaptureScope::Window => "window"@,
            CaptureScope::Desktop => "desktop"@,
        }
    }

    pub fn wire_name(self) -> (r: &'static str)
        ensures
            r@ == self.wire_text(),
    {
        match self {
            CaptureScope::Window => "window",
            CaptureScope::Desktop => "desktop",
        }
    }
}

/// An object with the session alone.
pub open spec fn session_tree(session_id: Seq<char>) -> Map<Seq<char>, JsonTree> {
    Map::<Seq<char>, JsonTree>::empty().insert("session"@, JsonTree::Text(session_id))
}

/// What an upstream session is started with.
pub open spec fn start_tree(
    session_id: Seq<char>,
    scope: CaptureScope,
    label: Seq<char>,
) -> JsonTree {
    JsonTree::Object(
        session_tree(session_id).insert(
            "capture_scope"@,
            JsonTree::Text(scope.wire_text()),
        ).insert(
            "cursor_theme"@,
            JsonTree::Object(
                Map::<Seq<char>, JsonTree>::empty().insert(
                    "theme_id"@,
                    JsonTree::Text(MOUSE_CURSOR_THEME@),
                ).insert("reduced_motion"@, JsonTree::Text("auto"@)),
            ),
        ).insert("_public_session_label"@, JsonTree::Text(label)),
    )
}

fn session_members(session_id: &str) -> (r: Vec<JsonMember>)
    ensures
        object_tree(r@) == session_tree(session_id@),
{
    let mut members: Vec<JsonMember> = Vec::new();
    put_member(&mut members, "session", Json::text(session_id));
    members
}

/// The arguments that start an upstream session.
pub fn start_arguments(session_id: &str, scope: CaptureScope, label: &str) -> (r: Json)
    ensures
        r.view() == start_tree(session_id@, scope, label@),
{
    let mut theme: Vec<JsonMember> = Vec::new();
    put_member(&mut theme, "theme_id", Json::text(MOUSE_CURSOR_THEME));
    put_member(&mut theme, "reduced_motion", Json::text("auto"));
    let mut members = session_members(session_id);
    put_member(&mut members, "capture_scope", Json::text(scope.wire_name()));
    put_member(&mut members, "cursor_theme", Json::Object(theme));
    put_member(&mut members, "_public_session_label", Json::text(label));
    Json::Object(members)
}

/// The arguments that name a session and nothing else.
pub fn session_arguments(session_id: &str) -> (r: Json)
    ensures
        r.view() == JsonTree::Object(session_tree(session_id@)),
{
    Json::Object(session_members(session_id))
}

/// Where the marker of a started session is in its course.
#[derive(Debug)]
pub enum MarkerPhase {
    /// The cursor shown.
    Enable,
    /// The cursor's motion set.
    Motion,
    /// The session ended, because of this failure.
    Cleanup { failure: ComputerUseError },
}

/// Shows the marker of a session that has just been started.
#[derive(Debug)]
pub struct MarkerRun {
    pub session_id: String,
    pub phase: MarkerPhase,
}

pub type MarkerStep = Step<MarkerRun, ()>;

/// Begins to show a marker, where the driver renders one.
pub fn begin_session_marker(renderer_enabled: bool, session_id: &str) -> (r: MarkerStep)
    ensures
        if renderer_enabled {
            &&& r matches Step::Continue(run)
            &&& run.session_id@ == session_id@
            &&& run.phase is Enable
        } else {
            r matches Step::Done(Ok(_))
        },
{
    if !renderer_enabled {
        return Step::Done(Ok(()));
    }
    Step::Continue(MarkerRun { session_id: session_id.to_owned(), phase: MarkerPhase::Enable })
}

/// The arguments of the call a marker needs next.
pub open spec fn marker_call_tree(run: MarkerRun) -> JsonTree {
    match run.phase {
        MarkerPhase::Enable => JsonTree::Object(
            session_tree(run.session_id@).insert("enabled"@, JsonTree::Bool(true)),
        ),
        MarkerPhase::Motion => JsonTree::Object(
            session_tree(run.session_id@).insert(
                "glide_duration_ms"@,
                unsigned_tree(CURSOR_GLIDE_MS),
            ),
        ),
        MarkerPhase::Cleanup { .. } => JsonTree::Object(session_tree(run.session_id@)),
    }
}

/// One step of a marker: a failure ends the session first and is returned
/// after.
pub open spec fn marker_step(
    run: MarkerRun,
    called: ComputerUseResult<()>,
    step: MarkerStep,
) -> bool {
    match run.phase {
        MarkerPhase::Cleanup { failure } => stops(step, failure),
        _ => match called {
            Err(failure) => step == MarkerStep::Continue(
                MarkerRun { phase: MarkerPhase::Cleanup { failure }, ..run },
            ),
            Ok(()) => if run.phase is Enable {
                step == MarkerStep::Continue(MarkerRun { phase: MarkerPhase::Motion, ..run })
            } else {
                step matches Step::Done(Ok(_))
            },
        },
    }
}

impl MarkerRun {
    /// The tool the marker needs next.
    pub fn tool(&self) -> (r: &'static str)
        ensures
            r@ == match self.phase {
                MarkerPhase::Enable => "set_agent_cursor_enabled"@,
                MarkerPhase::Motion => "set_agent_cursor_motion"@,
                MarkerPhase::Cleanup { .. } => "end_session"@,
            },
    {
        match &self.phase {
            MarkerPhase::Enable => "set_agent_cursor_enabled",
            MarkerPhase::Motion => "set_agent_cursor_motion",
            MarkerPhase::Cleanup { .. } => "end_session",
        }
    }

    /// The arguments of that tool.
    pub fn arguments(&self) -> (r: Json)
        ensures
            r.view() == marker_call_tree(*self),
    {
        let mut members = session_members(self.session_id.as_str());
        match &self.phase {
            MarkerPhase::Enable => put_member(&mut members, "enabled", Json::Bool(true)),
            MarkerPhase::Motion => put_member(
                &mut members,
                "glide_duration_ms",
                Json::unsigned(CURSOR_GLIDE_MS),
            ),
            MarkerPhase::Cleanup { .. } => {},
        }
        Json::Object(members)
    }

    /// Takes in what came of the call.
    pub fn advance(self, called: ComputerUseResult<()>) -> (r: MarkerStep)
        ensures
            marker_step(self, called, r),
    {
        let MarkerRun { session_id, phase } = self;
        match phase {
            MarkerPhase::Cleanup { failure } => Step::Done(Err(failure)),
            MarkerPhase::Enable => match called {
                Ok(()) => Step::Continue(MarkerRun { session_id, phase: MarkerPhase::Motion }),
                Err(failure) => Step::Continue(
                    MarkerRun { session_id, phase: MarkerPhase::Cleanup { failure } },
                ),
            },
            MarkerPhase::Motion => match called {
                Ok(()) => Step::Done(Ok(())),
                Err(failure) => Step::Continue(
                    MarkerRun { session_id, phase: MarkerPhase::Cleanup { failure } },
                ),
            },
        }
    }
}

/// A session whose marker cannot be shown is ended before its failure is
/// returned, and the failure is the one that came first.
pub proof fn law_failed_marker_ends_the_session(
    run: MarkerRun,
    failure: ComputerUseError,
    step: MarkerStep,
    ended: ComputerUseResult<()>,
    last: MarkerStep,
)
    requires
        !(run.phase is Cleanup),
        marker_step(run, Err(failure), step),
        step matches Step::Continue(next) && marker_step(next, ended, last),
    ensures
        step matches Step::Continue(next) && next.phase is Cleanup,
        stops(last, failure),
{
}

/// A session with the whole desktop.
#[derive(Debug)]
pub struct ComputerUseDesktopSession {
    pub session_id: String,
    pub marker: ComputerUseMarker,
    pub active: bool,
    pub latest_observation_id: Option<String>,
}

/// Where the start of a desktop session is in its course.
#[derive(Debug, Clone, Copy, PartialEq, Eq, Structural)]
pub enum DesktopStartPhase {
    Gate,
    Start,
    Marker,
}

/// What comes back while a desktop session starts.
#[derive(Debug)]
pub enum DesktopStartReply {
    Gate(ComputerUseResult<()>),
    Started(ComputerUseResult<()>),
    Marked(ComputerUseResult<()>),
}

pub type DesktopStartStep = Step<DesktopStartPhase, Json>;

/// How the end of an upstream session went.
#[derive(Debug)]
pub enum EndSessionReply {
    /// The call did not come back with an answer.
    CallFailed(ComputerUseError),
    /// The tool answered with a failure.
    ToolFailed(ComputerUseError),
    Ended,
}

/// How a snapshot of the desktop ended.
#[derive(Debug)]
pub enum DesktopCapture {
    TimedOut,
    Finished(ComputerUseResult<ComputerUseDesktopSnapshot>),
}

/// Where a desktop action is in its course.
#[derive(Debug, Clone, Copy, PartialEq, Eq, Structural)]
pub enum DesktopActionPhase {
    Input,
    Dispatch,
}

/// What comes back while a desktop action runs.
#[derive(Debug)]
pub enum DesktopActionReply {
    Gate(ComputerUseResult<()>),
    Dispatched(ComputerUseResult<ComputerUseToolResult>),
}

pub type DesktopActionStep = Step<DesktopActionPhase, ComputerUseToolResult>;

/// The state of a desktop session, with its marker where it is shown.
pub open spec fn desktop_state_tree(active: bool, marker: Option<ComputerUseMarker>) -> JsonTree {
    let state = Map::<Seq<char>, JsonTree>::empty().insert(
        "success"@,
        JsonTree::Bool(true),
    ).insert("active"@, JsonTree::Bool(active));
    JsonTree::Object(
        match marker {
            Some(marker) => state.insert("marker"@, marker_tree(marker)),
            None => state,
        },
    )
}

/// The action needs an element, which a desktop does not have.
pub open spec fn is_semantic_action(action: ComputerUseAction) -> bool {
    action.element_index is Some || action.element_token is Some || action.action@ == "set_text"@
        || action.action@ == "set_value"@
}

/// What is published of a desktop action.
pub open spec fn desktop_action_members(
    action: JsonTree,
    marker: ComputerUseMarker,
    cua: JsonTree,
) -> Map<Seq<char>, JsonTree> {
    Map::<Seq<char>, JsonTree>::empty().insert("success"@, JsonTree::Bool(true)).insert(
        "action"@,
        action,
    ).insert("marker"@, marker_tree(marker)).insert("cua"@, cua)
}

/// One step of a desktop action.
pub open spec fn desktop_action_step(
    before: ComputerUseDesktopSession,
    phase: DesktopActionPhase,
    action: JsonTree,
    reply: DesktopActionReply,
    after: ComputerUseDesktopSession,
    step: DesktopActionStep,
) -> bool {
    match (phase, reply) {
        (DesktopActionPhase::Input, DesktopActionReply::Gate(gate)) => after == before
            && match gate {
            Ok(_) => step == DesktopActionStep::Continue(DesktopActionPhase::Dispatch),
            Err(error) => stops(step, error),
        },
        (DesktopActionPhase::Dispatch, DesktopActionReply::Dispatched(result)) => match result {
            Ok(result) => {
                &&& after == (ComputerUseDesktopSession { latest_observation_id: None, ..before })
                &&& step matches Step::Done(Ok(published))
                &&& published == (ComputerUseToolResult { value: published.value, ..result })
                &&& published.value.view() == JsonTree::Object(
                    desktop_action_members(action, before.marker, result.value.view()),
                )
            },
            Err(error) => after == before && stops(step, error),
        },
        _ => after == before && step == DesktopActionStep::Continue(phase),
    }
}

/// A desktop session is made for a name, and does not run yet.
pub open spec fn desktop_session_is_made(label: String, session_id: String, r: ComputerUseResult<ComputerUseDesktopSession>) -> bool {
    if trimmed(session_id@).len() == 0 {
        fails_with(
            r,
            ComputerUseErrorCode::InvalidAction,
            "desktop session_id must not be empty"@,
        )
    } else {
        &&& r matches Ok(session)
        &&& session.session_id == session_id
        &&& session.marker.label == label
        &&& session.marker.backend@ == "cua-driver-sdk"@
        &&& !session.marker.visible
        &&& !session.active
        &&& session.latest_observation_id is None
    }
}

/// A desktop session that does not run begins to start.
pub open spec fn desktop_start_begins(session: ComputerUseDesktopSession, r: ComputerUseResult<DesktopStartPhase>) -> bool {
    if session.active {
        fails_with(
            r,
            ComputerUseErrorCode::InvalidAction,
            "desktop session is already active"@,
        )
    } else {
        r == Ok::<DesktopStartPhase, ComputerUseError>(DesktopStartPhase::Gate)
    }
}

/// One step of the start of a desktop session.
pub open spec fn desktop_start_step(before: ComputerUseDesktopSession, phase: DesktopStartPhase, reply: DesktopStartReply, after: ComputerUseDesktopSession, step: DesktopStartStep) -> bool {
    match (phase, reply) {
        (DesktopStartPhase::Gate, DesktopStartReply::Gate(gate)) => after
            == before && match gate {
            Ok(_) => step == DesktopStartStep::Continue(DesktopStartPhase::Start),
            Err(error) => stops(step, error),
        },
        (DesktopStartPhase::Start, DesktopStartReply::Started(started)) => after
            == before && match started {
            Ok(_) => step == DesktopStartStep::Continue(DesktopStartPhase::Marker),
            Err(error) => stops(step, error),
        },
        (DesktopStartPhase::Marker, DesktopStartReply::Marked(marked)) => match marked {
            Ok(_) => {
                &&& after == before.started()
                &&& step matches Step::Done(Ok(state))
                &&& state.view() == desktop_state_tree(true, Some(after.marker))
            },
            Err(error) => after == before && stops(step, error),
        },
        _ => after == before && step == DesktopStartStep::Continue(phase),
    }
}

/// A desktop snapshot was taken, or not.
pub open spec fn desktop_screenshot_ends(before: ComputerUseDesktopSession, capture: DesktopCapture, after: ComputerUseDesktopSession, r: ComputerUseResult<ComputerUseDesktopSnapshot>) -> bool {
    match capture {
        DesktopCapture::TimedOut => after == before && fails_with(
            r,
            ComputerUseErrorCode::InputFailed,
            "CUA desktop snapshot timed out; the desktop session was invalidated"@,
        ),
        DesktopCapture::Finished(result) => r == result && match result {
            Ok(snapshot) => after == (ComputerUseDesktopSession {
                latest_observation_id: Some(snapshot.observation_id),
                ..before
            }),
            Err(_) => after == before,
        },
    }
}

/// An action on the desktop begins on the latest snapshot.
pub open spec fn desktop_action_begins(session: ComputerUseDesktopSession, validation: ComputerUseResult<()>, action: ComputerUseAction, r: ComputerUseResult<DesktopActionPhase>) -> bool {
    if !session.active {
        fails_with(
            r,
            ComputerUseErrorCode::InvalidAction,
            "desktop session is not active"@,
        )
    } else if validation is Err {
        r == Err::<DesktopActionPhase, ComputerUseError>(validation->Err_0)
    } else if is_semantic_action(action) {
        fails_with(
            r,
            ComputerUseErrorCode::InvalidAction,
            "desktop actions support only screen-coordinate input"@,
        )
    } else if !session.is_based_on_latest(action) {
        fails_with(
            r,
            ComputerUseErrorCode::StaleObservation,
            "take a fresh desktop snapshot before acting"@,
        )
    } else {
        r == Ok::<DesktopActionPhase, ComputerUseError>(DesktopActionPhase::Input)
    }
}

/// A desktop session was stopped, or not.
pub open spec fn desktop_stop_ends(before: ComputerUseDesktopSession, reply: EndSessionReply, after: ComputerUseDesktopSession, r: ComputerUseResult<Json>) -> bool {
    match reply {
        EndSessionReply::CallFailed(error) => after == before.ended() && r
            == Err::<Json, ComputerUseError>(error),
        EndSessionReply::ToolFailed(error) => after == before && r == Err::<
            Json,
            ComputerUseError,
        >(error),
        EndSessionReply::Ended => {
            &&& after == before.ended()
            &&& r matches Ok(state)
            &&& state.view() == desktop_state_tree(false, Some(after.marker))
        },
    }
}

impl ComputerUseDesktopSession {
    /// The session after it ended.
    pub open spec fn ended(self) -> ComputerUseDesktopSession {
        ComputerUseDesktopSession {
            active: false,
            marker: ComputerUseMarker { visible: false, ..self.marker },
            latest_observation_id: None,
            ..self
        }
    }

    /// The session after it started.
    pub open spec fn started(self) -> ComputerUseDesktopSession {
        ComputerUseDesktopSession {
            active: true,
            marker: ComputerUseMarker { visible: true, ..self.marker },
            ..self
        }
    }

    /// The action is based on the latest snapshot.
    pub open spec fn is_based_on_latest(self, action: ComputerUseAction) -> bool {
        self.latest_observation_id matches Some(latest)
            && action.observation_id matches Some(given) && latest@ == given@
    }

    /// A desktop session that has not started. `label` is what its marker says.
    pub fn new(label: String, session_id: String) -> (r: ComputerUseResult<
        ComputerUseDesktopSession,
    >)
        ensures
            desktop_session_is_made(label, session_id, r),
    {
        if is_blank(session_id.as_str()) {
            return Err(
                ComputerUseError::new(
                    ComputerUseErrorCode::InvalidAction,
                    "desktop session_id must not be empty",
                ),
            );
        }
        Ok(
            ComputerUseDesktopSession {
                session_id,
                marker: ComputerUseMarker { visible: false, label, backend: "cua-driver-sdk" },
                active: false,
                latest_observation_id: None,
            },
        )
    }

    fn state_json(&self, with_marker: bool) -> (r: Json)
        ensures
            r.view() == desktop_state_tree(
                self.active,
                if with_marker {
                    Some(self.marker)
                } else {
                    None
                },
            ),
    {
        let mut members: Vec<JsonMember> = Vec::new();
        put_member(&mut members, "success", Json::Bool(true));
        put_member(&mut members, "active", Json::Bool(self.active));
        if with_marker {
            put_member(&mut members, "marker", marker_json(&self.marker));
        }
        Json::Object(members)
    }

    /// Begins to start the session.
    pub fn begin_start(&self) -> (r: ComputerUseResult<DesktopStartPhase>)
        ensures
            desktop_start_begins(*self, r),
    {
        if self.active {
            return Err(
                ComputerUseError::new(
                    ComputerUseErrorCode::InvalidAction,
                    "desktop session is already active",
                ),
            );
        }
        Ok(DesktopStartPhase::Gate)
    }

    /// Takes in what came back while the session starts. What the phase did
    /// not ask for changes nothing.
    pub fn advance_start(&mut self, phase: DesktopStartPhase, reply: DesktopStartReply) -> (r:
        DesktopStartStep)
        ensures
            desktop_start_step(*old(self), phase, reply, *final(self), r),
    {
        match (phase, reply) {
            (DesktopStartPhase::Gate, DesktopStartReply::Gate(gate)) => match gate {
                Ok(()) => Step::Continue(DesktopStartPhase::Start),
                Err(error) => Step::Done(Err(error)),
            },
            (DesktopStartPhase::Start, DesktopStartReply::Started(started)) => match started {
                Ok(()) => Step::Continue(DesktopStartPhase::Marker),
                Err(error) => Step::Done(Err(error)),
            },
            (DesktopStartPhase::Marker, DesktopStartReply::Marked(marked)) => match marked {
                Ok(()) => {
                    self.active = true;
                    self.marker.visible = true;
                    Step::Done(Ok(self.state_json(true)))
                },
                Err(error) => Step::Done(Err(error)),
            },
            _ => Step::Continue(phase),
        }
    }

    /// Only an active session takes a snapshot or acts.
    pub fn require_active(&self) -> (r: ComputerUseResult<()>)
        ensures
            if self.active {
                r is Ok
            } else {
                fails_with(
                    r,
                    ComputerUseErrorCode::InvalidAction,
                    "desktop session is not active"@,
                )
            },
    {
        if !self.active {
            return Err(
                ComputerUseError::new(
                    ComputerUseErrorCode::InvalidAction,
                    "desktop session is not active",
                ),
            );
        }
        Ok(())
    }

    /// Takes in a snapshot: actions are based on the latest one.
    pub fn finish_screenshot(&mut self, capture: DesktopCapture) -> (r: ComputerUseResult<
        ComputerUseDesktopSnapshot,
    >)
        ensures
            desktop_screenshot_ends(*old(self), capture, *final(self), r),
    {
        match capture {
            DesktopCapture::TimedOut => Err(
                ComputerUseError::new(
                    ComputerUseErrorCode::InputFailed,
                    "CUA desktop snapshot timed out; the desktop session was invalidated",
                ),
            ),
            DesktopCapture::Finished(result) => match result {
                Ok(snapshot) => {
                    self.latest_observation_id = Some(snapshot.observation_id.clone());
                    Ok(snapshot)
                },
                Err(error) => Err(error),
            },
        }
    }

    /// Begins an action on the desktop. `validation` is the verdict on it. An
    /// action has to name the latest snapshot, and there has to be one.
    pub fn begin_action(&self, validation: ComputerUseResult<()>, action: &ComputerUseAction) -> (r:
        ComputerUseResult<DesktopActionPhase>)
        ensures
            desktop_action_begins(*self, validation, *action, r),
    {
        match self.require_active() {
            Ok(()) => {},
            Err(error) => return Err(error),
        }
        match validation {
            Ok(()) => {},
            Err(error) => return Err(error),
        }
        if action.element_index.is_some() || action.element_token.is_some() || text_eq(
            action.action.as_str(),
            "set_text",
        ) || text_eq(action.action.as_str(), "set_value") {
            return Err(
                ComputerUseError::new(
                    ComputerUseErrorCode::InvalidAction,
                    "desktop actions support only screen-coordinate input",
                ),
            );
        }
        let based = match (&self.latest_observation_id, &action.observation_id) {
            (Some(latest), Some(given)) => text_eq(latest.as_str(), given.as_str()),
            _ => false,
        };
        if !based {
            return Err(
                ComputerUseError::new(
                    ComputerUseErrorCode::StaleObservation,
                    "take a fresh desktop snapshot before acting",
                ),
            );
        }
        Ok(DesktopActionPhase::Input)
    }

    /// Takes the answer to the phase's request in. What came of the action is
    /// published inside of what the session says; `action` is the action as it
    /// is shown. What the phase did not ask for changes nothing.
    pub fn advance_action(
        &mut self,
        phase: DesktopActionPhase,
        action: &Json,
        reply: DesktopActionReply,
    ) -> (r: DesktopActionStep)
        ensures
            desktop_action_step(*old(self), phase, action.view(), reply, *final(self), r),
    {
        match (phase, reply) {
            (DesktopActionPhase::Input, DesktopActionReply::Gate(gate)) => match gate {
                Ok(()) => Step::Continue(DesktopActionPhase::Dispatch),
                Err(error) => Step::Done(Err(error)),
            },
            (DesktopActionPhase::Dispatch, DesktopActionReply::Dispatched(result)) => match result {
                Ok(result) => {
                    self.latest_observation_id = None;
                    let mut result = result;
                    let cua = result.value;
                    let mut members: Vec<JsonMember> = Vec::new();
                    put_member(&mut members, "success", Json::Bool(true));
                    put_member(&mut members, "action", action.duplicate());
                    put_member(&mut members, "marker", marker_json(&self.marker));
                    put_member(&mut members, "cua", cua);
                    result.value = Json::Object(members);
                    Step::Done(Ok(result))
                },
                Err(error) => Step::Done(Err(error)),
            },
            _ => Step::Continue(phase),
        }
    }

    /// What the stop of a session that is not active returns.
    pub fn stop_inactive(&self) -> (r: Option<Json>)
        ensures
            if self.active {
                r is None
            } else {
                r matches Some(state) && state.view() == desktop_state_tree(false, None)
            },
    {
        if self.active {
            return None;
        }
        Some(self.state_json(false))
    }

    /// Takes in how the upstream session ended. A call without an answer ends
    /// the session here all the same.
    pub fn finish_stop(&mut self, reply: EndSessionReply) -> (r: ComputerUseResult<Json>)
        ensures
            desktop_stop_ends(*old(self), reply, *final(self), r),
    {
        match reply {
            EndSessionReply::ToolFailed(error) => Err(error),
            EndSessionReply::CallFailed(error) => {
                self.active = false;
                self.marker.visible = false;
                self.latest_observation_id = None;
                Err(error)
            },
            EndSessionReply::Ended => {
                self.active = false;
                self.marker.visible = false;
                self.latest_observation_id = None;
                Ok(self.state_json(true))
            },
        }
    }
}

/// The arguments of a desktop snapshot.
pub open spec fn desktop_snapshot_tree(session_id: Option<Seq<char>>) -> JsonTree {
            JsonTree::Object(
        match session_id {
            Some(session_id) => session_tree(session_id),
            None => Map::<Seq<char>, JsonTree>::empty(),
        },
    )
}

/// The arguments of a desktop snapshot.
pub fn desktop_snapshot_arguments(session_id: Option<&str>) -> (r: Json)
    ensures
        r.view() == desktop_snapshot_tree(optional_text(session_id)),
{
    match session_id {
        Some(session_id) => session_arguments(session_id),
        None => {
            let members: Vec<JsonMember> = Vec::new();
            assert(object_tree(members@) =~= Map::empty());
            Json::Object(members)
        },
    }
}

/// The snapshot that an answer holds.
pub open spec fn is_desktop_snapshot(reply: ToolReply, number: u64, r: ComputerUseResult<ComputerUseDesktopSnapshot>) -> bool {
    if reply.images@.len() == 0 {
        fails_with(
            r,
            ComputerUseErrorCode::CaptureFailed,
            "CUA desktop state returned no screenshot"@,
        )
    } else {
        match base64_decoded(reply.images@[0].data_base64@) {
            Err(message) => fails_with(r, ComputerUseErrorCode::CaptureFailed, message),
            Ok(bytes) => {
                &&& r matches Ok(snapshot)
                &&& snapshot.data@ == bytes
                &&& snapshot.state.view() == accessibility_of(reply)
                &&& snapshot.observation_id@ == "desktop-"@ + decimal(number as nat)
            },
        }
    }
}

/// The snapshot a reply stands for. `number` is its place among the
/// observations.
pub fn desktop_snapshot_from(reply: &ToolReply, number: u64) -> (r: ComputerUseResult<
    ComputerUseDesktopSnapshot,
>)
    ensures
        is_desktop_snapshot(*reply, number, r),
{
    if reply.images.len() == 0 {
        return Err(
            ComputerUseError::new(
                ComputerUseErrorCode::CaptureFailed,
                "CUA desktop state returned no screenshot",
            ),
        );
    }
    let data = match decode_image_data(reply.images[0].data_base64.as_str()) {
        Ok(data) => data,
        Err(error) => return Err(error),
    };
    let state = structured_or_empty(reply);
    let observation_id = join2("desktop-", decimal_text(number).as_str());
    Ok(ComputerUseDesktopSnapshot { data, state, observation_id })
}

/// The tool that the arguments name, and the rest of them.
pub open spec fn is_desktop_tool_call(arguments: JsonTree, r: Option<(String, Json)>) -> bool {
    match arguments {
        JsonTree::Object(members) => {
            &&& r matches Some((tool, rest))
            &&& tool@ == match arguments.text_at("_tool"@) {
                Some(name) => name,
                None => ""@,
            }
            &&& rest.view() == JsonTree::Object(members.remove("_tool"@))
        },
        _ => r is None,
    }
}

/// Takes the tool's name out of the arguments it travels with.
pub fn desktop_tool_call(arguments: &Json) -> (r: Option<(String, Json)>)
    ensures
        is_desktop_tool_call(arguments.view(), r),
{
    let tool = match arguments.text_at("_tool") {
        Some(name) => name.to_owned(),
        None => "".to_owned(),
    };
    match members_of(arguments) {
        Some(members) => Some((tool, Json::Object(without_member(members, "_tool")))),
        None => None,
    }
}

/// A snapshot serves one action: after an action went through, no other starts
/// before the next snapshot, and none starts in a session that ended.
pub proof fn law_snapshot_serves_one_action(
    before: ComputerUseDesktopSession,
    shown: JsonTree,
    reply: DesktopActionReply,
    after: ComputerUseDesktopSession,
    step: DesktopActionStep,
    next: ComputerUseAction,
)
    requires
        desktop_action_step(
            before,
            DesktopActionPhase::Dispatch,
            shown,
            reply,
            after,
            step,
        ),
        step matches Step::Done(Ok(_)),
    ensures
        !after.is_based_on_latest(next),
        after.active == before.active,
        !after.ended().is_based_on_latest(next),
        !after.ended().active,
{
}

/// A session is started under its name, with the scope and the label given; other
/// calls name the session, and no other thing.
pub proof fn law_sessions_are_started_by_name(
    session_id: Seq<char>,
    scope: CaptureScope,
    label: Seq<char>,
)
    ensures
        start_tree(session_id, scope, label).text_at("session"@) == Some(session_id),
        start_tree(session_id, scope, label).text_at("capture_scope"@) == Some(
            match scope {
                CaptureScope::Window => "window"@,
                CaptureScope::Desktop => "desktop"@,
            },
        ),
        start_tree(session_id, scope, label).text_at("_public_session_label"@) == Some(label),
        start_tree(session_id, scope, label).get("cursor_theme"@) matches Some(theme)
            && theme.text_at("theme_id"@) == Some(MOUSE_CURSOR_THEME@) && theme.text_at(
            "reduced_motion"@,
        ) == Some("auto"@),
        JsonTree::Object(session_tree(session_id)).text_at("session"@) == Some(session_id),
        desktop_snapshot_tree(Some(session_id)).text_at("session"@) == Some(session_id),
        desktop_snapshot_tree(None).get("session"@) is None,
{
    reveal_strlit("session");
    reveal_strlit("capture_scope");
    reveal_strlit("_public_session_label");
    reveal_strlit("cursor_theme");
    reveal_strlit("theme_id");
    reveal_strlit("reduced_motion");
    assert("session"@.len() == 7);
    assert("capture_scope"@.len() == 13);
    assert("_public_session_label"@.len() == 21);
    assert("cursor_theme"@.len() == 12);
    assert("theme_id"@.len() == 8);
    assert("reduced_motion"@.len() == 14);
}

/// The marker is shown, then set in motion, in the session's name; one that failed
/// ends the session and is the error.
pub proof fn law_markers_are_shown_and_moved(
    run: MarkerRun,
    called: ComputerUseResult<()>,
    step: MarkerStep,
)
    requires
        marker_step(run, called, step),
    ensures
        marker_call_tree(run).text_at("session"@) == Some(run.session_id@),
        run.phase is Enable ==> marker_call_tree(run).bool_at("enabled"@) == Some(true),
        run.phase is Motion ==> marker_call_tree(run).u64_at("glide_duration_ms"@) == Some(180u64),
        step matches Step::Continue(next) ==> next.session_id == run.session_id,
        (called is Ok && run.phase is Enable) ==> (step matches Step::Continue(next)
            && next.phase is Motion),
        (called is Ok && run.phase is Motion) ==> (step matches Step::Done(Ok(_))),
        (called is Err && !(run.phase is Cleanup)) ==> (step matches Step::Continue(next) && (
        next.phase matches MarkerPhase::Cleanup { failure } && failure == called->Err_0)),
        run.phase matches MarkerPhase::Cleanup { failure } ==> step == MarkerStep::Done(
            Err(failure),
        ),
{
    reveal_strlit("session");
    reveal_strlit("enabled");
    reveal_strlit("glide_duration_ms");
    assert("session"@.len() == 7);
    assert("enabled"@.len() == 7);
    assert("glide_duration_ms"@.len() == 17);
    assert("session"@[0] != "enabled"@[0]);
}

/// A desktop session keeps its name and label through its whole course. It starts
/// only where it does not run, behind its gate, its driver's session and its
/// marker; whatever of them fails is the error, and leaves it as it was.
pub proof fn law_desktop_starts_pass_every_stage(
    before: ComputerUseDesktopSession,
    phase: DesktopStartPhase,
    reply: DesktopStartReply,
    after: ComputerUseDesktopSession,
    step: DesktopStartStep,
)
    requires
        desktop_start_step(before, phase, reply, after, step),
    ensures
        after.session_id == before.session_id,
        after.marker.label == before.marker.label,
        after.marker.backend == before.marker.backend,
        after.latest_observation_id == before.latest_observation_id,
        phase == DesktopStartPhase::Gate && reply is Gate && reply->Gate_0 is Err ==> step
            == DesktopStartStep::Done(Err(reply->Gate_0->Err_0)),
        phase == DesktopStartPhase::Start && reply is Started && reply->Started_0 is Err ==> step
            == DesktopStartStep::Done(Err(reply->Started_0->Err_0)),
        phase == DesktopStartPhase::Marker && reply is Marked && reply->Marked_0 is Err ==> step
            == DesktopStartStep::Done(Err(reply->Marked_0->Err_0)),
        !(step matches Step::Done(Ok(_))) ==> after == before,
        step matches Step::Done(Ok(state)) ==> {
            &&& phase == DesktopStartPhase::Marker
            &&& after.active
            &&& after.marker.visible
            &&& state.view().bool_at("success"@) == Some(true)
            &&& state.view().bool_at("active"@) == Some(true)
            &&& state.view().get("marker"@) == Some(marker_tree(after.marker))
        },
        (step matches Step::Continue(next) && next == DesktopStartPhase::Start && phase
            == DesktopStartPhase::Gate) ==> reply is Gate && reply->Gate_0 is Ok,
        (step matches Step::Continue(next) && next == DesktopStartPhase::Marker && phase
            == DesktopStartPhase::Start) ==> reply is Started && reply->Started_0 is Ok,
        (step matches Step::Continue(next) && next == DesktopStartPhase::Marker) ==> phase
            != DesktopStartPhase::Gate,
{
    reveal_strlit("success");
    reveal_strlit("active");
    reveal_strlit("marker");
    assert("success"@.len() == 7);
    assert("active"@.len() == 6);
    assert("marker"@.len() == 6);
    assert("active"@[0] != "marker"@[0]);
}

/// A desktop session is made with a name that is not blank; it does not run, shows
/// no marker and has no snapshot. It begins to start only where it does not run.
pub proof fn law_new_desktop_sessions_do_not_run(
    label: String,
    session_id: String,
    made: ComputerUseResult<ComputerUseDesktopSession>,
    begun: ComputerUseResult<DesktopStartPhase>,
)
    requires
        desktop_session_is_made(label, session_id, made),
        made matches Ok(session) ==> desktop_start_begins(session, begun),
    ensures
        made is Ok <==> trimmed(session_id@).len() > 0,
        made matches Ok(session) ==> session.session_id == session_id && session.marker.label
            == label && !session.active && !session.marker.visible
            && session.latest_observation_id is None,
        made is Ok ==> begun == Ok::<DesktopStartPhase, ComputerUseError>(DesktopStartPhase::Gate),
        made matches Err(error) ==> error.code == ComputerUseErrorCode::InvalidAction,
{
}

/// A session that runs is not started again.
pub proof fn law_running_desktop_sessions_do_not_start(
    session: ComputerUseDesktopSession,
    begun: ComputerUseResult<DesktopStartPhase>,
)
    requires
        desktop_start_begins(session, begun),
    ensures
        begun is Ok <==> !session.active,
        begun matches Err(error) ==> error.code == ComputerUseErrorCode::InvalidAction,
{
}

/// A snapshot that was taken is handed on whole and becomes the latest; one that
/// failed or timed out leaves the session as it was.
pub proof fn law_snapshots_become_the_latest(
    before: ComputerUseDesktopSession,
    capture: DesktopCapture,
    after: ComputerUseDesktopSession,
    r: ComputerUseResult<ComputerUseDesktopSnapshot>,
)
    requires
        desktop_screenshot_ends(before, capture, after, r),
    ensures
        capture matches DesktopCapture::Finished(result) ==> r == result,
        r matches Ok(snapshot) ==> after.latest_observation_id == Some(snapshot.observation_id),
        r is Err ==> after == before,
        capture is TimedOut ==> (r matches Err(error) && error.code
            == ComputerUseErrorCode::InputFailed),
        after.active == before.active,
        after.session_id == before.session_id,
        after.marker == before.marker,
{
}

/// An action on the desktop goes by screen coordinates, on the latest snapshot of
/// a running session.
pub proof fn law_desktop_actions_name_the_latest_snapshot(
    session: ComputerUseDesktopSession,
    validation: ComputerUseResult<()>,
    action: ComputerUseAction,
    r: ComputerUseResult<DesktopActionPhase>,
)
    requires
        desktop_action_begins(session, validation, action, r),
    ensures
        r is Ok ==> {
            &&& session.active
            &&& validation is Ok
            &&& action.element_index is None
            &&& action.element_token is None
            &&& action.action@ != "set_text"@
            &&& action.action@ != "set_value"@
            &&& session.latest_observation_id is Some
            &&& action.observation_id is Some
            &&& action.observation_id->0@ == session.latest_observation_id->0@
        },
        session.active && validation is Ok && action.element_index is None
            && action.element_token is None && action.action@ != "set_text"@ && action.action@
            != "set_value"@ && session.latest_observation_id is Some && action.observation_id is Some
            && action.observation_id->0@ == session.latest_observation_id->0@ ==> r == Ok::<
            DesktopActionPhase,
            ComputerUseError,
        >(DesktopActionPhase::Input),
        session.active && validation is Err ==> r == Err::<DesktopActionPhase, ComputerUseError>(
            validation->Err_0,
        ),
{
}

/// An action passes the input gate before it is sent. One that was sent is handed
/// on with what the driver answered, and takes the snapshot with it; a refusal or
/// a failure is the error, and changes nothing.
pub proof fn law_desktop_actions_hand_the_answer_on(
    before: ComputerUseDesktopSession,
    phase: DesktopActionPhase,
    action: JsonTree,
    reply: DesktopActionReply,
    after: ComputerUseDesktopSession,
    step: DesktopActionStep,
)
    requires
        desktop_action_step(before, phase, action, reply, after, step),
    ensures
        phase == DesktopActionPhase::Input && reply is Gate && reply->Gate_0 is Err ==> step
            == DesktopActionStep::Done(Err(reply->Gate_0->Err_0)),
        phase == DesktopActionPhase::Dispatch && reply is Dispatched && reply->Dispatched_0 is Err
            ==> step == DesktopActionStep::Done(Err(reply->Dispatched_0->Err_0)),
        (step matches Step::Continue(next) && next == DesktopActionPhase::Dispatch && phase
            == DesktopActionPhase::Input) ==> reply is Gate && reply->Gate_0 is Ok,
        !(step matches Step::Done(Ok(_))) ==> after == before,
        after.active == before.active,
        after.session_id == before.session_id,
        after.marker == before.marker,
        step matches Step::Done(Ok(published)) ==> {
            &&& phase == DesktopActionPhase::Dispatch
            &&& reply is Dispatched
            &&& reply->Dispatched_0 is Ok
            &&& after.latest_observation_id is None
            &&& published.text == reply->Dispatched_0->Ok_0.text
            &&& published.degraded == reply->Dispatched_0->Ok_0.degraded
            &&& published.value.view().bool_at("success"@) == Some(true)
            &&& published.value.view().get("action"@) == Some(action)
            &&& published.value.view().get("marker"@) == Some(marker_tree(before.marker))
            &&& published.value.view().get("cua"@) == Some(
                reply->Dispatched_0->Ok_0.value.view(),
            )
        },
{
    reveal_strlit("success");
    reveal_strlit("action");
    reveal_strlit("marker");
    reveal_strlit("cua");
    assert("success"@.len() == 7);
    assert("action"@.len() == 6);
    assert("marker"@.len() == 6);
    assert("cua"@.len() == 3);
    assert("action"@[0] != "marker"@[0]);
}

/// A session that was ended, or whose driver could not be reached any more, is
/// over: it does not run, shows no marker and has no snapshot. A driver that
/// refused to end it leaves it as it was. Either failure is the error.
pub proof fn law_stopped_desktop_sessions_are_over(
    before: ComputerUseDesktopSession,
    reply: EndSessionReply,
    after: ComputerUseDesktopSession,
    r: ComputerUseResult<Json>,
)
    requires
        desktop_stop_ends(before, reply, after, r),
    ensures
        !(reply is ToolFailed) ==> !after.active && !after.marker.visible
            && after.latest_observation_id is None,
        reply is ToolFailed ==> after == before,
        reply matches EndSessionReply::CallFailed(error) ==> r == Err::<Json, ComputerUseError>(
            error,
        ),
        reply matches EndSessionReply::ToolFailed(error) ==> r == Err::<Json, ComputerUseError>(
            error,
        ),
        reply is Ended ==> (r matches Ok(state) && state.view().bool_at("active"@) == Some(false)
            && state.view().bool_at("success"@) == Some(true) && state.view().get("marker"@)
            == Some(marker_tree(after.marker))),
        after.session_id == before.session_id,
        after.marker.label == before.marker.label,
{
    reveal_strlit("success");
    reveal_strlit("active");
    reveal_strlit("marker");
    assert("success"@.len() == 7);
    assert("active"@.len() == 6);
    assert("marker"@.len() == 6);
    assert("active"@[0] != "marker"@[0]);
}

/// A snapshot holds the first picture of its answer, and the accessibility that
/// came with it; two snapshots of different numbers have different names.
pub proof fn law_desktop_snapshots_hold_the_answered_picture(
    reply: ToolReply,
    number: u64,
    r: ComputerUseResult<ComputerUseDesktopSnapshot>,
)
    requires
        is_desktop_snapshot(reply, number, r),
    ensures
        r matches Ok(snapshot) ==> reply.images@.len() > 0 && base64_decoded(
            reply.images@[0].data_base64@,
        ) == Ok::<Seq<u8>, Seq<char>>(snapshot.data@) && snapshot.state.view() == accessibility_of(
            reply,
        ) && snapshot.observation_id@ == "desktop-"@ + decimal(number as nat),
        reply.images@.len() > 0 && base64_decoded(reply.images@[0].data_base64@) is Ok ==> r is Ok,
        r matches Err(error) ==> error.code == ComputerUseErrorCode::CaptureFailed,
{
}

/// The tool of a call is the one that its arguments name; every other argument is
/// passed on under its own name.
pub proof fn law_tool_calls_keep_their_arguments(
    arguments: JsonTree,
    r: Option<(String, Json)>,
    key: Seq<char>,
)
    requires
        is_desktop_tool_call(arguments, r),
    ensures
        r is Some <==> arguments is Object,
        r matches Some((tool, rest)) ==> {
            &&& key != "_tool"@ ==> rest.view().get(key) == arguments.get(key)
            &&& rest.view().get("_tool"@) is None
            &&& arguments.text_at("_tool"@) matches Some(name) ==> tool@ == name
        },
{
}

} // verus!
