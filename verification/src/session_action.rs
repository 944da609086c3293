//! One scoped action: every guard it passes, in order, before anything is
//! sent, and what its outcome leaves behind.
//!
//! A run says what it needs to know next. The host finds it out and hands the
//! answer back; the run then moves on or is done.

use crate::contracts::{
    ComputerUseAction, ComputerUsePoint, ComputerUseToolResult, ComputerUseToolStatus,
};
use crate::driver::DispatchOutcome;
use crate::error_contracts::target_modal_changed;
#[allow(unused_imports)]
use crate::error_contracts::{
    activation_attempt_details, local_mutation_details, modal_details, restated, suggests,
};
use crate::errors::{ComputerUseError, ComputerUseErrorCode, ComputerUseResult};
#[allow(unused_imports)]
use crate::errors::fails_with;
use crate::json::{put_member, Json, JsonMember};
#[allow(unused_imports)]
use crate::json::{integer_tree, unsigned_tree, JsonTree};
use crate::session::{BannerActivity, ComputerUseSession};
#[allow(unused_imports)]
use crate::session::{is_dispatch_outcome, is_usable_target};
use crate::steps::Step;
#[allow(unused_imports)]
use crate::steps::{
    refused_gate_stops, stale_evidence_stops, stops, stops_plainly, stops_sensitively,
    unusable_target_stops,
};
use crate::text::{join3, quoted_text, signed_decimal_text, text_eq};
#[allow(unused_imports)]
use crate::text::{debug_quoted, signed_decimal};
use crate::tool_binding::{banner_activity_for_action_phase, ActionBannerPhase};
#[allow(unused_imports)]
use crate::tool_binding::action_phase_activity;
use crate::window_target::WindowTarget;
use vstd::prelude::*;
use vstd::string::*;

verus! {

/// A held coordinate click is a drag that stays where it is.
pub open spec fn is_held_click(action: ComputerUseAction) -> bool {
    action.action@ == "click"@ && action.x is Some && action.y is Some && (
    action.duration_ms matches Some(ms) && ms != 0)
}

/// The drag that a held click amounts to.
pub open spec fn is_held_drag(click: ComputerUseAction, drag: ComputerUseAction) -> bool {
    &&& drag.same_delivery(click)
    &&& drag.action@ == "drag"@
    &&& drag.x is None
    &&& drag.y is None
    &&& drag.path@ == seq![
        ComputerUsePoint { x: click.x->0, y: click.y->0 },
        ComputerUsePoint { x: click.x->0, y: click.y->0 },
    ]
    &&& drag.steps == Some(20u32)
}

pub fn held_coordinate_click_as_drag(action: &ComputerUseAction) -> (r: Option<ComputerUseAction>)
    ensures
        match r {
            Some(drag) => is_held_click(*action) && is_held_drag(*action, drag),
            None => !is_held_click(*action),
        },
{
    let duration: u64 = match action.duration_ms {
        Some(ms) => ms,
        None => return None,
    };
    let x = match action.x {
        Some(x) => x,
        None => return None,
    };
    let y = match action.y {
        Some(y) => y,
        None => return None,
    };
    if !text_eq(action.action.as_str(), "click") || duration == 0 {
        return None;
    }
    let mut drag = action.duplicate();
    drag.action = "drag".to_owned();
    drag.x = None;
    drag.y = None;
    let mut path: Vec<ComputerUsePoint> = Vec::new();
    path.push(ComputerUsePoint { x, y });
    path.push(ComputerUsePoint { x, y });
    assert(path@ =~= seq![ComputerUsePoint { x, y }, ComputerUsePoint { x, y }]);
    drag.path = path;
    drag.steps = Some(20);
    Some(drag)
}

/// Where an action is in its course.
#[derive(Debug, Clone, Copy, PartialEq, Eq, Structural)]
pub enum ActionPhase {
    /// Which guards the action needs.
    Classify,
    /// The session's window, resolved anew.
    Target,
    /// An owned window that took the input over.
    Takeover,
    /// The input desktop, for an action that needs it before anything else.
    PhysicalInput,
    /// How the action fits the observation.
    Fit,
    /// A semantic automation pattern, performed by the platform.
    Semantic,
    /// The input desktop.
    Input,
    /// The action in the coordinates of the window's pixels.
    Visual,
    /// How the platform would deliver the action as it now stands.
    Effective,
    /// The input desktop, before the window is brought to the front.
    ActivationInput,
    Activation,
    ActivatedTarget,
    ActivatedInput,
    /// The platform's own input path.
    Fast,
    DispatchTarget,
    DispatchInput,
    /// The pointer's place on the desktop.
    PointerPosition,
    PointerInput,
    PointerActivation,
    PointerMove,
    /// The driver's input path.
    Dispatch,
}

/// What a run needs to know next.
#[derive(Debug, Clone, Copy, PartialEq, Eq, Structural)]
pub enum ActionRequest {
    ClassifyAction,
    ResolveTarget,
    FindTakeover,
    CheckInput,
    FitObservation,
    PerformSemantic,
    MapToPixels,
    ClassifyDelivery,
    ActivateTarget,
    PerformFast,
    PlacePointer,
    MovePointer { x: i32, y: i32 },
    DispatchToDriver,
}

/// How the action fits the observation it names.
#[derive(Debug)]
pub struct ActionFit {
    pub fits: ComputerUseResult<()>,
    /// Why the named input backend cannot be used.
    pub backend_rejection: Option<String>,
    /// The platform performs the action by an automation pattern.
    pub semantic: bool,
    /// The coordinates are those of the local window.
    pub local_coordinates: bool,
}

/// What the host hands back.
#[derive(Debug)]
pub enum ActionReply {
    Classified { needs_upstream_evidence: bool, needs_physical_input: bool },
    Target(ComputerUseResult<WindowTarget>),
    Takeover(ComputerUseResult<Option<WindowTarget>>),
    Gate(ComputerUseResult<()>),
    Fit(ActionFit),
    Semantic(ComputerUseResult<ComputerUseToolResult>),
    Mapped(ComputerUseResult<ComputerUseAction>),
    Delivery { local_path: bool, rejection: Option<String> },
    Activated(ComputerUseResult<()>),
    Fast(ComputerUseResult<Option<ComputerUseToolResult>>),
    Placed(ComputerUseResult<(i32, i32)>),
    Moved(ComputerUseResult<()>),
    /// The driver has no call for the action.
    NotDispatchable(ComputerUseError),
    Dispatched {
        context: String,
        outcome: DispatchOutcome<ComputerUseResult<ComputerUseToolResult>>,
    },
}

/// One action on its course.
#[derive(Debug)]
pub struct ActionRun {
    pub phase: ActionPhase,
    pub action: ComputerUseAction,
    /// The window and process the action's observation shows.
    pub window_handle: u64,
    pub process_id: u32,
    pub provenance: Json,
    pub needs_physical_input: bool,
    pub local_coordinates: bool,
    pub local_path: bool,
    pub target: Option<WindowTarget>,
    pub pointer: (i32, i32),
}

/// An action that came to an end without a failure.
#[derive(Debug)]
pub struct ActionReport {
    pub success: bool,
    pub target: WindowTarget,
    pub provenance: Json,
    /// The result came from a platform automation pattern.
    pub semantic: bool,
    pub result: ComputerUseToolResult,
}

pub type ActionStep = Step<ActionRun, ActionReport>;

/// The fence around an input's target.
pub open spec fn target_fence(target: WindowTarget, foreground_verified: bool) -> JsonTree {
    JsonTree::Object(
        Map::<Seq<char>, JsonTree>::empty().insert(
            "process_id"@,
            unsigned_tree(target.pid as u64),
        ).insert("window_handle"@, unsigned_tree(target.window_id)).insert(
            "exact_window"@,
            JsonTree::Bool(true),
        ).insert("foreground_required"@, JsonTree::Bool(true)).insert(
            "foreground_verified"@,
            JsonTree::Bool(foreground_verified),
        ),
    )
}

pub fn input_target_fence(target: &WindowTarget, foreground_verified: bool) -> (r: Json)
    ensures
        r.view() == target_fence(*target, foreground_verified),
{
    let mut members: Vec<JsonMember> = Vec::new();
    put_member(&mut members, "process_id", Json::unsigned(target.pid as u64));
    put_member(&mut members, "window_handle", Json::unsigned(target.window_id));
    put_member(&mut members, "exact_window", Json::Bool(true));
    put_member(&mut members, "foreground_required", Json::Bool(true));
    put_member(&mut members, "foreground_verified", Json::Bool(foreground_verified));
    Json::Object(members)
}

/// How an input that was never attempted is reported.
pub open spec fn rejection_tree(
    backend_id: Seq<char>,
    reason: Seq<char>,
    target: WindowTarget,
) -> JsonTree {
    JsonTree::Object(
        Map::<Seq<char>, JsonTree>::empty().insert("success"@, JsonTree::Bool(false)).insert(
            "route"@,
            JsonTree::Text("input_backend_selection"@),
        ).insert(
            "delivery"@,
            JsonTree::Object(
                Map::<Seq<char>, JsonTree>::empty().insert(
                    "mode"@,
                    JsonTree::Text("foreground"@),
                ).insert("backend_id"@, JsonTree::Text(backend_id)).insert(
                    "api_accepted"@,
                    JsonTree::Bool(false),
                ).insert("consumer_effect_confirmed"@, JsonTree::Bool(false)).insert(
                    "completion_known"@,
                    JsonTree::Bool(false),
                ).insert("verification_required"@, JsonTree::Bool(true)).insert(
                    "retry_safe"@,
                    JsonTree::Bool(false),
                ).insert("fallback_attempted"@, JsonTree::Bool(false)).insert(
                    "rejection_reason"@,
                    JsonTree::Text(reason),
                ).insert("target_fence"@, target_fence(target, target.is_foreground)),
            ),
        ).insert("effect"@, JsonTree::Text("not_attempted"@)),
    )
}

/// The result reports an input that was never attempted.
pub open spec fn is_rejection(
    result: ComputerUseToolResult,
    backend_id: Seq<char>,
    reason: Seq<char>,
    target: WindowTarget,
) -> bool {
    &&& result.status == ComputerUseToolStatus::Rejected
    &&& result.value.view() == rejection_tree(backend_id, reason, target)
    &&& result.text@ == "Rejected input backend "@ + debug_quoted(backend_id)
        + " without attempting input: "@ + reason
    &&& result.images@.len() == 0
    &&& result.degraded
}

pub fn input_backend_rejection_result(backend_id: &str, reason: &str, target: &WindowTarget) -> (r:
    ComputerUseToolResult)
    ensures
        is_rejection(r, backend_id@, reason@, *target),
{
    let mut delivery: Vec<JsonMember> = Vec::new();
    put_member(&mut delivery, "mode", Json::text("foreground"));
    put_member(&mut delivery, "backend_id", Json::text(backend_id));
    put_member(&mut delivery, "api_accepted", Json::Bool(false));
    put_member(&mut delivery, "consumer_effect_confirmed", Json::Bool(false));
    put_member(&mut delivery, "completion_known", Json::Bool(false));
    put_member(&mut delivery, "verification_required", Json::Bool(true));
    put_member(&mut delivery, "retry_safe", Json::Bool(false));
    put_member(&mut delivery, "fallback_attempted", Json::Bool(false));
    put_member(&mut delivery, "rejection_reason", Json::text(reason));
    put_member(&mut delivery, "target_fence", input_target_fence(target, target.is_foreground));
    let mut members: Vec<JsonMember> = Vec::new();
    put_member(&mut members, "success", Json::Bool(false));
    put_member(&mut members, "route", Json::text("input_backend_selection"));
    put_member(&mut members, "delivery", Json::Object(delivery));
    put_member(&mut members, "effect", Json::text("not_attempted"));
    let quoted = quoted_text(backend_id);
    let mut text = join3("Rejected input backend ", quoted.as_str(), " without attempting input: ");
    text.append(reason);
    ComputerUseToolResult {
        status: ComputerUseToolStatus::Rejected,
        value: Json::Object(members),
        text,
        images: Vec::new(),
        degraded: true,
    }
}

/// Why a named input backend cannot be used, where the host has none of its
/// own to choose from.
pub fn explicit_input_backend_rejection(action: &ComputerUseAction) -> (r: Option<String>)
    ensures
        match action.input_backend_id {
            None => r is None,
            Some(id) => r matches Some(reason) && reason@ == "input backend "@ + debug_quoted(id@)
                + " is not supported on this platform"@,
        },
{
    match &action.input_backend_id {
        None => None,
        Some(id) => {
            let quoted = quoted_text(id.as_str());
            Some(
                join3("input backend ", quoted.as_str(), " is not supported on this platform"),
            )
        },
    }
}

/// The result reports a moved pointer.
pub open spec fn is_pointer_move(result: ComputerUseToolResult, x: i32, y: i32) -> bool {
    &&& result.status == ComputerUseToolStatus::Succeeded
    &&& result.value.view() == JsonTree::Object(
        Map::<Seq<char>, JsonTree>::empty().insert("scope"@, JsonTree::Text("window"@)).insert(
            "path"@,
            JsonTree::Text("SetCursorPos"@),
        ).insert("x"@, JsonTree::Number(integer_tree(x as int))).insert(
            "y"@,
            JsonTree::Number(integer_tree(y as int)),
        ),
    )
    &&& result.text@ == "Moved the OS pointer inside the target window to ("@ + signed_decimal(
        x as int,
    ) + ", "@ + signed_decimal(y as int) + ")."@
    &&& result.images@.len() == 0
    &&& !result.degraded
}

fn pointer_move_result(x: i32, y: i32) -> (r: ComputerUseToolResult)
    ensures
        is_pointer_move(r, x, y),
{
    let mut members: Vec<JsonMember> = Vec::new();
    put_member(&mut members, "scope", Json::text("window"));
    put_member(&mut members, "path", Json::text("SetCursorPos"));
    put_member(&mut members, "x", Json::signed(x as i64));
    put_member(&mut members, "y", Json::signed(y as i64));
    let mut text = join3(
        "Moved the OS pointer inside the target window to (",
        signed_decimal_text(x as i64).as_str(),
        ", ",
    );
    text.append(signed_decimal_text(y as i64).as_str());
    text.append(").");
    ComputerUseToolResult {
        status: ComputerUseToolStatus::Succeeded,
        value: Json::Object(members),
        text,
        images: Vec::new(),
        degraded: false,
    }
}

/// The step ends the run with a report on the given result.
pub open spec fn reports(
    run: ActionRun,
    step: ActionStep,
    success: bool,
    semantic: bool,
    result: ComputerUseToolResult,
) -> bool {
    step matches ActionStep::Done(Ok(report)) && report.success == success && run.target == Some(
        report.target,
    ) && report.provenance == run.provenance && report.semantic == semantic && report.result
        == result
}

impl ActionRun {
    pub open spec fn at(self, phase: ActionPhase) -> ActionRun {
        ActionRun { phase, ..self }
    }

    /// The target is the window the action's observation shows.
    pub open spec fn shows(self, target: WindowTarget) -> bool {
        target.window_id == self.window_handle && target.pid == self.process_id
    }

    /// Past the first look, the run holds the session's window, and it is
    /// the one the observation shows.
    pub open spec fn well_formed(self, session: ComputerUseSession) -> bool {
        self.phase == ActionPhase::Classify || self.phase == ActionPhase::Target || self.holds(
            session,
        )
    }

    /// The run holds the session's window, and its observation shows it.
    pub open spec fn holds(self, session: ComputerUseSession) -> bool {
        &&& self.target matches Some(target)
        &&& session.target matches Some(bound)
        &&& self.shows(target)
        &&& target.same_window(bound)
    }

    /// The observation has no accessibility behind it.
    pub open spec fn fallback(self) -> bool {
        self.provenance.view().bool_at("accessibility_available"@) == Some(false)
    }

    /// The action is delivered to a window in front.
    pub open spec fn wants_foreground(self) -> bool {
        self.action.delivery_mode matches Some(mode) && mode@ == "foreground"@
    }

    /// The action only moves the pointer over a window in front.
    pub open spec fn moves_pointer(self) -> bool {
        self.action.action@ == "move"@ && self.wants_foreground()
    }

    pub open spec fn backend_text(self) -> Seq<char> {
        match self.action.input_backend_id {
            Some(id) => id@,
            None => Seq::empty(),
        }
    }

    /// The platform delivers the action itself.
    pub open spec fn is_local(self, local_path: bool) -> bool {
        self.fallback() || self.action.input_backend_id is Some || local_path
    }

    /// Where the run goes once the target is in order.
    pub open spec fn settled(self) -> ActionRun {
        self.at(
            if self.needs_physical_input {
                ActionPhase::PhysicalInput
            } else {
                ActionPhase::Fit
            },
        )
    }

    /// Where the run goes once the delivery is settled.
    pub open spec fn deliverable(self) -> ActionRun {
        self.at(
            if self.local_path {
                ActionPhase::Fast
            } else {
                ActionPhase::DispatchTarget
            },
        )
    }

    fn delivers_to_foreground(&self) -> (r: bool)
        ensures
            r == self.wants_foreground(),
    {
        match &self.action.delivery_mode {
            Some(mode) => text_eq(mode.as_str(), "foreground"),
            None => false,
        }
    }

    fn is_fallback(&self) -> (r: bool)
        ensures
            r == self.fallback(),
    {
        match self.provenance.bool_at("accessibility_available") {
            Some(available) => !available,
            None => false,
        }
    }

    fn observed(&self, target: &WindowTarget) -> (r: bool)
        ensures
            r == self.shows(*target),
    {
        target.window_id == self.window_handle && target.pid == self.process_id
    }

    /// What the host is asked for.
    pub fn request(&self) -> (r: ActionRequest)
        ensures
            r == self.asks(),
    {
        match self.phase {
            ActionPhase::Classify => ActionRequest::ClassifyAction,
            ActionPhase::Target => ActionRequest::ResolveTarget,
            ActionPhase::Takeover => ActionRequest::FindTakeover,
            ActionPhase::PhysicalInput => ActionRequest::CheckInput,
            ActionPhase::Fit => ActionRequest::FitObservation,
            ActionPhase::Semantic => ActionRequest::PerformSemantic,
            ActionPhase::Input => ActionRequest::CheckInput,
            ActionPhase::Visual => ActionRequest::MapToPixels,
            ActionPhase::Effective => ActionRequest::ClassifyDelivery,
            ActionPhase::ActivationInput => ActionRequest::CheckInput,
            ActionPhase::Activation => ActionRequest::ActivateTarget,
            ActionPhase::ActivatedTarget => ActionRequest::ResolveTarget,
            ActionPhase::ActivatedInput => ActionRequest::CheckInput,
            ActionPhase::Fast => ActionRequest::PerformFast,
            ActionPhase::DispatchTarget => ActionRequest::ResolveTarget,
            ActionPhase::DispatchInput => ActionRequest::CheckInput,
            ActionPhase::PointerPosition => ActionRequest::PlacePointer,
            ActionPhase::PointerInput => ActionRequest::CheckInput,
            ActionPhase::PointerActivation => ActionRequest::ActivateTarget,
            ActionPhase::PointerMove => ActionRequest::MovePointer {
                x: self.pointer.0,
                y: self.pointer.1,
            },
            ActionPhase::Dispatch => ActionRequest::DispatchToDriver,
        }
    }

    /// The request that belongs to the run's phase.
    pub open spec fn asks(self) -> ActionRequest {
        match self.phase {
            ActionPhase::Classify => ActionRequest::ClassifyAction,
            ActionPhase::Target => ActionRequest::ResolveTarget,
            ActionPhase::Takeover => ActionRequest::FindTakeover,
            ActionPhase::PhysicalInput => ActionRequest::CheckInput,
            ActionPhase::Fit => ActionRequest::FitObservation,
            ActionPhase::Semantic => ActionRequest::PerformSemantic,
            ActionPhase::Input => ActionRequest::CheckInput,
            ActionPhase::Visual => ActionRequest::MapToPixels,
            ActionPhase::Effective => ActionRequest::ClassifyDelivery,
            ActionPhase::ActivationInput => ActionRequest::CheckInput,
            ActionPhase::Activation => ActionRequest::ActivateTarget,
            ActionPhase::ActivatedTarget => ActionRequest::ResolveTarget,
            ActionPhase::ActivatedInput => ActionRequest::CheckInput,
            ActionPhase::Fast => ActionRequest::PerformFast,
            ActionPhase::DispatchTarget => ActionRequest::ResolveTarget,
            ActionPhase::DispatchInput => ActionRequest::CheckInput,
            ActionPhase::PointerPosition => ActionRequest::PlacePointer,
            ActionPhase::PointerInput => ActionRequest::CheckInput,
            ActionPhase::PointerActivation => ActionRequest::ActivateTarget,
            ActionPhase::PointerMove => ActionRequest::MovePointer {
                x: self.pointer.0,
                y: self.pointer.1,
            },
            ActionPhase::Dispatch => ActionRequest::DispatchToDriver,
        }
    }
}

impl ActionRun {
    /// What the banner shows while the run waits for its answer: input only while it is
    /// injected.
    pub open spec fn shows_activity(self) -> Option<BannerActivity> {
        Some(
            action_phase_activity(
                self.action,
                if self.phase == ActionPhase::PointerMove {
                    ActionBannerPhase::Injecting
                } else {
                    ActionBannerPhase::Preparing
                },
            ),
        )
    }

    /// What the banner shows while the run waits for its answer: input only while it is
    /// injected.
    pub fn activity(&self) -> (r: Option<BannerActivity>)
        ensures
            r == self.shows_activity(),
    {
        let phase = if self.phase == ActionPhase::PointerMove {
            ActionBannerPhase::Injecting
        } else {
            ActionBannerPhase::Preparing
        };
        Some(banner_activity_for_action_phase(&self.action, phase))
    }
}

/// Why an action cannot begin, apart from its own validation.
pub open spec fn names_latest_observation(
    session: ComputerUseSession,
    action: ComputerUseAction,
) -> bool {
    session.observation matches Some(observation) && action.observation_id matches Some(id) && id@
        == observation.observation_id@
}

/// How an action begins: on the latest observation, which it has to name.
pub open spec fn action_begins(
    session: ComputerUseSession,
    action: ComputerUseAction,
    validation: ComputerUseResult<()>,
    r: ComputerUseResult<ActionRun>,
) -> bool {
    if !session.active {
        fails_with(
            r,
            ComputerUseErrorCode::BackendUnavailable,
            "Computer Use session is not active"@,
        )
    } else if validation is Err {
        r == Err::<ActionRun, ComputerUseError>(validation->Err_0)
    } else if session.observation is None {
        fails_with(
            r,
            ComputerUseErrorCode::StaleObservation,
            "take a screenshot before performing Computer Use actions"@,
        )
    } else if !names_latest_observation(session, action) {
        fails_with(
            r,
            ComputerUseErrorCode::StaleObservation,
            "action observation_id does not match the latest screenshot"@,
        )
    } else {
        &&& r matches Ok(run)
        &&& run.phase == ActionPhase::Classify
        &&& run.action == action
        &&& run.window_handle == session.observation->0.window_handle
        &&& run.process_id == session.observation->0.process_id
        &&& run.provenance.view() == session.observation->0.capture_provenance.view()
        &&& run.target is None
    }
}

impl ComputerUseSession {
    /// Begins an action on the latest observation.
    pub fn begin_action(
        &self,
        action: ComputerUseAction,
        validation: ComputerUseResult<()>,
    ) -> (r: ComputerUseResult<ActionRun>)
        ensures
            action_begins(*self, action, validation, r),
    {
        match self.ensure_active() {
            Ok(()) => {},
            Err(error) => return Err(error),
        }
        match validation {
            Ok(()) => {},
            Err(error) => return Err(error),
        }
        match &self.observation {
            None => Err(
                ComputerUseError::new(
                    ComputerUseErrorCode::StaleObservation,
                    "take a screenshot before performing Computer Use actions",
                ),
            ),
            Some(observation) => {
                let named = match &action.observation_id {
                    Some(id) => text_eq(id.as_str(), observation.observation_id.as_str()),
                    None => false,
                };
                if !named {
                    return Err(
                        ComputerUseError::new(
                            ComputerUseErrorCode::StaleObservation,
                            "action observation_id does not match the latest screenshot",
                        ),
                    );
                }
                Ok(
                    ActionRun {
                        phase: ActionPhase::Classify,
                        action,
                        window_handle: observation.window_handle,
                        process_id: observation.process_id,
                        provenance: observation.capture_provenance.clone(),
                        needs_physical_input: false,
                        local_coordinates: false,
                        local_path: false,
                        target: None,
                        pointer: (0, 0),
                    },
                )
            },
        }
    }
}

/// The first look at the target: it must be what the observation shows.
pub open spec fn target_step(
    run: ActionRun,
    before: ComputerUseSession,
    resolved: ComputerUseResult<WindowTarget>,
    after: ComputerUseSession,
    step: ActionStep,
) -> bool {
    &&& unusable_target_stops(before, resolved, after, step)
    &&& is_usable_target(before, resolved) ==> {
        &&& after == before
        &&& if !run.shows(resolved->Ok_0) {
            stops_plainly(
                step,
                ComputerUseErrorCode::StaleObservation,
                "the exact target window changed after the screenshot"@,
            )
        } else {
            let bound = ActionRun { target: Some(resolved->Ok_0), ..run };
            step == ActionStep::Continue(
                if before.native_windows {
                    bound.at(ActionPhase::Takeover)
                } else {
                    bound.settled()
                },
            )
        }
    }
}

/// A window that took the input over ends the run, and the banner of the old
/// window goes.
pub open spec fn takeover_step(
    run: ActionRun,
    before: ComputerUseSession,
    found: ComputerUseResult<Option<WindowTarget>>,
    after: ComputerUseSession,
    step: ActionStep,
) -> bool {
    match found {
        Err(error) => after == before && stops(step, error),
        Ok(None) => after == before && step == ActionStep::Continue(run.settled()),
        Ok(Some(modal)) => {
            &&& after == (ComputerUseSession { banner: None, ..before })
            &&& step matches ActionStep::Done(Err(error))
            &&& error.code == ComputerUseErrorCode::TargetModalChanged
            &&& error.message@ == "a same-process owned window has taken over input"@
            &&& exists|scope|
                suggests(scope, modal) && error.details == Some(#[trigger] modal_details(scope))
        },
    }
}

/// The action against its observation.
pub open spec fn fit_step(
    run: ActionRun,
    before: ComputerUseSession,
    fit: ActionFit,
    after: ComputerUseSession,
    step: ActionStep,
) -> bool {
    if fit.fits is Err {
        after == before && stops(step, fit.fits->Err_0)
    } else if fit.backend_rejection is Some {
        &&& after == before.acted()
        &&& step matches ActionStep::Done(Ok(report))
        &&& reports(run, step, false, false, report.result)
        &&& is_rejection(report.result, run.backend_text(), fit.backend_rejection->0@, report.target)
    } else if before.native_windows && fit.semantic {
        &&& after == before
        &&& if before.windows_uia {
            step == ActionStep::Continue(run.at(ActionPhase::Semantic))
        } else {
            stops_plainly(
                step,
                ComputerUseErrorCode::StaleObservation,
                "take a fresh Windows UIA snapshot before performing this semantic action"@,
            )
        }
    } else {
        after == before && step == ActionStep::Continue(
            ActionRun { local_coordinates: fit.local_coordinates, ..run }.at(ActionPhase::Input),
        )
    }
}

/// What came of a mutation the host made itself: a failure is restated, and
/// voids what it has to.
pub open spec fn local_attempt_fails(
    before: ComputerUseSession,
    cause: ComputerUseError,
    after: ComputerUseSession,
    step: ActionStep,
) -> bool {
    &&& step matches ActionStep::Done(Err(error))
    &&& restated(cause, error, local_mutation_details())
    &&& after == before.without_evidence().after_failure(error.code)
}

/// The action as the platform or the driver is to deliver it.
pub open spec fn is_effective(mapped: ComputerUseAction, effective: ComputerUseAction) -> bool {
    if is_held_click(mapped) {
        is_held_drag(mapped, effective)
    } else {
        effective == mapped
    }
}

/// The run goes on with the action as it is to be delivered. Off native
/// windows that is the driver's path, and needs current evidence.
pub open spec fn mapped_step(
    run: ActionRun,
    before: ComputerUseSession,
    now_ms: u64,
    after: ComputerUseSession,
    step: ActionStep,
) -> bool {
    if before.native_windows {
        &&& after == before
        &&& step matches ActionStep::Continue(next)
        &&& is_effective(run.action, next.action)
        &&& next == (ActionRun { action: next.action, ..run }).at(ActionPhase::Effective)
    } else if before.evidence_current(now_ms) {
        &&& after == before
        &&& step matches ActionStep::Continue(next)
        &&& is_effective(run.action, next.action)
        &&& next == (ActionRun { action: next.action, ..run }).at(ActionPhase::Dispatch)
    } else {
        stale_evidence_stops(before, now_ms, after, step)
    }
}

/// How the platform delivers the action.
pub open spec fn delivery_step(
    run: ActionRun,
    before: ComputerUseSession,
    local_path: bool,
    rejection: Option<String>,
    after: ComputerUseSession,
    step: ActionStep,
) -> bool {
    let known = ActionRun { local_path: run.is_local(local_path), ..run };
    if known.local_path && rejection is Some {
        &&& after == before.acted()
        &&& step matches ActionStep::Done(Ok(report))
        &&& reports(run, step, false, false, report.result)
        &&& is_rejection(report.result, run.backend_text(), rejection->0@, report.target)
    } else {
        &&& after == before
        &&& step == ActionStep::Continue(
            if run.wants_foreground() && !(run.target matches Some(target)
                && target.is_foreground) {
                known.at(ActionPhase::ActivationInput)
            } else {
                known.deliverable()
            },
        )
    }
}

/// An activation on the way to the action.
pub open spec fn activation_fails(
    before: ComputerUseSession,
    cause: ComputerUseError,
    after: ComputerUseSession,
    step: ActionStep,
) -> bool {
    &&& after == before
    &&& step matches ActionStep::Done(Err(error))
    &&& restated(cause, error, activation_attempt_details())
}

/// The last look at the target before input is dispatched.
pub open spec fn dispatch_target_step(
    run: ActionRun,
    before: ComputerUseSession,
    resolved: ComputerUseResult<WindowTarget>,
    after: ComputerUseSession,
    step: ActionStep,
) -> bool {
    &&& unusable_target_stops(before, resolved, after, step)
    &&& is_usable_target(before, resolved) ==> {
        &&& after == before
        &&& if run.shows(resolved->Ok_0) {
            step == ActionStep::Continue(
                ActionRun { target: Some(resolved->Ok_0), ..run }.at(ActionPhase::DispatchInput),
            )
        } else {
            stops_plainly(
                step,
                ComputerUseErrorCode::StaleObservation,
                "the exact target window changed before Windows input dispatch"@,
            )
        }
    }
}

/// What came of the dispatched action.
pub open spec fn dispatched_step(
    run: ActionRun,
    before: ComputerUseSession,
    context: Seq<char>,
    outcome: DispatchOutcome<ComputerUseResult<ComputerUseToolResult>>,
    after: ComputerUseSession,
    step: ActionStep,
) -> bool {
    match outcome {
        DispatchOutcome::Completed(Ok(result)) => {
            &&& after == before.without_evidence().acted()
            &&& reports(run, step, true, false, result)
        },
        DispatchOutcome::Completed(Err(error)) => stops_sensitively(
            before.without_evidence(),
            error,
            after,
            step,
        ),
        _ => exists|middle: ComputerUseSession, result|
            {
                &&& #[trigger] is_dispatch_outcome(before, context, outcome, middle, result)
                &&& result matches Err(error)
                &&& stops_sensitively(middle, error, after, step)
            },
    }
}

/// One step of an action.
pub open spec fn action_step(
    run: ActionRun,
    before: ComputerUseSession,
    now_ms: u64,
    reply: ActionReply,
    after: ComputerUseSession,
    step: ActionStep,
) -> bool {
    match (run.phase, reply) {
        (
            ActionPhase::Classify,
            ActionReply::Classified { needs_upstream_evidence, needs_physical_input },
        ) => if needs_upstream_evidence && !before.evidence_current(now_ms) {
            stale_evidence_stops(before, now_ms, after, step)
        } else {
            after == before && step == ActionStep::Continue(
                ActionRun { needs_physical_input, ..run }.at(ActionPhase::Target),
            )
        },
        (ActionPhase::Target, ActionReply::Target(resolved)) => target_step(
            run,
            before,
            resolved,
            after,
            step,
        ),
        (ActionPhase::Takeover, ActionReply::Takeover(found)) => takeover_step(
            run,
            before,
            found,
            after,
            step,
        ),
        (ActionPhase::PhysicalInput, ActionReply::Gate(gate)) => {
            &&& refused_gate_stops(before, gate, after, step)
            &&& gate is Ok ==> after == before && step == ActionStep::Continue(
                run.at(ActionPhase::Fit),
            )
        },
        (ActionPhase::Fit, ActionReply::Fit(fit)) => fit_step(run, before, fit, after, step),
        (ActionPhase::Semantic, ActionReply::Semantic(attempt)) => match attempt {
            Ok(result) => after == before.without_evidence().acted() && reports(
                run,
                step,
                true,
                true,
                result,
            ),
            Err(cause) => local_attempt_fails(before, cause, after, step),
        },
        (ActionPhase::Input, ActionReply::Gate(gate)) => {
            &&& refused_gate_stops(before, gate, after, step)
            &&& gate is Ok ==> if run.fallback() || run.local_coordinates {
                after == before && step == ActionStep::Continue(run.at(ActionPhase::Visual))
            } else {
                mapped_step(run, before, now_ms, after, step)
            }
        },
        (ActionPhase::Visual, ActionReply::Mapped(mapped)) => match mapped {
            Err(error) => after == before && stops(step, error),
            Ok(action) => mapped_step(
                ActionRun { action, ..run },
                before,
                now_ms,
                after,
                step,
            ),
        },
        (ActionPhase::Effective, ActionReply::Delivery { local_path, rejection }) => delivery_step(
            run,
            before,
            local_path,
            rejection,
            after,
            step,
        ),
        (ActionPhase::ActivationInput, ActionReply::Gate(gate)) => {
            &&& refused_gate_stops(before, gate, after, step)
            &&& gate is Ok ==> after == before.without_evidence() && step == ActionStep::Continue(
                run.at(ActionPhase::Activation),
            )
        },
        (ActionPhase::Activation, ActionReply::Activated(attempt)) => match attempt {
            Ok(()) => after == before && step == ActionStep::Continue(
                run.at(ActionPhase::ActivatedTarget),
            ),
            Err(cause) => activation_fails(before, cause, after, step),
        },
        (ActionPhase::ActivatedTarget, ActionReply::Target(resolved)) => {
            &&& unusable_target_stops(before, resolved, after, step)
            &&& is_usable_target(before, resolved) ==> after == before && step
                == ActionStep::Continue(
                ActionRun { target: Some(resolved->Ok_0), ..run }.at(ActionPhase::ActivatedInput),
            )
        },
        (ActionPhase::ActivatedInput, ActionReply::Gate(gate)) => {
            &&& refused_gate_stops(before, gate, after, step)
            &&& gate is Ok ==> after == before && if run.target matches Some(target)
                && target.is_foreground {
                step == ActionStep::Continue(run.deliverable())
            } else {
                stops_plainly(
                    step,
                    ComputerUseErrorCode::InputFailed,
                    "the exact Windows target is not foreground before pointer input"@,
                )
            }
        },
        (ActionPhase::Fast, ActionReply::Fast(attempt)) => match attempt {
            Ok(Some(result)) => after == before.showing(
                BannerActivity::Operating,
            ).without_evidence().acted() && reports(
                run,
                step,
                result.status == ComputerUseToolStatus::Succeeded,
                false,
                result,
            ),
            Ok(None) => after == before && step == ActionStep::Continue(
                run.at(ActionPhase::DispatchTarget),
            ),
            Err(cause) => local_attempt_fails(before, cause, after, step),
        },
        (ActionPhase::DispatchTarget, ActionReply::Target(resolved)) => dispatch_target_step(
            run,
            before,
            resolved,
            after,
            step,
        ),
        (ActionPhase::DispatchInput, ActionReply::Gate(gate)) => {
            &&& refused_gate_stops(before, gate, after, step)
            &&& gate is Ok ==> if run.moves_pointer() {
                after == before && step == ActionStep::Continue(
                    run.at(ActionPhase::PointerPosition),
                )
            } else if before.evidence_current(now_ms) {
                after == before && step == ActionStep::Continue(run.at(ActionPhase::Dispatch))
            } else {
                stale_evidence_stops(before, now_ms, after, step)
            }
        },
        (ActionPhase::PointerPosition, ActionReply::Placed(placed)) => match placed {
            Err(error) => after == before && stops(step, error),
            Ok(pointer) => after == before && step == ActionStep::Continue(
                ActionRun { pointer, ..run }.at(ActionPhase::PointerInput),
            ),
        },
        (ActionPhase::PointerInput, ActionReply::Gate(gate)) => {
            &&& refused_gate_stops(before, gate, after, step)
            &&& gate is Ok ==> after == before.without_evidence() && step == ActionStep::Continue(
                run.at(ActionPhase::PointerActivation),
            )
        },
        (ActionPhase::PointerActivation, ActionReply::Activated(attempt)) => match attempt {
            Ok(()) => after == before && step == ActionStep::Continue(
                run.at(ActionPhase::PointerMove),
            ),
            Err(cause) => activation_fails(before, cause, after, step),
        },
        (ActionPhase::PointerMove, ActionReply::Moved(attempt)) => match attempt {
            Ok(()) => {
                &&& after == before.showing(BannerActivity::Operating).without_evidence().acted()
                &&& step matches ActionStep::Done(Ok(report))
                &&& reports(run, step, true, false, report.result)
                &&& is_pointer_move(report.result, run.pointer.0, run.pointer.1)
            },
            Err(cause) => {
                &&& after == before.without_evidence()
                &&& step matches ActionStep::Done(Err(error))
                &&& restated(cause, error, local_mutation_details())
            },
        },
        (ActionPhase::Dispatch, ActionReply::NotDispatchable(error)) => after == before
            && stops(step, error),
        (ActionPhase::Dispatch, ActionReply::Dispatched { context, outcome }) => dispatched_step(
            run,
            before,
            context@,
            outcome,
            after,
            step,
        ),
        _ => after == before && step == ActionStep::Continue(run),
    }
}

impl ActionRun {
    fn goes(self, phase: ActionPhase) -> (r: ActionStep)
        ensures
            r == ActionStep::Continue(self.at(phase)),
    {
        let mut run = self;
        run.phase = phase;
        ActionStep::Continue(run)
    }

    fn report(self, success: bool, semantic: bool, result: ComputerUseToolResult) -> (r: ActionStep)
        requires
            self.target is Some,
        ensures
            reports(self, r, success, semantic, result),
    {
        match self.target {
            Some(target) => ActionStep::Done(
                Ok(
                    ActionReport {
                        success,
                        target,
                        provenance: self.provenance,
                        semantic,
                        result,
                    },
                ),
            ),
            None => ActionStep::Continue(self),
        }
    }

    /// Ends the run with the report that its input backend was rejected.
    fn reject(self, session: &mut ComputerUseSession, reason: &str) -> (r: ActionStep)
        requires
            self.target is Some,
        ensures
            *final(session) == old(session).acted(),
            r matches ActionStep::Done(Ok(report)) && reports(
                self,
                r,
                false,
                false,
                report.result,
            ) && is_rejection(report.result, self.backend_text(), reason@, report.target),
    {
        session.complete_action();
        let result = match (&self.target, &self.action.input_backend_id) {
            (Some(target), Some(id)) => input_backend_rejection_result(
                id.as_str(),
                reason,
                target,
            ),
            (Some(target), None) => {
                proof {
                    reveal_strlit("");
                }
                assert(""@ =~= Seq::<char>::empty());
                input_backend_rejection_result("", reason, target)
            },
            (None, _) => return ActionStep::Continue(self),
        };
        self.report(false, false, result)
    }

    fn require_target(
        self,
        session: &mut ComputerUseSession,
        resolved: ComputerUseResult<WindowTarget>,
    ) -> (r: Result<ActionRun, ActionStep>)
        ensures
            match r {
                Ok(run) => {
                    &&& is_usable_target(*old(session), resolved)
                    &&& run == (ActionRun { target: Some(resolved->Ok_0), ..self })
                    &&& *final(session) == *old(session)
                },
                Err(step) => {
                    &&& !is_usable_target(*old(session), resolved)
                    &&& unusable_target_stops(*old(session), resolved, *final(session), step)
                },
            },
    {
        match session.require_observed_target_available(resolved) {
            Ok(target) => {
                let mut run = self;
                run.target = Some(target);
                Ok(run)
            },
            Err(error) => Err(ActionStep::Done(Err(error))),
        }
    }

    fn on_target(self, session: &mut ComputerUseSession, resolved: ComputerUseResult<WindowTarget>)
        -> (r: ActionStep)
        ensures
            target_step(self, *old(session), resolved, *final(session), r),
    {
        let run = match self.require_target(session, resolved) {
            Ok(run) => run,
            Err(step) => return step,
        };
        let shown = match &run.target {
            Some(target) => run.observed(target),
            None => false,
        };
        if !shown {
            return ActionStep::Done(
                Err(
                    ComputerUseError::new(
                        ComputerUseErrorCode::StaleObservation,
                        "the exact target window changed after the screenshot",
                    ),
                ),
            );
        }
        if session.native_windows {
            run.goes(ActionPhase::Takeover)
        } else {
            run.settle()
        }
    }

    fn settle(self) -> (r: ActionStep)
        ensures
            r == ActionStep::Continue(self.settled()),
    {
        if self.needs_physical_input {
            self.goes(ActionPhase::PhysicalInput)
        } else {
            self.goes(ActionPhase::Fit)
        }
    }

    fn on_takeover(
        self,
        session: &mut ComputerUseSession,
        found: ComputerUseResult<Option<WindowTarget>>,
    ) -> (r: ActionStep)
        ensures
            takeover_step(self, *old(session), found, *final(session), r),
    {
        match found {
            Err(error) => ActionStep::Done(Err(error)),
            Ok(None) => self.settle(),
            Ok(Some(modal)) => {
                session.banner = None;
                ActionStep::Done(Err(target_modal_changed(modal)))
            },
        }
    }

    fn on_fit(self, session: &mut ComputerUseSession, fit: ActionFit) -> (r: ActionStep)
        requires
            self.target is Some,
        ensures
            fit_step(self, *old(session), fit, *final(session), r),
    {
        match fit.fits {
            Ok(()) => {},
            Err(error) => return ActionStep::Done(Err(error)),
        }
        if let Some(reason) = &fit.backend_rejection {
            return self.reject(session, reason.as_str());
        }
        if session.native_windows && fit.semantic {
            if session.windows_uia {
                return self.goes(ActionPhase::Semantic);
            }
            return ActionStep::Done(
                Err(
                    ComputerUseError::new(
                        ComputerUseErrorCode::StaleObservation,
                        "take a fresh Windows UIA snapshot before performing this semantic action",
                    ),
                ),
            );
        }
        let mut run = self;
        run.local_coordinates = fit.local_coordinates;
        run.goes(ActionPhase::Input)
    }

    fn on_mapped(self, session: &mut ComputerUseSession, now_ms: u64) -> (r: ActionStep)
        ensures
            mapped_step(self, *old(session), now_ms, *final(session), r),
    {
        let mut run = self;
        if let Some(drag) = held_coordinate_click_as_drag(&run.action) {
            run.action = drag;
        }
        if session.native_windows {
            return run.goes(ActionPhase::Effective);
        }
        run.on_dispatchable(session, now_ms)
    }

    fn on_dispatchable(self, session: &mut ComputerUseSession, now_ms: u64) -> (r: ActionStep)
        ensures
            if old(session).evidence_current(now_ms) {
                *final(session) == *old(session) && r == ActionStep::Continue(
                    self.at(ActionPhase::Dispatch),
                )
            } else {
                stale_evidence_stops(*old(session), now_ms, *final(session), r)
            },
    {
        match session.require_current_upstream_session_for_evidence(now_ms) {
            Ok(()) => self.goes(ActionPhase::Dispatch),
            Err(error) => ActionStep::Done(Err(error)),
        }
    }

    fn deliver(self) -> (r: ActionStep)
        ensures
            r == ActionStep::Continue(self.deliverable()),
    {
        if self.local_path {
            self.goes(ActionPhase::Fast)
        } else {
            self.goes(ActionPhase::DispatchTarget)
        }
    }

    fn on_delivery(
        self,
        session: &mut ComputerUseSession,
        local_path: bool,
        rejection: Option<String>,
    ) -> (r: ActionStep)
        requires
            self.target is Some,
        ensures
            delivery_step(self, *old(session), local_path, rejection, *final(session), r),
    {
        let local = self.is_fallback() || self.action.input_backend_id.is_some() || local_path;
        if local {
            if let Some(reason) = &rejection {
                return self.reject(session, reason.as_str());
            }
        }
        let in_front = match &self.target {
            Some(target) => target.is_foreground,
            None => false,
        };
        let mut run = self;
        run.local_path = local;
        if run.delivers_to_foreground() && !in_front {
            run.goes(ActionPhase::ActivationInput)
        } else {
            run.deliver()
        }
    }

    fn on_dispatched(
        self,
        session: &mut ComputerUseSession,
        context: &str,
        outcome: DispatchOutcome<ComputerUseResult<ComputerUseToolResult>>,
    ) -> (r: ActionStep)
        requires
            self.target is Some,
        ensures
            dispatched_step(self, *old(session), context@, outcome, *final(session), r),
    {
        let ghost before = *session;
        let dispatched = session.finish_typed_dispatch_result(context, outcome);
        let ghost middle = *session;
        assert(is_dispatch_outcome(before, context@, outcome, middle, dispatched));
        let checked = match dispatched {
            Ok(checked) => checked,
            Err(error) => {
                let failed: ComputerUseResult<()> = session.finish_observation_sensitive_attempt(
                    Err(error),
                );
                return match failed {
                    Ok(()) => ActionStep::Continue(self),
                    Err(error) => ActionStep::Done(Err(error)),
                };
            },
        };
        match session.finish_observation_sensitive_attempt(checked) {
            Ok(result) => {
                session.complete_action();
                self.report(true, false, result)
            },
            Err(error) => ActionStep::Done(Err(error)),
        }
    }

    fn advance_guards(self, session: &mut ComputerUseSession, now_ms: u64, reply: ActionReply) -> (r:
        ActionStep)
        requires
            self.well_formed(*old(session)),
            self.phase == ActionPhase::Classify || self.phase == ActionPhase::Target || self.phase == ActionPhase::Takeover || self.phase == ActionPhase::PhysicalInput || self.phase == ActionPhase::Fit,
        ensures
            action_step(self, *old(session), now_ms, reply, *final(session), r),
            r matches ActionStep::Continue(next) ==> next.well_formed(*final(session)),
    {
        match (self.phase, reply) {
            (
                ActionPhase::Classify,
                ActionReply::Classified { needs_upstream_evidence, needs_physical_input },
            ) => {
                if needs_upstream_evidence {
                    match session.require_current_upstream_session_for_evidence(now_ms) {
                        Ok(()) => {},
                        Err(error) => return ActionStep::Done(Err(error)),
                    }
                }
                let mut run = self;
                run.needs_physical_input = needs_physical_input;
                run.goes(ActionPhase::Target)
            },
            (ActionPhase::Target, ActionReply::Target(resolved)) => self.on_target(
                session,
                resolved,
            ),
            (ActionPhase::Takeover, ActionReply::Takeover(found)) => self.on_takeover(
                session,
                found,
            ),
            (ActionPhase::PhysicalInput, ActionReply::Gate(gate)) => {
                match session.finish_observation_sensitive_attempt(gate) {
                    Ok(()) => self.goes(ActionPhase::Fit),
                    Err(error) => ActionStep::Done(Err(error)),
                }
            },
            (ActionPhase::Fit, ActionReply::Fit(fit)) => self.on_fit(session, fit),
            _ => ActionStep::Continue(self),
        }
    }

    fn advance_mapping(self, session: &mut ComputerUseSession, now_ms: u64, reply: ActionReply) -> (r:
        ActionStep)
        requires
            self.well_formed(*old(session)),
            self.phase == ActionPhase::Semantic || self.phase == ActionPhase::Input || self.phase == ActionPhase::Visual || self.phase == ActionPhase::Effective,
        ensures
            action_step(self, *old(session), now_ms, reply, *final(session), r),
            r matches ActionStep::Continue(next) ==> next.well_formed(*final(session)),
    {
        match (self.phase, reply) {
            (ActionPhase::Semantic, ActionReply::Semantic(attempt)) => {
                let attempt = session.finish_local_mutation_attempt(attempt);
                match session.finish_observation_sensitive_attempt(attempt) {
                    Ok(result) => {
                        session.complete_mutating_action();
                        self.report(true, true, result)
                    },
                    Err(error) => ActionStep::Done(Err(error)),
                }
            },
            (ActionPhase::Input, ActionReply::Gate(gate)) => {
                match session.finish_observation_sensitive_attempt(gate) {
                    Ok(()) => {},
                    Err(error) => return ActionStep::Done(Err(error)),
                }
                if self.is_fallback() || self.local_coordinates {
                    self.goes(ActionPhase::Visual)
                } else {
                    self.on_mapped(session, now_ms)
                }
            },
            (ActionPhase::Visual, ActionReply::Mapped(mapped)) => match mapped {
                Ok(action) => {
                    let mut run = self;
                    run.action = action;
                    run.on_mapped(session, now_ms)
                },
                Err(error) => ActionStep::Done(Err(error)),
            },
            (ActionPhase::Effective, ActionReply::Delivery { local_path, rejection }) => {
                self.on_delivery(session, local_path, rejection)
            },
            _ => ActionStep::Continue(self),
        }
    }

    fn advance_activation(self, session: &mut ComputerUseSession, now_ms: u64, reply: ActionReply) -> (r:
        ActionStep)
        requires
            self.well_formed(*old(session)),
            self.phase == ActionPhase::ActivationInput || self.phase == ActionPhase::Activation || self.phase == ActionPhase::ActivatedTarget || self.phase == ActionPhase::ActivatedInput || self.phase == ActionPhase::Fast,
        ensures
            action_step(self, *old(session), now_ms, reply, *final(session), r),
            r matches ActionStep::Continue(next) ==> next.well_formed(*final(session)),
    {
        match (self.phase, reply) {
            (ActionPhase::ActivationInput, ActionReply::Gate(gate)) => {
                let gate = session.finish_observation_sensitive_attempt(gate);
                match session.begin_gated_window_mutation(gate) {
                    Ok(()) => self.goes(ActionPhase::Activation),
                    Err(error) => ActionStep::Done(Err(error)),
                }
            },
            (ActionPhase::Activation, ActionReply::Activated(attempt)) => {
                match session.finish_implicit_activation(attempt) {
                    Ok(()) => self.goes(ActionPhase::ActivatedTarget),
                    Err(error) => ActionStep::Done(Err(error)),
                }
            },
            (ActionPhase::ActivatedTarget, ActionReply::Target(resolved)) => {
                match self.require_target(session, resolved) {
                    Ok(run) => run.goes(ActionPhase::ActivatedInput),
                    Err(step) => step,
                }
            },
            (ActionPhase::ActivatedInput, ActionReply::Gate(gate)) => {
                match session.finish_observation_sensitive_attempt(gate) {
                    Ok(()) => {},
                    Err(error) => return ActionStep::Done(Err(error)),
                }
                let in_front = match &self.target {
                    Some(target) => target.is_foreground,
                    None => false,
                };
                if !in_front {
                    return ActionStep::Done(
                        Err(
                            ComputerUseError::new(
                                ComputerUseErrorCode::InputFailed,
                                "the exact Windows target is not foreground before pointer input",
                            ),
                        ),
                    );
                }
                self.deliver()
            },
            (ActionPhase::Fast, ActionReply::Fast(attempt)) => {
                let attempt = session.finish_local_mutation_attempt(attempt);
                match session.finish_observation_sensitive_attempt(attempt) {
                    Ok(Some(result)) => {
                        session.set_banner_activity(BannerActivity::Operating);
                        let success = result.status == ComputerUseToolStatus::Succeeded;
                        session.complete_mutating_action();
                        self.report(success, false, result)
                    },
                    Ok(None) => self.goes(ActionPhase::DispatchTarget),
                    Err(error) => ActionStep::Done(Err(error)),
                }
            },
            _ => ActionStep::Continue(self),
        }
    }

    fn advance_pointer(self, session: &mut ComputerUseSession, now_ms: u64, reply: ActionReply) -> (r:
        ActionStep)
        requires
            self.well_formed(*old(session)),
            self.phase == ActionPhase::DispatchTarget || self.phase == ActionPhase::DispatchInput || self.phase == ActionPhase::PointerPosition || self.phase == ActionPhase::PointerInput,
        ensures
            action_step(self, *old(session), now_ms, reply, *final(session), r),
            r matches ActionStep::Continue(next) ==> next.well_formed(*final(session)),
    {
        match (self.phase, reply) {
            (ActionPhase::DispatchTarget, ActionReply::Target(resolved)) => {
                let run = match self.require_target(session, resolved) {
                    Ok(run) => run,
                    Err(step) => return step,
                };
                let shown = match &run.target {
                    Some(target) => run.observed(target),
                    None => false,
                };
                if !shown {
                    return ActionStep::Done(
                        Err(
                            ComputerUseError::new(
                                ComputerUseErrorCode::StaleObservation,
                                "the exact target window changed before Windows input dispatch",
                            ),
                        ),
                    );
                }
                run.goes(ActionPhase::DispatchInput)
            },
            (ActionPhase::DispatchInput, ActionReply::Gate(gate)) => {
                match session.finish_observation_sensitive_attempt(gate) {
                    Ok(()) => {},
                    Err(error) => return ActionStep::Done(Err(error)),
                }
                if text_eq(self.action.action.as_str(), "move") && self.delivers_to_foreground() {
                    self.goes(ActionPhase::PointerPosition)
                } else {
                    self.on_dispatchable(session, now_ms)
                }
            },
            (ActionPhase::PointerPosition, ActionReply::Placed(placed)) => match placed {
                Ok(pointer) => {
                    let mut run = self;
                    run.pointer = pointer;
                    run.goes(ActionPhase::PointerInput)
                },
                Err(error) => ActionStep::Done(Err(error)),
            },
            (ActionPhase::PointerInput, ActionReply::Gate(gate)) => {
                let gate = session.finish_observation_sensitive_attempt(gate);
                match session.begin_gated_window_mutation(gate) {
                    Ok(()) => self.goes(ActionPhase::PointerActivation),
                    Err(error) => ActionStep::Done(Err(error)),
                }
            },
            _ => ActionStep::Continue(self),
        }
    }

    fn advance_dispatch(self, session: &mut ComputerUseSession, now_ms: u64, reply: ActionReply) -> (r:
        ActionStep)
        requires
            self.well_formed(*old(session)),
            self.phase == ActionPhase::PointerActivation || self.phase == ActionPhase::PointerMove || self.phase == ActionPhase::Dispatch,
        ensures
            action_step(self, *old(session), now_ms, reply, *final(session), r),
            r matches ActionStep::Continue(next) ==> next.well_formed(*final(session)),
    {
        match (self.phase, reply) {
            (ActionPhase::PointerActivation, ActionReply::Activated(attempt)) => {
                match session.finish_implicit_activation(attempt) {
                    Ok(()) => self.goes(ActionPhase::PointerMove),
                    Err(error) => ActionStep::Done(Err(error)),
                }
            },
            (ActionPhase::PointerMove, ActionReply::Moved(attempt)) => {
                match session.finish_local_mutation_attempt(attempt) {
                    Ok(()) => {},
                    Err(error) => return ActionStep::Done(Err(error)),
                }
                session.set_banner_activity(BannerActivity::Operating);
                session.complete_mutating_action();
                let result = pointer_move_result(self.pointer.0, self.pointer.1);
                self.report(true, false, result)
            },
            (ActionPhase::Dispatch, ActionReply::NotDispatchable(error)) => ActionStep::Done(
                Err(error),
            ),
            (ActionPhase::Dispatch, ActionReply::Dispatched { context, outcome }) => {
                self.on_dispatched(session, context.as_str(), outcome)
            },
            _ => ActionStep::Continue(self),
        }
    }

    /// Takes the answer to the run's request in. An answer to some other
    /// request changes nothing.
    pub fn advance(self, session: &mut ComputerUseSession, now_ms: u64, reply: ActionReply) -> (r:
        ActionStep)
        requires
            self.well_formed(*old(session)),
        ensures
            action_step(self, *old(session), now_ms, reply, *final(session), r),
            r matches ActionStep::Continue(next) ==> next.well_formed(*final(session)),
    {
        match self.phase {
            ActionPhase::Classify | ActionPhase::Target | ActionPhase::Takeover | ActionPhase::PhysicalInput | ActionPhase::Fit => self.advance_guards(session, now_ms, reply),
            ActionPhase::Semantic | ActionPhase::Input | ActionPhase::Visual | ActionPhase::Effective => self.advance_mapping(session, now_ms, reply),
            ActionPhase::ActivationInput | ActionPhase::Activation | ActionPhase::ActivatedTarget | ActionPhase::ActivatedInput | ActionPhase::Fast => self.advance_activation(session, now_ms, reply),
            ActionPhase::DispatchTarget | ActionPhase::DispatchInput | ActionPhase::PointerPosition | ActionPhase::PointerInput => self.advance_pointer(session, now_ms, reply),
            ActionPhase::PointerActivation | ActionPhase::PointerMove | ActionPhase::Dispatch => self.advance_dispatch(session, now_ms, reply),
        }
    }
}

/// The run is about to change something outside the host.
pub open spec fn mutates(request: ActionRequest) -> bool {
    request is ActivateTarget || request is PerformFast || request is MovePointer || request
        is DispatchToDriver || request is PerformSemantic
}

/// Whatever an action changes, it changes in the window that its observation
/// shows and that the session is bound to.
pub proof fn law_input_reaches_only_the_observed_window(
    run: ActionRun,
    session: ComputerUseSession,
)
    requires
        run.well_formed(session),
        mutates(run.asks()),
    ensures
        run.target matches Some(target) && run.shows(target),
        session.target matches Some(bound) && run.target->0.same_window(bound),
{
}

/// An action goes to the driver only while its evidence is current: it never
/// crosses a refresh that is due.
pub proof fn law_actions_never_cross_a_due_refresh(
    run: ActionRun,
    before: ComputerUseSession,
    now_ms: u64,
    reply: ActionReply,
    after: ComputerUseSession,
    step: ActionStep,
)
    requires
        action_step(run, before, now_ms, reply, after, step),
        run.phase != ActionPhase::Dispatch,
        step matches ActionStep::Continue(next) && next.phase == ActionPhase::Dispatch,
    ensures
        before.evidence_current(now_ms),
        after == before,
{
}

/// A session ends in an action only where nobody knows whether the dispatched
/// input arrived, and the failure says so.
pub proof fn law_only_unknown_completion_ends_the_session(
    run: ActionRun,
    before: ComputerUseSession,
    now_ms: u64,
    reply: ActionReply,
    after: ComputerUseSession,
    step: ActionStep,
)
    requires
        action_step(run, before, now_ms, reply, after, step),
        before.active,
        !after.active,
    ensures
        run.phase == ActionPhase::Dispatch,
        step matches ActionStep::Done(Err(error)) && error.code
            == ComputerUseErrorCode::CompletionUnknown && error.details == Some(
            crate::error_contracts::unknown_dispatch_details(),
        ),
{
}

/// An action that was carried out spends the evidence it was based on; one
/// whose backend was rejected before any attempt keeps it.
pub proof fn law_carried_out_actions_spend_their_evidence(
    run: ActionRun,
    before: ComputerUseSession,
    now_ms: u64,
    reply: ActionReply,
    after: ComputerUseSession,
    report: ActionReport,
)
    requires
        action_step(run, before, now_ms, reply, after, ActionStep::Done(Ok(report))),
    ensures
        if run.phase == ActionPhase::Fit || run.phase == ActionPhase::Effective {
            after.observation == before.observation && after.action_evidence_epoch
                == before.action_evidence_epoch && !report.success
        } else {
            after.observation is None && after.action_evidence_epoch
                == before.action_evidence_epoch.next()
        },
        after.active == before.active,
        after.recording_active == before.recording_active,
        after.live == before.live,
{
}

/// Evidence receipts never go back in an action.
pub proof fn law_actions_never_rewind_receipts(
    run: ActionRun,
    before: ComputerUseSession,
    now_ms: u64,
    reply: ActionReply,
    after: ComputerUseSession,
    step: ActionStep,
)
    requires
        action_step(run, before, now_ms, reply, after, step),
    ensures
        after.action_evidence_epoch.value >= before.action_evidence_epoch.value,
        after.observation is Some ==> after.observation == before.observation,
{
}

/// An action begins exactly where the session runs, the action is valid, and it
/// names the observation that was made last. It begins as it was asked for, in
/// the window that the observation shows.
pub proof fn law_actions_begin_on_the_latest_observation(
    session: ComputerUseSession,
    action: ComputerUseAction,
    validation: ComputerUseResult<()>,
    r: ComputerUseResult<ActionRun>,
)
    requires
        action_begins(session, action, validation, r),
    ensures
        r is Ok <==> session.active && validation is Ok && session.observation is Some
            && action.observation_id is Some && action.observation_id->0@
            == session.observation->0.observation_id@,
        r matches Ok(run) ==> {
            &&& run.action == action
            &&& run.window_handle == session.observation->0.window_handle
            &&& run.process_id == session.observation->0.process_id
            &&& run.provenance.view() == session.observation->0.capture_provenance.view()
            &&& run.asks() == ActionRequest::ClassifyAction
        },
        session.active && validation is Err ==> r == Err::<ActionRun, ComputerUseError>(
            validation->Err_0,
        ),
        session.active && validation is Ok && r is Err ==> r->Err_0.code
            == ComputerUseErrorCode::StaleObservation,
{
}

/// One step of an action, with what was asked and answered.
pub struct ActionRecord {
    pub run: ActionRun,
    pub before: ComputerUseSession,
    pub now_ms: u64,
    pub reply: ActionReply,
    pub after: ComputerUseSession,
    pub step: ActionStep,
}

impl ActionRecord {
    /// The step is one that the action takes on such an answer.
    #[verifier::opaque]
    pub open spec fn holds(self) -> bool {
        action_step(self.run, self.before, self.now_ms, self.reply, self.after, self.step)
    }
}

/// The steps of one action, each from where the one before it went on. The feed
/// may go on between them.
pub open spec fn is_action_course(course: Seq<ActionRecord>) -> bool {
    &&& forall|i: int| 0 <= i < course.len() ==> (#[trigger] course[i]).holds()
    &&& forall|i: int| 0 < i < course.len() ==> #[trigger] action_goes_on(course, i)
}

/// The step before this one went on to it.
pub open spec fn action_goes_on(course: Seq<ActionRecord>, i: int) -> bool {
    course[i - 1].step == ActionStep::Continue(course[i].run)
}

/// The action is the one that was meant. A click that is held is delivered as a
/// drag that stays at its place and differs in nothing else.
pub open spec fn delivers(meant: ComputerUseAction, delivered: ComputerUseAction) -> bool {
    if meant.action@ == "click"@ && meant.x is Some && meant.y is Some && meant.duration_ms is Some
        && meant.duration_ms->0 > 0 {
        &&& delivered.action@ == "drag"@
        &&& delivered.path@.len() == 2
        &&& delivered.path@[0] == (ComputerUsePoint { x: meant.x->0, y: meant.y->0 })
        &&& delivered.path@[1] == (ComputerUsePoint { x: meant.x->0, y: meant.y->0 })
        &&& delivered.button == meant.button
        &&& delivered.modifiers@ == meant.modifiers@
        &&& delivered.duration_ms == meant.duration_ms
        &&& delivered.delivery_mode == meant.delivery_mode
        &&& delivered.input_backend_id == meant.input_backend_id
        &&& delivered.observation_id == meant.observation_id
    } else {
        delivered == meant
    }
}

/// The action as it is to be delivered is settled in such a phase.
pub open spec fn is_settled_phase(phase: ActionPhase) -> bool {
    match phase {
        ActionPhase::Classify | ActionPhase::Target | ActionPhase::Takeover
        | ActionPhase::PhysicalInput | ActionPhase::Fit | ActionPhase::Semantic
        | ActionPhase::Input | ActionPhase::Visual => false,
        _ => true,
    }
}

/// One step keeps the action, but for the one that maps it and the one that
/// settles how it is delivered.
proof fn lemma_step_carries_the_action(record: ActionRecord, next: ActionRun)
    requires
        record.holds(),
        record.step == ActionStep::Continue(next),
    ensures
        is_settled_phase(record.run.phase) ==> is_settled_phase(next.phase) && next.action
            == record.run.action,
        record.run.phase == ActionPhase::Visual && (record.reply matches ActionReply::Mapped(Ok(_)))
            ==> is_settled_phase(next.phase) && delivers(
            record.reply->Mapped_0->Ok_0,
            next.action,
        ),
        !is_settled_phase(record.run.phase) && record.run.phase != ActionPhase::Visual ==> if is_settled_phase(
            next.phase,
        ) {
            delivers(record.run.action, next.action)
        } else {
            next.action == record.run.action
        },
{
    reveal(ActionRecord::holds);
}

/// An action mapped to the pixels of the window is delivered as the host mapped
/// it, whatever happens in between.
pub proof fn law_mapped_actions_are_delivered_as_mapped(
    course: Seq<ActionRecord>,
    at: int,
    later: int,
)
    requires
        is_action_course(course),
        0 <= at < later < course.len(),
        course[at].run.asks() == ActionRequest::MapToPixels,
        course[at].reply matches ActionReply::Mapped(Ok(_)),
    ensures
        delivers(course[at].reply->Mapped_0->Ok_0, course[later].run.action),
        is_settled_phase(course[later].run.phase),
    decreases later,
{
    let last = course[later - 1];
    assert(action_goes_on(course, later));
    lemma_step_carries_the_action(last, course[later].run);
    if later > at + 1 {
        law_mapped_actions_are_delivered_as_mapped(course, at, later - 1);
    }
}

/// An action that needs no mapping is delivered as it was asked for.
pub proof fn law_unmapped_actions_are_delivered_as_asked(course: Seq<ActionRecord>, later: int)
    requires
        is_action_course(course),
        0 <= later < course.len(),
        course[0].run.phase == ActionPhase::Classify,
        forall|i: int|
            0 <= i < later ==> (#[trigger] course[i]).run.asks() != ActionRequest::MapToPixels,
    ensures
        if is_settled_phase(course[later].run.phase) {
            delivers(course[0].run.action, course[later].run.action)
        } else {
            course[later].run.action == course[0].run.action
        },
    decreases later,
{
    if later > 0 {
        law_unmapped_actions_are_delivered_as_asked(course, later - 1);
        let last = course[later - 1];
        assert(action_goes_on(course, later));
        assert(last.run.asks() != ActionRequest::MapToPixels);
        lemma_step_carries_the_action(last, course[later].run);
    }
}

/// What the observation shows stays with the action on its whole course, and
/// comes out with its report.
pub proof fn law_actions_stay_with_their_observation(
    run: ActionRun,
    before: ComputerUseSession,
    now_ms: u64,
    reply: ActionReply,
    after: ComputerUseSession,
    step: ActionStep,
)
    requires
        action_step(run, before, now_ms, reply, after, step),
    ensures
        step matches Step::Continue(next) ==> next.window_handle == run.window_handle
            && next.process_id == run.process_id && next.provenance == run.provenance,
        step matches Step::Done(Ok(report)) ==> report.provenance == run.provenance && Some(
            report.target,
        ) == run.target,
        step matches Step::Continue(next) ==> (next.target == run.target || (
        reply matches ActionReply::Target(Ok(target)) && next.target == Some(target))),
{
}

/// A report hands on what the platform or the driver said, and calls it a success
/// where that was one. Only a semantic pattern is reported as one.
pub proof fn law_reports_hand_the_result_on(
    run: ActionRun,
    before: ComputerUseSession,
    now_ms: u64,
    reply: ActionReply,
    after: ComputerUseSession,
    report: ActionReport,
)
    requires
        action_step(run, before, now_ms, reply, after, ActionStep::Done(Ok(report))),
    ensures
        reply matches ActionReply::Semantic(Ok(result)) ==> report.result == result
            && report.success && report.semantic,
        reply matches ActionReply::Fast(Ok(Some(result))) ==> report.result == result
            && report.success == (result.status == ComputerUseToolStatus::Succeeded)
            && !report.semantic,
        (reply matches ActionReply::Dispatched {
            outcome: DispatchOutcome::Completed(Ok(result)),
            ..
        }) ==> report.success && !report.semantic && report.result
            == reply->Dispatched_outcome->Completed_0->Ok_0,
        reply matches ActionReply::Moved(Ok(())) ==> report.success && report.result.status
            == ComputerUseToolStatus::Succeeded && !report.result.degraded,
        (reply is Fit || reply is Delivery) ==> !report.success && report.result.status
            == ComputerUseToolStatus::Rejected && report.result.images@.len() == 0,
        reply is Semantic || reply is Fast || reply is Dispatched || reply is Moved || reply is Fit
            || reply is Delivery,
{
}

/// A rejection says which backend was rejected and why, for which window, and
/// that nothing was attempted.
pub proof fn law_rejections_say_that_nothing_was_sent(
    result: ComputerUseToolResult,
    backend_id: Seq<char>,
    reason: Seq<char>,
    target: WindowTarget,
)
    requires
        is_rejection(result, backend_id, reason, target),
    ensures
        ({
            let value = result.value.view();
            let delivery = value.get("delivery"@)->0;
            let fence = delivery.get("target_fence"@)->0;
            &&& value.bool_at("success"@) == Some(false)
            &&& value.text_at("route"@) == Some("input_backend_selection"@)
            &&& value.text_at("effect"@) == Some("not_attempted"@)
            &&& value.get("delivery"@) is Some
            &&& delivery.text_at("mode"@) == Some("foreground"@)
            &&& delivery.text_at("backend_id"@) == Some(backend_id)
            &&& delivery.text_at("rejection_reason"@) == Some(reason)
            &&& delivery.bool_at("api_accepted"@) == Some(false)
            &&& delivery.bool_at("consumer_effect_confirmed"@) == Some(false)
            &&& delivery.bool_at("completion_known"@) == Some(false)
            &&& delivery.bool_at("verification_required"@) == Some(true)
            &&& delivery.bool_at("retry_safe"@) == Some(false)
            &&& delivery.bool_at("fallback_attempted"@) == Some(false)
            &&& delivery.get("target_fence"@) is Some
            &&& fence.u64_at("process_id"@) == Some(target.pid as u64)
            &&& fence.u64_at("window_handle"@) == Some(target.window_id)
            &&& fence.bool_at("exact_window"@) == Some(true)
            &&& fence.bool_at("foreground_required"@) == Some(true)
            &&& fence.bool_at("foreground_verified"@) == Some(target.is_foreground)
        }),
{
    reveal_strlit("success");
    reveal_strlit("route");
    reveal_strlit("delivery");
    reveal_strlit("effect");
    reveal_strlit("mode");
    reveal_strlit("backend_id");
    reveal_strlit("api_accepted");
    reveal_strlit("consumer_effect_confirmed");
    reveal_strlit("completion_known");
    reveal_strlit("verification_required");
    reveal_strlit("retry_safe");
    reveal_strlit("fallback_attempted");
    reveal_strlit("rejection_reason");
    reveal_strlit("target_fence");
    reveal_strlit("process_id");
    reveal_strlit("window_handle");
    reveal_strlit("exact_window");
    reveal_strlit("foreground_required");
    reveal_strlit("foreground_verified");
    assert("success"@.len() == 7);
    assert("route"@.len() == 5);
    assert("delivery"@.len() == 8);
    assert("effect"@.len() == 6);
    assert("mode"@.len() == 4);
    assert("backend_id"@.len() == 10);
    assert("api_accepted"@.len() == 12);
    assert("consumer_effect_confirmed"@.len() == 25);
    assert("completion_known"@.len() == 16);
    assert("verification_required"@.len() == 21);
    assert("retry_safe"@.len() == 10);
    assert("fallback_attempted"@.len() == 18);
    assert("rejection_reason"@.len() == 16);
    assert("target_fence"@.len() == 12);
    assert("process_id"@.len() == 10);
    assert("window_handle"@.len() == 13);
    assert("exact_window"@.len() == 12);
    assert("foreground_required"@.len() == 19);
    assert("foreground_verified"@.len() == 19);
    assert("backend_id"@[0] != "retry_safe"@[0]);
    assert("backend_id"@[0] != "process_id"@[0]);
    assert("retry_safe"@[0] != "process_id"@[0]);
    assert("api_accepted"@[0] != "target_fence"@[0]);
    assert("api_accepted"@[0] != "exact_window"@[0]);
    assert("target_fence"@[0] != "exact_window"@[0]);
    assert("completion_known"@[0] != "rejection_reason"@[0]);
    assert("foreground_required"@[11] != "foreground_verified"@[11]);
}

/// The report of a moved pointer names the place it was moved to.
pub proof fn law_moved_pointers_are_reported_where_they_are(
    run: ActionRun,
    before: ComputerUseSession,
    now_ms: u64,
    after: ComputerUseSession,
    report: ActionReport,
)
    requires
        action_step(
            run,
            before,
            now_ms,
            ActionReply::Moved(Ok(())),
            after,
            ActionStep::Done(Ok(report)),
        ),
    ensures
        run.asks() == (ActionRequest::MovePointer { x: run.pointer.0, y: run.pointer.1 }),
        report.result.value.view().get("x"@) == Some(
            JsonTree::Number(integer_tree(run.pointer.0 as int)),
        ),
        report.result.value.view().get("y"@) == Some(
            JsonTree::Number(integer_tree(run.pointer.1 as int)),
        ),
        report.result.value.view().text_at("path"@) == Some("SetCursorPos"@),
        report.result.value.view().text_at("scope"@) == Some("window"@),
{
    reveal_strlit("scope");
    reveal_strlit("path");
    reveal_strlit("x");
    reveal_strlit("y");
    assert("scope"@.len() == 5);
    assert("path"@.len() == 4);
    assert("x"@.len() == 1);
    assert("y"@.len() == 1);
    assert("x"@[0] != "y"@[0]);
}

/// The pointer is moved to the very place that the host found for it.
pub proof fn law_pointers_go_where_they_were_placed(
    run: ActionRun,
    before: ComputerUseSession,
    now_ms: u64,
    reply: ActionReply,
    after: ComputerUseSession,
    next: ActionRun,
)
    requires
        action_step(run, before, now_ms, reply, after, ActionStep::Continue(next)),
    ensures
        run.asks() == ActionRequest::PlacePointer && (reply matches ActionReply::Placed(Ok(_)))
            ==> next.pointer == reply->Placed_0->Ok_0,
        !(run.asks() == ActionRequest::PlacePointer && (reply matches ActionReply::Placed(Ok(_))))
            ==> next.pointer == run.pointer,
{
}

/// Before anything is sent, the input desktop was found open, and the window was
/// found once more to be the observed one where the platform sends it; a window
/// that has to be in front is in front.
pub proof fn law_input_is_sent_past_its_guards(
    run: ActionRun,
    before: ComputerUseSession,
    now_ms: u64,
    reply: ActionReply,
    after: ComputerUseSession,
    next: ActionRun,
)
    requires
        action_step(run, before, now_ms, reply, after, ActionStep::Continue(next)),
        next.phase != run.phase,
    ensures
        next.phase == ActionPhase::Activation || next.phase == ActionPhase::PointerActivation
            || next.phase == ActionPhase::Visual || next.phase == ActionPhase::PointerPosition
            ==> run.asks() == ActionRequest::CheckInput && (reply matches ActionReply::Gate(Ok(_))),
        next.phase == ActionPhase::Semantic ==> run.phase == ActionPhase::Fit && before.windows_uia
            && before.native_windows,
        next.phase == ActionPhase::DispatchInput || next.phase == ActionPhase::ActivatedInput ==> (
        reply matches ActionReply::Target(Ok(target)) && next.target == Some(target)
            && is_usable_target(before, Ok(target))),
        next.phase == ActionPhase::DispatchInput ==> next.target->0.window_id == run.window_handle
            && next.target->0.pid == run.process_id,
        next.phase == ActionPhase::PointerMove ==> run.phase == ActionPhase::PointerActivation
            && (reply matches ActionReply::Activated(Ok(_))),
        next.phase == ActionPhase::Fast && run.phase == ActionPhase::ActivatedInput ==> (
        run.target matches Some(target) && target.is_foreground),
        next.phase == ActionPhase::Fast && run.phase != ActionPhase::ActivatedInput ==> run.phase
            == ActionPhase::Effective && (run.action.delivery_mode is None
            || run.action.delivery_mode->0@ != "foreground"@ || (run.target matches Some(target)
            && target.is_foreground)),
        next.phase == ActionPhase::Takeover || (next.phase == ActionPhase::PhysicalInput
            && run.phase == ActionPhase::Target) || (next.phase == ActionPhase::Fit && run.phase
            == ActionPhase::Target) ==> (reply matches ActionReply::Target(Ok(target)) && next.target
            == Some(target) && is_usable_target(before, Ok(target)) && target.window_id
            == run.window_handle && target.pid == run.process_id),
        next.phase == ActionPhase::Fit && run.phase != ActionPhase::PhysicalInput
            ==> !next.needs_physical_input,
        next.phase == ActionPhase::Takeover ==> before.native_windows,
        run.phase == ActionPhase::Target && before.native_windows ==> next.phase
            == ActionPhase::Takeover,
{
}

/// Whatever the host refuses or fails at ends the action, with the host's own
/// words.
pub proof fn law_refused_actions_end(
    run: ActionRun,
    before: ComputerUseSession,
    now_ms: u64,
    error: ComputerUseError,
    reply: ActionReply,
    after: ComputerUseSession,
    step: ActionStep,
)
    requires
        action_step(run, before, now_ms, reply, after, step),
        (run.asks() == ActionRequest::CheckInput && reply == ActionReply::Gate(Err(error))) || (
        run.asks() == ActionRequest::MapToPixels && reply == ActionReply::Mapped(Err(error))) || (
        run.asks() == ActionRequest::PlacePointer && reply == ActionReply::Placed(Err(error))) || (
        run.asks() == ActionRequest::DispatchToDriver && reply == ActionReply::NotDispatchable(
            error,
        )) || (run.asks() == ActionRequest::FindTakeover && reply == ActionReply::Takeover(
            Err(error),
        )) || (run.asks() == ActionRequest::ResolveTarget && reply == ActionReply::Target(
            Err(error),
        )),
    ensures
        step == ActionStep::Done(Err(error)),
{
}

/// Input that the host sent itself and that failed is reported with the host's
/// words, and the evidence it was based on is spent.
pub proof fn law_failed_input_spends_evidence(
    run: ActionRun,
    before: ComputerUseSession,
    now_ms: u64,
    cause: ComputerUseError,
    reply: ActionReply,
    after: ComputerUseSession,
    step: ActionStep,
)
    requires
        action_step(run, before, now_ms, reply, after, step),
        (run.asks() == ActionRequest::PerformSemantic && reply == ActionReply::Semantic(Err(cause)))
            || (run.asks() == ActionRequest::PerformFast && reply == ActionReply::Fast(Err(cause)))
            || (run.phase == ActionPhase::PointerMove && reply == ActionReply::Moved(Err(cause))),
    ensures
        step matches ActionStep::Done(Err(error)) && error.code == cause.code && error.message
            == cause.message && error.details is Some,
        after.observation is None,
        after.active == before.active,
{
}

/// The banner says what is typed or pointed at while it is, and that something is
/// going on at any other time.
pub proof fn law_actions_show_what_they_do(run: ActionRun)
    ensures
        run.phase != ActionPhase::PointerMove ==> run.shows_activity() == Some(
            BannerActivity::Operating,
        ),
        run.phase == ActionPhase::PointerMove && run.action.action@ == "move"@
            ==> run.shows_activity() == Some(BannerActivity::PointerInput),
        run.phase == ActionPhase::PointerMove && run.action.action@ == "type"@
            ==> run.shows_activity() == Some(BannerActivity::KeyboardInput),
{
    reveal_strlit("move");
    reveal_strlit("type");
    reveal_strlit("type_chars");
    reveal_strlit("set_text");
    reveal_strlit("set_value");
    reveal_strlit("keypress");
    reveal_strlit("keyboard_shortcut");
    assert("move"@.len() == 4);
    assert("type"@.len() == 4);
    assert("type_chars"@.len() == 10);
    assert("set_text"@.len() == 8);
    assert("set_value"@.len() == 9);
    assert("keypress"@.len() == 8);
    assert("keyboard_shortcut"@.len() == 17);
    assert("move"@[0] != "type"@[0]);
    assert("set_text"@[0] != "keypress"@[0]);
}

/// A click is held exactly where it is at a point and for a time; it then is a drag
/// that stays at that point, with everything else as it was.
pub proof fn law_held_clicks_stay_where_they_are(
    click: ComputerUseAction,
    drag: ComputerUseAction,
    i: int,
)
    requires
        is_held_drag(click, drag),
        0 <= i < 2,
    ensures
        is_held_click(click) <==> click.action@ == "click"@ && click.x is Some && click.y is Some
            && click.duration_ms is Some && click.duration_ms->0 > 0,
        drag.action@ == "drag"@,
        drag.path@.len() == 2,
        drag.path@[i].x == click.x->0,
        drag.path@[i].y == click.y->0,
        drag.duration_ms == click.duration_ms,
        drag.button == click.button,
        drag.modifiers@ == click.modifiers@,
        drag.observation_id == click.observation_id,
        drag.delivery_mode == click.delivery_mode,
        drag.input_backend_id == click.input_backend_id,
{
}

} // verus!
