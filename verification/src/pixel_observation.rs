//! Exact-window pixel evidence: routes, fences, and publication.

use crate::driver::ToolReply;
use crate::errors::{ComputerUseError, ComputerUseErrorCode, ComputerUseResult};
#[allow(unused_imports)]
use crate::errors::{decides, Refusal};
use crate::json::{put_member, Json, JsonMember};
#[allow(unused_imports)]
use crate::json::{array_tree, integer_tree, unsigned_tree, JsonTree};
use crate::text::text_eq;
use crate::window_target::WindowTarget;
use vstd::prelude::*;

verus! {

/// Why a session observes pixels without accessibility.
#[derive(Clone, Copy, Debug, PartialEq, Eq, Structural)]
pub enum PixelObservationRoute {
    ExplicitPixelsOnly,
    AccessibilityUnavailableDegraded,
    AccessibilityTimeoutDegraded,
}

impl PixelObservationRoute {
    pub open spec fn mode_text(self) -> Seq<char> {
        match self {
            PixelObservationRoute::ExplicitPixelsOnly => "pixels_only"@,
            PixelObservationRoute::AccessibilityUnavailableDegraded =>
                "accessibility_unavailable_degraded"@,
            PixelObservationRoute::AccessibilityTimeoutDegraded =>
                "accessibility_timeout_degraded"@,
        }
    }

    pub fn observation_mode(self) -> (r: &'static str)
        ensures
            r@ == self.mode_text(),
    {
        match self {
            PixelObservationRoute::ExplicitPixelsOnly => "pixels_only",
            PixelObservationRoute::AccessibilityUnavailableDegraded =>
                "accessibility_unavailable_degraded",
            PixelObservationRoute::AccessibilityTimeoutDegraded =>
                "accessibility_timeout_degraded",
        }
    }

    pub fn degraded(self) -> (r: bool)
        ensures
            r == (self != PixelObservationRoute::ExplicitPixelsOnly),
    {
        self != PixelObservationRoute::ExplicitPixelsOnly
    }
}

/// The route an accessibility failure leaves: a provider that hung and one
/// that is missing degrade to pixels; nothing else does.
pub open spec fn route_after(error: ComputerUseError) -> Option<PixelObservationRoute> {
    if error.timed_out() {
        Some(PixelObservationRoute::AccessibilityTimeoutDegraded)
    } else if error.code == ComputerUseErrorCode::NoAccessibilityProvider {
        Some(PixelObservationRoute::AccessibilityUnavailableDegraded)
    } else {
        None
    }
}

pub fn pixel_route_for_accessibility_failure(error: &ComputerUseError) -> (r: Option<
    PixelObservationRoute,
>)
    ensures
        r == route_after(*error),
{
    if error.is_timed_out() {
        return Some(PixelObservationRoute::AccessibilityTimeoutDegraded);
    }
    if error.code == ComputerUseErrorCode::NoAccessibilityProvider {
        return Some(PixelObservationRoute::AccessibilityUnavailableDegraded);
    }
    None
}

/// The route a failed snapshot tool leaves.
pub open spec fn route_after_tool(reply: ToolReply) -> Option<PixelObservationRoute> {
    match reply.error_code {
        Some(code) if reply.is_error => if code@ == "uia_timeout"@ {
            Some(PixelObservationRoute::AccessibilityTimeoutDegraded)
        } else if code@ == "no_accessibility_provider"@ {
            Some(PixelObservationRoute::AccessibilityUnavailableDegraded)
        } else {
            None
        },
        _ => None,
    }
}

pub fn pixel_route_for_uia_tool_failure(reply: &ToolReply) -> (r: Option<PixelObservationRoute>)
    ensures
        r == route_after_tool(*reply),
{
    if !reply.is_error {
        return None;
    }
    match &reply.error_code {
        Some(code) => if text_eq(code.as_str(), "uia_timeout") {
            Some(PixelObservationRoute::AccessibilityTimeoutDegraded)
        } else if text_eq(code.as_str(), "no_accessibility_provider") {
            Some(PixelObservationRoute::AccessibilityUnavailableDegraded)
        } else {
            None
        },
        None => None,
    }
}

/// Why a window's pixels cannot be published.
pub open spec fn pixel_target_refusal(target: WindowTarget, unobscured: bool) -> Refusal {
    if target.is_minimized {
        Some((ComputerUseErrorCode::TargetMinimized, "the exact pixel target is minimized"@))
    } else if !target.is_on_screen {
        Some(
            (
                ComputerUseErrorCode::TargetUnavailable,
                "the exact pixel target is hidden or off-screen"@,
            ),
        )
    } else if !unobscured {
        Some(
            (
                ComputerUseErrorCode::CaptureFailed,
                "the exact pixel target is occluded; pixels were discarded"@,
            ),
        )
    } else {
        None
    }
}

pub fn validate_exact_window_pixel_target_state(target: &WindowTarget, unobscured: bool) -> (r:
    ComputerUseResult<()>)
    ensures
        decides(r, pixel_target_refusal(*target, unobscured)),
{
    if target.is_minimized {
        return Err(
            ComputerUseError::new(
                ComputerUseErrorCode::TargetMinimized,
                "the exact pixel target is minimized",
            ),
        );
    }
    if !target.is_on_screen {
        return Err(
            ComputerUseError::new(
                ComputerUseErrorCode::TargetUnavailable,
                "the exact pixel target is hidden or off-screen",
            ),
        );
    }
    if !unobscured {
        return Err(
            ComputerUseError::new(
                ComputerUseErrorCode::CaptureFailed,
                "the exact pixel target is occluded; pixels were discarded",
            ),
        );
    }
    Ok(())
}

#[derive(Clone, Copy, Debug, PartialEq, Eq)]
pub struct ExactWindowPixelGeometry {
    pub bounds: [i32; 4],
    pub dpi: u32,
}

#[derive(Clone, Copy, Debug, PartialEq, Eq, Structural)]
pub enum ExactWindowPixelCaptureMode {
    WindowContent,
    VisibleDesktopCrop,
}

impl ExactWindowPixelCaptureMode {
    /// Pixels cut from the desktop show the window only if nothing covers it.
    pub open spec fn needs_visibility(self) -> bool {
        self == ExactWindowPixelCaptureMode::VisibleDesktopCrop
    }

    pub fn requires_unobscured_desktop(self) -> (r: bool)
        ensures
            r == self.needs_visibility(),
    {
        self == ExactWindowPixelCaptureMode::VisibleDesktopCrop
    }
}

/// What tells one incarnation of a process and window from a later one that
/// reuses its numbers.
#[derive(Clone, Copy, Debug, PartialEq, Eq, Structural)]
pub struct ExactWindowPixelInstanceIdentity {
    pub process_creation_time_100ns: u64,
    pub window_thread_id: u32,
    pub window_class_hash: u64,
    pub owner_window_handle: u64,
}

#[derive(Clone, Copy, Debug, PartialEq, Eq)]
pub struct ExactWindowPixelPublicationFence {
    pub geometry: ExactWindowPixelGeometry,
    pub source_rect: [i32; 4],
    pub generation: u64,
    pub mode: ExactWindowPixelCaptureMode,
    pub instance: ExactWindowPixelInstanceIdentity,
}

/// What the native system says of a window around a capture.
#[derive(Clone, Copy, Debug, PartialEq, Eq)]
pub struct ExactWindowPixelEvidence {
    pub process_id: u32,
    pub window_handle: u64,
    pub bounds: [i32; 4],
    pub visible_bounds: [i32; 4],
    pub dpi: u32,
    pub visible: bool,
    pub minimized: bool,
    pub unobscured: bool,
    pub instance: ExactWindowPixelInstanceIdentity,
}

fn same_rect(a: &[i32; 4], b: &[i32; 4]) -> (r: bool)
    ensures
        r == (a@ == b@),
{
    let same = a[0] == b[0] && a[1] == b[1] && a[2] == b[2] && a[3] == b[3];
    if same {
        assert(a@ =~= b@);
    }
    same
}

pub open spec fn instance_refusal(
    captured: ExactWindowPixelInstanceIdentity,
    final_instance: ExactWindowPixelInstanceIdentity,
) -> Refusal {
    if captured != final_instance {
        Some(
            (
                ComputerUseErrorCode::StaleObservation,
                "the exact process or HWND instance changed during pixel capture"@,
            ),
        )
    } else {
        None
    }
}

pub fn validate_final_exact_window_pixel_instance(
    captured: ExactWindowPixelInstanceIdentity,
    final_instance: ExactWindowPixelInstanceIdentity,
) -> (r: ComputerUseResult<()>)
    ensures
        decides(r, instance_refusal(captured, final_instance)),
{
    if captured != final_instance {
        return Err(
            ComputerUseError::new(
                ComputerUseErrorCode::StaleObservation,
                "the exact process or HWND instance changed during pixel capture",
            ),
        );
    }
    Ok(())
}

/// Why captured pixels may not be published after a final look at the window.
pub open spec fn publication_refusal(
    captured_target: WindowTarget,
    final_inventory: WindowTarget,
    captured: ExactWindowPixelPublicationFence,
    final_fence: ExactWindowPixelPublicationFence,
    final_unobscured: bool,
) -> Refusal {
    if instance_refusal(captured.instance, final_fence.instance) is Some {
        instance_refusal(captured.instance, final_fence.instance)
    } else if captured_target.bounds@ != captured.geometry.bounds@ || final_inventory.bounds@
        != final_fence.geometry.bounds@ {
        Some(
            (
                ComputerUseErrorCode::StaleObservation,
                "the final native bounds do not match the captured or inventoried exact window"@,
            ),
        )
    } else if final_fence.generation <= captured.generation || final_fence.mode != captured.mode {
        Some(
            (
                ComputerUseErrorCode::StaleObservation,
                "the final exact-window capture generation or mode is stale"@,
            ),
        )
    } else if captured.source_rect@ != final_fence.source_rect@ || (captured.mode
        == ExactWindowPixelCaptureMode::WindowContent && (captured.source_rect@
        != captured.geometry.bounds@ || final_fence.source_rect@
        != final_fence.geometry.bounds@)) {
        Some(
            (
                ComputerUseErrorCode::StaleObservation,
                "the exact-window pixel source rectangle changed before final publication"@,
            ),
        )
    } else if !captured_target.same_window(final_inventory) || captured_target.bounds@
        != final_inventory.bounds@ || captured.geometry.dpi != final_fence.geometry.dpi {
        Some(
            (
                ComputerUseErrorCode::StaleObservation,
                "the exact PID/HWND, bounds, or DPI changed before final publication"@,
            ),
        )
    } else {
        pixel_target_refusal(
            final_inventory,
            !captured.mode.needs_visibility() || final_unobscured,
        )
    }
}

pub fn validate_final_exact_window_pixel_publication(
    captured_target: &WindowTarget,
    final_inventory: &WindowTarget,
    captured: ExactWindowPixelPublicationFence,
    final_fence: ExactWindowPixelPublicationFence,
    final_unobscured: bool,
) -> (r: ComputerUseResult<()>)
    ensures
        decides(
            r,
            publication_refusal(
                *captured_target,
                *final_inventory,
                captured,
                final_fence,
                final_unobscured,
            ),
        ),
{
    match validate_final_exact_window_pixel_instance(captured.instance, final_fence.instance) {
        Ok(()) => {},
        Err(error) => return Err(error),
    }
    if !same_rect(&captured_target.bounds, &captured.geometry.bounds) || !same_rect(
        &final_inventory.bounds,
        &final_fence.geometry.bounds,
    ) {
        return Err(
            ComputerUseError::new(
                ComputerUseErrorCode::StaleObservation,
                "the final native bounds do not match the captured or inventoried exact window",
            ),
        );
    }
    if final_fence.generation <= captured.generation || final_fence.mode != captured.mode {
        return Err(
            ComputerUseError::new(
                ComputerUseErrorCode::StaleObservation,
                "the final exact-window capture generation or mode is stale",
            ),
        );
    }
    if !same_rect(&captured.source_rect, &final_fence.source_rect) || (captured.mode
        == ExactWindowPixelCaptureMode::WindowContent && (!same_rect(
        &captured.source_rect,
        &captured.geometry.bounds,
    ) || !same_rect(&final_fence.source_rect, &final_fence.geometry.bounds))) {
        return Err(
            ComputerUseError::new(
                ComputerUseErrorCode::StaleObservation,
                "the exact-window pixel source rectangle changed before final publication",
            ),
        );
    }
    if !captured_target.is_same_window(final_inventory) || !same_rect(
        &captured_target.bounds,
        &final_inventory.bounds,
    ) || captured.geometry.dpi != final_fence.geometry.dpi {
        return Err(
            ComputerUseError::new(
                ComputerUseErrorCode::StaleObservation,
                "the exact PID/HWND, bounds, or DPI changed before final publication",
            ),
        );
    }
    validate_exact_window_pixel_target_state(
        final_inventory,
        !captured.mode.requires_unobscured_desktop() || final_unobscured,
    )
}

/// Why the native evidence on both sides of a capture does not hold it.
pub open spec fn native_evidence_refusal(
    before: ExactWindowPixelEvidence,
    after: ExactWindowPixelEvidence,
    mode: ExactWindowPixelCaptureMode,
) -> Refusal {
    if before.process_id != after.process_id || before.window_handle != after.window_handle
        || before.instance != after.instance || before.bounds@ != after.bounds@
        || before.visible_bounds@ != after.visible_bounds@ || before.dpi != after.dpi {
        Some(
            (
                ComputerUseErrorCode::StaleObservation,
                "the native exact-window identity, bounds, or DPI changed during pixel capture"@,
            ),
        )
    } else if before.minimized || after.minimized {
        Some(
            (
                ComputerUseErrorCode::TargetMinimized,
                "the exact pixel target became minimized during capture"@,
            ),
        )
    } else if !before.visible || !after.visible {
        Some(
            (
                ComputerUseErrorCode::TargetUnavailable,
                "the exact pixel target became hidden during capture"@,
            ),
        )
    } else if mode.needs_visibility() && (!before.unobscured || !after.unobscured) {
        Some(
            (
                ComputerUseErrorCode::CaptureFailed,
                "the exact pixel target was occluded; pixels were discarded"@,
            ),
        )
    } else {
        None
    }
}

pub fn validate_native_exact_window_pixel_evidence(
    before: &ExactWindowPixelEvidence,
    after: &ExactWindowPixelEvidence,
    capture_mode: ExactWindowPixelCaptureMode,
) -> (r: ComputerUseResult<()>)
    ensures
        decides(r, native_evidence_refusal(*before, *after, capture_mode)),
{
    if before.process_id != after.process_id || before.window_handle != after.window_handle
        || before.instance != after.instance || !same_rect(&before.bounds, &after.bounds)
        || !same_rect(&before.visible_bounds, &after.visible_bounds) || before.dpi != after.dpi {
        return Err(
            ComputerUseError::new(
                ComputerUseErrorCode::StaleObservation,
                "the native exact-window identity, bounds, or DPI changed during pixel capture",
            ),
        );
    }
    if before.minimized || after.minimized {
        return Err(
            ComputerUseError::new(
                ComputerUseErrorCode::TargetMinimized,
                "the exact pixel target became minimized during capture",
            ),
        );
    }
    if !before.visible || !after.visible {
        return Err(
            ComputerUseError::new(
                ComputerUseErrorCode::TargetUnavailable,
                "the exact pixel target became hidden during capture",
            ),
        );
    }
    if capture_mode.requires_unobscured_desktop() && (!before.unobscured || !after.unobscured) {
        return Err(
            ComputerUseError::new(
                ComputerUseErrorCode::CaptureFailed,
                "the exact pixel target was occluded; pixels were discarded",
            ),
        );
    }
    Ok(())
}

/// A rectangle as JSON.
pub open spec fn rect_tree(rect: [i32; 4]) -> JsonTree {
    JsonTree::Array(
        seq![
            JsonTree::Number(integer_tree(rect@[0] as int)),
            JsonTree::Number(integer_tree(rect@[1] as int)),
            JsonTree::Number(integer_tree(rect@[2] as int)),
            JsonTree::Number(integer_tree(rect@[3] as int)),
        ],
    )
}

pub fn rect_json(rect: &[i32; 4]) -> (r: Json)
    ensures
        r.view() == rect_tree(*rect),
{
    let mut items: Vec<Json> = Vec::new();
    items.push(Json::signed(rect[0] as i64));
    items.push(Json::signed(rect[1] as i64));
    items.push(Json::signed(rect[2] as i64));
    items.push(Json::signed(rect[3] as i64));
    proof {
        crate::json::lemma_array_tree(items@);
        assert(array_tree(items@) =~= rect_tree(*rect)->Array_0);
    }
    Json::Array(items)
}

/// Where exact-window pixels came from.
pub open spec fn pixel_provenance(
    route: PixelObservationRoute,
    target: WindowTarget,
    capture_generation: u64,
    window_dpi: u32,
    backend: Seq<char>,
) -> Map<Seq<char>, JsonTree> {
    Map::<Seq<char>, JsonTree>::empty().insert("backend"@, JsonTree::Text(backend)).insert(
        "pixels_captured"@,
        JsonTree::Bool(true),
    ).insert("scope"@, JsonTree::Text("window"@)).insert(
        "whole_desktop_capture"@,
        JsonTree::Bool(false),
    ).insert("observation_mode"@, JsonTree::Text(route.mode_text())).insert(
        "degraded"@,
        JsonTree::Bool(route != PixelObservationRoute::ExplicitPixelsOnly),
    ).insert("accessibility_available"@, JsonTree::Bool(false)).insert(
        "process_id"@,
        unsigned_tree(target.pid as u64),
    ).insert("window_handle"@, unsigned_tree(target.window_id)).insert(
        "native_window_bounds"@,
        rect_tree(target.bounds),
    ).insert("capture_generation"@, unsigned_tree(capture_generation)).insert(
        "window_dpi"@,
        unsigned_tree(window_dpi as u64),
    )
}

pub fn exact_window_pixel_provenance(
    route: PixelObservationRoute,
    target: &WindowTarget,
    capture_generation: u64,
    window_dpi: u32,
    backend: &str,
) -> (r: Json)
    ensures
        r.view() == JsonTree::Object(
            pixel_provenance(route, *target, capture_generation, window_dpi, backend@),
        ),
{
    let mut members: Vec<JsonMember> = Vec::new();
    put_member(&mut members, "backend", Json::text(backend));
    put_member(&mut members, "pixels_captured", Json::Bool(true));
    put_member(&mut members, "scope", Json::text("window"));
    put_member(&mut members, "whole_desktop_capture", Json::Bool(false));
    put_member(&mut members, "observation_mode", Json::text(route.observation_mode()));
    put_member(&mut members, "degraded", Json::Bool(route.degraded()));
    put_member(&mut members, "accessibility_available", Json::Bool(false));
    put_member(&mut members, "process_id", Json::unsigned(target.pid as u64));
    put_member(&mut members, "window_handle", Json::unsigned(target.window_id));
    put_member(&mut members, "native_window_bounds", rect_json(&target.bounds));
    put_member(&mut members, "capture_generation", Json::unsigned(capture_generation));
    put_member(&mut members, "window_dpi", Json::unsigned(window_dpi as u64));
    Json::Object(members)
}

/// One bracketed capture: native evidence on both sides of its pixels.
#[derive(Clone, Copy, Debug, PartialEq, Eq)]
pub struct BracketedCapture {
    pub before: ExactWindowPixelEvidence,
    pub after: ExactWindowPixelEvidence,
    pub mode: ExactWindowPixelCaptureMode,
    pub source_rect: [i32; 4],
    pub generation: u64,
}

impl BracketedCapture {
    pub open spec fn as_fence(self) -> ExactWindowPixelPublicationFence {
        ExactWindowPixelPublicationFence {
            geometry: ExactWindowPixelGeometry { bounds: self.after.bounds, dpi: self.after.dpi },
            source_rect: self.source_rect,
            generation: self.generation,
            mode: self.mode,
            instance: self.after.instance,
        }
    }

    pub fn fence(&self) -> (r: ExactWindowPixelPublicationFence)
        ensures
            r == self.as_fence(),
    {
        ExactWindowPixelPublicationFence {
            geometry: ExactWindowPixelGeometry { bounds: self.after.bounds, dpi: self.after.dpi },
            source_rect: self.source_rect,
            generation: self.generation,
            mode: self.mode,
            instance: self.after.instance,
        }
    }
}

/// Why a first capture and a final recapture together publish nothing.
pub open spec fn bracketed_refusal(
    captured_target: WindowTarget,
    final_inventory: WindowTarget,
    first: BracketedCapture,
    last: BracketedCapture,
) -> Refusal {
    if native_evidence_refusal(first.before, first.after, first.mode) is Some {
        native_evidence_refusal(first.before, first.after, first.mode)
    } else if native_evidence_refusal(last.before, last.after, last.mode) is Some {
        native_evidence_refusal(last.before, last.after, last.mode)
    } else {
        publication_refusal(
            captured_target,
            final_inventory,
            first.as_fence(),
            last.as_fence(),
            last.after.unobscured,
        )
    }
}

/// Publishes the pixels of a first capture only after a final recapture of
/// the same unchanged window.
pub fn validate_bracketed_publication(
    captured_target: &WindowTarget,
    final_inventory: &WindowTarget,
    first: &BracketedCapture,
    last: &BracketedCapture,
) -> (r: ComputerUseResult<()>)
    ensures
        decides(r, bracketed_refusal(*captured_target, *final_inventory, *first, *last)),
{
    match validate_native_exact_window_pixel_evidence(&first.before, &first.after, first.mode) {
        Ok(()) => {},
        Err(error) => return Err(error),
    }
    match validate_native_exact_window_pixel_evidence(&last.before, &last.after, last.mode) {
        Ok(()) => {},
        Err(error) => return Err(error),
    }
    validate_final_exact_window_pixel_publication(
        captured_target,
        final_inventory,
        first.fence(),
        last.fence(),
        last.after.unobscured,
    )
}

/// Published pixels were held by one incarnation of one unmoved window: every
/// look at it, before and after both captures, saw the same instance, bounds,
/// and resolution, restored and visible, and uncovered where the pixels were
/// cut from the desktop.
pub proof fn law_published_pixels_show_one_unchanged_window(
    captured_target: WindowTarget,
    final_inventory: WindowTarget,
    first: BracketedCapture,
    last: BracketedCapture,
)
    requires
        bracketed_refusal(captured_target, final_inventory, first, last) is None,
    ensures
        first.before.instance == first.after.instance,
        first.after.instance == last.before.instance,
        last.before.instance == last.after.instance,
        first.after.bounds@ == last.after.bounds@,
        first.after.dpi == last.after.dpi,
        first.source_rect@ == last.source_rect@,
        first.mode == last.mode,
        first.generation < last.generation,
        captured_target.same_window(final_inventory),
        final_inventory.available(),
        first.before.visible && first.after.visible && last.before.visible && last.after.visible,
        first.mode.needs_visibility() ==> first.before.unobscured && first.after.unobscured
            && last.before.unobscured && last.after.unobscured,
        first.mode == ExactWindowPixelCaptureMode::WindowContent ==> first.source_rect@
            == captured_target.bounds@,
{
}

/// Any change of the window's incarnation, wherever in the two captures it
/// happens, keeps the pixels back.
pub proof fn law_replaced_windows_are_never_published(
    captured_target: WindowTarget,
    final_inventory: WindowTarget,
    first: BracketedCapture,
    last: BracketedCapture,
)
    requires
        first.before.instance != first.after.instance || first.after.instance
            != last.before.instance || last.before.instance != last.after.instance,
    ensures
        bracketed_refusal(captured_target, final_inventory, first, last) is Some,
{
}

/// A rectangle is told by its four numbers, in their order.
pub proof fn law_rectangles_are_told_in_order(rect: [i32; 4])
    ensures
        rect_tree(rect) matches JsonTree::Array(sides) && sides.len() == 4 && forall|i: int|
            0 <= i < 4 ==> #[trigger] sides[i] == JsonTree::Number(integer_tree(rect@[i] as int)),
{
}

/// Only a failure that timed out, or that shows that there is no accessibility,
/// leaves a window to its pixels, each under its own name.
pub proof fn law_only_missing_accessibility_leaves_pixels(
    error: ComputerUseError,
    reply: ToolReply,
)
    ensures
        route_after(error) is Some <==> error.timed_out() || error.code
            == ComputerUseErrorCode::NoAccessibilityProvider,
        route_after(error) == Some(PixelObservationRoute::AccessibilityTimeoutDegraded)
            <==> error.timed_out(),
        route_after(error) != Some(PixelObservationRoute::ExplicitPixelsOnly),
        route_after_tool(reply) is Some ==> reply.is_error && reply.error_code is Some,
        reply.is_error && (reply.error_code matches Some(code) && code@ == "uia_timeout"@)
            ==> route_after_tool(reply) == Some(
            PixelObservationRoute::AccessibilityTimeoutDegraded,
        ),
        reply.is_error && (reply.error_code matches Some(code) && code@
            == "no_accessibility_provider"@) ==> route_after_tool(reply) == Some(
            PixelObservationRoute::AccessibilityUnavailableDegraded,
        ),
        (reply.error_code matches Some(code) && code@ != "uia_timeout"@ && code@
            != "no_accessibility_provider"@) ==> route_after_tool(reply) is None,
{
    reveal_strlit("uia_timeout");
    reveal_strlit("no_accessibility_provider");
    assert("uia_timeout"@.len() == 11);
    assert("no_accessibility_provider"@.len() == 25);
}

/// Pixels are taken of a window that is shown, not minimized, and not covered.
pub proof fn law_pixels_are_of_shown_windows(target: WindowTarget, unobscured: bool)
    ensures
        pixel_target_refusal(target, unobscured) is None <==> !target.is_minimized
            && target.is_on_screen && unobscured,
        target.is_minimized ==> (pixel_target_refusal(target, unobscured) matches Some((code, _))
            && code == ComputerUseErrorCode::TargetMinimized),
        !target.is_minimized && !target.is_on_screen ==> (pixel_target_refusal(
            target,
            unobscured,
        ) matches Some((code, _)) && code == ComputerUseErrorCode::TargetUnavailable),
        !target.is_minimized && target.is_on_screen && !unobscured ==> (pixel_target_refusal(
            target,
            unobscured,
        ) matches Some((code, _)) && code == ComputerUseErrorCode::CaptureFailed),
{
}

/// The evidence of a capture holds exactly where the window was the same before
/// and after, was shown throughout, and was not covered where that matters.
pub proof fn law_evidence_holds_where_nothing_moved(
    before: ExactWindowPixelEvidence,
    after: ExactWindowPixelEvidence,
    mode: ExactWindowPixelCaptureMode,
)
    ensures
        native_evidence_refusal(before, after, mode) is None <==> {
            &&& before.process_id == after.process_id
            &&& before.window_handle == after.window_handle
            &&& before.instance == after.instance
            &&& before.bounds@ == after.bounds@
            &&& before.visible_bounds@ == after.visible_bounds@
            &&& before.dpi == after.dpi
            &&& !before.minimized
            &&& !after.minimized
            &&& before.visible
            &&& after.visible
            &&& mode == ExactWindowPixelCaptureMode::VisibleDesktopCrop ==> before.unobscured
                && after.unobscured
        },
{
}

/// Pixels are published where the second capture is of the same window instance,
/// place, scale and source, by the same way, and later than the first.
pub proof fn law_published_pixels_held_still(
    captured_target: WindowTarget,
    final_inventory: WindowTarget,
    captured: ExactWindowPixelPublicationFence,
    final_fence: ExactWindowPixelPublicationFence,
    final_unobscured: bool,
)
    requires
        publication_refusal(
            captured_target,
            final_inventory,
            captured,
            final_fence,
            final_unobscured,
        ) is None,
    ensures
        captured.instance == final_fence.instance,
        captured_target.pid == final_inventory.pid,
        captured_target.window_id == final_inventory.window_id,
        captured_target.bounds@ == final_inventory.bounds@,
        captured_target.bounds@ == captured.geometry.bounds@,
        final_inventory.bounds@ == final_fence.geometry.bounds@,
        final_fence.generation > captured.generation,
        final_fence.mode == captured.mode,
        captured.source_rect@ == final_fence.source_rect@,
        captured.mode == ExactWindowPixelCaptureMode::WindowContent ==> captured.source_rect@
            == captured.geometry.bounds@,
        captured.geometry.dpi == final_fence.geometry.dpi,
        !final_inventory.is_minimized,
        final_inventory.is_on_screen,
        captured.mode == ExactWindowPixelCaptureMode::VisibleDesktopCrop ==> final_unobscured,
{
}

/// The provenance of pixels tells their window and place, how and when they were
/// taken, and that no accessibility came with them.
pub proof fn law_pixel_provenance_tells_the_window(
    route: PixelObservationRoute,
    target: WindowTarget,
    capture_generation: u64,
    window_dpi: u32,
    backend: Seq<char>,
)
    ensures
        ({
            let told = JsonTree::Object(
                pixel_provenance(route, target, capture_generation, window_dpi, backend),
            );
            &&& told.text_at("backend"@) == Some(backend)
            &&& told.bool_at("pixels_captured"@) == Some(true)
            &&& told.text_at("scope"@) == Some("window"@)
            &&& told.bool_at("whole_desktop_capture"@) == Some(false)
            &&& told.text_at("observation_mode"@) == Some(
                match route {
                    PixelObservationRoute::ExplicitPixelsOnly => "pixels_only"@,
                    PixelObservationRoute::AccessibilityUnavailableDegraded =>
                        "accessibility_unavailable_degraded"@,
                    PixelObservationRoute::AccessibilityTimeoutDegraded =>
                        "accessibility_timeout_degraded"@,
                },
            )
            &&& told.bool_at("degraded"@) == Some(
                route != PixelObservationRoute::ExplicitPixelsOnly,
            )
            &&& told.bool_at("accessibility_available"@) == Some(false)
            &&& told.u64_at("process_id"@) == Some(target.pid as u64)
            &&& told.u64_at("window_handle"@) == Some(target.window_id)
            &&& told.get("native_window_bounds"@) == Some(rect_tree(target.bounds))
            &&& told.u64_at("capture_generation"@) == Some(capture_generation)
            &&& told.u64_at("window_dpi"@) == Some(window_dpi as u64)
        }),
{
    reveal_strlit("backend");
    reveal_strlit("pixels_captured");
    reveal_strlit("scope");
    reveal_strlit("whole_desktop_capture");
    reveal_strlit("observation_mode");
    reveal_strlit("degraded");
    reveal_strlit("accessibility_available");
    reveal_strlit("process_id");
    reveal_strlit("window_handle");
    reveal_strlit("native_window_bounds");
    reveal_strlit("capture_generation");
    reveal_strlit("window_dpi");
    assert("backend"@.len() == 7);
    assert("pixels_captured"@.len() == 15);
    assert("scope"@.len() == 5);
    assert("whole_desktop_capture"@.len() == 21);
    assert("observation_mode"@.len() == 16);
    assert("degraded"@.len() == 8);
    assert("accessibility_available"@.len() == 23);
    assert("process_id"@.len() == 10);
    assert("window_handle"@.len() == 13);
    assert("native_window_bounds"@.len() == 20);
    assert("capture_generation"@.len() == 18);
    assert("window_dpi"@.len() == 10);
    assert("process_id"@[0] != "window_dpi"@[0]);
}

/// The fence of a capture is what was seen after it.
pub proof fn law_captures_are_fenced_by_what_followed(capture: BracketedCapture)
    ensures
        capture.as_fence().geometry.bounds == capture.after.bounds,
        capture.as_fence().geometry.dpi == capture.after.dpi,
        capture.as_fence().source_rect == capture.source_rect,
        capture.as_fence().generation == capture.generation,
        capture.as_fence().mode == capture.mode,
        capture.as_fence().instance == capture.after.instance,
{
}

} // verus!
