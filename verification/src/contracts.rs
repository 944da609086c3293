//! Agent-facing requests and the limits that bound them.

use crate::errors::{ComputerUseError, ComputerUseErrorCode, ComputerUseResult};
#[allow(unused_imports)]
use crate::errors::{decides, fails_with, Refusal};
use crate::json::{Json, JsonTree};
use crate::text::{is_blank, text_eq, text_eq_ignoring_case};
#[allow(unused_imports)]
use crate::text::{same_ignoring_case, trimmed};
use vstd::prelude::*;
use vstd::string::*;

verus! {

pub const MAX_LAUNCH_ARGUMENTS: usize = 32;
pub const MAX_LAUNCH_URLS: usize = 16;
pub const MAX_LAUNCH_URL_BYTES: usize = 4_096;
pub const MAX_WINDOW_QUERY_CHARS: usize = 512;
pub const DEFAULT_WINDOW_WAIT_TIMEOUT_MS: u64 = 5_000;
pub const MAX_WINDOW_WAIT_TIMEOUT_MS: u64 = 30_000;
pub const DEFAULT_WINDOW_WAIT_INTERVAL_MS: u64 = 100;
pub const MIN_WINDOW_WAIT_INTERVAL_MS: u64 = 10;
pub const MAX_WINDOW_WAIT_INTERVAL_MS: u64 = 1_000;
pub const MAX_MENU_PATH_SEGMENTS: usize = 16;
pub const MAX_MENU_PATH_SEGMENT_CHARS: usize = 200;
/// The theme of the cursor that stands for the agent.
pub const MOUSE_CURSOR_THEME: &'static str = "com.dcc-mcp.cursor";
pub const DEFAULT_SNAPSHOT_MAX_ELEMENTS: u32 = 512;
pub const DEFAULT_SNAPSHOT_MAX_DEPTH: u32 = 16;
pub const DEFAULT_LIVE_OBSERVATION_FPS: u32 = 10;
pub const MAX_LIVE_OBSERVATION_FPS: u32 = 30;
pub const DEFAULT_LIVE_OBSERVATION_MAX_DIMENSION: u32 = 1_568;
pub const MIN_LIVE_OBSERVATION_MAX_DIMENSION: u32 = 256;
pub const MAX_LIVE_OBSERVATION_MAX_DIMENSION: u32 = 4_096;

/// Exact identity supplied by the adapter. Agent input cannot widen it.
#[derive(Debug, Clone, PartialEq, Eq)]
pub struct ComputerUseTargetScope {
    pub process_id: Option<u32>,
    pub window_handle: Option<u64>,
    pub window_title: Option<String>,
}

impl Default for ComputerUseTargetScope {
    fn default() -> (r: Self)
        ensures
            r.process_id is None,
            r.window_handle is None,
            r.window_title is None,
    {
        ComputerUseTargetScope { process_id: None, window_handle: None, window_title: None }
    }
}

impl ComputerUseTargetScope {
    /// Why the scope is refused, or nothing where it identifies a window.
    pub open spec fn refusal(self) -> Refusal {
        if self.process_id is None && self.window_handle is None && self.window_title is None {
            Some(
                (
                    ComputerUseErrorCode::MissingWindow,
                    "Computer Use requires an exact process_id, window_handle, or window_title"@,
                ),
            )
        } else if self.window_title matches Some(title) && (title@.len() == 0 || title@.len()
            > MAX_WINDOW_QUERY_CHARS) {
            Some(
                (
                    ComputerUseErrorCode::InvalidTarget,
                    "window_title must contain 1..512 characters"@,
                ),
            )
        } else {
            None
        }
    }

    pub fn validate(&self) -> (r: ComputerUseResult<()>)
        ensures
            decides(r, self.refusal()),
    {
        if self.process_id.is_none() && self.window_handle.is_none() && self.window_title.is_none() {
            return Err(
                ComputerUseError::new(
                    ComputerUseErrorCode::MissingWindow,
                    "Computer Use requires an exact process_id, window_handle, or window_title",
                ),
            );
        }
        if let Some(title) = &self.window_title {
            let count: usize = title.as_str().unicode_len();
            if count == 0 || count > MAX_WINDOW_QUERY_CHARS {
                return Err(
                    ComputerUseError::new(
                        ComputerUseErrorCode::InvalidTarget,
                        "window_title must contain 1..512 characters",
                    ),
                );
            }
        }
        Ok(())
    }
}

/// Bounded selector used to wait for a native window to become available.
#[derive(Debug, Clone, PartialEq, Eq)]
pub struct ComputerUseWindowQuery {
    pub app: Option<String>,
    pub process_id: Option<u32>,
    pub window_handle: Option<u64>,
    pub window_title: Option<String>,
    pub on_screen_only: bool,
}

impl Default for ComputerUseWindowQuery {
    fn default() -> (r: Self)
        ensures
            r.app is None,
            r.process_id is None,
            r.window_handle is None,
            r.window_title is None,
            !r.on_screen_only,
    {
        ComputerUseWindowQuery {
            app: None,
            process_id: None,
            window_handle: None,
            window_title: None,
            on_screen_only: false,
        }
    }
}

/// The selector is present and empty.
pub open spec fn selector_empty(selector: Option<String>) -> bool {
    selector matches Some(text) && text@.len() == 0
}

/// The selector is present and longer than the query limit.
pub open spec fn selector_too_long(selector: Option<String>) -> bool {
    selector matches Some(text) && text@.len() > MAX_WINDOW_QUERY_CHARS
}

fn is_selector_empty(selector: &Option<String>) -> (r: bool)
    ensures
        r == selector_empty(*selector),
{
    match selector {
        Some(text) => text.as_str().is_empty(),
        None => false,
    }
}

fn is_selector_too_long(selector: &Option<String>) -> (r: bool)
    ensures
        r == selector_too_long(*selector),
{
    match selector {
        Some(text) => text.as_str().unicode_len() > MAX_WINDOW_QUERY_CHARS,
        None => false,
    }
}

impl ComputerUseWindowQuery {
    /// Why the query's text selectors are refused.
    pub open spec fn selector_refusal(self) -> Refusal {
        if selector_empty(self.app) || selector_empty(self.window_title) {
            Some(
                (ComputerUseErrorCode::InvalidTarget, "window query selectors cannot be empty"@),
            )
        } else if selector_too_long(self.app) {
            Some((ComputerUseErrorCode::InvalidTarget, "app exceeds 512 characters"@))
        } else if selector_too_long(self.window_title) {
            Some((ComputerUseErrorCode::InvalidTarget, "window_title exceeds 512 characters"@))
        } else {
            None
        }
    }

    /// Why the query is refused.
    pub open spec fn refusal(self) -> Refusal {
        if self.selector_refusal() is Some {
            self.selector_refusal()
        } else if self.app is None && self.process_id is None && self.window_handle is None
            && self.window_title is None {
            Some(
                (
                    ComputerUseErrorCode::MissingWindow,
                    "window query requires app, process_id, window_handle, or window_title"@,
                ),
            )
        } else {
            None
        }
    }

    pub fn validate_selectors(&self) -> (r: ComputerUseResult<()>)
        ensures
            decides(r, self.selector_refusal()),
    {
        if is_selector_empty(&self.app) || is_selector_empty(&self.window_title) {
            return Err(
                ComputerUseError::new(
                    ComputerUseErrorCode::InvalidTarget,
                    "window query selectors cannot be empty",
                ),
            );
        }
        if is_selector_too_long(&self.app) {
            return Err(
                ComputerUseError::new(
                    ComputerUseErrorCode::InvalidTarget,
                    "app exceeds 512 characters",
                ),
            );
        }
        if is_selector_too_long(&self.window_title) {
            return Err(
                ComputerUseError::new(
                    ComputerUseErrorCode::InvalidTarget,
                    "window_title exceeds 512 characters",
                ),
            );
        }
        Ok(())
    }

    pub fn validate(&self) -> (r: ComputerUseResult<()>)
        ensures
            decides(r, self.refusal()),
    {
        match self.validate_selectors() {
            Ok(()) => {},
            Err(error) => return Err(error),
        }
        if self.app.is_none() && self.process_id.is_none() && self.window_handle.is_none()
            && self.window_title.is_none() {
            return Err(
                ComputerUseError::new(
                    ComputerUseErrorCode::MissingWindow,
                    "window query requires app, process_id, window_handle, or window_title",
                ),
            );
        }
        Ok(())
    }

    /// The query selects the window row: every selector that is present holds
    /// of it. Application names compare up to ASCII case.
    pub open spec fn selects(self, window: JsonTree) -> bool {
        &&& self.app matches Some(app) ==> window.text_at("app_name"@) matches Some(name)
            && same_ignoring_case(name, app@)
        &&& self.process_id matches Some(pid) ==> window.u64_at("pid"@) == Some(pid as u64)
        &&& self.window_handle matches Some(handle) ==> window.u64_at("window_id"@) == Some(handle)
        &&& self.window_title matches Some(title) ==> window.text_at("title"@) == Some(title@)
    }

    #[must_use]
    pub fn matches_window(&self, window: &Json) -> (r: bool)
        ensures
            r == self.selects(window.view()),
    {
        if let Some(app) = &self.app {
            match window.text_at("app_name") {
                Some(name) => {
                    if !text_eq_ignoring_case(name, app.as_str()) {
                        return false;
                    }
                },
                None => return false,
            }
        }
        if let Some(pid) = self.process_id {
            match window.u64_at("pid") {
                Some(found) => {
                    if found != pid as u64 {
                        return false;
                    }
                },
                None => return false,
            }
        }
        if let Some(handle) = self.window_handle {
            match window.u64_at("window_id") {
                Some(found) => {
                    if found != handle {
                        return false;
                    }
                },
                None => return false,
            }
        }
        if let Some(title) = &self.window_title {
            match window.text_at("title") {
                Some(found) => {
                    if !text_eq(found, title.as_str()) {
                        return false;
                    }
                },
                None => return false,
            }
        }
        true
    }
}

/// Request for a bounded poll of the native window inventory.
#[derive(Debug, Clone, PartialEq, Eq)]
pub struct ComputerUseWindowWaitRequest {
    pub query: ComputerUseWindowQuery,
    pub timeout_ms: Option<u64>,
    pub interval_ms: Option<u64>,
}

/// The poll's whole duration: what was asked for, up to the ceiling.
pub open spec fn wait_timeout(timeout_ms: Option<u64>) -> u64 {
    let asked = match timeout_ms {
        Some(ms) => ms,
        None => DEFAULT_WINDOW_WAIT_TIMEOUT_MS,
    };
    if asked <= MAX_WINDOW_WAIT_TIMEOUT_MS {
        asked
    } else {
        MAX_WINDOW_WAIT_TIMEOUT_MS
    }
}

/// The pause between polls: what was asked for, kept within its bounds.
pub open spec fn wait_interval(interval_ms: Option<u64>) -> u64 {
    let asked = match interval_ms {
        Some(ms) => ms,
        None => DEFAULT_WINDOW_WAIT_INTERVAL_MS,
    };
    if asked < MIN_WINDOW_WAIT_INTERVAL_MS {
        MIN_WINDOW_WAIT_INTERVAL_MS
    } else if asked > MAX_WINDOW_WAIT_INTERVAL_MS {
        MAX_WINDOW_WAIT_INTERVAL_MS
    } else {
        asked
    }
}

impl ComputerUseWindowWaitRequest {
    pub fn limits(&self) -> (r: ComputerUseResult<(u64, u64)>)
        ensures
            match self.query.refusal() {
                Some((code, message)) => fails_with(r, code, message),
                None => r == Ok::<(u64, u64), ComputerUseError>(
                    (wait_timeout(self.timeout_ms), wait_interval(self.interval_ms)),
                ),
            },
    {
        match self.query.validate() {
            Ok(()) => {},
            Err(error) => return Err(error),
        }
        let timeout: u64 = match self.timeout_ms {
            Some(ms) => ms,
            None => DEFAULT_WINDOW_WAIT_TIMEOUT_MS,
        };
        let interval: u64 = match self.interval_ms {
            Some(ms) => ms,
            None => DEFAULT_WINDOW_WAIT_INTERVAL_MS,
        };
        let timeout: u64 = if timeout <= MAX_WINDOW_WAIT_TIMEOUT_MS {
            timeout
        } else {
            MAX_WINDOW_WAIT_TIMEOUT_MS
        };
        let interval: u64 = if interval < MIN_WINDOW_WAIT_INTERVAL_MS {
            MIN_WINDOW_WAIT_INTERVAL_MS
        } else if interval > MAX_WINDOW_WAIT_INTERVAL_MS {
            MAX_WINDOW_WAIT_INTERVAL_MS
        } else {
            interval
        };
        Ok((timeout, interval))
    }
}

/// A live native application-menu path resolved one level at a time.
#[derive(Debug, Clone, PartialEq, Eq)]
pub struct ComputerUseMenuRequest {
    pub path: Vec<String>,
}

/// A menu segment that has something to show and is not too long.
pub open spec fn menu_segment_ok(segment: Seq<char>) -> bool {
    trimmed(segment).len() > 0 && segment.len() <= MAX_MENU_PATH_SEGMENT_CHARS
}

impl ComputerUseMenuRequest {
    pub open spec fn acceptable(self) -> bool {
        &&& 0 < self.path@.len() <= MAX_MENU_PATH_SEGMENTS
        &&& forall|i: int|
            0 <= i < self.path@.len() ==> menu_segment_ok((#[trigger] self.path@[i])@)
    }

    pub fn validate(&self) -> (r: ComputerUseResult<()>)
        ensures
            r is Ok <==> self.acceptable(),
            !self.acceptable() ==> fails_with(
                r,
                ComputerUseErrorCode::InvalidAction,
                "menu path requires 1..16 non-empty segments of at most 200 characters"@,
            ),
    {
        let mut ok: bool = self.path.len() > 0 && self.path.len() <= MAX_MENU_PATH_SEGMENTS;
        let mut i: usize = 0;
        while ok && i < self.path.len()
            invariant
                i <= self.path.len(),
                ok ==> 0 < self.path@.len() <= MAX_MENU_PATH_SEGMENTS,
                ok ==> forall|k: int| 0 <= k < i ==> menu_segment_ok((#[trigger] self.path@[k])@),
                !ok ==> !self.acceptable(),
            decreases self.path.len() - i,
        {
            let segment = self.path[i].as_str();
            if is_blank(segment) || segment.unicode_len() > MAX_MENU_PATH_SEGMENT_CHARS {
                assert(!menu_segment_ok(self.path@[i as int]@));
                ok = false;
            }
            i = i + 1;
        }
        if ok {
            Ok(())
        } else {
            Err(
                ComputerUseError::new(
                    ComputerUseErrorCode::InvalidAction,
                    "menu path requires 1..16 non-empty segments of at most 200 characters",
                ),
            )
        }
    }
}

/// A coordinate by the bits of its floating-point representation. The library
/// passes coordinates through and never computes with them.
#[derive(Debug, Clone, Copy, PartialEq, Eq, Structural)]
pub struct Coordinate {
    pub bits: u64,
}

/// One native action in screenshot coordinates.
#[derive(Debug, Clone, PartialEq, Eq)]
pub struct ComputerUseAction {
    pub action: String,
    pub observation_id: Option<String>,
    pub element_index: Option<u32>,
    pub element_token: Option<String>,
    pub delivery_mode: Option<String>,
    pub input_backend_id: Option<String>,
    pub x: Option<Coordinate>,
    pub y: Option<Coordinate>,
    pub button: Option<String>,
    pub scroll_x: Option<i32>,
    pub scroll_y: Option<i32>,
    pub scroll_by: Option<String>,
    pub path: Vec<ComputerUsePoint>,
    pub text: Option<String>,
    pub delay_ms: Option<u64>,
    pub duration_ms: Option<u64>,
    pub steps: Option<u32>,
    pub type_chars_only: bool,
    pub keys: Vec<String>,
    pub modifiers: Vec<String>,
}

#[derive(Debug, Clone, Copy, PartialEq, Eq, Structural)]
pub struct ComputerUsePoint {
    pub x: Coordinate,
    pub y: Coordinate,
}

/// Copies a list of texts.
pub fn duplicate_texts(list: &Vec<String>) -> (r: Vec<String>)
    ensures
        r@ == list@,
{
    let mut out: Vec<String> = Vec::new();
    let mut i: usize = 0;
    while i < list.len()
        invariant
            i <= list.len(),
            out@ == list@.take(i as int),
        decreases list.len() - i,
    {
        out.push(list[i].clone());
        assert(list@.take(i + 1) =~= list@.take(i as int).push(list@[i as int]));
        i = i + 1;
    }
    assert(list@.take(list@.len() as int) =~= list@);
    out
}

fn duplicate_points(list: &Vec<ComputerUsePoint>) -> (r: Vec<ComputerUsePoint>)
    ensures
        r@ == list@,
{
    let mut out: Vec<ComputerUsePoint> = Vec::new();
    let mut i: usize = 0;
    while i < list.len()
        invariant
            i <= list.len(),
            out@ == list@.take(i as int),
        decreases list.len() - i,
    {
        out.push(list[i]);
        assert(list@.take(i + 1) =~= list@.take(i as int).push(list@[i as int]));
        i = i + 1;
    }
    assert(list@.take(list@.len() as int) =~= list@);
    out
}

impl ComputerUseAction {
    /// The two actions differ at most in their verb, position, path, and
    /// steps.
    pub open spec fn same_delivery(self, other: ComputerUseAction) -> bool {
        &&& self.observation_id == other.observation_id
        &&& self.element_index == other.element_index
        &&& self.element_token == other.element_token
        &&& self.delivery_mode == other.delivery_mode
        &&& self.input_backend_id == other.input_backend_id
        &&& self.button == other.button
        &&& self.scroll_x == other.scroll_x
        &&& self.scroll_y == other.scroll_y
        &&& self.scroll_by == other.scroll_by
        &&& self.text == other.text
        &&& self.delay_ms == other.delay_ms
        &&& self.duration_ms == other.duration_ms
        &&& self.type_chars_only == other.type_chars_only
        &&& self.keys@ == other.keys@
        &&& self.modifiers@ == other.modifiers@
    }

    /// The two actions are the same.
    pub open spec fn same_action(self, other: ComputerUseAction) -> bool {
        &&& self.same_delivery(other)
        &&& self.action == other.action
        &&& self.x == other.x
        &&& self.y == other.y
        &&& self.path@ == other.path@
        &&& self.steps == other.steps
    }

    pub fn duplicate(&self) -> (r: ComputerUseAction)
        ensures
            r.same_action(*self),
    {
        ComputerUseAction {
            action: self.action.clone(),
            observation_id: self.observation_id.clone(),
            element_index: self.element_index,
            element_token: self.element_token.clone(),
            delivery_mode: self.delivery_mode.clone(),
            input_backend_id: self.input_backend_id.clone(),
            x: self.x,
            y: self.y,
            button: self.button.clone(),
            scroll_x: self.scroll_x,
            scroll_y: self.scroll_y,
            scroll_by: self.scroll_by.clone(),
            path: duplicate_points(&self.path),
            text: self.text.clone(),
            delay_ms: self.delay_ms,
            duration_ms: self.duration_ms,
            steps: self.steps,
            type_chars_only: self.type_chars_only,
            keys: duplicate_texts(&self.keys),
            modifiers: duplicate_texts(&self.modifiers),
        }
    }
}

/// Metadata binding model coordinates to one fresh target capture.
#[derive(Debug)]
pub struct ComputerUseObservation {
    pub observation_id: String,
    pub window_handle: u64,
    pub process_id: u32,
    pub window_title: String,
    pub width: u32,
    pub height: u32,
    pub source_rect: [i32; 4],
    pub capture_backend: String,
    pub capture_provenance: Json,
    pub session_id: String,
}

/// Exact application selector used by the host and CLI launch surface.
#[derive(Debug, Clone)]
pub struct ComputerUseLaunchRequest {
    pub name: Option<String>,
    pub bundle_id: Option<String>,
    pub aumid: Option<String>,
    pub path: Option<String>,
    pub launch_path: Option<String>,
    pub urls: Vec<String>,
    pub additional_arguments: Vec<String>,
    pub creates_new_application_instance: bool,
    pub start_minimized: bool,
}

/// One explicit value that may replace the system clipboard.
#[derive(Debug, Clone)]
pub struct ComputerUseClipboardWriteRequest {
    pub text: Option<String>,
    pub image_path: Option<String>,
    pub file_path: Option<String>,
}

/// A bounded recording destination owned by the caller's task grant.
#[derive(Debug, Clone)]
pub struct ComputerUseRecordingStartRequest {
    pub output_dir: String,
    pub record_video: bool,
}

/// A bounded exact-window latest-frame feed for latency-sensitive agents.
#[derive(Debug, Clone, Copy, PartialEq, Eq, Structural)]
pub struct ComputerUseLiveObservationStartRequest {
    pub fps: u32,
    pub max_dimension: u32,
}

impl Default for ComputerUseLiveObservationStartRequest {
    fn default() -> (r: Self)
        ensures
            r.fps == DEFAULT_LIVE_OBSERVATION_FPS,
            r.max_dimension == DEFAULT_LIVE_OBSERVATION_MAX_DIMENSION,
    {
        ComputerUseLiveObservationStartRequest {
            fps: default_live_observation_fps(),
            max_dimension: default_live_observation_max_dimension(),
        }
    }
}

impl ComputerUseLiveObservationStartRequest {
    pub open spec fn refusal(self) -> Refusal {
        if !(1 <= self.fps <= MAX_LIVE_OBSERVATION_FPS) {
            Some(
                (ComputerUseErrorCode::InvalidAction, "live observation fps must be 1..=30"@),
            )
        } else if !(MIN_LIVE_OBSERVATION_MAX_DIMENSION <= self.max_dimension
            <= MAX_LIVE_OBSERVATION_MAX_DIMENSION) {
            Some(
                (
                    ComputerUseErrorCode::InvalidAction,
                    "live observation max_dimension must be 256..=4096"@,
                ),
            )
        } else {
            None
        }
    }

    pub fn validate(&self) -> (r: ComputerUseResult<()>)
        ensures
            decides(r, self.refusal()),
    {
        if self.fps < 1 || self.fps > MAX_LIVE_OBSERVATION_FPS {
            return Err(
                ComputerUseError::new(
                    ComputerUseErrorCode::InvalidAction,
                    "live observation fps must be 1..=30",
                ),
            );
        }
        if self.max_dimension < MIN_LIVE_OBSERVATION_MAX_DIMENSION || self.max_dimension
            > MAX_LIVE_OBSERVATION_MAX_DIMENSION {
            return Err(
                ComputerUseError::new(
                    ComputerUseErrorCode::InvalidAction,
                    "live observation max_dimension must be 256..=4096",
                ),
            );
        }
        Ok(())
    }
}

pub fn default_live_observation_fps() -> (r: u32)
    ensures
        r == DEFAULT_LIVE_OBSERVATION_FPS,
{
    DEFAULT_LIVE_OBSERVATION_FPS
}

pub fn default_live_observation_max_dimension() -> (r: u32)
    ensures
        r == DEFAULT_LIVE_OBSERVATION_MAX_DIMENSION,
{
    DEFAULT_LIVE_OBSERVATION_MAX_DIMENSION
}

/// One fresh capture with its binding metadata and semantic context.
#[derive(Debug)]
pub struct ComputerUseScreenshot {
    pub data: Vec<u8>,
    pub observation: ComputerUseObservation,
    pub accessibility: Json,
}

/// One full-desktop capture.
#[derive(Debug)]
pub struct ComputerUseDesktopSnapshot {
    pub data: Vec<u8>,
    pub state: Json,
    pub observation_id: String,
}

#[derive(Debug, Clone, PartialEq, Eq)]
pub struct ComputerUseImage {
    pub data: Vec<u8>,
    pub mime_type: String,
}

/// Whether a tool call achieved what it was asked for.
#[derive(Debug, Clone, Copy, PartialEq, Eq, Structural)]
pub enum ComputerUseToolStatus {
    Succeeded,
    Rejected,
}

/// Result of an open-ended tool call, with image pixels kept apart from the
/// structured value.
#[derive(Debug)]
pub struct ComputerUseToolResult {
    pub status: ComputerUseToolStatus,
    pub value: Json,
    pub text: String,
    pub images: Vec<ComputerUseImage>,
    pub degraded: bool,
}

/// Structured predicate evidence with an optional capture.
#[derive(Debug)]
pub struct ComputerUseVerification {
    pub value: Json,
    pub image: Option<ComputerUseImage>,
}

/// The visible marker carried by the session badge.
#[derive(Debug, Clone, PartialEq, Eq)]
pub struct ComputerUseMarker {
    pub visible: bool,
    pub label: String,
    pub backend: &'static str,
}

/// A query selects a row exactly where each selector it has holds of the row.
/// One more selector never selects more, and a row that lacks what a selector
/// asks about is not selected.
pub proof fn law_selectors_only_narrow(query: ComputerUseWindowQuery, window: JsonTree)
    ensures
        query.selects(window) <==> {
            &&& (ComputerUseWindowQuery {
                process_id: None,
                window_handle: None,
                window_title: None,
                ..query
            }).selects(window)
            &&& (ComputerUseWindowQuery { app: None, window_handle: None, window_title: None, ..query
            }).selects(window)
            &&& (ComputerUseWindowQuery { app: None, process_id: None, window_title: None, ..query
            }).selects(window)
            &&& (ComputerUseWindowQuery { app: None, process_id: None, window_handle: None, ..query
            }).selects(window)
        },
        query.selects(window) && query.window_title is Some ==> window.text_at("title"@) == Some(
            query.window_title->0@,
        ),
        query.selects(window) && query.window_handle is Some ==> window.u64_at("window_id"@)
            == query.window_handle,
        query.selects(window) && query.process_id is Some ==> window.u64_at("pid"@) == Some(
            query.process_id->0 as u64,
        ),
        query.selects(window) && query.app is Some ==> window.text_at("app_name"@) is Some,
        query.app is None && query.process_id is None && query.window_handle is None
            && query.window_title is None ==> query.selects(window),
{
}

/// A query that may run asks for something, and for nothing empty or too long.
pub proof fn law_accepted_queries_ask_for_something(query: ComputerUseWindowQuery)
    ensures
        query.refusal() is None <==> {
            &&& query.app is Some || query.process_id is Some || query.window_handle is Some
                || query.window_title is Some
            &&& query.app is Some ==> 1 <= query.app->0@.len() <= 512
            &&& query.window_title is Some ==> 1 <= query.window_title->0@.len() <= 512
        },
        query.selector_refusal() is Some ==> query.refusal() == query.selector_refusal(),
        query.refusal() matches Some(refusal) ==> refusal.0 == ComputerUseErrorCode::InvalidTarget
            || refusal.0 == ComputerUseErrorCode::MissingWindow,
{
}

/// A wait lasts as long as was asked for, but no more than half a minute, and
/// polls at least once a second and at most a hundred times.
pub proof fn law_waits_are_bounded(asked: u64, other: u64)
    ensures
        wait_timeout(None) == 5_000,
        wait_interval(None) == 100,
        wait_timeout(Some(asked)) <= 30_000,
        asked <= 30_000 ==> wait_timeout(Some(asked)) == asked,
        10 <= wait_interval(Some(asked)) <= 1_000,
        10 <= asked <= 1_000 ==> wait_interval(Some(asked)) == asked,
        asked <= other ==> wait_timeout(Some(asked)) <= wait_timeout(Some(other)),
        asked <= other ==> wait_interval(Some(asked)) <= wait_interval(Some(other)),
{
}

/// A menu path has between one and sixteen segments, none of them blank or
/// longer than two hundred characters.
pub proof fn law_menu_paths_are_bounded(request: ComputerUseMenuRequest, at: int)
    requires
        request.acceptable(),
        0 <= at < request.path@.len(),
    ensures
        1 <= request.path@.len() <= 16,
        trimmed(request.path@[at]@).len() > 0,
        request.path@[at]@.len() <= 200,
{
}

/// A feed is accepted exactly at one to thirty frames a second and at a size from
/// 256 to 4096.
pub proof fn law_feeds_are_bounded(request: ComputerUseLiveObservationStartRequest)
    ensures
        request.refusal() is None <==> 1 <= request.fps <= 30 && 256 <= request.max_dimension
            <= 4_096,
{
}

/// A scope is accepted where it names a window by some part, and its title, where
/// it has one, is neither blank nor too long.
pub proof fn law_accepted_scopes_name_a_window(scope: ComputerUseTargetScope)
    requires
        scope.refusal() is None,
    ensures
        scope.process_id is Some || scope.window_handle is Some || scope.window_title is Some,
        scope.window_title is Some ==> 1 <= scope.window_title->0@.len() <= 512,
{
}

/// A copied action is the action, field for field.
pub proof fn law_copied_actions_keep_every_field(a: ComputerUseAction, b: ComputerUseAction)
    requires
        a.same_action(b),
    ensures
        a.action == b.action,
        a.observation_id == b.observation_id,
        a.element_index == b.element_index,
        a.element_token == b.element_token,
        a.delivery_mode == b.delivery_mode,
        a.input_backend_id == b.input_backend_id,
        a.x == b.x,
        a.y == b.y,
        a.button == b.button,
        a.scroll_x == b.scroll_x,
        a.scroll_y == b.scroll_y,
        a.scroll_by == b.scroll_by,
        a.path@ == b.path@,
        a.text == b.text,
        a.delay_ms == b.delay_ms,
        a.duration_ms == b.duration_ms,
        a.steps == b.steps,
        a.type_chars_only == b.type_chars_only,
        a.keys@ == b.keys@,
        a.modifiers@ == b.modifiers@,
{
}

} // verus!
