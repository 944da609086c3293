//! Native windows: identity, scoping, availability, and focus.

use crate::contracts::{ComputerUseTargetScope, ComputerUseWindowQuery};
use crate::errors::{ComputerUseError, ComputerUseErrorCode, ComputerUseResult};
#[allow(unused_imports)]
use crate::errors::{decides, fails_with, is_plain_error, Refusal};
use crate::input_state::ComputerUseTargetAvailability;
use crate::json::{put_member, Json, JsonMember};
#[allow(unused_imports)]
use crate::json::{array_tree, lemma_array_tree, unsigned_tree, JsonTree};
use crate::text::{decimal_text, join2, text_ends_with, text_eq, text_eq_ignoring_case, trim_text};
#[allow(unused_imports)]
use crate::text::{decimal, ends_with, same_ignoring_case, trimmed};
use vstd::prelude::*;
use vstd::string::*;

verus! {

/// One native window as the inventory last saw it.
#[derive(Debug, PartialEq, Eq)]
pub struct WindowTarget {
    pub pid: u32,
    pub window_id: u64,
    pub title: String,
    pub app_name: String,
    pub bounds: [i32; 4],
    pub is_on_screen: bool,
    pub is_minimized: bool,
    pub z_index: Option<i64>,
    pub is_foreground: bool,
}

impl WindowTarget {
    /// A copy of the window.
    pub fn duplicate(&self) -> (r: WindowTarget)
        ensures
            r == *self,
    {
        WindowTarget {
            pid: self.pid,
            window_id: self.window_id,
            title: self.title.clone(),
            app_name: self.app_name.clone(),
            bounds: self.bounds,
            is_on_screen: self.is_on_screen,
            is_minimized: self.is_minimized,
            z_index: self.z_index,
            is_foreground: self.is_foreground,
        }
    }

    /// Both are the same native window of the same process.
    pub open spec fn same_window(self, other: WindowTarget) -> bool {
        self.pid == other.pid && self.window_id == other.window_id
    }

    pub fn is_same_window(&self, other: &WindowTarget) -> (r: bool)
        ensures
            r == self.same_window(*other),
    {
        self.pid == other.pid && self.window_id == other.window_id
    }

    /// The window can be observed and acted on.
    pub open spec fn available(self) -> bool {
        !self.is_minimized && self.is_on_screen
    }

    pub fn availability(&self) -> (r: ComputerUseTargetAvailability)
        ensures
            r.states(self.is_minimized, self.is_on_screen, self.is_foreground),
    {
        ComputerUseTargetAvailability::from_flags(
            self.is_minimized,
            self.is_on_screen,
            self.is_foreground,
        )
    }
}

impl Clone for WindowTarget {
    fn clone(&self) -> (r: WindowTarget)
        ensures
            r == *self,
    {
        self.duplicate()
    }
}

impl ComputerUseTargetScope {
    /// Every part of the scope that is present holds of the window.
    pub open spec fn covers(self, window: WindowTarget) -> bool {
        &&& self.process_id matches Some(pid) ==> window.pid == pid
        &&& self.window_handle matches Some(handle) ==> window.window_id == handle
        &&& self.window_title matches Some(title) ==> window.title@ == title@
    }

    pub fn matches(&self, window: &WindowTarget) -> (r: bool)
        ensures
            r == self.covers(*window),
    {
        if let Some(pid) = self.process_id {
            if window.pid != pid {
                return false;
            }
        }
        if let Some(handle) = self.window_handle {
            if window.window_id != handle {
                return false;
            }
        }
        if let Some(title) = &self.window_title {
            if !text_eq(window.title.as_str(), title.as_str()) {
                return false;
            }
        }
        true
    }
}

/// The rows a scope covers, in inventory order.
pub open spec fn covered_rows(scope: ComputerUseTargetScope, rows: Seq<WindowTarget>) -> Seq<
    WindowTarget,
>
    decreases rows.len(),
{
    if rows.len() == 0 {
        Seq::empty()
    } else if scope.covers(rows.last()) {
        covered_rows(scope, rows.drop_last()).push(rows.last())
    } else {
        covered_rows(scope, rows.drop_last())
    }
}

/// The one window a scope stands for.
pub fn select_scoped_window(scope: &ComputerUseTargetScope, rows: &Vec<WindowTarget>) -> (r:
    ComputerUseResult<WindowTarget>)
    ensures
        covered_rows(*scope, rows@).len() == 1 ==> r == Ok::<WindowTarget, ComputerUseError>(
            covered_rows(*scope, rows@)[0],
        ),
        covered_rows(*scope, rows@).len() != 1 ==> fails_with(
            r,
            ComputerUseErrorCode::MissingWindow,
            "expected exactly one scoped window, found "@ + decimal(
                covered_rows(*scope, rows@).len(),
            ),
        ),
{
    let mut count: u64 = 0;
    let mut found: usize = 0;
    let mut i: usize = 0;
    while i < rows.len()
        invariant
            i <= rows.len(),
            count <= i,
            count == covered_rows(*scope, rows@.take(i as int)).len(),
            count > 0 ==> found < rows.len() && covered_rows(*scope, rows@.take(i as int)).last()
                == rows@[found as int],
        decreases rows.len() - i,
    {
        assert(rows@.take(i + 1).drop_last() =~= rows@.take(i as int));
        if scope.matches(&rows[i]) {
            count = count + 1;
            found = i;
        }
        i = i + 1;
    }
    assert(rows@.take(rows@.len() as int) =~= rows@);
    if count != 1 {
        let digits = decimal_text(count);
        return Err(
            ComputerUseError::owned(
                ComputerUseErrorCode::MissingWindow,
                join2("expected exactly one scoped window, found ", digits.as_str()),
            ),
        );
    }
    Ok(rows[found].duplicate())
}

/// The rows a query selects, in inventory order.
pub open spec fn selected_rows(query: ComputerUseWindowQuery, rows: Seq<JsonTree>) -> Seq<JsonTree>
    decreases rows.len(),
{
    if rows.len() == 0 {
        Seq::empty()
    } else if query.selects(rows.last()) {
        selected_rows(query, rows.drop_last()).push(rows.last())
    } else {
        selected_rows(query, rows.drop_last())
    }
}

/// Keeps the rows a query selects.
pub fn retain_selected(query: &ComputerUseWindowQuery, rows: &Vec<Json>) -> (r: Vec<Json>)
    ensures
        array_tree(r@) == selected_rows(*query, array_tree(rows@)),
{
    let mut kept: Vec<Json> = Vec::new();
    let ghost trees = array_tree(rows@);
    proof {
        lemma_array_tree(rows@);
    }
    let mut i: usize = 0;
    while i < rows.len()
        invariant
            i <= rows.len(),
            trees == array_tree(rows@),
            trees.len() == rows.len(),
            forall|k: int| 0 <= k < rows.len() ==> #[trigger] trees[k] == rows@[k].view(),
            array_tree(kept@) == selected_rows(*query, trees.take(i as int)),
        decreases rows.len() - i,
    {
        assert(trees.take(i + 1).drop_last() =~= trees.take(i as int));
        assert(trees.take(i + 1).last() == trees[i as int]);
        if query.matches_window(&rows[i]) {
            let ghost before = kept@;
            kept.push(rows[i].clone());
            assert(kept@.drop_last() =~= before);
        }
        i = i + 1;
    }
    assert(trees.take(trees.len() as int) =~= trees);
    kept
}

/// The outcome of a probe that a deadline bounds.
#[derive(Debug)]
pub enum WindowWaitProbeOutcome<T> {
    TimedOut,
    Completed(T),
}

/// What a bounded wait for a window does next.
#[derive(Debug)]
pub enum WindowWaitStep {
    Fail(ComputerUseError),
    Found(Vec<Json>),
    PollAgain,
}

pub fn window_wait_timeout() -> (r: ComputerUseError)
    ensures
        is_plain_error(r, ComputerUseErrorCode::MissingWindow, "window query timed out"@),
{
    ComputerUseError::new(ComputerUseErrorCode::MissingWindow, "window query timed out")
}

/// What a wait makes of a probe of the inventory.
pub open spec fn probe_step(
    query: ComputerUseWindowQuery,
    outcome: WindowWaitProbeOutcome<ComputerUseResult<Vec<Json>>>,
    step: WindowWaitStep,
) -> bool {
    match outcome {
        WindowWaitProbeOutcome::TimedOut => step matches WindowWaitStep::Fail(error)
            && is_plain_error(
            error,
            ComputerUseErrorCode::MissingWindow,
            "window query timed out"@,
        ),
        WindowWaitProbeOutcome::Completed(Err(error)) => step == WindowWaitStep::Fail(error),
        WindowWaitProbeOutcome::Completed(Ok(rows)) => if selected_rows(
            query,
            array_tree(rows@),
        ).len() == 0 {
            step == WindowWaitStep::PollAgain
        } else {
            step matches WindowWaitStep::Found(windows) && array_tree(windows@) == selected_rows(
                query,
                array_tree(rows@),
            )
        },
    }
}

/// Decides on an inventory probe: the wait ends with the rows the query
/// selects, as soon as there are any.
pub fn after_window_probe(
    query: &ComputerUseWindowQuery,
    outcome: WindowWaitProbeOutcome<ComputerUseResult<Vec<Json>>>,
) -> (r: WindowWaitStep)
    ensures
        probe_step(*query, outcome, r),
{
    match outcome {
        WindowWaitProbeOutcome::TimedOut => WindowWaitStep::Fail(window_wait_timeout()),
        WindowWaitProbeOutcome::Completed(Err(error)) => WindowWaitStep::Fail(error),
        WindowWaitProbeOutcome::Completed(Ok(rows)) => {
            let windows = retain_selected(query, &rows);
            proof {
                lemma_array_tree(windows@);
            }
            if windows.len() == 0 {
                WindowWaitStep::PollAgain
            } else {
                WindowWaitStep::Found(windows)
            }
        },
    }
}

/// What a wait for windows tells.
pub open spec fn wait_result_tree(windows: Seq<Json>, waited_ms: u64) -> JsonTree {
            JsonTree::Object(
        Map::<Seq<char>, JsonTree>::empty().insert(
            "windows"@,
            JsonTree::Array(array_tree(windows)),
        ).insert("count"@, unsigned_tree(windows.len() as u64)).insert(
            "waited_ms"@,
            unsigned_tree(waited_ms),
        ),
    )
}

/// The report of a finished wait.
pub fn window_wait_result(windows: Vec<Json>, waited_ms: u64) -> (r: Json)
    ensures
        r.view() == wait_result_tree(windows@, waited_ms),
{
    let count: u64 = windows.len() as u64;
    let mut members: Vec<JsonMember> = Vec::new();
    put_member(&mut members, "windows", Json::Array(windows));
    put_member(&mut members, "count", Json::unsigned(count));
    put_member(&mut members, "waited_ms", Json::unsigned(waited_ms));
    Json::Object(members)
}

/// The window is still the one that it was.
pub open spec fn target_is_revalidated(original: Option<&WindowTarget>, resolved: ComputerUseResult<WindowTarget>, r: ComputerUseResult<WindowTarget>) -> bool {
    match (resolved, original) {
        (Err(error), _) => r == Err::<WindowTarget, ComputerUseError>(error),
        (Ok(_), None) => fails_with(
            r,
            ComputerUseErrorCode::MissingWindow,
            "session target is missing"@,
        ),
        (Ok(target), Some(original)) => if target.same_window(*original) {
            r == Ok::<WindowTarget, ComputerUseError>(target)
        } else {
            fails_with(
                r,
                ComputerUseErrorCode::TargetUnavailable,
                "the exact target identity changed"@,
            )
        },
    }
}

/// The session's window, resolved anew: it must be the one the session was
/// bound to.
pub fn revalidate_target(
    original: Option<&WindowTarget>,
    resolved: ComputerUseResult<WindowTarget>,
) -> (r: ComputerUseResult<WindowTarget>)
    ensures
        target_is_revalidated(original, resolved, r),
{
    let target = match resolved {
        Ok(target) => target,
        Err(error) => return Err(error),
    };
    match original {
        None => Err(
            ComputerUseError::new(
                ComputerUseErrorCode::MissingWindow,
                "session target is missing",
            ),
        ),
        Some(original) => if target.is_same_window(original) {
            Ok(target)
        } else {
            Err(
                ComputerUseError::new(
                    ComputerUseErrorCode::TargetUnavailable,
                    "the exact target identity changed",
                ),
            )
        },
    }
}

/// Why a window cannot be acted on.
pub open spec fn action_target_refusal(target: WindowTarget) -> Refusal {
    if target.is_minimized {
        Some(
            (
                ComputerUseErrorCode::TargetMinimized,
                "target_minimized: automatic_input=false; issue the explicit restore_activate window operation, then take a fresh observation before retrying"@,
            ),
        )
    } else if !target.is_on_screen {
        Some(
            (
                ComputerUseErrorCode::TargetUnavailable,
                "target_unavailable: automatic_input=false; wait for a typed target_available event and take a fresh observation before retrying"@,
            ),
        )
    } else {
        None
    }
}

pub fn ensure_target_available_for_action(target: &WindowTarget) -> (r: ComputerUseResult<()>)
    ensures
        decides(r, action_target_refusal(*target)),
{
    if target.is_minimized {
        return Err(
            ComputerUseError::new(
                ComputerUseErrorCode::TargetMinimized,
                "target_minimized: automatic_input=false; issue the explicit restore_activate window operation, then take a fresh observation before retrying",
            ),
        );
    }
    if !target.is_on_screen {
        return Err(
            ComputerUseError::new(
                ComputerUseErrorCode::TargetUnavailable,
                "target_unavailable: automatic_input=false; wait for a typed target_available event and take a fresh observation before retrying",
            ),
        );
    }
    Ok(())
}

/// Why a window cannot be activated while its session starts. Restoring a
/// minimized window is what that activation is for.
pub open spec fn bootstrap_target_refusal(target: WindowTarget) -> Refusal {
    if target.is_minimized {
        None
    } else {
        action_target_refusal(target)
    }
}

pub fn ensure_target_available_for_bootstrap_activation(target: &WindowTarget) -> (r:
    ComputerUseResult<()>)
    ensures
        decides(r, bootstrap_target_refusal(*target)),
{
    if target.is_minimized {
        Ok(())
    } else {
        ensure_target_available_for_action(target)
    }
}

/// Everything but the focus of two windows agrees.
pub open spec fn same_but_focus(a: WindowTarget, b: WindowTarget) -> bool {
    &&& a.pid == b.pid
    &&& a.window_id == b.window_id
    &&& a.title == b.title
    &&& a.app_name == b.app_name
    &&& a.bounds == b.bounds
    &&& a.is_on_screen == b.is_on_screen
    &&& a.is_minimized == b.is_minimized
    &&& a.z_index == b.z_index
}

/// The rows agree but for their focus.
pub open spec fn rows_same_but_focus(a: Seq<WindowTarget>, b: Seq<WindowTarget>) -> bool {
    &&& a.len() == b.len()
    &&& forall|i: int| 0 <= i < a.len() ==> same_but_focus(#[trigger] a[i], b[i])
}

/// The depth is the greatest among the rows.
pub open spec fn topmost(rows: Seq<WindowTarget>, depth: i64) -> bool {
    &&& exists|i: int| 0 <= i < rows.len() && (#[trigger] rows[i]).z_index == Some(depth)
    &&& forall|i: int|
        0 <= i < rows.len() ==> ((#[trigger] rows[i]).z_index matches Some(other) ==> other
            <= depth)
}

/// No row has a depth.
pub open spec fn depthless(rows: Seq<WindowTarget>) -> bool {
    forall|i: int| 0 <= i < rows.len() ==> (#[trigger] rows[i]).z_index is None
}

fn focus_where(windows: &mut Vec<WindowTarget>, depth: Option<i64>, handle: Option<u64>)
    requires
        depth is Some || handle is Some,
    ensures
        rows_same_but_focus(final(windows)@, old(windows)@),
        forall|i: int|
            0 <= i < final(windows)@.len() ==> (#[trigger] final(windows)@[i]).is_foreground
                == match handle {
                Some(id) => final(windows)@[i].window_id == id,
                None => final(windows)@[i].z_index == depth,
            },
{
    let mut i: usize = 0;
    while i < windows.len()
        invariant
            i <= windows.len(),
            depth is Some || handle is Some,
            rows_same_but_focus(windows@, old(windows)@),
            forall|k: int|
                0 <= k < i ==> (#[trigger] windows@[k]).is_foreground == match handle {
                    Some(id) => windows@[k].window_id == id,
                    None => windows@[k].z_index == depth,
                },
        decreases windows.len() - i,
    {
        let focused = match handle {
            Some(id) => windows[i].window_id == id,
            None => match (windows[i].z_index, depth) {
                (Some(found), Some(wanted)) => found == wanted,
                (None, None) => true,
                _ => false,
            },
        };
        windows[i].is_foreground = focused;
        i = i + 1;
    }
}

/// Gives the focus to the window with the given native handle.
pub fn mark_foreground_by_handle(windows: &mut Vec<WindowTarget>, foreground: u64)
    ensures
        rows_same_but_focus(final(windows)@, old(windows)@),
        forall|i: int|
            0 <= i < final(windows)@.len() ==> (#[trigger] final(windows)@[i]).is_foreground == (
            final(windows)@[i].window_id == foreground),
{
    focus_where(windows, None, Some(foreground));
}

/// The topmost windows are in front.
pub open spec fn front_is_marked(before: Seq<WindowTarget>, after: Seq<WindowTarget>) -> bool {
    &&& depthless(before) ==> after == before
    &&& !depthless(before) ==> exists|depth: i64|
        {
            &&& #[trigger] topmost(before, depth)
            &&& rows_same_but_focus(after, before)
            &&& forall|i: int|
                0 <= i < after.len() ==> (#[trigger] after[i]).is_foreground
                    == (after[i].z_index == Some(depth))
        }
}

/// Gives the focus to the topmost windows, where any window has a depth.
pub fn mark_foreground_by_z_index(windows: &mut Vec<WindowTarget>)
    ensures
        front_is_marked(old(windows)@, final(windows)@),
{
    let mut highest: Option<i64> = None;
    let mut i: usize = 0;
    while i < windows.len()
        invariant
            i <= windows.len(),
            windows@ == old(windows)@,
            highest is None ==> depthless(windows@.take(i as int)),
            highest matches Some(depth) ==> topmost(windows@.take(i as int), depth),
        decreases windows.len() - i,
    {
        let ghost before = windows@.take(i as int);
        let ghost after = windows@.take(i + 1);
        assert(after =~= before.push(windows@[i as int]));
        let ghost was = highest;
        if let Some(depth) = windows[i].z_index {
            let higher = match highest {
                Some(current) => depth > current,
                None => true,
            };
            if higher {
                highest = Some(depth);
                assert(after[i as int].z_index == Some(depth));
            }
        }
        proof {
            if let Some(depth) = highest {
                if highest == was {
                    let k = choose|k: int|
                        0 <= k < before.len() && (#[trigger] before[k]).z_index == Some(depth);
                    assert(after[k].z_index == Some(depth));
                }
                assert forall|k: int| 0 <= k < after.len() implies ((
                #[trigger] after[k]).z_index matches Some(other) ==> other <= depth) by {
                    if k < i {
                        assert(before[k] == after[k]);
                    }
                }
                assert(topmost(after, depth));
            } else {
                assert forall|k: int| 0 <= k < after.len() implies (
                #[trigger] after[k]).z_index is None by {
                    if k < i {
                        assert(before[k] == after[k]);
                    }
                }
            }
        }
        i = i + 1;
    }
    assert(windows@.take(windows@.len() as int) =~= windows@);
    match highest {
        None => {},
        Some(depth) => {
            let ghost rows = windows@;
            proof {
                let k = choose|k: int|
                    0 <= k < rows.len() && (#[trigger] rows[k]).z_index == Some(depth);
                assert(!depthless(rows));
            }
            focus_where(windows, Some(depth), None);
            assert(topmost(old(windows)@, depth));
        },
    }
}

/// Some window is in front where that can be told.
pub open spec fn front_is_found(before: Seq<WindowTarget>, after: Seq<WindowTarget>) -> bool {
    &&& (exists|i: int| 0 <= i < before.len() && (#[trigger] before[i]).is_foreground)
        || depthless(before) ==> after == before
    &&& !(exists|i: int| 0 <= i < before.len() && (#[trigger] before[i]).is_foreground)
        && !depthless(before) ==> exists|depth: i64|
        {
            &&& #[trigger] topmost(before, depth)
            &&& rows_same_but_focus(after, before)
            &&& forall|i: int|
                0 <= i < after.len() ==> (#[trigger] after[i]).is_foreground
                    == (after[i].z_index == Some(depth))
        }
}

/// Marks the focus where the inventory did not.
pub fn mark_foreground_window(windows: &mut Vec<WindowTarget>)
    ensures
        front_is_found(old(windows)@, final(windows)@),
{
    let mut i: usize = 0;
    while i < windows.len()
        invariant
            i <= windows.len(),
            windows@ == old(windows)@,
            forall|k: int| 0 <= k < i ==> !(#[trigger] windows@[k]).is_foreground,
        decreases windows.len() - i,
    {
        if windows[i].is_foreground {
            return;
        }
        i = i + 1;
    }
    mark_foreground_by_z_index(windows);
}

/// Whether another window of the target's process, owned by the target
/// directly or through its owners, has taken the foreground.
pub fn owned_foreground_takeover_relation(
    target_window: u64,
    target_pid: u32,
    foreground_window: u64,
    foreground_pid: u32,
    owner_chain: &[u64],
) -> (r: bool)
    ensures
        r == {
            &&& foreground_window != 0
            &&& foreground_window != target_window
            &&& foreground_pid == target_pid
            &&& owner_chain@.contains(target_window)
        },
{
    if foreground_window == 0 || foreground_window == target_window || foreground_pid
        != target_pid {
        return false;
    }
    let mut i: usize = 0;
    while i < owner_chain.len()
        invariant
            i <= owner_chain.len(),
            foreground_window != 0,
            foreground_window != target_window,
            foreground_pid == target_pid,
            forall|k: int| 0 <= k < i ==> #[trigger] owner_chain@[k] != target_window,
        decreases owner_chain.len() - i,
    {
        if owner_chain[i] == target_window {
            assert(owner_chain@.contains(target_window));
            return true;
        }
        i = i + 1;
    }
    false
}

/// The text without the given ending.
pub open spec fn without_suffix(text: Seq<char>, suffix: Seq<char>) -> Seq<char> {
    text.subrange(0, text.len() - suffix.len())
}

/// The name under which a controlled application is shown: the configured
/// one, unless it is the generic placeholder; else the window's title; else
/// its process name without the executable's extension.
pub open spec fn application_name(configured: Seq<char>, title: Seq<char>, process: Seq<char>) -> Seq<
    char,
> {
    let process = trimmed(process);
    if !same_ignoring_case(trimmed(configured), "application"@) && trimmed(configured).len() > 0 {
        trimmed(configured)
    } else if trimmed(title).len() > 0 {
        trimmed(title)
    } else if ends_with(process, ".exe"@) {
        without_suffix(process, ".exe"@)
    } else if ends_with(process, ".EXE"@) {
        without_suffix(process, ".EXE"@)
    } else {
        process
    }
}

pub fn resolved_application_name(configured: &str, target: &WindowTarget) -> (r: String)
    ensures
        r@ == application_name(configured@, target.title@, target.app_name@),
{
    let name = trim_text(configured);
    if !text_eq_ignoring_case(name, "application") && name.unicode_len() > 0 {
        return name.to_owned();
    }
    let title = trim_text(target.title.as_str());
    if title.unicode_len() > 0 {
        return title.to_owned();
    }
    let process = trim_text(target.app_name.as_str());
    proof {
        reveal_strlit(".exe");
        reveal_strlit(".EXE");
    }
    if text_ends_with(process, ".exe") || text_ends_with(process, ".EXE") {
        let kept: usize = process.unicode_len() - 4;
        return process.substring_char(0, kept).to_owned();
    }
    process.to_owned()
}

/// The desktop region a window covers, at the unscaled resolution.
pub fn desktop_crop_bounds(target: &WindowTarget) -> (r: ([i32; 4], u32))
    ensures
        r == (target.bounds, 96u32),
{
    (target.bounds, 96)
}

/// A window that a query finds is one of the rows, and every selector of the
/// query holds of it: the application's name up to the case of its letters, and
/// the process, the handle and the title exactly.
pub proof fn law_found_windows_fit_the_query(
    query: ComputerUseWindowQuery,
    rows: Seq<JsonTree>,
    at: int,
)
    requires
        0 <= at < selected_rows(query, rows).len(),
    ensures
        ({
            let found = selected_rows(query, rows)[at];
            &&& rows.contains(found)
            &&& query.app is Some ==> found.text_at("app_name"@) is Some && same_ignoring_case(
                found.text_at("app_name"@)->0,
                query.app->0@,
            )
            &&& query.process_id is Some ==> found.u64_at("pid"@) == Some(
                query.process_id->0 as u64,
            )
            &&& query.window_handle is Some ==> found.u64_at("window_id"@) == query.window_handle
            &&& query.window_title is Some ==> found.text_at("title"@) == Some(
                query.window_title->0@,
            )
        }),
    decreases rows.len(),
{
    let before = rows.drop_last();
    if query.selects(rows.last()) && at == selected_rows(query, rows).len() - 1 {
        assert(rows[rows.len() - 1] == rows.last());
    } else {
        law_found_windows_fit_the_query(query, before, at);
        let found = selected_rows(query, before)[at];
        let k = choose|k: int| 0 <= k < before.len() && before[k] == found;
        assert(rows[k] == found);
    }
}

/// A row that every selector of a query holds of is found.
pub proof fn law_fitting_windows_are_found(
    query: ComputerUseWindowQuery,
    rows: Seq<JsonTree>,
    at: int,
)
    requires
        0 <= at < rows.len(),
        query.app is None || (rows[at].text_at("app_name"@) is Some && same_ignoring_case(
            rows[at].text_at("app_name"@)->0,
            query.app->0@,
        )),
        query.process_id is None || rows[at].u64_at("pid"@) == Some(query.process_id->0 as u64),
        query.window_handle is None || rows[at].u64_at("window_id"@) == query.window_handle,
        query.window_title is None || rows[at].text_at("title"@) == Some(query.window_title->0@),
    ensures
        selected_rows(query, rows).contains(rows[at]),
    decreases rows.len(),
{
    let before = rows.drop_last();
    let found = selected_rows(query, rows);
    if at == rows.len() - 1 {
        assert(found[found.len() - 1] == rows[at]);
    } else {
        law_fitting_windows_are_found(query, before, at);
        let earlier = selected_rows(query, before);
        let k = choose|k: int| 0 <= k < earlier.len() && earlier[k] == before[at];
        assert(found[k] == rows[at]);
    }
}

/// Windows are found in the order of the inventory, each as often as it is
/// there: what two inventories hold one after the other is what each holds.
pub proof fn law_windows_are_found_in_order(
    query: ComputerUseWindowQuery,
    first: Seq<JsonTree>,
    second: Seq<JsonTree>,
)
    ensures
        selected_rows(query, first + second) == selected_rows(query, first) + selected_rows(
            query,
            second,
        ),
    decreases second.len(),
{
    if second.len() == 0 {
        assert(first + second =~= first);
        assert(selected_rows(query, first) + selected_rows(query, second) =~= selected_rows(
            query,
            first,
        ));
    } else {
        law_windows_are_found_in_order(query, first, second.drop_last());
        assert((first + second).drop_last() =~= first + second.drop_last());
        assert((first + second).last() == second.last());
        assert(selected_rows(query, first + second) =~= selected_rows(query, first)
            + selected_rows(query, second));
    }
}

/// A wait ends with windows exactly where some row fits, and then with all of
/// them; without any it goes on.
pub proof fn law_waits_end_with_every_fitting_window(
    query: ComputerUseWindowQuery,
    rows: Vec<Json>,
    step: WindowWaitStep,
)
    requires
        probe_step(query, WindowWaitProbeOutcome::Completed(Ok(rows)), step),
    ensures
        !(step is Fail),
        step is PollAgain <==> (forall|i: int|
            0 <= i < rows@.len() ==> !query.selects((#[trigger] rows@[i]).view())),
        step matches WindowWaitStep::Found(windows) ==> windows@.len() > 0 && (forall|i: int|
            0 <= i < rows@.len() && query.selects((#[trigger] rows@[i]).view())
                ==> array_tree(windows@).contains(rows@[i].view())),
{
    let trees = array_tree(rows@);
    lemma_array_tree(rows@);
    assert forall|i: int| 0 <= i < rows@.len() && query.selects(
        (#[trigger] rows@[i]).view(),
    ) implies selected_rows(query, trees).contains(rows@[i].view()) by {
        assert(trees[i] == rows@[i].view());
        law_fitting_windows_are_found(query, trees, i);
    }
    if selected_rows(query, trees).len() > 0 {
        law_found_windows_fit_the_query(query, trees, 0);
        let found = selected_rows(query, trees)[0];
        let k = choose|k: int| 0 <= k < trees.len() && trees[k] == found;
        assert(query.selects(rows@[k].view()));
    }
    match step {
        WindowWaitStep::Found(windows) => {
            lemma_array_tree(windows@);
        },
        _ => {},
    }
}

/// A failed inventory fails the wait with its own error, and one that ran out
/// of time says so.
pub proof fn law_failed_probes_fail_the_wait(
    query: ComputerUseWindowQuery,
    error: ComputerUseError,
    failed: WindowWaitStep,
    late: WindowWaitStep,
)
    requires
        probe_step(query, WindowWaitProbeOutcome::Completed(Err(error)), failed),
        probe_step(query, WindowWaitProbeOutcome::TimedOut, late),
    ensures
        failed == WindowWaitStep::Fail(error),
        late matches WindowWaitStep::Fail(timeout) && timeout.code
            == ComputerUseErrorCode::MissingWindow && timeout.message@ == "window query timed out"@,
{
}

/// A scope stands for a window only where every part of it holds of that window,
/// and of no other row.
pub proof fn law_scopes_stand_for_one_window(
    scope: ComputerUseTargetScope,
    rows: Seq<WindowTarget>,
    at: int,
)
    requires
        0 <= at < rows.len(),
    ensures
        covered_rows(scope, rows).contains(rows[at]) <==> (scope.process_id is None
            || scope.process_id == Some(rows[at].pid)) && (scope.window_handle is None
            || scope.window_handle == Some(rows[at].window_id)) && (scope.window_title is None
            || scope.window_title->0@ == rows[at].title@),
        covered_rows(scope, rows).len() == 1 && covered_rows(scope, rows).contains(rows[at])
            ==> covered_rows(scope, rows)[0] == rows[at],
    decreases rows.len(),
{
    lemma_covered_rows(scope, rows);
    let covered = covered_rows(scope, rows);
    if scope.covers(rows[at]) {
        lemma_covers_is_kept(scope, rows, at);
    }
    if covered.contains(rows[at]) {
        let k = choose|k: int| 0 <= k < covered.len() && covered[k] == rows[at];
        assert(scope.covers(covered[k]));
    }
}

/// Covered rows are covered.
proof fn lemma_covered_rows(scope: ComputerUseTargetScope, rows: Seq<WindowTarget>)
    ensures
        forall|i: int|
            0 <= i < covered_rows(scope, rows).len() ==> scope.covers(
                #[trigger] covered_rows(scope, rows)[i],
            ),
    decreases rows.len(),
{
    if rows.len() > 0 {
        lemma_covered_rows(scope, rows.drop_last());
        let earlier = covered_rows(scope, rows.drop_last());
        assert forall|i: int| 0 <= i < covered_rows(scope, rows).len() implies scope.covers(
            #[trigger] covered_rows(scope, rows)[i],
        ) by {
            if i < earlier.len() {
                assert(covered_rows(scope, rows)[i] == earlier[i]);
            }
        }
    }
}

proof fn lemma_covers_is_kept(scope: ComputerUseTargetScope, rows: Seq<WindowTarget>, at: int)
    requires
        0 <= at < rows.len(),
        scope.covers(rows[at]),
    ensures
        covered_rows(scope, rows).contains(rows[at]),
    decreases rows.len(),
{
    let covered = covered_rows(scope, rows);
    if at == rows.len() - 1 {
        assert(covered[covered.len() - 1] == rows[at]);
    } else {
        lemma_covers_is_kept(scope, rows.drop_last(), at);
        let earlier = covered_rows(scope, rows.drop_last());
        let k = choose|k: int| 0 <= k < earlier.len() && earlier[k] == rows[at];
        assert(covered[k] == rows[at]);
    }
}

/// A window can be acted on exactly where it is on the screen and not
/// minimized; a minimized one can still be brought back while a session starts.
pub proof fn law_only_shown_windows_take_actions(target: WindowTarget)
    ensures
        action_target_refusal(target) is None <==> target.is_on_screen && !target.is_minimized,
        target.is_minimized ==> (action_target_refusal(target) matches Some((code, _)) && code
            == ComputerUseErrorCode::TargetMinimized),
        !target.is_minimized && !target.is_on_screen ==> (action_target_refusal(
            target,
        ) matches Some((code, _)) && code == ComputerUseErrorCode::TargetUnavailable),
        bootstrap_target_refusal(target) is None <==> target.is_on_screen || target.is_minimized,
        target.available() <==> action_target_refusal(target) is None,
{
}

/// Two windows are the same where both the process and the handle agree, whatever
/// else changed.
pub proof fn law_windows_are_told_by_process_and_handle(a: WindowTarget, b: WindowTarget)
    ensures
        a.same_window(b) <==> a.pid == b.pid && a.window_id == b.window_id,
        a.same_window(b) == b.same_window(a),
{
}

/// The name of an application is the configured one wherever that says more than
/// the placeholder; else the title; else the program's name without its ending.
pub proof fn law_applications_are_named_by_what_is_known(
    configured: Seq<char>,
    title: Seq<char>,
    process: Seq<char>,
)
    ensures
        trimmed(configured).len() > 0 && !same_ignoring_case(trimmed(configured), "application"@)
            ==> application_name(configured, title, process) == trimmed(configured),
        (trimmed(configured).len() == 0 || same_ignoring_case(
            trimmed(configured),
            "application"@,
        )) && trimmed(title).len() > 0 ==> application_name(configured, title, process) == trimmed(
            title,
        ),
        (trimmed(configured).len() == 0 || same_ignoring_case(
            trimmed(configured),
            "application"@,
        )) && trimmed(title).len() == 0 && ends_with(trimmed(process), ".exe"@)
            ==> application_name(configured, title, process) + ".exe"@ == trimmed(process),
{
    reveal_strlit(".exe");
    if ends_with(trimmed(process), ".exe"@) {
        assert(without_suffix(trimmed(process), ".exe"@) + ".exe"@ =~= trimmed(process));
    }
}

/// A wait tells the windows it ended with, how many they are, and how long it took.
pub proof fn law_waits_tell_what_they_found(windows: Seq<Json>, waited_ms: u64)
    requires
        windows.len() <= u64::MAX,
    ensures
        wait_result_tree(windows, waited_ms).get("windows"@) == Some(
            JsonTree::Array(array_tree(windows)),
        ),
        wait_result_tree(windows, waited_ms).u64_at("count"@) == Some(windows.len() as u64),
        wait_result_tree(windows, waited_ms).u64_at("waited_ms"@) == Some(waited_ms),
{
    reveal_strlit("windows");
    reveal_strlit("count");
    reveal_strlit("waited_ms");
    assert("windows"@.len() == 7);
    assert("count"@.len() == 5);
    assert("waited_ms"@.len() == 9);
}

/// A window that was resolved again is handed on exactly where it is the same.
pub proof fn law_revalidated_windows_are_the_same(
    original: Option<&WindowTarget>,
    resolved: ComputerUseResult<WindowTarget>,
    r: ComputerUseResult<WindowTarget>,
)
    requires
        target_is_revalidated(original, resolved, r),
    ensures
        r is Ok <==> resolved is Ok && original is Some && resolved->Ok_0.pid == original->0.pid
            && resolved->Ok_0.window_id == original->0.window_id,
        r is Ok ==> r == resolved,
        resolved is Err ==> r == resolved,
        resolved is Ok && original is None ==> r->Err_0.code == ComputerUseErrorCode::MissingWindow,
        resolved is Ok && original is Some && r is Err ==> r->Err_0.code
            == ComputerUseErrorCode::TargetUnavailable,
{
}

/// The windows that are marked as in front are those of the topmost depth; nothing
/// else of any window changes, and none is left out.
pub proof fn law_topmost_windows_are_in_front(
    before: Seq<WindowTarget>,
    after: Seq<WindowTarget>,
    i: int,
    j: int,
)
    requires
        front_is_marked(before, after),
        0 <= i < before.len(),
        0 <= j < before.len(),
    ensures
        after.len() == before.len(),
        after[i].pid == before[i].pid,
        after[i].window_id == before[i].window_id,
        after[i].title == before[i].title,
        after[i].bounds == before[i].bounds,
        after[i].z_index == before[i].z_index,
        !depthless(before) && after[i].is_foreground ==> after[i].z_index is Some && (
        before[j].z_index matches Some(depth) ==> after[i].z_index->0 >= depth),
        depthless(before) ==> after == before,
{
}

/// Windows that are known to be in front stay so and no other is put there; where
/// none is, the topmost are.
pub proof fn law_known_fronts_stay(
    before: Seq<WindowTarget>,
    after: Seq<WindowTarget>,
    i: int,
    j: int,
)
    requires
        front_is_found(before, after),
        0 <= i < before.len(),
        0 <= j < before.len(),
    ensures
        after.len() == before.len(),
        after[i].pid == before[i].pid,
        after[i].window_id == before[i].window_id,
        after[i].z_index == before[i].z_index,
        before[j].is_foreground ==> after == before,
        after[i].is_foreground && !before[i].is_foreground ==> after[i].z_index is Some && (
        before[j].z_index matches Some(depth) ==> after[i].z_index->0 >= depth),
{
}

/// A scope covers exactly the windows that are what it names: the process, the handle
/// and the title, each where it names one.
pub proof fn law_scopes_cover_what_they_name(scope: ComputerUseTargetScope, window: WindowTarget)
    ensures
        (scope.process_id is Some && scope.process_id->0 != window.pid) ==> !scope.covers(window),
        (scope.window_handle is Some && scope.window_handle->0 != window.window_id)
            ==> !scope.covers(window),
        (scope.window_title is Some && scope.window_title->0@ != window.title@) ==> !scope.covers(
            window,
        ),
        ((scope.process_id is None || scope.process_id->0 == window.pid) && (
        scope.window_handle is None || scope.window_handle->0 == window.window_id) && (
        scope.window_title is None || scope.window_title->0@ == window.title@)) ==> scope.covers(
            window,
        ),
{
}

} // verus!
