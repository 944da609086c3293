//! Preflight health of a session: typed blockers and recording progress.

use crate::evidence::ActionEvidenceEpoch;
use crate::input_state::{
    ComputerUseInputStatus, ComputerUseSessionInputState, ComputerUseSessionTargetState,
    ComputerUseTargetStatus,
};
use crate::json::Json;
#[allow(unused_imports)]
use crate::json::{array_tree, lemma_array_tree, optional_text, optional_tree, JsonTree};
use crate::text::text_eq;
use vstd::prelude::*;

verus! {

#[derive(Debug, Clone, PartialEq, Eq)]
pub struct ComputerUseSessionHealthPolicy {
    pub require_recording_healthy: bool,
    pub require_recording_progress: bool,
    pub previous_recording_progress: Option<ComputerUseRecordingProgressFingerprint>,
}

impl Default for ComputerUseSessionHealthPolicy {
    fn default() -> (r: Self)
        ensures
            !r.require_recording_healthy,
            !r.require_recording_progress,
            r.previous_recording_progress is None,
    {
        ComputerUseSessionHealthPolicy {
            require_recording_healthy: false,
            require_recording_progress: false,
            previous_recording_progress: None,
        }
    }
}

#[derive(Debug, Clone, Copy, PartialEq, Eq, Structural)]
pub struct ComputerUseRecordingProgressFingerprint {
    pub lane: ComputerUseRecordingProgressLane,
    pub trajectory_turn: Option<u64>,
    pub finalized_segments: u64,
    pub current_partial_size_bytes: Option<u64>,
    pub current_partial_modified_at_unix_ms: Option<u64>,
}

#[derive(Debug, Clone, Copy, PartialEq, Eq, Structural)]
pub enum ComputerUseRecordingProgressLane {
    Trajectory,
    Video,
}

#[derive(Debug, Clone, Copy, PartialEq, Eq, Structural)]
pub enum ComputerUseRecordingStatus {
    NotGranted,
    Unavailable,
    Stopped,
    Active,
    Paused,
    Degraded,
}

#[derive(Debug, Clone, Copy, PartialEq, Eq, Structural)]
pub enum ComputerUseRecordingProgressStatus {
    NotRequested,
    BaselineRequired,
    Advanced,
    Stalled,
    Regressed,
    Unavailable,
}

#[derive(Debug, Clone, PartialEq, Eq)]
pub struct ComputerUseRecordingHealth {
    pub granted: bool,
    pub status: ComputerUseRecordingStatus,
    pub healthy: Option<bool>,
    pub issues: Vec<String>,
    pub progress: Option<ComputerUseRecordingProgressFingerprint>,
    pub progress_status: ComputerUseRecordingProgressStatus,
}

/// What the file system says of a partial recording.
#[derive(Debug, Clone, Copy, PartialEq, Eq, Structural)]
pub struct PartialRecordingFile {
    pub size_bytes: u64,
    pub modified_at_unix_ms: Option<u64>,
}

/// The status a recording state reports.
pub open spec fn recording_status(state: JsonTree) -> ComputerUseRecordingStatus {
    match state.text_at("status"@) {
        Some(text) => if text == "stopped"@ {
            ComputerUseRecordingStatus::Stopped
        } else if text == "active"@ {
            ComputerUseRecordingStatus::Active
        } else if text == "paused"@ {
            ComputerUseRecordingStatus::Paused
        } else if text == "degraded"@ {
            ComputerUseRecordingStatus::Degraded
        } else {
            ComputerUseRecordingStatus::Unavailable
        },
        None => ComputerUseRecordingStatus::Unavailable,
    }
}

/// The texts among a run of values, in order.
pub open spec fn texts_of(items: Seq<JsonTree>) -> Seq<Seq<char>>
    decreases items.len(),
{
    if items.len() == 0 {
        Seq::empty()
    } else {
        match items.last().as_text() {
            Some(text) => texts_of(items.drop_last()).push(text),
            None => texts_of(items.drop_last()),
        }
    }
}

/// The issues a recording state reports; anything but a text is passed over.
pub open spec fn reported_issues(state: JsonTree) -> Seq<Seq<char>> {
    match state.array_at("issues"@) {
        Some(items) => texts_of(items),
        None => Seq::empty(),
    }
}

/// The texts of a run of strings.
pub open spec fn string_views(strings: Seq<String>) -> Seq<Seq<char>> {
    Seq::new(strings.len(), |i: int| strings[i]@)
}

/// The trajectory's structured content, or the trajectory itself.
pub open spec fn trajectory_content(state: JsonTree) -> Option<JsonTree> {
    match state.get("trajectory"@) {
        Some(trajectory) => match trajectory.get("structuredContent"@) {
            Some(content) => Some(content),
            None => Some(trajectory),
        },
        None => None,
    }
}

pub open spec fn trajectory_turn(state: JsonTree) -> Option<u64> {
    match trajectory_content(state) {
        Some(content) => content.u64_at("next_turn"@),
        None => None,
    }
}

/// The video state, where there is one that is not null.
pub open spec fn video_state(state: JsonTree) -> Option<JsonTree> {
    match state.get("video"@) {
        Some(video) => if video is Null {
            None
        } else {
            Some(video)
        },
        None => None,
    }
}

/// How many of the segments are finalized.
pub open spec fn finalized_count(segments: Seq<JsonTree>) -> nat
    decreases segments.len(),
{
    if segments.len() == 0 {
        0
    } else {
        finalized_count(segments.drop_last()) + if segments.last().bool_at("finalized"@) == Some(
            true,
        ) {
            1nat
        } else {
            0nat
        }
    }
}

pub open spec fn finalized_segments(state: JsonTree) -> nat {
    match video_state(state) {
        Some(video) => match video.array_at("segments"@) {
            Some(segments) => finalized_count(segments),
            None => 0,
        },
        None => 0,
    }
}

/// The path of the recording in progress.
pub open spec fn partial_path(state: JsonTree) -> Option<Seq<char>> {
    match video_state(state) {
        Some(video) => video.text_at("current_partial"@),
        None => None,
    }
}

/// The progress of a recording, given what the file system says of its
/// partial file. Without a path to a partial file, none is considered.
pub open spec fn progress_of(
    state: JsonTree,
    partial: Option<PartialRecordingFile>,
) -> Option<ComputerUseRecordingProgressFingerprint> {
    let file = if partial_path(state) is Some {
        partial
    } else {
        None
    };
    if video_state(state) is Some || trajectory_turn(state) is Some {
        Some(
            ComputerUseRecordingProgressFingerprint {
                lane: if video_state(state) is Some {
                    ComputerUseRecordingProgressLane::Video
                } else {
                    ComputerUseRecordingProgressLane::Trajectory
                },
                trajectory_turn: trajectory_turn(state),
                finalized_segments: finalized_segments(state) as u64,
                current_partial_size_bytes: match file {
                    Some(file) => Some(file.size_bytes),
                    None => None,
                },
                current_partial_modified_at_unix_ms: match file {
                    Some(file) => file.modified_at_unix_ms,
                    None => None,
                },
            },
        )
    } else {
        None
    }
}

/// An observed value moved forward, or appeared.
pub open spec fn moved_forward(previous: Option<u64>, current: Option<u64>) -> bool {
    match (previous, current) {
        (Some(before), Some(after)) => after > before,
        (None, Some(_)) => true,
        _ => false,
    }
}

/// An observed value moved backward, or vanished.
pub open spec fn moved_backward(previous: Option<u64>, current: Option<u64>) -> bool {
    match (previous, current) {
        (Some(before), Some(after)) => after < before,
        (Some(_), None) => true,
        _ => false,
    }
}

pub fn option_advanced(previous: Option<u64>, current: Option<u64>) -> (r: bool)
    ensures
        r == moved_forward(previous, current),
{
    match (previous, current) {
        (Some(before), Some(after)) => after > before,
        (None, Some(_)) => true,
        _ => false,
    }
}

pub fn option_regressed(previous: Option<u64>, current: Option<u64>) -> (r: bool)
    ensures
        r == moved_backward(previous, current),
{
    match (previous, current) {
        (Some(before), Some(after)) => after < before,
        (Some(_), None) => true,
        _ => false,
    }
}

/// The fingerprint lost ground within its lane.
pub open spec fn fingerprint_regressed(
    previous: ComputerUseRecordingProgressFingerprint,
    current: ComputerUseRecordingProgressFingerprint,
) -> bool {
    match current.lane {
        ComputerUseRecordingProgressLane::Trajectory => moved_backward(
            previous.trajectory_turn,
            current.trajectory_turn,
        ),
        ComputerUseRecordingProgressLane::Video => {
            ||| current.finalized_segments < previous.finalized_segments
            ||| current.finalized_segments == previous.finalized_segments && (moved_backward(
                previous.current_partial_size_bytes,
                current.current_partial_size_bytes,
            ) || moved_backward(
                previous.current_partial_modified_at_unix_ms,
                current.current_partial_modified_at_unix_ms,
            ))
        },
    }
}

/// The fingerprint gained ground within its lane.
pub open spec fn fingerprint_advanced(
    previous: ComputerUseRecordingProgressFingerprint,
    current: ComputerUseRecordingProgressFingerprint,
) -> bool {
    match current.lane {
        ComputerUseRecordingProgressLane::Trajectory => moved_forward(
            previous.trajectory_turn,
            current.trajectory_turn,
        ),
        ComputerUseRecordingProgressLane::Video => {
            ||| current.finalized_segments > previous.finalized_segments
            ||| moved_forward(
                previous.current_partial_size_bytes,
                current.current_partial_size_bytes,
            )
            ||| moved_forward(
                previous.current_partial_modified_at_unix_ms,
                current.current_partial_modified_at_unix_ms,
            )
        },
    }
}

/// How two fingerprints compare. Losing ground outweighs gaining it.
pub open spec fn progress_between(
    previous: ComputerUseRecordingProgressFingerprint,
    current: ComputerUseRecordingProgressFingerprint,
) -> ComputerUseRecordingProgressStatus {
    if current.lane != previous.lane {
        ComputerUseRecordingProgressStatus::BaselineRequired
    } else if fingerprint_regressed(previous, current) {
        ComputerUseRecordingProgressStatus::Regressed
    } else if fingerprint_advanced(previous, current) {
        ComputerUseRecordingProgressStatus::Advanced
    } else {
        ComputerUseRecordingProgressStatus::Stalled
    }
}

/// The progress status a policy asks for.
pub open spec fn progress_status_under(
    policy: ComputerUseSessionHealthPolicy,
    current: Option<ComputerUseRecordingProgressFingerprint>,
) -> ComputerUseRecordingProgressStatus {
    if !policy.require_recording_progress {
        ComputerUseRecordingProgressStatus::NotRequested
    } else {
        match (current, policy.previous_recording_progress) {
            (None, _) => ComputerUseRecordingProgressStatus::Unavailable,
            (Some(_), None) => ComputerUseRecordingProgressStatus::BaselineRequired,
            (Some(now), Some(before)) => progress_between(before, now),
        }
    }
}

pub fn compare_recording_progress(
    previous: &ComputerUseRecordingProgressFingerprint,
    current: &ComputerUseRecordingProgressFingerprint,
) -> (r: ComputerUseRecordingProgressStatus)
    ensures
        r == progress_between(*previous, *current),
{
    if current.lane != previous.lane {
        return ComputerUseRecordingProgressStatus::BaselineRequired;
    }
    match current.lane {
        ComputerUseRecordingProgressLane::Trajectory => {
            if option_regressed(previous.trajectory_turn, current.trajectory_turn) {
                ComputerUseRecordingProgressStatus::Regressed
            } else if option_advanced(previous.trajectory_turn, current.trajectory_turn) {
                ComputerUseRecordingProgressStatus::Advanced
            } else {
                ComputerUseRecordingProgressStatus::Stalled
            }
        },
        ComputerUseRecordingProgressLane::Video => {
            if current.finalized_segments < previous.finalized_segments || (
            current.finalized_segments == previous.finalized_segments && (option_regressed(
                previous.current_partial_size_bytes,
                current.current_partial_size_bytes,
            ) || option_regressed(
                previous.current_partial_modified_at_unix_ms,
                current.current_partial_modified_at_unix_ms,
            ))) {
                ComputerUseRecordingProgressStatus::Regressed
            } else if current.finalized_segments > previous.finalized_segments || option_advanced(
                previous.current_partial_size_bytes,
                current.current_partial_size_bytes,
            ) || option_advanced(
                previous.current_partial_modified_at_unix_ms,
                current.current_partial_modified_at_unix_ms,
            ) {
                ComputerUseRecordingProgressStatus::Advanced
            } else {
                ComputerUseRecordingProgressStatus::Stalled
            }
        },
    }
}

pub fn recording_progress_status(
    policy: &ComputerUseSessionHealthPolicy,
    current: Option<&ComputerUseRecordingProgressFingerprint>,
) -> (r: ComputerUseRecordingProgressStatus)
    ensures
        r == progress_status_under(
            *policy,
            match current {
                Some(fingerprint) => Some(*fingerprint),
                None => None,
            },
        ),
{
    if !policy.require_recording_progress {
        return ComputerUseRecordingProgressStatus::NotRequested;
    }
    match current {
        None => ComputerUseRecordingProgressStatus::Unavailable,
        Some(current) => match &policy.previous_recording_progress {
            None => ComputerUseRecordingProgressStatus::BaselineRequired,
            Some(previous) => compare_recording_progress(previous, current),
        },
    }
}

fn video_of(state: &Json) -> (r: Option<&Json>)
    ensures
        optional_tree(r) == video_state(state.view()),
{
    match state.get("video") {
        Some(video) => if video.is_null() {
            None
        } else {
            Some(video)
        },
        None => None,
    }
}

/// The path of the recording in progress, whose file the caller may inspect.
pub fn recording_partial_path(state: &Json) -> (r: Option<&str>)
    ensures
        optional_text(r) == partial_path(state.view()),
{
    match video_of(state) {
        Some(video) => video.text_at("current_partial"),
        None => None,
    }
}

proof fn lemma_finalized_count_bound(segments: Seq<JsonTree>)
    ensures
        finalized_count(segments) <= segments.len(),
    decreases segments.len(),
{
    if segments.len() > 0 {
        lemma_finalized_count_bound(segments.drop_last());
    }
}

fn count_finalized(segments: &Vec<Json>) -> (r: u64)
    ensures
        r == finalized_count(array_tree(segments@)),
{
    let mut count: u64 = 0;
    let mut i: usize = 0;
    let ghost trees = array_tree(segments@);
    proof {
        lemma_array_tree(segments@);
    }
    while i < segments.len()
        invariant
            i <= segments.len(),
            trees == array_tree(segments@),
            trees.len() == segments.len(),
            forall|k: int| 0 <= k < segments.len() ==> #[trigger] trees[k] == segments@[k].view(),
            count == finalized_count(trees.take(i as int)),
            count <= i,
        decreases segments.len() - i,
    {
        assert(trees.take(i + 1).drop_last() =~= trees.take(i as int));
        assert(trees.take(i + 1).last() == trees[i as int]);
        let finalized = match segments[i].bool_at("finalized") {
            Some(value) => value,
            None => false,
        };
        if finalized {
            count = count + 1;
        }
        i = i + 1;
    }
    assert(trees.take(trees.len() as int) =~= trees);
    count
}

/// The progress of a recording, given what the file system says of its
/// partial file.
pub fn recording_progress_fingerprint(
    state: &Json,
    partial: Option<PartialRecordingFile>,
) -> (r: Option<ComputerUseRecordingProgressFingerprint>)
    ensures
        r == progress_of(state.view(), partial),
{
    let turn: Option<u64> = match state.get("trajectory") {
        Some(trajectory) => match trajectory.get("structuredContent") {
            Some(content) => content.u64_at("next_turn"),
            None => trajectory.u64_at("next_turn"),
        },
        None => None,
    };
    let video = video_of(state);
    let segments: u64 = match video {
        Some(video) => match video.get("segments") {
            Some(segments) => match segments.as_array() {
                Some(segments) => count_finalized(segments),
                None => 0,
            },
            None => 0,
        },
        None => 0,
    };
    let file = if recording_partial_path(state).is_some() {
        partial
    } else {
        None
    };
    if video.is_none() && turn.is_none() {
        return None;
    }
    let lane = if video.is_some() {
        ComputerUseRecordingProgressLane::Video
    } else {
        ComputerUseRecordingProgressLane::Trajectory
    };
    let size: Option<u64> = match file {
        Some(file) => Some(file.size_bytes),
        None => None,
    };
    let modified: Option<u64> = match file {
        Some(file) => file.modified_at_unix_ms,
        None => None,
    };
    Some(
        ComputerUseRecordingProgressFingerprint {
            lane,
            trajectory_turn: turn,
            finalized_segments: segments,
            current_partial_size_bytes: size,
            current_partial_modified_at_unix_ms: modified,
        },
    )
}

fn collect_issues(state: &Json) -> (r: Vec<String>)
    ensures
        string_views(r@) == reported_issues(state.view()),
{
    let mut issues: Vec<String> = Vec::new();
    if let Some(member) = state.get("issues") {
        if let Some(items) = member.as_array() {
            let ghost trees = array_tree(items@);
            proof {
                lemma_array_tree(items@);
            }
            let mut i: usize = 0;
            while i < items.len()
                invariant
                    i <= items.len(),
                    trees == array_tree(items@),
                    trees.len() == items.len(),
                    forall|k: int|
                        0 <= k < items.len() ==> #[trigger] trees[k] == items@[k].view(),
                    string_views(issues@) == texts_of(trees.take(i as int)),
                decreases items.len() - i,
            {
                assert(trees.take(i + 1).drop_last() =~= trees.take(i as int));
                assert(trees.take(i + 1).last() == trees[i as int]);
                if let Some(text) = items[i].as_text() {
                    let ghost before = string_views(issues@);
                    issues.push(text.to_owned());
                    assert(string_views(issues@) =~= before.push(text@));
                }
                i = i + 1;
            }
            assert(trees.take(trees.len() as int) =~= trees);
            assert(state.view().array_at("issues"@) == Some(trees));
            return issues;
        }
    }
    assert(string_views(issues@) =~= Seq::empty());
    issues
}

/// The health of a recording, as its state tells it.
pub open spec fn recording_health_is_read(granted: bool, state: JsonTree, policy: ComputerUseSessionHealthPolicy, partial: Option<PartialRecordingFile>, r: ComputerUseRecordingHealth) -> bool {
    &&& r.granted == granted
    &&& !granted ==> {
        &&& r.status == ComputerUseRecordingStatus::NotGranted
        &&& r.healthy is None
        &&& r.issues@.len() == 0
        &&& r.progress is None
        &&& r.progress_status == if policy.require_recording_progress {
            ComputerUseRecordingProgressStatus::Unavailable
        } else {
            ComputerUseRecordingProgressStatus::NotRequested
        }
    }
    &&& granted ==> {
        &&& r.status == recording_status(state)
        &&& r.healthy == state.bool_at("healthy"@)
        &&& string_views(r.issues@) == reported_issues(state)
        &&& r.progress == progress_of(state, partial)
        &&& r.progress_status == progress_status_under(policy, r.progress)
    }
}

impl ComputerUseRecordingHealth {
    /// The health a recording state reports. What the file system says of the
    /// partial file at `recording_partial_path` comes in as `partial`.
    #[must_use]
    pub fn from_state(
        granted: bool,
        state: &Json,
        policy: &ComputerUseSessionHealthPolicy,
        partial: Option<PartialRecordingFile>,
    ) -> (r: Self)
        ensures
            recording_health_is_read(granted, state.view(), *policy, partial, r),
    {
        if !granted {
            return ComputerUseRecordingHealth {
                granted: false,
                status: ComputerUseRecordingStatus::NotGranted,
                healthy: None,
                issues: Vec::new(),
                progress: None,
                progress_status: if policy.require_recording_progress {
                    ComputerUseRecordingProgressStatus::Unavailable
                } else {
                    ComputerUseRecordingProgressStatus::NotRequested
                },
            };
        }
        let status = match state.text_at("status") {
            Some(text) => if text_eq(text, "stopped") {
                ComputerUseRecordingStatus::Stopped
            } else if text_eq(text, "active") {
                ComputerUseRecordingStatus::Active
            } else if text_eq(text, "paused") {
                ComputerUseRecordingStatus::Paused
            } else if text_eq(text, "degraded") {
                ComputerUseRecordingStatus::Degraded
            } else {
                ComputerUseRecordingStatus::Unavailable
            },
            None => ComputerUseRecordingStatus::Unavailable,
        };
        let progress = recording_progress_fingerprint(state, partial);
        let progress_status = recording_progress_status(policy, progress.as_ref());
        ComputerUseRecordingHealth {
            granted: true,
            status,
            healthy: state.bool_at("healthy"),
            issues: collect_issues(state),
            progress,
            progress_status,
        }
    }
}

#[derive(Debug, Clone, Copy, PartialEq, Eq, Structural)]
pub enum ComputerUseSessionHealthBlocker {
    StateChangedDuringProbe,
    InputSuspended,
    TargetUnavailable,
    TargetMinimized,
    TargetNotForeground,
    TargetProbeFailed,
    SessionInterrupted,
    RecordingNotGranted,
    RecordingInactive,
    RecordingPaused,
    RecordingDegraded,
    RecordingProbeFailed,
    RecordingProgressBaselineRequired,
    RecordingProgressStalled,
    RecordingProgressRegressed,
    RecordingProgressUnavailable,
}

pub struct ComputerUseSessionHealthEvaluation {
    pub policy: ComputerUseSessionHealthPolicy,
    pub input_state: ComputerUseSessionInputState,
    pub target_state: ComputerUseSessionTargetState,
    pub recording: ComputerUseRecordingHealth,
    pub action_evidence_epoch: ActionEvidenceEpoch,
    pub transition_sequence: u64,
    pub state_changed_during_probe: bool,
    pub interrupted: bool,
    pub target_probe_failed: bool,
}

#[derive(Debug, Clone, PartialEq, Eq)]
pub struct ComputerUseSessionHealth {
    pub schema_version: u8,
    pub safe_to_input: bool,
    pub authority: String,
    pub automatic_activation: bool,
    pub automatic_input: bool,
    pub fresh_observation_required: bool,
    pub policy: ComputerUseSessionHealthPolicy,
    pub input_state: ComputerUseSessionInputState,
    pub target_state: ComputerUseSessionTargetState,
    pub recording: ComputerUseRecordingHealth,
    pub action_evidence_epoch: String,
    pub transition_sequence: u64,
    pub blockers: Vec<ComputerUseSessionHealthBlocker>,
}

/// The blocker the target's own state raises.
pub open spec fn target_blocker(
    target: ComputerUseSessionTargetState,
) -> Option<ComputerUseSessionHealthBlocker> {
    if target.status == ComputerUseTargetStatus::Minimized || target.minimized {
        Some(ComputerUseSessionHealthBlocker::TargetMinimized)
    } else if target.status == ComputerUseTargetStatus::Unavailable || !target.visible {
        Some(ComputerUseSessionHealthBlocker::TargetUnavailable)
    } else if !target.foreground {
        Some(ComputerUseSessionHealthBlocker::TargetNotForeground)
    } else {
        None
    }
}

/// The blocker a required recording raises.
pub open spec fn recording_blocker(
    policy: ComputerUseSessionHealthPolicy,
    recording: ComputerUseRecordingHealth,
) -> Option<ComputerUseSessionHealthBlocker> {
    if !policy.require_recording_healthy && !policy.require_recording_progress {
        None
    } else if !recording.granted {
        Some(ComputerUseSessionHealthBlocker::RecordingNotGranted)
    } else {
        match recording.status {
            ComputerUseRecordingStatus::NotGranted => Some(
                ComputerUseSessionHealthBlocker::RecordingNotGranted,
            ),
            ComputerUseRecordingStatus::Unavailable => Some(
                ComputerUseSessionHealthBlocker::RecordingProbeFailed,
            ),
            ComputerUseRecordingStatus::Stopped => Some(
                ComputerUseSessionHealthBlocker::RecordingInactive,
            ),
            ComputerUseRecordingStatus::Paused => Some(
                ComputerUseSessionHealthBlocker::RecordingPaused,
            ),
            ComputerUseRecordingStatus::Degraded => Some(
                ComputerUseSessionHealthBlocker::RecordingDegraded,
            ),
            ComputerUseRecordingStatus::Active => if recording.healthy != Some(true) {
                Some(ComputerUseSessionHealthBlocker::RecordingDegraded)
            } else if policy.require_recording_progress {
                match recording.progress_status {
                    ComputerUseRecordingProgressStatus::BaselineRequired => Some(
                        ComputerUseSessionHealthBlocker::RecordingProgressBaselineRequired,
                    ),
                    ComputerUseRecordingProgressStatus::Stalled => Some(
                        ComputerUseSessionHealthBlocker::RecordingProgressStalled,
                    ),
                    ComputerUseRecordingProgressStatus::Regressed => Some(
                        ComputerUseSessionHealthBlocker::RecordingProgressRegressed,
                    ),
                    ComputerUseRecordingProgressStatus::Unavailable => Some(
                        ComputerUseSessionHealthBlocker::RecordingProgressUnavailable,
                    ),
                    ComputerUseRecordingProgressStatus::NotRequested => Some(
                        ComputerUseSessionHealthBlocker::RecordingProgressUnavailable,
                    ),
                    ComputerUseRecordingProgressStatus::Advanced => None,
                }
            } else {
                None
            },
        }
    }
}

pub open spec fn optional_blocker(
    blocker: Option<ComputerUseSessionHealthBlocker>,
) -> Seq<ComputerUseSessionHealthBlocker> {
    match blocker {
        Some(blocker) => seq![blocker],
        None => Seq::empty(),
    }
}

/// A blocker where its condition holds.
pub open spec fn blocker_if(
    condition: bool,
    blocker: ComputerUseSessionHealthBlocker,
) -> Option<ComputerUseSessionHealthBlocker> {
    if condition {
        Some(blocker)
    } else {
        None
    }
}

/// What each domain, by its rank in the stable order, blocks with: the probe
/// itself, input, the target, its probe, the session, and the recording.
pub open spec fn domain_blocker(
    evaluation: ComputerUseSessionHealthEvaluation,
    domain: int,
) -> Option<ComputerUseSessionHealthBlocker> {
    if domain == 0 {
        blocker_if(
            evaluation.state_changed_during_probe,
            ComputerUseSessionHealthBlocker::StateChangedDuringProbe,
        )
    } else if domain == 1 {
        blocker_if(
            evaluation.input_state.status == ComputerUseInputStatus::Suspended,
            ComputerUseSessionHealthBlocker::InputSuspended,
        )
    } else if domain == 2 {
        target_blocker(evaluation.target_state)
    } else if domain == 3 {
        blocker_if(
            evaluation.target_probe_failed,
            ComputerUseSessionHealthBlocker::TargetProbeFailed,
        )
    } else if domain == 4 {
        blocker_if(evaluation.interrupted, ComputerUseSessionHealthBlocker::SessionInterrupted)
    } else {
        recording_blocker(evaluation.policy, evaluation.recording)
    }
}

pub open spec fn domain_blockers(
    evaluation: ComputerUseSessionHealthEvaluation,
    domain: int,
) -> Seq<ComputerUseSessionHealthBlocker> {
    optional_blocker(domain_blocker(evaluation, domain))
}

/// Every blocker of an evaluation, in its stable order.
pub open spec fn blockers_of(
    evaluation: ComputerUseSessionHealthEvaluation,
) -> Seq<ComputerUseSessionHealthBlocker> {
    domain_blockers(evaluation, 0) + domain_blockers(evaluation, 1) + domain_blockers(evaluation, 2)
        + domain_blockers(evaluation, 3) + domain_blockers(evaluation, 4) + domain_blockers(
        evaluation,
        5,
    )
}

fn blocker_when(condition: bool, blocker: ComputerUseSessionHealthBlocker) -> (r: Option<
    ComputerUseSessionHealthBlocker,
>)
    ensures
        r == blocker_if(condition, blocker),
{
    if condition {
        Some(blocker)
    } else {
        None
    }
}

fn add_blocker(
    blockers: &mut Vec<ComputerUseSessionHealthBlocker>,
    blocker: Option<ComputerUseSessionHealthBlocker>,
)
    ensures
        final(blockers)@ == old(blockers)@ + optional_blocker(blocker),
{
    if let Some(blocker) = blocker {
        blockers.push(blocker);
    }
    assert(blockers@ =~= old(blockers)@ + optional_blocker(blocker));
}

fn find_target_blocker(target: &ComputerUseSessionTargetState) -> (r: Option<
    ComputerUseSessionHealthBlocker,
>)
    ensures
        r == target_blocker(*target),
{
    if target.status == ComputerUseTargetStatus::Minimized || target.minimized {
        Some(ComputerUseSessionHealthBlocker::TargetMinimized)
    } else if target.status == ComputerUseTargetStatus::Unavailable || !target.visible {
        Some(ComputerUseSessionHealthBlocker::TargetUnavailable)
    } else if !target.foreground {
        Some(ComputerUseSessionHealthBlocker::TargetNotForeground)
    } else {
        None
    }
}

fn find_recording_blocker(
    policy: &ComputerUseSessionHealthPolicy,
    recording: &ComputerUseRecordingHealth,
) -> (r: Option<ComputerUseSessionHealthBlocker>)
    ensures
        r == recording_blocker(*policy, *recording),
{
    if !policy.require_recording_healthy && !policy.require_recording_progress {
        return None;
    }
    if !recording.granted {
        return Some(ComputerUseSessionHealthBlocker::RecordingNotGranted);
    }
    match recording.status {
        ComputerUseRecordingStatus::NotGranted => Some(
            ComputerUseSessionHealthBlocker::RecordingNotGranted,
        ),
        ComputerUseRecordingStatus::Unavailable => Some(
            ComputerUseSessionHealthBlocker::RecordingProbeFailed,
        ),
        ComputerUseRecordingStatus::Stopped => Some(
            ComputerUseSessionHealthBlocker::RecordingInactive,
        ),
        ComputerUseRecordingStatus::Paused => Some(
            ComputerUseSessionHealthBlocker::RecordingPaused,
        ),
        ComputerUseRecordingStatus::Degraded => Some(
            ComputerUseSessionHealthBlocker::RecordingDegraded,
        ),
        ComputerUseRecordingStatus::Active => {
            let healthy = match recording.healthy {
                Some(healthy) => healthy,
                None => false,
            };
            if !healthy {
                Some(ComputerUseSessionHealthBlocker::RecordingDegraded)
            } else if policy.require_recording_progress {
                match recording.progress_status {
                    ComputerUseRecordingProgressStatus::BaselineRequired => Some(
                        ComputerUseSessionHealthBlocker::RecordingProgressBaselineRequired,
                    ),
                    ComputerUseRecordingProgressStatus::Stalled => Some(
                        ComputerUseSessionHealthBlocker::RecordingProgressStalled,
                    ),
                    ComputerUseRecordingProgressStatus::Regressed => Some(
                        ComputerUseSessionHealthBlocker::RecordingProgressRegressed,
                    ),
                    ComputerUseRecordingProgressStatus::Unavailable => Some(
                        ComputerUseSessionHealthBlocker::RecordingProgressUnavailable,
                    ),
                    ComputerUseRecordingProgressStatus::NotRequested => Some(
                        ComputerUseSessionHealthBlocker::RecordingProgressUnavailable,
                    ),
                    ComputerUseRecordingProgressStatus::Advanced => None,
                }
            } else {
                None
            }
        },
    }
}

/// The health of a session.
pub open spec fn is_evaluated(evaluation: ComputerUseSessionHealthEvaluation, r: ComputerUseSessionHealth) -> bool {
    &&& r.blockers@ == blockers_of(evaluation)
    &&& r.safe_to_input == (blockers_of(evaluation).len() == 0)
    &&& r.schema_version == 1
    &&& r.authority@ == "preflight_only"@
    &&& !r.automatic_activation
    &&& !r.automatic_input
    &&& r.fresh_observation_required
    &&& r.policy == evaluation.policy
    &&& r.input_state == evaluation.input_state
    &&& r.target_state == evaluation.target_state
    &&& r.recording == evaluation.recording
    &&& r.action_evidence_epoch@ == evaluation.action_evidence_epoch.token()
    &&& r.transition_sequence == evaluation.transition_sequence
}

impl ComputerUseSessionHealth {
    /// Judges whether input may be preflighted. The judgement itself never
    /// activates a window and never sends input.
    #[must_use]
    pub fn evaluate(evaluation: ComputerUseSessionHealthEvaluation) -> (r: Self)
        ensures
            is_evaluated(evaluation, r),
    {
        let mut blockers: Vec<ComputerUseSessionHealthBlocker> = Vec::new();
        add_blocker(
            &mut blockers,
            blocker_when(
                evaluation.state_changed_during_probe,
                ComputerUseSessionHealthBlocker::StateChangedDuringProbe,
            ),
        );
        proof {
            assert(blockers@ =~= domain_blockers(evaluation, 0));
        }
        add_blocker(
            &mut blockers,
            blocker_when(
                evaluation.input_state.status == ComputerUseInputStatus::Suspended,
                ComputerUseSessionHealthBlocker::InputSuspended,
            ),
        );
        add_blocker(&mut blockers, find_target_blocker(&evaluation.target_state));
        add_blocker(
            &mut blockers,
            blocker_when(
                evaluation.target_probe_failed,
                ComputerUseSessionHealthBlocker::TargetProbeFailed,
            ),
        );
        add_blocker(
            &mut blockers,
            blocker_when(
                evaluation.interrupted,
                ComputerUseSessionHealthBlocker::SessionInterrupted,
            ),
        );
        add_blocker(
            &mut blockers,
            find_recording_blocker(&evaluation.policy, &evaluation.recording),
        );
        let safe_to_input = blockers.len() == 0;
        ComputerUseSessionHealth {
            schema_version: 1,
            safe_to_input,
            authority: "preflight_only".to_owned(),
            automatic_activation: false,
            automatic_input: false,
            fresh_observation_required: true,
            policy: evaluation.policy,
            input_state: evaluation.input_state,
            target_state: evaluation.target_state,
            recording: evaluation.recording,
            action_evidence_epoch: evaluation.action_evidence_epoch.opaque_token(),
            transition_sequence: evaluation.transition_sequence,
            blockers,
        }
    }
}

/// Input is safe to preflight only on a ready input surface, a visible,
/// restored, foreground target, undisturbed probes, and, where the policy
/// asks for it, a granted, active, healthy recording that advances.
pub proof fn law_safe_input_has_every_guarantee(evaluation: ComputerUseSessionHealthEvaluation)
    ensures
        blockers_of(evaluation).len() == 0 <==> {
            &&& evaluation.input_state.status == ComputerUseInputStatus::Ready
            &&& evaluation.target_state.status == ComputerUseTargetStatus::Available
            &&& evaluation.target_state.visible
            &&& !evaluation.target_state.minimized
            &&& evaluation.target_state.foreground
            &&& !evaluation.state_changed_during_probe
            &&& !evaluation.interrupted
            &&& !evaluation.target_probe_failed
            &&& (evaluation.policy.require_recording_healthy
                || evaluation.policy.require_recording_progress) ==> {
                &&& evaluation.recording.granted
                &&& evaluation.recording.status == ComputerUseRecordingStatus::Active
                &&& evaluation.recording.healthy == Some(true)
                &&& evaluation.policy.require_recording_progress
                    ==> evaluation.recording.progress_status
                    == ComputerUseRecordingProgressStatus::Advanced
            }
        },
{
}

/// The rank of the domain that raises a blocker.
pub open spec fn domain_of(blocker: ComputerUseSessionHealthBlocker) -> int {
    match blocker {
        ComputerUseSessionHealthBlocker::StateChangedDuringProbe => 0,
        ComputerUseSessionHealthBlocker::InputSuspended => 1,
        ComputerUseSessionHealthBlocker::TargetUnavailable => 2,
        ComputerUseSessionHealthBlocker::TargetMinimized => 2,
        ComputerUseSessionHealthBlocker::TargetNotForeground => 2,
        ComputerUseSessionHealthBlocker::TargetProbeFailed => 3,
        ComputerUseSessionHealthBlocker::SessionInterrupted => 4,
        _ => 5,
    }
}

/// The blockers stand in the order of their domains, one per domain.
pub open spec fn in_domain_order(blockers: Seq<ComputerUseSessionHealthBlocker>) -> bool {
    forall|i: int, j: int|
        0 <= i < j < blockers.len() ==> domain_of(#[trigger] blockers[i]) < domain_of(
            #[trigger] blockers[j],
        )
}

#[verifier::opaque]
spec fn ordered_below(blockers: Seq<ComputerUseSessionHealthBlocker>, domain: int) -> bool {
    &&& in_domain_order(blockers)
    &&& forall|i: int| 0 <= i < blockers.len() ==> domain_of(#[trigger] blockers[i]) < domain
    &&& blockers.len() <= domain
}

proof fn lemma_append_domain(
    blockers: Seq<ComputerUseSessionHealthBlocker>,
    blocker: Option<ComputerUseSessionHealthBlocker>,
    domain: int,
)
    requires
        ordered_below(blockers, domain),
        blocker matches Some(b) ==> domain_of(b) == domain,
    ensures
        ordered_below(blockers + optional_blocker(blocker), domain + 1),
{
    reveal(ordered_below);
}

/// The blockers of an evaluation stand in the stable order of their domains,
/// and no domain raises more than one.
pub proof fn law_blockers_have_a_stable_order(evaluation: ComputerUseSessionHealthEvaluation)
    ensures
        in_domain_order(blockers_of(evaluation)),
        blockers_of(evaluation).len() <= 6,
{
    let start = Seq::<ComputerUseSessionHealthBlocker>::empty();
    assert(ordered_below(start, 0)) by {
        reveal(ordered_below);
    }
    lemma_append_domain(start, domain_blocker(evaluation, 0), 0);
    let one = domain_blockers(evaluation, 0);
    assert(start + one =~= one);
    lemma_append_domain(one, domain_blocker(evaluation, 1), 1);
    let two = one + domain_blockers(evaluation, 1);
    lemma_append_domain(two, domain_blocker(evaluation, 2), 2);
    let three = two + domain_blockers(evaluation, 2);
    lemma_append_domain(three, domain_blocker(evaluation, 3), 3);
    let four = three + domain_blockers(evaluation, 3);
    lemma_append_domain(four, domain_blocker(evaluation, 4), 4);
    let five = four + domain_blockers(evaluation, 4);
    lemma_append_domain(five, domain_blocker(evaluation, 5), 5);
    assert(in_domain_order(blockers_of(evaluation)) && blockers_of(evaluation).len() <= 6) by {
        reveal(ordered_below);
    }
}

/// A recording never moves forward and backward at once in one value, and a
/// fingerprint compared with itself has stalled.
pub proof fn law_progress_is_unambiguous(
    a: ComputerUseRecordingProgressFingerprint,
    b: ComputerUseRecordingProgressFingerprint,
    before: Option<u64>,
    after: Option<u64>,
)
    ensures
        !(moved_forward(before, after) && moved_backward(before, after)),
        moved_forward(before, after) <==> moved_backward(after, before),
        progress_between(a, a) == ComputerUseRecordingProgressStatus::Stalled,
        progress_between(a, b) == ComputerUseRecordingProgressStatus::Advanced
            ==> progress_between(b, a) == ComputerUseRecordingProgressStatus::Regressed,
{
}

/// The health of a session tells what was evaluated, and that it promises nothing
/// beyond the preflight: nothing is activated or typed by itself, and a fresh look
/// is needed. Input is safe exactly where nothing stands in the way.
pub proof fn law_health_tells_what_was_evaluated(
    evaluation: ComputerUseSessionHealthEvaluation,
    r: ComputerUseSessionHealth,
)
    requires
        is_evaluated(evaluation, r),
    ensures
        r.safe_to_input <==> r.blockers@.len() == 0,
        r.policy == evaluation.policy,
        r.input_state == evaluation.input_state,
        r.target_state == evaluation.target_state,
        r.recording == evaluation.recording,
        r.transition_sequence == evaluation.transition_sequence,
        r.action_evidence_epoch@ == evaluation.action_evidence_epoch.token(),
        !r.automatic_activation,
        !r.automatic_input,
        r.fresh_observation_required,
        r.schema_version == 1,
        evaluation.interrupted ==> !r.safe_to_input,
        evaluation.state_changed_during_probe ==> !r.safe_to_input,
        evaluation.target_probe_failed ==> !r.safe_to_input,
        evaluation.input_state.status == ComputerUseInputStatus::Suspended ==> !r.safe_to_input,
        !evaluation.target_state.foreground ==> !r.safe_to_input,
        evaluation.target_state.minimized ==> !r.safe_to_input,
{
    law_safe_input_has_every_guarantee(evaluation);
}

/// A recording's health is that of its state, where it may be read: its status, its
/// issues and how far it came.
pub proof fn law_recording_health_tells_the_state(
    granted: bool,
    state: JsonTree,
    policy: ComputerUseSessionHealthPolicy,
    partial: Option<PartialRecordingFile>,
    r: ComputerUseRecordingHealth,
)
    requires
        recording_health_is_read(granted, state, policy, partial, r),
    ensures
        r.granted == granted,
        !granted ==> r.status == ComputerUseRecordingStatus::NotGranted && r.healthy is None
            && r.progress is None && r.issues@.len() == 0,
        granted ==> r.healthy == state.bool_at("healthy"@),
        granted && state.text_at("status"@) == Some("active"@) ==> r.status
            == ComputerUseRecordingStatus::Active,
        granted && state.text_at("status"@) == Some("paused"@) ==> r.status
            == ComputerUseRecordingStatus::Paused,
        granted && state.text_at("status"@) == Some("stopped"@) ==> r.status
            == ComputerUseRecordingStatus::Stopped,
        granted && state.text_at("status"@) == Some("degraded"@) ==> r.status
            == ComputerUseRecordingStatus::Degraded,
        granted && state.text_at("status"@) is None ==> r.status
            == ComputerUseRecordingStatus::Unavailable,
        (granted && r.progress is Some) ==> {
            let seen = r.progress->0;
            let video = state.get("video"@);
            &&& seen.lane == ComputerUseRecordingProgressLane::Video <==> video is Some && !(
            video->0 is Null)
            &&& (state.get("trajectory"@) matches Some(trajectory) && trajectory.get(
                "structuredContent"@,
            ) is None) ==> seen.trajectory_turn == state.get("trajectory"@)->0.u64_at("next_turn"@)
            &&& (state.get("trajectory"@) matches Some(trajectory) && trajectory.get(
                "structuredContent"@,
            ) is Some) ==> seen.trajectory_turn == state.get("trajectory"@)->0.get(
                "structuredContent"@,
            )->0.u64_at("next_turn"@)
            &&& partial is None ==> seen.current_partial_size_bytes is None
            &&& (seen.lane == ComputerUseRecordingProgressLane::Video && video->0.text_at(
                "current_partial"@,
            ) is Some && partial is Some) ==> seen.current_partial_size_bytes == Some(
                partial->0.size_bytes,
            ) && seen.current_partial_modified_at_unix_ms == partial->0.modified_at_unix_ms
        },
{
    reveal_strlit("active");
    reveal_strlit("paused");
    reveal_strlit("stopped");
    reveal_strlit("degraded");
    assert("active"@.len() == 6);
    assert("paused"@.len() == 6);
    assert("stopped"@.len() == 7);
    assert("degraded"@.len() == 8);
    assert("active"@[0] != "paused"@[0]);
}

/// The segments that count are those that were finalized.
pub proof fn law_only_finalized_segments_count(segments: Seq<JsonTree>, segment: JsonTree)
    ensures
        finalized_count(Seq::empty()) == 0,
        finalized_count(segments.push(segment)) == finalized_count(segments) + if segment.bool_at(
            "finalized"@,
        ) == Some(true) {
            1nat
        } else {
            0nat
        },
{
    assert(segments.push(segment).drop_last() =~= segments);
    assert(segments.push(segment).last() == segment);
}

/// Progress is judged within one lane: what came further advanced, what fell back
/// regressed, and what stayed stalled; another lane needs a new baseline, and
/// without a demand nothing is judged.
pub proof fn law_progress_is_judged_in_its_lane(
    policy: ComputerUseSessionHealthPolicy,
    previous: ComputerUseRecordingProgressFingerprint,
    current: ComputerUseRecordingProgressFingerprint,
)
    ensures
        current.lane != previous.lane ==> progress_between(previous, current)
            == ComputerUseRecordingProgressStatus::BaselineRequired,
        current.lane == previous.lane && current.lane
            == ComputerUseRecordingProgressLane::Trajectory && (
        previous.trajectory_turn matches Some(before) && current.trajectory_turn matches Some(after)
            && after > before) ==> progress_between(previous, current)
            == ComputerUseRecordingProgressStatus::Advanced,
        current.lane == previous.lane && current.lane
            == ComputerUseRecordingProgressLane::Trajectory && (
        previous.trajectory_turn matches Some(before) && current.trajectory_turn matches Some(after)
            && after < before) ==> progress_between(previous, current)
            == ComputerUseRecordingProgressStatus::Regressed,
        current.lane == previous.lane && current.lane == ComputerUseRecordingProgressLane::Video
            && current.finalized_segments > previous.finalized_segments ==> progress_between(
            previous,
            current,
        ) == ComputerUseRecordingProgressStatus::Advanced,
        current.lane == previous.lane && current.lane == ComputerUseRecordingProgressLane::Video
            && current.finalized_segments < previous.finalized_segments ==> progress_between(
            previous,
            current,
        ) == ComputerUseRecordingProgressStatus::Regressed,
        current == previous ==> progress_between(previous, current)
            == ComputerUseRecordingProgressStatus::Stalled,
        !policy.require_recording_progress ==> progress_status_under(policy, Some(current))
            == ComputerUseRecordingProgressStatus::NotRequested,
        policy.require_recording_progress && policy.previous_recording_progress is None
            ==> progress_status_under(policy, Some(current))
            == ComputerUseRecordingProgressStatus::BaselineRequired,
        policy.require_recording_progress && policy.previous_recording_progress == Some(previous)
            ==> progress_status_under(policy, Some(current)) == progress_between(previous, current),
        policy.require_recording_progress ==> progress_status_under(policy, None)
            == ComputerUseRecordingProgressStatus::Unavailable,
{
}

} // verus!
