//! Recording evidence: lease health, terminal video proof, and the aggregate
//! state that callers read.

use crate::errors::{ComputerUseError, ComputerUseErrorCode, ComputerUseResult};
#[allow(unused_imports)]
use crate::errors::fails_with;
use crate::json::{put_member, Json, JsonMember};
#[allow(unused_imports)]
use crate::json::{
    array_tree, lemma_array_tree, object_tree, optional_tree, JsonTree,
};
#[allow(unused_imports)]
use crate::sensitive_target_policy::texts;
use crate::text::{text_eq, text_is_before};
#[allow(unused_imports)]
use crate::text::{lemma_text_before_total, lemma_text_before_transitive, text_before};
use vstd::prelude::*;

verus! {

/// Proof that a video recording was finalized.
#[derive(Debug)]
pub struct RecordingVideoTerminalEvidence {
    pub final_state: Json,
}

/// The state shows a recording that ended and was finalized.
pub open spec fn is_finalized(state: JsonTree) -> bool {
    state.bool_at("active"@) == Some(false) && state.bool_at("finalized"@) == Some(true)
}

impl RecordingVideoTerminalEvidence {
    pub fn try_from_finalized(state: Json) -> (r: ComputerUseResult<Self>)
        ensures
            is_finalized(state.view()) ==> (r matches Ok(evidence) && evidence.final_state == state),
            !is_finalized(state.view()) ==> fails_with(
                r,
                ComputerUseErrorCode::CaptureFailed,
                "showcase stop did not return finalized terminal video evidence"@,
            ),
    {
        let inactive = match state.bool_at("active") {
            Some(active) => !active,
            None => false,
        };
        let finalized = match state.bool_at("finalized") {
            Some(finalized) => finalized,
            None => false,
        };
        if !inactive || !finalized {
            return Err(
                ComputerUseError::new(
                    ComputerUseErrorCode::CaptureFailed,
                    "showcase stop did not return finalized terminal video evidence",
                ),
            );
        }
        Ok(RecordingVideoTerminalEvidence { final_state: state })
    }

    pub fn state(&self) -> (r: &Json)
        ensures
            *r == self.final_state,
    {
        &self.final_state
    }
}

#[derive(Clone, Copy, Debug, PartialEq, Eq, Structural)]
pub enum RecordingIssue {
    TrajectoryLeaseLost,
    OwnerMismatch,
    VideoStopped,
}

impl RecordingIssue {
    pub open spec fn name_text(self) -> Seq<char> {
        match self {
            RecordingIssue::TrajectoryLeaseLost => "trajectory_lease_lost"@,
            RecordingIssue::OwnerMismatch => "owner_mismatch"@,
            RecordingIssue::VideoStopped => "video_stopped"@,
        }
    }

    pub fn as_str(self) -> (r: &'static str)
        ensures
            r@ == self.name_text(),
    {
        match self {
            RecordingIssue::TrajectoryLeaseLost => "trajectory_lease_lost",
            RecordingIssue::OwnerMismatch => "owner_mismatch",
            RecordingIssue::VideoStopped => "video_stopped",
        }
    }
}

/// The health of one recording: its owner and the issues seen so far. An
/// issue, once seen, stays.
#[derive(Debug)]
pub struct RecordingHealth {
    pub expected_owner: String,
    pub lease_lost: bool,
    pub owner_mismatch: bool,
    pub video_stopped: bool,
}

/// The trajectory's structured content, or the trajectory itself.
pub open spec fn structured(trajectory: JsonTree) -> JsonTree {
    match trajectory.get("structuredContent"@) {
        Some(content) => content,
        None => trajectory,
    }
}

/// The trajectory is being recorded.
pub open spec fn lease_enabled(trajectory: JsonTree) -> bool {
    structured(trajectory).bool_at("enabled"@) == Some(true)
}

/// The trajectory is recorded for the given owner.
pub open spec fn lease_owned(trajectory: JsonTree, owner: Seq<char>) -> bool {
    structured(trajectory).text_at("owner"@) == Some(owner)
}

/// The video is being recorded.
pub open spec fn video_active(video: Option<JsonTree>) -> bool {
    video matches Some(state) && state.bool_at("active"@) == Some(true)
}

/// The video recording is on hold.
pub open spec fn video_on_hold(video: Option<JsonTree>) -> bool {
    video matches Some(state) && state.bool_at("paused"@) == Some(true)
}

fn flag_set(state: Option<&Json>, name: &str) -> (r: bool)
    ensures
        r == (optional_tree(state) matches Some(tree) && tree.bool_at(name@) == Some(true)),
{
    match state {
        Some(state) => match state.bool_at(name) {
            Some(value) => value,
            None => false,
        },
        None => false,
    }
}

impl RecordingHealth {
    pub fn new(expected_owner: &str) -> (r: Self)
        ensures
            r.expected_owner@ == expected_owner@,
            !r.lease_lost,
            !r.owner_mismatch,
            !r.video_stopped,
    {
        RecordingHealth {
            expected_owner: expected_owner.to_owned(),
            lease_lost: false,
            owner_mismatch: false,
            video_stopped: false,
        }
    }

    /// Takes a trajectory report in, and says whether the lease still holds.
    pub fn observe_trajectory(&mut self, trajectory: &Json) -> (r: bool)
        ensures
            r == (lease_enabled(trajectory.view()) && lease_owned(
                trajectory.view(),
                old(self).expected_owner@,
            )),
            final(self).expected_owner == old(self).expected_owner,
            final(self).lease_lost == (old(self).lease_lost || !lease_enabled(trajectory.view())),
            final(self).owner_mismatch == (old(self).owner_mismatch || !lease_owned(
                trajectory.view(),
                old(self).expected_owner@,
            )),
            final(self).video_stopped == old(self).video_stopped,
    {
        let content = match trajectory.get("structuredContent") {
            Some(content) => content,
            None => trajectory,
        };
        let enabled = match content.bool_at("enabled") {
            Some(enabled) => enabled,
            None => false,
        };
        let owned = match content.text_at("owner") {
            Some(owner) => text_eq(owner, self.expected_owner.as_str()),
            None => false,
        };
        if !enabled {
            self.lease_lost = true;
        }
        if !owned {
            self.owner_mismatch = true;
        }
        enabled && owned
    }

    /// Takes a video report in. Only an expected video can be missed.
    pub fn observe_video(&mut self, video: Option<&Json>, expected: bool)
        ensures
            final(self).expected_owner == old(self).expected_owner,
            final(self).lease_lost == old(self).lease_lost,
            final(self).owner_mismatch == old(self).owner_mismatch,
            final(self).video_stopped == (old(self).video_stopped || (expected && !video_active(
                optional_tree(video),
            ))),
    {
        if expected && !flag_set(video, "active") {
            self.video_stopped = true;
        }
    }

    /// The issue was seen.
    pub open spec fn has(self, issue: RecordingIssue) -> bool {
        match issue {
            RecordingIssue::TrajectoryLeaseLost => self.lease_lost,
            RecordingIssue::OwnerMismatch => self.owner_mismatch,
            RecordingIssue::VideoStopped => self.video_stopped,
        }
    }

    /// The names of the issues seen, in their fixed order.
    pub open spec fn issue_texts(self) -> Seq<Seq<char>> {
        name_if(self, RecordingIssue::TrajectoryLeaseLost) + name_if(
            self,
            RecordingIssue::OwnerMismatch,
        ) + name_if(self, RecordingIssue::VideoStopped)
    }

    pub fn issue_names(&self) -> (r: Vec<&'static str>)
        ensures
            texts(r@) == self.issue_texts(),
    {
        let mut names: Vec<&'static str> = Vec::new();
        if self.lease_lost {
            names.push(RecordingIssue::TrajectoryLeaseLost.as_str());
        }
        if self.owner_mismatch {
            names.push(RecordingIssue::OwnerMismatch.as_str());
        }
        if self.video_stopped {
            names.push(RecordingIssue::VideoStopped.as_str());
        }
        assert(texts(names@) =~= self.issue_texts());
        names
    }
}

/// An issue's name where it was seen.
pub open spec fn name_if(health: RecordingHealth, issue: RecordingIssue) -> Seq<Seq<char>> {
    if health.has(issue) {
        seq![issue.name_text()]
    } else {
        Seq::empty()
    }
}

/// What a look at a recording shows.
pub open spec fn recording_is_watched(before: RecordingHealth, probe: ComputerUseResult<Json>, after: RecordingHealth, r: bool) -> bool {
    match probe {
        Err(_) => r && after == before,
        Ok(trajectory) => {
            &&& r == (lease_enabled(trajectory.view()) && lease_owned(
                trajectory.view(),
                before.expected_owner@,
            ))
            &&& after.expected_owner == before.expected_owner
            &&& after.lease_lost == (before.lease_lost || !lease_enabled(
                trajectory.view(),
            ))
            &&& after.owner_mismatch == (before.owner_mismatch || !lease_owned(
                trajectory.view(),
                before.expected_owner@,
            ))
            &&& after.video_stopped == before.video_stopped
        },
    }
}

/// Whether the keepalive of a recording goes on after a probe. A failed probe
/// says nothing about the lease.
pub fn keepalive_continues(health: &mut RecordingHealth, probe: ComputerUseResult<Json>) -> (r:
    bool)
    ensures
        recording_is_watched(*old(health), probe, *final(health), r),
{
    match probe {
        Ok(trajectory) => health.observe_trajectory(&trajectory),
        Err(_) => true,
    }
}

/// The texts stand in ascending order, each once.
pub open spec fn ascending(list: Seq<Seq<char>>) -> bool {
    forall|i: int, j: int|
        0 <= i < j < list.len() ==> text_before(#[trigger] list[i], #[trigger] list[j])
}

fn insert_sorted<'a>(list: &mut Vec<&'a str>, text: &'a str)
    requires
        ascending(texts(old(list)@)),
    ensures
        ascending(texts(final(list)@)),
        forall|t: Seq<char>| #[trigger]
            texts(final(list)@).contains(t) <==> texts(old(list)@).contains(t) || t == text@,
{
    let mut at: usize = 0;
    while at < list.len() && text_is_before(list[at], text)
        invariant
            at <= list.len(),
            list@ == old(list)@,
            forall|k: int|
                0 <= k < at ==> text_before(#[trigger] texts(list@)[k], text@),
        decreases list.len() - at,
    {
        at = at + 1;
    }
    let ghost before = texts(old(list)@);
    if at < list.len() && text_eq(list[at], text) {
        assert(before[at as int] == text@);
        return;
    }
    list.insert(at, text);
    let ghost after = texts(list@);
    proof {
        assert(after =~= before.insert(at as int, text@));
        assert forall|i: int, j: int| 0 <= i < j < after.len() implies text_before(
            #[trigger] after[i],
            #[trigger] after[j],
        ) by {
            if j < at {
                assert(text_before(before[i], before[j]));
            } else if i < at && j == at {
                assert(text_before(before[i], text@));
            } else if i < at {
                assert(text_before(before[i], before[j - 1]));
            } else if i == at {
                lemma_text_before_total(before[at as int], text@);
                assert(text_before(text@, before[at as int]));
                if j > at + 1 {
                    assert(text_before(before[at as int], before[j - 1]));
                    lemma_text_before_transitive(text@, before[at as int], before[j - 1]);
                }
            } else {
                assert(text_before(before[i - 1], before[j - 1]));
            }
        }
        assert forall|t: Seq<char>| #[trigger] after.contains(t) <==> before.contains(t) || t
            == text@ by {
            if after.contains(t) {
                let i = choose|i: int| 0 <= i < after.len() && after[i] == t;
                if i < at {
                    assert(before[i] == t);
                } else if i > at {
                    assert(before[i - 1] == t);
                }
            }
            if before.contains(t) {
                let i = choose|i: int| 0 <= i < before.len() && before[i] == t;
                if i < at {
                    assert(after[i] == t);
                } else {
                    assert(after[i + 1] == t);
                }
            }
            if t == text@ {
                assert(after[at as int] == t);
            }
        }
    }
}

/// The list holds exactly the given issues and, where the video is on hold,
/// that too, in ascending order and each once.
pub open spec fn projects(
    projected: Seq<Seq<char>>,
    issues: Seq<Seq<char>>,
    video_paused: bool,
) -> bool {
    &&& ascending(projected)
    &&& forall|t: Seq<char>| #[trigger]
        projected.contains(t) <==> issues.contains(t) || (video_paused && t == "video_paused"@)
}

/// The issues that callers see: those found, and a video on hold.
pub fn project_issues<'a>(issues: &Vec<&'a str>, video_paused: bool) -> (r: Vec<&'a str>)
    ensures
        projects(texts(r@), texts(issues@), video_paused),
{
    let mut projected: Vec<&'a str> = Vec::new();
    let mut i: usize = 0;
    while i < issues.len()
        invariant
            i <= issues.len(),
            ascending(texts(projected@)),
            forall|t: Seq<char>| #[trigger]
                texts(projected@).contains(t) <==> texts(issues@).take(i as int).contains(t),
        decreases issues.len() - i,
    {
        let ghost before = texts(projected@);
        let ghost seen = texts(issues@).take(i as int);
        insert_sorted(&mut projected, issues[i]);
        proof {
            let next = texts(issues@).take(i + 1);
            assert(next =~= seen.push(issues@[i as int]@));
            assert forall|t: Seq<char>| #[trigger]
                texts(projected@).contains(t) <==> next.contains(t) by {
                assert(texts(projected@).contains(t) <==> before.contains(t) || t
                    == issues@[i as int]@);
                assert(before.contains(t) <==> seen.contains(t));
                if seen.contains(t) {
                    let k = choose|k: int| 0 <= k < seen.len() && seen[k] == t;
                    assert(next[k] == t);
                }
                if t == issues@[i as int]@ {
                    assert(next[i as int] == t);
                }
                if next.contains(t) {
                    let k = choose|k: int| 0 <= k < next.len() && next[k] == t;
                    if k < i {
                        assert(seen[k] == t);
                    }
                }
            }
        }
        i = i + 1;
    }
    assert(texts(issues@).take(issues@.len() as int) =~= texts(issues@));
    if video_paused {
        insert_sorted(&mut projected, "video_paused");
    }
    projected
}

/// An expected video of a running recording is on hold.
pub open spec fn is_video_paused(
    recording_active: bool,
    expected_video: bool,
    video: Option<JsonTree>,
) -> bool {
    recording_active && expected_video && video_active(video) && video_on_hold(video)
}

/// The status of a recording. Issues outweigh a video on hold.
pub open spec fn aggregate_status(
    recording_active: bool,
    issues: Seq<Seq<char>>,
    video_paused: bool,
) -> Seq<char> {
    if !recording_active {
        "stopped"@
    } else if issues.len() > 0 {
        "degraded"@
    } else if video_paused {
        "paused"@
    } else {
        "active"@
    }
}

/// A list of texts as JSON.
pub open spec fn texts_tree(list: Seq<Seq<char>>) -> JsonTree {
    JsonTree::Array(Seq::new(list.len(), |i: int| JsonTree::Text(list[i])))
}

/// The aggregate state, given the projected issues.
pub open spec fn aggregate_members(
    recording_active: bool,
    expected_video: bool,
    trajectory: JsonTree,
    video: Option<JsonTree>,
    issues: Seq<Seq<char>>,
    projected: Seq<Seq<char>>,
) -> Map<Seq<char>, JsonTree> {
    Map::<Seq<char>, JsonTree>::empty().insert(
        "status"@,
        JsonTree::Text(
            aggregate_status(
                recording_active,
                issues,
                is_video_paused(recording_active, expected_video, video),
            ),
        ),
    ).insert("healthy"@, JsonTree::Bool(projected.len() == 0)).insert(
        "expected_components"@,
        texts_tree(
            if expected_video {
                seq!["trajectory"@, "video"@]
            } else {
                seq!["trajectory"@]
            },
        ),
    ).insert("issues"@, texts_tree(projected)).insert("trajectory"@, trajectory).insert(
        "video"@,
        match video {
            Some(state) => state,
            None => JsonTree::Null,
        },
    )
}

pub fn texts_json(list: &Vec<&str>) -> (r: Json)
    ensures
        r.view() == texts_tree(texts(list@)),
{
    let mut items: Vec<Json> = Vec::new();
    let mut i: usize = 0;
    while i < list.len()
        invariant
            i <= list.len(),
            items.len() == i,
            forall|k: int| 0 <= k < i ==> (#[trigger] items@[k]).view() == JsonTree::Text(list@[k]@),
        decreases list.len() - i,
    {
        items.push(Json::text(list[i]));
        i = i + 1;
    }
    proof {
        lemma_array_tree(items@);
        assert(array_tree(items@) =~= texts_tree(texts(list@))->Array_0);
    }
    Json::Array(items)
}

pub fn aggregate_recording_state(
    recording_active: bool,
    expected_video: bool,
    trajectory: &Json,
    video: Option<&Json>,
    issues: &Vec<&str>,
) -> (r: Json)
    ensures
        exists|projected: Seq<Seq<char>>|
            {
                &&& #[trigger] projects(
                    projected,
                    texts(issues@),
                    is_video_paused(recording_active, expected_video, optional_tree(video)),
                )
                &&& r.view() == JsonTree::Object(
                    aggregate_members(
                        recording_active,
                        expected_video,
                        trajectory.view(),
                        optional_tree(video),
                        texts(issues@),
                        projected,
                    ),
                )
            },
{
    let video_paused = recording_active && expected_video && flag_set(video, "active") && flag_set(
        video,
        "paused",
    );
    let projected = project_issues(issues, video_paused);
    let status = if !recording_active {
        "stopped"
    } else if issues.len() > 0 {
        "degraded"
    } else if video_paused {
        "paused"
    } else {
        "active"
    };
    let mut expected: Vec<&str> = Vec::new();
    expected.push("trajectory");
    if expected_video {
        expected.push("video");
        assert(texts(expected@) =~= seq!["trajectory"@, "video"@]);
    } else {
        assert(texts(expected@) =~= seq!["trajectory"@]);
    }
    let mut members: Vec<JsonMember> = Vec::new();
    put_member(&mut members, "status", Json::text(status));
    put_member(&mut members, "healthy", Json::Bool(projected.len() == 0));
    put_member(&mut members, "expected_components", texts_json(&expected));
    put_member(&mut members, "issues", texts_json(&projected));
    put_member(&mut members, "trajectory", trajectory.clone());
    let video_json = match video {
        Some(state) => state.clone(),
        None => Json::Null,
    };
    put_member(&mut members, "video", video_json);
    assert(object_tree(members@) =~= aggregate_members(
        recording_active,
        expected_video,
        trajectory.view(),
        optional_tree(video),
        texts(issues@),
        texts(projected@),
    ));
    Json::Object(members)
}

/// The projected issues are determined by the issues: two ascending lists of
/// the same texts are the same list.
pub proof fn law_projection_is_unique(
    a: Seq<Seq<char>>,
    b: Seq<Seq<char>>,
    issues: Seq<Seq<char>>,
    video_paused: bool,
)
    requires
        projects(a, issues, video_paused),
        projects(b, issues, video_paused),
    ensures
        a == b,
    decreases a.len(),
{
    lemma_ascending_lists_agree(a, b);
}

proof fn lemma_ascending_lists_agree(a: Seq<Seq<char>>, b: Seq<Seq<char>>)
    requires
        ascending(a),
        ascending(b),
        forall|t: Seq<char>| #[trigger] a.contains(t) <==> b.contains(t),
    ensures
        a == b,
    decreases a.len(),
{
    if a.len() == 0 {
        if b.len() > 0 {
            assert(b.contains(b[0]));
            assert(a.contains(b[0]));
        }
        assert(a =~= b);
    } else {
        assert(a.contains(a[0]));
        assert(b.contains(a[0]));
        let k = choose|k: int| 0 <= k < b.len() && b[k] == a[0];
        assert(b.contains(b[0]));
        assert(a.contains(b[0]));
        let m = choose|m: int| 0 <= m < a.len() && a[m] == b[0];
        if k > 0 {
            assert(text_before(b[0], b[k]));
            if m > 0 {
                assert(text_before(a[0], a[m]));
                lemma_text_before_transitive(a[0], b[0], a[0]);
            }
            lemma_text_before_total(a[0], a[0]);
        }
        assert(a[0] == b[0]);
        let x = a.drop_first();
        let y = b.drop_first();
        assert forall|i: int, j: int| 0 <= i < j < x.len() implies text_before(
            #[trigger] x[i],
            #[trigger] x[j],
        ) by {
            assert(text_before(a[i + 1], a[j + 1]));
        }
        assert forall|i: int, j: int| 0 <= i < j < y.len() implies text_before(
            #[trigger] y[i],
            #[trigger] y[j],
        ) by {
            assert(text_before(b[i + 1], b[j + 1]));
        }
        assert forall|t: Seq<char>| #[trigger] x.contains(t) <==> y.contains(t) by {
            lemma_text_before_total(a[0], a[0]);
            if x.contains(t) {
                let i = choose|i: int| 0 <= i < x.len() && x[i] == t;
                assert(a[i + 1] == t);
                assert(text_before(a[0], a[i + 1]));
                assert(a.contains(t));
                assert(b.contains(t));
                let j = choose|j: int| 0 <= j < b.len() && b[j] == t;
                assert(j > 0);
                assert(y[j - 1] == t);
            }
            if y.contains(t) {
                let i = choose|i: int| 0 <= i < y.len() && y[i] == t;
                assert(b[i + 1] == t);
                assert(text_before(b[0], b[i + 1]));
                assert(b.contains(t));
                assert(a.contains(t));
                let j = choose|j: int| 0 <= j < a.len() && a[j] == t;
                assert(j > 0);
                assert(x[j - 1] == t);
            }
        }
        lemma_ascending_lists_agree(x, y);
        assert(a =~= seq![a[0]] + x);
        assert(b =~= seq![b[0]] + y);
    }
}

/// A lease holds where the report, or the structured content that it comes with,
/// says that the trajectory is on and names the owner.
pub proof fn law_leases_are_read_from_the_content(
    trajectory: JsonTree,
    content: JsonTree,
    owner: Seq<char>,
)
    requires
        trajectory.get("structuredContent"@) == Some(content) || (trajectory.get(
            "structuredContent"@,
        ) is None && content == trajectory),
    ensures
        lease_enabled(trajectory) <==> content.get("enabled"@) == Some(JsonTree::Bool(true)),
        lease_owned(trajectory, owner) <==> content.get("owner"@) == Some(JsonTree::Text(owner)),
{
}

/// A video is finalized where it is known to be off and known to be finalized.
pub proof fn law_finalized_videos_are_off(state: JsonTree)
    ensures
        is_finalized(state) <==> state.get("active"@) == Some(JsonTree::Bool(false)) && state.get(
            "finalized"@,
        ) == Some(JsonTree::Bool(true)),
        is_finalized(state) ==> !video_active(Some(state)),
{
}

/// The issues of a recording are those seen, each once and under its own name.
pub proof fn law_issues_are_those_seen(health: RecordingHealth)
    ensures
        health.issue_texts().contains("trajectory_lease_lost"@) <==> health.lease_lost,
        health.issue_texts().contains("owner_mismatch"@) <==> health.owner_mismatch,
        health.issue_texts().contains("video_stopped"@) <==> health.video_stopped,
        health.issue_texts().len() == (if health.lease_lost {
            1int
        } else {
            0
        }) + (if health.owner_mismatch {
            1int
        } else {
            0
        }) + (if health.video_stopped {
            1int
        } else {
            0
        }),
{
    reveal_strlit("trajectory_lease_lost");
    reveal_strlit("owner_mismatch");
    reveal_strlit("video_stopped");
    assert("trajectory_lease_lost"@.len() == 21);
    assert("owner_mismatch"@.len() == 14);
    assert("video_stopped"@.len() == 13);
    let issues = health.issue_texts();
    if health.lease_lost {
        assert(issues[0] == "trajectory_lease_lost"@);
    }
    if health.owner_mismatch {
        let at: int = if health.lease_lost {
            1
        } else {
            0
        };
        assert(issues[at] == "owner_mismatch"@);
    }
    if health.video_stopped {
        assert(issues[issues.len() - 1] == "video_stopped"@);
    }
}

/// What callers read of a recording: it is stopped where none runs, degraded
/// where an issue was seen, on hold where only the video is, and else active. It
/// is healthy exactly where no issue is shown, and shows the trajectory and the
/// video as they were reported.
pub proof fn law_aggregates_tell_what_was_seen(
    recording_active: bool,
    expected_video: bool,
    trajectory: JsonTree,
    video: Option<JsonTree>,
    issues: Seq<Seq<char>>,
    projected: Seq<Seq<char>>,
)
    requires
        projects(projected, issues, is_video_paused(recording_active, expected_video, video)),
    ensures
        ({
            let state = JsonTree::Object(
                aggregate_members(
                    recording_active,
                    expected_video,
                    trajectory,
                    video,
                    issues,
                    projected,
                ),
            );
            let held = video matches Some(video) && video.get("active"@) == Some(
                JsonTree::Bool(true),
            ) && video.get("paused"@) == Some(JsonTree::Bool(true));
            &&& state.text_at("status"@) == Some("stopped"@) <==> !recording_active
            &&& state.text_at("status"@) == Some("degraded"@) <==> recording_active && issues.len()
                > 0
            &&& state.text_at("status"@) == Some("paused"@) <==> recording_active && issues.len()
                == 0 && expected_video && held
            &&& state.text_at("status"@) == Some("active"@) <==> recording_active && issues.len()
                == 0 && !(expected_video && held)
            &&& state.bool_at("healthy"@) == Some(
                issues.len() == 0 && !(recording_active && expected_video && held),
            )
            &&& state.get("trajectory"@) == Some(trajectory)
            &&& state.get("video"@) == Some(
                match video {
                    Some(video) => video,
                    None => JsonTree::Null,
                },
            )
            &&& state.get("issues"@) matches Some(JsonTree::Array(shown)) && forall|t: Seq<char>|
                issues.contains(t) ==> #[trigger] shown.contains(JsonTree::Text(t))
            &&& state.get("expected_components"@) matches Some(JsonTree::Array(parts)) && parts[0]
                == JsonTree::Text("trajectory"@) && parts.len() == (if expected_video {
                2nat
            } else {
                1nat
            }) && (expected_video ==> parts[1] == JsonTree::Text("video"@))
        }),
{
    reveal_strlit("status");
    reveal_strlit("healthy");
    reveal_strlit("expected_components");
    reveal_strlit("issues");
    reveal_strlit("trajectory");
    reveal_strlit("video");
    assert("status"@.len() == 6);
    assert("healthy"@.len() == 7);
    assert("expected_components"@.len() == 19);
    assert("issues"@.len() == 6);
    assert("trajectory"@.len() == 10);
    assert("video"@.len() == 5);
    assert("status"@[0] != "issues"@[0]);
    reveal_strlit("stopped");
    reveal_strlit("degraded");
    reveal_strlit("paused");
    reveal_strlit("active");
    assert("stopped"@.len() == 7);
    assert("degraded"@.len() == 8);
    assert("paused"@.len() == 6);
    assert("active"@.len() == 6);
    assert("paused"@[0] != "active"@[0]);
    let held = is_video_paused(recording_active, expected_video, video);
    if issues.len() > 0 {
        assert(issues.contains(issues[0]));
        assert(projected.contains(issues[0]));
    }
    if held {
        assert(projected.contains("video_paused"@));
    }
    if projected.len() > 0 {
        assert(projected.contains(projected[0]));
    }
    let shown = texts_tree(projected)->Array_0;
    assert forall|t: Seq<char>| issues.contains(t) implies #[trigger] shown.contains(
        JsonTree::Text(t),
    ) by {
        assert(projected.contains(t));
        let k = choose|k: int| 0 <= k < projected.len() && projected[k] == t;
        assert(shown[k] == JsonTree::Text(t));
    }
}

/// A recording that is watched goes on as long as its trajectory is recorded and for
/// its own session; whatever once was lost stays lost.
pub proof fn law_watched_recordings_go_on(
    health: RecordingHealth,
    probe: ComputerUseResult<Json>,
    after: RecordingHealth,
    r: bool,
)
    requires
        recording_is_watched(health, probe, after, r),
    ensures
        probe is Err ==> r && after == health,
        probe matches Ok(trajectory) ==> r == (structured(trajectory.view()).bool_at("enabled"@)
            == Some(true) && structured(trajectory.view()).text_at("owner"@) == Some(
            health.expected_owner@,
        )),
        after.expected_owner == health.expected_owner,
        after.video_stopped == health.video_stopped,
        health.lease_lost ==> after.lease_lost,
        health.owner_mismatch ==> after.owner_mismatch,
        (probe is Ok && structured(probe->Ok_0.view()).bool_at("enabled"@) != Some(true))
            ==> after.lease_lost,
        (probe is Ok && structured(probe->Ok_0.view()).text_at("owner"@) != Some(
            health.expected_owner@,
        )) ==> after.owner_mismatch,
        r && !health.lease_lost && !health.owner_mismatch ==> !after.lease_lost
            && !after.owner_mismatch,
{
}

} // verus!
