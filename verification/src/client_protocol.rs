//! What a client of the Host checks of requests and responses.

use crate::json::{
    duplicate_members, members_of, put_member, Json, JsonMember,
};
#[allow(unused_imports)]
use crate::json::{array_tree, lemma_array_tree, optional_text, JsonTree};
use crate::text::{decimal_text, join2, join3, text_eq};
#[allow(unused_imports)]
use crate::text::decimal;
use vstd::prelude::*;
use vstd::string::*;

verus! {

/// Why a Host request failed.
#[derive(Debug)]
pub enum HostClientError {
    /// The transport failed.
    Io(String),
    /// The Host or the caller broke the protocol.
    Protocol(String),
    /// The request did not come back in time.
    Timeout { timeout_ms: u64 },
    /// The Host refused the request.
    Remote { code: String, message: String, response: Json },
}

pub type HostClientResult<T> = Result<T, HostClientError>;

impl HostClientError {
    pub open spec fn display(self) -> Seq<char> {
        match self {
            HostClientError::Io(message) => "host transport failed: "@ + message@,
            HostClientError::Protocol(message) => "host protocol failed: "@ + message@,
            HostClientError::Timeout { timeout_ms } => "host request timed out after "@ + decimal(
                timeout_ms as nat,
            ) + " ms; reconnect before sending another request"@,
            HostClientError::Remote { code, message, .. } => "host returned "@ + code@ + ": "@
                + message@,
        }
    }

    pub fn display_text(&self) -> (r: String)
        ensures
            r@ == self.display(),
    {
        match self {
            HostClientError::Io(message) => join2("host transport failed: ", message.as_str()),
            HostClientError::Protocol(message) => join2(
                "host protocol failed: ",
                message.as_str(),
            ),
            HostClientError::Timeout { timeout_ms } => join3(
                "host request timed out after ",
                decimal_text(*timeout_ms).as_str(),
                " ms; reconnect before sending another request",
            ),
            HostClientError::Remote { code, message, .. } => {
                let mut text = join3("host returned ", code.as_str(), ": ");
                text.append(message.as_str());
                text
            },
        }
    }
}

/// The result is this breach of the protocol.
pub open spec fn breaks<T>(result: HostClientResult<T>, message: Seq<char>) -> bool {
    result matches Err(HostClientError::Protocol(text)) && text@ == message
}

/// A breach of the protocol.
pub fn breach(message: &str) -> (r: HostClientError)
    ensures
        r matches HostClientError::Protocol(text) && text@ == message@,
{
    HostClientError::Protocol(message.to_owned())
}

/// What the Host answered to a request.
#[derive(Debug)]
pub struct HostResponse {
    pub value: Json,
    pub binary_attachment: Option<Vec<u8>>,
}

/// A response that was read, with the request it answers.
#[derive(Debug)]
pub struct ReceivedResponse {
    pub request_id: String,
    pub value: Json,
    pub binary_attachment: Option<Vec<u8>>,
}

/// What is returned of a response: a Host error becomes an error of its own.
pub open spec fn is_response_result(
    received: ReceivedResponse,
    result: HostClientResult<HostResponse>,
) -> bool {
    if received.value.view().text_at("type"@) == Some("error"@) {
        &&& result matches Err(HostClientError::Remote { code, message, response })
        &&& code@ == match received.value.view().text_at("code"@) {
            Some(text) => text,
            None => "host_error"@,
        }
        &&& message@ == match received.value.view().text_at("message"@) {
            Some(text) => text,
            None => "Host returned an error"@,
        }
        &&& response == received.value
    } else {
        result == Ok::<HostResponse, HostClientError>(
            HostResponse {
                value: received.value,
                binary_attachment: received.binary_attachment,
            },
        )
    }
}

fn text_is(found: Option<&str>, expected: &str) -> (r: bool)
    ensures
        r == (optional_text(found) == Some(expected@)),
{
    match found {
        Some(text) => text_eq(text, expected),
        None => false,
    }
}

fn text_or(found: Option<&str>, otherwise: &str) -> (r: String)
    ensures
        r@ == match optional_text(found) {
            Some(text) => text,
            None => otherwise@,
        },
{
    match found {
        Some(text) => text.to_owned(),
        None => otherwise.to_owned(),
    }
}

impl ReceivedResponse {
    pub fn into_result(self) -> (r: HostClientResult<HostResponse>)
        ensures
            is_response_result(self, r),
    {
        if text_is(self.value.text_at("type"), "error") {
            let code = text_or(self.value.text_at("code"), "host_error");
            let message = text_or(self.value.text_at("message"), "Host returned an error");
            return Err(HostClientError::Remote { code, message, response: self.value });
        }
        Ok(HostResponse { value: self.value, binary_attachment: self.binary_attachment })
    }
}

/// How snapshots travel.
#[derive(Debug, Clone, Copy, PartialEq, Eq, Structural)]
pub enum SnapshotTransport {
    BinaryFrame,
    SharedMemory,
}

impl SnapshotTransport {
    pub open spec fn wire_text(self) -> Seq<char> {
        match self {
            SnapshotTransport::BinaryFrame => "binary_frame"@,
            SnapshotTransport::SharedMemory => "shared_memory"@,
        }
    }

    pub fn as_wire_name(self) -> (r: &'static str)
        ensures
            r@ == self.wire_text(),
    {
        match self {
            SnapshotTransport::BinaryFrame => "binary_frame",
            SnapshotTransport::SharedMemory => "shared_memory",
        }
    }
}

/// The member may be sent with this credential: it is absent or the same.
pub open spec fn agrees(
    members: Map<Seq<char>, JsonTree>,
    name: Seq<char>,
    expected: Seq<char>,
) -> bool {
    members.dom().contains(name) ==> members[name] == JsonTree::Text(expected)
}

/// The members with a credential that agrees.
pub open spec fn bound_member(
    members: Map<Seq<char>, JsonTree>,
    name: Seq<char>,
    expected: Seq<char>,
) -> Map<Seq<char>, JsonTree> {
    if members.dom().contains(name) {
        members
    } else {
        members.insert(name, JsonTree::Text(expected))
    }
}

/// The parameters of a request with the credentials of its task.
pub open spec fn bound_params(
    members: Map<Seq<char>, JsonTree>,
    session_id: Seq<char>,
    task_grant_id: Seq<char>,
    window_capability: Seq<char>,
) -> Map<Seq<char>, JsonTree> {
    bound_member(
        bound_member(
            bound_member(members, "session_id"@, session_id),
            "task_grant_id"@,
            task_grant_id,
        ),
        "window_capability"@,
        window_capability,
    )
}

/// What is returned of parameters that are bound to a task.
pub open spec fn is_binding(
    params: JsonTree,
    session_id: Seq<char>,
    task_grant_id: Seq<char>,
    window_capability: Seq<char>,
    result: HostClientResult<Json>,
) -> bool {
    match params {
        JsonTree::Object(members) => if !agrees(members, "session_id"@, session_id) {
            breaks(result, "logical task request cannot override session_id"@)
        } else if !agrees(members, "task_grant_id"@, task_grant_id) {
            breaks(result, "logical task request cannot override task_grant_id"@)
        } else if !agrees(members, "window_capability"@, window_capability) {
            breaks(result, "logical task request cannot override window_capability"@)
        } else {
            result matches Ok(bound) && bound.view() == JsonTree::Object(
                bound_params(members, session_id, task_grant_id, window_capability),
            )
        },
        _ => breaks(result, "logical task request params must be a JSON object"@),
    }
}

fn bind_member(params: Json, name: &str, expected: &str) -> (r: Option<Json>)
    requires
        params.view() is Object,
    ensures
        if agrees(params.view()->Object_0, name@, expected@) {
            r matches Some(bound) && bound.view() == JsonTree::Object(
                bound_member(params.view()->Object_0, name@, expected@),
            )
        } else {
            r is None
        },
{
    let present = match params.get(name) {
        Some(actual) => {
            if !text_is(actual.as_text(), expected) {
                return None;
            }
            true
        },
        None => false,
    };
    if present {
        return Some(params);
    }
    let mut members = match members_of(&params) {
        Some(members) => duplicate_members(members),
        None => Vec::new(),
    };
    put_member(&mut members, name, Json::text(expected));
    Some(Json::Object(members))
}

proof fn lemma_credentials_differ()
    ensures
        "session_id"@ != "task_grant_id"@,
        "session_id"@ != "window_capability"@,
        "task_grant_id"@ != "window_capability"@,
{
    reveal_strlit("session_id");
    reveal_strlit("task_grant_id");
    reveal_strlit("window_capability");
    assert("session_id"@.len() == 10);
    assert("task_grant_id"@.len() == 13);
    assert("window_capability"@.len() == 17);
}

/// The parameters with the task's credentials put in. Parameters that carry
/// other credentials are refused.
pub fn bind_task_credentials(
    params: Json,
    session_id: &str,
    task_grant_id: &str,
    window_capability: &str,
) -> (r: HostClientResult<Json>)
    ensures
        is_binding(params.view(), session_id@, task_grant_id@, window_capability@, r),
{
    proof {
        lemma_credentials_differ();
    }
    if !params.is_object() {
        return Err(breach("logical task request params must be a JSON object"));
    }
    let params = match bind_member(params, "session_id", session_id) {
        Some(params) => params,
        None => return Err(breach("logical task request cannot override session_id")),
    };
    let params = match bind_member(params, "task_grant_id", task_grant_id) {
        Some(params) => params,
        None => return Err(breach("logical task request cannot override task_grant_id")),
    };
    match bind_member(params, "window_capability", window_capability) {
        Some(params) => Ok(params),
        None => Err(breach("logical task request cannot override window_capability")),
    }
}

/// A request bound to a task carries exactly its credentials, and whatever
/// else the caller sent as the caller sent it.
pub proof fn law_bound_request_carries_its_credentials(
    params: JsonTree,
    session_id: Seq<char>,
    task_grant_id: Seq<char>,
    window_capability: Seq<char>,
    result: HostClientResult<Json>,
)
    requires
        is_binding(params, session_id, task_grant_id, window_capability, result),
        result is Ok,
    ensures
        result->Ok_0.view().text_at("session_id"@) == Some(session_id),
        result->Ok_0.view().text_at("task_grant_id"@) == Some(task_grant_id),
        result->Ok_0.view().text_at("window_capability"@) == Some(window_capability),
        forall|name: Seq<char>|
            params.get(name) is Some ==> #[trigger] result->Ok_0.view().get(name) == params.get(
                name,
            ),
        forall|name: Seq<char>|
            (#[trigger] result->Ok_0.view().get(name)) is Some ==> params.get(name) is Some || name
                == "session_id"@ || name == "task_grant_id"@ || name == "window_capability"@,
{
    lemma_credentials_differ();
}

/// The slot of shared memory a request publishes its image to.
pub open spec fn handoff_slot(method: Seq<char>, params: JsonTree) -> Option<Seq<char>> {
    if method == "desktop_snapshot"@ {
        Some("desktop:global"@)
    } else {
        match params.text_at("session_id"@) {
            None => None,
            Some(session_id) => if method == "desktop_session_snapshot"@ {
                Some("desktop:"@ + session_id)
            } else if method == "snapshot"@ || method == "verify_state"@ || method
                == "browser_snapshot"@ {
                Some("window:"@ + session_id)
            } else {
                None
            },
        }
    }
}

pub fn shared_memory_handoff_slot(method: &str, params: &Json) -> (r: Option<String>)
    ensures
        match handoff_slot(method@, params.view()) {
            Some(slot) => r matches Some(text) && text@ == slot,
            None => r is None,
        },
{
    if text_eq(method, "desktop_snapshot") {
        return Some("desktop:global".to_owned());
    }
    let desktop = text_eq(method, "desktop_session_snapshot");
    let window = text_eq(method, "snapshot") || text_eq(method, "verify_state") || text_eq(
        method,
        "browser_snapshot",
    );
    match params.text_at("session_id") {
        None => None,
        Some(session_id) => {
            if desktop {
                Some(join2("desktop:", session_id))
            } else if window {
                Some(join2("window:", session_id))
            } else {
                None
            }
        },
    }
}

/// One read-only request of a batch, and what the protocol says of it.
#[derive(Debug)]
pub struct BatchRequest {
    pub request_id: String,
    pub method: String,
    pub params: Json,
    /// The method only reads, and may share its connection with others.
    pub pipeline_safe: bool,
    /// Why the protocol does not take the request's number.
    pub id_refusal: Option<String>,
}

impl BatchRequest {
    pub open spec fn slot(self) -> Option<Seq<char>> {
        handoff_slot(self.method@, self.params.view())
    }
}

/// No two requests publish to one slot.
pub open spec fn distinct_slots(requests: Seq<BatchRequest>) -> bool {
    forall|i: int, j: int|
        0 <= i < j < requests.len() && (#[trigger] requests[i]).slot() is Some ==> requests[i].slot()
            != (#[trigger] requests[j]).slot()
}

fn same_slot(a: &Option<String>, b: &Option<String>) -> (r: bool)
    ensures
        r == (a matches Some(left) && b matches Some(right) && left@ == right@),
{
    match (a, b) {
        (Some(left), Some(right)) => text_eq(left.as_str(), right.as_str()),
        _ => false,
    }
}

/// The slots of the requests, one for each.
fn slots_of(requests: &Vec<BatchRequest>) -> (r: Vec<Option<String>>)
    ensures
        r@.len() == requests@.len(),
        forall|i: int|
            0 <= i < r@.len() ==> match (#[trigger] requests@[i]).slot() {
                Some(slot) => r@[i] matches Some(text) && text@ == slot,
                None => r@[i] is None,
            },
{
    let mut out: Vec<Option<String>> = Vec::new();
    let mut i: usize = 0;
    while i < requests.len()
        invariant
            i <= requests.len(),
            out@.len() == i,
            forall|k: int|
                0 <= k < i ==> match (#[trigger] requests@[k]).slot() {
                    Some(slot) => out@[k] matches Some(text) && text@ == slot,
                    None => out@[k] is None,
                },
        decreases requests.len() - i,
    {
        let slot = shared_memory_handoff_slot(requests[i].method.as_str(), &requests[i].params);
        out.push(slot);
        i = i + 1;
    }
    out
}

/// No two requests of a batch publish to one slot.
pub open spec fn handoffs_are_distinct(snapshot_transport: SnapshotTransport, requests: Seq<BatchRequest>, r: HostClientResult<()>) -> bool {
    if snapshot_transport == SnapshotTransport::SharedMemory && !distinct_slots(requests) {
        breaks(
            r,
            "request_batch allows at most one shared-memory image publisher per session"@,
        )
    } else {
        r is Ok
    }
}

/// A batch over shared memory publishes at most one image to each slot.
pub fn validate_shared_memory_batch_handoffs(
    snapshot_transport: SnapshotTransport,
    requests: &Vec<BatchRequest>,
) -> (r: HostClientResult<()>)
    ensures
        handoffs_are_distinct(snapshot_transport, requests@, r),
{
    match snapshot_transport {
        SnapshotTransport::BinaryFrame => return Ok(()),
        SnapshotTransport::SharedMemory => {},
    }
    let slots = slots_of(requests);
    let mut j: usize = 0;
    while j < slots.len()
        invariant
            j <= slots.len(),
            slots@.len() == requests@.len(),
            forall|i: int|
                0 <= i < slots@.len() ==> match (#[trigger] requests@[i]).slot() {
                    Some(slot) => slots@[i] matches Some(text) && text@ == slot,
                    None => slots@[i] is None,
                },
            forall|a: int, b: int|
                0 <= a < b < j && (#[trigger] requests@[a]).slot() is Some ==> requests@[a].slot()
                    != (#[trigger] requests@[b]).slot(),
            snapshot_transport == SnapshotTransport::SharedMemory,
        decreases slots.len() - j,
    {
        let mut i: usize = 0;
        while i < j
            invariant
                i <= j < slots.len(),
                slots@.len() == requests@.len(),
                forall|k: int|
                    0 <= k < slots@.len() ==> match (#[trigger] requests@[k]).slot() {
                        Some(slot) => slots@[k] matches Some(text) && text@ == slot,
                        None => slots@[k] is None,
                    },
                forall|a: int|
                    0 <= a < i && (#[trigger] requests@[a]).slot() is Some ==> requests@[a].slot()
                        != requests@[j as int].slot(),
                snapshot_transport == SnapshotTransport::SharedMemory,
            decreases j - i,
        {
            if same_slot(&slots[i], &slots[j]) {
                assert(requests@[i as int].slot() == requests@[j as int].slot());
                return Err(
                    breach(
                        "request_batch allows at most one shared-memory image publisher per session",
                    ),
                );
            }
            assert(requests@[i as int].slot() is Some ==> requests@[i as int].slot()
                != requests@[j as int].slot());
            i = i + 1;
        }
        j = j + 1;
    }
    Ok(())
}

/// Every value is a text.
pub open spec fn all_texts(values: Seq<JsonTree>) -> bool {
    forall|i: int| 0 <= i < values.len() ==> (#[trigger] values[i]) is Text
}

/// The capabilities that a host names.
pub open spec fn capabilities_are_read(response: JsonTree, r: HostClientResult<Vec<String>>) -> bool {
    match response.get("capabilities"@) {
        None => r matches Ok(names) && names@.len() == 0,
        Some(JsonTree::Array(values)) => if all_texts(values) {
            &&& r matches Ok(names)
            &&& names@.len() == values.len()
            &&& forall|i: int|
                0 <= i < values.len() ==> JsonTree::Text((#[trigger] names@[i])@) == values[i]
        } else {
            breaks(r, "Host capability names must be strings"@)
        },
        Some(_) => breaks(r, "Host capabilities must be an array"@),
    }
}

/// The capabilities a Host advertises.
pub fn response_capabilities(response: &Json) -> (r: HostClientResult<Vec<String>>)
    ensures
        capabilities_are_read(response.view(), r),
{
    let capabilities = match response.get("capabilities") {
        Some(capabilities) => capabilities,
        None => return Ok(Vec::new()),
    };
    let values = match capabilities.as_array() {
        Some(values) => values,
        None => return Err(breach("Host capabilities must be an array")),
    };
    let ghost trees = array_tree(values@);
    proof {
        lemma_array_tree(values@);
    }
    let mut names: Vec<String> = Vec::new();
    let mut i: usize = 0;
    while i < values.len()
        invariant
            i <= values.len(),
            trees.len() == values@.len(),
            forall|k: int| 0 <= k < values@.len() ==> trees[k] == (#[trigger] values@[k]).view(),
            response.view().get("capabilities"@) == Some(JsonTree::Array(trees)),
            names@.len() == i,
            forall|k: int| 0 <= k < i ==> JsonTree::Text((#[trigger] names@[k])@) == trees[k],
        decreases values.len() - i,
    {
        assert(trees[i as int] == values@[i as int].view());
        match values[i].as_text() {
            Some(name) => {
                names.push(name.to_owned());
            },
            None => {
                assert(!all_texts(trees));
                return Err(breach("Host capability names must be strings"));
            },
        }
        i = i + 1;
    }
    assert forall|k: int| 0 <= k < trees.len() implies (#[trigger] trees[k]) is Text by {
        assert(JsonTree::Text(names@[k]@) == trees[k]);
    }
    Ok(names)
}

/// Where an attachment in the binary frame ends, or nothing where its place is
/// not given.
pub open spec fn attachment_end(attachment: JsonTree) -> Option<usize> {
    match (attachment.u64_at("offset"@), attachment.u64_at("length"@)) {
        (Some(offset), Some(length)) => if (offset as usize) + (length as usize) <= usize::MAX {
            Some(((offset as usize) + (length as usize)) as usize)
        } else {
            None
        },
        _ => None,
    }
}

/// The bytes that hold the first `n` attachments: the furthest end among those
/// in the binary frame. Nothing where one of them has no place.
pub open spec fn attachments_end(attachments: Seq<JsonTree>, n: nat) -> Option<usize>
    decreases n,
{
    if n == 0 {
        Some(0)
    } else {
        match attachments_end(attachments, (n - 1) as nat) {
            None => None,
            Some(total) => {
                let last = attachments[n - 1];
                if last.text_at("encoding"@) != Some("binary_frame"@) {
                    Some(total)
                } else {
                    match attachment_end(last) {
                        None => None,
                        Some(end) => Some(if end > total {
                            end
                        } else {
                            total
                        }),
                    }
                }
            },
        }
    }
}

/// The length of the binary frame that follows a response.
pub open spec fn advertised_length(response: JsonTree) -> Option<usize> {
    match response.array_at("attachments"@) {
        Some(attachments) => match attachments_end(attachments, attachments.len()) {
            Some(total) => if total > 0 {
                Some(total)
            } else {
                None
            },
            None => None,
        },
        None => match response.get("image"@) {
            Some(image) => if image.text_at("encoding"@) == Some("binary_frame"@) {
                match image.u64_at("length"@) {
                    Some(length) => Some(length as usize),
                    None => None,
                }
            } else {
                None
            },
            None => None,
        },
    }
}

proof fn lemma_attachments_missing(attachments: Seq<JsonTree>, k: nat, n: nat)
    requires
        k <= n,
        attachments_end(attachments, k) is None,
    ensures
        attachments_end(attachments, n) is None,
    decreases n,
{
    if k < n {
        lemma_attachments_missing(attachments, k, (n - 1) as nat);
    }
}

fn attached_length(attachment: &Json) -> (r: Option<usize>)
    ensures
        r == attachment_end(attachment.view()),
{
    let offset = match attachment.u64_at("offset") {
        Some(offset) => offset as usize,
        None => return None,
    };
    let length = match attachment.u64_at("length") {
        Some(length) => length as usize,
        None => return None,
    };
    offset.checked_add(length)
}

fn attachments_length(attachments: &Vec<Json>) -> (r: Option<usize>)
    ensures
        r == attachments_end(array_tree(attachments@), attachments@.len()),
{
    let ghost trees = array_tree(attachments@);
    proof {
        lemma_array_tree(attachments@);
    }
    let mut total: usize = 0;
    let mut i: usize = 0;
    while i < attachments.len()
        invariant
            i <= attachments.len(),
            trees == array_tree(attachments@),
            trees.len() == attachments@.len(),
            forall|k: int|
                0 <= k < attachments@.len() ==> trees[k] == (#[trigger] attachments@[k]).view(),
            attachments_end(trees, i as nat) == Some(total),
        decreases attachments.len() - i,
    {
        assert(trees[i as int] == attachments@[i as int].view());
        if text_is(attachments[i].text_at("encoding"), "binary_frame") {
            match attached_length(&attachments[i]) {
                Some(end) => {
                    if end > total {
                        total = end;
                    }
                },
                None => {
                    proof {
                        assert(attachments_end(trees, (i + 1) as nat) is None);
                        lemma_attachments_missing(trees, (i + 1) as nat, attachments@.len());
                    }
                    return None;
                },
            }
        }
        i = i + 1;
    }
    Some(total)
}

pub fn binary_attachment_length(response: &Json) -> (r: Option<usize>)
    ensures
        r == advertised_length(response.view()),
{
    if let Some(member) = response.get("attachments") {
        if let Some(attachments) = member.as_array() {
            proof {
                lemma_array_tree(attachments@);
            }
            return match attachments_length(attachments) {
                Some(total) => if total > 0 {
                    Some(total)
                } else {
                    None
                },
                None => None,
            };
        }
    }
    match response.get("image") {
        Some(image) => {
            if text_is(image.text_at("encoding"), "binary_frame") {
                match image.u64_at("length") {
                    Some(length) => Some(length as usize),
                    None => None,
                }
            } else {
                None
            }
        },
        None => None,
    }
}

/// How much of a child's error stream is kept.
pub const MAX_CAPTURED_CHILD_STDERR_BYTES: usize = 16_384;

/// The error stream of a spawned Host, kept up to a limit.
#[derive(Debug)]
pub struct ChildStderrState {
    pub retained: Vec<u8>,
    pub total_bytes: usize,
    pub read_failed: bool,
}

/// What is said of a child's error stream, without its contents.
#[derive(Debug, Clone, Copy, PartialEq, Eq, Structural)]
pub struct ChildStderrSummary {
    pub retained_bytes: usize,
    pub total_bytes: usize,
    pub truncated: bool,
    pub read_failed: bool,
}

/// Output of a child is kept up to a bound, and counted.
pub open spec fn output_is_recorded(before: ChildStderrState, bytes: Seq<u8>, after: ChildStderrState) -> bool {
    &&& after.well_formed()
    &&& after.read_failed == before.read_failed
    &&& after.total_bytes == if before.total_bytes + bytes.len() > usize::MAX {
        usize::MAX as int
    } else {
        before.total_bytes + bytes.len()
    }
    &&& after.retained@ == before.retained@ + bytes.take(
        if bytes.len() <= MAX_CAPTURED_CHILD_STDERR_BYTES - before.retained@.len() {
            bytes.len() as int
        } else {
            MAX_CAPTURED_CHILD_STDERR_BYTES - before.retained@.len()
        },
    )
}

/// What is told of the output of a child.
pub open spec fn is_output_summary(state: ChildStderrState, r: ChildStderrSummary) -> bool {
    &&& r.retained_bytes == state.retained@.len()
    &&& r.total_bytes == state.total_bytes
    &&& r.truncated == (state.total_bytes > state.retained@.len())
    &&& r.read_failed == state.read_failed
}

impl ChildStderrState {
    /// Never more than the limit is kept, nor more than was read.
    pub open spec fn well_formed(self) -> bool {
        self.retained@.len() <= MAX_CAPTURED_CHILD_STDERR_BYTES && self.retained@.len()
            <= self.total_bytes
    }

    pub fn new() -> (r: ChildStderrState)
        ensures
            r.well_formed(),
            r.retained@.len() == 0,
            r.total_bytes == 0,
            !r.read_failed,
    {
        ChildStderrState { retained: Vec::new(), total_bytes: 0, read_failed: false }
    }

    /// Takes in what was read: the beginning of the stream is kept, all of it
    /// is counted.
    pub fn record(&mut self, bytes: &Vec<u8>)
        requires
            old(self).well_formed(),
        ensures
            output_is_recorded(*old(self), bytes@, *final(self)),
    {
        let ghost kept = self.retained@;
        self.total_bytes = self.total_bytes.saturating_add(bytes.len());
        let mut i: usize = 0;
        while i < bytes.len() && self.retained.len() < MAX_CAPTURED_CHILD_STDERR_BYTES
            invariant
                i <= bytes.len(),
                self.retained@ == kept + bytes@.take(i as int),
                self.retained@.len() <= MAX_CAPTURED_CHILD_STDERR_BYTES,
                self.read_failed == old(self).read_failed,
                kept == old(self).retained@,
                self.total_bytes == if old(self).total_bytes + bytes@.len() > usize::MAX {
                    usize::MAX as int
                } else {
                    old(self).total_bytes + bytes@.len()
                },
            decreases bytes.len() - i,
        {
            self.retained.push(bytes[i]);
            assert(kept + bytes@.take(i + 1) =~= (kept + bytes@.take(i as int)).push(
                bytes@[i as int],
            ));
            i = i + 1;
        }
    }

    pub fn summary(&self) -> (r: ChildStderrSummary)
        ensures
            is_output_summary(*self, r),
    {
        ChildStderrSummary {
            retained_bytes: self.retained.len(),
            total_bytes: self.total_bytes,
            truncated: self.total_bytes > self.retained.len(),
            read_failed: self.read_failed,
        }
    }
}

/// Whether a request is left to the task session itself.
pub open spec fn is_managed_method(method: Seq<char>) -> bool {
    method == "hello"@ || method == "open_session"@ || method == "stop_session"@
}

/// The idle timeouts a Host grants.
#[derive(Debug, Clone, Copy, PartialEq, Eq, Structural)]
pub struct IdleTimeoutLimits {
    pub min_ms: u64,
    pub max_ms: u64,
}

/// A task session about to be opened.
#[derive(Debug)]
pub struct TaskOpening {
    pub session_id: String,
    pub task_grant_id: String,
    pub idle_timeout_ms: u64,
    pub params: Json,
}

/// One logical task, bound to one session of a Host connection.
#[derive(Debug)]
pub struct LogicalTaskSession {
    pub session_id: String,
    pub task_grant_id: String,
    pub window_capability: String,
    pub target: Json,
    pub idle_timeout_ms: u64,
}

/// The parameters that open a session.
pub open spec fn open_tree(session_id: Seq<char>, grant: JsonTree, idle_timeout_ms: u64) -> JsonTree {
    JsonTree::Object(
        Map::<Seq<char>, JsonTree>::empty().insert(
            "session_id"@,
            JsonTree::Text(session_id),
        ).insert("grant"@, grant).insert(
            "idle_timeout_ms"@,
            crate::json::unsigned_tree(idle_timeout_ms),
        ),
    )
}

/// A text member that is not empty.
pub open spec fn filled_text(value: JsonTree, name: Seq<char>) -> Option<Seq<char>> {
    match value.text_at(name) {
        Some(text) => if text.len() > 0 {
            Some(text)
        } else {
            None
        },
        None => None,
    }
}

/// A number member that is not zero.
pub open spec fn names_something(value: JsonTree, name: Seq<char>) -> bool {
    value.u64_at(name) matches Some(n) && n > 0
}

fn filled(found: Option<&str>) -> (r: Option<String>)
    ensures
        match optional_text(found) {
            Some(text) if text.len() > 0 => r matches Some(kept) && kept@ == text,
            _ => r is None,
        },
{
    match found {
        Some(text) => {
            if text.unicode_len() > 0 {
                Some(text.to_owned())
            } else {
                None
            }
        },
        None => None,
    }
}

/// A task is opened under its session and grant.
pub open spec fn task_begins(session_id: String, grant: Json, idle_timeout_ms: u64, limits: IdleTimeoutLimits, r: HostClientResult<TaskOpening>) -> bool {
    if !(limits.min_ms <= idle_timeout_ms <= limits.max_ms) {
        breaks(
            r,
            "idle_timeout_ms must be between "@ + decimal(limits.min_ms as nat) + " and "@
                + decimal(limits.max_ms as nat),
        )
    } else {
        match filled_text(grant.view(), "task_grant_id"@) {
            None => breaks(r, "logical task grant requires a non-empty task_grant_id"@),
            Some(task_grant_id) => {
                &&& r matches Ok(opening)
                &&& opening.session_id == session_id
                &&& opening.task_grant_id@ == task_grant_id
                &&& opening.idle_timeout_ms == idle_timeout_ms
                &&& opening.params.view() == open_tree(
                    session_id@,
                    grant.view(),
                    idle_timeout_ms,
                )
            },
        }
    }
}

/// Checks what a task session is opened with.
pub fn begin_task_session(
    session_id: String,
    grant: Json,
    idle_timeout_ms: u64,
    limits: IdleTimeoutLimits,
) -> (r: HostClientResult<TaskOpening>)
    ensures
        task_begins(session_id, grant, idle_timeout_ms, limits, r),
{
    if idle_timeout_ms < limits.min_ms || idle_timeout_ms > limits.max_ms {
        let mut text = join3(
            "idle_timeout_ms must be between ",
            decimal_text(limits.min_ms).as_str(),
            " and ",
        );
        text.append(decimal_text(limits.max_ms).as_str());
        return Err(HostClientError::Protocol(text));
    }
    let task_grant_id = match filled(grant.text_at("task_grant_id")) {
        Some(task_grant_id) => task_grant_id,
        None => return Err(breach("logical task grant requires a non-empty task_grant_id")),
    };
    let mut members: Vec<JsonMember> = Vec::new();
    put_member(&mut members, "session_id", Json::text(session_id.as_str()));
    put_member(&mut members, "grant", grant);
    put_member(&mut members, "idle_timeout_ms", Json::unsigned(idle_timeout_ms));
    Ok(TaskOpening { session_id, task_grant_id, idle_timeout_ms, params: Json::Object(members) })
}

impl TaskOpening {
    /// What is returned of the Host's answer.
    pub open spec fn is_opened(
        self,
        response: JsonTree,
        result: HostClientResult<LogicalTaskSession>,
    ) -> bool {
        if response.text_at("session_id"@) is None {
            breaks(result, "open_session response omitted session_id"@)
        } else if response.text_at("session_id"@) != Some(self.session_id@) {
            breaks(result, "open_session response changed the logical task session id"@)
        } else if filled_text(response, "window_capability"@) is None {
            breaks(result, "open_session response omitted window_capability"@)
        } else if !(response.get("target"@) matches Some(JsonTree::Object(_))) {
            breaks(result, "open_session response omitted target identity"@)
        } else if !names_something(response.get("target"@)->0, "process_id"@) || !names_something(
            response.get("target"@)->0,
            "window_handle"@,
        ) {
            breaks(result, "open_session response target identity is not an exact PID/HWND"@)
        } else {
            &&& result matches Ok(task)
            &&& task.session_id == self.session_id
            &&& task.task_grant_id == self.task_grant_id
            &&& task.window_capability@ == filled_text(response, "window_capability"@)->0
            &&& task.target.view() == response.get("target"@)->0
            &&& task.idle_timeout_ms == self.idle_timeout_ms
        }
    }

    /// The task session the Host opened, if it opened the one asked for on an
    /// exact window.
    pub fn finish(self, response: &Json) -> (r: HostClientResult<LogicalTaskSession>)
        ensures
            self.is_opened(response.view(), r),
    {
        match response.text_at("session_id") {
            None => return Err(breach("open_session response omitted session_id")),
            Some(returned) => {
                if !text_eq(returned, self.session_id.as_str()) {
                    return Err(
                        breach("open_session response changed the logical task session id"),
                    );
                }
            },
        }
        let window_capability = match filled(response.text_at("window_capability")) {
            Some(window_capability) => window_capability,
            None => return Err(breach("open_session response omitted window_capability")),
        };
        let target = match response.get("target") {
            Some(target) => {
                if !target.is_object() {
                    return Err(breach("open_session response omitted target identity"));
                }
                target.clone()
            },
            None => return Err(breach("open_session response omitted target identity")),
        };
        let process_id: u64 = match target.u64_at("process_id") {
            Some(process_id) => process_id,
            None => 0,
        };
        let window_handle: u64 = match target.u64_at("window_handle") {
            Some(window_handle) => window_handle,
            None => 0,
        };
        if process_id == 0 || window_handle == 0 {
            return Err(
                breach("open_session response target identity is not an exact PID/HWND"),
            );
        }
        Ok(
            LogicalTaskSession {
                session_id: self.session_id,
                task_grant_id: self.task_grant_id,
                window_capability,
                target,
                idle_timeout_ms: self.idle_timeout_ms,
            },
        )
    }
}

/// A request of a task is bound to it.
pub open spec fn task_request_is_bound(task: LogicalTaskSession, method: Seq<char>, params: JsonTree, r: HostClientResult<Json>) -> bool {
    if is_managed_method(method) {
        breaks(r, method + " is managed by LogicalTaskSession"@)
    } else {
        is_binding(
            params,
            task.session_id@,
            task.task_grant_id@,
            task.window_capability@,
            r,
        )
    }
}

/// The arguments that a task is stopped by.
pub open spec fn stop_tree(session_id: Seq<char>) -> JsonTree {
                JsonTree::Object(
        Map::<Seq<char>, JsonTree>::empty().insert(
            "session_id"@,
            JsonTree::Text(session_id),
        ),
    )
}

impl LogicalTaskSession {
    pub fn session_id(&self) -> (r: &str)
        ensures
            r@ == self.session_id@,
    {
        self.session_id.as_str()
    }

    pub fn task_grant_id(&self) -> (r: &str)
        ensures
            r@ == self.task_grant_id@,
    {
        self.task_grant_id.as_str()
    }

    pub fn idle_timeout_ms(&self) -> (r: u64)
        ensures
            r == self.idle_timeout_ms,
    {
        self.idle_timeout_ms
    }

    /// The exact window the Host opened the task on.
    pub fn target(&self) -> (r: &Json)
        ensures
            *r == self.target,
    {
        &self.target
    }

    /// The parameters of a request under the credentials of the session. Opening
    /// and stopping are left to the session itself.
    pub fn request_params(&self, method: &str, params: Json) -> (r: HostClientResult<Json>)
        ensures
            task_request_is_bound(*self, method@, params.view(), r),
    {
        if text_eq(method, "hello") || text_eq(method, "open_session") || text_eq(
            method,
            "stop_session",
        ) {
            return Err(
                HostClientError::Protocol(join2(method, " is managed by LogicalTaskSession")),
            );
        }
        bind_task_credentials(
            params,
            self.session_id.as_str(),
            self.task_grant_id.as_str(),
            self.window_capability.as_str(),
        )
    }

    /// The parameters that stop the session.
    pub fn stop_params(&self) -> (r: Json)
        ensures
            r.view() == stop_tree(self.session_id@),
    {
        let mut members: Vec<JsonMember> = Vec::new();
        put_member(&mut members, "session_id", Json::text(self.session_id.as_str()));
        Json::Object(members)
    }
}

/// An opened task is the one that was asked for, on an exact window.
pub proof fn law_opened_task_is_the_requested_one(
    opening: TaskOpening,
    response: JsonTree,
    result: HostClientResult<LogicalTaskSession>,
)
    requires
        opening.is_opened(response, result),
        result is Ok,
    ensures
        result->Ok_0.session_id == opening.session_id,
        result->Ok_0.task_grant_id == opening.task_grant_id,
        result->Ok_0.window_capability@.len() > 0,
        names_something(result->Ok_0.target.view(), "process_id"@),
        names_something(result->Ok_0.target.view(), "window_handle"@),
{
}

/// An error that the host returned is told with its code, its words and the whole
/// response; any other response is handed on with its attachment.
pub proof fn law_responses_are_handed_on(
    received: ReceivedResponse,
    result: HostClientResult<HostResponse>,
)
    requires
        is_response_result(received, result),
    ensures
        result is Err <==> received.value.view().text_at("type"@) == Some("error"@),
        result matches Ok(response) ==> response.value == received.value
            && response.binary_attachment == received.binary_attachment,
        result matches Err(error) ==> (error matches HostClientError::Remote {
            code,
            message,
            response,
        } && response == received.value && (received.value.view().text_at("code"@) matches Some(
            told,
        ) ==> code@ == told) && (received.value.view().text_at("message"@) matches Some(told)
            ==> message@ == told)),
{
}

/// A request is bound to its task: it carries the task's session, grant and window
/// beside the arguments given, and cannot name others.
pub proof fn law_task_requests_are_bound(
    task: LogicalTaskSession,
    method: Seq<char>,
    members: Map<Seq<char>, JsonTree>,
    r: HostClientResult<Json>,
    key: Seq<char>,
)
    requires
        task_request_is_bound(task, method, JsonTree::Object(members), r),
    ensures
        r matches Ok(bound) ==> {
            &&& bound.view().text_at("session_id"@) == Some(task.session_id@)
            &&& bound.view().text_at("task_grant_id"@) == Some(task.task_grant_id@)
            &&& bound.view().text_at("window_capability"@) == Some(task.window_capability@)
            &&& key != "session_id"@ && key != "task_grant_id"@ && key != "window_capability"@
                ==> bound.view().get(key) == JsonTree::Object(members).get(key)
            &&& method != "hello"@
            &&& method != "open_session"@
            &&& method != "stop_session"@
        },
        method != "hello"@ && method != "open_session"@ && method != "stop_session"@
            && !members.dom().contains("session_id"@) && !members.dom().contains("task_grant_id"@)
            && !members.dom().contains("window_capability"@) ==> r is Ok,
        (members.dom().contains("session_id"@) && members["session_id"@] != JsonTree::Text(
            task.session_id@,
        )) ==> r is Err,
        (members.dom().contains("task_grant_id"@) && members["task_grant_id"@] != JsonTree::Text(
            task.task_grant_id@,
        )) ==> r is Err,
        (members.dom().contains("window_capability"@) && members["window_capability"@]
            != JsonTree::Text(task.window_capability@)) ==> r is Err,
{
    reveal_strlit("session_id");
    reveal_strlit("task_grant_id");
    reveal_strlit("window_capability");
    assert("session_id"@.len() == 10);
    assert("task_grant_id"@.len() == 13);
    assert("window_capability"@.len() == 17);
}

/// A task is opened with the session, the grant and the time given, within the
/// limits, and stopped by its session.
pub proof fn law_tasks_are_opened_as_asked(
    session_id: String,
    grant: Json,
    idle_timeout_ms: u64,
    limits: IdleTimeoutLimits,
    r: HostClientResult<TaskOpening>,
)
    requires
        task_begins(session_id, grant, idle_timeout_ms, limits, r),
    ensures
        r is Ok <==> limits.min_ms <= idle_timeout_ms && idle_timeout_ms <= limits.max_ms && (
        grant.view().text_at("task_grant_id"@) matches Some(id) && id.len() > 0),
        r matches Ok(opening) ==> {
            &&& opening.session_id == session_id
            &&& grant.view().text_at("task_grant_id"@) == Some(opening.task_grant_id@)
            &&& opening.idle_timeout_ms == idle_timeout_ms
            &&& opening.params.view().text_at("session_id"@) == Some(session_id@)
            &&& opening.params.view().get("grant"@) == Some(grant.view())
            &&& opening.params.view().u64_at("idle_timeout_ms"@) == Some(idle_timeout_ms)
        },
        stop_tree(session_id@).text_at("session_id"@) == Some(session_id@),
{
    reveal_strlit("session_id");
    reveal_strlit("grant");
    reveal_strlit("idle_timeout_ms");
    assert("session_id"@.len() == 10);
    assert("grant"@.len() == 5);
    assert("idle_timeout_ms"@.len() == 15);
}

/// A task that the host opened is the one asked for, of an exact window, with the
/// capability that the host gave.
pub proof fn law_opened_tasks_hold_what_was_given(
    opening: TaskOpening,
    response: JsonTree,
    task: LogicalTaskSession,
)
    requires
        opening.is_opened(response, Ok(task)),
    ensures
        task.session_id == opening.session_id,
        response.text_at("session_id"@) == Some(task.session_id@),
        task.task_grant_id == opening.task_grant_id,
        task.idle_timeout_ms == opening.idle_timeout_ms,
        response.text_at("window_capability"@) == Some(task.window_capability@),
        task.window_capability@.len() > 0,
        response.get("target"@) == Some(task.target.view()),
        task.target.view().u64_at("process_id"@) matches Some(id) && id > 0,
        task.target.view().u64_at("window_handle"@) matches Some(handle) && handle > 0,
{
}

/// Pictures are handed over in the slot of their session: those of windows in one,
/// those of the desktop in another.
pub proof fn law_handoff_slots_are_per_session(method: Seq<char>, params: JsonTree)
    ensures
        method == "desktop_snapshot"@ ==> handoff_slot(method, params) == Some("desktop:global"@),
        (params.text_at("session_id"@) matches Some(id) && method == "desktop_session_snapshot"@)
            ==> handoff_slot(method, params) == Some(
            "desktop:"@ + params.text_at("session_id"@)->0,
        ),
        (params.text_at("session_id"@) matches Some(id) && (method == "snapshot"@ || method
            == "verify_state"@ || method == "browser_snapshot"@)) ==> handoff_slot(method, params)
            == Some("window:"@ + params.text_at("session_id"@)->0),
        method != "desktop_snapshot"@ && method != "desktop_session_snapshot"@ && method
            != "snapshot"@ && method != "verify_state"@ && method != "browser_snapshot"@
            ==> handoff_slot(method, params) is None,
        method != "desktop_snapshot"@ && params.text_at("session_id"@) is None ==> handoff_slot(
            method,
            params,
        ) is None,
{
    reveal_strlit("desktop_snapshot");
    reveal_strlit("desktop_session_snapshot");
    reveal_strlit("snapshot");
    reveal_strlit("verify_state");
    reveal_strlit("browser_snapshot");
    assert("desktop_snapshot"@.len() == 16);
    assert("desktop_session_snapshot"@.len() == 24);
    assert("snapshot"@.len() == 8);
    assert("verify_state"@.len() == 12);
    assert("browser_snapshot"@.len() == 16);
    assert("desktop_snapshot"@[0] != "browser_snapshot"@[0]);
}

/// In shared memory no two requests of a batch publish to one slot.
pub proof fn law_batches_publish_to_a_slot_once(
    snapshot_transport: SnapshotTransport,
    requests: Seq<BatchRequest>,
    r: HostClientResult<()>,
    i: int,
    j: int,
)
    requires
        handoffs_are_distinct(snapshot_transport, requests, r),
        0 <= i < j < requests.len(),
    ensures
        r is Ok && snapshot_transport == SnapshotTransport::SharedMemory && requests[i].slot()
            is Some ==> requests[i].slot() != requests[j].slot(),
        snapshot_transport == SnapshotTransport::BinaryFrame ==> r is Ok,
{
}

/// The capabilities of a host are those that it names, in order; a host that names
/// none has none.
pub proof fn law_capabilities_are_those_named(
    response: JsonTree,
    values: Seq<JsonTree>,
    r: HostClientResult<Vec<String>>,
)
    requires
        response.get("capabilities"@) == Some(JsonTree::Array(values)),
        capabilities_are_read(response, r),
    ensures
        r matches Ok(names) ==> names@.len() == values.len() && forall|i: int|
            0 <= i < values.len() ==> JsonTree::Text((#[trigger] names@[i])@) == values[i],
        (forall|i: int| 0 <= i < values.len() ==> (#[trigger] values[i]) is Text) ==> r is Ok,
{
}

/// What a child wrote is kept from its start, up to the bound, and all of it is
/// counted; the summary says how much, and whether anything was cut off.
pub proof fn law_output_is_kept_from_its_start(
    before: ChildStderrState,
    bytes: Seq<u8>,
    after: ChildStderrState,
    r: ChildStderrSummary,
)
    requires
        before.well_formed(),
        output_is_recorded(before, bytes, after),
        is_output_summary(after, r),
    ensures
        before.retained@.is_prefix_of(after.retained@),
        after.retained@.is_prefix_of(before.retained@ + bytes),
        before.retained@.len() + bytes.len() <= 16_384 ==> after.retained@ == before.retained@
            + bytes,
        before.retained@.len() + bytes.len() > 16_384 ==> after.retained@.len() == 16_384,
        before.total_bytes + bytes.len() <= usize::MAX ==> after.total_bytes == before.total_bytes
            + bytes.len(),
        after.read_failed == before.read_failed,
        r.retained_bytes == after.retained@.len(),
        r.total_bytes == after.total_bytes,
        r.truncated <==> after.total_bytes > after.retained@.len(),
        r.read_failed == after.read_failed,
{
    let kept = if bytes.len() <= MAX_CAPTURED_CHILD_STDERR_BYTES - before.retained@.len() {
        bytes.len() as int
    } else {
        MAX_CAPTURED_CHILD_STDERR_BYTES - before.retained@.len()
    };
    assert(after.retained@ == before.retained@ + bytes.take(kept));
    assert(before.retained@ =~= after.retained@.take(before.retained@.len() as int));
    assert(after.retained@ =~= (before.retained@ + bytes).take(after.retained@.len() as int));
    if kept == bytes.len() {
        assert(bytes.take(kept) =~= bytes);
    }
}

proof fn lemma_attachments_fit(attachments: Seq<JsonTree>, n: nat, i: int)
    requires
        0 <= i < n <= attachments.len(),
        attachments_end(attachments, n) is Some,
        attachments[i].text_at("encoding"@) == Some("binary_frame"@),
    ensures
        attachments[i].u64_at("offset"@) is Some,
        attachments[i].u64_at("length"@) is Some,
        (attachments[i].u64_at("offset"@)->0 as usize) + (attachments[i].u64_at("length"@)->0 as usize)
            <= attachments_end(attachments, n)->0,
    decreases n,
{
    if i < n - 1 {
        lemma_attachments_fit(attachments, (n - 1) as nat, i);
    }
}

proof fn lemma_attachments_reach(attachments: Seq<JsonTree>, n: nat) -> (i: int)
    requires
        n <= attachments.len(),
        attachments_end(attachments, n) is Some,
        attachments_end(attachments, n)->0 > 0,
    ensures
        0 <= i < n,
        attachments[i].text_at("encoding"@) == Some("binary_frame"@),
        attachment_end(attachments[i]) == attachments_end(attachments, n),
    decreases n,
{
    if attachments_end(attachments, (n - 1) as nat) == attachments_end(attachments, n) {
        lemma_attachments_reach(attachments, (n - 1) as nat)
    } else {
        n - 1
    }
}

/// The binary frame that a response announces holds each attachment that lies in it,
/// and ends where the last of them does.
pub proof fn law_frames_hold_their_attachments(response: JsonTree, i: int) -> (last: int)
    requires
        response.array_at("attachments"@) is Some,
        advertised_length(response) is Some,
        0 <= i < response.array_at("attachments"@)->0.len(),
    ensures
        ({
            let attachments = response.array_at("attachments"@)->0;
            let length = advertised_length(response)->0;
            &&& length > 0
            &&& attachments[i].text_at("encoding"@) == Some("binary_frame"@)
                ==> attachments[i].u64_at("offset"@) is Some && attachments[i].u64_at(
                "length"@,
            ) is Some && (attachments[i].u64_at("offset"@)->0 as usize) + (attachments[i].u64_at(
                "length"@,
            )->0 as usize) <= length
            &&& 0 <= last < attachments.len()
            &&& attachments[last].text_at("encoding"@) == Some("binary_frame"@)
            &&& (attachments[last].u64_at("offset"@)->0 as usize) + (attachments[last].u64_at(
                "length"@,
            )->0 as usize) == length
        }),
{
    let attachments = response.array_at("attachments"@)->0;
    if attachments[i].text_at("encoding"@) == Some("binary_frame"@) {
        lemma_attachments_fit(attachments, attachments.len(), i);
    }
    lemma_attachments_reach(attachments, attachments.len())
}

/// A response without attachments announces the frame of its image, if that lies in
/// one.
pub proof fn law_images_announce_their_frame(response: JsonTree)
    requires
        response.array_at("attachments"@) is None,
    ensures
        advertised_length(response) is Some <==> (response.get("image"@) is Some && response.get(
            "image"@,
        )->0.text_at("encoding"@) == Some("binary_frame"@) && response.get("image"@)->0.u64_at(
            "length"@,
        ) is Some),
        advertised_length(response) matches Some(length) ==> length == (response.get(
            "image"@,
        )->0.u64_at("length"@)->0 as usize),
{
}

} // verus!
