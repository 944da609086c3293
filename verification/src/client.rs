//! One client connection to a Host: request numbers, correlation, and when the
//! connection may be used again.

use crate::client_protocol::{
    binary_attachment_length, breach, response_capabilities, HostClientError, HostClientResult,
    HostResponse, ReceivedResponse, SnapshotTransport,
};
#[allow(unused_imports)]
use crate::client_protocol::{advertised_length, all_texts, breaks};
use crate::json::{parse_json_bytes, put_member, Json, JsonMember};
#[allow(unused_imports)]
use crate::json::{parsed_bytes, unsigned_tree, JsonTree};
use crate::text::{decimal_text, join2, join3, text_eq};
#[allow(unused_imports)]
use crate::text::decimal;
use crate::text_sets::{add_text, holds_text, remove_text};
#[allow(unused_imports)]
use crate::text_sets::{distinct_texts, has_text, listed};
use vstd::prelude::*;
use vstd::string::*;

verus! {

/// How many requests one operation keeps track of.
pub const MAX_PARALLEL_DISCOVERY_REQUESTS: usize = 32;

/// Whether a request may start.
#[derive(Debug, Clone, Copy, PartialEq, Eq, Structural)]
pub enum ConnectionState {
    Ready,
    InFlight,
    /// An operation was interrupted: what is left on the wire is unknown.
    Unusable,
}

/// The protocol state of one connection.
#[derive(Debug)]
pub struct HostConnection {
    pub state: ConnectionState,
    /// Responses that were read before they were asked for.
    pub pending: Vec<ReceivedResponse>,
    /// The numbers of requests that have not been answered.
    pub outstanding: Vec<String>,
    pub next_request_id: u64,
    pub hello_complete: bool,
    pub snapshot_transport: SnapshotTransport,
    pub capabilities: Vec<String>,
}

/// No two responses answer one request.
pub open spec fn distinct_responses(pending: Seq<ReceivedResponse>) -> bool {
    forall|i: int, j: int|
        0 <= i < j < pending.len() ==> (#[trigger] pending[i]).request_id@ != (
        #[trigger] pending[j]).request_id@
}

/// The request is answered by one of the responses.
pub open spec fn is_answered(pending: Seq<ReceivedResponse>, request_id: Seq<char>) -> bool {
    exists|i: int| 0 <= i < pending.len() && (#[trigger] pending[i]).request_id@ == request_id
}

/// The message about too many tracked requests.
pub open spec fn crowded_message() -> Seq<char> {
    "one client operation tracks at most "@ + decimal(MAX_PARALLEL_DISCOVERY_REQUESTS as nat)
        + " request ids"@
}

/// The message about a number that is taken.
pub open spec fn taken_message(request_id: Seq<char>) -> Seq<char> {
    "request_id "@ + request_id + " is already in flight"@
}

/// The message about a connection that is not ready.
pub open spec fn busy_message(state: ConnectionState) -> Seq<char> {
    match state {
        ConnectionState::Unusable => "Host connection is unusable after an interrupted or incomplete request; reconnect before sending another request"@,
        _ => "another Host request is already in flight on this connection"@,
    }
}

/// The number generated next.
pub open spec fn generated_id(n: u64) -> Seq<char> {
    "cua-client-"@ + decimal(n as nat)
}

/// One request as it is written.
pub open spec fn envelope_tree(
    request_id: Seq<char>,
    method: Seq<char>,
    params: JsonTree,
) -> JsonTree {
    JsonTree::Object(
        Map::<Seq<char>, JsonTree>::empty().insert(
            "request_id"@,
            JsonTree::Text(request_id),
        ).insert("method"@, JsonTree::Text(method)).insert("params"@, params),
    )
}

/// The parameters of the handshake.
pub open spec fn hello_tree(
    protocol_version: u64,
    client_name: Seq<char>,
    transport: SnapshotTransport,
) -> JsonTree {
    JsonTree::Object(
        Map::<Seq<char>, JsonTree>::empty().insert(
            "protocol_version"@,
            unsigned_tree(protocol_version),
        ).insert("client_name"@, JsonTree::Text(client_name)).insert(
            "snapshot_transport"@,
            JsonTree::Text(transport.wire_text()),
        ),
    )
}

/// A result after which the wire is in order: an answer, or the Host's own
/// refusal.
pub open spec fn is_orderly<T>(result: HostClientResult<T>) -> bool {
    match result {
        Ok(_) => true,
        Err(error) => error is Remote,
    }
}

/// A stateful request needs a completed handshake.
pub open spec fn hello_is_required(connection: HostConnection, r: HostClientResult<()>) -> bool {
    if connection.hello_complete {
        r is Ok
    } else {
        breaks(r, "hello must complete before stateful requests"@)
    }
}

/// The handshake of a connection that has none yet.
pub open spec fn hello_is_made(connection: HostConnection, client_name: Seq<char>, protocol_version: u64, r: HostClientResult<Json>) -> bool {
    if connection.hello_complete {
        breaks(r, "hello has already completed on this connection"@)
    } else {
        r matches Ok(params) && params.view() == hello_tree(
            protocol_version,
            client_name,
            connection.snapshot_transport,
        )
    }
}

/// The handshake was answered.
pub open spec fn hello_ends(before: HostConnection, response: HostResponse, after: HostConnection, r: HostClientResult<HostResponse>) -> bool {
    if response.value.view().text_at("type"@) != Some("hello"@) {
        after == before && breaks(
            r,
            "Host hello response has an unexpected type"@,
        )
    } else {
        match response.value.view().get("capabilities"@) {
            Some(JsonTree::Array(values)) => if all_texts(values) {
                &&& r == Ok::<HostResponse, HostClientError>(response)
                &&& after == (HostConnection {
                    hello_complete: true,
                    capabilities: after.capabilities,
                    ..before
                })
                &&& after.capabilities@.len() == values.len()
                &&& forall|i: int|
                    0 <= i < values.len() ==> JsonTree::Text(
                        (#[trigger] after.capabilities@[i])@,
                    ) == values[i]
            } else {
                after == before && breaks(
                    r,
                    "Host capability names must be strings"@,
                )
            },
            Some(_) => after == before && breaks(
                r,
                "Host capabilities must be an array"@,
            ),
            None => {
                &&& r == Ok::<HostResponse, HostClientError>(response)
                &&& after == (HostConnection {
                    hello_complete: true,
                    capabilities: after.capabilities,
                    ..before
                })
                &&& after.capabilities@.len() == 0
            },
        }
    }
}

/// An operation takes the connection.
pub open spec fn operation_begins(before: HostConnection, after: HostConnection, r: HostClientResult<()>) -> bool {
    if before.state == ConnectionState::Ready {
        &&& r is Ok
        &&& after == before.in_flight()
    } else {
        after == before && breaks(r, busy_message(before.state))
    }
}

/// The next identifier of a connection.
pub open spec fn id_is_drawn(before: HostConnection, after: HostConnection, r: String) -> bool {
    &&& r@ == generated_id(before.next_request_id)
    &&& after == (HostConnection {
        next_request_id: if before.next_request_id < u64::MAX {
            (before.next_request_id + 1) as u64
        } else {
            u64::MAX
        },
        ..before
    })
}

impl HostConnection {
    /// Every response that waits answers an outstanding request, and nothing
    /// is listed twice.
    pub open spec fn well_formed(self) -> bool {
        &&& distinct_texts(self.outstanding@)
        &&& distinct_responses(self.pending@)
        &&& forall|i: int|
            0 <= i < self.pending@.len() ==> has_text(
                self.outstanding@,
                (#[trigger] self.pending@[i]).request_id@,
            )
        &&& self.outstanding@.len() <= MAX_PARALLEL_DISCOVERY_REQUESTS
    }

    /// The connection while an operation runs.
    pub open spec fn in_flight(self) -> HostConnection {
        HostConnection { state: ConnectionState::InFlight, ..self }
    }

    /// The connection after an operation ended.
    pub open spec fn after_operation(self, orderly: bool) -> HostConnection {
        HostConnection {
            state: if orderly {
                ConnectionState::Ready
            } else {
                ConnectionState::Unusable
            },
            ..self
        }
    }

    /// The operation ended with this result, and the connection is settled.
    pub open spec fn settles<T>(self, result: HostClientResult<T>, after: HostConnection) -> bool {
        after == self.after_operation(is_orderly(result))
    }

    /// Why a request cannot be tracked.
    pub open spec fn tracking_refusal(self, request_id: Seq<char>) -> Option<Seq<char>> {
        if self.outstanding@.len() >= MAX_PARALLEL_DISCOVERY_REQUESTS {
            Some(crowded_message())
        } else if has_text(self.outstanding@, request_id) {
            Some(taken_message(request_id))
        } else {
            None
        }
    }

    /// The connection after a request is tracked.
    pub open spec fn tracks(self, request_id: Seq<char>, after: HostConnection) -> bool {
        &&& listed(after.outstanding@) == listed(self.outstanding@).insert(request_id)
        &&& after == (HostConnection { outstanding: after.outstanding, ..self })
    }

    /// The connection after a request was answered.
    pub open spec fn untracks(self, request_id: Seq<char>, after: HostConnection) -> bool {
        &&& listed(after.outstanding@) == listed(self.outstanding@).remove(request_id)
        &&& after == (HostConnection { outstanding: after.outstanding, ..self })
    }

    /// A connection that has not been negotiated.
    pub fn new(snapshot_transport: SnapshotTransport) -> (r: HostConnection)
        ensures
            r.well_formed(),
            r.state == ConnectionState::Ready,
            r.pending@.len() == 0,
            r.outstanding@.len() == 0,
            r.next_request_id == 1,
            !r.hello_complete,
            r.snapshot_transport == snapshot_transport,
            r.capabilities@.len() == 0,
    {
        HostConnection {
            state: ConnectionState::Ready,
            pending: Vec::new(),
            outstanding: Vec::new(),
            next_request_id: 1,
            hello_complete: false,
            snapshot_transport,
            capabilities: Vec::new(),
        }
    }

    /// Nothing but the handshake is sent before the handshake.
    pub fn require_hello(&self) -> (r: HostClientResult<()>)
        ensures
            hello_is_required(*self, r),
    {
        if !self.hello_complete {
            return Err(breach("hello must complete before stateful requests"));
        }
        Ok(())
    }

    /// The parameters of the handshake, which happens once.
    pub fn hello_params(&self, client_name: &str, protocol_version: u64) -> (r: HostClientResult<
        Json,
    >)
        ensures
            hello_is_made(*self, client_name@, protocol_version, r),
    {
        if self.hello_complete {
            return Err(breach("hello has already completed on this connection"));
        }
        let mut members: Vec<JsonMember> = Vec::new();
        put_member(&mut members, "protocol_version", Json::unsigned(protocol_version));
        put_member(&mut members, "client_name", Json::text(client_name));
        put_member(
            &mut members,
            "snapshot_transport",
            Json::text(self.snapshot_transport.as_wire_name()),
        );
        Ok(Json::Object(members))
    }

    /// Takes in the Host's answer to the handshake.
    pub fn finish_hello(&mut self, response: HostResponse) -> (r: HostClientResult<HostResponse>)
        ensures
            hello_ends(*old(self), response, *final(self), r),
    {
        let named = match response.value.text_at("type") {
            Some(kind) => text_eq(kind, "hello"),
            None => false,
        };
        if !named {
            return Err(breach("Host hello response has an unexpected type"));
        }
        match response_capabilities(&response.value) {
            Ok(capabilities) => {
                self.capabilities = capabilities;
                self.hello_complete = true;
                Ok(response)
            },
            Err(error) => Err(error),
        }
    }

    /// The capabilities the Host advertised.
    pub fn capabilities(&self) -> (r: &Vec<String>)
        ensures
            *r == self.capabilities,
    {
        &self.capabilities
    }

    /// Whether the Host advertised a capability.
    pub fn supports_capability(&self, capability: &str) -> (r: bool)
        ensures
            r == has_text(self.capabilities@, capability@),
    {
        holds_text(&self.capabilities, capability)
    }

    /// Starts an operation on a connection that is ready.
    pub fn begin_request_operation(&mut self) -> (r: HostClientResult<()>)
        ensures
            operation_begins(*old(self), *final(self), r),
    {
        match self.state {
            ConnectionState::Ready => {
                self.state = ConnectionState::InFlight;
                Ok(())
            },
            ConnectionState::Unusable => Err(
                breach(
                    "Host connection is unusable after an interrupted or incomplete request; reconnect before sending another request",
                ),
            ),
            ConnectionState::InFlight => Err(
                breach("another Host request is already in flight on this connection"),
            ),
        }
    }

    /// Ends an operation: the connection is ready again after an answer or the
    /// Host's refusal, and unusable after anything else.
    pub fn finish_request_operation<T>(&mut self, result: HostClientResult<T>) -> (r:
        HostClientResult<T>)
        ensures
            r == result,
            old(self).settles(result, *final(self)),
    {
        let orderly = match &result {
            Ok(_) => true,
            Err(error) => match error {
                HostClientError::Remote { .. } => true,
                _ => false,
            },
        };
        self.state = if orderly {
            ConnectionState::Ready
        } else {
            ConnectionState::Unusable
        };
        result
    }

    /// An operation was given up before it ended.
    pub fn abandon_request_operation(&mut self)
        ensures
            *final(self) == old(self).after_operation(false),
    {
        self.state = ConnectionState::Unusable;
    }

    /// An operation did not end in time.
    pub fn time_out_request_operation(&mut self, timeout_ms: u64) -> (r: HostClientError)
        ensures
            r == (HostClientError::Timeout { timeout_ms }),
            *final(self) == old(self).after_operation(false),
    {
        self.state = ConnectionState::Unusable;
        HostClientError::Timeout { timeout_ms }
    }

    /// A number for the next request.
    pub fn next_request_id(&mut self) -> (r: String)
        ensures
            id_is_drawn(*old(self), *final(self), r),
    {
        let id = join2("cua-client-", decimal_text(self.next_request_id).as_str());
        self.next_request_id = self.next_request_id.saturating_add(1);
        id
    }

    /// Keeps track of a request that is about to be written.
    pub fn register_outstanding_request(&mut self, request_id: &str) -> (r: HostClientResult<()>)
        requires
            old(self).well_formed(),
        ensures
            final(self).well_formed(),
            match old(self).tracking_refusal(request_id@) {
                Some(message) => *final(self) == *old(self) && breaks(r, message),
                None => r is Ok && old(self).tracks(request_id@, *final(self)),
            },
    {
        if self.outstanding.len() >= MAX_PARALLEL_DISCOVERY_REQUESTS {
            return Err(
                HostClientError::Protocol(
                    join3(
                        "one client operation tracks at most ",
                        decimal_text(MAX_PARALLEL_DISCOVERY_REQUESTS as u64).as_str(),
                        " request ids",
                    ),
                ),
            );
        }
        if holds_text(&self.outstanding, request_id) {
            return Err(
                HostClientError::Protocol(
                    join3("request_id ", request_id, " is already in flight"),
                ),
            );
        }
        let ghost before = *self;
        add_text(&mut self.outstanding, request_id.to_owned());
        proof {
            assert forall|i: int| 0 <= i < self.pending@.len() implies has_text(
                self.outstanding@,
                (#[trigger] self.pending@[i]).request_id@,
            ) by {
                assert(listed(before.outstanding@).contains(before.pending@[i].request_id@));
                assert(listed(self.outstanding@).contains(before.pending@[i].request_id@));
            }
        }
        Ok(())
    }

    /// A response that was read early.
    pub open spec fn takes_pending(
        self,
        request_id: Seq<char>,
        found: Option<ReceivedResponse>,
        after: HostConnection,
    ) -> bool {
        match found {
            Some(response) => {
                &&& response.request_id@ == request_id
                &&& self.pending@.contains(response)
                &&& listed(after.outstanding@) == listed(self.outstanding@).remove(request_id)
                &&& after == (HostConnection {
                    outstanding: after.outstanding,
                    pending: after.pending,
                    ..self
                })
                &&& exists|i: int|
                    0 <= i < self.pending@.len() && (#[trigger] self.pending@[i]) == response
                        && after.pending@ == self.pending@.remove(i)
            },
            None => after == self && !is_answered(self.pending@, request_id),
        }
    }

    /// Hands out a response that was read before it was asked for.
    pub fn take_pending(&mut self, request_id: &str) -> (r: Option<ReceivedResponse>)
        requires
            old(self).well_formed(),
        ensures
            final(self).well_formed(),
            old(self).takes_pending(request_id@, r, *final(self)),
    {
        let ghost before = *self;
        let mut i: usize = 0;
        while i < self.pending.len()
            invariant
                i <= self.pending.len(),
                *self == before,
                before.well_formed(),
                forall|k: int|
                    0 <= k < i ==> (#[trigger] before.pending@[k]).request_id@ != request_id@,
                before == *old(self),
            decreases self.pending.len() - i,
        {
            if text_eq(self.pending[i].request_id.as_str(), request_id) {
                let response = self.pending.remove(i);
                remove_text(&mut self.outstanding, request_id);
                proof {
                    let gone = i as int;
                    assert(response == before.pending@[gone]);
                    assert(self.pending@ =~= before.pending@.remove(gone));
                    assert forall|k: int| 0 <= k < self.pending@.len() implies has_text(
                        self.outstanding@,
                        (#[trigger] self.pending@[k]).request_id@,
                    ) by {
                        let at = if k < gone { k } else { k + 1 };
                        assert(self.pending@[k] == before.pending@[at]);
                        assert(before.pending@[at].request_id@ != before.pending@[gone].request_id@);
                        assert(listed(before.outstanding@).contains(
                            before.pending@[at].request_id@,
                        ));
                        assert(listed(self.outstanding@).contains(before.pending@[at].request_id@));
                    }
                    assert(distinct_responses(self.pending@)) by {
                        assert forall|a: int, b: int| 0 <= a < b < self.pending@.len() implies (
                        #[trigger] self.pending@[a]).request_id@ != (
                        #[trigger] self.pending@[b]).request_id@ by {
                            let x = if a < gone { a } else { a + 1 };
                            let y = if b < gone { b } else { b + 1 };
                            assert(self.pending@[a] == before.pending@[x]);
                            assert(self.pending@[b] == before.pending@[y]);
                        }
                    }
                }
                return Some(response);
            }
            i = i + 1;
        }
        None
    }
}

/// What a read response is to the request that waits for one.
#[derive(Debug)]
pub enum Correlation {
    /// It is the answer.
    Mine(ReceivedResponse),
    /// It answers another request, and is kept for it.
    Kept,
    /// It answers nothing that was asked, or answers it again.
    Failed(HostClientError),
}

/// What is made of a response while a request waits.
pub open spec fn correlates(
    before: HostConnection,
    request_id: Seq<char>,
    response: ReceivedResponse,
    after: HostConnection,
    result: Correlation,
) -> bool {
    if !has_text(before.outstanding@, response.request_id@) {
        &&& after == before
        &&& result matches Correlation::Failed(HostClientError::Protocol(message))
        &&& message@ == "Host returned an untracked request_id: "@ + response.request_id@
    } else if response.request_id@ == request_id {
        &&& result == Correlation::Mine(response)
        &&& before.untracks(request_id, after)
    } else if is_answered(before.pending@, response.request_id@) {
        &&& after == before
        &&& result matches Correlation::Failed(HostClientError::Protocol(message))
        &&& message@ == "Host returned a duplicate response for one request_id"@
    } else {
        &&& result == Correlation::Kept
        &&& after.pending@ == before.pending@.push(response)
        &&& after == (HostConnection { pending: after.pending, ..before })
    }
}

impl HostConnection {
    /// Whether a response to the request waits already.
    fn has_pending(&self, request_id: &str) -> (r: bool)
        ensures
            r == is_answered(self.pending@, request_id@),
    {
        let mut i: usize = 0;
        while i < self.pending.len()
            invariant
                i <= self.pending.len(),
                forall|k: int|
                    0 <= k < i ==> (#[trigger] self.pending@[k]).request_id@ != request_id@,
            decreases self.pending.len() - i,
        {
            if text_eq(self.pending[i].request_id.as_str(), request_id) {
                assert(self.pending@[i as int].request_id@ == request_id@);
                return true;
            }
            i = i + 1;
        }
        false
    }

    /// Sorts a response that was read. `awaited` is the request that waits, and
    /// no response to it has been kept.
    pub fn correlate(&mut self, awaited: &str, response: ReceivedResponse) -> (r: Correlation)
        requires
            old(self).well_formed(),
            !is_answered(old(self).pending@, awaited@),
        ensures
            final(self).well_formed(),
            correlates(*old(self), awaited@, response, *final(self), r),
            r is Kept ==> !is_answered(final(self).pending@, awaited@),
    {
        if !holds_text(&self.outstanding, response.request_id.as_str()) {
            return Correlation::Failed(
                HostClientError::Protocol(
                    join2(
                        "Host returned an untracked request_id: ",
                        response.request_id.as_str(),
                    ),
                ),
            );
        }
        let ghost before = *self;
        if text_eq(response.request_id.as_str(), awaited) {
            remove_text(&mut self.outstanding, awaited);
            proof {
                assert forall|k: int| 0 <= k < self.pending@.len() implies has_text(
                    self.outstanding@,
                    (#[trigger] self.pending@[k]).request_id@,
                ) by {
                    assert(before.pending@[k].request_id@ != awaited@);
                    assert(listed(before.outstanding@).contains(before.pending@[k].request_id@));
                    assert(listed(self.outstanding@).contains(before.pending@[k].request_id@));
                }
            }
            return Correlation::Mine(response);
        }
        if self.has_pending(response.request_id.as_str()) {
            return Correlation::Failed(
                breach("Host returned a duplicate response for one request_id"),
            );
        }
        let ghost kept = response;
        self.pending.push(response);
        proof {
            assert forall|k: int| 0 <= k < before.pending@.len() implies (
            #[trigger] before.pending@[k]).request_id@ != kept.request_id@ by {
                assert(!is_answered(before.pending@, kept.request_id@));
            }
            assert forall|k: int| 0 <= k < self.pending@.len() implies (
            #[trigger] self.pending@[k]).request_id@ != awaited@ by {
                if k < before.pending@.len() {
                    assert(self.pending@[k] == before.pending@[k]);
                }
            }
        }
        Correlation::Kept
    }
}

/// How far the reading of a response got.
#[derive(Debug)]
pub enum Receiving {
    /// The response itself.
    Envelope,
    /// The binary frame it advertised.
    Attachment { value: Json, length: usize },
}

/// What a frame amounts to.
#[derive(Debug)]
pub enum FrameOutcome {
    More(Receiving),
    Response(ReceivedResponse),
    Failed(HostClientError),
}

/// The frame breaks the protocol.
pub open spec fn frame_breaks(outcome: FrameOutcome, message: Seq<char>) -> bool {
    outcome matches FrameOutcome::Failed(HostClientError::Protocol(text)) && text@ == message
}

/// A response that was read to its end.
pub open spec fn is_complete_response(
    value: JsonTree,
    attachment: Option<Seq<u8>>,
    outcome: FrameOutcome,
) -> bool {
    match value.text_at("request_id"@) {
        None => frame_breaks(outcome, "Host response omitted request_id"@),
        Some(request_id) => {
            &&& outcome matches FrameOutcome::Response(response)
            &&& response.request_id@ == request_id
            &&& response.value.view() == value
            &&& match attachment {
                Some(bytes) => response.binary_attachment matches Some(kept) && kept@ == bytes,
                None => response.binary_attachment is None,
            }
        },
    }
}

/// What a frame that was parsed as an envelope amounts to.
pub open spec fn is_envelope_outcome(
    parsed: Result<JsonTree, Seq<char>>,
    outcome: FrameOutcome,
) -> bool {
    match parsed {
        Err(message) => frame_breaks(outcome, message),
        Ok(tree) => match advertised_length(tree) {
            Some(advertised) => {
                &&& outcome matches FrameOutcome::More(Receiving::Attachment { value, length })
                &&& value.view() == tree
                &&& length == advertised
            },
            None => is_complete_response(tree, None, outcome),
        },
    }
}

/// What a frame amounts to, given what was read before it.
pub open spec fn is_frame_outcome(
    receiving: Receiving,
    frame: HostClientResult<Option<Vec<u8>>>,
    outcome: FrameOutcome,
) -> bool {
    match frame {
        Err(error) => outcome == FrameOutcome::Failed(error),
        Ok(None) => match receiving {
            Receiving::Envelope => frame_breaks(outcome, "Host closed the connection"@),
            Receiving::Attachment { .. } => frame_breaks(
                outcome,
                "Host advertised a binary attachment but closed the connection"@,
            ),
        },
        Ok(Some(bytes)) => match receiving {
            Receiving::Envelope => is_envelope_outcome(parsed_bytes(bytes@), outcome),
            Receiving::Attachment { value, length } => if bytes@.len() != length {
                frame_breaks(
                    outcome,
                    "binary attachment length "@ + decimal(bytes@.len())
                        + " does not match advertised length "@ + decimal(length as nat),
                )
            } else {
                is_complete_response(value.view(), Some(bytes@), outcome)
            },
        },
    }
}

fn complete_response(value: Json, attachment: Option<Vec<u8>>) -> (r: FrameOutcome)
    ensures
        is_complete_response(
            value.view(),
            match attachment {
                Some(bytes) => Some(bytes@),
                None => None,
            },
            r,
        ),
{
    let request_id = match value.text_at("request_id") {
        Some(request_id) => request_id.to_owned(),
        None => return FrameOutcome::Failed(breach("Host response omitted request_id")),
    };
    FrameOutcome::Response(ReceivedResponse { request_id, value, binary_attachment: attachment })
}

/// Takes an envelope in that has been parsed, or not.
pub fn take_envelope(parsed: Result<Json, String>) -> (r: FrameOutcome)
    ensures
        is_envelope_outcome(
            match parsed {
                Ok(value) => Ok(value.view()),
                Err(message) => Err(message@),
            },
            r,
        ),
{
    match parsed {
        Ok(value) => match binary_attachment_length(&value) {
            Some(length) => FrameOutcome::More(Receiving::Attachment { value, length }),
            None => complete_response(value, None),
        },
        Err(message) => FrameOutcome::Failed(HostClientError::Protocol(message)),
    }
}

/// Takes one frame in.
pub fn take_frame(receiving: Receiving, frame: HostClientResult<Option<Vec<u8>>>) -> (r: FrameOutcome)
    ensures
        is_frame_outcome(receiving, frame, r),
{
    let body = match frame {
        Ok(body) => body,
        Err(error) => return FrameOutcome::Failed(error),
    };
    match receiving {
        Receiving::Envelope => {
            let bytes = match body {
                Some(bytes) => bytes,
                None => return FrameOutcome::Failed(breach("Host closed the connection")),
            };
            take_envelope(parse_json_bytes(&bytes))
        },
        Receiving::Attachment { value, length } => {
            let bytes = match body {
                Some(bytes) => bytes,
                None => return FrameOutcome::Failed(
                    breach("Host advertised a binary attachment but closed the connection"),
                ),
            };
            if bytes.len() != length {
                let mut text = join3(
                    "binary attachment length ",
                    decimal_text(bytes.len() as u64).as_str(),
                    " does not match advertised length ",
                );
                text.append(decimal_text(length as u64).as_str());
                return FrameOutcome::Failed(HostClientError::Protocol(text));
            }
            complete_response(value, Some(bytes))
        },
    }
}

/// One request as it is written.
pub fn request_envelope(request_id: &str, method: &str, params: Json) -> (r: Json)
    ensures
        r.view() == envelope_tree(request_id@, method@, params.view()),
{
    let mut members: Vec<JsonMember> = Vec::new();
    put_member(&mut members, "request_id", Json::text(request_id));
    put_member(&mut members, "method", Json::text(method));
    put_member(&mut members, "params", params);
    Json::Object(members)
}

/// A connection that failed an operation stays closed to every other one: no
/// request starts on it, and no later result reopens it.
pub proof fn law_interrupted_connection_stays_closed<T>(
    connection: HostConnection,
    result: HostClientResult<T>,
    after: HostConnection,
)
    requires
        connection.settles(result, after),
        !is_orderly(result),
    ensures
        after.state == ConnectionState::Unusable,
        after.outstanding == connection.outstanding,
        after.pending == connection.pending,
        busy_message(after.state)
            == "Host connection is unusable after an interrupted or incomplete request; reconnect before sending another request"@,
{
}

/// A response reaches the request it answers and no other: while a request
/// waits, the answer it gets carries its own number and was asked for.
pub proof fn law_responses_reach_their_request(
    before: HostConnection,
    request_id: Seq<char>,
    response: ReceivedResponse,
    after: HostConnection,
    result: Correlation,
)
    requires
        before.well_formed(),
        correlates(before, request_id, response, after, result),
    ensures
        result matches Correlation::Mine(mine) ==> mine.request_id@ == request_id && has_text(
            before.outstanding@,
            request_id,
        ),
        result is Kept ==> is_answered(after.pending@, response.request_id@) && has_text(
            before.outstanding@,
            response.request_id@,
        ),
        !has_text(before.outstanding@, response.request_id@) ==> result is Failed && after == before,
{
    if result is Kept {
        assert(after.pending@[before.pending@.len() as int] == response);
    }
}

/// Generated numbers count up: no two of them are the same until the counter
/// is spent.
pub proof fn law_generated_ids_differ(a: u64, b: u64)
    requires
        a != b,
    ensures
        generated_id(a) != generated_id(b),
{
    crate::text::lemma_decimal_is_injective(a as nat, b as nat);
    let prefix = "cua-client-"@;
    if generated_id(a) == generated_id(b) {
        assert(generated_id(a).skip(prefix.len() as int) =~= decimal(a as nat));
        assert(generated_id(b).skip(prefix.len() as int) =~= decimal(b as nat));
    }
}

/// A request names its identifier, its method and its arguments, and nothing else
/// is put between them.
pub proof fn law_requests_carry_what_was_asked(
    request_id: Seq<char>,
    method: Seq<char>,
    params: JsonTree,
    protocol_version: u64,
    client_name: Seq<char>,
    transport: SnapshotTransport,
)
    ensures
        envelope_tree(request_id, method, params).text_at("request_id"@) == Some(request_id),
        envelope_tree(request_id, method, params).text_at("method"@) == Some(method),
        envelope_tree(request_id, method, params).get("params"@) == Some(params),
        hello_tree(protocol_version, client_name, transport).u64_at("protocol_version"@) == Some(
            protocol_version,
        ),
        hello_tree(protocol_version, client_name, transport).text_at("client_name"@) == Some(
            client_name,
        ),
        hello_tree(protocol_version, client_name, transport).text_at("snapshot_transport"@) == Some(
            match transport {
                SnapshotTransport::BinaryFrame => "binary_frame"@,
                SnapshotTransport::SharedMemory => "shared_memory"@,
            },
        ),
{
    reveal_strlit("request_id");
    reveal_strlit("method");
    reveal_strlit("params");
    reveal_strlit("protocol_version");
    reveal_strlit("client_name");
    reveal_strlit("snapshot_transport");
    assert("request_id"@.len() == 10);
    assert("method"@.len() == 6);
    assert("params"@.len() == 6);
    assert("protocol_version"@.len() == 16);
    assert("client_name"@.len() == 11);
    assert("snapshot_transport"@.len() == 18);
    assert("method"@[0] != "params"@[0]);
}

/// The handshake is made once: before it no stateful request passes, after it no
/// other handshake does. It is completed by a host that says hello, whose
/// capabilities are then known.
pub proof fn law_handshakes_are_made_once(
    before: HostConnection,
    client_name: Seq<char>,
    protocol_version: u64,
    made: HostClientResult<Json>,
    response: HostResponse,
    after: HostConnection,
    r: HostClientResult<HostResponse>,
    required: HostClientResult<()>,
)
    requires
        hello_is_made(before, client_name, protocol_version, made),
        hello_ends(before, response, after, r),
        hello_is_required(after, required),
    ensures
        made is Ok <==> !before.hello_complete,
        r is Ok ==> after.hello_complete && required is Ok && r == Ok::<
            HostResponse,
            HostClientError,
        >(response) && response.value.view().text_at("type"@) == Some("hello"@),
        r is Err ==> after == before,
        (r is Ok && (response.value.view().get("capabilities"@) matches Some(JsonTree::Array(_))))
            ==> after.capabilities@.len() == response.value.view().get(
            "capabilities"@,
        )->0->Array_0.len(),
        r is Ok && response.value.view().get("capabilities"@) is None ==> after.capabilities@.len()
            == 0,
        required is Ok <==> after.hello_complete,
        after.state == before.state,
        after.snapshot_transport == before.snapshot_transport,
        after.pending == before.pending,
        after.outstanding == before.outstanding,
{
}

/// A connection carries one operation at a time, and none after it broke; an
/// operation that was answered leaves it ready, and any other breaks it.
pub proof fn law_connections_carry_one_operation(
    before: HostConnection,
    after: HostConnection,
    r: HostClientResult<()>,
    orderly: bool,
)
    requires
        operation_begins(before, after, r),
    ensures
        r is Ok <==> before.state == ConnectionState::Ready,
        r is Ok ==> after.state == ConnectionState::InFlight,
        r is Err ==> after == before,
        after.after_operation(orderly).state == if orderly {
            ConnectionState::Ready
        } else {
            ConnectionState::Unusable
        },
        after.pending == before.pending,
        after.outstanding == before.outstanding,
        after.after_operation(orderly).pending == before.pending,
        after.after_operation(orderly).outstanding == before.outstanding,
        after.after_operation(orderly).hello_complete == before.hello_complete,
{
}

/// Identifiers that are drawn one after the other differ.
pub proof fn law_drawn_ids_differ(
    before: HostConnection,
    middle: HostConnection,
    after: HostConnection,
    first: String,
    second: String,
)
    requires
        id_is_drawn(before, middle, first),
        id_is_drawn(middle, after, second),
        before.next_request_id < u64::MAX,
    ensures
        first@ != second@,
        middle.outstanding == before.outstanding,
        middle.state == before.state,
{
    law_generated_ids_differ(before.next_request_id, middle.next_request_id);
}

/// A response reaches the request that waits for it, is kept for another that is
/// outstanding, or breaks the connection; it is never lost or handed to another.
pub proof fn law_responses_are_correlated(
    before: HostConnection,
    request_id: Seq<char>,
    response: ReceivedResponse,
    after: HostConnection,
    result: Correlation,
)
    requires
        correlates(before, request_id, response, after, result),
    ensures
        result matches Correlation::Mine(mine) ==> mine == response && response.request_id@
            == request_id && !listed(after.outstanding@).contains(request_id) && after.pending
            == before.pending,
        result is Kept ==> response.request_id@ != request_id && after.pending@.len()
            == before.pending@.len() + 1 && after.pending@.last() == response && after.outstanding
            == before.outstanding,
        result is Failed ==> after == before,
        has_text(before.outstanding@, response.request_id@) && response.request_id@ == request_id
            ==> result is Mine,
        !has_text(before.outstanding@, response.request_id@) ==> result is Failed,
        after.state == before.state,
{
}

/// An operation is orderly where it was answered, with a success or with an error
/// of the host.
pub proof fn law_answered_operations_are_orderly<T>(result: HostClientResult<T>)
    ensures
        is_orderly(result) <==> result is Ok || (result matches Err(HostClientError::Remote { .. })),
{
}

/// A received message is its JSON, and the attachment that it advertised, at that
/// length; anything else breaks the connection.
pub proof fn law_messages_are_received_whole(
    receiving: Receiving,
    frame: HostClientResult<Option<Vec<u8>>>,
    outcome: FrameOutcome,
)
    requires
        is_frame_outcome(receiving, frame, outcome),
    ensures
        frame matches Err(error) ==> outcome == FrameOutcome::Failed(error),
        (frame matches Ok(None)) ==> outcome is Failed,
        outcome matches FrameOutcome::Response(response) ==> {
            &&& frame is Ok
            &&& frame->Ok_0 is Some
            &&& response.value.view().text_at("request_id"@) == Some(response.request_id@)
            &&& receiving is Envelope ==> parsed_bytes(frame->Ok_0->0@) == Ok::<
                JsonTree,
                Seq<char>,
            >(response.value.view()) && response.binary_attachment is None && advertised_length(
                response.value.view(),
            ) is None
            &&& receiving matches Receiving::Attachment { value, length } ==> response.value.view()
                == value.view() && response.binary_attachment is Some
                && response.binary_attachment->0@ == frame->Ok_0->0@ && frame->Ok_0->0@.len()
                == length
        },
        outcome matches FrameOutcome::More(next) ==> receiving is Envelope && (
        next matches Receiving::Attachment { value, length } && parsed_bytes(frame->Ok_0->0@)
            == Ok::<JsonTree, Seq<char>>(value.view()) && advertised_length(value.view()) == Some(
            length,
        )),
{
}

} // verus!
