//! Exchanges over a Host connection: one request, one request that can be
//! cancelled, and a batch of reads.

use crate::client::{
    request_envelope, take_frame, ConnectionState, Correlation, FrameOutcome, HostConnection,
    Receiving,
};
#[allow(unused_imports)]
use crate::client::{
    busy_message, correlates, envelope_tree, generated_id, hello_tree, is_answered,
    is_frame_outcome, is_orderly,
};
use crate::client_protocol::{
    breach, HostClientError, HostClientResult, HostResponse, ReceivedResponse,
};
#[allow(unused_imports)]
use crate::client_protocol::{breaks, is_response_result};
use crate::json::{put_member, Json, JsonMember};
#[allow(unused_imports)]
use crate::json::JsonTree;
#[allow(unused_imports)]
use crate::text::{occurs_at, occurs_in};
#[allow(unused_imports)]
use crate::text_sets::listed;
use vstd::prelude::*;

verus! {

/// How a request that takes long can be cancelled.
#[derive(Debug)]
pub enum CancelPlan {
    Never,
    /// With a request of its own, with these parameters.
    Request { params: Json },
    /// By the number of the waiting request.
    WindowWait,
}

/// The number that a request goes under.
#[derive(Debug)]
pub enum RequestNumber {
    /// The next one of the connection.
    Generated,
    /// The caller's own, and why the protocol refuses it, where it does.
    Given { id: String, refusal: Option<String> },
}

/// How far an exchange got.
#[derive(Debug)]
pub enum ExchangePhase {
    /// The protocol's verdict on the request's number.
    Check { method: String, params: Json },
    /// The request written and flushed.
    Write { envelope: Json },
    /// A frame, or the wish to cancel.
    Await { receiving: Receiving },
    /// The protocol's verdict on the cancellation's number.
    CheckCancel { cancel_id: String },
    /// The cancellation written and flushed.
    WriteCancel { cancel_id: String, envelope: Json },
    /// A frame, on the way to the answer to the cancellation.
    AwaitCancel { cancel_id: String, receiving: Receiving },
    /// A frame, on the way to the answer to the cancelled request.
    AwaitAfter { receiving: Receiving, cancelled: HostClientResult<HostResponse> },
}

/// What the transport hands back.
#[derive(Debug)]
pub enum ExchangeEvent {
    /// Why the protocol does not take the number, if it does not.
    Checked(Option<String>),
    Written(HostClientResult<()>),
    Frame(HostClientResult<Option<Vec<u8>>>),
    Cancelled,
}

/// One request on its way.
#[derive(Debug)]
pub struct ExchangeRun {
    pub request_id: String,
    pub plan: CancelPlan,
    pub phase: ExchangePhase,
}

/// A run over a connection that goes on, or is done.
#[derive(Debug)]
pub enum ClientStep<Run, T> {
    Continue(Run),
    Done(HostClientResult<T>),
}

pub type ExchangeStep = ClientStep<ExchangeRun, HostResponse>;

/// What a frame is to the request that waits.
#[derive(Debug)]
pub enum Received {
    More(Receiving),
    Answer(ReceivedResponse),
    Failed(HostClientError),
}

/// What is made of a response that is complete.
pub open spec fn sorts(
    before: HostConnection,
    awaited: Seq<char>,
    response: ReceivedResponse,
    after: HostConnection,
    received: Received,
) -> bool {
    exists|correlation: Correlation|
        {
            &&& #[trigger] correlates(before, awaited, response, after, correlation)
            &&& received == match correlation {
                Correlation::Mine(mine) => Received::Answer(mine),
                Correlation::Kept => Received::More(Receiving::Envelope),
                Correlation::Failed(error) => Received::Failed(error),
            }
        }
}

/// What is made of a frame while a request waits.
pub open spec fn receives(
    before: HostConnection,
    awaited: Seq<char>,
    receiving: Receiving,
    frame: HostClientResult<Option<Vec<u8>>>,
    after: HostConnection,
    received: Received,
) -> bool {
    exists|outcome: FrameOutcome|
        {
            &&& #[trigger] is_frame_outcome(receiving, frame, outcome)
            &&& match outcome {
                FrameOutcome::More(next) => after == before && received == Received::More(next),
                FrameOutcome::Failed(error) => after == before && received == Received::Failed(
                    error,
                ),
                FrameOutcome::Response(response) => sorts(
                    before,
                    awaited,
                    response,
                    after,
                    received,
                ),
            }
        }
}

/// What the end of a wait returns.
pub open spec fn is_received_result(
    received: Received,
    result: HostClientResult<HostResponse>,
) -> bool {
    match received {
        Received::More(_) => false,
        Received::Answer(response) => is_response_result(response, result),
        Received::Failed(error) => result == Err::<HostResponse, HostClientError>(error),
    }
}

impl HostConnection {
    /// Takes a frame in while a request waits.
    pub fn receive(
        &mut self,
        awaited: &str,
        receiving: Receiving,
        frame: HostClientResult<Option<Vec<u8>>>,
    ) -> (r: Received)
        requires
            old(self).well_formed(),
            !is_answered(old(self).pending@, awaited@),
        ensures
            final(self).well_formed(),
            receives(*old(self), awaited@, receiving, frame, *final(self), r),
            r is More ==> !is_answered(final(self).pending@, awaited@),
            r matches Received::Answer(response) ==> response.request_id@ == awaited@,
    {
        let ghost before = *self;
        let outcome = take_frame(receiving, frame);
        assert(is_frame_outcome(receiving, frame, outcome));
        match outcome {
            FrameOutcome::More(next) => Received::More(next),
            FrameOutcome::Failed(error) => Received::Failed(error),
            FrameOutcome::Response(response) => {
                let correlation = self.correlate(awaited, response);
                assert(correlates(before, awaited@, response, *self, correlation));
                let received = match correlation {
                    Correlation::Mine(mine) => Received::Answer(mine),
                    Correlation::Kept => Received::More(Receiving::Envelope),
                    Correlation::Failed(error) => Received::Failed(error),
                };
                assert(sorts(before, awaited@, response, *self, received));
                received
            },
        }
    }
}

/// The exchange ends with this result, and the connection is settled.
pub open spec fn ends<Run, T>(
    before: HostConnection,
    result: HostClientResult<T>,
    after: HostConnection,
    step: ClientStep<Run, T>,
) -> bool {
    step == ClientStep::<Run, T>::Done(result) && before.settles(result, after)
}

/// The exchange ends with a breach of the protocol, and the connection is
/// closed to others.
pub open spec fn ends_in_breach<Run, T>(
    before: HostConnection,
    message: Seq<char>,
    after: HostConnection,
    step: ClientStep<Run, T>,
) -> bool {
    &&& step matches ClientStep::Done(result)
    &&& breaks(result, message)
    &&& after == before.after_operation(false)
}

impl ExchangeRun {
    pub open spec fn at(self, phase: ExchangePhase) -> ExchangeRun {
        ExchangeRun { phase, ..self }
    }

    /// What the run awaits has not been answered yet.
    pub open spec fn fits(self, connection: HostConnection) -> bool {
        &&& connection.well_formed()
        &&& match self.phase {
            ExchangePhase::Check { .. } => true,
            ExchangePhase::Write { .. } => !is_answered(connection.pending@, self.request_id@),
            ExchangePhase::Await { .. } => !is_answered(connection.pending@, self.request_id@),
            ExchangePhase::CheckCancel { .. } => true,
            ExchangePhase::WriteCancel { cancel_id, .. } => !is_answered(
                connection.pending@,
                cancel_id@,
            ),
            ExchangePhase::AwaitCancel { cancel_id, .. } => !is_answered(
                connection.pending@,
                cancel_id@,
            ),
            ExchangePhase::AwaitAfter { .. } => !is_answered(
                connection.pending@,
                self.request_id@,
            ),
        }
    }

    /// The method that cancels.
    pub open spec fn cancel_method(self) -> Seq<char> {
        match self.plan {
            CancelPlan::WindowWait => "cancel_window_wait"@,
            _ => "cancel"@,
        }
    }

    /// The parameters that cancel.
    pub open spec fn cancel_params(self) -> JsonTree {
        match self.plan {
            CancelPlan::Request { params } => params.view(),
            _ => JsonTree::Object(
                Map::<Seq<char>, JsonTree>::empty().insert(
                    "wait_id"@,
                    JsonTree::Text(self.request_id@),
                ),
            ),
        }
    }
}

/// The two results of a cancelled exchange: a cancellation that failed hides
/// the request's own result.
pub open spec fn is_combined(
    cancelled: HostClientResult<HostResponse>,
    requested: HostClientResult<HostResponse>,
    result: HostClientResult<HostResponse>,
) -> bool {
    match cancelled {
        Err(error) => result == Err::<HostResponse, HostClientError>(error),
        Ok(_) => result == requested,
    }
}

/// The number was checked: the request is tracked and written.
pub open spec fn checked_step(
    run: ExchangeRun,
    before: HostConnection,
    refusal: Option<String>,
    method: Seq<char>,
    params: JsonTree,
    after: HostConnection,
    step: ExchangeStep,
) -> bool {
    match refusal {
        Some(message) => ends_in_breach(before, message@, after, step),
        None => match before.tracking_refusal(run.request_id@) {
            Some(message) => ends_in_breach(before, message, after, step),
            None => {
                &&& before.tracks(run.request_id@, after)
                &&& step matches ClientStep::Continue(next)
                &&& next.phase matches ExchangePhase::Write { envelope }
                &&& envelope.view() == envelope_tree(run.request_id@, method, params)
                &&& next == run.at(next.phase)
            },
        },
    }
}

/// The cancellation's number was checked.
pub open spec fn cancel_checked_step(
    run: ExchangeRun,
    cancel_id: String,
    before: HostConnection,
    refusal: Option<String>,
    after: HostConnection,
    step: ExchangeStep,
) -> bool {
    match refusal {
        Some(message) => ends_in_breach(before, message@, after, step),
        None => match before.tracking_refusal(cancel_id@) {
            Some(message) => ends_in_breach(before, message, after, step),
            None => {
                &&& before.tracks(cancel_id@, after)
                &&& step matches ClientStep::Continue(next)
                &&& next.phase matches ExchangePhase::WriteCancel { cancel_id: id, envelope }
                &&& id == cancel_id
                &&& envelope.view() == envelope_tree(
                    cancel_id@,
                    run.cancel_method(),
                    run.cancel_params(),
                )
                &&& next == run.at(next.phase)
            },
        },
    }
}

/// Something was written.
pub open spec fn written_step(
    run: ExchangeRun,
    before: HostConnection,
    written: HostClientResult<()>,
    phase: ExchangePhase,
    after: HostConnection,
    step: ExchangeStep,
) -> bool {
    match written {
        Err(error) => ends(before, Err(error), after, step),
        Ok(()) => after == before && step == ExchangeStep::Continue(run.at(phase)),
    }
}

/// A frame came while the request waits.
pub open spec fn awaited_step(
    run: ExchangeRun,
    before: HostConnection,
    receiving: Receiving,
    frame: HostClientResult<Option<Vec<u8>>>,
    after: HostConnection,
    step: ExchangeStep,
) -> bool {
    exists|middle: HostConnection, received: Received|
        {
            &&& #[trigger] receives(before, run.request_id@, receiving, frame, middle, received)
            &&& match received {
                Received::More(next) => after == middle && step == ExchangeStep::Continue(
                    run.at(ExchangePhase::Await { receiving: next }),
                ),
                _ => {
                    &&& step matches ClientStep::Done(result)
                    &&& is_received_result(received, result)
                    &&& middle.settles(result, after)
                },
            }
        }
}

/// The wait for the cancelled request begins: its answer may be there already.
pub open spec fn resumes(
    run: ExchangeRun,
    before: HostConnection,
    cancelled: HostClientResult<HostResponse>,
    after: HostConnection,
    step: ExchangeStep,
) -> bool {
    exists|middle: HostConnection, found: Option<ReceivedResponse>|
        {
            &&& #[trigger] before.takes_pending(run.request_id@, found, middle)
            &&& match found {
                None => after == middle && step == ExchangeStep::Continue(
                    run.at(
                        ExchangePhase::AwaitAfter { receiving: Receiving::Envelope, cancelled },
                    ),
                ),
                Some(response) => {
                    &&& step matches ClientStep::Done(result)
                    &&& middle.settles(result, after)
                    &&& exists|requested: HostClientResult<HostResponse>|
                        #[trigger] is_response_result(response, requested) && is_combined(
                            cancelled,
                            requested,
                            result,
                        )
                },
            }
        }
}

/// The cancellation was answered, or its wait failed.
pub open spec fn cancelled_step(
    run: ExchangeRun,
    before: HostConnection,
    cancelled: HostClientResult<HostResponse>,
    after: HostConnection,
    step: ExchangeStep,
) -> bool {
    if run.plan is WindowWait && cancelled is Err {
        ends(before, cancelled, after, step)
    } else {
        resumes(run, before, cancelled, after, step)
    }
}

/// A frame came while the cancellation waits.
pub open spec fn awaited_cancel_step(
    run: ExchangeRun,
    cancel_id: String,
    before: HostConnection,
    receiving: Receiving,
    frame: HostClientResult<Option<Vec<u8>>>,
    after: HostConnection,
    step: ExchangeStep,
) -> bool {
    exists|middle: HostConnection, received: Received|
        {
            &&& #[trigger] receives(before, cancel_id@, receiving, frame, middle, received)
            &&& match received {
                Received::More(next) => after == middle && step == ExchangeStep::Continue(
                    run.at(ExchangePhase::AwaitCancel { cancel_id, receiving: next }),
                ),
                _ => exists|cancelled: HostClientResult<HostResponse>|
                    #[trigger] is_received_result(received, cancelled) && cancelled_step(
                        run,
                        middle,
                        cancelled,
                        after,
                        step,
                    ),
            }
        }
}

/// A frame came while the cancelled request waits.
pub open spec fn awaited_after_step(
    run: ExchangeRun,
    before: HostConnection,
    receiving: Receiving,
    cancelled: HostClientResult<HostResponse>,
    frame: HostClientResult<Option<Vec<u8>>>,
    after: HostConnection,
    step: ExchangeStep,
) -> bool {
    exists|middle: HostConnection, received: Received|
        {
            &&& #[trigger] receives(before, run.request_id@, receiving, frame, middle, received)
            &&& match received {
                Received::More(next) => after == middle && step == ExchangeStep::Continue(
                    run.at(ExchangePhase::AwaitAfter { receiving: next, cancelled }),
                ),
                _ => {
                    &&& step matches ClientStep::Done(result)
                    &&& middle.settles(result, after)
                    &&& exists|requested: HostClientResult<HostResponse>|
                        #[trigger] is_received_result(received, requested) && is_combined(
                            cancelled,
                            requested,
                            result,
                        )
                },
            }
        }
}

/// The caller wants the request cancelled: the cancellation gets a number of
/// its own.
pub open spec fn cancels(
    run: ExchangeRun,
    before: HostConnection,
    after: HostConnection,
    step: ExchangeStep,
) -> bool {
    &&& step matches ClientStep::Continue(next)
    &&& next.phase matches ExchangePhase::CheckCancel { cancel_id }
    &&& cancel_id@ == generated_id(before.next_request_id)
    &&& next == run.at(next.phase)
    &&& after == (HostConnection {
        next_request_id: if before.next_request_id < u64::MAX {
            (before.next_request_id + 1) as u64
        } else {
            u64::MAX
        },
        ..before
    })
}

/// One step of an exchange.
pub open spec fn exchange_step(
    run: ExchangeRun,
    before: HostConnection,
    event: ExchangeEvent,
    after: HostConnection,
    step: ExchangeStep,
) -> bool {
    match (run.phase, event) {
        (ExchangePhase::Check { method, params }, ExchangeEvent::Checked(refusal)) => checked_step(
            run,
            before,
            refusal,
            method@,
            params.view(),
            after,
            step,
        ),
        (ExchangePhase::Write { .. }, ExchangeEvent::Written(written)) => written_step(
            run,
            before,
            written,
            (ExchangePhase::Await { receiving: Receiving::Envelope }),
            after,
            step,
        ),
        (ExchangePhase::Await { receiving }, ExchangeEvent::Frame(frame)) => awaited_step(
            run,
            before,
            receiving,
            frame,
            after,
            step,
        ),
        (ExchangePhase::Await { .. }, ExchangeEvent::Cancelled) => if run.plan is Never {
            after == before && step == ExchangeStep::Continue(run)
        } else {
            cancels(run, before, after, step)
        },
        (ExchangePhase::CheckCancel { cancel_id }, ExchangeEvent::Checked(refusal)) =>
            cancel_checked_step(run, cancel_id, before, refusal, after, step),
        (ExchangePhase::WriteCancel { cancel_id, .. }, ExchangeEvent::Written(written)) =>
            written_step(
                run,
                before,
                written,
                (ExchangePhase::AwaitCancel { cancel_id, receiving: Receiving::Envelope }),
                after,
                step,
            ),
        (ExchangePhase::AwaitCancel { cancel_id, receiving }, ExchangeEvent::Frame(frame)) =>
            awaited_cancel_step(run, cancel_id, before, receiving, frame, after, step),
        (ExchangePhase::AwaitAfter { receiving, cancelled }, ExchangeEvent::Frame(frame)) =>
            awaited_after_step(run, before, receiving, cancelled, frame, after, step),
        _ => after == before && step == ExchangeStep::Continue(run),
    }
}

/// How an exchange starts: on a connection that is ready, under the given or
/// the next generated number. Any other connection refuses it and stays as it
/// is.
pub open spec fn exchange_starts(
    before: HostConnection,
    request_id: Option<String>,
    method: String,
    params: Json,
    plan: CancelPlan,
    after: HostConnection,
    step: ExchangeStep,
) -> bool {
    if before.state != ConnectionState::Ready {
        &&& after == before
        &&& step matches ClientStep::Done(result)
        &&& breaks(result, busy_message(before.state))
    } else {
        &&& step matches ClientStep::Continue(run)
        &&& run.fits(after)
        &&& run.plan == plan
        &&& run.phase == (ExchangePhase::Check { method, params })
        &&& match request_id {
            Some(id) => run.request_id == id && after == (HostConnection {
                state: ConnectionState::InFlight,
                ..before
            }),
            None => run.request_id@ == generated_id(before.next_request_id) && after == (
            HostConnection {
                state: ConnectionState::InFlight,
                next_request_id: if before.next_request_id < u64::MAX {
                    (before.next_request_id + 1) as u64
                } else {
                    u64::MAX
                },
                ..before
            }),
        }
    }
}

/// How a request begins: after the handshake, under a number that the protocol
/// accepts. A connection that refuses it stays as it is.
pub open spec fn exchange_begins(
    before: HostConnection,
    number: RequestNumber,
    method: String,
    params: Json,
    plan: CancelPlan,
    after: HostConnection,
    step: ExchangeStep,
) -> bool {
    if !before.hello_complete {
        &&& after == before
        &&& step matches ClientStep::Done(result)
        &&& breaks(result, "hello must complete before stateful requests"@)
    } else {
        match number {
            RequestNumber::Generated => exchange_starts(
                before,
                None,
                method,
                params,
                plan,
                after,
                step,
            ),
            RequestNumber::Given { id, refusal: None } => exchange_starts(
                before,
                Some(id),
                method,
                params,
                plan,
                after,
                step,
            ),
            RequestNumber::Given { id: _, refusal: Some(message) } => {
                &&& after == before
                &&& step matches ClientStep::Done(result)
                &&& breaks(result, message@)
            },
        }
    }
}

/// How the handshake begins: once, with what the client says of itself.
pub open spec fn hello_begins(
    before: HostConnection,
    client_name: Seq<char>,
    protocol_version: u64,
    after: HostConnection,
    step: ExchangeStep,
) -> bool {
    if before.hello_complete {
        &&& after == before
        &&& step matches ClientStep::Done(result)
        &&& breaks(result, "hello has already completed on this connection"@)
    } else {
        exists|method: String, params: Json|
            {
                &&& method@ == "hello"@
                &&& params.view() == hello_tree(
                    protocol_version,
                    client_name,
                    before.snapshot_transport,
                )
                &&& #[trigger] exchange_starts(
                    before,
                    None,
                    method,
                    params,
                    CancelPlan::Never,
                    after,
                    step,
                )
            }
    }
}

impl HostConnection {
    /// Begins the handshake.
    pub fn begin_hello(&mut self, client_name: &str, protocol_version: u64) -> (r: ExchangeStep)
        requires
            old(self).well_formed(),
        ensures
            final(self).well_formed(),
            hello_begins(*old(self), client_name@, protocol_version, *final(self), r),
    {
        match self.hello_params(client_name, protocol_version) {
            Ok(params) => self.start_exchange(None, "hello".to_owned(), params, CancelPlan::Never),
            Err(error) => ClientStep::Done(Err(error)),
        }
    }

    /// Begins one exchange, under the caller's number or a generated one.
    pub fn begin_exchange(
        &mut self,
        number: RequestNumber,
        method: String,
        params: Json,
        plan: CancelPlan,
    ) -> (r: ExchangeStep)
        requires
            old(self).well_formed(),
        ensures
            final(self).well_formed(),
            exchange_begins(*old(self), number, method, params, plan, *final(self), r),
    {
        match self.require_hello() {
            Ok(()) => {},
            Err(error) => return ClientStep::Done(Err(error)),
        }
        match number {
            RequestNumber::Generated => self.start_exchange(None, method, params, plan),
            RequestNumber::Given { id, refusal: None } => {
                self.start_exchange(Some(id), method, params, plan)
            },
            RequestNumber::Given { id: _, refusal: Some(message) } => {
                ClientStep::Done(Err(HostClientError::Protocol(message)))
            },
        }
    }

    fn start_exchange(
        &mut self,
        request_id: Option<String>,
        method: String,
        params: Json,
        plan: CancelPlan,
    ) -> (r: ExchangeStep)
        requires
            old(self).well_formed(),
        ensures
            final(self).well_formed(),
            exchange_starts(*old(self), request_id, method, params, plan, *final(self), r),
    {
        match self.begin_request_operation() {
            Ok(()) => {},
            Err(error) => return ClientStep::Done(Err(error)),
        }
        let request_id = match request_id {
            Some(id) => id,
            None => self.next_request_id(),
        };
        ClientStep::Continue(
            ExchangeRun { request_id, plan, phase: ExchangePhase::Check { method, params } },
        )
    }
}

/// A result of one request that another hides.
fn combine(
    cancelled: HostClientResult<HostResponse>,
    requested: HostClientResult<HostResponse>,
) -> (r: HostClientResult<HostResponse>)
    ensures
        is_combined(cancelled, requested, r),
{
    match cancelled {
        Err(error) => Err(error),
        Ok(_) => requested,
    }
}

fn received_result(received: Received) -> (r: HostClientResult<HostResponse>)
    requires
        !(received is More),
    ensures
        is_received_result(received, r),
{
    match received {
        Received::Answer(response) => response.into_result(),
        Received::Failed(error) => Err(error),
        Received::More(_) => Err(breach("")),
    }
}

fn wait_params(request_id: &str) -> (r: Json)
    ensures
        r.view() == JsonTree::Object(
            Map::<Seq<char>, JsonTree>::empty().insert("wait_id"@, JsonTree::Text(request_id@)),
        ),
{
    let mut members: Vec<JsonMember> = Vec::new();
    put_member(&mut members, "wait_id", Json::text(request_id));
    Json::Object(members)
}

impl ExchangeRun {
    fn goes(self, phase: ExchangePhase) -> (r: ExchangeStep)
        ensures
            r == ExchangeStep::Continue(self.at(phase)),
    {
        let mut run = self;
        run.phase = phase;
        ClientStep::Continue(run)
    }

    fn on_checked(
        self,
        connection: &mut HostConnection,
        method: &str,
        params: Json,
        refusal: Option<String>,
    ) -> (r: ExchangeStep)
        requires
            old(connection).well_formed(),
        ensures
            final(connection).well_formed(),
            checked_step(
                self,
                *old(connection),
                refusal,
                method@,
                params.view(),
                *final(connection),
                r,
            ),
            r matches ClientStep::Continue(next) ==> next.fits(*final(connection)),
    {
        if let Some(message) = refusal {
            let failed: HostClientResult<HostResponse> = connection.finish_request_operation(
                Err(HostClientError::Protocol(message)),
            );
            return ClientStep::Done(failed);
        }
        match connection.register_outstanding_request(self.request_id.as_str()) {
            Err(error) => {
                let failed: HostClientResult<HostResponse> = connection.finish_request_operation(
                    Err(error),
                );
                ClientStep::Done(failed)
            },
            Ok(()) => {
                assert(!is_answered(connection.pending@, self.request_id@));
                let envelope = request_envelope(self.request_id.as_str(), method, params);
                self.goes(ExchangePhase::Write { envelope })
            },
        }
    }

    fn on_cancel_checked(
        self,
        connection: &mut HostConnection,
        cancel_id: String,
        refusal: Option<String>,
    ) -> (r: ExchangeStep)
        requires
            old(connection).well_formed(),
        ensures
            final(connection).well_formed(),
            cancel_checked_step(self, cancel_id, *old(connection), refusal, *final(connection), r),
            r matches ClientStep::Continue(next) ==> next.fits(*final(connection)),
    {
        if let Some(message) = refusal {
            let failed: HostClientResult<HostResponse> = connection.finish_request_operation(
                Err(HostClientError::Protocol(message)),
            );
            return ClientStep::Done(failed);
        }
        match connection.register_outstanding_request(cancel_id.as_str()) {
            Err(error) => {
                let failed: HostClientResult<HostResponse> = connection.finish_request_operation(
                    Err(error),
                );
                ClientStep::Done(failed)
            },
            Ok(()) => {
                assert(!is_answered(connection.pending@, cancel_id@));
                let envelope = match &self.plan {
                    CancelPlan::WindowWait => request_envelope(
                        cancel_id.as_str(),
                        "cancel_window_wait",
                        wait_params(self.request_id.as_str()),
                    ),
                    CancelPlan::Request { params } => request_envelope(
                        cancel_id.as_str(),
                        "cancel",
                        params.clone(),
                    ),
                    CancelPlan::Never => request_envelope(
                        cancel_id.as_str(),
                        "cancel",
                        wait_params(self.request_id.as_str()),
                    ),
                };
                self.goes(ExchangePhase::WriteCancel { cancel_id, envelope })
            },
        }
    }

    fn on_written(
        self,
        connection: &mut HostConnection,
        written: HostClientResult<()>,
        phase: ExchangePhase,
    ) -> (r: ExchangeStep)
        requires
            old(connection).well_formed(),
            self.at(phase).fits(*old(connection)),
        ensures
            final(connection).well_formed(),
            written_step(self, *old(connection), written, phase, *final(connection), r),
            r matches ClientStep::Continue(next) ==> next.fits(*final(connection)),
    {
        match written {
            Ok(()) => self.goes(phase),
            Err(error) => {
                let failed: HostClientResult<HostResponse> = connection.finish_request_operation(
                    Err(error),
                );
                ClientStep::Done(failed)
            },
        }
    }

    fn on_frame(
        self,
        connection: &mut HostConnection,
        receiving: Receiving,
        frame: HostClientResult<Option<Vec<u8>>>,
    ) -> (r: ExchangeStep)
        requires
            old(connection).well_formed(),
            !is_answered(old(connection).pending@, self.request_id@),
        ensures
            final(connection).well_formed(),
            awaited_step(self, *old(connection), receiving, frame, *final(connection), r),
            r matches ClientStep::Continue(next) ==> next.fits(*final(connection)),
    {
        let ghost before = *connection;
        let received = connection.receive(self.request_id.as_str(), receiving, frame);
        let ghost middle = *connection;
        assert(receives(before, self.request_id@, receiving, frame, middle, received));
        match received {
            Received::More(next) => self.goes(ExchangePhase::Await { receiving: next }),
            Received::Answer(response) => {
                let result = received_result(Received::Answer(response));
                ClientStep::Done(connection.finish_request_operation(result))
            },
            Received::Failed(error) => ClientStep::Done(
                connection.finish_request_operation(Err(error)),
            ),
        }
    }

    fn resume(self, connection: &mut HostConnection, cancelled: HostClientResult<HostResponse>) -> (r:
        ExchangeStep)
        requires
            old(connection).well_formed(),
        ensures
            final(connection).well_formed(),
            resumes(self, *old(connection), cancelled, *final(connection), r),
            r matches ClientStep::Continue(next) ==> next.fits(*final(connection)),
    {
        let ghost before = *connection;
        let found = connection.take_pending(self.request_id.as_str());
        let ghost middle = *connection;
        assert(before.takes_pending(self.request_id@, found, middle));
        match found {
            None => self.goes(
                ExchangePhase::AwaitAfter { receiving: Receiving::Envelope, cancelled },
            ),
            Some(response) => {
                let requested = response.into_result();
                assert(is_response_result(response, requested));
                let result = combine(cancelled, requested);
                ClientStep::Done(connection.finish_request_operation(result))
            },
        }
    }

    fn on_cancelled(
        self,
        connection: &mut HostConnection,
        cancelled: HostClientResult<HostResponse>,
    ) -> (r: ExchangeStep)
        requires
            old(connection).well_formed(),
        ensures
            final(connection).well_formed(),
            cancelled_step(self, *old(connection), cancelled, *final(connection), r),
            r matches ClientStep::Continue(next) ==> next.fits(*final(connection)),
    {
        let window_wait = match &self.plan {
            CancelPlan::WindowWait => true,
            _ => false,
        };
        if window_wait && cancelled.is_err() {
            return ClientStep::Done(connection.finish_request_operation(cancelled));
        }
        self.resume(connection, cancelled)
    }

    fn on_cancel_frame(
        self,
        connection: &mut HostConnection,
        cancel_id: String,
        receiving: Receiving,
        frame: HostClientResult<Option<Vec<u8>>>,
    ) -> (r: ExchangeStep)
        requires
            old(connection).well_formed(),
            !is_answered(old(connection).pending@, cancel_id@),
        ensures
            final(connection).well_formed(),
            awaited_cancel_step(
                self,
                cancel_id,
                *old(connection),
                receiving,
                frame,
                *final(connection),
                r,
            ),
            r matches ClientStep::Continue(next) ==> next.fits(*final(connection)),
    {
        let ghost before = *connection;
        let received = connection.receive(cancel_id.as_str(), receiving, frame);
        let ghost middle = *connection;
        assert(receives(before, cancel_id@, receiving, frame, middle, received));
        match received {
            Received::More(next) => self.goes(
                ExchangePhase::AwaitCancel { cancel_id, receiving: next },
            ),
            Received::Answer(response) => {
                let cancelled = received_result(Received::Answer(response));
                assert(is_received_result(received, cancelled));
                self.on_cancelled(connection, cancelled)
            },
            Received::Failed(error) => {
                let cancelled: HostClientResult<HostResponse> = Err(error);
                assert(is_received_result(received, cancelled));
                self.on_cancelled(connection, cancelled)
            },
        }
    }

    fn on_frame_after(
        self,
        connection: &mut HostConnection,
        receiving: Receiving,
        cancelled: HostClientResult<HostResponse>,
        frame: HostClientResult<Option<Vec<u8>>>,
    ) -> (r: ExchangeStep)
        requires
            old(connection).well_formed(),
            !is_answered(old(connection).pending@, self.request_id@),
        ensures
            final(connection).well_formed(),
            awaited_after_step(
                self,
                *old(connection),
                receiving,
                cancelled,
                frame,
                *final(connection),
                r,
            ),
            r matches ClientStep::Continue(next) ==> next.fits(*final(connection)),
    {
        let ghost before = *connection;
        let received = connection.receive(self.request_id.as_str(), receiving, frame);
        let ghost middle = *connection;
        assert(receives(before, self.request_id@, receiving, frame, middle, received));
        match received {
            Received::More(next) => self.goes(
                ExchangePhase::AwaitAfter { receiving: next, cancelled },
            ),
            Received::Answer(response) => {
                let requested = received_result(Received::Answer(response));
                assert(is_received_result(received, requested));
                let result = combine(cancelled, requested);
                ClientStep::Done(connection.finish_request_operation(result))
            },
            Received::Failed(error) => {
                let requested: HostClientResult<HostResponse> = Err(error);
                assert(is_received_result(received, requested));
                let result = combine(cancelled, requested);
                ClientStep::Done(connection.finish_request_operation(result))
            },
        }
    }

    fn on_cancel(self, connection: &mut HostConnection) -> (r: ExchangeStep)
        requires
            old(connection).well_formed(),
        ensures
            final(connection).well_formed(),
            cancels(self, *old(connection), *final(connection), r),
            r matches ClientStep::Continue(next) ==> next.fits(*final(connection)),
    {
        let cancel_id = connection.next_request_id();
        self.goes(ExchangePhase::CheckCancel { cancel_id })
    }

    /// Takes in what the transport handed back. What the phase did not ask for
    /// changes nothing.
    pub fn advance(self, connection: &mut HostConnection, event: ExchangeEvent) -> (r: ExchangeStep)
        requires
            self.fits(*old(connection)),
        ensures
            exchange_step(self, *old(connection), event, *final(connection), r),
            final(connection).well_formed(),
            r matches ClientStep::Continue(next) ==> next.fits(*final(connection)),
    {
        let cancellable = match &self.plan {
            CancelPlan::Never => false,
            _ => true,
        };
        let ExchangeRun { request_id, plan, phase } = self;
        match (phase, event) {
            (ExchangePhase::Check { method, params }, ExchangeEvent::Checked(refusal)) => {
                let kept = params.clone();
                let run = ExchangeRun {
                    request_id,
                    plan,
                    phase: ExchangePhase::Check { method: method.clone(), params },
                };
                assert(run == self);
                run.on_checked(connection, method.as_str(), kept, refusal)
            },
            (ExchangePhase::Write { envelope }, ExchangeEvent::Written(written)) => {
                let run = ExchangeRun {
                    request_id,
                    plan,
                    phase: ExchangePhase::Write { envelope },
                };
                assert(run == self);
                run.on_written(
                    connection,
                    written,
                    ExchangePhase::Await { receiving: Receiving::Envelope },
                )
            },
            (ExchangePhase::Await { receiving }, ExchangeEvent::Frame(frame)) => {
                let run = ExchangeRun {
                    request_id,
                    plan,
                    phase: ExchangePhase::Await { receiving: Receiving::Envelope },
                };
                run.on_frame(connection, receiving, frame)
            },
            (ExchangePhase::Await { receiving }, ExchangeEvent::Cancelled) => {
                let run = ExchangeRun {
                    request_id,
                    plan,
                    phase: ExchangePhase::Await { receiving },
                };
                assert(run == self);
                if cancellable {
                    run.on_cancel(connection)
                } else {
                    ClientStep::Continue(run)
                }
            },
            (ExchangePhase::CheckCancel { cancel_id }, ExchangeEvent::Checked(refusal)) => {
                let run = ExchangeRun {
                    request_id,
                    plan,
                    phase: ExchangePhase::CheckCancel { cancel_id: cancel_id.clone() },
                };
                assert(run == self);
                run.on_cancel_checked(connection, cancel_id, refusal)
            },
            (
                ExchangePhase::WriteCancel { cancel_id, envelope },
                ExchangeEvent::Written(written),
            ) => {
                let awaited = cancel_id.clone();
                let run = ExchangeRun {
                    request_id,
                    plan,
                    phase: ExchangePhase::WriteCancel { cancel_id, envelope },
                };
                assert(run == self);
                run.on_written(
                    connection,
                    written,
                    ExchangePhase::AwaitCancel { cancel_id: awaited, receiving: Receiving::Envelope },
                )
            },
            (
                ExchangePhase::AwaitCancel { cancel_id, receiving },
                ExchangeEvent::Frame(frame),
            ) => {
                let run = ExchangeRun {
                    request_id,
                    plan,
                    phase: ExchangePhase::Await { receiving: Receiving::Envelope },
                };
                run.on_cancel_frame(connection, cancel_id, receiving, frame)
            },
            (
                ExchangePhase::AwaitAfter { receiving, cancelled },
                ExchangeEvent::Frame(frame),
            ) => {
                let run = ExchangeRun {
                    request_id,
                    plan,
                    phase: ExchangePhase::Await { receiving: Receiving::Envelope },
                };
                run.on_frame_after(connection, receiving, cancelled, frame)
            },
            (phase, _) => {
                let run = ExchangeRun { request_id, plan, phase };
                assert(run == self);
                ClientStep::Continue(run)
            },
        }
    }
}

/// An exchange that was started ends in one of two ways: the connection is
/// ready again after an answer or the Host's own refusal, and closed after
/// anything else.
pub proof fn law_finished_exchange_settles_the_connection(
    run: ExchangeRun,
    before: HostConnection,
    event: ExchangeEvent,
    after: HostConnection,
    result: HostClientResult<HostResponse>,
)
    requires
        exchange_step(run, before, event, after, ExchangeStep::Done(result)),
    ensures
        after.state == if is_orderly(result) {
            ConnectionState::Ready
        } else {
            ConnectionState::Unusable
        },
{
}

/// One request on a connection: what was asked for, and what came of it.
pub struct MadeRequest {
    pub number: RequestNumber,
    pub method: String,
    pub params: Json,
    pub plan: CancelPlan,
    pub after: HostConnection,
    pub step: ExchangeStep,
}

/// The connection before the given one of some later requests.
pub open spec fn before_request(
    first: HostConnection,
    requests: Seq<MadeRequest>,
    at: int,
) -> HostConnection {
    if at <= 0 {
        first
    } else {
        requests[at - 1].after
    }
}

/// The number of a request is the connection's own, or one that the protocol
/// accepts.
pub open spec fn is_accepted(number: RequestNumber) -> bool {
    match number {
        RequestNumber::Generated => true,
        RequestNumber::Given { id: _, refusal } => refusal is None,
    }
}

/// A request that timed out, or was dropped before it finished, is the last one
/// of its connection: every later one is refused with the words to reconnect
/// and never reaches the wire, and the connection stays as it is. A number that
/// the protocol refuses is refused as that, and so is a request on a connection
/// that was interrupted before its handshake was over.
pub proof fn law_interrupted_connection_refuses_every_request(
    interrupted: HostConnection,
    requests: Seq<MadeRequest>,
    at: int,
)
    requires
        forall|i: int|
            0 <= i < requests.len() ==> exchange_begins(
                before_request(interrupted.after_operation(false), requests, i),
                (#[trigger] requests[i]).number,
                requests[i].method,
                requests[i].params,
                requests[i].plan,
                requests[i].after,
                requests[i].step,
            ),
        0 <= at < requests.len(),
    ensures
        requests[at].after == interrupted.after_operation(false),
        requests[at].step matches ClientStep::Done(Err(HostClientError::Protocol(message)))
            && (interrupted.hello_complete && is_accepted(requests[at].number) ==> occurs_in(
            message@,
            "reconnect"@,
        )),
    decreases at,
{
    let first = interrupted.after_operation(false);
    if at > 0 {
        law_interrupted_connection_refuses_every_request(interrupted, requests, at - 1);
        assert(requests[at - 1].after == first);
    }
    assert(before_request(first, requests, at) == first);
    let said = busy_message(ConnectionState::Unusable);
    reveal_strlit(
        "Host connection is unusable after an interrupted or incomplete request; reconnect before sending another request",
    );
    reveal_strlit("reconnect");
    assert(said.subrange(72, 81) =~= "reconnect"@);
    assert(occurs_at(said, "reconnect"@, 72));
}

/// Before the handshake no request but the handshake itself is sent, whatever
/// it asks for, and the connection stays as it is.
pub proof fn law_handshake_comes_first(before: HostConnection, request: MadeRequest)
    requires
        !before.hello_complete,
        exchange_begins(
            before,
            request.number,
            request.method,
            request.params,
            request.plan,
            request.after,
            request.step,
        ),
    ensures
        request.after == before,
        request.step matches ClientStep::Done(result) && breaks(
            result,
            "hello must complete before stateful requests"@,
        ),
{
}

/// A request is made under the identifier given, or under the next of the
/// connection, with the method and the arguments given; it needs a handshake and a
/// free connection.
pub proof fn law_exchanges_begin_as_asked(
    before: HostConnection,
    number: RequestNumber,
    method: String,
    params: Json,
    plan: CancelPlan,
    after: HostConnection,
    step: ExchangeStep,
)
    requires
        exchange_begins(before, number, method, params, plan, after, step),
    ensures
        step is Continue <==> before.hello_complete && before.state == ConnectionState::Ready && !(
        number matches RequestNumber::Given { refusal: Some(_), .. }),
        step matches ClientStep::Done(result) ==> result is Err && after == before,
        step matches ClientStep::Continue(run) ==> {
            &&& run.plan == plan
            &&& run.phase == (ExchangePhase::Check { method, params })
            &&& number matches RequestNumber::Given { id, .. } ==> run.request_id == id
                && after.next_request_id == before.next_request_id
            &&& number is Generated ==> run.request_id@ == generated_id(before.next_request_id)
            &&& number is Generated && before.next_request_id < u64::MAX ==> after.next_request_id
                == before.next_request_id + 1
            &&& after.state == ConnectionState::InFlight
            &&& after.pending == before.pending
            &&& after.outstanding == before.outstanding
        },
{
}

/// What is written is the request that was checked, under its identifier, which is
/// outstanding from then on; a cancellation names the wait, or the arguments it was
/// planned with.
pub proof fn law_exchanges_write_what_was_asked(
    run: ExchangeRun,
    before: HostConnection,
    event: ExchangeEvent,
    after: HostConnection,
    next: ExchangeRun,
)
    requires
        exchange_step(run, before, event, after, ExchangeStep::Continue(next)),
    ensures
        next.request_id == run.request_id,
        next.plan == run.plan,
        (run.phase is Check && next.phase is Write) ==> {
            let written = next.phase->Write_envelope.view();
            &&& written.text_at("request_id"@) == Some(run.request_id@)
            &&& written.text_at("method"@) == Some(run.phase->Check_method@)
            &&& written.get("params"@) == Some(run.phase->Check_params.view())
            &&& event == ExchangeEvent::Checked(None)
            &&& listed(after.outstanding@).contains(run.request_id@)
        },
        (run.phase is CheckCancel && next.phase is WriteCancel) ==> {
            let written = next.phase->WriteCancel_envelope.view();
            &&& written.text_at("request_id"@) == Some(run.phase->CheckCancel_cancel_id@)
            &&& run.plan is WindowWait ==> written.text_at("method"@) == Some("cancel_window_wait"@)
                && (written.get("params"@) matches Some(params) && params.text_at("wait_id"@)
                == Some(run.request_id@))
            &&& run.plan matches CancelPlan::Request { params } ==> written.text_at("method"@)
                == Some("cancel"@) && written.get("params"@) == Some(params.view())
            &&& listed(after.outstanding@).contains(run.phase->CheckCancel_cancel_id@)
        },
        (run.phase is Await && next.phase is CheckCancel) ==> !(run.plan is Never) && event
            is Cancelled,
        (run.phase is Write && next.phase is Await) ==> (event matches ExchangeEvent::Written(
            Ok(_),
        )),
        (run.phase is WriteCancel && next.phase is AwaitCancel) ==> (
        event matches ExchangeEvent::Written(Ok(_))),
{
    reveal_strlit("request_id");
    reveal_strlit("method");
    reveal_strlit("params");
    reveal_strlit("wait_id");
    assert("request_id"@.len() == 10);
    assert("method"@.len() == 6);
    assert("params"@.len() == 6);
    assert("wait_id"@.len() == 7);
    assert("method"@[0] != "params"@[0]);
}

/// An exchange ends with the response to its own request, or with why there is
/// none; where it was cancelled, a cancellation that failed comes first.
pub proof fn law_exchanges_end_with_their_response(
    run: ExchangeRun,
    before: HostConnection,
    event: ExchangeEvent,
    after: HostConnection,
    result: HostClientResult<HostResponse>,
)
    requires
        exchange_step(run, before, event, after, ExchangeStep::Done(result)),
    ensures
        after.state != ConnectionState::InFlight,
        result is Ok ==> after.state == ConnectionState::Ready,
        (event matches ExchangeEvent::Written(Err(error)) ==> result == Err::<
            HostResponse,
            HostClientError,
        >(error)),
        (event matches ExchangeEvent::Checked(Some(message)) ==> (
        result matches Err(HostClientError::Protocol(text)) && text@ == message@)),
        (run.phase matches ExchangePhase::AwaitAfter { cancelled, .. } && cancelled is Err)
            ==> result == Err::<HostResponse, HostClientError>(
            run.phase->AwaitAfter_cancelled->Err_0,
        ),
{
}

/// A cancellation that failed is what a cancelled request ends with; else it ends
/// with its own result.
pub proof fn law_failed_cancellations_come_first(
    cancelled: HostClientResult<HostResponse>,
    requested: HostClientResult<HostResponse>,
    result: HostClientResult<HostResponse>,
)
    requires
        is_combined(cancelled, requested, result),
    ensures
        cancelled is Ok ==> result == requested,
        cancelled is Err ==> result == cancelled,
{
}

/// What is received for a request is the response to it: a message for another is
/// kept, and one that nobody waits for breaks the connection.
pub proof fn law_received_answers_are_awaited(
    before: HostConnection,
    awaited: Seq<char>,
    receiving: Receiving,
    frame: HostClientResult<Option<Vec<u8>>>,
    after: HostConnection,
    received: Received,
)
    requires
        receives(before, awaited, receiving, frame, after, received),
    ensures
        received matches Received::Answer(response) ==> response.request_id@ == awaited
            && response.value.view().text_at("request_id"@) == Some(awaited),
        frame is Err ==> received == Received::Failed(frame->Err_0),
        received is Failed ==> after == before,
        after.state == before.state,
{
}

} // verus!
