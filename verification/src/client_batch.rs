//! Batches of read-only requests: written together, answered in the caller's
//! order.

use crate::client::{
    request_envelope, ConnectionState, HostConnection, Receiving, MAX_PARALLEL_DISCOVERY_REQUESTS,
};
#[allow(unused_imports)]
use crate::client::{busy_message, envelope_tree, is_answered};
use crate::client_exchange::{ClientStep, Received};
#[allow(unused_imports)]
use crate::client_exchange::{ends, ends_in_breach, receives};
use crate::client_protocol::{
    breach, validate_shared_memory_batch_handoffs, BatchRequest, HostClientError, HostClientResult,
    HostResponse, ReceivedResponse,
};
#[allow(unused_imports)]
use crate::client_protocol::{breaks, distinct_slots, is_response_result, SnapshotTransport};
use crate::json::Json;
use crate::text::{decimal_text, join3, text_eq};
#[allow(unused_imports)]
use crate::text::decimal;
#[allow(unused_imports)]
use crate::text_sets::listed;
use vstd::prelude::*;

verus! {

/// How far a batch got.
#[derive(Debug)]
pub enum BatchPhase {
    /// A request written, not flushed.
    Write { envelope: Json },
    /// Everything flushed.
    Flush,
    /// A frame.
    Await { receiving: Receiving },
}

/// What the transport hands back.
#[derive(Debug)]
pub enum BatchEvent {
    Written(HostClientResult<()>),
    Flushed(HostClientResult<()>),
    Frame(HostClientResult<Option<Vec<u8>>>),
}

/// A batch on its way.
#[derive(Debug)]
pub struct BatchRun {
    pub requests: Vec<BatchRequest>,
    /// How many requests were written.
    pub written: usize,
    /// The results so far, in the order of the requests.
    pub results: Vec<HostClientResult<HostResponse>>,
    pub phase: BatchPhase,
}

pub type BatchResults = Vec<HostClientResult<HostResponse>>;

pub type BatchStep = ClientStep<BatchRun, BatchResults>;

/// The result is what some response to this request stands for.
pub open spec fn answers_request(
    request_id: Seq<char>,
    result: HostClientResult<HostResponse>,
) -> bool {
    exists|response: ReceivedResponse|
        response.request_id@ == request_id && #[trigger] is_response_result(response, result)
}

/// The results answer the first requests, one for each.
pub open spec fn in_order(
    requests: Seq<BatchRequest>,
    results: Seq<HostClientResult<HostResponse>>,
) -> bool {
    &&& results.len() <= requests.len()
    &&& forall|i: int|
        0 <= i < results.len() ==> answers_request(requests[i].request_id@, #[trigger] results[i])
}

/// No two requests have one number.
pub open spec fn distinct_ids(requests: Seq<BatchRequest>) -> bool {
    forall|i: int, j: int|
        0 <= i < j < requests.len() ==> (#[trigger] requests[i]).request_id@ != (
        #[trigger] requests[j]).request_id@
}

/// Every method of the batch only reads.
pub open spec fn only_reads(requests: Seq<BatchRequest>) -> bool {
    forall|i: int| 0 <= i < requests.len() ==> (#[trigger] requests[i]).pipeline_safe
}

/// What the protocol says of the first number from `at` on that it does not
/// take.
pub open spec fn id_refusal(requests: Seq<BatchRequest>, at: int) -> Option<Seq<char>>
    decreases requests.len() - at,
{
    if at >= requests.len() {
        None
    } else {
        match requests[at].id_refusal {
            Some(message) => Some(message@),
            None => id_refusal(requests, at + 1),
        }
    }
}

/// Why a batch cannot be sent.
pub open spec fn batch_refusal(
    connection: HostConnection,
    requests: Seq<BatchRequest>,
) -> Option<Seq<char>> {
    if !connection.hello_complete {
        Some("hello must complete before stateful requests"@)
    } else if requests.len() > MAX_PARALLEL_DISCOVERY_REQUESTS {
        Some(
            "request_batch accepts at most "@ + decimal(MAX_PARALLEL_DISCOVERY_REQUESTS as nat)
                + " requests"@,
        )
    } else if !only_reads(requests) {
        Some("request_batch accepts read-only Host methods only"@)
    } else if connection.snapshot_transport == SnapshotTransport::SharedMemory && !distinct_slots(
        requests,
    ) {
        Some("request_batch allows at most one shared-memory image publisher per session"@)
    } else if id_refusal(requests, 0) is Some {
        id_refusal(requests, 0)
    } else if !distinct_ids(requests) {
        Some("request_batch does not allow duplicate request ids"@)
    } else {
        None
    }
}

fn check_methods(requests: &Vec<BatchRequest>) -> (r: bool)
    ensures
        r == only_reads(requests@),
{
    let mut i: usize = 0;
    while i < requests.len()
        invariant
            i <= requests.len(),
            forall|k: int| 0 <= k < i ==> (#[trigger] requests@[k]).pipeline_safe,
        decreases requests.len() - i,
    {
        if !requests[i].pipeline_safe {
            return false;
        }
        i = i + 1;
    }
    true
}

fn check_ids(requests: &Vec<BatchRequest>) -> (r: Option<String>)
    ensures
        match id_refusal(requests@, 0) {
            Some(message) => r matches Some(text) && text@ == message,
            None => r is None,
        },
{
    let mut i: usize = 0;
    while i < requests.len()
        invariant
            i <= requests.len(),
            id_refusal(requests@, 0) == id_refusal(requests@, i as int),
        decreases requests.len() - i,
    {
        if let Some(message) = &requests[i].id_refusal {
            return Some(message.clone());
        }
        i = i + 1;
    }
    None
}

fn check_distinct(requests: &Vec<BatchRequest>) -> (r: bool)
    ensures
        r == distinct_ids(requests@),
{
    let mut j: usize = 0;
    while j < requests.len()
        invariant
            j <= requests.len(),
            forall|a: int, b: int|
                0 <= a < b < j ==> (#[trigger] requests@[a]).request_id@ != (
                #[trigger] requests@[b]).request_id@,
        decreases requests.len() - j,
    {
        let mut i: usize = 0;
        while i < j
            invariant
                i <= j < requests.len(),
                forall|a: int|
                    0 <= a < i ==> (#[trigger] requests@[a]).request_id@
                        != requests@[j as int].request_id@,
            decreases j - i,
        {
            if text_eq(requests[i].request_id.as_str(), requests[j].request_id.as_str()) {
                assert(requests@[i as int].request_id@ == requests@[j as int].request_id@);
                return false;
            }
            i = i + 1;
        }
        j = j + 1;
    }
    true
}

impl HostConnection {
    /// Checks a batch before anything of it is sent.
    pub fn validate_batch(&self, requests: &Vec<BatchRequest>) -> (r: HostClientResult<()>)
        ensures
            match batch_refusal(*self, requests@) {
                Some(message) => breaks(r, message),
                None => r is Ok,
            },
    {
        if let Err(error) = self.require_hello() {
            return Err(error);
        }
        if requests.len() > MAX_PARALLEL_DISCOVERY_REQUESTS {
            return Err(
                HostClientError::Protocol(
                    join3(
                        "request_batch accepts at most ",
                        decimal_text(MAX_PARALLEL_DISCOVERY_REQUESTS as u64).as_str(),
                        " requests",
                    ),
                ),
            );
        }
        if !check_methods(requests) {
            return Err(breach("request_batch accepts read-only Host methods only"));
        }
        if let Err(error) = validate_shared_memory_batch_handoffs(
            self.snapshot_transport,
            requests,
        ) {
            return Err(error);
        }
        if let Some(message) = check_ids(requests) {
            return Err(HostClientError::Protocol(message));
        }
        if !check_distinct(requests) {
            return Err(breach("request_batch does not allow duplicate request ids"));
        }
        Ok(())
    }
}

/// Collects the responses that were read early, as far as they come in order.
pub open spec fn gathers(
    before: HostConnection,
    requests: Seq<BatchRequest>,
    results: Seq<HostClientResult<HostResponse>>,
    after: HostConnection,
    gathered: Seq<HostClientResult<HostResponse>>,
) -> bool
    decreases requests.len() - results.len(),
{
    if results.len() >= requests.len() {
        after == before && gathered == results
    } else {
        exists|found: Option<ReceivedResponse>, middle: HostConnection|
            {
                &&& #[trigger] before.takes_pending(
                    requests[results.len() as int].request_id@,
                    found,
                    middle,
                )
                &&& match found {
                    None => after == middle && gathered == results,
                    Some(response) => exists|result: HostClientResult<HostResponse>|
                        #[trigger] is_response_result(response, result) && gathers(
                            middle,
                            requests,
                            results.push(result),
                            after,
                            gathered,
                        ),
                }
            }
    }
}

impl HostConnection {
    fn gather(&mut self, requests: &Vec<BatchRequest>, results: BatchResults) -> (r: BatchResults)
        requires
            old(self).well_formed(),
            in_order(requests@, results@),
        ensures
            final(self).well_formed(),
            gathers(*old(self), requests@, results@, *final(self), r@),
            in_order(requests@, r@),
            r@.len() < requests@.len() ==> !is_answered(
                final(self).pending@,
                requests@[r@.len() as int].request_id@,
            ),
        decreases requests@.len() - results@.len(),
    {
        if results.len() >= requests.len() {
            return results;
        }
        let ghost before = *self;
        let found = self.take_pending(requests[results.len()].request_id.as_str());
        assert(before.takes_pending(requests@[results@.len() as int].request_id@, found, *self));
        match found {
            None => results,
            Some(response) => {
                let ghost kept = results@;
                let result = response.into_result();
                assert(is_response_result(response, result));
                assert(answers_request(requests@[kept.len() as int].request_id@, result));
                let mut more = results;
                more.push(result);
                self.gather(requests, more)
            },
        }
    }
}

/// The batch has as many results as requests, or waits for the next.
pub open spec fn goes_on(
    run: BatchRun,
    before: HostConnection,
    results: Seq<HostClientResult<HostResponse>>,
    after: HostConnection,
    step: BatchStep,
) -> bool {
    exists|middle: HostConnection, gathered: Seq<HostClientResult<HostResponse>>|
        {
            &&& #[trigger] gathers(before, run.requests@, results, middle, gathered)
            &&& if gathered.len() >= run.requests@.len() {
                &&& step matches ClientStep::Done(Ok(all))
                &&& all@ == gathered
                &&& after == middle.after_operation(true)
            } else {
                &&& after == middle
                &&& step matches ClientStep::Continue(next)
                &&& next.requests == run.requests
                &&& next.written == run.written
                &&& next.results@ == gathered
                &&& next.phase == (BatchPhase::Await { receiving: Receiving::Envelope })
            }
        }
}

/// The next request is tracked and written.
pub open spec fn writes_next(
    run: BatchRun,
    before: HostConnection,
    after: HostConnection,
    step: BatchStep,
) -> bool {
    let request = run.requests@[run.written as int];
    match before.tracking_refusal(request.request_id@) {
        Some(message) => ends_in_breach(before, message, after, step),
        None => {
            &&& before.tracks(request.request_id@, after)
            &&& step matches ClientStep::Continue(next)
            &&& next.phase matches BatchPhase::Write { envelope }
            &&& envelope.view() == envelope_tree(
                request.request_id@,
                request.method@,
                request.params.view(),
            )
            &&& next == (BatchRun { phase: next.phase, ..run })
        },
    }
}

/// A frame came while a request of the batch waits.
pub open spec fn batch_frame_step(
    run: BatchRun,
    before: HostConnection,
    receiving: Receiving,
    frame: HostClientResult<Option<Vec<u8>>>,
    after: HostConnection,
    step: BatchStep,
) -> bool {
    exists|middle: HostConnection, received: Received|
        {
            &&& #[trigger] receives(
                before,
                run.requests@[run.results@.len() as int].request_id@,
                receiving,
                frame,
                middle,
                received,
            )
            &&& match received {
                Received::More(next) => after == middle && step == BatchStep::Continue(
                    BatchRun { phase: BatchPhase::Await { receiving: next }, ..run },
                ),
                Received::Failed(error) => ends(middle, Err(error), after, step),
                Received::Answer(response) => exists|result: HostClientResult<HostResponse>|
                    #[trigger] is_response_result(response, result) && goes_on(
                        run,
                        middle,
                        run.results@.push(result),
                        after,
                        step,
                    ),
            }
        }
}

/// One step of a batch.
pub open spec fn batch_step(
    run: BatchRun,
    before: HostConnection,
    event: BatchEvent,
    after: HostConnection,
    step: BatchStep,
) -> bool {
    match (run.phase, event) {
        (BatchPhase::Write { .. }, BatchEvent::Written(written)) => match written {
            Err(error) => ends(before, Err(error), after, step),
            Ok(()) => {
                let more = BatchRun { written: (run.written + 1) as usize, ..run };
                if more.written < run.requests@.len() {
                    writes_next(more, before, after, step)
                } else {
                    after == before && step == BatchStep::Continue(
                        BatchRun { phase: BatchPhase::Flush, ..more },
                    )
                }
            },
        },
        (BatchPhase::Flush, BatchEvent::Flushed(flushed)) => match flushed {
            Err(error) => ends(before, Err(error), after, step),
            Ok(()) => goes_on(run, before, run.results@, after, step),
        },
        (BatchPhase::Await { receiving }, BatchEvent::Frame(frame)) => batch_frame_step(
            run,
            before,
            receiving,
            frame,
            after,
            step,
        ),
        _ => after == before && step == BatchStep::Continue(run),
    }
}

impl BatchRun {
    /// The results so far are in order, and what is awaited has not been
    /// answered yet.
    pub open spec fn fits(self, connection: HostConnection) -> bool {
        &&& connection.well_formed()
        &&& in_order(self.requests@, self.results@)
        &&& self.written <= self.requests@.len()
        &&& self.phase is Write ==> self.written < self.requests@.len()
        &&& self.phase is Await ==> self.results@.len() < self.requests@.len() && !is_answered(
            connection.pending@,
            self.requests@[self.results@.len() as int].request_id@,
        )
    }

    fn write_next(self, connection: &mut HostConnection) -> (r: BatchStep)
        requires
            old(connection).well_formed(),
            self.written < self.requests@.len(),
            in_order(self.requests@, self.results@),
        ensures
            final(connection).well_formed(),
            writes_next(self, *old(connection), *final(connection), r),
            r matches ClientStep::Continue(next) ==> next.fits(*final(connection))
                && next.requests == self.requests,
            r matches ClientStep::Done(done) ==> done is Err,
    {
        let request = &self.requests[self.written];
        match connection.register_outstanding_request(request.request_id.as_str()) {
            Err(error) => {
                let failed: HostClientResult<BatchResults> = connection.finish_request_operation(
                    Err(error),
                );
                ClientStep::Done(failed)
            },
            Ok(()) => {
                let envelope = request_envelope(
                    request.request_id.as_str(),
                    request.method.as_str(),
                    request.params.clone(),
                );
                let mut run = self;
                run.phase = BatchPhase::Write { envelope };
                ClientStep::Continue(run)
            },
        }
    }

    fn go_on(
        requests: Vec<BatchRequest>,
        written: usize,
        results: BatchResults,
        connection: &mut HostConnection,
        run: Ghost<BatchRun>,
    ) -> (r: BatchStep)
        requires
            old(connection).well_formed(),
            in_order(requests@, results@),
            written <= requests@.len(),
            run@.requests == requests,
            run@.written == written,
        ensures
            final(connection).well_formed(),
            goes_on(run@, *old(connection), results@, *final(connection), r),
            r matches ClientStep::Continue(next) ==> next.fits(*final(connection))
                && next.requests == requests,
            r matches ClientStep::Done(Ok(all)) ==> in_order(requests@, all@) && all@.len()
                == requests@.len(),
    {
        let ghost before = *connection;
        let ghost start = results@;
        let gathered = connection.gather(&requests, results);
        assert(gathers(before, requests@, start, *connection, gathered@));
        if gathered.len() >= requests.len() {
            return ClientStep::Done(connection.finish_request_operation(Ok(gathered)));
        }
        ClientStep::Continue(
            BatchRun {
                requests,
                written,
                results: gathered,
                phase: BatchPhase::Await { receiving: Receiving::Envelope },
            },
        )
    }

    fn on_frame(
        self,
        connection: &mut HostConnection,
        receiving: Receiving,
        frame: HostClientResult<Option<Vec<u8>>>,
    ) -> (r: BatchStep)
        requires
            old(connection).well_formed(),
            in_order(self.requests@, self.results@),
            self.written <= self.requests@.len(),
            self.results@.len() < self.requests@.len(),
            !is_answered(
                old(connection).pending@,
                self.requests@[self.results@.len() as int].request_id@,
            ),
        ensures
            final(connection).well_formed(),
            batch_frame_step(self, *old(connection), receiving, frame, *final(connection), r),
            r matches ClientStep::Continue(next) ==> next.fits(*final(connection))
                && next.requests == self.requests,
            r matches ClientStep::Done(Ok(all)) ==> in_order(self.requests@, all@) && all@.len()
                == self.requests@.len(),
    {
        let ghost run = self;
        let ghost before = *connection;
        let at = self.results.len();
        let received = connection.receive(
            self.requests[at].request_id.as_str(),
            receiving,
            frame,
        );
        let ghost middle = *connection;
        let ghost awaited = run.requests@[run.results@.len() as int].request_id@;
        assert(receives(before, awaited, receiving, frame, middle, received));
        match received {
            Received::More(next) => {
                let mut run = self;
                run.phase = BatchPhase::Await { receiving: next };
                ClientStep::Continue(run)
            },
            Received::Failed(error) => {
                let failed: HostClientResult<BatchResults> = connection.finish_request_operation(
                    Err(error),
                );
                ClientStep::Done(failed)
            },
            Received::Answer(response) => {
                let result = response.into_result();
                assert(is_response_result(response, result));
                assert(answers_request(awaited, result));
                let mut results = self.results;
                results.push(result);
                BatchRun::go_on(self.requests, self.written, results, connection, Ghost(run))
            },
        }
    }

    /// Takes in what the transport handed back. What the phase did not ask for
    /// changes nothing. A batch that is done has one result for each request,
    /// in the caller's order.
    pub fn advance(self, connection: &mut HostConnection, event: BatchEvent) -> (r: BatchStep)
        requires
            self.fits(*old(connection)),
        ensures
            batch_step(self, *old(connection), event, *final(connection), r),
            final(connection).well_formed(),
            r matches ClientStep::Continue(next) ==> next.fits(*final(connection))
                && next.requests == self.requests,
            r matches ClientStep::Done(Ok(all)) ==> in_order(self.requests@, all@) && all@.len()
                == self.requests@.len(),
    {
        let ghost run = self;
        let BatchRun { requests, written, results, phase } = self;
        match (phase, event) {
            (BatchPhase::Write { envelope }, BatchEvent::Written(outcome)) => match outcome {
                Err(error) => {
                    let failed: HostClientResult<BatchResults> =
                        connection.finish_request_operation(Err(error));
                    ClientStep::Done(failed)
                },
                Ok(()) => {
                    let total = requests.len();
                    assert(written < total);
                    let more = BatchRun {
                        requests,
                        written: written + 1,
                        results,
                        phase: BatchPhase::Write { envelope },
                    };
                    assert(more == (BatchRun { written: (run.written + 1) as usize, ..run }));
                    if more.written < total {
                        more.write_next(connection)
                    } else {
                        let mut done = more;
                        done.phase = BatchPhase::Flush;
                        ClientStep::Continue(done)
                    }
                },
            },
            (BatchPhase::Flush, BatchEvent::Flushed(outcome)) => match outcome {
                Err(error) => {
                    let failed: HostClientResult<BatchResults> =
                        connection.finish_request_operation(Err(error));
                    ClientStep::Done(failed)
                },
                Ok(()) => BatchRun::go_on(requests, written, results, connection, Ghost(run)),
            },
            (BatchPhase::Await { receiving }, BatchEvent::Frame(frame)) => {
                let waiting = BatchRun {
                    requests,
                    written,
                    results,
                    phase: BatchPhase::Flush,
                };
                waiting.on_frame(connection, receiving, frame)
            },
            (phase, _) => {
                let same = BatchRun { requests, written, results, phase };
                assert(same == run);
                ClientStep::Continue(same)
            },
        }
    }
}

impl HostConnection {
    /// Begins a batch of reads.
    pub fn begin_batch(&mut self, requests: Vec<BatchRequest>) -> (r: BatchStep)
        requires
            old(self).well_formed(),
        ensures
            final(self).well_formed(),
            match batch_refusal(*old(self), requests@) {
                Some(message) => *final(self) == *old(self) && (r matches ClientStep::Done(result)
                    && breaks(result, message)),
                None => if old(self).state != ConnectionState::Ready {
                    *final(self) == *old(self) && (r matches ClientStep::Done(result) && breaks(
                        result,
                        busy_message(old(self).state),
                    ))
                } else if requests@.len() == 0 {
                    *final(self) == *old(self) && (r matches ClientStep::Done(Ok(all)) && all@.len()
                        == 0)
                } else {
                    exists|run: BatchRun|
                        {
                            &&& run.requests == requests
                            &&& run.written == 0
                            &&& run.results@.len() == 0
                            &&& #[trigger] writes_next(
                                run,
                                old(self).in_flight(),
                                *final(self),
                                r,
                            )
                        }
                },
            },
            r matches ClientStep::Continue(next) ==> next.fits(*final(self)) && next.requests
                == requests,
    {
        match self.validate_batch(&requests) {
            Ok(()) => {},
            Err(error) => return ClientStep::Done(Err(error)),
        }
        match self.begin_request_operation() {
            Ok(()) => {},
            Err(error) => return ClientStep::Done(Err(error)),
        }
        if requests.len() == 0 {
            let none: BatchResults = Vec::new();
            return ClientStep::Done(self.finish_request_operation(Ok(none)));
        }
        let run = BatchRun { requests, written: 0, results: Vec::new(), phase: BatchPhase::Flush };
        run.write_next(self)
    }
}

/// The first failure from `at` on.
pub open spec fn first_failure(
    results: Seq<HostClientResult<HostResponse>>,
    at: int,
) -> Option<HostClientError>
    decreases results.len() - at,
{
    if at >= results.len() {
        None
    } else {
        match results[at] {
            Err(error) => Some(error),
            Ok(_) => first_failure(results, at + 1),
        }
    }
}

/// All responses, or the first failure among them.
pub open spec fn responses_are_collected(results: Seq<HostClientResult<HostResponse>>, r: HostClientResult<Vec<HostResponse>>) -> bool {
    match first_failure(results, 0) {
        Some(error) => r == Err::<Vec<HostResponse>, HostClientError>(error),
        None => {
            &&& r matches Ok(responses)
            &&& responses@.len() == results.len()
            &&& forall|i: int|
                0 <= i < results.len() ==> results[i] == Ok::<HostResponse, HostClientError>(
                    #[trigger] responses@[i],
                )
        },
    }
}

/// All the responses of a batch, or its first failure.
pub fn collect_responses(results: BatchResults) -> (r: HostClientResult<Vec<HostResponse>>)
    ensures
        responses_are_collected(results@, r),
{
    let ghost all = results@;
    let mut rest = results;
    let mut responses: Vec<HostResponse> = Vec::new();
    let ghost mut at: int = 0;
    while rest.len() > 0
        invariant
            0 <= at <= all.len(),
            all == results@,
            rest@ == all.skip(at),
            responses@.len() == at,
            forall|i: int|
                0 <= i < at ==> all[i] == Ok::<HostResponse, HostClientError>(
                    #[trigger] responses@[i],
                ),
            first_failure(all, 0) == first_failure(all, at),
        decreases rest.len(),
    {
        assert(rest@[0] == all[at]);
        let first = rest.remove(0);
        match first {
            Ok(response) => {
                responses.push(response);
            },
            Err(error) => return Err(error),
        }
        proof {
            at = at + 1;
            assert(rest@ =~= all.skip(at));
        }
    }
    Ok(responses)
}

/// A batch is taken exactly where the handshake is complete, it is not too long,
/// every request only reads, no two publish to one shared slot, and every
/// identifier is acceptable and its own.
pub proof fn law_batches_only_read(
    connection: HostConnection,
    requests: Seq<BatchRequest>,
    i: int,
    j: int,
)
    requires
        batch_refusal(connection, requests) is None,
        0 <= i < requests.len(),
        0 <= j < requests.len(),
    ensures
        connection.hello_complete,
        requests.len() <= 32,
        requests[i].pipeline_safe,
        requests[i].id_refusal is None,
        i != j ==> requests[i].request_id@ != requests[j].request_id@,
        i != j && connection.snapshot_transport == SnapshotTransport::SharedMemory
            && requests[i].slot() is Some ==> requests[i].slot() != requests[j].slot(),
{
    lemma_no_refused_id(requests, 0, i);
    if i < j {
        assert(requests[i].request_id@ != requests[j].request_id@);
    } else if j < i {
        assert(requests[j].request_id@ != requests[i].request_id@);
        if connection.snapshot_transport == SnapshotTransport::SharedMemory
            && requests[j].slot() is Some {
            assert(requests[j].slot() != requests[i].slot());
        }
    }
}

proof fn lemma_no_refused_id(requests: Seq<BatchRequest>, at: int, i: int)
    requires
        0 <= at <= i < requests.len(),
        id_refusal(requests, at) is None,
    ensures
        requests[i].id_refusal is None,
    decreases i - at,
{
    if at < i {
        lemma_no_refused_id(requests, at + 1, i);
    }
}

/// Each request of a batch is written once, in order, as it was given.
pub proof fn law_batches_write_what_was_asked(
    run: BatchRun,
    before: HostConnection,
    after: HostConnection,
    next: BatchRun,
)
    requires
        writes_next(run, before, after, BatchStep::Continue(next)),
        run.written < run.requests@.len(),
    ensures
        next.phase is Write,
        next.phase->envelope.view().text_at("request_id"@) == Some(
            run.requests@[run.written as int].request_id@,
        ),
        next.phase->envelope.view().text_at("method"@) == Some(
            run.requests@[run.written as int].method@,
        ),
        next.phase->envelope.view().get("params"@) == Some(
            run.requests@[run.written as int].params.view(),
        ),
        listed(after.outstanding@).contains(run.requests@[run.written as int].request_id@),
        next.requests == run.requests,
        next.results == run.results,
        next.written == run.written,
{
    reveal_strlit("request_id");
    reveal_strlit("method");
    reveal_strlit("params");
    assert("request_id"@.len() == 10);
    assert("method"@.len() == 6);
    assert("params"@.len() == 6);
    assert("method"@[0] != "params"@[0]);
}

/// A written request is followed by the next, and the last by a flush; a write that
/// failed ends the batch with its error.
pub proof fn law_batches_write_in_order(
    run: BatchRun,
    before: HostConnection,
    event: BatchEvent,
    after: HostConnection,
    step: BatchStep,
)
    requires
        run.written < run.requests@.len(),
        run.requests@.len() <= 32,
        run.phase is Write,
        event is Written,
        batch_step(run, before, event, after, step),
    ensures
        event matches BatchEvent::Written(Err(error)) ==> step == BatchStep::Done(Err(error)),
        step matches ClientStep::Continue(next) ==> next.written == run.written + 1
            && next.requests == run.requests && next.results == run.results && (next.phase is Flush
            <==> run.written + 1 == run.requests@.len()),
{
}

/// The responses of a batch are all of them, in order, or the first that failed.
pub proof fn law_collected_responses_are_in_order(
    results: Seq<HostClientResult<HostResponse>>,
    r: HostClientResult<Vec<HostResponse>>,
)
    requires
        responses_are_collected(results, r),
    ensures
        r matches Ok(responses) ==> responses@.len() == results.len() && forall|i: int|
            0 <= i < results.len() ==> results[i] == Ok::<HostResponse, HostClientError>(
                #[trigger] responses@[i],
            ),
        r matches Err(error) ==> exists|i: int|
            0 <= i < results.len() && #[trigger] results[i] == Err::<HostResponse, HostClientError>(
                error,
            ) && forall|j: int| 0 <= j < i ==> (#[trigger] results[j]) is Ok,
{
    if r is Err {
        lemma_first_failure(results, 0);
    }
}

proof fn lemma_first_failure(results: Seq<HostClientResult<HostResponse>>, at: int)
    requires
        0 <= at <= results.len(),
        first_failure(results, at) is Some,
    ensures
        exists|i: int|
            at <= i < results.len() && #[trigger] results[i] == Err::<HostResponse, HostClientError>(
                first_failure(results, at)->0,
            ) && forall|j: int| at <= j < i ==> (#[trigger] results[j]) is Ok,
    decreases results.len() - at,
{
    if results[at] is Ok {
        lemma_first_failure(results, at + 1);
        let i = choose|i: int|
            at + 1 <= i < results.len() && #[trigger] results[i] == Err::<
                HostResponse,
                HostClientError,
            >(first_failure(results, at + 1)->0) && forall|j: int|
                at + 1 <= j < i ==> (#[trigger] results[j]) is Ok;
        assert(results[i] == Err::<HostResponse, HostClientError>(first_failure(results, at)->0));
    } else {
        assert(results[at] == Err::<HostResponse, HostClientError>(first_failure(results, at)->0));
    }
}

} // verus!
