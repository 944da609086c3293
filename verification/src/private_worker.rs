//! One parent-owned generation of the private worker: who may speak to it, what
//! each request asks of the driver, and what is answered.

use crate::driver::ActionCompletion;
use crate::json::{parse_json, put_member, Json, JsonMember};
#[allow(unused_imports)]
use crate::json::{parsed_text, JsonTree};
#[allow(unused_imports)]
use crate::json::unsigned_tree;
use crate::text::{char_is_alphanumeric, chars_of, is_blank, join2, text_eq};
#[allow(unused_imports)]
use crate::text::{is_alphanumeric, trimmed};
use crate::text_sets::{add_text, holds_text, remove_text};
#[allow(unused_imports)]
use crate::text_sets::{distinct_texts, has_text, listed};
use vstd::prelude::*;
use vstd::string::*;

verus! {

/// The longest name a generation may have.
pub const GENERATION_LIMIT: usize = 128;

/// One line the parent wrote.
#[derive(Debug, Clone)]
pub struct ChannelRequest {
    pub protocol_version: u32,
    pub request_id: u64,
    pub generation: String,
    pub operation: String,
    pub name: Option<String>,
    pub session_handle: Option<String>,
    pub arguments: Option<Json>,
}

/// Why a request failed.
#[derive(Debug, Clone)]
pub struct ChannelFailure {
    pub code: String,
    pub message: String,
    pub completion: ActionCompletion,
}

/// One line the worker writes.
#[derive(Debug)]
pub struct ChannelResponse {
    pub request_id: u64,
    pub generation: String,
    pub outcome: Result<Json, ChannelFailure>,
}

impl ChannelResponse {
    /// The response hands out this value.
    pub open spec fn grants(self, request_id: u64, generation: Seq<char>, value: JsonTree) -> bool {
        &&& self.request_id == request_id
        &&& self.generation@ == generation
        &&& self.outcome matches Ok(result) && result.view() == value
    }

    /// The response is this failure.
    pub open spec fn refuses(
        self,
        request_id: u64,
        generation: Seq<char>,
        code: Seq<char>,
        message: Seq<char>,
        completion: ActionCompletion,
    ) -> bool {
        &&& self.request_id == request_id
        &&& self.generation@ == generation
        &&& self.outcome matches Err(failure)
        &&& failure.code@ == code
        &&& failure.message@ == message
        &&& failure.completion == completion
    }

    pub fn ok(request_id: u64, generation: &str, value: Json) -> (r: ChannelResponse)
        ensures
            r.grants(request_id, generation@, value.view()),
            r.outcome == Ok::<Json, ChannelFailure>(value),
    {
        ChannelResponse { request_id, generation: generation.to_owned(), outcome: Ok(value) }
    }

    pub fn error(
        request_id: u64,
        generation: &str,
        code: &str,
        message: &str,
        completion: ActionCompletion,
    ) -> (r: ChannelResponse)
        ensures
            r.refuses(request_id, generation@, code@, message@, completion),
    {
        ChannelResponse {
            request_id,
            generation: generation.to_owned(),
            outcome: Err(
                ChannelFailure { code: code.to_owned(), message: message.to_owned(), completion },
            ),
        }
    }

    /// The response announces that the worker is shut down.
    pub open spec fn ends_service(self) -> bool {
        self.outcome matches Ok(value) && value.view().bool_at("shutdown"@) == Some(true)
    }

    fn announces_shutdown(&self) -> (r: bool)
        ensures
            r == self.ends_service(),
    {
        match &self.outcome {
            Ok(value) => match value.bool_at("shutdown") {
                Some(shutdown) => shutdown,
                None => false,
            },
            Err(_) => false,
        }
    }
}

/// The form of a handle: 36 characters, hyphens at four places, and lower-case
/// hexadecimal digits at all others.
pub open spec fn is_handle(text: Seq<char>) -> bool {
    &&& text.len() == 36
    &&& forall|i: int|
        0 <= i < 36 ==> if i == 8 || i == 13 || i == 18 || i == 23 {
            (#[trigger] text[i]) == '-'
        } else {
            '0' <= text[i] <= '9' || 'a' <= text[i] <= 'f'
        }
}

/// A handle for a session bound on this channel, from `uuid::Uuid::new_v4` in
/// its hyphenated form. Which one it is rests on chance, and that there is one
/// on the random source of the system.
#[verifier::external_body]
fn fresh_handle() -> (r: String)
    ensures
        is_handle(r@),
{
    uuid::Uuid::new_v4().to_string()
}

/// A generation's name is short and plain.
pub open spec fn is_generation(name: Seq<char>) -> bool {
    &&& 0 < name.len() <= GENERATION_LIMIT
    &&& forall|i: int| 0 <= i < name.len() ==> is_alphanumeric(#[trigger] name[i]) || name[i] == '-'
}

fn names_generation(name: &str) -> (r: bool)
    ensures
        r == is_generation(name@),
{
    let chars = chars_of(name);
    if chars.len() == 0 || chars.len() > GENERATION_LIMIT {
        return false;
    }
    let mut i: usize = 0;
    while i < chars.len()
        invariant
            i <= chars.len(),
            chars@ == name@,
            0 < chars@.len() <= GENERATION_LIMIT,
            forall|k: int|
                0 <= k < i ==> is_alphanumeric(#[trigger] chars@[k]) || chars@[k] == '-',
        decreases chars.len() - i,
    {
        if !char_is_alphanumeric(chars[i]) && chars[i] != '-' {
            assert(!is_alphanumeric(name@[i as int]));
            return false;
        }
        i = i + 1;
    }
    true
}

/// What the worker needs from its host next.
#[derive(Debug)]
pub enum WorkerPhase {
    /// The first line, which initializes the worker.
    Initialization,
    /// The options these arguments stand for.
    Options { arguments: Json },
    /// The cursor theme in place.
    Theme { host_bundle_id: String },
    /// A driver for this host.
    Driver { host_bundle_id: String },
    /// The driver's metadata, to announce that the worker is ready.
    Ready { host_bundle_id: String },
    /// The next line.
    Idle,
    /// The driver's metadata.
    Metadata { request_id: u64 },
    /// The driver's tools, as JSON text.
    List { request_id: u64 },
    /// A tool call through a bound session, as JSON text.
    CallSession { request_id: u64, handle: String, name: String, arguments: Json },
    /// A tool call through the driver, as JSON text.
    CallDriver { request_id: u64, name: String, arguments: Json },
    /// A session with these options, kept under the handle.
    Bind { request_id: u64, handle: String, options: Json },
    /// The session under the handle closed.
    Close { request_id: u64, handle: String },
    /// The driver shut down, as the parent asked.
    Shutdown { request_id: u64 },
    /// The driver shut down, at the end of the channel.
    Closing,
}

/// What the host hands back.
#[derive(Debug)]
pub enum WorkerEvent {
    /// The channel is closed.
    End,
    /// The channel broke.
    Broken(String),
    /// A line, as the request it stands for or why it is none.
    Line(Result<ChannelRequest, String>),
    /// The host the options name.
    Options(Result<String, String>),
    Theme(Result<(), String>),
    Driver(Result<(), String>),
    /// The driver's metadata and the worker's process.
    Metadata { metadata: Result<Json, String>, process_id: u32 },
    /// JSON text from the driver.
    Text(Result<String, String>),
    /// Something was done.
    Done(Result<(), String>),
}

/// A worker that serves one generation.
#[derive(Debug)]
pub struct WorkerRun {
    pub protocol_version: u32,
    pub generation: String,
    pub phase: WorkerPhase,
    /// The handles of the sessions that are live on this channel.
    pub handles: Vec<String>,
}

/// The worker goes on or ends, after writing a response where there is one.
#[derive(Debug)]
pub enum WorkerStep {
    Serve { run: WorkerRun, response: Option<ChannelResponse> },
    End { response: Option<ChannelResponse>, result: Result<(), String> },
}

impl WorkerRun {
    pub open spec fn well_formed(self) -> bool {
        distinct_texts(self.handles@)
    }

    pub open spec fn at(self, phase: WorkerPhase) -> WorkerRun {
        WorkerRun { phase, ..self }
    }

    /// The first request initializes this very worker.
    pub open spec fn initializes(self, request: ChannelRequest) -> bool {
        &&& request.protocol_version == self.protocol_version
        &&& request.request_id == 0
        &&& request.generation@ == self.generation@
        &&& request.operation@ == "initialize"@
    }

    /// The request speaks to this generation.
    pub open spec fn addresses(self, request: ChannelRequest) -> bool {
        request.protocol_version == self.protocol_version && request.generation@
            == self.generation@
    }
}

/// The step ends without a response.
pub open spec fn ends_with(step: WorkerStep, message: Seq<char>) -> bool {
    step matches WorkerStep::End { response: None, result: Err(text) } && text@ == message
}

/// The worker answers and reads on, with the handles as they were.
pub open spec fn serves_on(run: WorkerRun, step: WorkerStep) -> bool {
    &&& step matches WorkerStep::Serve { run: next, response: Some(_) }
    &&& next == run.at(WorkerPhase::Idle)
}

/// The worker refuses a request and reads on.
pub open spec fn turns_away(
    run: WorkerRun,
    step: WorkerStep,
    request_id: u64,
    code: Seq<char>,
    message: Seq<char>,
    completion: ActionCompletion,
) -> bool {
    &&& serves_on(run, step)
    &&& step matches WorkerStep::Serve { response: Some(response), .. }
    &&& response.refuses(request_id, run.generation@, code, message, completion)
}

/// The worker ends during its initialization, with a failure as response.
pub open spec fn gives_up(
    run: WorkerRun,
    step: WorkerStep,
    request_id: u64,
    code: Seq<char>,
    message: Seq<char>,
) -> bool {
    &&& step matches WorkerStep::End { response: Some(response), result: Ok(()) }
    &&& response.refuses(request_id, run.generation@, code, message, ActionCompletion::NotStarted)
}

/// The worker moves to a phase without a response.
pub open spec fn moves(run: WorkerRun, step: WorkerStep, phase: WorkerPhase) -> bool {
    step == (WorkerStep::Serve { run: run.at(phase), response: None })
}

/// A request that ran is answered with what came of it. An answer that
/// announces a shutdown closes the channel.
pub open spec fn answers(
    run: WorkerRun,
    step: WorkerStep,
    request_id: u64,
    result: Result<JsonTree, Seq<char>>,
) -> bool {
    &&& step matches WorkerStep::Serve { run: next, response: Some(response) }
    &&& match result {
        Ok(value) => response.grants(request_id, run.generation@, value),
        Err(message) => response.refuses(
            request_id,
            run.generation@,
            "worker_request_failed"@,
            message,
            ActionCompletion::Completed,
        ),
    }
    &&& next.protocol_version == run.protocol_version
    &&& next.generation == run.generation
    &&& if response.ends_service() {
        next.phase == WorkerPhase::Closing && next.handles@.len() == 0
    } else {
        next.phase == WorkerPhase::Idle && next.handles == run.handles
    }
}

/// What a session handle is announced as.
pub open spec fn handle_tree(handle: Seq<char>) -> JsonTree {
    JsonTree::Object(
        Map::<Seq<char>, JsonTree>::empty().insert("session_handle"@, JsonTree::Text(handle)),
    )
}

/// An object with one flag that holds.
pub open spec fn flag_tree(name: Seq<char>) -> JsonTree {
    JsonTree::Object(Map::<Seq<char>, JsonTree>::empty().insert(name, JsonTree::Bool(true)))
}

/// What the worker says when it is ready.
pub open spec fn ready_tree(
    process_id: u32,
    host_bundle_id: Seq<char>,
    metadata: JsonTree,
) -> JsonTree {
    JsonTree::Object(
        Map::<Seq<char>, JsonTree>::empty().insert("ready"@, JsonTree::Bool(true)).insert(
            "pid"@,
            unsigned_tree(process_id as u64),
        ).insert("host_bundle_id"@, JsonTree::Text(host_bundle_id)).insert("metadata"@, metadata),
    )
}

/// The name of a called tool.
pub open spec fn called_name(request: ChannelRequest) -> Seq<char> {
    match request.name {
        Some(name) => name@,
        None => ""@,
    }
}

/// The arguments of a called tool.
pub open spec fn called_arguments(request: ChannelRequest) -> JsonTree {
    match request.arguments {
        Some(arguments) => arguments.view(),
        None => JsonTree::Object(Map::<Seq<char>, JsonTree>::empty()),
    }
}

/// What a request to this generation leads to.
pub open spec fn dispatches(run: WorkerRun, request: ChannelRequest, step: WorkerStep) -> bool {
    let request_id = request.request_id;
    if request.operation@ == "metadata"@ {
        moves(run, step, WorkerPhase::Metadata { request_id })
    } else if request.operation@ == "list"@ {
        moves(run, step, WorkerPhase::List { request_id })
    } else if request.operation@ == "call"@ {
        match request.session_handle {
            Some(handle) => if has_text(run.handles@, handle@) {
                &&& step matches WorkerStep::Serve { run: next, response: None }
                &&& next == run.at(next.phase)
                &&& next.phase matches WorkerPhase::CallSession {
                    request_id: id,
                    handle: called,
                    name,
                    arguments,
                }
                &&& id == request_id
                &&& called == handle
                &&& name@ == called_name(request)
                &&& arguments.view() == called_arguments(request)
            } else {
                turns_away(
                    run,
                    step,
                    request_id,
                    "session_not_bound"@,
                    "private worker session handle is not live on this channel"@,
                    ActionCompletion::NotStarted,
                )
            },
            None => {
                &&& step matches WorkerStep::Serve { run: next, response: None }
                &&& next == run.at(next.phase)
                &&& next.phase matches WorkerPhase::CallDriver { request_id: id, name, arguments }
                &&& id == request_id
                &&& name@ == called_name(request)
                &&& arguments.view() == called_arguments(request)
            },
        }
    } else if request.operation@ == "bind_session"@ {
        match request.arguments {
            Some(options) => {
                &&& step matches WorkerStep::Serve { run: next, response: None }
                &&& next == run.at(next.phase)
                &&& next.phase matches WorkerPhase::Bind { request_id: id, handle, options: kept }
                &&& id == request_id
                &&& kept == options
                &&& is_handle(handle@)
            },
            None => turns_away(
                run,
                step,
                request_id,
                "worker_request_failed"@,
                "bind_session omitted options"@,
                ActionCompletion::Completed,
            ),
        }
    } else if request.operation@ == "close_session"@ {
        match request.session_handle {
            None => turns_away(
                run,
                step,
                request_id,
                "invalid_request"@,
                "close_session omitted session_handle"@,
                ActionCompletion::NotStarted,
            ),
            Some(handle) => if has_text(run.handles@, handle@) {
                &&& step matches WorkerStep::Serve { run: next, response: None }
                &&& next.phase == (WorkerPhase::Close { request_id, handle })
                &&& is_without(run, next, handle@)
            } else {
                &&& serves_on(run, step)
                &&& step matches WorkerStep::Serve { response: Some(response), .. }
                &&& response.grants(request_id, run.generation@, flag_tree("closed"@))
            },
        }
    } else if request.operation@ == "shutdown"@ {
        &&& step matches WorkerStep::Serve { run: next, response: None }
        &&& next.phase == (WorkerPhase::Shutdown { request_id })
        &&& next.protocol_version == run.protocol_version
        &&& next.generation == run.generation
        &&& next.handles@.len() == 0
    } else {
        turns_away(
            run,
            step,
            request_id,
            "worker_request_failed"@,
            "unknown private worker operation: "@ + request.operation@,
            ActionCompletion::Completed,
        )
    }
}

/// The run after one handle is no longer live.
pub open spec fn is_without(run: WorkerRun, next: WorkerRun, handle: Seq<char>) -> bool {
    &&& next.protocol_version == run.protocol_version
    &&& next.generation == run.generation
    &&& listed(next.handles@) == listed(run.handles@).remove(handle)
}

/// The run after one more handle is live.
pub open spec fn is_with(run: WorkerRun, next: WorkerRun, handle: Seq<char>) -> bool {
    &&& next.protocol_version == run.protocol_version
    &&& next.generation == run.generation
    &&& listed(next.handles@) == listed(run.handles@).insert(handle)
}

/// The worker closes the channel: no handle is live any more.
pub open spec fn closes(run: WorkerRun, step: WorkerStep) -> bool {
    &&& step matches WorkerStep::Serve { run: next, response: None }
    &&& next.phase == WorkerPhase::Closing
    &&& next.protocol_version == run.protocol_version
    &&& next.generation == run.generation
    &&& next.handles@.len() == 0
}

/// What JSON text from the driver stands for.
pub open spec fn driver_value(text: Result<String, String>) -> Result<JsonTree, Seq<char>> {
    match text {
        Ok(json) => parsed_text(json@),
        Err(message) => Err(message@),
    }
}

/// A step of the worker before it is ready.
pub open spec fn starting_step(run: WorkerRun, event: WorkerEvent, step: WorkerStep) -> bool {
    match (run.phase, event) {
        (WorkerPhase::Initialization, WorkerEvent::End) => step == (WorkerStep::End {
            response: None,
            result: Ok(()),
        }),
        (WorkerPhase::Initialization, WorkerEvent::Broken(message)) => ends_with(step, message@),
        (WorkerPhase::Initialization, WorkerEvent::Line(Err(message))) => ends_with(step, message@),
        (WorkerPhase::Initialization, WorkerEvent::Line(Ok(request))) => if !run.initializes(
            request,
        ) {
            gives_up(
                run,
                step,
                request.request_id,
                "invalid_initialization"@,
                "private worker initialization identity mismatch"@,
            )
        } else {
            match request.arguments {
                None => ends_with(step, "private worker initialization omitted options"@),
                Some(arguments) => moves(run, step, WorkerPhase::Options { arguments }),
            }
        },
        (WorkerPhase::Options { .. }, WorkerEvent::Options(Err(message))) => ends_with(
            step,
            message@,
        ),
        (WorkerPhase::Options { .. }, WorkerEvent::Options(Ok(host_bundle_id))) => if trimmed(
            host_bundle_id@,
        ).len() == 0 {
            gives_up(
                run,
                step,
                0,
                "invalid_initialization"@,
                "private worker host identity is empty"@,
            )
        } else {
            moves(run, step, WorkerPhase::Theme { host_bundle_id })
        },
        (WorkerPhase::Theme { .. }, WorkerEvent::Theme(Err(message))) => ends_with(step, message@),
        (WorkerPhase::Theme { host_bundle_id }, WorkerEvent::Theme(Ok(()))) => moves(
            run,
            step,
            WorkerPhase::Driver { host_bundle_id },
        ),
        (WorkerPhase::Driver { .. }, WorkerEvent::Driver(Err(message))) => gives_up(
            run,
            step,
            0,
            "runtime_initialization_failed"@,
            message@,
        ),
        (WorkerPhase::Driver { host_bundle_id }, WorkerEvent::Driver(Ok(()))) => moves(
            run,
            step,
            WorkerPhase::Ready { host_bundle_id },
        ),
        (WorkerPhase::Ready { .. }, WorkerEvent::Metadata { metadata: Err(message), .. }) =>
            ends_with(step, message@),
        (
            WorkerPhase::Ready { host_bundle_id },
            WorkerEvent::Metadata { metadata: Ok(metadata), process_id },
        ) => {
            &&& serves_on(run, step)
            &&& step matches WorkerStep::Serve { response: Some(response), .. }
            &&& response.grants(
                0,
                run.generation@,
                ready_tree(process_id, host_bundle_id@, metadata.view()),
            )
        },
        _ => step == (WorkerStep::Serve { run, response: None }),
    }
}

/// A step of the worker that serves.
pub open spec fn serving_step(run: WorkerRun, event: WorkerEvent, step: WorkerStep) -> bool {
    match (run.phase, event) {
        (WorkerPhase::Idle, WorkerEvent::End) => closes(run, step),
        (WorkerPhase::Idle, WorkerEvent::Broken(_)) => closes(run, step),
        (WorkerPhase::Idle, WorkerEvent::Line(Err(message))) => turns_away(
            run,
            step,
            0,
            "invalid_request"@,
            "parse private worker request: "@ + message@,
            ActionCompletion::NotStarted,
        ),
        (WorkerPhase::Idle, WorkerEvent::Line(Ok(request))) => if !run.addresses(request) {
            turns_away(
                run,
                step,
                request.request_id,
                "generation_mismatch"@,
                "private worker request belongs to another runtime generation"@,
                ActionCompletion::NotStarted,
            )
        } else {
            dispatches(run, request, step)
        },
        (WorkerPhase::Metadata { request_id }, WorkerEvent::Metadata { metadata, .. }) => answers(
            run,
            step,
            request_id,
            match metadata {
                Ok(value) => Ok(value.view()),
                Err(message) => Err(message@),
            },
        ),
        (WorkerPhase::List { request_id }, WorkerEvent::Text(text)) => answers(
            run,
            step,
            request_id,
            driver_value(text),
        ),
        (WorkerPhase::CallSession { request_id, .. }, WorkerEvent::Text(text)) => answers(
            run,
            step,
            request_id,
            driver_value(text),
        ),
        (WorkerPhase::CallDriver { request_id, .. }, WorkerEvent::Text(text)) => answers(
            run,
            step,
            request_id,
            driver_value(text),
        ),
        (WorkerPhase::Bind { request_id, handle, .. }, WorkerEvent::Done(bound)) => match bound {
            Ok(()) => {
                &&& step matches WorkerStep::Serve { run: next, response: Some(response) }
                &&& next.phase == WorkerPhase::Idle
                &&& is_with(run, next, handle@)
                &&& response.grants(request_id, run.generation@, handle_tree(handle@))
            },
            Err(message) => turns_away(
                run,
                step,
                request_id,
                "worker_request_failed"@,
                message@,
                ActionCompletion::Completed,
            ),
        },
        (WorkerPhase::Close { request_id, .. }, WorkerEvent::Done(_)) => {
            &&& serves_on(run, step)
            &&& step matches WorkerStep::Serve { response: Some(response), .. }
            &&& response.grants(request_id, run.generation@, flag_tree("closed"@))
        },
        (WorkerPhase::Shutdown { request_id }, WorkerEvent::Done(done)) => answers(
            run,
            step,
            request_id,
            match done {
                Ok(()) => Ok(flag_tree("shutdown"@)),
                Err(message) => Err(message@),
            },
        ),
        (WorkerPhase::Closing, WorkerEvent::Done(result)) => step == (WorkerStep::End {
            response: None,
            result,
        }),
        _ => step == (WorkerStep::Serve { run, response: None }),
    }
}

/// The worker is not ready yet.
pub open spec fn is_starting(phase: WorkerPhase) -> bool {
    phase is Initialization || phase is Options || phase is Theme || phase is Driver
        || phase is Ready
}

/// One step of the worker.
pub open spec fn worker_step(run: WorkerRun, event: WorkerEvent, step: WorkerStep) -> bool {
    if is_starting(run.phase) {
        starting_step(run, event, step)
    } else {
        serving_step(run, event, step)
    }
}

/// The handles a step leaves behind are told apart.
pub open spec fn keeps_form(step: WorkerStep) -> bool {
    step matches WorkerStep::Serve { run, .. } ==> run.well_formed()
}

/// A worker begins for one generation.
pub open spec fn worker_begins(generation: String, protocol_version: u32, r: Result<WorkerRun, String>) -> bool {
    if is_generation(generation@) {
        &&& r matches Ok(run)
        &&& run.well_formed()
        &&& run.protocol_version == protocol_version
        &&& run.generation == generation
        &&& run.phase == WorkerPhase::Initialization
        &&& run.handles@.len() == 0
    } else {
        r matches Err(message) && message@
            == "private worker requires one valid --generation value"@
    }
}

/// Begins to serve a generation.
pub fn begin_private_worker(generation: String, protocol_version: u32) -> (r: Result<
    WorkerRun,
    String,
>)
    ensures
        worker_begins(generation, protocol_version, r),
{
    if !names_generation(generation.as_str()) {
        return Err("private worker requires one valid --generation value".to_owned());
    }
    Ok(
        WorkerRun {
            protocol_version,
            generation,
            phase: WorkerPhase::Initialization,
            handles: Vec::new(),
        },
    )
}

fn flag_json(name: &str) -> (r: Json)
    ensures
        r.view() == flag_tree(name@),
{
    let mut members: Vec<JsonMember> = Vec::new();
    put_member(&mut members, name, Json::Bool(true));
    Json::Object(members)
}

fn ready_json(process_id: u32, host_bundle_id: &str, metadata: Json) -> (r: Json)
    ensures
        r.view() == ready_tree(process_id, host_bundle_id@, metadata.view()),
{
    let mut members: Vec<JsonMember> = Vec::new();
    put_member(&mut members, "ready", Json::Bool(true));
    put_member(&mut members, "pid", Json::unsigned(process_id as u64));
    put_member(&mut members, "host_bundle_id", Json::text(host_bundle_id));
    put_member(&mut members, "metadata", metadata);
    Json::Object(members)
}

fn parsed_driver_text(text: Result<String, String>) -> (r: Result<Json, String>)
    ensures
        match driver_value(text) {
            Ok(tree) => r matches Ok(value) && value.view() == tree,
            Err(message) => r matches Err(shown) && shown@ == message,
        },
{
    match text {
        Ok(json) => parse_json(json.as_str()),
        Err(message) => Err(message),
    }
}

impl WorkerRun {
    fn goes(self, phase: WorkerPhase) -> (r: WorkerStep)
        ensures
            moves(self, r, phase),
    {
        let mut run = self;
        run.phase = phase;
        WorkerStep::Serve { run, response: None }
    }

    fn responds(self, response: ChannelResponse) -> (r: WorkerStep)
        ensures
            r == (WorkerStep::Serve { run: self.at(WorkerPhase::Idle), response: Some(response) }),
    {
        let mut run = self;
        run.phase = WorkerPhase::Idle;
        WorkerStep::Serve { run, response: Some(response) }
    }

    fn turn_away(
        self,
        request_id: u64,
        code: &str,
        message: &str,
        completion: ActionCompletion,
    ) -> (r: WorkerStep)
        ensures
            turns_away(self, r, request_id, code@, message@, completion),
    {
        let response = ChannelResponse::error(
            request_id,
            self.generation.as_str(),
            code,
            message,
            completion,
        );
        self.responds(response)
    }

    fn give_up(self, request_id: u64, code: &str, message: &str) -> (r: WorkerStep)
        ensures
            gives_up(self, r, request_id, code@, message@),
    {
        let response = ChannelResponse::error(
            request_id,
            self.generation.as_str(),
            code,
            message,
            ActionCompletion::NotStarted,
        );
        WorkerStep::End { response: Some(response), result: Ok(()) }
    }

    fn close(self) -> (r: WorkerStep)
        ensures
            closes(self, r),
    {
        let mut run = self;
        run.handles = Vec::new();
        run.phase = WorkerPhase::Closing;
        WorkerStep::Serve { run, response: None }
    }

    fn answer(self, request_id: u64, result: Result<Json, String>) -> (r: WorkerStep)
        ensures
            answers(
                self,
                r,
                request_id,
                match result {
                    Ok(value) => Ok(value.view()),
                    Err(message) => Err(message@),
                },
            ),
            self.well_formed() ==> keeps_form(r),
    {
        let response = match result {
            Ok(value) => ChannelResponse::ok(request_id, self.generation.as_str(), value),
            Err(message) => ChannelResponse::error(
                request_id,
                self.generation.as_str(),
                "worker_request_failed",
                message.as_str(),
                ActionCompletion::Completed,
            ),
        };
        let mut run = self;
        if response.announces_shutdown() {
            run.handles = Vec::new();
            run.phase = WorkerPhase::Closing;
        } else {
            run.phase = WorkerPhase::Idle;
        }
        WorkerStep::Serve { run, response: Some(response) }
    }

    fn dispatch_call(self, request: ChannelRequest) -> (r: WorkerStep)
        requires
            request.operation@ == "call"@,
            self.well_formed(),
        ensures
            dispatches(self, request, r),
            keeps_form(r),
    {
        proof {
            lemma_operations_differ();
        }
        let request_id = request.request_id;
        let name = match request.name {
            Some(name) => name,
            None => "".to_owned(),
        };
        let arguments = match request.arguments {
            Some(arguments) => arguments,
            None => Json::Object(Vec::new()),
        };
        match request.session_handle {
            Some(handle) => {
                if holds_text(&self.handles, handle.as_str()) {
                    self.goes(WorkerPhase::CallSession { request_id, handle, name, arguments })
                } else {
                    self.turn_away(
                        request_id,
                        "session_not_bound",
                        "private worker session handle is not live on this channel",
                        ActionCompletion::NotStarted,
                    )
                }
            },
            None => self.goes(WorkerPhase::CallDriver { request_id, name, arguments }),
        }
    }

    fn dispatch_close(self, request: ChannelRequest) -> (r: WorkerStep)
        requires
            request.operation@ == "close_session"@,
            self.well_formed(),
        ensures
            dispatches(self, request, r),
            keeps_form(r),
    {
        proof {
            lemma_operations_differ();
        }
        let request_id = request.request_id;
        match request.session_handle {
            None => self.turn_away(
                request_id,
                "invalid_request",
                "close_session omitted session_handle",
                ActionCompletion::NotStarted,
            ),
            Some(handle) => {
                if holds_text(&self.handles, handle.as_str()) {
                    let mut run = self;
                    remove_text(&mut run.handles, handle.as_str());
                    run.phase = WorkerPhase::Close { request_id, handle };
                    WorkerStep::Serve { run, response: None }
                } else {
                    let response = ChannelResponse::ok(
                        request_id,
                        self.generation.as_str(),
                        flag_json("closed"),
                    );
                    self.responds(response)
                }
            },
        }
    }

    /// What a request to this generation asks of the driver, or how it is
    /// answered at once.
    pub fn handle_request(self, request: ChannelRequest) -> (r: WorkerStep)
        requires
            self.well_formed(),
        ensures
            dispatches(self, request, r),
            keeps_form(r),
    {
        proof {
            lemma_operations_differ();
        }
        let request_id = request.request_id;
        if text_eq(request.operation.as_str(), "metadata") {
            self.goes(WorkerPhase::Metadata { request_id })
        } else if text_eq(request.operation.as_str(), "list") {
            self.goes(WorkerPhase::List { request_id })
        } else if text_eq(request.operation.as_str(), "call") {
            self.dispatch_call(request)
        } else if text_eq(request.operation.as_str(), "bind_session") {
            match request.arguments {
                Some(options) => {
                    let handle = fresh_handle();
                    self.goes(WorkerPhase::Bind { request_id, handle, options })
                },
                None => self.turn_away(
                    request_id,
                    "worker_request_failed",
                    "bind_session omitted options",
                    ActionCompletion::Completed,
                ),
            }
        } else if text_eq(request.operation.as_str(), "close_session") {
            self.dispatch_close(request)
        } else if text_eq(request.operation.as_str(), "shutdown") {
            let mut run = self;
            run.handles = Vec::new();
            run.phase = WorkerPhase::Shutdown { request_id };
            WorkerStep::Serve { run, response: None }
        } else {
            let message = join2(
                "unknown private worker operation: ",
                request.operation.as_str(),
            );
            self.turn_away(
                request_id,
                "worker_request_failed",
                message.as_str(),
                ActionCompletion::Completed,
            )
        }
    }

    fn initialize(self, request: ChannelRequest) -> (r: WorkerStep)
        requires
            self.phase is Initialization,
            self.well_formed(),
        ensures
            starting_step(self, WorkerEvent::Line(Ok(request)), r),
            keeps_form(r),
    {
        if request.protocol_version != self.protocol_version || request.request_id != 0
            || !text_eq(request.generation.as_str(), self.generation.as_str()) || !text_eq(
            request.operation.as_str(),
            "initialize",
        ) {
            return self.give_up(
                request.request_id,
                "invalid_initialization",
                "private worker initialization identity mismatch",
            );
        }
        match request.arguments {
            None => WorkerStep::End {
                response: None,
                result: Err("private worker initialization omitted options".to_owned()),
            },
            Some(arguments) => self.goes(WorkerPhase::Options { arguments }),
        }
    }

    fn finish_options(self, host: Result<String, String>) -> (r: WorkerStep)
        requires
            self.phase is Options,
            self.well_formed(),
        ensures
            starting_step(self, WorkerEvent::Options(host), r),
            keeps_form(r),
    {
        match host {
            Err(message) => WorkerStep::End { response: None, result: Err(message) },
            Ok(host_bundle_id) => {
                if is_blank(host_bundle_id.as_str()) {
                    self.give_up(
                        0,
                        "invalid_initialization",
                        "private worker host identity is empty",
                    )
                } else {
                    self.goes(WorkerPhase::Theme { host_bundle_id })
                }
            },
        }
    }

    fn finish_theme(self, host_bundle_id: String, theme: Result<(), String>) -> (r: WorkerStep)
        requires
            self.phase == (WorkerPhase::Theme { host_bundle_id }),
            self.well_formed(),
        ensures
            starting_step(self, WorkerEvent::Theme(theme), r),
            keeps_form(r),
    {
        match theme {
            Err(message) => WorkerStep::End { response: None, result: Err(message) },
            Ok(()) => self.goes(WorkerPhase::Driver { host_bundle_id }),
        }
    }

    fn finish_driver(self, host_bundle_id: String, driver: Result<(), String>) -> (r: WorkerStep)
        requires
            self.phase == (WorkerPhase::Driver { host_bundle_id }),
            self.well_formed(),
        ensures
            starting_step(self, WorkerEvent::Driver(driver), r),
            keeps_form(r),
    {
        match driver {
            Err(message) => self.give_up(0, "runtime_initialization_failed", message.as_str()),
            Ok(()) => self.goes(WorkerPhase::Ready { host_bundle_id }),
        }
    }

    fn finish_ready(
        self,
        host_bundle_id: String,
        metadata: Result<Json, String>,
        process_id: u32,
    ) -> (r: WorkerStep)
        requires
            self.phase == (WorkerPhase::Ready { host_bundle_id }),
            self.well_formed(),
        ensures
            starting_step(self, (WorkerEvent::Metadata { metadata, process_id }), r),
            keeps_form(r),
    {
        match metadata {
            Err(message) => WorkerStep::End { response: None, result: Err(message) },
            Ok(metadata) => {
                let ready = ready_json(process_id, host_bundle_id.as_str(), metadata);
                let response = ChannelResponse::ok(0, self.generation.as_str(), ready);
                self.responds(response)
            },
        }
    }

    fn finish_bind(self, request_id: u64, handle: String, bound: Result<(), String>) -> (r:
        WorkerStep)
        requires
            self.phase matches WorkerPhase::Bind { request_id: id, handle: kept, .. } && id
                == request_id && kept == handle,
            self.well_formed(),
        ensures
            serving_step(self, WorkerEvent::Done(bound), r),
            keeps_form(r),
    {
        match bound {
            Err(message) => self.turn_away(
                request_id,
                "worker_request_failed",
                message.as_str(),
                ActionCompletion::Completed,
            ),
            Ok(()) => {
                let mut members: Vec<JsonMember> = Vec::new();
                put_member(&mut members, "session_handle", Json::text(handle.as_str()));
                let response = ChannelResponse::ok(
                    request_id,
                    self.generation.as_str(),
                    Json::Object(members),
                );
                let mut run = self;
                if !holds_text(&run.handles, handle.as_str()) {
                    add_text(&mut run.handles, handle);
                } else {
                    assert(listed(run.handles@).insert(handle@) =~= listed(run.handles@));
                }
                run.phase = WorkerPhase::Idle;
                WorkerStep::Serve { run, response: Some(response) }
            },
        }
    }

    fn advance_starting(self, event: WorkerEvent) -> (r: WorkerStep)
        requires
            is_starting(self.phase),
            self.well_formed(),
        ensures
            starting_step(self, event, r),
            keeps_form(r),
    {
        match (&self.phase, event) {
            (WorkerPhase::Initialization, WorkerEvent::End) => WorkerStep::End {
                response: None,
                result: Ok(()),
            },
            (WorkerPhase::Initialization, WorkerEvent::Broken(message)) => WorkerStep::End {
                response: None,
                result: Err(message),
            },
            (WorkerPhase::Initialization, WorkerEvent::Line(line)) => match line {
                Err(message) => WorkerStep::End { response: None, result: Err(message) },
                Ok(request) => self.initialize(request),
            },
            (WorkerPhase::Options { .. }, WorkerEvent::Options(host)) => self.finish_options(host),
            (WorkerPhase::Theme { host_bundle_id }, WorkerEvent::Theme(theme)) => {
                let host = host_bundle_id.clone();
                self.finish_theme(host, theme)
            },
            (WorkerPhase::Driver { host_bundle_id }, WorkerEvent::Driver(driver)) => {
                let host = host_bundle_id.clone();
                self.finish_driver(host, driver)
            },
            (
                WorkerPhase::Ready { host_bundle_id },
                WorkerEvent::Metadata { metadata, process_id },
            ) => {
                let host = host_bundle_id.clone();
                self.finish_ready(host, metadata, process_id)
            },
            _ => WorkerStep::Serve { run: self, response: None },
        }
    }

    fn advance_idle(self, event: WorkerEvent) -> (r: WorkerStep)
        requires
            self.phase is Idle,
            self.well_formed(),
        ensures
            serving_step(self, event, r),
            keeps_form(r),
    {
        match event {
            WorkerEvent::End => self.close(),
            WorkerEvent::Broken(_) => self.close(),
            WorkerEvent::Line(line) => match line {
                Err(message) => {
                    let text = join2("parse private worker request: ", message.as_str());
                    self.turn_away(
                        0,
                        "invalid_request",
                        text.as_str(),
                        ActionCompletion::NotStarted,
                    )
                },
                Ok(request) => {
                    if request.protocol_version != self.protocol_version || !text_eq(
                        request.generation.as_str(),
                        self.generation.as_str(),
                    ) {
                        return self.turn_away(
                            request.request_id,
                            "generation_mismatch",
                            "private worker request belongs to another runtime generation",
                            ActionCompletion::NotStarted,
                        );
                    }
                    self.handle_request(request)
                },
            },
            _ => WorkerStep::Serve { run: self, response: None },
        }
    }

    fn advance_working(self, event: WorkerEvent) -> (r: WorkerStep)
        requires
            !is_starting(self.phase),
            !(self.phase is Idle),
            self.well_formed(),
        ensures
            serving_step(self, event, r),
            keeps_form(r),
    {
        match (&self.phase, event) {
            (WorkerPhase::Metadata { request_id }, WorkerEvent::Metadata { metadata, .. }) => {
                let id: u64 = *request_id;
                self.answer(id, metadata)
            },
            (WorkerPhase::List { request_id }, WorkerEvent::Text(text)) => {
                let id: u64 = *request_id;
                self.answer(id, parsed_driver_text(text))
            },
            (WorkerPhase::CallSession { request_id, .. }, WorkerEvent::Text(text)) => {
                let id: u64 = *request_id;
                self.answer(id, parsed_driver_text(text))
            },
            (WorkerPhase::CallDriver { request_id, .. }, WorkerEvent::Text(text)) => {
                let id: u64 = *request_id;
                self.answer(id, parsed_driver_text(text))
            },
            (WorkerPhase::Bind { request_id, handle, .. }, WorkerEvent::Done(bound)) => {
                let id: u64 = *request_id;
                let kept = handle.clone();
                self.finish_bind(id, kept, bound)
            },
            (WorkerPhase::Close { request_id, .. }, WorkerEvent::Done(_)) => {
                let response = ChannelResponse::ok(
                    *request_id,
                    self.generation.as_str(),
                    flag_json("closed"),
                );
                self.responds(response)
            },
            (WorkerPhase::Shutdown { request_id }, WorkerEvent::Done(done)) => {
                let id: u64 = *request_id;
                let result = match done {
                    Ok(()) => Ok(flag_json("shutdown")),
                    Err(message) => Err(message),
                };
                self.answer(id, result)
            },
            (WorkerPhase::Closing, WorkerEvent::Done(result)) => WorkerStep::End {
                response: None,
                result,
            },
            _ => WorkerStep::Serve { run: self, response: None },
        }
    }

    /// Takes in what the host handed back. What the phase did not ask for
    /// changes nothing.
    pub fn advance(self, event: WorkerEvent) -> (r: WorkerStep)
        requires
            self.well_formed(),
        ensures
            worker_step(self, event, r),
            keeps_form(r),
    {
        let starting = match &self.phase {
            WorkerPhase::Initialization => true,
            WorkerPhase::Options { .. } => true,
            WorkerPhase::Theme { .. } => true,
            WorkerPhase::Driver { .. } => true,
            WorkerPhase::Ready { .. } => true,
            _ => false,
        };
        if starting {
            return self.advance_starting(event);
        }
        let idle = match &self.phase {
            WorkerPhase::Idle => true,
            _ => false,
        };
        if idle {
            self.advance_idle(event)
        } else {
            self.advance_working(event)
        }
    }
}

proof fn lemma_operations_differ()
    ensures
        "call"@ != "metadata"@,
        "call"@ != "list"@,
        "close_session"@ != "metadata"@,
        "close_session"@ != "list"@,
        "close_session"@ != "call"@,
        "close_session"@ != "bind_session"@,
{
    reveal_strlit("call");
    reveal_strlit("metadata");
    reveal_strlit("list");
    reveal_strlit("close_session");
    reveal_strlit("bind_session");
    assert("call"@[0] != "list"@[0]);
    assert("close_session"@.len() == 13);
    assert("bind_session"@.len() == 12);
    assert("metadata"@.len() == 8);
    assert("call"@.len() == 4);
}

/// The phase works for the request with this number.
pub open spec fn works_for(phase: WorkerPhase, request_id: u64) -> bool {
    match phase {
        WorkerPhase::Metadata { request_id: id } => id == request_id,
        WorkerPhase::List { request_id: id } => id == request_id,
        WorkerPhase::CallSession { request_id: id, .. } => id == request_id,
        WorkerPhase::CallDriver { request_id: id, .. } => id == request_id,
        WorkerPhase::Bind { request_id: id, .. } => id == request_id,
        WorkerPhase::Close { request_id: id, .. } => id == request_id,
        WorkerPhase::Shutdown { request_id: id } => id == request_id,
        _ => false,
    }
}

/// A request that comes in is answered at once or worked for, under its own
/// number, and the worker goes on either way.
pub proof fn law_request_is_taken_up(run: WorkerRun, request: ChannelRequest, step: WorkerStep)
    requires
        run.phase is Idle,
        worker_step(run, WorkerEvent::Line(Ok(request)), step),
    ensures
        step matches WorkerStep::Serve { run: next, response } && match response {
            Some(answer) => answer.request_id == request.request_id && next.phase is Idle,
            None => works_for(next.phase, request.request_id),
        },
{
}

/// Work that comes to an end is answered exactly once, under the number of its
/// request. Until then nothing changes.
pub proof fn law_work_is_answered_once(
    run: WorkerRun,
    request_id: u64,
    event: WorkerEvent,
    step: WorkerStep,
)
    requires
        works_for(run.phase, request_id),
        worker_step(run, event, step),
    ensures
        step matches WorkerStep::Serve { run: next, response } && match response {
            Some(answer) => answer.request_id == request_id && (next.phase is Idle || next.phase
                is Closing),
            None => next == run,
        },
{
}

/// A request of another generation or protocol reaches neither the driver nor
/// a session: it is turned away before it starts.
pub proof fn law_other_generations_are_turned_away(
    run: WorkerRun,
    request: ChannelRequest,
    step: WorkerStep,
)
    requires
        run.phase is Idle,
        worker_step(run, WorkerEvent::Line(Ok(request)), step),
        !run.addresses(request),
    ensures
        serves_on(run, step),
        step matches WorkerStep::Serve { response: Some(response), .. }
            && response.outcome matches Err(failure) && failure.completion
            == ActionCompletion::NotStarted,
{
}

/// A session is called only while its handle is live.
pub proof fn law_only_live_sessions_are_called(run: WorkerRun, event: WorkerEvent, step: WorkerStep)
    requires
        worker_step(run, event, step),
        !(run.phase is CallSession),
        step matches WorkerStep::Serve { run: next, .. } && next.phase is CallSession,
    ensures
        step matches WorkerStep::Serve { run: next, .. }
            && next.phase matches WorkerPhase::CallSession { handle, .. } && has_text(
            run.handles@,
            handle@,
        ),
{
}

/// A handle is live from its binding to its closing: the closed one is gone,
/// and no other is touched.
pub proof fn law_closing_ends_one_session(
    run: WorkerRun,
    request: ChannelRequest,
    handle: String,
    step: WorkerStep,
)
    requires
        run.phase is Idle,
        run.addresses(request),
        request.operation@ == "close_session"@,
        request.session_handle == Some(handle),
        worker_step(run, WorkerEvent::Line(Ok(request)), step),
    ensures
        step matches WorkerStep::Serve { run: next, .. } && listed(next.handles@) == listed(
            run.handles@,
        ).remove(handle@),
{
    lemma_operations_differ();
    if !has_text(run.handles@, handle@) {
        assert(listed(run.handles@) =~= listed(run.handles@).remove(handle@));
    }
}

/// A worker that closes its channel has dropped every session.
pub proof fn law_closing_drops_every_session(run: WorkerRun, event: WorkerEvent, step: WorkerStep)
    requires
        worker_step(run, event, step),
        !(run.phase is Closing),
        step matches WorkerStep::Serve { run: next, .. } && next.phase is Closing,
    ensures
        step matches WorkerStep::Serve { run: next, .. } && next.handles@.len() == 0,
{
}

/// A worker begins for a generation that is well named, with no session bound, and
/// stays of that generation and protocol.
pub proof fn law_workers_keep_their_generation(
    generation: String,
    protocol_version: u32,
    begun: Result<WorkerRun, String>,
    run: WorkerRun,
    event: WorkerEvent,
    next: WorkerRun,
    response: Option<ChannelResponse>,
)
    requires
        worker_begins(generation, protocol_version, begun),
        worker_step(run, event, WorkerStep::Serve { run: next, response }),
    ensures
        begun is Ok <==> 0 < generation@.len() <= 128 && forall|i: int|
            0 <= i < generation@.len() ==> is_alphanumeric(#[trigger] generation@[i])
                || generation@[i] == '-',
        begun matches Ok(first) ==> first.generation == generation && first.protocol_version
            == protocol_version && first.handles@.len() == 0 && first.phase is Initialization,
        next.generation == run.generation,
        next.protocol_version == run.protocol_version,
        response matches Some(told) ==> told.generation@ == run.generation@,
{
}

/// What is asked of a worker is what it does: a call of a session goes to that
/// session, any other to the driver, each with the name and the arguments given; a
/// session is bound with the options given, and closed by its handle.
pub proof fn law_workers_do_what_was_asked(
    run: WorkerRun,
    request: ChannelRequest,
    next: WorkerRun,
    response: Option<ChannelResponse>,
)
    requires
        run.phase is Idle,
        run.addresses(request),
        worker_step(
            run,
            WorkerEvent::Line(Ok(request)),
            WorkerStep::Serve { run: next, response },
        ),
    ensures
        request.operation@ == "metadata"@ ==> next.phase == (WorkerPhase::Metadata {
            request_id: request.request_id,
        }),
        request.operation@ == "list"@ ==> next.phase == (WorkerPhase::List {
            request_id: request.request_id,
        }),
        request.operation@ == "shutdown"@ ==> next.phase == (WorkerPhase::Shutdown {
            request_id: request.request_id,
        }) && next.handles@.len() == 0,
        request.operation@ == "call"@ && request.session_handle is None ==> (
        next.phase matches WorkerPhase::CallDriver { request_id, name, arguments } && request_id
            == request.request_id && (request.name matches Some(asked) ==> name@ == asked@) && (
        request.arguments matches Some(given) ==> arguments.view() == given.view())),
        request.operation@ == "call"@ && (request.session_handle matches Some(handle) && has_text(
            run.handles@,
            handle@,
        )) ==> (next.phase matches WorkerPhase::CallSession { request_id, handle, name, arguments }
            && request_id == request.request_id && Some(handle) == request.session_handle && (
        request.name matches Some(asked) ==> name@ == asked@) && (
        request.arguments matches Some(given) ==> arguments.view() == given.view())),
        request.operation@ == "bind_session"@ && request.arguments is Some ==> (
        next.phase matches WorkerPhase::Bind { request_id, options, .. } && request_id
            == request.request_id && Some(options) == request.arguments),
        request.operation@ == "close_session"@ && (request.session_handle matches Some(handle)
            && has_text(run.handles@, handle@)) ==> next.phase == (WorkerPhase::Close {
            request_id: request.request_id,
            handle: request.session_handle->0,
        }) && !listed(next.handles@).contains(request.session_handle->0@),
        response matches Some(told) ==> told.request_id == request.request_id && next.phase is Idle,
        response is Some <==> next.phase is Idle,
{
    reveal_strlit("metadata");
    reveal_strlit("list");
    reveal_strlit("call");
    reveal_strlit("bind_session");
    reveal_strlit("close_session");
    reveal_strlit("shutdown");
    assert("metadata"@.len() == 8);
    assert("list"@.len() == 4);
    assert("call"@.len() == 4);
    assert("bind_session"@.len() == 12);
    assert("close_session"@.len() == 13);
    assert("shutdown"@.len() == 8);
    assert("metadata"@[0] != "shutdown"@[0]);
    assert("list"@[0] != "call"@[0]);
}

/// What the driver told is what the worker answers, to the request it worked for;
/// what failed is told in its own words.
pub proof fn law_workers_answer_what_was_told(
    run: WorkerRun,
    event: WorkerEvent,
    next: WorkerRun,
    response: ChannelResponse,
)
    requires
        !is_starting(run.phase),
        !(run.phase is Idle),
        worker_step(run, event, WorkerStep::Serve { run: next, response: Some(response) }),
    ensures
        works_for(run.phase, response.request_id),
        (event matches WorkerEvent::Text(Ok(json)) ==> match parsed_text(json@) {
            Ok(tree) => response.outcome matches Ok(value) && value.view() == tree,
            Err(message) => response.outcome matches Err(failure) && failure.message@ == message,
        }),
        (event matches WorkerEvent::Text(Err(message)) ==> (response.outcome matches Err(failure)
            && failure.message@ == message@ && failure.code@ == "worker_request_failed"@)),
        (event matches WorkerEvent::Metadata { metadata: Ok(metadata), .. } ==> (
        response.outcome matches Ok(value) && value.view() == metadata.view())),
        (event matches WorkerEvent::Metadata { metadata: Err(message), .. } ==> (
        response.outcome matches Err(failure) && failure.message@ == message@)),
        (run.phase matches WorkerPhase::Bind { handle, .. } && event matches WorkerEvent::Done(
            Ok(_),
        )) ==> (response.outcome matches Ok(value) && value.view().text_at("session_handle"@)
            == Some(run.phase->Bind_handle@)) && listed(next.handles@).contains(
            run.phase->Bind_handle@,
        ),
        (run.phase is Bind && event is Done && event->Done_0 is Err) ==> (
        response.outcome matches Err(failure) && failure.message@ == event->Done_0->Err_0@)
            && next.handles == run.handles,
        run.phase is Close ==> (response.outcome matches Ok(value) && value.view().bool_at(
            "closed"@,
        ) == Some(true)),
        (run.phase is Shutdown && event is Done && event->Done_0 is Ok) ==> (
        response.outcome matches Ok(value) && value.view().bool_at("shutdown"@) == Some(true))
            && next.phase is Closing,
        (run.phase is Shutdown && event is Done && event->Done_0 is Err) ==> (
        response.outcome matches Err(failure) && failure.message@ == event->Done_0->Err_0@),
{
    reveal_strlit("session_handle");
    reveal_strlit("closed");
    reveal_strlit("shutdown");
    assert("session_handle"@.len() == 14);
    assert("closed"@.len() == 6);
    assert("shutdown"@.len() == 8);
}

/// A worker starts in order, for the host that was named, and tells that it is ready
/// with that host, its process and the driver's metadata; whatever fails on the way
/// ends it.
pub proof fn law_workers_start_in_order(run: WorkerRun, event: WorkerEvent, step: WorkerStep)
    requires
        is_starting(run.phase),
        worker_step(run, event, step),
    ensures
        step matches WorkerStep::Serve { run: next, response } ==> {
            &&& next.handles == run.handles
            &&& run.phase is Initialization && next.phase is Options ==> (
            event matches WorkerEvent::Line(Ok(request)) && request.request_id == 0
                && request.operation@ == "initialize"@ && request.generation@ == run.generation@
                && request.protocol_version == run.protocol_version && request.arguments == Some(
                next.phase->Options_arguments,
            ))
            &&& run.phase is Options && next.phase is Theme ==> event == WorkerEvent::Options(
                Ok(next.phase->Theme_host_bundle_id),
            )
            &&& run.phase is Theme && next.phase is Driver ==> next.phase->Driver_host_bundle_id
                == run.phase->Theme_host_bundle_id && (event matches WorkerEvent::Theme(Ok(_)))
            &&& run.phase is Driver && next.phase is Ready ==> next.phase->Ready_host_bundle_id
                == run.phase->Driver_host_bundle_id && (event matches WorkerEvent::Driver(Ok(_)))
            &&& next.phase is Idle ==> run.phase is Ready && response is Some && (
            response->0.outcome matches Ok(value) && value.view().bool_at("ready"@) == Some(true)
                && value.view().text_at("host_bundle_id"@) == Some(
                run.phase->Ready_host_bundle_id@,
            ) && (event matches WorkerEvent::Metadata { metadata: Ok(metadata), process_id }
                && value.view().u64_at("pid"@) == Some(process_id as u64) && value.view().get(
                "metadata"@,
            ) == Some(metadata.view())))
        },
        (run.phase is Driver && event is Driver && event->Driver_0 is Err) ==> (
        step matches WorkerStep::End { response: Some(told), .. } && (
        told.outcome matches Err(failure) && failure.message@ == event->Driver_0->Err_0@)),
        (run.phase is Initialization && (event matches WorkerEvent::Line(Ok(request)) && (
        request.request_id != 0 || request.generation@ != run.generation@ || request.operation@
            != "initialize"@ || request.protocol_version != run.protocol_version))) ==> (
        step matches WorkerStep::End { response: Some(told), .. } && told.outcome is Err),
{
    reveal_strlit("ready");
    reveal_strlit("pid");
    reveal_strlit("host_bundle_id");
    reveal_strlit("metadata");
    assert("ready"@.len() == 5);
    assert("pid"@.len() == 3);
    assert("host_bundle_id"@.len() == 14);
    assert("metadata"@.len() == 8);
}

} // verus!
