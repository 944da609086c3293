//! Typed tools for creative applications on this machine: what their calls ask
//! for, and what is made of the replies. Every endpoint is on the loopback
//! interface; a caller picks no more than its port.

use crate::dcc_http::{decode_lossy, ChunkOutcome, HttpResponse};
#[allow(unused_imports)]
use crate::dcc_http::lossy_text;
use crate::json::{parse_json_bytes, put_member, Json, JsonMember};
#[allow(unused_imports)]
use crate::json::{parsed_bytes, unsigned_tree, JsonTree};
use crate::text::{
    char_is_alphanumeric, chars_of, decimal_text, join3, text_begins_with, text_eq, trim_end_text,
    utf8_len,
};
#[allow(unused_imports)]
use crate::text::{begins_with, decimal, is_alphanumeric, trim_right};
use vstd::prelude::*;
use vstd::string::*;

verus! {

/// The only host a typed tool reaches.
pub const DCC_LOOPBACK_HOST: &'static str = "127.0.0.1";

pub const DEFAULT_DCC_CALL_TIMEOUT_MS: u64 = 15_000;

pub const MAX_DCC_CALL_TIMEOUT_MS: u64 = 60_000;

pub const MAX_DCC_REPLY_BYTES: usize = 1_048_576;

pub const MAX_MAYA_COMMAND_BYTES: usize = 65_536;

pub const MAX_UNREAL_BODY_BYTES: usize = 262_144;

pub const MAX_REMOTE_PATH_BYTES: usize = 512;

/// The refusal of a call, if it is refused.
pub open spec fn refused_with<T>(result: Result<T, String>, message: Seq<char>) -> bool {
    result matches Err(text) && text@ == message
}

/// A usable port.
pub open spec fn port_in(args: JsonTree) -> Option<u16> {
    match args.u64_at("port"@) {
        Some(port) => if 0 < port <= 65535 {
            Some(port as u16)
        } else {
            None
        },
        None => None,
    }
}

/// The timeout of a call: what it gives, clamped to the ceiling, if that is a
/// time at all.
pub open spec fn timeout_in(args: JsonTree) -> Option<u64> {
    match args.get("timeout_ms"@) {
        None => Some(DEFAULT_DCC_CALL_TIMEOUT_MS),
        Some(JsonTree::Null) => Some(DEFAULT_DCC_CALL_TIMEOUT_MS),
        Some(value) => match value.as_u64() {
            Some(timeout) => if timeout == 0 {
                None
            } else if timeout > MAX_DCC_CALL_TIMEOUT_MS {
                Some(MAX_DCC_CALL_TIMEOUT_MS)
            } else {
                Some(timeout)
            },
            None => None,
        },
    }
}

pub open spec fn timeout_message() -> Seq<char> {
    "timeout_ms must be an integer in 1.."@ + decimal(MAX_DCC_CALL_TIMEOUT_MS as nat)
}

/// What is wrong with the part of the arguments that all typed tools share.
pub open spec fn shared_refusal(args: JsonTree) -> Option<Seq<char>> {
    if !(args is Object) {
        Some("arguments must be a JSON object"@)
    } else if port_in(args) is None {
        Some("port must be an integer in 1..65535"@)
    } else if timeout_in(args) is None {
        Some(timeout_message())
    } else {
        None
    }
}

pub fn require_object(args: &Json) -> (r: Result<(), String>)
    ensures
        if args.view() is Object {
            r is Ok
        } else {
            refused_with(r, "arguments must be a JSON object"@)
        },
{
    if args.is_object() {
        Ok(())
    } else {
        Err("arguments must be a JSON object".to_owned())
    }
}

/// The port of a call, which it has to give.
pub fn require_port(args: &Json) -> (r: Result<u16, String>)
    ensures
        match port_in(args.view()) {
            Some(port) => r == Ok::<u16, String>(port),
            None => refused_with(r, "port must be an integer in 1..65535"@),
        },
{
    match args.u64_at("port") {
        Some(port) => {
            if port > 0 && port <= 65535 {
                Ok(port as u16)
            } else {
                Err("port must be an integer in 1..65535".to_owned())
            }
        },
        None => Err("port must be an integer in 1..65535".to_owned()),
    }
}

/// The timeout of a call, clamped to the ceiling. Zero, and what is no unsigned
/// integer, is refused.
pub fn effective_timeout_ms(args: &Json) -> (r: Result<u64, String>)
    ensures
        match timeout_in(args.view()) {
            Some(timeout) => r == Ok::<u64, String>(timeout),
            None => refused_with(r, timeout_message()),
        },
{
    let value = match args.get("timeout_ms") {
        None => return Ok(DEFAULT_DCC_CALL_TIMEOUT_MS),
        Some(value) => value,
    };
    if value.is_null() {
        return Ok(DEFAULT_DCC_CALL_TIMEOUT_MS);
    }
    match value.as_u64() {
        Some(timeout) if timeout > MAX_DCC_CALL_TIMEOUT_MS => Ok(MAX_DCC_CALL_TIMEOUT_MS),
        Some(timeout) if timeout > 0 => Ok(timeout),
        _ => {
            let mut text = "timeout_ms must be an integer in 1..".to_owned();
            text.append(decimal_text(MAX_DCC_CALL_TIMEOUT_MS).as_str());
            Err(text)
        },
    }
}

/// A call of the Maya tool.
#[derive(Debug)]
pub struct MayaCommand {
    pub port: u16,
    pub timeout_ms: u64,
    pub command: String,
}

/// The snippet of a call.
pub open spec fn command_in(args: JsonTree) -> Option<Seq<char>> {
    match args.text_at("command"@) {
        Some(command) => if command.len() > 0 {
            Some(command)
        } else {
            None
        },
        None => None,
    }
}

/// A command for Maya, as it was asked for.
pub open spec fn maya_is_planned(args: JsonTree, r: Result<MayaCommand, String>) -> bool {
    match shared_refusal(args) {
        Some(message) => refused_with(r, message),
        None => match command_in(args) {
            None => refused_with(r, "command must be a non-empty string"@),
            Some(command) => if vstd::utf8::encode_utf8(command).len()
                > MAX_MAYA_COMMAND_BYTES {
                refused_with(
                    r,
                    "command exceeds "@ + decimal(MAX_MAYA_COMMAND_BYTES as nat) + " bytes"@,
                )
            } else {
                &&& r matches Ok(call)
                &&& Some(call.port) == port_in(args)
                &&& Some(call.timeout_ms) == timeout_in(args)
                &&& call.command@ == command
            },
        },
    }
}

/// What the arguments of the Maya tool ask for.
pub fn plan_maya_command(args: &Json) -> (r: Result<MayaCommand, String>)
    ensures
        maya_is_planned(args.view(), r),
{
    if let Err(message) = require_object(args) {
        return Err(message);
    }
    let port = match require_port(args) {
        Ok(port) => port,
        Err(message) => return Err(message),
    };
    let timeout_ms = match effective_timeout_ms(args) {
        Ok(timeout_ms) => timeout_ms,
        Err(message) => return Err(message),
    };
    let command = match args.text_at("command") {
        Some(command) => command,
        None => return Err("command must be a non-empty string".to_owned()),
    };
    if command.unicode_len() == 0 {
        return Err("command must be a non-empty string".to_owned());
    }
    if utf8_len(command) > MAX_MAYA_COMMAND_BYTES {
        return Err(
            join3(
                "command exceeds ",
                decimal_text(MAX_MAYA_COMMAND_BYTES as u64).as_str(),
                " bytes",
            ),
        );
    }
    Ok(MayaCommand { port, timeout_ms, command: command.to_owned() })
}

/// The first zero byte from `at` on, or the length.
pub open spec fn zero_at(bytes: Seq<u8>, at: int) -> int
    decreases bytes.len() - at,
{
    if at >= bytes.len() || bytes[at] == 0 {
        at
    } else {
        zero_at(bytes, at + 1)
    }
}

/// A part of a reply is taken up to its end.
pub open spec fn chunk_is_taken(before: Seq<u8>, chunk: Seq<u8>, after: Seq<u8>, r: ChunkOutcome) -> bool {
    ({
        let end = zero_at(chunk, 0);
        &&& 0 <= end <= chunk.len()
        &&& after == before + chunk.take(end)
        &&& r == if end < chunk.len() {
            ChunkOutcome::Complete
        } else if after.len() > MAX_DCC_REPLY_BYTES {
            ChunkOutcome::TooLarge
        } else {
            ChunkOutcome::More
        }
    })
}

/// Takes in a chunk of a command port's reply, which a zero byte ends. A reply
/// that is not ended may not grow past the limit.
pub fn take_reply_chunk(reply: &mut Vec<u8>, chunk: &Vec<u8>) -> (r: ChunkOutcome)
    ensures
        chunk_is_taken(old(reply)@, chunk@, final(reply)@, r),
{
    let ghost before = reply@;
    let mut i: usize = 0;
    while i < chunk.len() && chunk[i] != 0
        invariant
            i <= chunk.len(),
            zero_at(chunk@, 0) == zero_at(chunk@, i as int),
            reply@ == before + chunk@.take(i as int),
            before == old(reply)@,
        decreases chunk.len() - i,
    {
        reply.push(chunk[i]);
        assert(before + chunk@.take(i + 1) =~= (before + chunk@.take(i as int)).push(
            chunk@[i as int],
        ));
        i = i + 1;
    }
    if i < chunk.len() {
        return ChunkOutcome::Complete;
    }
    if reply.len() > MAX_DCC_REPLY_BYTES {
        ChunkOutcome::TooLarge
    } else {
        ChunkOutcome::More
    }
}

/// The message about a reply that grew too large.
pub fn oversized_reply(limit: usize) -> (r: String)
    ensures
        r@ == "reply exceeds "@ + decimal(limit as nat) + " bytes"@,
{
    join3("reply exceeds ", decimal_text(limit as u64).as_str(), " bytes")
}

/// How an exchange with a local service ended.
#[derive(Debug)]
pub enum DccExchange<T> {
    TimedOut,
    Failed(String),
    Replied(T),
}

/// What the Maya tool returns.
#[derive(Debug)]
pub struct MayaReply {
    pub text: String,
    pub structured: Json,
}

pub open spec fn maya_tree(port: u16, reply: Seq<char>) -> JsonTree {
    JsonTree::Object(
        Map::<Seq<char>, JsonTree>::empty().insert("port"@, unsigned_tree(port as u64)).insert(
            "reply"@,
            JsonTree::Text(reply),
        ),
    )
}

impl MayaCommand {
    /// What the tool returns of a reply that has been decoded.
    pub fn reply(&self, decoded: &str) -> (r: MayaReply)
        ensures
            r.text@ == trim_right(decoded@),
            r.structured.view() == maya_tree(self.port, r.text@),
    {
        let text = trim_end_text(decoded).to_owned();
        let mut members: Vec<JsonMember> = Vec::new();
        put_member(&mut members, "port", Json::unsigned(self.port as u64));
        put_member(&mut members, "reply", Json::text(text.as_str()));
        MayaReply { text, structured: Json::Object(members) }
    }

    /// What the tool returns of the bytes the command port replied.
    pub fn finish(&self, exchange: DccExchange<Vec<u8>>) -> (r: Result<MayaReply, String>)
        ensures
            match exchange {
                DccExchange::TimedOut => refused_with(
                    r,
                    "maya_command timed out after "@ + decimal(self.timeout_ms as nat)
                        + " ms (dcc_typed_timeout)"@,
                ),
                DccExchange::Failed(error) => refused_with(
                    r,
                    "maya commandPort on "@ + DCC_LOOPBACK_HOST@ + ":"@ + decimal(
                        self.port as nat,
                    ) + " failed: "@ + error@ + " (dcc_typed_unreachable)"@,
                ),
                DccExchange::Replied(bytes) => {
                    &&& r matches Ok(reply)
                    &&& reply.text@ == trim_right(lossy_text(bytes@))
                    &&& reply.structured.view() == maya_tree(self.port, reply.text@)
                },
            },
    {
        match exchange {
            DccExchange::TimedOut => Err(
                join3(
                    "maya_command timed out after ",
                    decimal_text(self.timeout_ms).as_str(),
                    " ms (dcc_typed_timeout)",
                ),
            ),
            DccExchange::Failed(error) => {
                let mut text = join3("maya commandPort on ", DCC_LOOPBACK_HOST, ":");
                text.append(decimal_text(self.port as u64).as_str());
                text.append(" failed: ");
                text.append(error.as_str());
                text.append(" (dcc_typed_unreachable)");
                Err(text)
            },
            DccExchange::Replied(bytes) => {
                let decoded = decode_lossy(&bytes);
                Ok(self.reply(decoded.as_str()))
            },
        }
    }
}

/// A call of the Unreal tool.
#[derive(Debug)]
pub struct UnrealCall {
    pub port: u16,
    pub timeout_ms: u64,
    pub method: String,
    pub path: String,
    /// The body, sent as JSON.
    pub body: Option<Json>,
}

/// A method the Remote Control service takes.
pub open spec fn is_remote_method(method: Seq<char>) -> bool {
    method == "GET"@ || method == "PUT"@ || method == "POST"@
}

/// A character that needs no escape in a path or a query.
pub open spec fn is_path_char(c: char) -> bool {
    is_alphanumeric(c) || c == '/' || c == '-' || c == '_' || c == '.' || c == '~' || c == '%' || c
        == '?' || c == '&' || c == '='
}

/// A path inside the Remote Control namespace.
pub open spec fn is_remote_path(path: Seq<char>) -> bool {
    &&& begins_with(path, "/remote/"@)
    &&& path.len() <= MAX_REMOTE_PATH_BYTES
    &&& forall|i: int| 0 <= i < path.len() ==> is_path_char(#[trigger] path[i])
}

/// Whether a path stays inside the Remote Control namespace.
pub fn is_safe_remote_path(path: &str) -> (r: bool)
    ensures
        r == is_remote_path(path@),
{
    if !text_begins_with(path, "/remote/") {
        return false;
    }
    let chars = chars_of(path);
    if chars.len() > MAX_REMOTE_PATH_BYTES {
        return false;
    }
    let mut i: usize = 0;
    while i < chars.len()
        invariant
            i <= chars.len(),
            chars@ == path@,
            forall|k: int| 0 <= k < i ==> is_path_char(#[trigger] chars@[k]),
        decreases chars.len() - i,
    {
        let c = chars[i];
        if !(char_is_alphanumeric(c) || c == '/' || c == '-' || c == '_' || c == '.' || c == '~'
            || c == '%' || c == '?' || c == '&' || c == '=') {
            assert(!is_path_char(path@[i as int]));
            return false;
        }
        i = i + 1;
    }
    true
}

/// What is wrong with the arguments of the Unreal tool.
pub open spec fn unreal_refusal(args: JsonTree) -> Option<Seq<char>> {
    if shared_refusal(args) is Some {
        shared_refusal(args)
    } else if !(args.text_at("method"@) matches Some(method) && is_remote_method(method)) {
        Some("method must be one of GET, PUT, POST"@)
    } else if !(args.text_at("path"@) matches Some(path) && is_remote_path(path)) {
        Some("path must start with /remote/ and contain only URL-safe characters"@)
    } else {
        match args.get("body"@) {
            None => None,
            Some(JsonTree::Null) => None,
            Some(JsonTree::Object(_)) => None,
            Some(_) => Some("body must be a JSON object"@),
        }
    }
}

/// A call of Unreal, as it was asked for.
pub open spec fn unreal_is_planned(args: JsonTree, r: Result<UnrealCall, String>) -> bool {
    match unreal_refusal(args) {
        Some(message) => refused_with(r, message),
        None => {
            &&& r matches Ok(call)
            &&& Some(call.port) == port_in(args)
            &&& Some(call.timeout_ms) == timeout_in(args)
            &&& Some(call.method@) == args.text_at("method"@)
            &&& Some(call.path@) == args.text_at("path"@)
            &&& match args.get("body"@) {
                Some(JsonTree::Object(members)) => call.body matches Some(body) && body.view()
                    == JsonTree::Object(members),
                _ => call.body is None,
            }
        },
    }
}

/// What the arguments of the Unreal tool ask for.
pub fn plan_unreal_call(args: &Json) -> (r: Result<UnrealCall, String>)
    ensures
        unreal_is_planned(args.view(), r),
{
    if let Err(message) = require_object(args) {
        return Err(message);
    }
    let port = match require_port(args) {
        Ok(port) => port,
        Err(message) => return Err(message),
    };
    let timeout_ms = match effective_timeout_ms(args) {
        Ok(timeout_ms) => timeout_ms,
        Err(message) => return Err(message),
    };
    let method = match args.text_at("method") {
        Some(method) => method,
        None => return Err("method must be one of GET, PUT, POST".to_owned()),
    };
    if !(text_eq(method, "GET") || text_eq(method, "PUT") || text_eq(method, "POST")) {
        return Err("method must be one of GET, PUT, POST".to_owned());
    }
    let path = match args.text_at("path") {
        Some(path) => path,
        None => return Err(
            "path must start with /remote/ and contain only URL-safe characters".to_owned(),
        ),
    };
    if !is_safe_remote_path(path) {
        return Err(
            "path must start with /remote/ and contain only URL-safe characters".to_owned(),
        );
    }
    let body = match args.get("body") {
        None => None,
        Some(value) => {
            if value.is_null() {
                None
            } else if value.is_object() {
                Some(value.clone())
            } else {
                return Err("body must be a JSON object".to_owned());
            }
        },
    };
    Ok(UnrealCall { port, timeout_ms, method: method.to_owned(), path: path.to_owned(), body })
}

/// A body that is sent has to fit.
pub fn check_unreal_body(body: &Vec<u8>) -> (r: Result<(), String>)
    ensures
        if body@.len() > MAX_UNREAL_BODY_BYTES {
            refused_with(
                r,
                "body exceeds "@ + decimal(MAX_UNREAL_BODY_BYTES as nat) + " bytes"@,
            )
        } else {
            r is Ok
        },
{
    if body.len() > MAX_UNREAL_BODY_BYTES {
        return Err(
            join3(
                "body exceeds ",
                decimal_text(MAX_UNREAL_BODY_BYTES as u64).as_str(),
                " bytes",
            ),
        );
    }
    Ok(())
}

/// What the Unreal tool returns: a structured value, and whether the service
/// refused the call.
#[derive(Debug)]
pub struct UnrealReply {
    pub structured: Json,
    pub is_error: bool,
}

/// What the body of a response stands for.
pub open spec fn response_body_tree(body: Seq<u8>) -> JsonTree {
    match parsed_bytes(body) {
        Ok(tree) => tree,
        Err(_) => JsonTree::Text(lossy_text(body)),
    }
}

pub open spec fn unreal_tree(port: u16, status: u16, body: JsonTree) -> JsonTree {
    JsonTree::Object(
        Map::<Seq<char>, JsonTree>::empty().insert("port"@, unsigned_tree(port as u64)).insert(
            "status"@,
            unsigned_tree(status as u64),
        ).insert("body"@, body),
    )
}

/// The reply to a response whose body has been decoded.
pub fn unreal_reply(port: u16, status: u16, body: Json) -> (r: UnrealReply)
    ensures
        r.structured.view() == unreal_tree(port, status, body.view()),
        r.is_error == (status >= 400),
{
    let mut members: Vec<JsonMember> = Vec::new();
    put_member(&mut members, "port", Json::unsigned(port as u64));
    put_member(&mut members, "status", Json::unsigned(status as u64));
    put_member(&mut members, "body", body);
    UnrealReply { structured: Json::Object(members), is_error: status >= 400 }
}

impl UnrealCall {
    /// What the tool returns of the response.
    pub fn finish(&self, exchange: DccExchange<HttpResponse>) -> (r: Result<UnrealReply, String>)
        ensures
            match exchange {
                DccExchange::TimedOut => refused_with(
                    r,
                    "unreal_remote_call timed out after "@ + decimal(self.timeout_ms as nat)
                        + " ms (dcc_typed_timeout)"@,
                ),
                DccExchange::Failed(error) => refused_with(
                    r,
                    "unreal remote control on "@ + DCC_LOOPBACK_HOST@ + ":"@ + decimal(
                        self.port as nat,
                    ) + " failed: "@ + error@ + " (dcc_typed_unreachable)"@,
                ),
                DccExchange::Replied(response) => {
                    &&& r matches Ok(reply)
                    &&& reply.structured.view() == unreal_tree(
                        self.port,
                        response.status,
                        response_body_tree(response.body@),
                    )
                    &&& reply.is_error == (response.status >= 400)
                },
            },
    {
        match exchange {
            DccExchange::TimedOut => Err(
                join3(
                    "unreal_remote_call timed out after ",
                    decimal_text(self.timeout_ms).as_str(),
                    " ms (dcc_typed_timeout)",
                ),
            ),
            DccExchange::Failed(error) => {
                let mut text = join3("unreal remote control on ", DCC_LOOPBACK_HOST, ":");
                text.append(decimal_text(self.port as u64).as_str());
                text.append(" failed: ");
                text.append(error.as_str());
                text.append(" (dcc_typed_unreachable)");
                Err(text)
            },
            DccExchange::Replied(response) => {
                let body = match parse_json_bytes(&response.body) {
                    Ok(body) => body,
                    Err(_) => Json::Text(decode_lossy(&response.body)),
                };
                Ok(unreal_reply(self.port, response.status, body))
            },
        }
    }
}

/// A call of the Unreal tool that goes out has a usable port, an allowed
/// method, and a path that stays inside the Remote Control namespace.
pub proof fn law_remote_calls_stay_in_their_namespace(args: JsonTree)
    requires
        unreal_refusal(args) is None,
    ensures
        port_in(args) is Some,
        timeout_in(args) matches Some(timeout) && 1 <= timeout <= MAX_DCC_CALL_TIMEOUT_MS,
        args.text_at("method"@) matches Some(method) && is_remote_method(method),
        args.text_at("path"@) matches Some(path) && begins_with(path, "/remote/"@) && path.len()
            <= MAX_REMOTE_PATH_BYTES && (forall|i: int|
            0 <= i < path.len() ==> is_path_char(#[trigger] path[i])),
{
}

/// A call of an application carries what was asked for: the port, the time within
/// its bound, the command, or the method, the path and the body.
pub proof fn law_application_calls_carry_what_was_asked(
    args: JsonTree,
    maya: Result<MayaCommand, String>,
    unreal: Result<UnrealCall, String>,
)
    requires
        maya_is_planned(args, maya),
        unreal_is_planned(args, unreal),
    ensures
        maya matches Ok(call) ==> args.u64_at("port"@) == Some(call.port as u64) && call.port > 0
            && args.text_at("command"@) == Some(call.command@) && call.command@.len() > 0
            && vstd::utf8::encode_utf8(call.command@).len() <= 65_536 && 0 < call.timeout_ms
            <= 60_000,
        unreal matches Ok(call) ==> args.u64_at("port"@) == Some(call.port as u64) && call.port > 0
            && args.text_at("method"@) == Some(call.method@) && args.text_at("path"@) == Some(
            call.path@,
        ) && 0 < call.timeout_ms <= 60_000 && (call.method@ == "GET"@ || call.method@ == "PUT"@
            || call.method@ == "POST"@) && call.path@.len() <= 512,
        (unreal matches Ok(call) && args.get("body"@) matches Some(JsonTree::Object(_))) ==> (
        unreal->Ok_0.body matches Some(body) && Some(body.view()) == args.get("body"@)),
        unreal is Ok && args.get("body"@) is None ==> unreal->Ok_0.body is None,
        maya is Ok && args.get("timeout_ms"@) is None ==> maya->Ok_0.timeout_ms == 15_000,
        maya is Ok && (args.u64_at("timeout_ms"@) matches Some(asked) && asked <= 60_000)
            ==> maya->Ok_0.timeout_ms == args.u64_at("timeout_ms"@)->0,
        maya is Ok && (args.u64_at("timeout_ms"@) matches Some(asked) && asked > 60_000)
            ==> maya->Ok_0.timeout_ms == 60_000,
{
}

/// A reply is told with the port it came from, its status and its body.
pub proof fn law_application_replies_are_told_whole(
    port: u16,
    reply: Seq<char>,
    status: u16,
    body: JsonTree,
)
    ensures
        maya_tree(port, reply).u64_at("port"@) == Some(port as u64),
        maya_tree(port, reply).text_at("reply"@) == Some(reply),
        unreal_tree(port, status, body).u64_at("port"@) == Some(port as u64),
        unreal_tree(port, status, body).u64_at("status"@) == Some(status as u64),
        unreal_tree(port, status, body).get("body"@) == Some(body),
{
    reveal_strlit("port");
    reveal_strlit("reply");
    reveal_strlit("status");
    reveal_strlit("body");
    assert("port"@.len() == 4);
    assert("reply"@.len() == 5);
    assert("status"@.len() == 6);
    assert("body"@.len() == 4);
    assert("port"@[0] != "body"@[0]);
}

/// The body of a reply is its JSON where it is such, and else its text.
pub proof fn law_reply_bodies_are_read(body: Seq<u8>, tree: JsonTree)
    ensures
        parsed_bytes(body) == Ok::<JsonTree, Seq<char>>(tree) ==> response_body_tree(body) == tree,
        parsed_bytes(body) is Err ==> response_body_tree(body) == JsonTree::Text(lossy_text(body)),
{
}

/// A part of a reply is taken up to its first zero, which ends it; a reply that
/// grows beyond its bound without one is too large.
pub proof fn law_replies_end_at_the_first_zero(
    before: Seq<u8>,
    chunk: Seq<u8>,
    after: Seq<u8>,
    r: ChunkOutcome,
)
    requires
        chunk_is_taken(before, chunk, after, r),
    ensures
        r == ChunkOutcome::Complete <==> chunk.contains(0u8),
        !chunk.contains(0u8) ==> after == before + chunk,
        before.is_prefix_of(after),
        after.is_prefix_of(before + chunk),
        r == ChunkOutcome::TooLarge <==> !chunk.contains(0u8) && after.len() > 1_048_576,
{
    lemma_zero_at(chunk, 0);
    let end = zero_at(chunk, 0);
    if end < chunk.len() {
        assert(chunk[end] == 0u8);
    } else {
        assert(chunk.take(end) =~= chunk);
        if chunk.contains(0u8) {
            let k = choose|k: int| 0 <= k < chunk.len() && chunk[k] == 0u8;
            assert(chunk[k] != 0u8);
        }
    }
    assert(before =~= after.take(before.len() as int));
    assert(after =~= (before + chunk).take(after.len() as int));
}

proof fn lemma_zero_at(bytes: Seq<u8>, at: int)
    requires
        0 <= at <= bytes.len(),
    ensures
        at <= zero_at(bytes, at) <= bytes.len(),
        zero_at(bytes, at) < bytes.len() ==> bytes[zero_at(bytes, at)] == 0u8,
        forall|k: int| at <= k < zero_at(bytes, at) ==> (#[trigger] bytes[k]) != 0u8,
    decreases bytes.len() - at,
{
    if at < bytes.len() && bytes[at] != 0u8 {
        lemma_zero_at(bytes, at + 1);
    }
}

/// A path may hold letters, digits and the signs of a path or a query, and nothing
/// that could end it or start another part of a request.
pub proof fn law_paths_hold_no_other_signs(path: Seq<char>, i: int)
    requires
        is_remote_path(path),
        0 <= i < path.len(),
    ensures
        path[i] != ' ',
        path[i] != '\r',
        path[i] != '\n',
        path[i] != '\t',
        path[i] != '#',
        path[i] != ':',
        path[i] != '@',
        path[i] != '\\',
        path[i] < '\u{80}',
{
}

} // verus!
