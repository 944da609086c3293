//! The typed tools of creative applications as they are registered with the
//! driver: their names, what they take, and what they may do.

use crate::dcc_tools::MAX_DCC_CALL_TIMEOUT_MS;
#[allow(unused_imports)]
use crate::dcc_tools::{is_remote_method, port_in, timeout_in};
use crate::json::{put_member, Json, JsonMember};
#[allow(unused_imports)]
use crate::json::{array_tree, object_tree, unsigned_tree, JsonTree};
use vstd::prelude::*;

verus! {

/// The largest port there is.
pub const MAX_PORT: u64 = 65_535;

/// What a tool is called, what it takes, and what it may do.
#[derive(Debug)]
pub struct DccToolDef {
    pub name: &'static str,
    pub description: &'static str,
    pub input_schema: Json,
    pub read_only: bool,
    pub destructive: bool,
    pub idempotent: bool,
    pub open_world: bool,
}

impl DccToolDef {
    /// The tool may change what it reaches, differently each time, and reaches
    /// out of the driver.
    pub open spec fn acts_on_the_world(self) -> bool {
        !self.read_only && self.destructive && !self.idempotent && self.open_world
    }
}

/// What is said of a value of some type.
pub open spec fn described_members(kind: Seq<char>, description: Seq<char>) -> Map<
    Seq<char>,
    JsonTree,
> {
    Map::<Seq<char>, JsonTree>::empty().insert("type"@, JsonTree::Text(kind)).insert(
        "description"@,
        JsonTree::Text(description),
    )
}

/// A whole number from one up to a ceiling.
pub open spec fn counted_tree(maximum: u64, description: Seq<char>) -> JsonTree {
    JsonTree::Object(
        described_members("integer"@, description).insert("minimum"@, unsigned_tree(1)).insert(
            "maximum"@,
            unsigned_tree(maximum),
        ),
    )
}

pub open spec fn timeout_tree() -> JsonTree {
    counted_tree(MAX_DCC_CALL_TIMEOUT_MS, "Optional per-call timeout in milliseconds."@)
}

/// An object with these properties and no others.
pub open spec fn schema_tree(properties: Map<Seq<char>, JsonTree>, required: Seq<JsonTree>) -> JsonTree {
    JsonTree::Object(
        Map::<Seq<char>, JsonTree>::empty().insert("type"@, JsonTree::Text("object"@)).insert(
            "properties"@,
            JsonTree::Object(properties),
        ).insert("required"@, JsonTree::Array(required)).insert(
            "additionalProperties"@,
            JsonTree::Bool(false),
        ),
    )
}

/// What a Maya command takes.
pub open spec fn maya_schema() -> JsonTree {
    schema_tree(
        Map::<Seq<char>, JsonTree>::empty().insert(
            "port"@,
            counted_tree(MAX_PORT, "Local Maya commandPort TCP port."@),
        ).insert(
            "command"@,
            JsonTree::Object(
                described_members(
                    "string"@,
                    "MEL or Python source sent verbatim to the commandPort."@,
                ),
            ),
        ).insert("timeout_ms"@, timeout_tree()),
        seq![JsonTree::Text("port"@), JsonTree::Text("command"@)],
    )
}

/// The methods of a remote call.
pub open spec fn method_trees() -> Seq<JsonTree> {
    seq![JsonTree::Text("GET"@), JsonTree::Text("PUT"@), JsonTree::Text("POST"@)]
}

/// What a remote call of Unreal takes.
pub open spec fn unreal_schema() -> JsonTree {
    schema_tree(
        Map::<Seq<char>, JsonTree>::empty().insert(
            "port"@,
            counted_tree(MAX_PORT, "Local Remote Control HTTP port (default 30010)."@),
        ).insert(
            "method"@,
            JsonTree::Object(
                described_members(
                    "string"@,
                    "HTTP method for the Remote Control endpoint."@,
                ).insert("enum"@, JsonTree::Array(method_trees())),
            ),
        ).insert(
            "path"@,
            JsonTree::Object(
                described_members("string"@, "Endpoint path; must start with /remote/."@),
            ),
        ).insert(
            "body"@,
            JsonTree::Object(described_members("object"@, "Optional JSON request body."@)),
        ).insert("timeout_ms"@, timeout_tree()),
        seq![JsonTree::Text("port"@), JsonTree::Text("method"@), JsonTree::Text("path"@)],
    )
}

fn put_text(items: &mut Vec<Json>, text: &str)
    ensures
        array_tree(final(items)@) == array_tree(old(items)@).push(JsonTree::Text(text@)),
{
    items.push(Json::text(text));
    assert(items@.drop_last() =~= old(items)@);
}

fn described(kind: &str, description: &str) -> (r: Vec<JsonMember>)
    ensures
        object_tree(r@) == described_members(kind@, description@),
{
    let mut members: Vec<JsonMember> = Vec::new();
    put_member(&mut members, "type", Json::text(kind));
    put_member(&mut members, "description", Json::text(description));
    members
}

fn counted(maximum: u64, description: &str) -> (r: Json)
    ensures
        r.view() == counted_tree(maximum, description@),
{
    let mut members = described("integer", description);
    put_member(&mut members, "minimum", Json::unsigned(1));
    put_member(&mut members, "maximum", Json::unsigned(maximum));
    Json::Object(members)
}

fn schema(properties: Vec<JsonMember>, required: Vec<Json>) -> (r: Json)
    ensures
        r.view() == schema_tree(object_tree(properties@), array_tree(required@)),
{
    let mut members: Vec<JsonMember> = Vec::new();
    put_member(&mut members, "type", Json::text("object"));
    put_member(&mut members, "properties", Json::Object(properties));
    put_member(&mut members, "required", Json::Array(required));
    put_member(&mut members, "additionalProperties", Json::Bool(false));
    Json::Object(members)
}

/// The tool that runs a snippet in Maya.
pub fn maya_command_def() -> (r: DccToolDef)
    ensures
        r.name@ == "maya_command"@,
        r.description@
            == "Execute a MEL or Python snippet through a local Maya commandPort (loopback only). The snippet language must match the commandPort sourceType configured inside Maya."@,
        r.input_schema.view() == maya_schema(),
        r.acts_on_the_world(),
{
    let mut properties: Vec<JsonMember> = Vec::new();
    put_member(&mut properties, "port", counted(MAX_PORT, "Local Maya commandPort TCP port."));
    put_member(
        &mut properties,
        "command",
        Json::Object(
            described("string", "MEL or Python source sent verbatim to the commandPort."),
        ),
    );
    put_member(
        &mut properties,
        "timeout_ms",
        counted(MAX_DCC_CALL_TIMEOUT_MS, "Optional per-call timeout in milliseconds."),
    );
    let mut required: Vec<Json> = Vec::new();
    put_text(&mut required, "port");
    put_text(&mut required, "command");
    assert(array_tree(required@) =~= seq![JsonTree::Text("port"@), JsonTree::Text("command"@)]);
    DccToolDef {
        name: "maya_command",
        description: "Execute a MEL or Python snippet through a local Maya commandPort (loopback only). The snippet language must match the commandPort sourceType configured inside Maya.",
        input_schema: schema(properties, required),
        read_only: false,
        destructive: true,
        idempotent: false,
        open_world: true,
    }
}

/// The tool that calls the Remote Control of Unreal.
pub fn unreal_remote_call_def() -> (r: DccToolDef)
    ensures
        r.name@ == "unreal_remote_call"@,
        r.description@
            == "Call the local Unreal Remote Control HTTP API (loopback only). The path must start with /remote/ and the body is forwarded as JSON."@,
        r.input_schema.view() == unreal_schema(),
        r.acts_on_the_world(),
{
    let mut methods: Vec<Json> = Vec::new();
    put_text(&mut methods, "GET");
    put_text(&mut methods, "PUT");
    put_text(&mut methods, "POST");
    assert(array_tree(methods@) =~= method_trees());
    let mut method = described("string", "HTTP method for the Remote Control endpoint.");
    put_member(&mut method, "enum", Json::Array(methods));
    let mut properties: Vec<JsonMember> = Vec::new();
    put_member(
        &mut properties,
        "port",
        counted(MAX_PORT, "Local Remote Control HTTP port (default 30010)."),
    );
    put_member(&mut properties, "method", Json::Object(method));
    put_member(
        &mut properties,
        "path",
        Json::Object(described("string", "Endpoint path; must start with /remote/.")),
    );
    put_member(
        &mut properties,
        "body",
        Json::Object(described("object", "Optional JSON request body.")),
    );
    put_member(
        &mut properties,
        "timeout_ms",
        counted(MAX_DCC_CALL_TIMEOUT_MS, "Optional per-call timeout in milliseconds."),
    );
    let mut required: Vec<Json> = Vec::new();
    put_text(&mut required, "port");
    put_text(&mut required, "method");
    put_text(&mut required, "path");
    assert(array_tree(required@) =~= seq![
        JsonTree::Text("port"@),
        JsonTree::Text("method"@),
        JsonTree::Text("path"@),
    ]);
    DccToolDef {
        name: "unreal_remote_call",
        description: "Call the local Unreal Remote Control HTTP API (loopback only). The path must start with /remote/ and the body is forwarded as JSON.",
        input_schema: schema(properties, required),
        read_only: false,
        destructive: true,
        idempotent: false,
        open_world: true,
    }
}

/// What the schemas say of a port, a timeout and a method is what the calls
/// are held to.
pub proof fn law_schemas_state_the_limits_of_calls(args: JsonTree, method: Seq<char>)
    ensures
        port_in(args) is Some <==> (args.u64_at("port"@) matches Some(port) && 1 <= port
            <= MAX_PORT),
        timeout_in(args) matches Some(timeout) ==> 1 <= timeout <= MAX_DCC_CALL_TIMEOUT_MS,
        is_remote_method(method) <==> method_trees().contains(JsonTree::Text(method)),
{
    let methods = method_trees();
    assert(methods[0] == JsonTree::Text("GET"@));
    assert(methods[1] == JsonTree::Text("PUT"@));
    assert(methods[2] == JsonTree::Text("POST"@));
}

/// Both tools change things outside and may not be repeated freely; neither accepts
/// a member that its schema does not name.
pub proof fn law_tools_are_told_as_they_act(tool: DccToolDef)
    requires
        tool.acts_on_the_world(),
    ensures
        !tool.read_only,
        tool.destructive,
        !tool.idempotent,
        tool.open_world,
        maya_schema().text_at("type"@) == Some("object"@),
        unreal_schema().text_at("type"@) == Some("object"@),
        maya_schema().bool_at("additionalProperties"@) == Some(false),
        unreal_schema().bool_at("additionalProperties"@) == Some(false),
        maya_schema().get("required"@) == Some(
            JsonTree::Array(seq![JsonTree::Text("port"@), JsonTree::Text("command"@)]),
        ),
        unreal_schema().get("required"@) == Some(
            JsonTree::Array(
                seq![JsonTree::Text("port"@), JsonTree::Text("method"@), JsonTree::Text("path"@)],
            ),
        ),
{
    reveal_strlit("type");
    reveal_strlit("properties");
    reveal_strlit("required");
    reveal_strlit("additionalProperties");
    assert("type"@.len() == 4);
    assert("properties"@.len() == 10);
    assert("required"@.len() == 8);
    assert("additionalProperties"@.len() == 20);
}

} // verus!
