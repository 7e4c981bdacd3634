//! The echo service: a minimal MCP tool server that hands text back.
use vstd::prelude::*;
use crate::json::{field, field_of, field_or_null, fields_deep, items_deep, str_of, str_or_empty, Json, JsonV};
use crate::rpc::{
    error, error_v, lemma_error_fields, lemma_response_fields, request_id, request_id_of, response,
    response_v, text_content, text_content_json, MAX_LINE_BYTES,
};
use crate::text::same_text;

verus! {

/// What the service does with one line of input.
#[derive(Debug, PartialEq)]
pub enum LineOutcome {
    /// Stop reading input.
    Stop,
    /// Ignore the line.
    Skip,
    /// Write this reply.
    Reply(Json),
}

/// The result of `initialize`.
pub open spec fn initialize_result() -> JsonV {
    JsonV::Object(
        seq![
            ("protocolVersion"@, JsonV::Str("2026-01-01"@)),
            ("capabilities"@, JsonV::Object(seq![("tools"@, JsonV::Object(seq![]))])),
        ],
    )
}

/// The result of `health`.
pub open spec fn health_result() -> JsonV {
    JsonV::Object(seq![("ok"@, JsonV::Bool(true)), ("message"@, JsonV::Str(""@))])
}

/// The description of the `echo` tool.
pub open spec fn echo_tool() -> JsonV {
    JsonV::Object(
        seq![
            ("name"@, JsonV::Str("echo"@)),
            ("description"@, JsonV::Str("Echo text back to the caller."@)),
            (
                "inputSchema"@,
                JsonV::Object(
                    seq![
                        ("type"@, JsonV::Str("object"@)),
                        (
                            "properties"@,
                            JsonV::Object(
                                seq![("text"@, JsonV::Object(seq![("type"@, JsonV::Str("string"@))]))],
                            ),
                        ),
                        ("required"@, JsonV::Array(seq![JsonV::Str("text"@)])),
                    ],
                ),
            ),
        ],
    )
}

/// The result of `tools/list` and `capabilities`.
pub open spec fn tools_result() -> JsonV {
    JsonV::Object(seq![("capabilities"@, JsonV::Array(seq![echo_tool()]))])
}

/// The text that a `tools/call` request asks to hand back: its
/// `params.arguments.text` where that is a string, else the empty text.
pub open spec fn call_text(request: JsonV) -> Seq<char> {
    str_or_empty(field_of(field_or_null(field_or_null(request, "params"@), "arguments"@), "text"@))
}

/// The reply of the echo service to `request`.
pub open spec fn echo_reply(request: JsonV) -> JsonV {
    let id = request_id(request);
    let method = str_or_empty(field_of(request, "method"@));
    if method == "initialize"@ {
        response_v(id, initialize_result())
    } else if method == "health"@ {
        response_v(id, health_result())
    } else if method == "tools/list"@ || method == "capabilities"@ {
        response_v(id, tools_result())
    } else if method == "tools/call"@ {
        response_v(id, text_content(call_text(request)))
    } else if method == "shutdown"@ {
        response_v(id, JsonV::Null)
    } else {
        error_v(id, -32601, "method not found"@)
    }
}

fn initialize_json() -> (r: Json)
    ensures
        r.deep() == initialize_result(),
{
    let tools = Json::object(vec![]);
    assert(fields_deep(Seq::empty()) =~= Seq::<(Seq<char>, JsonV)>::empty());
    let caps_fields = vec![field("tools", tools)];
    let caps = Json::object(caps_fields);
    assert(fields_deep(caps_fields@) =~= seq![("tools"@, JsonV::Object(seq![]))]);
    let fields = vec![field("protocolVersion", Json::text("2026-01-01")), field("capabilities", caps)];
    let r = Json::object(fields);
    assert(fields_deep(fields@) =~= initialize_result()->Object_0);
    r
}

fn health_json() -> (r: Json)
    ensures
        r.deep() == health_result(),
{
    let fields = vec![field("ok", Json::Bool(true)), field("message", Json::text(""))];
    let r = Json::object(fields);
    assert(fields_deep(fields@) =~= health_result()->Object_0);
    r
}

fn tools_json() -> (r: Json)
    ensures
        r.deep() == tools_result(),
{
    let text_type = vec![field("type", Json::text("string"))];
    let text_schema = Json::object(text_type);
    assert(fields_deep(text_type@) =~= seq![("type"@, JsonV::Str("string"@))]);
    let props_fields = vec![field("text", text_schema)];
    let props = Json::object(props_fields);
    assert(fields_deep(props_fields@) =~= seq![
        ("text"@, JsonV::Object(seq![("type"@, JsonV::Str("string"@))])),
    ]);
    let required_items = vec![Json::text("text")];
    let required = Json::array(required_items);
    assert(items_deep(required_items@) =~= seq![JsonV::Str("text"@)]);
    let schema_fields = vec![
        field("type", Json::text("object")),
        field("properties", props),
        field("required", required),
    ];
    let schema = Json::object(schema_fields);
    assert(fields_deep(schema_fields@) =~= echo_tool()->Object_0[2].1->Object_0);
    let tool_fields = vec![
        field("name", Json::text("echo")),
        field("description", Json::text("Echo text back to the caller.")),
        field("inputSchema", schema),
    ];
    let tool = Json::object(tool_fields);
    assert(fields_deep(tool_fields@) =~= echo_tool()->Object_0);
    let list_items = vec![tool];
    let list = Json::array(list_items);
    assert(items_deep(list_items@) =~= seq![echo_tool()]);
    let fields = vec![field("capabilities", list)];
    let r = Json::object(fields);
    assert(fields_deep(fields@) =~= tools_result()->Object_0);
    r
}

/// The reply of the echo service to `request`.
pub fn handle_request(request: &Json) -> (r: Json)
    ensures
        r.deep() == echo_reply(request.deep()),
{
    let id = request_id_of(request);
    let method = request.str_field_or_empty("method");
    if same_text(method, "initialize") {
        response(id, initialize_json())
    } else if same_text(method, "health") {
        response(id, health_json())
    } else if same_text(method, "tools/list") || same_text(method, "capabilities") {
        response(id, tools_json())
    } else if same_text(method, "tools/call") {
        let params = request.field_or_null("params");
        let arguments = params.field_or_null("arguments");
        let text = arguments.str_field_or_empty("text");
        response(id, text_content_json(text))
    } else if same_text(method, "shutdown") {
        response(id, Json::Null)
    } else {
        error(id, -32601, "method not found")
    }
}

/// What the echo service does with a line of `line_len` bytes whose JSON
/// parse is `request` (`None` where it is not JSON): it stops at a line over
/// 1 MiB, skips one that is not JSON, and otherwise replies to it.
pub fn handle_line(line_len: usize, request: Option<Json>) -> (r: LineOutcome)
    ensures
        line_len > MAX_LINE_BYTES ==> r is Stop,
        line_len <= MAX_LINE_BYTES && request is None ==> r is Skip,
        line_len <= MAX_LINE_BYTES && request is Some ==> (r matches LineOutcome::Reply(reply)
            && reply.deep() == echo_reply(request->0.deep())),
{
    if line_len > MAX_LINE_BYTES {
        return LineOutcome::Stop;
    }
    match request {
        None => LineOutcome::Skip,
        Some(q) => LineOutcome::Reply(handle_request(&q)),
    }
}


// ----------------------------------------------------------------------------
// Laws.

/// Every reply of the echo service is a JSON-RPC 2.0 message that carries the
/// id of the request it answers.
pub proof fn law_echo_reply_carries_id(request: JsonV)
    ensures
        field_of(echo_reply(request), "jsonrpc"@) == Some(JsonV::Str("2.0"@)),
        field_of(echo_reply(request), "id"@) == Some(request_id(request)),
{
    lemma_response_fields(request_id(request), initialize_result());
    lemma_response_fields(request_id(request), health_result());
    lemma_response_fields(request_id(request), tools_result());
    lemma_response_fields(request_id(request), text_content(call_text(request)));
    lemma_response_fields(request_id(request), JsonV::Null);
    lemma_error_fields(request_id(request), -32601, "method not found"@);
}

/// A `tools/call` request is answered with the text it gives under
/// `params.arguments.text`, handed back unchanged.
pub proof fn law_echo_hands_back_text(request: JsonV, text: Seq<char>)
    requires
        str_of(field_of(request, "method"@)) == Some("tools/call"@),
        field_of(field_or_null(field_or_null(request, "params"@), "arguments"@), "text"@) == Some(
            JsonV::Str(text),
        ),
    ensures
        field_of(echo_reply(request), "result"@) == Some(text_content(text)),
{
    reveal_strlit("tools/call");
    reveal_strlit("initialize");
    reveal_strlit("health");
    reveal_strlit("tools/list");
    reveal_strlit("capabilities");
    assert("initialize"@[0] != "tools/call"@[0]);
    assert("tools/list"@[6] != "tools/call"@[6]);
    lemma_response_fields(request_id(request), text_content(text));
}

/// A request that names no method the service knows is answered with the
/// error `-32601`.
pub proof fn law_echo_unknown_method(request: JsonV)
    requires
        !(method_known(str_or_empty(field_of(request, "method"@)))),
    ensures
        field_of(field_or_null(echo_reply(request), "error"@), "code"@) == Some(JsonV::Int(-32601)),
{
    lemma_error_fields(request_id(request), -32601, "method not found"@);
}

/// Whether the echo service knows the method `method`.
pub open spec fn method_known(method: Seq<char>) -> bool {
    ||| method == "initialize"@
    ||| method == "health"@
    ||| method == "tools/list"@
    ||| method == "capabilities"@
    ||| method == "tools/call"@
    ||| method == "shutdown"@
}

} // verus!
