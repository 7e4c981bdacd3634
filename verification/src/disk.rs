//! The disk-usage service: an MCP tool that reports the capacity of the
//! mounted disks, with the byte accounting that the report rests on.
use vstd::prelude::*;
use crate::json::{field, field_of, field_or_null, fields_deep, items_deep, str_of, str_or_empty, Json, JsonV};
use crate::rpc::{
    error, error_v, keys_of, lemma_error_fields, lemma_reply_keys, lemma_response_fields, request_id,
    request_id_of, response, response_v, text_content, text_content_json, MAX_LINE_BYTES,
};
use crate::text::same_text;

verus! {

/// The name of the one tool of the service.
pub const TOOL_NAME: &'static str = "disk_usage";

/// The capacity of one disk, in bytes.
#[derive(Clone, Copy, Debug, PartialEq, Eq)]
pub struct DiskSpace {
    pub total: u64,
    pub available: u64,
}

/// The capacity of all disks together, in bytes.
#[derive(Clone, Copy, Debug, PartialEq, Eq)]
pub struct UsageTotals {
    pub total: u64,
    pub used: u64,
    pub available: u64,
}

// ----------------------------------------------------------------------------
// Accounting.

/// The space in use on a disk of `total` bytes with `available` free: their
/// difference, or zero where the disk reports more free space than it has.
pub open spec fn used_of(total: int, available: int) -> int {
    if available <= total {
        total - available
    } else {
        0
    }
}

/// `n`, or the largest `u64` where `n` is larger.
pub open spec fn capped(n: int) -> int {
    if n > u64::MAX {
        u64::MAX as int
    } else {
        n
    }
}

/// The sum of the total sizes of `disks`.
pub open spec fn sum_total(disks: Seq<DiskSpace>) -> int
    decreases disks.len(),
{
    if disks.len() == 0 {
        0
    } else {
        sum_total(disks.drop_last()) + disks.last().total
    }
}

/// The sum of the free space of `disks`.
pub open spec fn sum_available(disks: Seq<DiskSpace>) -> int
    decreases disks.len(),
{
    if disks.len() == 0 {
        0
    } else {
        sum_available(disks.drop_last()) + disks.last().available
    }
}

/// The space in use on a disk of `total` bytes with `available` free
/// (a saturating subtraction).
pub fn used_bytes(total: u64, available: u64) -> (r: u64)
    ensures
        r == used_of(total as int, available as int),
{
    total.saturating_sub(available)
}

proof fn lemma_sums_nonnegative(disks: Seq<DiskSpace>)
    ensures
        sum_total(disks) >= 0,
        sum_available(disks) >= 0,
    decreases disks.len(),
{
    if disks.len() > 0 {
        lemma_sums_nonnegative(disks.drop_last());
    }
}

/// The capacity of `disks` together: each sum saturates at the largest
/// `u64`, and the space in use is the saturating difference of the two sums.
pub fn usage_totals(disks: &Vec<DiskSpace>) -> (r: UsageTotals)
    ensures
        r.total == capped(sum_total(disks@)),
        r.available == capped(sum_available(disks@)),
        r.used == used_of(r.total as int, r.available as int),
{
    let mut total: u64 = 0;
    let mut available: u64 = 0;
    let mut i: usize = 0;
    assert(disks@.take(0) =~= Seq::<DiskSpace>::empty());
    while i < disks.len()
        invariant
            i <= disks@.len(),
            total == capped(sum_total(disks@.take(i as int))),
            available == capped(sum_available(disks@.take(i as int))),
        decreases disks@.len() - i,
    {
        let d = disks[i];
        proof {
            assert(disks@.take(i + 1).drop_last() =~= disks@.take(i as int));
            lemma_sums_nonnegative(disks@.take(i as int));
        }
        total = total.saturating_add(d.total);
        available = available.saturating_add(d.available);
        i = i + 1;
    }
    assert(disks@.take(disks@.len() as int) =~= disks@);
    let used = used_bytes(total, available);
    UsageTotals { total, used, available }
}

// ----------------------------------------------------------------------------
// Requests.

/// The reply to one request: either the reply itself, or the request to read
/// the disks and answer the `tools/call` request with `id` by `usage_reply`.
#[derive(Debug, PartialEq)]
pub enum DiskReply {
    Reply(Json),
    CollectUsage { id: Json },
}

/// What the service does with one line of input: write a reply (and stop
/// after it where `shutdown` is set), or read the disks first.
#[derive(Debug, PartialEq)]
pub enum DiskStep {
    Reply { reply: Json, shutdown: bool },
    CollectUsage { id: Json },
}

/// The description of the `disk_usage` tool.
pub open spec fn tool_descriptor_v() -> JsonV {
    JsonV::Object(
        seq![
            ("name"@, JsonV::Str("disk_usage"@)),
            ("description"@, JsonV::Str("获取系统各磁盘的总容量、已用空间、可用空间和占用百分比。"@)),
            (
                "inputSchema"@,
                JsonV::Object(
                    seq![
                        ("type"@, JsonV::Str("object"@)),
                        ("properties"@, JsonV::Object(seq![])),
                        ("additionalProperties"@, JsonV::Bool(false)),
                    ],
                ),
            ),
        ],
    )
}

/// The result of `initialize` for a service of `version`.
pub open spec fn initialize_result(version: Seq<char>) -> JsonV {
    JsonV::Object(
        seq![
            ("protocolVersion"@, JsonV::Str("2026-01-01"@)),
            ("capabilities"@, JsonV::Object(seq![("tools"@, JsonV::Object(seq![]))])),
            (
                "serverInfo"@,
                JsonV::Object(seq![("name"@, JsonV::Str("disk-usage-mcp"@)), ("version"@, JsonV::Str(version))]),
            ),
        ],
    )
}

/// Whether `request` declares JSON-RPC 2.0.
pub open spec fn is_v2(request: JsonV) -> bool {
    str_of(field_of(request, "jsonrpc"@)) == Some("2.0"@)
}

/// The tool that a `tools/call` request names, or the empty text.
pub open spec fn tool_of(request: JsonV) -> Seq<char> {
    str_or_empty(field_of(field_or_null(request, "params"@), "name"@))
}

/// Whether answering `request` needs a reading of the disks.
pub open spec fn needs_usage(request: JsonV) -> bool {
    &&& is_v2(request)
    &&& str_of(field_of(request, "method"@)) == Some("tools/call"@)
    &&& tool_of(request) == "disk_usage"@
}

/// The reply of the service of `version` to `request`, where `usage_text` is
/// the report of the disks.
pub open spec fn disk_reply(request: JsonV, version: Seq<char>, usage_text: Seq<char>) -> JsonV {
    let id = request_id(request);
    if !is_v2(request) {
        error_v(id, -32600, "invalid JSON-RPC version"@)
    } else {
        match str_of(field_of(request, "method"@)) {
            None => error_v(id, -32600, "method is required"@),
            Some(method) => if method == "initialize"@ {
                response_v(id, initialize_result(version))
            } else if method == "health"@ {
                response_v(
                    id,
                    JsonV::Object(seq![("ok"@, JsonV::Bool(true)), ("message"@, JsonV::Str("ready"@))]),
                )
            } else if method == "capabilities"@ {
                response_v(
                    id,
                    JsonV::Object(seq![("capabilities"@, JsonV::Array(seq![tool_descriptor_v()]))]),
                )
            } else if method == "tools/list"@ {
                response_v(id, JsonV::Object(seq![("tools"@, JsonV::Array(seq![tool_descriptor_v()]))]))
            } else if method == "tools/call"@ {
                if tool_of(request) != "disk_usage"@ {
                    error_v(id, -32602, "unknown tool"@)
                } else {
                    response_v(id, text_content(usage_text))
                }
            } else if method == "shutdown"@ {
                response_v(id, JsonV::Null)
            } else {
                error_v(id, -32601, "method not found"@)
            },
        }
    }
}

/// Whether the service stops after answering `request`: where it names the
/// method `shutdown`.
pub open spec fn stops_after(request: JsonV) -> bool {
    str_of(field_of(request, "method"@)) == Some("shutdown"@)
}

/// The description of the `disk_usage` tool: no parameters.
pub fn tool_descriptor() -> (r: Json)
    ensures
        r.deep() == tool_descriptor_v(),
{
    let props = Json::object(vec![]);
    assert(fields_deep(Seq::empty()) =~= Seq::<(Seq<char>, JsonV)>::empty());
    let schema_fields = vec![
        field("type", Json::text("object")),
        field("properties", props),
        field("additionalProperties", Json::Bool(false)),
    ];
    let schema = Json::object(schema_fields);
    assert(fields_deep(schema_fields@) =~= tool_descriptor_v()->Object_0[2].1->Object_0);
    let fields = vec![
        field("name", Json::text(TOOL_NAME)),
        field("description", Json::text("获取系统各磁盘的总容量、已用空间、可用空间和占用百分比。")),
        field("inputSchema", schema),
    ];
    let r = Json::object(fields);
    assert(fields_deep(fields@) =~= tool_descriptor_v()->Object_0);
    r
}

fn initialize_json(version: &str) -> (r: Json)
    ensures
        r.deep() == initialize_result(version@),
{
    let tools = Json::object(vec![]);
    assert(fields_deep(Seq::empty()) =~= Seq::<(Seq<char>, JsonV)>::empty());
    let caps_fields = vec![field("tools", tools)];
    let caps = Json::object(caps_fields);
    assert(fields_deep(caps_fields@) =~= seq![("tools"@, JsonV::Object(seq![]))]);
    let info_fields = vec![field("name", Json::text("disk-usage-mcp")), field("version", Json::text(version))];
    let info = Json::object(info_fields);
    assert(fields_deep(info_fields@) =~= seq![
        ("name"@, JsonV::Str("disk-usage-mcp"@)),
        ("version"@, JsonV::Str(version@)),
    ]);
    let fields = vec![
        field("protocolVersion", Json::text("2026-01-01")),
        field("capabilities", caps),
        field("serverInfo", info),
    ];
    let r = Json::object(fields);
    assert(fields_deep(fields@) =~= initialize_result(version@)->Object_0);
    r
}

fn tool_list(key: &str) -> (r: Json)
    ensures
        r.deep() == JsonV::Object(seq![(key@, JsonV::Array(seq![tool_descriptor_v()]))]),
{
    let items = vec![tool_descriptor()];
    let list = Json::array(items);
    assert(items_deep(items@) =~= seq![tool_descriptor_v()]);
    let fields = vec![field(key, list)];
    let r = Json::object(fields);
    assert(fields_deep(fields@) =~= seq![(key@, JsonV::Array(seq![tool_descriptor_v()]))]);
    r
}

/// The reply of the service of `version` to `request`, or the request to read
/// the disks where the reply needs them.
pub fn handle_request(request: &Json, version: &str) -> (r: DiskReply)
    ensures
        r is CollectUsage <==> needs_usage(request.deep()),
        r matches DiskReply::CollectUsage { id } ==> id.deep() == request_id(request.deep()),
        r matches DiskReply::Reply(reply) ==> forall|t: Seq<char>|
            reply.deep() == #[trigger] disk_reply(request.deep(), version@, t),
{
    let id = request_id_of(request);
    let v2 = match request.get("jsonrpc") {
        Some(v) => match v.as_str() {
            Some(s) => same_text(s, "2.0"),
            None => false,
        },
        None => false,
    };
    if !v2 {
        return DiskReply::Reply(error(id, -32600, "invalid JSON-RPC version"));
    }
    let method = match request.get("method") {
        Some(v) => match v.as_str() {
            Some(s) => s,
            None => {
                return DiskReply::Reply(error(id, -32600, "method is required"));
            },
        },
        None => {
            return DiskReply::Reply(error(id, -32600, "method is required"));
        },
    };
    proof {
        reveal_strlit("initialize");
        reveal_strlit("health");
        reveal_strlit("capabilities");
        reveal_strlit("tools/list");
        reveal_strlit("tools/call");
        assert("initialize"@[0] != "tools/call"@[0]);
        assert("tools/list"@[6] != "tools/call"@[6]);
    }
    if same_text(method, "initialize") {
        DiskReply::Reply(response(id, initialize_json(version)))
    } else if same_text(method, "health") {
        let fields = vec![field("ok", Json::Bool(true)), field("message", Json::text("ready"))];
        let result = Json::object(fields);
        assert(fields_deep(fields@) =~= seq![("ok"@, JsonV::Bool(true)), ("message"@, JsonV::Str("ready"@))]);
        DiskReply::Reply(response(id, result))
    } else if same_text(method, "capabilities") {
        DiskReply::Reply(response(id, tool_list("capabilities")))
    } else if same_text(method, "tools/list") {
        DiskReply::Reply(response(id, tool_list("tools")))
    } else if same_text(method, "tools/call") {
        let params = request.field_or_null("params");
        let name = params.str_field_or_empty("name");
        if !same_text(name, "disk_usage") {
            return DiskReply::Reply(error(id, -32602, "unknown tool"));
        }
        DiskReply::CollectUsage { id }
    } else if same_text(method, "shutdown") {
        DiskReply::Reply(response(id, Json::Null))
    } else {
        DiskReply::Reply(error(id, -32601, "method not found"))
    }
}

/// The reply to a `tools/call` request with `id` whose disks `text` reports.
pub fn usage_reply(id: Json, text: &str) -> (r: Json)
    ensures
        r.deep() == response_v(id.deep(), text_content(text@)),
{
    response(id, text_content_json(text))
}

/// What the service of `version` does with a line of `line_len` bytes (after
/// its byte order mark) whose JSON parse is `request`: a line over 1 MiB is
/// answered with `-32600`, one that is not JSON with `-32700`, both with a
/// `null` id; otherwise the request is handled, and the service stops after
/// a request that names the method `shutdown`.
pub fn handle_line(line_len: usize, request: Option<Json>, version: &str) -> (r: DiskStep)
    ensures
        line_len > MAX_LINE_BYTES ==> (r matches DiskStep::Reply { reply, shutdown } && reply.deep()
            == error_v(JsonV::Null, -32600, "request exceeds 1 MiB"@) && !shutdown),
        line_len <= MAX_LINE_BYTES && request is None ==> (r matches DiskStep::Reply { reply, shutdown }
            && reply.deep() == error_v(JsonV::Null, -32700, "parse error"@) && !shutdown),
        line_len <= MAX_LINE_BYTES && request is Some ==> {
            let q = request->0.deep();
            &&& r is CollectUsage <==> needs_usage(q)
            &&& r matches DiskStep::CollectUsage { id } ==> id.deep() == request_id(q)
            &&& r matches DiskStep::Reply { reply, shutdown } ==> shutdown == stops_after(q) && forall|
                t: Seq<char>,
            | reply.deep() == #[trigger] disk_reply(q, version@, t)
        },
{
    if line_len > MAX_LINE_BYTES {
        return DiskStep::Reply {
            reply: error(Json::Null, -32600, "request exceeds 1 MiB"),
            shutdown: false,
        };
    }
    match request {
        None => DiskStep::Reply { reply: error(Json::Null, -32700, "parse error"), shutdown: false },
        Some(q) => {
            let shutdown = match q.get("method") {
                Some(v) => match v.as_str() {
                    Some(s) => same_text(s, "shutdown"),
                    None => false,
                },
                None => false,
            };
            match handle_request(&q, version) {
                DiskReply::Reply(reply) => DiskStep::Reply { reply, shutdown },
                DiskReply::CollectUsage { id } => DiskStep::CollectUsage { id },
            }
        },
    }
}


// ----------------------------------------------------------------------------
// Laws.

/// The space in use on a disk never exceeds its total size, and where the
/// free space does not exceed the total, the two make up the total.
pub proof fn law_used_space(total: u64, available: u64)
    ensures
        0 <= used_of(total as int, available as int) <= total,
        available <= total ==> used_of(total as int, available as int) + available == total,
{
}

/// The total size of all disks is the sum of their sizes wherever that sum
/// fits in a `u64`, and never less than the size of any one disk.
pub proof fn law_totals_sum(disks: Seq<DiskSpace>, i: int)
    requires
        0 <= i < disks.len(),
    ensures
        sum_total(disks) <= u64::MAX ==> capped(sum_total(disks)) == sum_total(disks),
        capped(sum_total(disks)) >= disks[i].total,
    decreases disks.len(),
{
    lemma_sums_nonnegative(disks.drop_last());
    if i < disks.len() - 1 {
        law_totals_sum(disks.drop_last(), i);
    }
}

/// Every reply to a request is a JSON-RPC 2.0 message that carries the id
/// of the request.
pub proof fn law_disk_reply_carries_id(request: JsonV, version: Seq<char>, usage_text: Seq<char>)
    ensures
        field_of(disk_reply(request, version, usage_text), "jsonrpc"@) == Some(JsonV::Str("2.0"@)),
        field_of(disk_reply(request, version, usage_text), "id"@) == Some(request_id(request)),
{
    let id = request_id(request);
    lemma_error_fields(id, -32600, "invalid JSON-RPC version"@);
    lemma_error_fields(id, -32600, "method is required"@);
    lemma_error_fields(id, -32602, "unknown tool"@);
    lemma_error_fields(id, -32601, "method not found"@);
    lemma_response_fields(id, initialize_result(version));
    lemma_response_fields(
        id,
        JsonV::Object(seq![("ok"@, JsonV::Bool(true)), ("message"@, JsonV::Str("ready"@))]),
    );
    lemma_response_fields(
        id,
        JsonV::Object(seq![("capabilities"@, JsonV::Array(seq![tool_descriptor_v()]))]),
    );
    lemma_response_fields(id, JsonV::Object(seq![("tools"@, JsonV::Array(seq![tool_descriptor_v()]))]));
    lemma_response_fields(id, text_content(usage_text));
    lemma_response_fields(id, JsonV::Null);
}

/// A `tools/call` request for any tool but `disk_usage` is refused with the
/// error `-32602`.
pub proof fn law_unknown_tool_refused(request: JsonV, version: Seq<char>, usage_text: Seq<char>)
    requires
        is_v2(request),
        str_of(field_of(request, "method"@)) == Some("tools/call"@),
        tool_of(request) != "disk_usage"@,
    ensures
        field_of(field_or_null(disk_reply(request, version, usage_text), "error"@), "code"@) == Some(
            JsonV::Int(-32602),
        ),
{
    reveal_strlit("initialize");
    reveal_strlit("health");
    reveal_strlit("capabilities");
    reveal_strlit("tools/list");
    reveal_strlit("tools/call");
    assert("initialize"@[0] != "tools/call"@[0]);
    assert("tools/list"@[6] != "tools/call"@[6]);
    lemma_error_fields(request_id(request), -32602, "unknown tool"@);
}

/// The request that needs the disks is answered with their report as the
/// text of the tool call.
pub proof fn law_usage_answer(request: JsonV, version: Seq<char>, usage_text: Seq<char>)
    requires
        needs_usage(request),
    ensures
        disk_reply(request, version, usage_text) == response_v(request_id(request), text_content(usage_text)),
{
    reveal_strlit("initialize");
    reveal_strlit("health");
    reveal_strlit("capabilities");
    reveal_strlit("tools/list");
    reveal_strlit("tools/call");
    assert("initialize"@[0] != "tools/call"@[0]);
    assert("tools/list"@[6] != "tools/call"@[6]);
}

/// Whether `method` is one that the service answers.
pub open spec fn known_method(method: Seq<char>) -> bool {
    ||| method == "initialize"@
    ||| method == "health"@
    ||| method == "capabilities"@
    ||| method == "tools/list"@
    ||| method == "tools/call"@
    ||| method == "shutdown"@
}

/// The code of the error that answers `request`, checked in this order: a
/// request that is not JSON-RPC 2.0 or names no method (`-32600`), an unknown
/// method (`-32601`), a tool call of a tool other than `disk_usage`
/// (`-32602`); none where the request succeeds.
pub open spec fn disk_error_code(request: JsonV) -> Option<int> {
    if !is_v2(request) {
        Some(-32600)
    } else {
        match str_of(field_of(request, "method"@)) {
            None => Some(-32600),
            Some(method) => if !known_method(method) {
                Some(-32601)
            } else if method == "tools/call"@ && tool_of(request) != "disk_usage"@ {
                Some(-32602)
            } else {
                None
            },
        }
    }
}

/// Every reply has exactly the keys `jsonrpc`, `id` and one of `result` and
/// `error`, in that order.
pub proof fn law_disk_reply_keys(request: JsonV, version: Seq<char>, usage_text: Seq<char>)
    ensures
        keys_of(disk_reply(request, version, usage_text)) == seq!["jsonrpc"@, "id"@, "result"@]
            || keys_of(disk_reply(request, version, usage_text)) == seq!["jsonrpc"@, "id"@, "error"@],
{
    let id = request_id(request);
    lemma_reply_keys(id, JsonV::Null, -32600, "invalid JSON-RPC version"@);
    lemma_reply_keys(id, JsonV::Null, -32600, "method is required"@);
    lemma_reply_keys(id, JsonV::Null, -32602, "unknown tool"@);
    lemma_reply_keys(id, JsonV::Null, -32601, "method not found"@);
    lemma_reply_keys(id, initialize_result(version), 0, seq![]);
    lemma_reply_keys(
        id,
        JsonV::Object(seq![("ok"@, JsonV::Bool(true)), ("message"@, JsonV::Str("ready"@))]),
        0,
        seq![],
    );
    lemma_reply_keys(id, JsonV::Object(seq![("capabilities"@, JsonV::Array(seq![tool_descriptor_v()]))]), 0, seq![]);
    lemma_reply_keys(id, JsonV::Object(seq![("tools"@, JsonV::Array(seq![tool_descriptor_v()]))]), 0, seq![]);
    lemma_reply_keys(id, text_content(usage_text), 0, seq![]);
}

/// A reply is an error exactly where `disk_error_code` gives a code, and it
/// then carries that code: the checks come in the order that
/// `disk_error_code` states.
pub proof fn law_disk_error_order(request: JsonV, version: Seq<char>, usage_text: Seq<char>)
    ensures
        field_of(disk_reply(request, version, usage_text), "error"@) is Some <==> disk_error_code(
            request,
        ) is Some,
        disk_error_code(request) matches Some(code) ==> field_of(
            field_or_null(disk_reply(request, version, usage_text), "error"@),
            "code"@,
        ) == Some(JsonV::Int(code)),
{
    reveal_strlit("initialize");
    reveal_strlit("health");
    reveal_strlit("capabilities");
    reveal_strlit("tools/list");
    reveal_strlit("tools/call");
    reveal_strlit("shutdown");
    assert("initialize"@[0] != "tools/call"@[0]);
    assert("tools/list"@[6] != "tools/call"@[6]);
    assert("health"@.len() != "tools/call"@.len());
    assert("capabilities"@.len() != "tools/call"@.len());
    assert("shutdown"@.len() != "tools/call"@.len());
    let id = request_id(request);
    lemma_error_fields(id, -32600, "invalid JSON-RPC version"@);
    lemma_error_fields(id, -32600, "method is required"@);
    lemma_error_fields(id, -32602, "unknown tool"@);
    lemma_error_fields(id, -32601, "method not found"@);
    lemma_response_fields(id, initialize_result(version));
    lemma_response_fields(
        id,
        JsonV::Object(seq![("ok"@, JsonV::Bool(true)), ("message"@, JsonV::Str("ready"@))]),
    );
    lemma_response_fields(id, JsonV::Object(seq![("capabilities"@, JsonV::Array(seq![tool_descriptor_v()]))]));
    lemma_response_fields(id, JsonV::Object(seq![("tools"@, JsonV::Array(seq![tool_descriptor_v()]))]));
    lemma_response_fields(id, text_content(usage_text));
    lemma_response_fields(id, JsonV::Null);
}

/// The reply depends on the request only through its `jsonrpc`, `id` and
/// `method` fields and the name of the tool it calls: the `arguments` of a
/// tool call, or anything else in it, change nothing.
pub proof fn law_disk_reply_ignores_arguments(
    first: JsonV,
    second: JsonV,
    version: Seq<char>,
    usage_text: Seq<char>,
)
    requires
        field_of(first, "jsonrpc"@) == field_of(second, "jsonrpc"@),
        field_of(first, "id"@) == field_of(second, "id"@),
        field_of(first, "method"@) == field_of(second, "method"@),
        field_of(field_or_null(first, "params"@), "name"@) == field_of(field_or_null(second, "params"@), "name"@),
    ensures
        disk_reply(first, version, usage_text) == disk_reply(second, version, usage_text),
        needs_usage(first) == needs_usage(second),
{
    assert(request_id(first) == request_id(second));
    assert(is_v2(first) == is_v2(second));
    assert(tool_of(first) == tool_of(second));
    assert(str_of(field_of(first, "method"@)) == str_of(field_of(second, "method"@)));
}

} // verus!
