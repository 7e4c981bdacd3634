//! The native plugin ABI: its values, the buffer a call fills, and the native
//! probe's replies.
use vstd::prelude::*;
use crate::json::{field, field_of, fields_deep, items_deep, str_of, Json, JsonV};
use crate::text::same_text;

verus! {

/// The ABI version that a native plugin reports.
pub const API_VERSION: u32 = 1;

/// The largest input or output of a native call, in bytes (1 MiB).
pub const MAX_BUFFER_BYTES: u64 = 1024 * 1024;

/// What the host tells a plugin about itself when it loads the plugin.
#[derive(Clone, Copy, Debug, PartialEq, Eq)]
pub struct HostApi {
    pub struct_size: u32,
    pub api_version: u32,
}

/// The bytes that a native call hands back to the host, with their length.
#[derive(Debug, PartialEq)]
pub struct Buffer {
    pub data: Vec<u8>,
    pub len: u64,
}

impl Buffer {
    /// A buffer holding `bytes`.
    pub fn from_bytes(bytes: Vec<u8>) -> (r: Buffer)
        ensures
            r.data@ == bytes@,
            r.len == bytes@.len(),
    {
        let len = bytes.len() as u64;
        Buffer { data: bytes, len }
    }
}

/// Whether a native call accepts an input of `len` bytes.
pub fn input_fits(len: u64) -> (r: bool)
    ensures
        r == (len <= MAX_BUFFER_BYTES),
{
    len <= MAX_BUFFER_BYTES
}

/// The buffer for the serialized reply `bytes`, or the status 4 where they
/// are empty or over 1 MiB.
pub fn frame_output(bytes: Vec<u8>) -> (r: Result<Buffer, i32>)
    ensures
        bytes@.len() == 0 || bytes@.len() > MAX_BUFFER_BYTES ==> r == Err::<Buffer, i32>(4),
        0 < bytes@.len() <= MAX_BUFFER_BYTES ==> (r matches Ok(b) && b.data@ == bytes@ && b.len
            == bytes@.len()),
{
    if bytes.len() == 0 || bytes.len() as u64 > MAX_BUFFER_BYTES {
        Err(4)
    } else {
        Ok(Buffer::from_bytes(bytes))
    }
}

/// The capabilities that the native probe declares: `native.probe`.
pub open spec fn probe_capabilities_v() -> JsonV {
        JsonV::Object(
            seq![
                (
                    "capabilities"@,
                    JsonV::Array(
                        seq![
                            JsonV::Object(
                                seq![
                                    ("name"@, JsonV::Str("native.probe"@)),
                                    ("description"@, JsonV::Str("Return a native ABI probe result."@)),
                                    ("inputSchema"@, JsonV::Object(seq![("type"@, JsonV::Str("object"@))])),
                                ],
                            ),
                        ],
                    ),
                ),
            ],
        )
}

/// The reply of the native probe to a call whose input parses as `request`
/// (an input that is not JSON is read as `null`).
pub open spec fn probe_reply(request: JsonV) -> JsonV {
    let method = str_of(field_of(request, "method"@));
    if method == Some("health"@) {
        JsonV::Object(seq![("ok"@, JsonV::Bool(true)), ("message"@, JsonV::Str("native probe ready"@))])
    } else if method == Some("capabilities"@) {
        probe_capabilities_v()
    } else if method == Some("invoke"@) {
        JsonV::Object(seq![("ok"@, JsonV::Bool(true)), ("value"@, JsonV::Str("native probe"@))])
    } else {
        JsonV::Object(seq![("ok"@, JsonV::Bool(false)), ("error"@, JsonV::Str("unknown method"@))])
    }
}

fn pair(k1: &str, v1: Json, k2: &str, v2: Json) -> (r: Json)
    ensures
        r.deep() == JsonV::Object(seq![(k1@, v1.deep()), (k2@, v2.deep())]),
{
    let fields = vec![field(k1, v1), field(k2, v2)];
    let ghost d1 = v1.deep();
    let ghost d2 = v2.deep();
    let r = Json::object(fields);
    assert(fields_deep(fields@) =~= seq![(k1@, d1), (k2@, d2)]);
    r
}

fn probe_capabilities() -> (r: Json)
    ensures
        r.deep() == probe_capabilities_v(),
{
    let schema_fields = vec![field("type", Json::text("object"))];
    let schema = Json::object(schema_fields);
    assert(fields_deep(schema_fields@) =~= seq![("type"@, JsonV::Str("object"@))]);
    let entry_fields = vec![
        field("name", Json::text("native.probe")),
        field("description", Json::text("Return a native ABI probe result.")),
        field("inputSchema", schema),
    ];
    let entry = Json::object(entry_fields);
    let ghost want = probe_capabilities_v();
    assert(fields_deep(entry_fields@) =~= want->Object_0[0].1->Array_0[0]->Object_0);
    let items = vec![entry];
    let list = Json::array(items);
    assert(items_deep(items@) =~= want->Object_0[0].1->Array_0);
    let fields = vec![field("capabilities", list)];
    let r = Json::object(fields);
    assert(fields_deep(fields@) =~= want->Object_0);
    r
}

/// The reply of the native probe to a call whose input parses as `request`,
/// or `None` where it is not JSON.
pub fn probe_call(request: Option<Json>) -> (r: Json)
    ensures
        r.deep() == probe_reply(
            match request {
                Some(q) => q.deep(),
                None => JsonV::Null,
            },
        ),
{
    let q = match request {
        Some(q) => q,
        None => Json::Null,
    };
    let method = match q.get("method") {
        Some(v) => v.as_str(),
        None => None,
    };
    proof {
        reveal_strlit("health");
        reveal_strlit("capabilities");
        reveal_strlit("invoke");
    }
    match method {
        Some(m) => {
            if same_text(m, "health") {
                pair("ok", Json::Bool(true), "message", Json::text("native probe ready"))
            } else if same_text(m, "capabilities") {
                probe_capabilities()
            } else if same_text(m, "invoke") {
                pair("ok", Json::Bool(true), "value", Json::text("native probe"))
            } else {
                pair("ok", Json::Bool(false), "error", Json::text("unknown method"))
            }
        },
        None => pair("ok", Json::Bool(false), "error", Json::text("unknown method")),
    }
}

} // verus!
