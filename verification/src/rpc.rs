//! JSON-RPC 2.0 framing shared by the line-oriented services.
use vstd::prelude::*;
use crate::json::{field, field_of, field_or_null, fields_deep, first_field, items_deep, Json, JsonV};

verus! {

/// The longest request line, in bytes, that a service reads (1 MiB).
pub const MAX_LINE_BYTES: usize = 1024 * 1024;

/// A successful reply: `{"jsonrpc": "2.0", "id": id, "result": result}`.
pub open spec fn response_v(id: JsonV, result: JsonV) -> JsonV {
    JsonV::Object(
        seq![("jsonrpc"@, JsonV::Str("2.0"@)), ("id"@, id), ("result"@, result)],
    )
}

/// A failed reply:
/// `{"jsonrpc": "2.0", "id": id, "error": {"code": code, "message": message}}`.
pub open spec fn error_v(id: JsonV, code: int, message: Seq<char>) -> JsonV {
    JsonV::Object(
        seq![
            ("jsonrpc"@, JsonV::Str("2.0"@)),
            ("id"@, id),
            ("error"@, JsonV::Object(seq![("code"@, JsonV::Int(code)), ("message"@, JsonV::Str(message))])),
        ],
    )
}

/// The id of a request: its `id` field, or `null` where there is none.
pub open spec fn request_id(request: JsonV) -> JsonV {
    field_or_null(request, "id"@)
}

/// A successful reply to the request with `id`.
pub fn response(id: Json, result: Json) -> (r: Json)
    ensures
        r.deep() == response_v(id.deep(), result.deep()),
{
    let fields = vec![field("jsonrpc", Json::text("2.0")), field("id", id), field("result", result)];
    let r = Json::object(fields);
    assert(fields_deep(fields@) =~= response_v(id.deep(), result.deep())->Object_0);
    r
}

/// A failed reply to the request with `id`.
pub fn error(id: Json, code: i64, message: &str) -> (r: Json)
    ensures
        r.deep() == error_v(id.deep(), code as int, message@),
{
    let detail = vec![field("code", Json::Int(code)), field("message", Json::text(message))];
    let e = Json::object(detail);
    assert(fields_deep(detail@) =~= seq![("code"@, JsonV::Int(code as int)), ("message"@, JsonV::Str(message@))]);
    let fields = vec![field("jsonrpc", Json::text("2.0")), field("id", id), field("error", e)];
    let r = Json::object(fields);
    assert(fields_deep(fields@) =~= error_v(id.deep(), code as int, message@)->Object_0);
    r
}

/// The id of `request`, or `null` where it has none.
pub fn request_id_of(request: &Json) -> (r: Json)
    ensures
        r.deep() == request_id(request.deep()),
{
    request.field_or_null("id")
}

/// The result of a tool call that hands back `text`.
pub open spec fn text_content(text: Seq<char>) -> JsonV {
    JsonV::Object(
        seq![
            (
                "content"@,
                JsonV::Array(
                    seq![JsonV::Object(seq![("type"@, JsonV::Str("text"@)), ("text"@, JsonV::Str(text))])],
                ),
            ),
            ("isError"@, JsonV::Bool(false)),
        ],
    )
}

/// The result of a tool call that hands back `text`.
pub fn text_content_json(text: &str) -> (r: Json)
    ensures
        r.deep() == text_content(text@),
{
    let part_fields = vec![field("type", Json::text("text")), field("text", Json::text(text))];
    let part = Json::object(part_fields);
    assert(fields_deep(part_fields@) =~= seq![("type"@, JsonV::Str("text"@)), ("text"@, JsonV::Str(text@))]);
    let items = vec![part];
    let content = Json::array(items);
    assert(items_deep(items@) =~= text_content(text@)->Object_0[0].1->Array_0);
    let fields = vec![field("content", content), field("isError", Json::Bool(false))];
    let r = Json::object(fields);
    assert(fields_deep(fields@) =~= text_content(text@)->Object_0);
    r
}

/// `line` without the byte order mark that may open it.
pub fn strip_bom(line: &str) -> (r: &str)
    ensures
        r@ == if line@.len() > 0 && line@[0] == '\u{feff}' {
            line@.drop_first()
        } else {
            line@
        },
{
    let n = line.unicode_len();
    if n > 0 && line.get_char(0) == '\u{feff}' {
        let r = line.substring_char(1, n);
        assert(r@ =~= line@.drop_first());
        r
    } else {
        line
    }
}


/// The first field named `key` of `fields` whose first field has another name
/// is the first one of the rest.
pub proof fn lemma_first_field_step(fields: Seq<(Seq<char>, JsonV)>, key: Seq<char>)
    requires
        fields.len() > 0,
        fields[0].0 != key,
    ensures
        first_field(fields, key) == first_field(fields.drop_first(), key),
{
}

/// The keys of `j`, in order, where it is an object; none otherwise.
pub open spec fn keys_of(j: JsonV) -> Seq<Seq<char>> {
    match j {
        JsonV::Object(fields) => fields.map_values(|f: (Seq<char>, JsonV)| f.0),
        _ => seq![],
    }
}

/// A successful reply has the keys `jsonrpc`, `id` and `result`, and a
/// failed one the keys `jsonrpc`, `id` and `error`.
pub proof fn lemma_reply_keys(id: JsonV, result: JsonV, code: int, message: Seq<char>)
    ensures
        keys_of(response_v(id, result)) == seq!["jsonrpc"@, "id"@, "result"@],
        keys_of(error_v(id, code, message)) == seq!["jsonrpc"@, "id"@, "error"@],
{
    assert(keys_of(response_v(id, result)) =~= seq!["jsonrpc"@, "id"@, "result"@]);
    assert(keys_of(error_v(id, code, message)) =~= seq!["jsonrpc"@, "id"@, "error"@]);
}

/// The fields of a successful reply, as `field_of` finds them.
pub proof fn lemma_response_fields(id: JsonV, result: JsonV)
    ensures
        field_of(response_v(id, result), "jsonrpc"@) == Some(JsonV::Str("2.0"@)),
        field_of(response_v(id, result), "id"@) == Some(id),
        field_of(response_v(id, result), "result"@) == Some(result),
        field_of(response_v(id, result), "error"@) is None,
{
    reveal_strlit("jsonrpc");
    reveal_strlit("id");
    reveal_strlit("result");
    reveal_strlit("error");
    let f = response_v(id, result)->Object_0;
    let f1 = f.drop_first();
    let f2 = f1.drop_first();
    let f3 = f2.drop_first();
    assert(f1 =~= seq![("id"@, id), ("result"@, result)]);
    assert(f2 =~= seq![("result"@, result)]);
    assert(f3 =~= Seq::<(Seq<char>, JsonV)>::empty());
    assert("result"@[0] != "error"@[0]);
    assert("jsonrpc"@.len() != "id"@.len());
    lemma_first_field_step(f, "id"@);
    lemma_first_field_step(f, "result"@);
    lemma_first_field_step(f1, "result"@);
    lemma_first_field_step(f, "error"@);
    lemma_first_field_step(f1, "error"@);
    lemma_first_field_step(f2, "error"@);
}

/// The fields of a failed reply, as `field_of` finds them.
pub proof fn lemma_error_fields(id: JsonV, code: int, message: Seq<char>)
    ensures
        field_of(error_v(id, code, message), "jsonrpc"@) == Some(JsonV::Str("2.0"@)),
        field_of(error_v(id, code, message), "id"@) == Some(id),
        field_of(error_v(id, code, message), "result"@) is None,
        field_of(error_v(id, code, message), "error"@) == Some(
            JsonV::Object(seq![("code"@, JsonV::Int(code)), ("message"@, JsonV::Str(message))]),
        ),
        field_of(field_or_null(error_v(id, code, message), "error"@), "code"@) == Some(JsonV::Int(code)),
{
    reveal_strlit("jsonrpc");
    reveal_strlit("id");
    reveal_strlit("result");
    reveal_strlit("error");
    reveal_strlit("code");
    let e = seq![("code"@, JsonV::Int(code)), ("message"@, JsonV::Str(message))];
    let f = error_v(id, code, message)->Object_0;
    let f1 = f.drop_first();
    let f2 = f1.drop_first();
    let f3 = f2.drop_first();
    assert(f1 =~= seq![("id"@, id), ("error"@, JsonV::Object(e))]);
    assert(f2 =~= seq![("error"@, JsonV::Object(e))]);
    assert(f3 =~= Seq::<(Seq<char>, JsonV)>::empty());
    assert("result"@[0] != "error"@[0]);
    assert("jsonrpc"@.len() != "id"@.len());
    lemma_first_field_step(f, "id"@);
    lemma_first_field_step(f, "error"@);
    lemma_first_field_step(f1, "error"@);
    lemma_first_field_step(f, "result"@);
    lemma_first_field_step(f1, "result"@);
    lemma_first_field_step(f2, "result"@);
}

} // verus!
