//! The clock app service: a window that shows the local time, driven by
//! `invoke` requests and kept current by a ticker.
use vstd::prelude::*;
use crate::json::{
    bool_of, field, field_of, field_or_null, fields_deep, items_deep, str_or_empty, Json, JsonV,
};
use crate::local_time::{
    format_instant, instant_of_reading, local_time_text, offset_text, read_local_clock, rfc3339_of,
    rfc3339_text, utc_offset_text, LocalInstant, MAX_TIMESTAMP,
};
use crate::rpc::{
    error, error_v, lemma_error_fields, lemma_first_field_step, lemma_response_fields, request_id,
    request_id_of, response, response_v, MAX_LINE_BYTES,
};
use crate::text::same_text;

verus! {

/// What the service shows and how.
#[derive(Clone, Copy, Debug, PartialEq, Eq, Structural)]
pub struct ClockState {
    /// Whether the time is written on a 12-hour clock.
    pub hour12: bool,
    /// Whether the date is shown.
    pub show_date: bool,
    /// Whether the window is open.
    pub visible: bool,
}

/// The reply to one request: the reply itself, the events written after it,
/// and whether the service stops after writing them.
#[derive(Debug, PartialEq)]
pub struct ClockReply {
    pub reply: Json,
    pub events: Vec<Json>,
    pub shutdown: bool,
}

/// What the service does with one line of input.
#[derive(Debug, PartialEq)]
pub enum ClockStep {
    /// Stop reading input.
    Stop,
    /// Ignore the line.
    Skip,
    /// Write this reply and its events.
    Reply(ClockReply),
}

// ----------------------------------------------------------------------------
// The replies, stated.

/// The `strftime` pattern of the time of day.
pub open spec fn time_pattern(hour12: bool) -> Seq<char> {
    if hour12 {
        "%I:%M:%S %p"@
    } else {
        "%H:%M:%S"@
    }
}

/// The time of day at `at`, written as `state` says.
pub open spec fn time_text(state: ClockState, at: LocalInstant) -> Seq<char> {
    local_time_text(at.secs(), at.offset_secs(), time_pattern(state.hour12))
}

/// The text for the host's bubble: `{"text": text}`.
pub open spec fn bubble_v(text: Seq<char>) -> JsonV {
    JsonV::Object(seq![("text"@, JsonV::Str(text))])
}

/// The fields of a snapshot of the clock at `at`, shown as `state` says.
pub open spec fn snapshot_fields(state: ClockState, at: LocalInstant) -> Seq<(Seq<char>, JsonV)> {
    seq![
        ("text"@, JsonV::Str(time_text(state, at))),
        (
            "date"@,
            if state.show_date {
                JsonV::Str(local_time_text(at.secs(), at.offset_secs(), "%Y-%m-%d"@))
            } else {
                JsonV::Null
            },
        ),
        ("iso"@, JsonV::Str(rfc3339_text(at.secs(), at.offset_secs()))),
        ("timezone"@, JsonV::Str(utc_offset_text(at.offset_secs() as int))),
        ("source"@, JsonV::Str("windows-system-clock"@)),
    ]
}

/// A snapshot of the clock at `at`, shown as `state` says.
pub open spec fn snapshot_v(state: ClockState, at: LocalInstant) -> JsonV {
    JsonV::Object(snapshot_fields(state, at))
}

/// An event for the host: `{"jsonrpc": "2.0", "method": "pet.app.event",
/// "params": {"name": name, "payload": payload}}`.
pub open spec fn notification_v(name: Seq<char>, payload: JsonV) -> JsonV {
    JsonV::Object(
        seq![
            ("jsonrpc"@, JsonV::Str("2.0"@)),
            ("method"@, JsonV::Str("pet.app.event"@)),
            ("params"@, JsonV::Object(seq![("name"@, JsonV::Str(name)), ("payload"@, payload)])),
        ],
    )
}

/// A window action for the host: `{"type": kind}`.
pub open spec fn host_action_v(kind: Seq<char>) -> JsonV {
    JsonV::Object(seq![("type"@, JsonV::Str(kind))])
}

/// `{"visible": visible}`.
pub open spec fn visibility_v(visible: bool) -> JsonV {
    JsonV::Object(seq![("visible"@, JsonV::Bool(visible))])
}

/// `{"visible": visible, "hostAction": {"type": kind}}`.
pub open spec fn window_result_v(visible: bool, kind: Seq<char>) -> JsonV {
    JsonV::Object(seq![("visible"@, JsonV::Bool(visible)), ("hostAction"@, host_action_v(kind))])
}

/// The state after the capability `capability` runs with `input` on `state`.
pub open spec fn next_state(capability: Seq<char>, input: JsonV, state: ClockState) -> ClockState {
    if capability == "clock.now"@ || capability == "clock.show"@ {
        ClockState { visible: true, ..state }
    } else if capability == "clock.hide"@ {
        ClockState { visible: false, ..state }
    } else if capability == "clock.set_format"@ {
        ClockState {
            hour12: match bool_of(field_of(input, "hour12"@)) {
                Some(b) => b,
                None => state.hour12,
            },
            show_date: match bool_of(field_of(input, "showDate"@)) {
                Some(b) => b,
                None => state.show_date,
            },
            visible: state.visible,
        }
    } else {
        state
    }
}

/// What the capability `capability` with `input` gives on `state` at `at`:
/// its result and events, or the message of its failure.
pub open spec fn invoke_outcome(
    capability: Seq<char>,
    input: JsonV,
    state: ClockState,
    at: LocalInstant,
) -> Result<(JsonV, Seq<JsonV>), Seq<char>> {
    let t = next_state(capability, input, state);
    if capability == "clock.now"@ {
        Ok(
            (
                JsonV::Object(
                    snapshot_fields(t, at).push(("hostAction"@, host_action_v("window.open"@))).push(
                        ("bubble"@, bubble_v(time_text(t, at))),
                    ),
                ),
                seq![notification_v("clock.updated"@, snapshot_v(t, at))],
            ),
        )
    } else if capability == "clock.show"@ {
        Ok(
            (
                window_result_v(true, "window.open"@),
                seq![
                    notification_v("clock.visibility"@, visibility_v(true)),
                    notification_v("clock.updated"@, snapshot_v(t, at)),
                ],
            ),
        )
    } else if capability == "clock.hide"@ {
        Ok(
            (
                window_result_v(false, "window.close"@),
                seq![notification_v("clock.visibility"@, visibility_v(false))],
            ),
        )
    } else if capability == "clock.set_format"@ {
        Ok(
            (
                JsonV::Object(
                    seq![("hour12"@, JsonV::Bool(t.hour12)), ("showDate"@, JsonV::Bool(t.show_date))],
                ),
                seq![notification_v("clock.updated"@, snapshot_v(t, at))],
            ),
        )
    } else {
        Err("unknown capability"@)
    }
}

/// An input schema with no properties.
pub open spec fn empty_schema_v() -> JsonV {
    JsonV::Object(
        seq![
            ("type"@, JsonV::Str("object"@)),
            ("properties"@, JsonV::Object(seq![])),
            ("additionalProperties"@, JsonV::Bool(false)),
        ],
    )
}

/// The input schema of `clock.set_format`.
pub open spec fn format_schema_v() -> JsonV {
    JsonV::Object(
        seq![
            ("type"@, JsonV::Str("object"@)),
            (
                "properties"@,
                JsonV::Object(
                    seq![
                        ("hour12"@, JsonV::Object(seq![("type"@, JsonV::Str("boolean"@))])),
                        ("showDate"@, JsonV::Object(seq![("type"@, JsonV::Str("boolean"@))])),
                    ],
                ),
            ),
            ("additionalProperties"@, JsonV::Bool(false)),
        ],
    )
}

/// The description of one capability.
pub open spec fn capability_v(
    name: Seq<char>,
    description: Seq<char>,
    schema: JsonV,
    events: Seq<JsonV>,
) -> JsonV {
    JsonV::Object(
        seq![
            ("name"@, JsonV::Str(name)),
            ("description"@, JsonV::Str(description)),
            ("inputSchema"@, schema),
            ("events"@, JsonV::Array(events)),
        ],
    )
}

/// The capabilities that the service declares.
pub open spec fn capabilities_v() -> JsonV {
    JsonV::Object(
        seq![
            (
                "capabilities"@,
                JsonV::Array(
                    seq![
                        capability_v(
                            "clock.now"@,
                            "返回系统本地时间。"@,
                            empty_schema_v(),
                            seq![JsonV::Str("clock.updated"@)],
                        ),
                        capability_v(
                            "clock.show"@,
                            "显示独立时间窗口。"@,
                            empty_schema_v(),
                            seq![JsonV::Str("clock.visibility"@), JsonV::Str("clock.updated"@)],
                        ),
                        capability_v(
                            "clock.hide"@,
                            "隐藏独立时间窗口。"@,
                            empty_schema_v(),
                            seq![JsonV::Str("clock.visibility"@)],
                        ),
                        capability_v(
                            "clock.set_format"@,
                            "设置 12/24 小时制和日期显示。"@,
                            format_schema_v(),
                            seq![JsonV::Str("clock.updated"@)],
                        ),
                    ],
                ),
            ),
        ],
    )
}

/// The method that `request` names, or the empty text.
pub open spec fn method_of(request: JsonV) -> Seq<char> {
    str_or_empty(field_of(request, "method"@))
}

/// The capability that an `invoke` request names, or the empty text.
pub open spec fn capability_of(request: JsonV) -> Seq<char> {
    str_or_empty(field_of(field_or_null(request, "params"@), "capability"@))
}

/// The input that an `invoke` request carries, or `null`.
pub open spec fn input_of(request: JsonV) -> JsonV {
    field_or_null(field_or_null(request, "params"@), "input"@)
}

/// The reply of the service to `request` on `state` at `at`: the reply, its
/// events, and whether the service stops.
pub open spec fn clock_reply(
    request: JsonV,
    state: ClockState,
    version: Seq<char>,
    at: LocalInstant,
) -> (JsonV, Seq<JsonV>, bool) {
    let id = request_id(request);
    let method = method_of(request);
    if method == "initialize"@ {
        (
            response_v(
                id,
                JsonV::Object(
                    seq![("appProtocolVersion"@, JsonV::Int(1)), ("serviceVersion"@, JsonV::Str(version))],
                ),
            ),
            seq![],
            false,
        )
    } else if method == "health"@ {
        (
            response_v(
                id,
                JsonV::Object(seq![("ok"@, JsonV::Bool(true)), ("message"@, JsonV::Str("ready"@))]),
            ),
            seq![],
            false,
        )
    } else if method == "capabilities"@ {
        (response_v(id, capabilities_v()), seq![], false)
    } else if method == "invoke"@ {
        match invoke_outcome(capability_of(request), input_of(request), state, at) {
            Ok((result, events)) => (response_v(id, result), events, false),
            Err(message) => (error_v(id, -32602, message), seq![], false),
        }
    } else if method == "shutdown"@ {
        (response_v(id, JsonV::Object(seq![("ok"@, JsonV::Bool(true))])), seq![], true)
    } else {
        (error_v(id, -32601, "method not found"@), seq![], false)
    }
}

/// The state after the service handles `request` on `state`.
pub open spec fn state_after(request: JsonV, state: ClockState) -> ClockState {
    let method = method_of(request);
    if method == "initialize"@ || method == "health"@ || method == "capabilities"@ {
        state
    } else if method == "invoke"@ {
        next_state(capability_of(request), input_of(request), state)
    } else {
        state
    }
}

/// Whether `r` is what the capability `capability` with `input` gives on
/// `state` at `at`.
pub open spec fn invoke_gives(
    r: Result<(Json, Vec<Json>), &str>,
    capability: Seq<char>,
    input: JsonV,
    state: ClockState,
    at: LocalInstant,
) -> bool {
    match r {
        Ok((result, events)) => invoke_outcome(capability, input, state, at) == Ok::<
            (JsonV, Seq<JsonV>),
            Seq<char>,
        >((result.deep(), items_deep(events@))),
        Err(message) => invoke_outcome(capability, input, state, at) == Err::<
            (JsonV, Seq<JsonV>),
            Seq<char>,
        >(message@),
    }
}

/// Whether `request` is an `invoke` of a capability that needs the clock.
pub open spec fn clock_unavailable_for(request: JsonV) -> bool {
    method_of(request) == "invoke"@ && needs_clock(capability_of(request))
}

/// Whether `r` is the reply to `request` where the system clock cannot be
/// read: the error `-32603` with `"local clock unavailable"`, no events, and
/// the service goes on.
pub open spec fn unavailable_reply_as(r: ClockReply, request: JsonV) -> bool {
    &&& r.reply.deep() == error_v(request_id(request), -32603, clock_unavailable())
    &&& r.events@.len() == 0
    &&& !r.shutdown
}

/// Whether `r` is the reply of the service to `request` on `state` at `at`.
pub open spec fn replies_as(
    r: ClockReply,
    request: JsonV,
    state: ClockState,
    version: Seq<char>,
    at: LocalInstant,
) -> bool {
    let (reply, events, shutdown) = clock_reply(request, state, version, at);
    &&& r.reply.deep() == reply
    &&& items_deep(r.events@) == events
    &&& r.shutdown == shutdown
}

// ----------------------------------------------------------------------------
// Building the replies.

/// A window action for the host.
fn host_action(kind: &str) -> (r: Json)
    ensures
        r.deep() == host_action_v(kind@),
{
    let fields = vec![field("type", Json::text(kind))];
    let r = Json::object(fields);
    assert(fields_deep(fields@) =~= host_action_v(kind@)->Object_0);
    r
}

/// The bubble for the host with the time of day at `at`.
fn bubble(state: &ClockState, at: &LocalInstant) -> (r: Json)
    ensures
        r.deep() == bubble_v(time_text(*state, *at)),
{
    let pattern = if state.hour12 {
        "%I:%M:%S %p"
    } else {
        "%H:%M:%S"
    };
    let fields = vec![field("text", Json::Str(format_instant(at, pattern)))];
    let r = Json::object(fields);
    assert(fields_deep(fields@) =~= bubble_v(time_text(*state, *at))->Object_0);
    r
}

fn snapshot_field_list(state: &ClockState, at: &LocalInstant) -> (r: Vec<(String, Json)>)
    ensures
        fields_deep(r@) == snapshot_fields(*state, *at),
{
    let pattern = if state.hour12 {
        "%I:%M:%S %p"
    } else {
        "%H:%M:%S"
    };
    let text = format_instant(at, pattern);
    let date = if state.show_date {
        Json::Str(format_instant(at, "%Y-%m-%d"))
    } else {
        Json::Null
    };
    let fields = vec![
        field("text", Json::Str(text)),
        field("date", date),
        field("iso", Json::Str(rfc3339_of(at))),
        field("timezone", Json::Str(offset_text(at))),
        field("source", Json::text("windows-system-clock")),
    ];
    assert(fields_deep(fields@) =~= snapshot_fields(*state, *at));
    fields
}

/// A snapshot of the clock at `at`, shown as `state` says: the time, the
/// date where `state` shows it, the RFC 3339 instant, the UTC offset and the
/// source.
pub fn snapshot_at(state: &ClockState, at: &LocalInstant) -> (r: Json)
    ensures
        r.deep() == snapshot_v(*state, *at),
{
    Json::object(snapshot_field_list(state, at))
}

/// A snapshot of the clock now, shown as `state` says; `None` where the
/// system clock cannot be read as an instant of `chrono`.
pub fn snapshot(state: &ClockState) -> (r: Option<Json>)
    ensures
        r matches Some(j) ==> exists|at: LocalInstant| {
            &&& in_clock_range(at)
            &&& #[trigger] snapshot_v(*state, at) == j.deep()
        },
{
    match read_local_clock() {
        Some(at) => Some(snapshot_at(state, &at)),
        None => None,
    }
}

/// An event for the host named `name` with `payload`.
pub fn notification(name: &str, payload: Json) -> (r: Json)
    ensures
        r.deep() == notification_v(name@, payload.deep()),
{
    let params_fields = vec![field("name", Json::text(name)), field("payload", payload)];
    let params = Json::object(params_fields);
    assert(fields_deep(params_fields@) =~= seq![
        ("name"@, JsonV::Str(name@)),
        ("payload"@, payload.deep()),
    ]);
    let fields = vec![
        field("jsonrpc", Json::text("2.0")),
        field("method", Json::text("pet.app.event")),
        field("params", params),
    ];
    let r = Json::object(fields);
    assert(fields_deep(fields@) =~= notification_v(name@, payload.deep())->Object_0);
    r
}

fn visibility(visible: bool) -> (r: Json)
    ensures
        r.deep() == visibility_v(visible),
{
    let fields = vec![field("visible", Json::Bool(visible))];
    let r = Json::object(fields);
    assert(fields_deep(fields@) =~= visibility_v(visible)->Object_0);
    r
}

fn window_result(visible: bool, kind: &str) -> (r: Json)
    ensures
        r.deep() == window_result_v(visible, kind@),
{
    let fields = vec![field("visible", Json::Bool(visible)), field("hostAction", host_action(kind))];
    let r = Json::object(fields);
    assert(fields_deep(fields@) =~= window_result_v(visible, kind@)->Object_0);
    r
}

fn empty_schema() -> (r: Json)
    ensures
        r.deep() == empty_schema_v(),
{
    let props = Json::object(vec![]);
    assert(fields_deep(Seq::empty()) =~= Seq::<(Seq<char>, JsonV)>::empty());
    let fields = vec![
        field("type", Json::text("object")),
        field("properties", props),
        field("additionalProperties", Json::Bool(false)),
    ];
    let r = Json::object(fields);
    assert(fields_deep(fields@) =~= empty_schema_v()->Object_0);
    r
}

fn boolean_schema() -> (r: Json)
    ensures
        r.deep() == JsonV::Object(seq![("type"@, JsonV::Str("boolean"@))]),
{
    let fields = vec![field("type", Json::text("boolean"))];
    let r = Json::object(fields);
    assert(fields_deep(fields@) =~= seq![("type"@, JsonV::Str("boolean"@))]);
    r
}

fn format_schema() -> (r: Json)
    ensures
        r.deep() == format_schema_v(),
{
    let prop_fields = vec![field("hour12", boolean_schema()), field("showDate", boolean_schema())];
    let props = Json::object(prop_fields);
    assert(fields_deep(prop_fields@) =~= format_schema_v()->Object_0[1].1->Object_0);
    let fields = vec![
        field("type", Json::text("object")),
        field("properties", props),
        field("additionalProperties", Json::Bool(false)),
    ];
    let r = Json::object(fields);
    assert(fields_deep(fields@) =~= format_schema_v()->Object_0);
    r
}

fn capability(name: &str, description: &str, schema: Json, events: Vec<Json>) -> (r: Json)
    ensures
        r.deep() == capability_v(name@, description@, schema.deep(), items_deep(events@)),
{
    let ev = Json::array(events);
    let fields = vec![
        field("name", Json::text(name)),
        field("description", Json::text(description)),
        field("inputSchema", schema),
        field("events", ev),
    ];
    let r = Json::object(fields);
    assert(fields_deep(fields@) =~= capability_v(
        name@,
        description@,
        schema.deep(),
        items_deep(events@),
    )->Object_0);
    r
}

/// The capabilities that the service declares: `clock.now`, `clock.show`,
/// `clock.hide` and `clock.set_format`, each with its input schema and the
/// events it emits.
pub fn capabilities() -> (r: Json)
    ensures
        r.deep() == capabilities_v(),
{
    let now_events = vec![Json::text("clock.updated")];
    assert(items_deep(now_events@) =~= seq![JsonV::Str("clock.updated"@)]);
    let now = capability("clock.now", "返回系统本地时间。", empty_schema(), now_events);
    let show_events = vec![Json::text("clock.visibility"), Json::text("clock.updated")];
    assert(items_deep(show_events@) =~= seq![
        JsonV::Str("clock.visibility"@),
        JsonV::Str("clock.updated"@),
    ]);
    let show = capability("clock.show", "显示独立时间窗口。", empty_schema(), show_events);
    let hide_events = vec![Json::text("clock.visibility")];
    assert(items_deep(hide_events@) =~= seq![JsonV::Str("clock.visibility"@)]);
    let hide = capability("clock.hide", "隐藏独立时间窗口。", empty_schema(), hide_events);
    let format_events = vec![Json::text("clock.updated")];
    assert(items_deep(format_events@) =~= seq![JsonV::Str("clock.updated"@)]);
    let format = capability(
        "clock.set_format",
        "设置 12/24 小时制和日期显示。",
        format_schema(),
        format_events,
    );
    let list = vec![now, show, hide, format];
    let all = Json::array(list);
    assert(items_deep(list@) =~= capabilities_v()->Object_0[0].1->Array_0);
    let fields = vec![field("capabilities", all)];
    let r = Json::object(fields);
    assert(fields_deep(fields@) =~= capabilities_v()->Object_0);
    r
}

/// Runs the capability `capability` with `input` on `state` at `at`:
/// `clock.now` and `clock.show` open the window, `clock.hide` closes it,
/// `clock.set_format` sets the formats that `input` gives as booleans, and
/// any other capability fails with `"unknown capability"`, leaving the
/// state as it was.
pub fn invoke_at(
    capability: &str,
    input: &Json,
    state: &mut ClockState,
    at: &LocalInstant,
) -> (r: Result<(Json, Vec<Json>), &'static str>)
    ensures
        *final(state) == next_state(capability@, input.deep(), *old(state)),
        invoke_gives(r, capability@, input.deep(), *old(state), *at),
{
    if same_text(capability, "clock.now") {
        state.visible = true;
        let mut fields = snapshot_field_list(state, at);
        let value = Json::object(snapshot_field_list(state, at));
        fields.push(field("hostAction", host_action("window.open")));
        fields.push(field("bubble", bubble(state, at)));
        let result = Json::object(fields);
        assert(fields_deep(fields@) =~= snapshot_fields(*state, *at).push(
            ("hostAction"@, host_action_v("window.open"@)),
        ).push(("bubble"@, bubble_v(time_text(*state, *at)))));
        let events = vec![notification("clock.updated", value)];
        assert(items_deep(events@) =~= seq![notification_v("clock.updated"@, snapshot_v(*state, *at))]);
        Ok((result, events))
    } else if same_text(capability, "clock.show") {
        state.visible = true;
        let value = snapshot_at(state, at);
        let events = vec![
            notification("clock.visibility", visibility(true)),
            notification("clock.updated", value),
        ];
        assert(items_deep(events@) =~= seq![
            notification_v("clock.visibility"@, visibility_v(true)),
            notification_v("clock.updated"@, snapshot_v(*state, *at)),
        ]);
        Ok((window_result(true, "window.open"), events))
    } else if same_text(capability, "clock.hide") {
        state.visible = false;
        let events = vec![notification("clock.visibility", visibility(false))];
        assert(items_deep(events@) =~= seq![notification_v("clock.visibility"@, visibility_v(false))]);
        Ok((window_result(false, "window.close"), events))
    } else if same_text(capability, "clock.set_format") {
        match input.get("hour12") {
            Some(v) => match v.as_bool() {
                Some(b) => {
                    state.hour12 = b;
                },
                None => {},
            },
            None => {},
        }
        match input.get("showDate") {
            Some(v) => match v.as_bool() {
                Some(b) => {
                    state.show_date = b;
                },
                None => {},
            },
            None => {},
        }
        let value = snapshot_at(state, at);
        let fields = vec![field("hour12", Json::Bool(state.hour12)), field("showDate", Json::Bool(state.show_date))];
        let result = Json::object(fields);
        assert(fields_deep(fields@) =~= seq![
            ("hour12"@, JsonV::Bool(state.hour12)),
            ("showDate"@, JsonV::Bool(state.show_date)),
        ]);
        let events = vec![notification("clock.updated", value)];
        assert(items_deep(events@) =~= seq![notification_v("clock.updated"@, snapshot_v(*state, *at))]);
        Ok((result, events))
    } else {
        proof {
            reveal_strlit("unknown capability");
        }
        Err("unknown capability")
    }
}

/// Whether the capability `capability` reads the clock: `clock.now`,
/// `clock.show` and `clock.set_format` do, `clock.hide` and unknown ones do
/// not.
pub open spec fn needs_clock(capability: Seq<char>) -> bool {
    ||| capability == "clock.now"@
    ||| capability == "clock.show"@
    ||| capability == "clock.set_format"@
}

/// Whether `at` is an instant that the system clock can read: at or after
/// the Unix epoch, within the range of `chrono`.
pub open spec fn in_clock_range(at: LocalInstant) -> bool {
    &&& 0 <= at.secs() <= MAX_TIMESTAMP
    &&& -86_400 < at.offset_secs() < 86_400
}

/// The message of a capability that needs the clock where the system clock
/// cannot be read.
pub open spec fn clock_unavailable() -> Seq<char> {
    "local clock unavailable"@
}

/// Runs the capability `capability` with `input` on `state` at the instant
/// that the local clock reads. A capability that needs the clock fails with
/// `"local clock unavailable"`, leaving the state as it was, where the system
/// clock cannot be read.
pub fn invoke(capability: &str, input: &Json, state: &mut ClockState) -> (r: Result<
    (Json, Vec<Json>),
    &'static str,
>)
    ensures
        ({
            &&& *final(state) == next_state(capability@, input.deep(), *old(state))
            &&& exists|at: LocalInstant|
                in_clock_range(at) && #[trigger] invoke_gives(r, capability@, input.deep(), *old(state), at)
        }) || ({
            &&& needs_clock(capability@)
            &&& *final(state) == *old(state)
            &&& r matches Err(message) && message@ == clock_unavailable()
        }),
{
    if same_text(capability, "clock.now") || same_text(capability, "clock.show") || same_text(
        capability,
        "clock.set_format",
    ) {
        match read_local_clock() {
            Some(at) => invoke_at(capability, input, state, &at),
            None => {
                proof {
                    reveal_strlit("local clock unavailable");
                }
                Err("local clock unavailable")
            },
        }
    } else {
        let epoch = instant_of_reading(0, 0);
        invoke_at(capability, input, state, &epoch)
    }
}

fn ok_result(message: &str) -> (r: Json)
    ensures
        r.deep() == JsonV::Object(seq![("ok"@, JsonV::Bool(true)), ("message"@, JsonV::Str(message@))]),
{
    let fields = vec![field("ok", Json::Bool(true)), field("message", Json::text(message))];
    let r = Json::object(fields);
    assert(fields_deep(fields@) =~= seq![("ok"@, JsonV::Bool(true)), ("message"@, JsonV::Str(message@))]);
    r
}

/// The reply of the service to `request` on `state`, which it updates;
/// `version` is the version of the service that `initialize` reports. Only
/// an `invoke` request reads the local clock.
pub fn handle_request(request: &Json, state: &mut ClockState, version: &str) -> (r: ClockReply)
    ensures
        ({
            &&& *final(state) == state_after(request.deep(), *old(state))
            &&& exists|at: LocalInstant|
                in_clock_range(at) && #[trigger] replies_as(r, request.deep(), *old(state), version@, at)
        }) || ({
            &&& clock_unavailable_for(request.deep())
            &&& *final(state) == *old(state)
            &&& unavailable_reply_as(r, request.deep())
        }),
{
    let needs_reading = if same_text(request.str_field_or_empty("method"), "invoke") {
        let params = request.field_or_null("params");
        let capability = params.str_field_or_empty("capability");
        same_text(capability, "clock.now") || same_text(capability, "clock.show") || same_text(
            capability,
            "clock.set_format",
        )
    } else {
        false
    };
    let reading = if needs_reading {
        read_local_clock()
    } else {
        None
    };
    let epoch = instant_of_reading(0, 0);
    let r = handle_request_at(request, state, version, reading);
    proof {
        assert(in_clock_range(epoch));
        if !clock_unavailable_for(request.deep()) {
            assert(replies_as(r, request.deep(), *old(state), version@, epoch));
        }
    }
    r
}

/// The reply of the service to `request` on `state`, which it updates, where
/// `reading` is what the local clock read (`None` where it could not be
/// read). An `invoke` of a capability that needs the clock is answered at the
/// instant read, or with the error `-32603` where there is none; every other
/// request is answered alike whatever the reading.
pub fn handle_request_at(
    request: &Json,
    state: &mut ClockState,
    version: &str,
    reading: Option<LocalInstant>,
) -> (r: ClockReply)
    ensures
        clock_unavailable_for(request.deep()) && reading is None ==> {
            &&& *final(state) == *old(state)
            &&& unavailable_reply_as(r, request.deep())
        },
        clock_unavailable_for(request.deep()) ==> (reading matches Some(at) ==> {
            &&& *final(state) == state_after(request.deep(), *old(state))
            &&& replies_as(r, request.deep(), *old(state), version@, at)
        }),
        !clock_unavailable_for(request.deep()) ==> {
            &&& *final(state) == state_after(request.deep(), *old(state))
            &&& forall|at: LocalInstant| #[trigger] replies_as(r, request.deep(), *old(state), version@, at)
        },
{
    proof {
        reveal_strlit("invoke");
        reveal_strlit("initialize");
        reveal_strlit("health");
        reveal_strlit("capabilities");
        reveal_strlit("shutdown");
        assert("initialize"@.len() != "invoke"@.len());
        assert("health"@[0] != "invoke"@[0]);
        assert("capabilities"@.len() != "invoke"@.len());
        assert("shutdown"@.len() != "invoke"@.len());
    }
    let id = request_id_of(request);
    let method = request.str_field_or_empty("method");
    let epoch = instant_of_reading(0, 0);
    let ghost witness: LocalInstant = epoch;
    let no_events: Vec<Json> = Vec::new();
    assert(items_deep(no_events@) =~= Seq::<JsonV>::empty());
    if same_text(method, "initialize") {
        let fields = vec![field("appProtocolVersion", Json::Int(1)), field("serviceVersion", Json::text(version))];
        let result = Json::object(fields);
        assert(fields_deep(fields@) =~= seq![
            ("appProtocolVersion"@, JsonV::Int(1)),
            ("serviceVersion"@, JsonV::Str(version@)),
        ]);
        let r = ClockReply { reply: response(id, result), events: no_events, shutdown: false };
        assert(replies_as(r, request.deep(), *old(state), version@, witness));
        r
    } else if same_text(method, "health") {
        let r = ClockReply { reply: response(id, ok_result("ready")), events: no_events, shutdown: false };
        assert(replies_as(r, request.deep(), *old(state), version@, witness));
        r
    } else if same_text(method, "capabilities") {
        let r = ClockReply { reply: response(id, capabilities()), events: no_events, shutdown: false };
        assert(replies_as(r, request.deep(), *old(state), version@, witness));
        r
    } else if same_text(method, "invoke") {
        let params = request.field_or_null("params");
        let capability = params.str_field_or_empty("capability");
        let input = params.field_or_null("input");
        let needed = same_text(capability, "clock.now") || same_text(capability, "clock.show")
            || same_text(capability, "clock.set_format");
        let chosen = if needed {
            reading
        } else {
            Some(epoch)
        };
        let at = match chosen {
            Some(at) => at,
            None => {
                proof {
                    reveal_strlit("local clock unavailable");
                }
                let r = ClockReply {
                    reply: error(id, -32603, "local clock unavailable"),
                    events: no_events,
                    shutdown: false,
                };
                return r;
            },
        };
        match invoke_at(capability, &input, state, &at) {
            Ok((result, events)) => {
                let r = ClockReply { reply: response(id, result), events, shutdown: false };
                assert(replies_as(r, request.deep(), *old(state), version@, at));
                r
            },
            Err(message) => {
                let r = ClockReply { reply: error(id, -32602, message), events: no_events, shutdown: false };
                assert(replies_as(r, request.deep(), *old(state), version@, at));
                r
            },
        }
    } else if same_text(method, "shutdown") {
        let fields = vec![field("ok", Json::Bool(true))];
        let result = Json::object(fields);
        assert(fields_deep(fields@) =~= seq![("ok"@, JsonV::Bool(true))]);
        let r = ClockReply { reply: response(id, result), events: no_events, shutdown: true };
        assert(replies_as(r, request.deep(), *old(state), version@, witness));
        r
    } else {
        let r = ClockReply { reply: error(id, -32601, "method not found"), events: no_events, shutdown: false };
        assert(replies_as(r, request.deep(), *old(state), version@, witness));
        r
    }
}

/// What the service does with a line of `line_len` bytes whose JSON parse is
/// `request` (`None` where it is not JSON): it stops at a line over 1 MiB,
/// skips one that is not JSON, and otherwise handles the request.
pub fn handle_line(line_len: usize, request: Option<Json>, state: &mut ClockState, version: &str) -> (r:
    ClockStep)
    ensures
        line_len > MAX_LINE_BYTES ==> r is Stop && *final(state) == *old(state),
        line_len <= MAX_LINE_BYTES && request is None ==> r is Skip && *final(state) == *old(state),
        line_len <= MAX_LINE_BYTES && request is Some ==> {
            &&& r is Reply
            &&& ({
                &&& *final(state) == state_after(request->0.deep(), *old(state))
                &&& exists|at: LocalInstant|
                    in_clock_range(at) && #[trigger] replies_as(
                        r->Reply_0,
                        request->0.deep(),
                        *old(state),
                        version@,
                        at,
                    )
            }) || ({
                &&& clock_unavailable_for(request->0.deep())
                &&& *final(state) == *old(state)
                &&& unavailable_reply_as(r->Reply_0, request->0.deep())
            })
        },
{
    if line_len > MAX_LINE_BYTES {
        return ClockStep::Stop;
    }
    match request {
        None => ClockStep::Skip,
        Some(q) => ClockStep::Reply(handle_request(&q, state, version)),
    }
}

/// The event that the ticker writes for `state` at `at`: a `clock.updated`
/// snapshot while the window is open, nothing while it is closed.
pub open spec fn tick_v(state: ClockState, at: LocalInstant) -> Option<JsonV> {
    if state.visible {
        Some(notification_v("clock.updated"@, snapshot_v(state, at)))
    } else {
        None
    }
}

/// The event that the ticker writes for `state` at `at`.
pub fn tick_at(state: &ClockState, at: &LocalInstant) -> (r: Option<Json>)
    ensures
        match r {
            Some(e) => tick_v(*state, *at) == Some(e.deep()),
            None => tick_v(*state, *at) is None,
        },
{
    if state.visible {
        Some(notification("clock.updated", snapshot_at(state, at)))
    } else {
        None
    }
}

/// The event that the ticker writes for `state` now; the local clock is read
/// only while the window is open, and nothing is written where it cannot be
/// read.
pub fn tick(state: &ClockState) -> (r: Option<Json>)
    ensures
        !state.visible ==> r is None,
        r matches Some(e) ==> exists|at: LocalInstant|
            in_clock_range(at) && #[trigger] tick_v(*state, at) == Some(e.deep()),
{
    if state.visible {
        match read_local_clock() {
            Some(at) => tick_at(state, &at),
            None => None,
        }
    } else {
        None
    }
}


// ----------------------------------------------------------------------------
// Laws.

/// Whether `capability` is one of the four that the service declares.
pub open spec fn known_capability(capability: Seq<char>) -> bool {
    ||| capability == "clock.now"@
    ||| capability == "clock.show"@
    ||| capability == "clock.hide"@
    ||| capability == "clock.set_format"@
}

proof fn lemma_capability_names()
    ensures
        "clock.now"@ != "clock.show"@,
        "clock.now"@ != "clock.hide"@,
        "clock.now"@ != "clock.set_format"@,
        "clock.show"@ != "clock.hide"@,
        "clock.show"@ != "clock.set_format"@,
        "clock.hide"@ != "clock.set_format"@,
{
    reveal_strlit("clock.now");
    reveal_strlit("clock.show");
    reveal_strlit("clock.hide");
    reveal_strlit("clock.set_format");
    assert("clock.show"@[6] != "clock.hide"@[6]);
    assert("clock.now"@.len() != "clock.show"@.len());
    assert("clock.now"@.len() != "clock.hide"@.len());
    assert("clock.now"@.len() != "clock.set_format"@.len());
    assert("clock.show"@.len() != "clock.set_format"@.len());
    assert("clock.hide"@.len() != "clock.set_format"@.len());
}

/// `clock.now` and `clock.show` open the window and `clock.hide` closes it;
/// `clock.set_format` and a failed capability leave it as it was.
pub proof fn law_window_follows_capability(capability: Seq<char>, input: JsonV, state: ClockState)
    ensures
        (capability == "clock.now"@ || capability == "clock.show"@) ==> next_state(
            capability,
            input,
            state,
        ).visible,
        capability == "clock.hide"@ ==> !next_state(capability, input, state).visible,
        !(capability == "clock.now"@ || capability == "clock.show"@ || capability == "clock.hide"@)
            ==> next_state(capability, input, state).visible == state.visible,
{
    lemma_capability_names();
}

/// The results of `clock.now` and `clock.show` ask the host to open the
/// window, and the result of `clock.hide` asks it to close it.
pub proof fn law_host_actions(capability: Seq<char>, input: JsonV, state: ClockState, at: LocalInstant)
    ensures
        (capability == "clock.now"@ || capability == "clock.show"@) ==> (invoke_outcome(
            capability,
            input,
            state,
            at,
        ) matches Ok((result, _)) && field_of(result, "hostAction"@) == Some(
            host_action_v("window.open"@),
        )),
        capability == "clock.hide"@ ==> (invoke_outcome(capability, input, state, at) matches Ok(
            (result, _),
        ) && field_of(result, "hostAction"@) == Some(host_action_v("window.close"@))),
{
    lemma_capability_names();
    reveal_strlit("hostAction");
    reveal_strlit("visible");
    reveal_strlit("text");
    reveal_strlit("date");
    reveal_strlit("iso");
    reveal_strlit("timezone");
    reveal_strlit("source");
    let t = next_state(capability, input, state);
    let f = snapshot_fields(t, at).push(("hostAction"@, host_action_v("window.open"@))).push(
        ("bubble"@, bubble_v(time_text(t, at))),
    );
    assert("text"@.len() != "hostAction"@.len());
    assert("date"@.len() != "hostAction"@.len());
    assert("iso"@.len() != "hostAction"@.len());
    assert("timezone"@.len() != "hostAction"@.len());
    assert("source"@.len() != "hostAction"@.len());
    assert("visible"@.len() != "hostAction"@.len());
    lemma_first_field_step(f, "hostAction"@);
    lemma_first_field_step(f.drop_first(), "hostAction"@);
    lemma_first_field_step(f.drop_first().drop_first(), "hostAction"@);
    lemma_first_field_step(f.drop_first().drop_first().drop_first(), "hostAction"@);
    lemma_first_field_step(f.drop_first().drop_first().drop_first().drop_first(), "hostAction"@);
    assert(f.drop_first().drop_first().drop_first().drop_first().drop_first() =~= seq![
        ("hostAction"@, host_action_v("window.open"@)),
        ("bubble"@, bubble_v(time_text(t, at))),
    ]);
    let w = window_result_v(true, "window.open"@)->Object_0;
    lemma_first_field_step(w, "hostAction"@);
    assert(w.drop_first() =~= seq![("hostAction"@, host_action_v("window.open"@))]);
    let c = window_result_v(false, "window.close"@)->Object_0;
    lemma_first_field_step(c, "hostAction"@);
    assert(c.drop_first() =~= seq![("hostAction"@, host_action_v("window.close"@))]);
}

/// A capability that the service does not declare fails with
/// `"unknown capability"` and leaves the state as it was.
pub proof fn law_unknown_capability(capability: Seq<char>, input: JsonV, state: ClockState, at: LocalInstant)
    requires
        !known_capability(capability),
    ensures
        invoke_outcome(capability, input, state, at) == Err::<(JsonV, Seq<JsonV>), Seq<char>>(
            "unknown capability"@,
        ),
        next_state(capability, input, state) == state,
{
}

/// Setting the format twice with the same input is setting it once, and it
/// touches nothing but the two formats.
pub proof fn law_set_format_idempotent(input: JsonV, state: ClockState)
    ensures
        next_state("clock.set_format"@, input, next_state("clock.set_format"@, input, state))
            == next_state("clock.set_format"@, input, state),
        next_state("clock.set_format"@, input, state).visible == state.visible,
{
    lemma_capability_names();
}

/// Hiding the window after showing it leaves the state as it was but for a
/// closed window.
pub proof fn law_hide_undoes_show(show_input: JsonV, hide_input: JsonV, state: ClockState)
    ensures
        next_state("clock.hide"@, hide_input, next_state("clock.show"@, show_input, state))
            == (ClockState { visible: false, ..state }),
{
    lemma_capability_names();
}

/// After a capability runs, the ticker writes a `clock.updated` snapshot at
/// each tick exactly while the window is open: after `clock.now` and
/// `clock.show` it does, after `clock.hide` it does not.
pub proof fn law_ticker_follows_window(
    capability: Seq<char>,
    input: JsonV,
    state: ClockState,
    at: LocalInstant,
)
    ensures
        (capability == "clock.now"@ || capability == "clock.show"@) ==> tick_v(
            next_state(capability, input, state),
            at,
        ) == Some(
            notification_v("clock.updated"@, snapshot_v(next_state(capability, input, state), at)),
        ),
        capability == "clock.hide"@ ==> tick_v(next_state(capability, input, state), at) is None,
{
    lemma_capability_names();
}

/// Every reply of the service is a JSON-RPC 2.0 message that carries the id
/// of the request it answers.
pub proof fn law_clock_reply_carries_id(
    request: JsonV,
    state: ClockState,
    version: Seq<char>,
    at: LocalInstant,
)
    ensures
        field_of(clock_reply(request, state, version, at).0, "jsonrpc"@) == Some(JsonV::Str("2.0"@)),
        field_of(clock_reply(request, state, version, at).0, "id"@) == Some(request_id(request)),
{
    let id = request_id(request);
    let (reply, _, _) = clock_reply(request, state, version, at);
    let method = method_of(request);
    if method == "initialize"@ {
        lemma_response_fields(
            id,
            JsonV::Object(
                seq![("appProtocolVersion"@, JsonV::Int(1)), ("serviceVersion"@, JsonV::Str(version))],
            ),
        );
    } else if method == "health"@ {
        lemma_response_fields(
            id,
            JsonV::Object(seq![("ok"@, JsonV::Bool(true)), ("message"@, JsonV::Str("ready"@))]),
        );
    } else if method == "capabilities"@ {
        lemma_response_fields(id, capabilities_v());
    } else if method == "invoke"@ {
        match invoke_outcome(capability_of(request), input_of(request), state, at) {
            Ok((result, _)) => lemma_response_fields(id, result),
            Err(message) => lemma_error_fields(id, -32602, message),
        }
    } else if method == "shutdown"@ {
        lemma_response_fields(id, JsonV::Object(seq![("ok"@, JsonV::Bool(true))]));
    } else {
        lemma_error_fields(id, -32601, "method not found"@);
    }
}

/// The service stops after exactly the requests that name the method
/// `shutdown`.
pub proof fn law_clock_stops_on_shutdown(
    request: JsonV,
    state: ClockState,
    version: Seq<char>,
    at: LocalInstant,
)
    ensures
        clock_reply(request, state, version, at).2 <==> method_of(request) == "shutdown"@,
{
    reveal_strlit("initialize");
    reveal_strlit("health");
    reveal_strlit("capabilities");
    reveal_strlit("invoke");
    reveal_strlit("shutdown");
    assert("initialize"@.len() != "shutdown"@.len());
    assert("health"@.len() != "shutdown"@.len());
    assert("capabilities"@.len() != "shutdown"@.len());
    assert("invoke"@.len() != "shutdown"@.len());
}

/// The result of `clock.now` carries, beside the time under `text`, the
/// same time under `bubble.text` for the host's bubble.
pub proof fn law_clock_now_bubble(input: JsonV, state: ClockState, at: LocalInstant)
    ensures
        invoke_outcome("clock.now"@, input, state, at) matches Ok((result, _)) && {
            &&& field_of(result, "text"@) == Some(
                JsonV::Str(time_text(next_state("clock.now"@, input, state), at)),
            )
            &&& field_of(result, "bubble"@) == Some(
                bubble_v(time_text(next_state("clock.now"@, input, state), at)),
            )
            &&& field_of(bubble_v(time_text(next_state("clock.now"@, input, state), at)), "text"@)
                == Some(JsonV::Str(time_text(next_state("clock.now"@, input, state), at)))
        },
{
    reveal_strlit("bubble");
    reveal_strlit("hostAction");
    reveal_strlit("text");
    reveal_strlit("date");
    reveal_strlit("iso");
    reveal_strlit("timezone");
    reveal_strlit("source");
    let t = next_state("clock.now"@, input, state);
    let f = snapshot_fields(t, at).push(("hostAction"@, host_action_v("window.open"@))).push(
        ("bubble"@, bubble_v(time_text(t, at))),
    );
    assert("text"@.len() != "bubble"@.len());
    assert("date"@.len() != "bubble"@.len());
    assert("iso"@.len() != "bubble"@.len());
    assert("timezone"@.len() != "bubble"@.len());
    assert("source"@[0] != "bubble"@[0]);
    assert("hostAction"@.len() != "bubble"@.len());
    lemma_first_field_step(f, "bubble"@);
    lemma_first_field_step(f.drop_first(), "bubble"@);
    lemma_first_field_step(f.drop_first().drop_first(), "bubble"@);
    lemma_first_field_step(f.drop_first().drop_first().drop_first(), "bubble"@);
    lemma_first_field_step(f.drop_first().drop_first().drop_first().drop_first(), "bubble"@);
    lemma_first_field_step(f.drop_first().drop_first().drop_first().drop_first().drop_first(), "bubble"@);
    assert(f.drop_first().drop_first().drop_first().drop_first().drop_first().drop_first() =~= seq![
        ("bubble"@, bubble_v(time_text(t, at))),
    ]);
}

/// The entry of the `k`-th capability that the service declares.
pub open spec fn declared_capability(k: int) -> JsonV {
    capabilities_v()->Object_0[0].1->Array_0[k]
}

/// The name of the `k`-th declared capability.
pub open spec fn declared_name(k: int) -> Seq<char> {
    declared_capability(k)->Object_0[0].1->Str_0
}

/// The events that the `k`-th declared capability lists.
pub open spec fn declared_events(k: int) -> Seq<JsonV> {
    declared_capability(k)->Object_0[3].1->Array_0
}

/// Whether `event` is a host event whose name is listed in `declared`.
pub open spec fn names_declared_event(event: JsonV, declared: Seq<JsonV>) -> bool {
    exists|name: Seq<char>, payload: JsonV|
        #[trigger] notification_v(name, payload) == event && declared.contains(JsonV::Str(name))
}

/// Each declared capability succeeds on every input, state and instant, and
/// emits at least one event; every event it emits is a host event named
/// among the events that the capability declares.
pub proof fn law_invoke_events_declared(k: int, input: JsonV, state: ClockState, at: LocalInstant)
    requires
        0 <= k < 4,
    ensures
        invoke_outcome(declared_name(k), input, state, at) matches Ok((_, events)) && {
            &&& events.len() > 0
            &&& forall|i: int| 0 <= i < events.len() ==> names_declared_event(#[trigger] events[i], declared_events(k))
        },
{
    lemma_capability_names();
    let t = next_state(declared_name(k), input, state);
    let updated = JsonV::Str("clock.updated"@);
    let visibility = JsonV::Str("clock.visibility"@);
    if k == 0 {
        assert(declared_events(k)[0] == updated);
        assert(names_declared_event(notification_v("clock.updated"@, snapshot_v(t, at)), declared_events(k)));
    } else if k == 1 {
        assert(declared_events(k)[0] == visibility);
        assert(declared_events(k)[1] == updated);
        assert(names_declared_event(notification_v("clock.visibility"@, visibility_v(true)), declared_events(k)));
        assert(names_declared_event(notification_v("clock.updated"@, snapshot_v(t, at)), declared_events(k)));
    } else if k == 2 {
        assert(declared_events(k)[0] == visibility);
        assert(names_declared_event(notification_v("clock.visibility"@, visibility_v(false)), declared_events(k)));
    } else {
        assert(declared_events(k)[0] == updated);
        assert(names_declared_event(notification_v("clock.updated"@, snapshot_v(t, at)), declared_events(k)));
    }
}

/// The reply where the system clock cannot be read is a JSON-RPC 2.0 error
/// that carries the id of the request, with the code `-32603`.
pub proof fn law_unavailable_reply_carries_id(request: JsonV)
    ensures
        field_of(error_v(request_id(request), -32603, clock_unavailable()), "jsonrpc"@) == Some(
            JsonV::Str("2.0"@),
        ),
        field_of(error_v(request_id(request), -32603, clock_unavailable()), "id"@) == Some(
            request_id(request),
        ),
        field_of(
            field_or_null(error_v(request_id(request), -32603, clock_unavailable()), "error"@),
            "code"@,
        ) == Some(JsonV::Int(-32603)),
{
    lemma_error_fields(request_id(request), -32603, clock_unavailable());
}

} // verus!
