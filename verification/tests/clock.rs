use petagent_plugins::clock::{
    capabilities, handle_line, handle_request, invoke, invoke_at, notification, snapshot_at, tick,
    tick_at, ClockState, ClockStep,
};
use petagent_plugins::json::Json;
use petagent_plugins::local_time::{instant_of_reading, read_local_clock, LocalInstant};

fn text(s: &str) -> Json {
    Json::Str(s.to_string())
}

fn object(fields: Vec<(&str, Json)>) -> Json {
    Json::Object(fields.into_iter().map(|(k, v)| (k.to_string(), v)).collect())
}

fn initial() -> ClockState {
    ClockState { hour12: false, show_date: true, visible: false }
}

/// 2024-01-02 13:04:05 at UTC+08:00.
fn afternoon() -> LocalInstant {
    LocalInstant::new(1704171845, 28800).unwrap()
}

#[test]
fn advertises_all_declared_capabilities() {
    let value = capabilities();
    let names: Vec<&str> = match value.get("capabilities").unwrap() {
        Json::Array(items) => items.iter().filter_map(|item| item.get("name").and_then(|n| n.as_str())).collect(),
        _ => panic!("not an array"),
    };
    assert_eq!(names, ["clock.now", "clock.show", "clock.hide", "clock.set_format"]);
}

#[test]
fn uses_system_clock_and_updates_format() {
    let mut state = initial();
    let (_, events) = invoke(
        "clock.set_format",
        &object(vec![("hour12", Json::Bool(true)), ("showDate", Json::Bool(false))]),
        &mut state,
    )
    .unwrap();
    assert_eq!(
        events[0].get("params").unwrap().get("name").unwrap().as_str(),
        Some("clock.updated")
    );
    assert!(!state.show_date);
}

#[test]
fn requests_window_actions_for_visibility_changes() {
    let mut state = initial();
    let (now, _) = invoke("clock.now", &object(vec![]), &mut state).unwrap();
    assert_eq!(
        now.get("hostAction").unwrap().get("type").unwrap().as_str(),
        Some("window.open")
    );
    assert!(state.visible);
    let (hide, _) = invoke("clock.hide", &object(vec![]), &mut state).unwrap();
    assert_eq!(
        hide.get("hostAction").unwrap().get("type").unwrap().as_str(),
        Some("window.close")
    );
}

#[test]
fn snapshot_formats_a_known_instant() {
    let state = initial();
    let snap = snapshot_at(&state, &afternoon());
    assert_eq!(snap.get("text").unwrap().as_str(), Some("13:04:05"));
    assert_eq!(snap.get("date").unwrap().as_str(), Some("2024-01-02"));
    assert_eq!(snap.get("iso").unwrap().as_str(), Some("2024-01-02T13:04:05+08:00"));
    assert_eq!(snap.get("timezone").unwrap().as_str(), Some("+08:00"));
    assert_eq!(snap.get("source").unwrap().as_str(), Some("windows-system-clock"));
}

#[test]
fn snapshot_on_a_twelve_hour_clock_without_date() {
    let state = ClockState { hour12: true, show_date: false, visible: true };
    let snap = snapshot_at(&state, &afternoon());
    assert_eq!(snap.get("text").unwrap().as_str(), Some("01:04:05 PM"));
    assert_eq!(snap.get("date"), Some(&Json::Null));
}

#[test]
fn snapshot_writes_utc_and_negative_offsets() {
    let state = initial();
    let utc = snapshot_at(&state, &LocalInstant::new(1704171845, 0).unwrap());
    assert_eq!(utc.get("iso").unwrap().as_str(), Some("2024-01-02T05:04:05Z"));
    assert_eq!(utc.get("timezone").unwrap().as_str(), Some("+00:00"));
    let west = snapshot_at(&state, &LocalInstant::new(1704171845, -19800).unwrap());
    assert_eq!(west.get("timezone").unwrap().as_str(), Some("-05:30"));
    assert_eq!(west.get("text").unwrap().as_str(), Some("23:34:05"));
    assert_eq!(west.get("date").unwrap().as_str(), Some("2024-01-01"));
    let odd = snapshot_at(&state, &LocalInstant::new(0, 30).unwrap());
    assert_eq!(odd.get("timezone").unwrap().as_str(), Some("+00:00:30"));
}

#[test]
fn instants_out_of_range_are_refused() {
    assert!(LocalInstant::new(0, 86400).is_none());
    assert!(LocalInstant::new(0, -86400).is_none());
    assert!(LocalInstant::new(i64::MAX, 0).is_none());
    assert!(LocalInstant::new(8210266876799, 0).is_some());
    assert!(LocalInstant::new(8210266876800, 0).is_none());
    assert!(LocalInstant::new(-8334601228801, 0).is_none());
}

#[test]
fn show_emits_visibility_then_update() {
    let mut state = initial();
    let (result, events) = invoke_at("clock.show", &Json::Null, &mut state, &afternoon()).unwrap();
    assert_eq!(result.get("visible"), Some(&Json::Bool(true)));
    assert_eq!(events.len(), 2);
    assert_eq!(events[0].get("params").unwrap().get("name").unwrap().as_str(), Some("clock.visibility"));
    assert_eq!(
        events[0].get("params").unwrap().get("payload").unwrap().get("visible"),
        Some(&Json::Bool(true))
    );
    assert_eq!(events[1].get("params").unwrap().get("name").unwrap().as_str(), Some("clock.updated"));
    assert_eq!(events[1].get("method").unwrap().as_str(), Some("pet.app.event"));
}

#[test]
fn set_format_keeps_fields_that_are_not_booleans() {
    let mut state = ClockState { hour12: true, show_date: true, visible: true };
    let (result, _) = invoke_at(
        "clock.set_format",
        &object(vec![("hour12", text("no")), ("showDate", Json::Bool(false))]),
        &mut state,
        &afternoon(),
    )
    .unwrap();
    assert_eq!(state, ClockState { hour12: true, show_date: false, visible: true });
    assert_eq!(result.get("hour12"), Some(&Json::Bool(true)));
    assert_eq!(result.get("showDate"), Some(&Json::Bool(false)));
}

#[test]
fn unknown_capability_fails_and_keeps_state() {
    let mut state = initial();
    let outcome = invoke_at("clock.explode", &Json::Null, &mut state, &afternoon());
    assert_eq!(outcome, Err("unknown capability"));
    assert_eq!(state, initial());
}

#[test]
fn hide_after_show_closes_the_window() {
    let mut state = initial();
    invoke_at("clock.show", &Json::Null, &mut state, &afternoon()).unwrap();
    invoke_at("clock.hide", &Json::Null, &mut state, &afternoon()).unwrap();
    assert_eq!(state, ClockState { visible: false, ..initial() });
}

#[test]
fn ticker_follows_the_window() {
    let mut state = initial();
    assert_eq!(tick(&state), None);
    invoke_at("clock.now", &Json::Null, &mut state, &afternoon()).unwrap();
    let event = tick_at(&state, &afternoon()).unwrap();
    assert_eq!(event.get("params").unwrap().get("name").unwrap().as_str(), Some("clock.updated"));
    assert!(tick(&state).is_some());
    let expected = notification("clock.updated", snapshot_at(&state, &afternoon()));
    assert_eq!(event, expected);
}

#[test]
fn clock_requests_are_answered_with_their_id() {
    let mut state = initial();
    let request = object(vec![("id", Json::Int(4)), ("method", text("initialize"))]);
    let reply = handle_request(&request, &mut state, "1.2.3");
    assert_eq!(reply.reply.get("id"), Some(&Json::Int(4)));
    assert_eq!(reply.reply.get("jsonrpc").unwrap().as_str(), Some("2.0"));
    let result = reply.reply.get("result").unwrap();
    assert_eq!(result.get("appProtocolVersion"), Some(&Json::Int(1)));
    assert_eq!(result.get("serviceVersion").unwrap().as_str(), Some("1.2.3"));
    assert!(!reply.shutdown);
}

#[test]
fn clock_invoke_errors_use_code_32602() {
    let mut state = initial();
    let request = object(vec![
        ("id", text("a")),
        ("method", text("invoke")),
        ("params", object(vec![("capability", text("nope"))])),
    ]);
    let reply = handle_request(&request, &mut state, "1");
    let error = reply.reply.get("error").unwrap();
    assert_eq!(error.get("code"), Some(&Json::Int(-32602)));
    assert_eq!(error.get("message").unwrap().as_str(), Some("unknown capability"));
    assert!(reply.events.is_empty());
}

#[test]
fn clock_invoke_runs_the_capability() {
    let mut state = initial();
    let request = object(vec![
        ("id", Json::Int(9)),
        ("method", text("invoke")),
        ("params", object(vec![("capability", text("clock.hide")), ("input", object(vec![]))])),
    ]);
    let reply = handle_request(&request, &mut state, "1");
    let result = reply.reply.get("result").unwrap();
    assert_eq!(result.get("visible"), Some(&Json::Bool(false)));
    assert_eq!(reply.events.len(), 1);
}

#[test]
fn clock_stops_after_shutdown_and_rejects_unknown_methods() {
    let mut state = initial();
    let shutdown = handle_request(&object(vec![("method", text("shutdown"))]), &mut state, "1");
    assert!(shutdown.shutdown);
    assert_eq!(shutdown.reply.get("result").unwrap().get("ok"), Some(&Json::Bool(true)));
    let unknown = handle_request(&object(vec![("method", text("tools/list"))]), &mut state, "1");
    assert_eq!(unknown.reply.get("error").unwrap().get("code"), Some(&Json::Int(-32601)));
    let health = handle_request(&object(vec![("method", text("health"))]), &mut state, "1");
    assert_eq!(health.reply.get("result").unwrap().get("message").unwrap().as_str(), Some("ready"));
    let caps = handle_request(&object(vec![("method", text("capabilities"))]), &mut state, "1");
    assert_eq!(caps.reply.get("result"), Some(&capabilities()));
}

#[test]
fn clock_lines_stop_skip_or_reply() {
    let mut state = initial();
    assert_eq!(handle_line(1024 * 1024 + 1, Some(Json::Null), &mut state, "1"), ClockStep::Stop);
    assert_eq!(handle_line(3, None, &mut state, "1"), ClockStep::Skip);
    match handle_line(10, Some(object(vec![("method", text("health"))])), &mut state, "1") {
        ClockStep::Reply(reply) => assert!(reply.reply.get("result").is_some()),
        _ => panic!("expected a reply"),
    }
}

#[test]
fn snapshot_at_the_edges_of_the_range() {
    let state = ClockState { hour12: true, show_date: true, visible: true };
    let latest = snapshot_at(&state, &LocalInstant::new(8210266876799, 0).unwrap());
    assert_eq!(latest.get("iso").unwrap().as_str(), Some("+262142-12-31T23:59:59Z"));
    assert_eq!(latest.get("text").unwrap().as_str(), Some("11:59:59 PM"));
    let earliest = snapshot_at(&state, &LocalInstant::new(-8334601228800, 0).unwrap());
    assert_eq!(earliest.get("iso").unwrap().as_str(), Some("-262143-01-01T00:00:00Z"));
    assert_eq!(earliest.get("date").unwrap().as_str(), Some("-262143-01-01"));
    assert!(LocalInstant::new(8210266876799, 1).is_none());
    assert!(LocalInstant::new(-8334601228800, -1).is_none());
}

#[test]
fn clock_readings_keep_their_offset_within_range() {
    let at = instant_of_reading(1_700_000_000, 28_800);
    assert_eq!((at.timestamp(), at.offset()), (1_700_000_000, 28_800));
    let edge = instant_of_reading(8210266876799, 3_600);
    assert_eq!((edge.timestamp(), edge.offset()), (8210266876799, 0));
    let west = instant_of_reading(8210266876799, -3_600);
    assert_eq!((west.timestamp(), west.offset()), (8210266876799, -3_600));
    let now = read_local_clock().unwrap();
    assert!(now.timestamp() > 1_600_000_000);
    assert!(now.offset() > -86_400 && now.offset() < 86_400);
}

#[test]
fn clock_now_repeats_the_time_for_the_bubble() {
    let mut state = ClockState { hour12: true, show_date: false, visible: false };
    let (result, _) = invoke_at("clock.now", &object(vec![]), &mut state, &afternoon()).unwrap();
    assert_eq!(result.get("text").unwrap().as_str(), Some("01:04:05 PM"));
    assert_eq!(result.get("bubble").unwrap().get("text").unwrap().as_str(), Some("01:04:05 PM"));
    let (show, _) = invoke_at("clock.show", &object(vec![]), &mut state, &afternoon()).unwrap();
    assert_eq!(show.get("bubble"), None);
}

#[test]
fn hiding_needs_no_clock_and_every_event_is_declared() {
    let mut state = ClockState { hour12: false, show_date: true, visible: true };
    let (hide, events) = invoke("clock.hide", &object(vec![]), &mut state).unwrap();
    assert_eq!(hide.get("visible"), Some(&Json::Bool(false)));
    assert_eq!(events.len(), 1);
    assert_eq!(
        events[0].get("params").unwrap().get("name").unwrap().as_str(),
        Some("clock.visibility")
    );
    let (_, shown) = invoke("clock.show", &object(vec![]), &mut state).unwrap();
    let names: Vec<&str> = shown
        .iter()
        .map(|e| e.get("params").unwrap().get("name").unwrap().as_str().unwrap())
        .collect();
    assert_eq!(names, ["clock.visibility", "clock.updated"]);
    assert_eq!(events[0].get("method").unwrap().as_str(), Some("pet.app.event"));
}
