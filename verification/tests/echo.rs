use petagent_plugins::echo::{handle_line, handle_request, LineOutcome};
use petagent_plugins::json::Json;

fn text(s: &str) -> Json {
    Json::Str(s.to_string())
}

fn object(fields: Vec<(&str, Json)>) -> Json {
    Json::Object(fields.into_iter().map(|(k, v)| (k.to_string(), v)).collect())
}

fn at<'a>(j: &'a Json, i: usize) -> &'a Json {
    match j {
        Json::Array(items) => &items[i],
        _ => panic!("not an array"),
    }
}

#[test]
fn echo_hands_back_the_text() {
    let request = object(vec![
        ("jsonrpc", text("2.0")),
        ("id", Json::Int(3)),
        ("method", text("tools/call")),
        ("params", object(vec![("name", text("echo")), ("arguments", object(vec![("text", text("hi there"))]))])),
    ]);
    let reply = handle_request(&request);
    assert_eq!(reply.get("id"), Some(&Json::Int(3)));
    let result = reply.get("result").unwrap();
    let part = at(result.get("content").unwrap(), 0);
    assert_eq!(part.get("text").unwrap().as_str(), Some("hi there"));
    assert_eq!(result.get("isError"), Some(&Json::Bool(false)));
}

#[test]
fn echo_without_text_hands_back_nothing() {
    let reply = handle_request(&object(vec![("method", text("tools/call"))]));
    let part = at(reply.get("result").unwrap().get("content").unwrap(), 0);
    assert_eq!(part.get("text").unwrap().as_str(), Some(""));
    assert_eq!(reply.get("id"), Some(&Json::Null));
}

#[test]
fn echo_lists_its_tool_under_both_names() {
    let a = handle_request(&object(vec![("method", text("tools/list"))]));
    let b = handle_request(&object(vec![("method", text("capabilities"))]));
    assert_eq!(a, b);
    let tool = at(a.get("result").unwrap().get("capabilities").unwrap(), 0);
    assert_eq!(tool.get("name").unwrap().as_str(), Some("echo"));
}

#[test]
fn echo_answers_lifecycle_and_unknown_methods() {
    let init = handle_request(&object(vec![("id", text("x")), ("method", text("initialize"))]));
    assert_eq!(
        init.get("result").unwrap().get("protocolVersion").unwrap().as_str(),
        Some("2026-01-01")
    );
    let health = handle_request(&object(vec![("method", text("health"))]));
    assert_eq!(health.get("result").unwrap().get("ok"), Some(&Json::Bool(true)));
    let bye = handle_request(&object(vec![("method", text("shutdown"))]));
    assert_eq!(bye.get("result"), Some(&Json::Null));
    let unknown = handle_request(&object(vec![("id", Json::Int(2)), ("method", text("nope"))]));
    assert_eq!(unknown.get("error").unwrap().get("code"), Some(&Json::Int(-32601)));
    assert_eq!(unknown.get("id"), Some(&Json::Int(2)));
    let not_object = handle_request(&Json::Array(vec![]));
    assert_eq!(not_object.get("error").unwrap().get("code"), Some(&Json::Int(-32601)));
}

#[test]
fn echo_lines_stop_skip_or_reply() {
    assert_eq!(handle_line(1024 * 1024 + 1, Some(Json::Null)), LineOutcome::Stop);
    assert_eq!(handle_line(1024 * 1024, None), LineOutcome::Skip);
    assert!(matches!(handle_line(2, Some(object(vec![]))), LineOutcome::Reply(_)));
}
