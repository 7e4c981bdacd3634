use petagent_plugins::disk::{
    handle_line, handle_request, tool_descriptor, usage_reply, usage_totals, used_bytes, DiskReply,
    DiskSpace, DiskStep, UsageTotals, TOOL_NAME,
};
use petagent_plugins::json::Json;
use petagent_plugins::rpc::strip_bom;

fn text(s: &str) -> Json {
    Json::Str(s.to_string())
}

fn object(fields: Vec<(&str, Json)>) -> Json {
    Json::Object(fields.into_iter().map(|(k, v)| (k.to_string(), v)).collect())
}

fn at<'a>(j: &'a Json, i: usize) -> &'a Json {
    match j {
        Json::Array(items) => &items[i],
        _ => panic!("not an array"),
    }
}

fn reply_of(r: DiskReply) -> Json {
    match r {
        DiskReply::Reply(j) => j,
        DiskReply::CollectUsage { .. } => panic!("expected a reply"),
    }
}

#[test]
fn lists_disk_usage_tool() {
    let output = reply_of(handle_request(
        &object(vec![
            ("jsonrpc", text("2.0")),
            ("id", Json::Int(7)),
            ("method", text("tools/list")),
            ("params", object(vec![])),
        ]),
        "0.1.0",
    ));
    assert_eq!(output.get("id"), Some(&Json::Int(7)));
    let tool = at(output.get("result").unwrap().get("tools").unwrap(), 0);
    assert_eq!(tool.get("name").unwrap().as_str(), Some(TOOL_NAME));
    assert_eq!(
        tool.get("inputSchema").unwrap().get("additionalProperties"),
        Some(&Json::Bool(false))
    );
}

#[test]
fn rejects_unknown_tool_names() {
    let output = reply_of(handle_request(
        &object(vec![
            ("jsonrpc", text("2.0")),
            ("id", Json::Int(9)),
            ("method", text("tools/call")),
            ("params", object(vec![("name", text("missing")), ("arguments", object(vec![]))])),
        ]),
        "0.1.0",
    ));
    assert_eq!(output.get("error").unwrap().get("code"), Some(&Json::Int(-32602)));
}

#[test]
fn tool_call_asks_for_the_disks_and_answers_with_text() {
    let request = object(vec![
        ("jsonrpc", text("2.0")),
        ("id", text("disk-test")),
        ("method", text("tools/call")),
        ("params", object(vec![("name", text("disk_usage")), ("arguments", object(vec![]))])),
    ]);
    match handle_request(&request, "0.1.0") {
        DiskReply::CollectUsage { id } => {
            assert_eq!(id, text("disk-test"));
            let reply = usage_reply(id, "{\"diskCount\":0}");
            let result = reply.get("result").unwrap();
            assert_eq!(result.get("isError"), Some(&Json::Bool(false)));
            let part = at(result.get("content").unwrap(), 0);
            assert_eq!(part.get("type").unwrap().as_str(), Some("text"));
            assert_eq!(part.get("text").unwrap().as_str(), Some("{\"diskCount\":0}"));
        },
        _ => panic!("expected a request for the disks"),
    }
}

#[test]
fn refuses_requests_that_are_not_json_rpc_two() {
    let missing = reply_of(handle_request(&object(vec![("method", text("health"))]), "1"));
    assert_eq!(missing.get("error").unwrap().get("code"), Some(&Json::Int(-32600)));
    assert_eq!(
        missing.get("error").unwrap().get("message").unwrap().as_str(),
        Some("invalid JSON-RPC version")
    );
    let no_method = reply_of(handle_request(&object(vec![("jsonrpc", text("2.0")), ("id", Json::Int(1))]), "1"));
    assert_eq!(
        no_method.get("error").unwrap().get("message").unwrap().as_str(),
        Some("method is required")
    );
    assert_eq!(no_method.get("id"), Some(&Json::Int(1)));
}

#[test]
fn answers_lifecycle_methods() {
    let init = reply_of(handle_request(
        &object(vec![("jsonrpc", text("2.0")), ("id", Json::Int(1)), ("method", text("initialize"))]),
        "9.9.9",
    ));
    let info = init.get("result").unwrap().get("serverInfo").unwrap();
    assert_eq!(info.get("name").unwrap().as_str(), Some("disk-usage-mcp"));
    assert_eq!(info.get("version").unwrap().as_str(), Some("9.9.9"));
    let caps = reply_of(handle_request(
        &object(vec![("jsonrpc", text("2.0")), ("method", text("capabilities"))]),
        "1",
    ));
    assert_eq!(at(caps.get("result").unwrap().get("capabilities").unwrap(), 0), &tool_descriptor());
    assert_eq!(caps.get("id"), Some(&Json::Null));
    let bye = reply_of(handle_request(
        &object(vec![("jsonrpc", text("2.0")), ("method", text("shutdown"))]),
        "1",
    ));
    assert_eq!(bye.get("result"), Some(&Json::Null));
    let other = reply_of(handle_request(
        &object(vec![("jsonrpc", text("2.0")), ("method", text("format"))]),
        "1",
    ));
    assert_eq!(other.get("error").unwrap().get("code"), Some(&Json::Int(-32601)));
}

#[test]
fn disk_lines_carry_size_and_parse_errors() {
    match handle_line(1024 * 1024 + 1, Some(Json::Null), "1") {
        DiskStep::Reply { reply, shutdown } => {
            assert!(!shutdown);
            assert_eq!(reply.get("id"), Some(&Json::Null));
            assert_eq!(reply.get("error").unwrap().get("code"), Some(&Json::Int(-32600)));
            assert_eq!(
                reply.get("error").unwrap().get("message").unwrap().as_str(),
                Some("request exceeds 1 MiB")
            );
        },
        _ => panic!("expected a reply"),
    }
    match handle_line(4, None, "1") {
        DiskStep::Reply { reply, shutdown } => {
            assert!(!shutdown);
            assert_eq!(reply.get("error").unwrap().get("code"), Some(&Json::Int(-32700)));
        },
        _ => panic!("expected a reply"),
    }
}

#[test]
fn disk_service_stops_on_shutdown_even_when_refused() {
    match handle_line(20, Some(object(vec![("method", text("shutdown"))])), "1") {
        DiskStep::Reply { reply, shutdown } => {
            assert!(shutdown);
            assert_eq!(reply.get("error").unwrap().get("code"), Some(&Json::Int(-32600)));
        },
        _ => panic!("expected a reply"),
    }
    match handle_line(20, Some(object(vec![("jsonrpc", text("2.0")), ("method", text("shutdown"))])), "1") {
        DiskStep::Reply { reply, shutdown } => {
            assert!(shutdown);
            assert_eq!(reply.get("result"), Some(&Json::Null));
        },
        _ => panic!("expected a reply"),
    }
}

#[test]
fn strips_the_byte_order_mark() {
    assert_eq!(strip_bom("\u{feff}{}"), "{}");
    assert_eq!(strip_bom("{}"), "{}");
    assert_eq!(strip_bom(""), "");
}

#[test]
fn used_space_saturates() {
    assert_eq!(used_bytes(100, 25), 75);
    assert_eq!(used_bytes(10, 25), 0);
    assert_eq!(used_bytes(0, 0), 0);
}

#[test]
fn totals_are_saturating_sums() {
    let totals = usage_totals(&vec![
        DiskSpace { total: 100, available: 40 },
        DiskSpace { total: 50, available: 50 },
    ]);
    assert_eq!(totals, UsageTotals { total: 150, used: 60, available: 90 });
    let huge = usage_totals(&vec![
        DiskSpace { total: u64::MAX, available: 1 },
        DiskSpace { total: 5, available: 2 },
    ]);
    assert_eq!(huge, UsageTotals { total: u64::MAX, used: u64::MAX - 3, available: 3 });
    assert_eq!(usage_totals(&vec![]), UsageTotals { total: 0, used: 0, available: 0 });
}

fn keys(j: &Json) -> Vec<&str> {
    match j {
        Json::Object(fields) => fields.iter().map(|(k, _)| k.as_str()).collect(),
        _ => panic!("not an object"),
    }
}

#[test]
fn disk_replies_have_three_keys() {
    let ok = reply_of(handle_request(
        &object(vec![("jsonrpc", text("2.0")), ("id", Json::Int(3)), ("method", text("health"))]),
        "1",
    ));
    assert_eq!(keys(&ok), ["jsonrpc", "id", "result"]);
    let refused = reply_of(handle_request(&object(vec![("id", Json::Int(3))]), "1"));
    assert_eq!(keys(&refused), ["jsonrpc", "id", "error"]);
}

#[test]
fn tool_arguments_change_nothing() {
    let call = |arguments: Json| {
        handle_request(
            &object(vec![
                ("jsonrpc", text("2.0")),
                ("id", Json::Int(5)),
                ("method", text("tools/call")),
                ("params", object(vec![("name", text("missing")), ("arguments", arguments)])),
            ]),
            "1",
        )
    };
    assert_eq!(call(object(vec![])), call(object(vec![("path", text("C:\\"))])));
    let ok = |arguments: Json| {
        handle_request(
            &object(vec![
                ("jsonrpc", text("2.0")),
                ("id", Json::Int(6)),
                ("method", text("tools/call")),
                ("params", object(vec![("name", text("disk_usage")), ("arguments", arguments)])),
            ]),
            "1",
        )
    };
    assert_eq!(ok(Json::Null), DiskReply::CollectUsage { id: Json::Int(6) });
    assert_eq!(ok(object(vec![("x", Json::Int(1))])), DiskReply::CollectUsage { id: Json::Int(6) });
}

#[test]
fn disk_errors_come_in_order() {
    let code = |request: Json| {
        match reply_of(handle_request(&request, "1")).get("error").unwrap().get("code") {
            Some(Json::Int(c)) => Some(Json::Int(*c)),
            _ => None,
        }
    };
    assert_eq!(code(object(vec![("jsonrpc", text("1.0")), ("method", text("nope"))])), Some(Json::Int(-32600)));
    assert_eq!(code(object(vec![("jsonrpc", text("2.0")), ("method", Json::Int(1))])), Some(Json::Int(-32600)));
    assert_eq!(code(object(vec![("jsonrpc", text("2.0")), ("method", text("nope"))])), Some(Json::Int(-32601)));
    assert_eq!(
        code(object(vec![("jsonrpc", text("2.0")), ("method", text("tools/call"))])),
        Some(Json::Int(-32602))
    );
}
