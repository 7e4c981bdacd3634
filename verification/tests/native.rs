use petagent_plugins::json::Json;
use petagent_plugins::native::{frame_output, input_fits, probe_call, Buffer, HostApi, API_VERSION};

fn text(s: &str) -> Json {
    Json::Str(s.to_string())
}

fn method(name: &str) -> Json {
    Json::Object(vec![("method".to_string(), text(name))])
}

#[test]
fn probe_answers_its_methods() {
    let health = probe_call(Some(method("health")));
    assert_eq!(health.get("message").unwrap().as_str(), Some("native probe ready"));
    let invoke = probe_call(Some(method("invoke")));
    assert_eq!(invoke.get("value").unwrap().as_str(), Some("native probe"));
    let caps = probe_call(Some(method("capabilities")));
    match caps.get("capabilities").unwrap() {
        Json::Array(items) => assert_eq!(items[0].get("name").unwrap().as_str(), Some("native.probe")),
        _ => panic!("not an array"),
    }
}

#[test]
fn probe_reads_bad_input_as_an_unknown_method() {
    let reply = probe_call(None);
    assert_eq!(reply.get("ok"), Some(&Json::Bool(false)));
    assert_eq!(reply.get("error").unwrap().as_str(), Some("unknown method"));
}

#[test]
fn output_frames_are_bounded() {
    assert_eq!(frame_output(vec![]), Err(4));
    assert_eq!(frame_output(vec![0; 1024 * 1024 + 1]), Err(4));
    assert_eq!(frame_output(vec![1, 2, 3]), Ok(Buffer { data: vec![1, 2, 3], len: 3 }));
    assert_eq!(Buffer::from_bytes(vec![]).len, 0);
}

#[test]
fn input_limit_is_one_mebibyte() {
    assert!(input_fits(1024 * 1024));
    assert!(!input_fits(1024 * 1024 + 1));
    let host = HostApi { struct_size: 8, api_version: API_VERSION };
    assert_eq!(host.api_version, 1);
}
