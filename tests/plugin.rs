use rpc_plugin::dispatch::{decode_add_params, dispatch, handle, handle_add, lookup_method, respond, AddParams, Method};
use rpc_plugin::envelope::{decode_request, encode_reply, encode_request, Reply, Request};
use rpc_plugin::json::{encode_json, parse_json, Json};

fn obj(members: Vec<(&str, Json)>) -> Json {
    Json::Object(members.into_iter().map(|(k, v)| (k.to_string(), v)).collect())
}

fn linux(payload: &str) -> String {
    handle(payload, "linux", "x86_64")
}

#[test]
fn add_returns_sum() {
    assert_eq!(linux(r#"{"method":"add","params":{"a":2,"b":3},"settings":{}}"#), r#"{"sum":5}"#);
}

#[test]
fn add_negative_operands() {
    assert_eq!(linux(r#"{"method":"add","params":{"a":-7,"b":4}}"#), r#"{"sum":-3}"#);
}

#[test]
fn add_at_the_limits() {
    let p = format!(r#"{{"method":"add","params":{{"a":{},"b":0}}}}"#, i32::MAX);
    assert_eq!(linux(&p), format!(r#"{{"sum":{}}}"#, i32::MAX));
}

#[test]
fn add_wraps_on_overflow() {
    assert_eq!(handle_add(&AddParams { a: i32::MAX, b: 1 }), i32::MIN);
    assert_eq!(handle_add(&AddParams { a: i32::MIN, b: -1 }), i32::MAX);
    assert_eq!(handle_add(&AddParams { a: 40, b: 2 }), 42);
}

#[test]
fn unknown_method_is_echoed() {
    assert_eq!(linux(r#"{"method":"multiply","params":{}}"#), r#"{"error":"Method 'multiply' not found"}"#);
}

#[test]
fn unknown_method_with_quotes_stays_valid_json() {
    let out = linux(r#"{"method":"x\"y","params":null}"#);
    assert_eq!(out, r#"{"error":"Method 'x\"y' not found"}"#);
    assert!(parse_json(&out).is_ok());
}

#[test]
fn add_with_text_operand_is_an_error() {
    let out = linux(r#"{"method":"add","params":{"a":"not-an-int"}}"#);
    assert_eq!(out, r#"{"error":"Invalid params for add: field `a` is not a 32-bit integer"}"#);
}

#[test]
fn add_with_missing_operand_is_an_error() {
    let out = linux(r#"{"method":"add","params":{"a":1}}"#);
    assert_eq!(out, r#"{"error":"Invalid params for add: missing field `b`"}"#);
}

#[test]
fn add_with_out_of_range_operand_is_an_error() {
    let out = linux(r#"{"method":"add","params":{"a":1,"b":2147483648}}"#);
    assert_eq!(out, r#"{"error":"Invalid params for add: field `b` is not a 32-bit integer"}"#);
    let out = linux(r#"{"method":"add","params":{"a":1.5,"b":2}}"#);
    assert_eq!(out, r#"{"error":"Invalid params for add: field `a` is not a 32-bit integer"}"#);
}

#[test]
fn add_params_must_be_an_object() {
    assert_eq!(
        decode_add_params(&Json::Array(vec![Json::Int(1), Json::Int(2)])),
        Err("expected an object with members `a` and `b`".to_string())
    );
    assert_eq!(
        decode_add_params(&obj(vec![("b", Json::Int(9)), ("a", Json::Int(-1)), ("c", Json::Null)])),
        Ok(AddParams { a: -1, b: 9 })
    );
}

#[test]
fn system_info_reports_platform() {
    let out = handle(r#"{"method":"getSystemInfo","params":null}"#, "macos", "aarch64");
    assert_eq!(out, r#"{"os":"macos","arch":"aarch64","plugin_version":"1.0.0"}"#);
}

#[test]
fn system_info_version_is_stable() {
    let a = linux(r#"{"method":"getSystemInfo","params":{}}"#);
    let b = linux(r#"{"method":"getSystemInfo","params":[1,2]}"#);
    assert_eq!(a, b);
}

#[test]
fn text_that_is_not_json_is_an_error() {
    let out = linux("not json");
    assert!(out.starts_with(r#"{"error":"Invalid input format: "#), "{}", out);
    let out = linux("");
    assert!(out.starts_with(r#"{"error":"Invalid input format: "#), "{}", out);
}

#[test]
fn request_shape_errors() {
    assert_eq!(linux("[1]"), r#"{"error":"Invalid input format: a request must be an object"}"#);
    assert_eq!(linux(r#"{"params":{}}"#), r#"{"error":"Invalid input format: missing field `method`"}"#);
    assert_eq!(linux(r#"{"method":7,"params":{}}"#), r#"{"error":"Invalid input format: field `method` is not a string"}"#);
    assert_eq!(linux(r#"{"method":"add"}"#), r#"{"error":"Invalid input format: missing field `params`"}"#);
    assert_eq!(
        linux(r#"{"method":"add","params":{"a":1,"b":1},"settings":3}"#),
        r#"{"error":"Invalid input format: field `settings` is not an object"}"#
    );
}

#[test]
fn method_table() {
    assert_eq!(lookup_method(&"add".to_string()), Some(Method::Add));
    assert_eq!(lookup_method(&"getSystemInfo".to_string()), Some(Method::GetSystemInfo));
    assert_eq!(lookup_method(&"Add".to_string()), None);
}

#[test]
fn parse_json_reads_values() {
    let v = parse_json(r#"{"k":[true,null,-3,2.5,18446744073709551615,"s"]}"#).unwrap();
    assert_eq!(
        v,
        obj(vec![(
            "k",
            Json::Array(vec![
                Json::Bool(true),
                Json::Null,
                Json::Int(-3),
                Json::OtherNumber("2.5".to_string()),
                Json::OtherNumber("18446744073709551615".to_string()),
                Json::Str("s".to_string()),
            ])
        )])
    );
    assert!(parse_json("{").is_err());
}

#[test]
fn encode_json_writes_text() {
    let v = obj(vec![("z", Json::Int(1)), ("a", Json::Str("q".to_string()))]);
    assert_eq!(encode_json(&v), r#"{"z":1,"a":"q"}"#);
}

#[test]
fn request_round_trip() {
    let req = Request {
        method: "add".to_string(),
        params: obj(vec![("a", Json::Int(1)), ("b", Json::Int(2))]),
        settings: Some(vec![("trace".to_string(), Json::Bool(true))]),
    };
    let expected = Request {
        method: "add".to_string(),
        params: obj(vec![("a", Json::Int(1)), ("b", Json::Int(2))]),
        settings: Some(vec![("trace".to_string(), Json::Bool(true))]),
    };
    assert_eq!(decode_request(encode_request(req)), Ok(expected));
}

#[test]
fn request_round_trip_through_text() {
    let req = Request { method: "getSystemInfo".to_string(), params: Json::Null, settings: None };
    let text = encode_json(&encode_request(req));
    let back = decode_request(parse_json(&text).unwrap()).unwrap();
    assert_eq!(back, Request { method: "getSystemInfo".to_string(), params: Json::Null, settings: None });
}

#[test]
fn reply_round_trip_through_text() {
    let text = encode_json(&encode_reply(Reply::Error("boom".to_string())));
    assert_eq!(text, r#"{"error":"boom"}"#);
    assert_eq!(parse_json(&text).unwrap(), obj(vec![("error", Json::Str("boom".to_string()))]));
    let text = encode_json(&encode_reply(Reply::Sum(-4)));
    assert_eq!(parse_json(&text).unwrap(), obj(vec![("sum", Json::Int(-4))]));
}

#[test]
fn dispatch_and_respond_directly() {
    let req = Request { method: "nope".to_string(), params: Json::Null, settings: None };
    assert_eq!(dispatch(&req, "linux", "x86_64"), Reply::Error("Method 'nope' not found".to_string()));
    assert_eq!(
        respond(Err("bad".to_string()), "linux", "x86_64"),
        Reply::Error("Invalid input format: bad".to_string())
    );
}

#[test]
fn same_payload_gives_same_answer() {
    let p = r#"{"method":"add","params":{"a":10,"b":20},"settings":{"x":1}}"#;
    assert_eq!(linux(p), linux(p));
}
