use command_bridge::bridge::{
    build_envelope, finish_dispatch, from_native, resolve_search_path, to_native, Bridge,
    BridgeError, CallFailure, InitError, InitPlan,
};

fn value(text: &str) -> serde_json::Value {
    serde_json::from_str(text).unwrap()
}

#[test]
fn test_path_resolution() {
    let dev = Some("/work/src".to_string());
    let path = resolve_search_path(dev.clone(), true, "/work/app".to_string());
    assert_eq!(path, "/work/src");
    let path = resolve_search_path(dev, false, "/work/app".to_string());
    assert_eq!(path, "/work/app");
    let path = resolve_search_path(None, false, "/".to_string());
    assert_eq!(path, "/");
    let path = resolve_search_path(None, true, "/".to_string());
    assert_eq!(path, "/");
}

#[test]
fn new_bridge_plans_a_load() {
    let bridge: Bridge<String> = Bridge::new();
    assert!(!bridge.is_initialized());
    assert_eq!(bridge.init_plan(), InitPlan::Load);
    assert!(bridge.handle().is_none());
}

#[test]
fn second_init_keeps_the_first_handle() {
    let mut bridge: Bridge<String> = Bridge::new();
    assert!(bridge.finish_init("a".to_string(), Ok("first".to_string())).is_ok());
    assert!(bridge.is_initialized());
    assert_eq!(bridge.init_plan(), InitPlan::Reuse);
    assert!(bridge.finish_init("b".to_string(), Err("late failure".to_string())).is_ok());
    assert!(bridge.finish_init("c".to_string(), Ok("second".to_string())).is_ok());
    assert_eq!(bridge.handle().map(|h| h.as_str()), Some("first"));
}

#[test]
fn failed_load_is_module_not_found() {
    let mut bridge: Bridge<u8> = Bridge::new();
    let r = bridge.finish_init("a".to_string(), Err("No module named 'core'".to_string()));
    match r {
        Err(InitError::ModuleNotFound(detail)) => assert_eq!(detail, "No module named 'core'"),
        Ok(()) => panic!("a failed load must be reported"),
    }
    assert!(!bridge.is_initialized());
    assert_eq!(bridge.init_plan(), InitPlan::Load);
    let e = InitError::ModuleNotFound("x".to_string()).into_bridge_error();
    assert_eq!(e.describe(), "Init Failed: x");
}

#[test]
fn errors_are_described_flatly() {
    assert_eq!(BridgeError::Init("a".to_string()).describe(), "Init Failed: a");
    assert_eq!(
        BridgeError::Serialization("b".to_string()).describe(),
        "Serialization Error: b"
    );
    assert_eq!(
        BridgeError::Execution("c".to_string()).describe(),
        "Python Execution Error: c"
    );
}

#[test]
fn round_trip_of_nested_values() {
    let texts = [
        "null",
        "true",
        "false",
        "0",
        "-17",
        "18446744073709551615",
        "\"text with \\\"quotes\\\" and \\n\"",
        "[]",
        "{}",
        r#"[1,[2,[3,null]],{"a":[true,false]}]"#,
        r#"{"cmd":"backup.start","payload":{"target_dir":"C:\\Test","depth":3,"tags":["a","b"],"none":null}}"#,
    ];
    for text in texts {
        let v = value(text);
        let native = to_native(&v).unwrap();
        let back = from_native(&native).unwrap();
        assert_eq!(back, v);
    }
}

#[test]
fn to_native_writes_compact_json() {
    let v = value(r#" { "b" : [ 1 , 2 ] , "a" : "x" } "#);
    let native = to_native(&v).unwrap();
    assert_eq!(value(&native), v);
    assert!(!native.contains(' '));
    assert_eq!(to_native(&value("{}")).unwrap(), "{}");
    assert_eq!(to_native(&value("[1, 2]")).unwrap(), "[1,2]");
}

#[test]
fn from_native_refuses_what_is_no_json() {
    for text in ["", "{", "{'a': 1}", "nul", "[1,]"] {
        match from_native(text) {
            Err(BridgeError::Serialization(_)) => {}
            other => panic!("expected a serialization error, got {:?}", other),
        }
    }
}

#[test]
fn envelope_holds_command_and_payload_text() {
    let payload = value(r#"{"file_path":"a.cvbak"}"#);
    let envelope = build_envelope("restore.start", &payload).unwrap();
    assert_eq!(envelope.command, "restore.start");
    assert_eq!(envelope.payload, r#"{"file_path":"a.cvbak"}"#);
}

#[test]
fn unknown_command_reply_is_passed_on_unchanged() {
    let envelope = build_envelope("unknown.command", &value("{}")).unwrap();
    assert_eq!(envelope.command, "unknown.command");
    assert_eq!(envelope.payload, "{}");
    let reply = r#"{"status": "error", "message": "no handler"}"#.to_string();
    let result = finish_dispatch(Ok(reply)).unwrap();
    assert_eq!(result["status"], "error");
    assert_eq!(result["message"], "no handler");
}

#[test]
fn backend_fault_is_an_execution_error() {
    match finish_dispatch(Err(CallFailure::Fault("ValueError: bad".to_string()))) {
        Err(BridgeError::Execution(detail)) => assert_eq!(detail, "ValueError: bad"),
        other => panic!("expected an execution error, got {:?}", other),
    }
}

#[test]
fn unreadable_result_is_a_serialization_error() {
    match finish_dispatch(Ok("not json".to_string())) {
        Err(BridgeError::Serialization(_)) => {}
        other => panic!("expected a serialization error, got {:?}", other),
    }
}

#[test]
fn search_path_is_recorded_with_the_first_load() {
    let mut bridge: Bridge<u8> = Bridge::new();
    assert!(bridge.search_path().is_none());
    assert!(bridge.finish_init("/work/src".to_string(), Ok(1)).is_ok());
    assert!(bridge.finish_init("/other".to_string(), Ok(2)).is_ok());
    assert_eq!(bridge.search_path().map(|p| p.as_str()), Some("/work/src"));
}

#[test]
fn unconvertible_value_is_a_serialization_error() {
    let refused = CallFailure::Conversion("RecursionError: too deep".to_string());
    match finish_dispatch(Err(refused)) {
        Err(e @ BridgeError::Serialization(_)) => {
            assert_eq!(e.describe(), "Serialization Error: RecursionError: too deep")
        }
        other => panic!("expected a serialization error, got {:?}", other),
    }
}

#[test]
fn every_payload_has_an_envelope() {
    for text in ["null", "1.5", "\"\"", "[[[[[[]]]]]]", r#"{"a":{"b":{"c":[1,2,{"d":null}]}}}"#] {
        let payload = value(text);
        assert!(to_native(&payload).is_ok());
        let envelope = build_envelope("any", &payload).unwrap();
        assert_eq!(value(&envelope.payload), payload);
    }
}
