use dab_rdk_bridge::dab::{self, Request};
use dab_rdk_bridge::error::BridgeError;
use dab_rdk_bridge::key_press::keycode_str_to_ui32;
use dab_rdk_bridge::router::{command_name_of, reply_topic_of, Bridge, Handler, Outbound, Registry, Step};
use dab_rdk_bridge::rpc::{self, get_request_id, Exchange, RequestIds, SimpleError, SimpleResponse, SimpleResult};
use dab_rdk_bridge::{health_check, restart, version};

fn no_params() -> Result<Request, BridgeError> {
    Ok(Request { appId: None, force: None, keyCode: None })
}

fn key(k: &str) -> Result<Request, BridgeError> {
    Ok(Request { appId: None, force: None, keyCode: Some(k.to_string()) })
}

fn published(step: Step) -> Outbound {
    match step {
        Step::Publish(o) => o,
        Step::Send(f, _) => panic!("expected a reply, got a frame to send: {}", f),
    }
}

fn sent(step: Step) -> (String, Handler) {
    match step {
        Step::Send(f, h) => (f, h),
        Step::Publish(o) => panic!("expected a frame to send, got a reply: {}", o.payload),
    }
}

fn device_reply(success: Option<bool>, message: Option<&str>) -> SimpleResponse {
    SimpleResponse {
        jsonrpc: "2.0".to_string(),
        id: 1,
        result: success.map(|s| SimpleResult { success: s }),
        error: message.map(|m| SimpleError { success: false, code: 1, message: m.to_string() }),
    }
}

#[test]
fn success_envelope_round_trip() {
    let text = dab::respond_success().unwrap();
    assert_eq!(text, "{\"status\":200}");
    let v: serde_json::Value = serde_json::from_str(&text).unwrap();
    let obj = v.as_object().unwrap();
    assert_eq!(obj.len(), 1);
    assert_eq!(obj.get("status").unwrap().as_u64(), Some(200));
}

#[test]
fn code_envelopes() {
    assert_eq!(dab::respond_not_implemented().unwrap(), "{\"status\":501}");
    assert_eq!(dab::respond_with_code(0).unwrap(), "{\"status\":0}");
    assert_eq!(dab::respond_with_code(65535).unwrap(), "{\"status\":65535}");
    assert_eq!(dab::respond_with_code(404).unwrap(), "{\"status\":404}");
}

#[test]
fn error_envelope_escapes_message() {
    let text = dab::respond_error(500, "say \"hi\"\n".to_string()).unwrap();
    assert_eq!(text, "{\"status\":500,\"error\":\"say \\\"hi\\\"\\n\"}");
    let v: serde_json::Value = serde_json::from_str(&text).unwrap();
    assert_eq!(v.get("error").unwrap().as_str(), Some("say \"hi\"\n"));
    assert_eq!(dab::respond_error(400, String::new()).unwrap(), "{\"status\":400,\"error\":\"\"}");
}

#[test]
fn command_name_strips_last_segment() {
    assert_eq!(command_name_of("dab/version/abc-123"), "dab/version");
    assert_eq!(command_name_of("dab/input/key-press/x"), "dab/input/key-press");
    assert_eq!(command_name_of("single"), "");
    assert_eq!(command_name_of("dab/"), "dab");
    assert_eq!(command_name_of(""), "");
    assert_eq!(reply_topic_of("dab/version/abc"), "_response/dab/version/abc");
}

#[test]
fn registry_binds_and_replaces() {
    let mut r = Registry::new();
    assert_eq!(r.lookup(&"dab/version".to_string()), None);
    r.register("dab/version".to_string(), Handler::Version);
    r.register("dab/other".to_string(), Handler::Restart);
    assert_eq!(r.lookup(&"dab/version".to_string()), Some(Handler::Version));
    r.register("dab/version".to_string(), Handler::HealthCheck);
    assert_eq!(r.lookup(&"dab/version".to_string()), Some(Handler::HealthCheck));
    assert_eq!(r.lookup(&"dab/other".to_string()), Some(Handler::Restart));
    assert_eq!(r.lookup(&"dab".to_string()), None);
}

#[test]
fn unknown_command_is_not_implemented() {
    let mut b = Bridge::new(Registry::standard());
    let o = published(b.dispatch("dab/applications/list/42", no_params()));
    assert_eq!(o.topic, "_response/dab/applications/list/42");
    assert_eq!(o.payload, "{\"status\":501}");
    let o = published(b.dispatch("dab/version", no_params()));
    assert_eq!(o.topic, "_response/dab/version");
    assert_eq!(o.payload, "{\"status\":501}");
    assert!(b.idle());
}

#[test]
fn health_check_ignores_payload() {
    let mut b = Bridge::new(Registry::standard());
    let o = published(b.dispatch("dab/health-check/get/1", no_params()));
    assert_eq!(o.topic, "_response/dab/health-check/get/1");
    assert_eq!(o.payload, "{\"status\":200}");
    let o = published(b.dispatch("dab/health-check/get/2", Err(BridgeError::Decode("bad".to_string()))));
    assert_eq!(o.payload, "{\"status\":200}");
    assert_eq!(health_check::process().unwrap(), "{\"status\":200}");
}

#[test]
fn version_ignores_payload() {
    let mut b = Bridge::new(Registry::standard());
    let o = published(b.dispatch("dab/version/7", no_params()));
    assert_eq!(o.topic, "_response/dab/version/7");
    assert_eq!(o.payload, "{\"versions\":[\"1.0\"]}");
    let o = published(b.dispatch("dab/version/8", Err(BridgeError::Decode("bad".to_string()))));
    assert_eq!(o.payload, "{\"versions\":[\"1.0\"]}");
    assert_eq!(version::process().unwrap(), "{\"versions\":[\"1.0\"]}");
}

#[test]
fn version_lists() {
    let none = version::Response { versions: vec![] };
    assert_eq!(none.encode(), "{\"versions\":[]}");
    let two = version::Response { versions: vec!["1.0".to_string(), "2.0".to_string()] };
    assert_eq!(two.encode(), "{\"versions\":[\"1.0\",\"2.0\"]}");
}

#[test]
fn key_press_without_key_code() {
    let mut b = Bridge::new(Registry::standard());
    let o = published(b.dispatch("dab/input/key-press/u1", no_params()));
    assert_eq!(o.topic, "_response/dab/input/key-press/u1");
    assert_eq!(o.payload, "{\"status\":400,\"error\":\"request missing 'keyCode' parameter\"}");
    assert!(b.idle());
}

#[test]
fn key_press_with_undecodable_payload() {
    let mut b = Bridge::new(Registry::standard());
    let o = published(b.dispatch("dab/input/key-press/u1", Err(BridgeError::Decode("expected value".to_string()))));
    assert_eq!(o.payload, "{\"status\":500,\"error\":\"expected value\"}");
}

#[test]
fn key_press_remote_failure() {
    let mut b = Bridge::new(Registry::standard());
    let (frame, handler) = sent(b.dispatch("dab/input/key-press/u2", key("KEY_ENTER")));
    assert_eq!(handler, Handler::KeyPress);
    assert_eq!(
        frame,
        "{\"jsonrpc\":\"2.0\",\"id\":1,\"method\":\"org.rdk.RDKShell.injectKey\",\"params\":{\"keyCode\":13,\"modifiers\":\"\"}}"
    );
    assert!(!b.idle());
    let o = b.complete(Exchange::Reply(device_reply(Some(false), Some("X"))));
    assert_eq!(o.topic, "_response/dab/input/key-press/u2");
    assert_eq!(o.payload, "{\"status\":500,\"error\":\"RPC request failed: X\"}");
    assert!(b.idle());
}

#[test]
fn key_press_remote_failure_without_message() {
    let mut b = Bridge::new(Registry::standard());
    sent(b.dispatch("dab/input/key-press/u3", key("KEY_UP")));
    let o = b.complete(Exchange::Reply(device_reply(None, None)));
    assert_eq!(o.payload, "{\"status\":500,\"error\":\"RPC request failed: unknown error\"}");
}

#[test]
fn key_press_success() {
    let mut b = Bridge::new(Registry::standard());
    sent(b.dispatch("dab/input/key-press/u4", key("KEY_NOT_A_KEY")));
    let o = b.complete(Exchange::Reply(device_reply(Some(true), None)));
    assert_eq!(o.topic, "_response/dab/input/key-press/u4");
    assert_eq!(o.payload, "{\"status\":200}");
}

#[test]
fn transport_failures() {
    let mut b = Bridge::new(Registry::standard());
    sent(b.dispatch("dab/input/key-press/a", key("KEY_0")));
    let o = b.complete(Exchange::<SimpleResponse>::SendFailed);
    assert_eq!(o.payload, "{\"status\":500,\"error\":\"unable to send RPC request to device\"}");
    sent(b.dispatch("dab/input/key-press/b", key("KEY_0")));
    let o = b.complete(Exchange::<SimpleResponse>::NonText);
    assert_eq!(o.payload, "{\"status\":500,\"error\":\"non-text response received\"}");
    sent(b.dispatch("dab/input/key-press/c", key("KEY_0")));
    let o = b.complete(Exchange::<SimpleResponse>::ReadFailed("closed".to_string()));
    assert_eq!(o.payload, "{\"status\":500,\"error\":\"WebSocket error: closed\"}");
    sent(b.dispatch("dab/input/key-press/d", key("KEY_0")));
    let o = b.complete(Exchange::<SimpleResponse>::Undecodable("missing field `id`".to_string()));
    assert_eq!(o.topic, "_response/dab/input/key-press/d");
    assert_eq!(o.payload, "{\"status\":500,\"error\":\"missing field `id`\"}");
}

#[test]
fn restart_frames_take_fresh_ids() {
    let mut b = Bridge::new(Registry::standard());
    let (frame, handler) = sent(b.dispatch("dab/system/restart/r1", no_params()));
    assert_eq!(handler, Handler::Restart);
    assert_eq!(
        frame,
        "{\"jsonrpc\":\"2.0\",\"id\":1,\"method\":\"org.rdk.System.reboot\",\"params\":{\"reason\":\"DAB_RESTART_REQUEST\"}}"
    );
    let reply = restart::Response {
        jsonrpc: "2.0".to_string(),
        id: 1,
        result: Some(restart::Result { IARM_Bus_Call_STATUS: Some(0), success: true }),
        error: None,
    };
    let o = b.complete(Exchange::Reply(reply));
    assert_eq!(o.topic, "_response/dab/system/restart/r1");
    assert_eq!(o.payload, "{\"status\":200}");
    let (frame, _) = sent(b.dispatch("dab/system/restart/r2", no_params()));
    assert!(frame.contains("\"id\":2,"));
}

#[test]
fn request_ids_count_from_one() {
    let mut ids = RequestIds::new();
    assert!(ids.can_issue());
    assert_eq!(get_request_id(&mut ids), 1);
    assert_eq!(get_request_id(&mut ids), 2);
    assert_eq!(get_request_id(&mut ids), 3);
}

#[test]
fn key_codes() {
    let table = [
        ("KEY_POWER", 112), ("KEY_VOLUME_UP", 175), ("KEY_VOLUME_DOWN", 174), ("KEY_MUTE", 173),
        ("KEY_CHANNEL_UP", 175), ("KEY_CHANNEL_DOWN", 174), ("KEY_MENU", 0), ("KEY_EXIT", 36),
        ("KEY_UP", 38), ("KEY_RIGHT", 39), ("KEY_DOWN", 40), ("KEY_LEFT", 37), ("KEY_ENTER", 13),
        ("KEY_BACK", 0), ("KEY_0", 48), ("KEY_5", 53), ("KEY_9", 57),
    ];
    for (k, c) in table {
        assert_eq!(keycode_str_to_ui32(k.to_string()), c, "{}", k);
        assert_eq!(keycode_str_to_ui32(k.to_string()), c, "{}", k);
    }
    assert_eq!(keycode_str_to_ui32("KEY_UNKNOWN".to_string()), 0);
    assert_eq!(keycode_str_to_ui32(String::new()), 0);
    assert_eq!(keycode_str_to_ui32("key_enter".to_string()), 0);
}

#[test]
fn simple_request_frame() {
    let r = rpc::SimpleRequest { jsonrpc: "2.0".to_string(), id: 9, method: "a.b".to_string() };
    assert_eq!(r.encode(), "{\"jsonrpc\":\"2.0\",\"id\":9,\"method\":\"a.b\"}");
}

#[test]
fn classification() {
    match rpc::call(Exchange::Reply(device_reply(Some(true), Some("ignored")))) {
        Ok(r) => assert_eq!(r.id, 1),
        Err(e) => panic!("{}", e.message()),
    }
    match rpc::call(Exchange::Reply(device_reply(Some(false), Some("busy")))) {
        Err(e) => assert_eq!(e.message(), "RPC request failed: busy"),
        Ok(_) => panic!("a false success flag must fail"),
    }
    assert!(rpc::call_and_respond(Exchange::Reply(device_reply(None, Some("x")))).is_err());
}
