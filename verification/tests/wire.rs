use rustwave::error::RustWaveError;
use rustwave::wire::{encode_response, quote, send_outcome, Request, Response};

#[test]
fn response_frame_is_compact_json() {
    let text = encode_response("message", "\"hello\"").unwrap();
    assert_eq!(text, "{\"event\":\"message\",\"data\":\"hello\"}");
}

#[test]
fn response_frame_carries_any_json_value() {
    let text = encode_response("count", "[1,2,{\"a\":null}]").unwrap();
    assert_eq!(text, "{\"event\":\"count\",\"data\":[1,2,{\"a\":null}]}");
}

#[test]
fn response_frame_parses_back_to_its_parts() {
    let data = vec![1u32, 2, 3];
    let data_json = serde_json::to_string(&data).unwrap();
    let text = encode_response("nums", &data_json).unwrap();
    let value: serde_json::Value = serde_json::from_str(&text).unwrap();
    assert_eq!(value["event"], serde_json::Value::String("nums".to_string()));
    assert_eq!(value["data"], serde_json::to_value(&data).unwrap());
}

#[test]
fn event_name_is_escaped() {
    let text = encode_response("a\"b\\c\nd", "0").unwrap();
    assert_eq!(text, "{\"event\":\"a\\\"b\\\\c\\nd\",\"data\":0}");
}

#[test]
fn quote_escapes_like_json() {
    assert_eq!(quote("plain text").unwrap(), "\"plain text\"");
    assert_eq!(quote("").unwrap(), "\"\"");
    assert_eq!(quote("tab\there").unwrap(), "\"tab\\there\"");
    assert_eq!(quote("\r\u{8}\u{c}").unwrap(), "\"\\r\\b\\f\"");
    assert_eq!(quote("\u{1}\u{1f}").unwrap(), "\"\\u0001\\u001f\"");
    assert_eq!(quote("é/ü").unwrap(), "\"é/ü\"");
}

#[test]
fn request_encodes_data_as_a_json_string() {
    let req = Request { event: "join".to_string(), data: "Rahul".to_string() };
    assert_eq!(req.encode().unwrap(), "{\"event\":\"join\",\"data\":\"Rahul\"}");
    let req = Request { event: "msg".to_string(), data: "say \"hi\"".to_string() };
    assert_eq!(req.encode().unwrap(), "{\"event\":\"msg\",\"data\":\"say \\\"hi\\\"\"}");
}

#[test]
fn send_outcome_reports_a_closed_channel() {
    assert!(send_outcome(true).is_ok());
    match send_outcome(false) {
        Err(RustWaveError::Internal(m)) => assert_eq!(m, "Message sendingg error"),
        other => panic!("unexpected {:?}", other),
    }
}

#[test]
fn response_holds_event_and_data() {
    let r = Response { event: "e".to_string(), data: 7u8 };
    assert_eq!(r.event, "e");
    assert_eq!(r.data, 7);
}
