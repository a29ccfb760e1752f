use korea_investment_api::codes::{CustomerType, TrId, TrType};
use korea_investment_api::control::ControlFrame;
use korea_investment_api::error::Error;
use korea_investment_api::stream::exec::Exec;
use korea_investment_api::subscribe::{
    assemble_envelope, AckStep, Handshake, Phase, SubscribeRequest, SubscribeResponse, SubscribeResult,
};

const ACK: &str = r#"{"header":{"tr_id":"H0STCNT0","tr_key":"005930","encrypt":"N"},"body":{"rt_cd":"0","msg_cd":"OPSP0000","msg1":"SUBSCRIBE SUCCESS","output":{"iv":"0123456789abcdef","key":"abcdefghijklmnopqrstuvwxyz012345"}}}"#;
const NACK: &str = r#"{"header":{"tr_id":"H0STCNT0","tr_key":"005930","encrypt":"N"},"body":{"rt_cd":"1","msg_cd":"OPSP0011","msg1":"invalid approval : NOT FOUND"}}"#;
const PING: &str = r#"{"header":{"tr_id":"PINGPONG","datetime":"20240102093000"}}"#;

fn request() -> SubscribeRequest {
    SubscribeRequest::new(
        "app-key".to_string(),
        "app-secret".to_string(),
        "approval".to_string(),
        CustomerType::Personal,
        "005930".to_string(),
        TrId::RealtimeExec,
    )
}

#[test]
fn a_request_registers_with_plain_text() {
    let r = request();
    assert_eq!(r.header().appkey(), "app-key");
    assert_eq!(r.header().appsecret(), "app-secret");
    assert_eq!(r.header().personalseckey(), "approval");
    assert_eq!(*r.header().custtype(), CustomerType::Personal);
    assert_eq!(*r.header().tr_type(), TrType::Register);
    assert_eq!(r.header.content_type, "text/plain");
    assert_eq!(*r.body().tr_id(), TrId::RealtimeExec);
    assert_eq!(r.body().tr_key(), "005930");
}

#[test]
fn the_envelope_is_the_documented_json() {
    assert_eq!(
        request().get_json_string(),
        r#"{"header":{"appkey":"app-key","appsecret":"app-secret","personalseckey":"approval","custtype":"P","tr_type":"1","Content-Type":"text/plain"},"body":{"input":{"tr_id":"H0STCNT0","tr_key":"005930"}}}"#
    );
}

#[test]
fn the_envelope_parses_as_json_with_the_same_values() {
    let text = request().get_json_string();
    let doc = json::parse(&text).unwrap();
    assert_eq!(doc["header"]["appkey"], "app-key");
    assert_eq!(doc["header"]["appsecret"], "app-secret");
    assert_eq!(doc["header"]["personalseckey"], "approval");
    assert_eq!(doc["header"]["custtype"], "P");
    assert_eq!(doc["header"]["tr_type"], "1");
    assert_eq!(doc["header"]["Content-Type"], "text/plain");
    assert_eq!(doc["body"]["input"]["tr_id"], "H0STCNT0");
    assert_eq!(doc["body"]["input"]["tr_key"], "005930");
}

#[test]
fn free_texts_in_the_envelope_are_escaped() {
    let r = SubscribeRequest::new(
        "a\"b".to_string(),
        "c\\d".to_string(),
        "e\nf".to_string(),
        CustomerType::Business,
        "한\u{1}".to_string(),
        TrId::RealRealtimeMyExec,
    );
    let text = r.get_json_string();
    assert!(text.contains(r#""appkey":"a\"b""#));
    assert!(text.contains(r#""appsecret":"c\\d""#));
    assert!(text.contains(r#""personalseckey":"e\nf""#));
    assert!(text.contains("\"tr_key\":\"한\\u0001\""));
    let doc = json::parse(&text).unwrap();
    assert_eq!(doc["header"]["appkey"], "a\"b");
    assert_eq!(doc["header"]["personalseckey"], "e\nf");
    assert_eq!(doc["header"]["custtype"], "B");
    assert_eq!(doc["body"]["input"]["tr_id"], "H0STCNI0");
}

#[test]
fn the_envelope_is_assembled_from_its_literals() {
    let text = assemble_envelope("\"k\"", "\"s\"", "\"a\"", CustomerType::Personal, TrType::Unregister, "\"t\"", TrId::RealtimeOrdb, "\"x\"");
    assert_eq!(
        text,
        r#"{"header":{"appkey":"k","appsecret":"s","personalseckey":"a","custtype":"P","tr_type":"2","Content-Type":"t"},"body":{"input":{"tr_id":"H0STASP0","tr_key":"x"}}}"#
    );
}

#[test]
fn success_is_the_literal_message() {
    let yes = SubscribeResponse::from_ack("SUBSCRIBE SUCCESS".to_string(), None, None);
    assert!(yes.success);
    assert_eq!(yes.msg, "SUBSCRIBE SUCCESS");
    for other in ["subscribe success", "SUBSCRIBE SUCCESS ", "SUBSCRIBE SUCCESS.", "", "ALREADY IN SUBSCRIBE"] {
        let no = SubscribeResponse::from_ack(other.to_string(), Some("iv".to_string()), Some("key".to_string()));
        assert!(!no.success, "{other:?}");
        assert_eq!(no.msg, other);
        assert_eq!(no.iv.as_deref(), Some("iv"));
        assert_eq!(no.key.as_deref(), Some("key"));
    }
}

#[test]
fn a_response_keeps_what_it_is_given() {
    let mut r = SubscribeResponse::new(false, String::new(), None, None);
    assert!(!*r.success());
    assert_eq!(r.msg(), "");
    assert_eq!(*r.iv(), None);
    assert_eq!(*r.key(), None);
    r.set_success(true);
    r.set_msg("m".to_string());
    r.set_iv(Some("i".to_string()));
    r.set_key(Some("k".to_string()));
    assert!(*r.success());
    assert_eq!(r.msg(), "m");
    assert_eq!(r.iv().as_deref(), Some("i"));
    assert_eq!(r.key().as_deref(), Some("k"));
}

#[test]
fn a_result_keeps_what_it_is_given() {
    let mut r = SubscribeResult::new(true, "m".to_string(), Some("i".to_string()), None);
    assert!(r.success());
    assert_eq!(r.msg(), "m");
    assert_eq!(r.iv().as_deref(), Some("i"));
    assert_eq!(*r.key(), None);
    r.set_success(false);
    r.set_msg("n".to_string());
    r.set_iv(None);
    r.set_key(Some("k".to_string()));
    assert!(!r.success());
    assert_eq!(r.msg(), "n");
    assert_eq!(*r.iv(), None);
    assert_eq!(r.key().as_deref(), Some("k"));
}

#[test]
fn a_handshake_begins_by_sending_the_envelope() {
    let mut h = Handshake::new();
    assert_eq!(h.phase(), Phase::Unsubscribed);
    let envelope = h.begin(&request());
    assert_eq!(envelope, request().get_json_string());
    assert_eq!(h.phase(), Phase::AckPending);
}

#[test]
fn subscribing_to_trade_ticks_succeeds_and_a_bad_frame_leaves_the_connection_usable() {
    let mut h = Handshake::new();
    h.begin(&request());
    match h.on_frame(ACK) {
        AckStep::Finish(response) => {
            assert!(response.success);
            assert_eq!(response.msg, "SUBSCRIBE SUCCESS");
        }
        other => panic!("{other:?}"),
    }
    assert_eq!(h.phase(), Phase::Subscribed);
    let values: Vec<String> = [
        "093000", "70000", "2", "500", "0.72", "69850.12", "69500", "70100", "69400", "70000",
        "69900", "10", "123456", "8641920000", "100", "120", "-20", "105.5", "5000", "5250", "1",
        "51.2", "98.76", "090000", "2", "500", "093000", "3", "0", "090100", "5", "-600",
        "20240102", "20", "N", "1000", "2000", "30000", "40000", "0.21", "100000", "123.45", "0",
        "0", "70500",
    ]
    .iter()
    .map(|s| s.to_string())
    .collect();
    let good = format!("0|H0STCNT0|001|005930^{}", values.join("^"));
    let bad = format!("0|H0STCNT0|001|005930^{}", values[..40].join("^"));
    let e = Exec::parse(bad).unwrap_err();
    assert_eq!(e, Error::FieldCount);
    assert!(e.is_recoverable());
    assert_eq!(h.phase(), Phase::Subscribed);
    assert_eq!(Exec::parse(good).unwrap().body().clone().unwrap().current_price, 70000);
}

#[test]
fn a_rejection_keeps_the_message_of_the_server() {
    let mut h = Handshake::new();
    h.begin(&request());
    match h.on_frame(NACK) {
        AckStep::Finish(response) => {
            assert!(!response.success);
            assert_eq!(response.msg, "invalid approval : NOT FOUND");
            assert_eq!(response.iv, None);
            assert_eq!(response.key, None);
        }
        other => panic!("{other:?}"),
    }
    assert_eq!(h.phase(), Phase::Rejected);
}

#[test]
fn the_acknowledgement_carries_the_key_material() {
    let mut h = Handshake::new();
    h.begin(&request());
    match h.on_frame(ACK) {
        AckStep::Finish(response) => {
            assert_eq!(response.iv.as_deref(), Some("0123456789abcdef"));
            assert_eq!(response.key.as_deref(), Some("abcdefghijklmnopqrstuvwxyz012345"));
        }
        other => panic!("{other:?}"),
    }
}

#[test]
fn a_keep_alive_during_the_wait_is_echoed_and_the_wait_goes_on() {
    let mut h = Handshake::new();
    h.begin(&request());
    for _ in 0..3 {
        match h.on_frame(PING) {
            AckStep::Echo(text) => assert_eq!(text, PING),
            other => panic!("{other:?}"),
        }
        assert_eq!(h.phase(), Phase::AckPending);
    }
    assert!(matches!(h.on_frame(ACK), AckStep::Finish(_)));
    assert_eq!(h.phase(), Phase::Subscribed);
}

#[test]
fn a_control_frame_that_says_nothing_is_waited_out() {
    let mut h = Handshake::new();
    h.begin(&request());
    assert!(matches!(h.on_frame("{}"), AckStep::Wait));
    assert!(matches!(h.on_frame(r#"{"header":{"tr_id":"H0STCNT0"},"body":{"rt_cd":"0"}}"#), AckStep::Wait));
    assert_eq!(h.phase(), Phase::AckPending);
}

#[test]
fn a_data_frame_during_the_wait_fails_the_handshake() {
    let mut h = Handshake::new();
    h.begin(&request());
    assert!(matches!(h.on_frame("0|H0STCNT0|001|005930^093000"), AckStep::Fail(Error::JsonError)));
    assert_eq!(h.phase(), Phase::Unsubscribed);
}

#[test]
fn frames_outside_the_wait_are_not_for_the_handshake() {
    let mut h = Handshake::new();
    assert!(matches!(h.on_frame(ACK), AckStep::Idle));
    assert_eq!(h.phase(), Phase::Unsubscribed);
    h.begin(&request());
    h.on_frame(ACK);
    assert!(matches!(h.on_frame(NACK), AckStep::Idle));
    assert!(matches!(h.on_control(ControlFrame::read(PING)), AckStep::Idle));
    assert_eq!(h.phase(), Phase::Subscribed);
}

#[test]
fn either_end_state_allows_a_new_handshake() {
    let mut h = Handshake::new();
    h.begin(&request());
    h.on_frame(NACK);
    assert_eq!(h.phase(), Phase::Rejected);
    h.begin(&request());
    assert_eq!(h.phase(), Phase::AckPending);
    h.on_frame(ACK);
    assert_eq!(h.phase(), Phase::Subscribed);
    h.begin(&request());
    assert_eq!(h.phase(), Phase::AckPending);
}

fn escaped(c: char) -> String {
    match c {
        '"' => "\\\"".to_string(),
        '\\' => "\\\\".to_string(),
        '\u{8}' => "\\b".to_string(),
        '\t' => "\\t".to_string(),
        '\n' => "\\n".to_string(),
        '\u{c}' => "\\f".to_string(),
        '\r' => "\\r".to_string(),
        c if (c as u32) < 0x20 => format!("\\u{:04x}", c as u32),
        c => c.to_string(),
    }
}

#[test]
fn every_character_is_escaped_as_json_asks() {
    let mut sample: Vec<char> = (0u32..0x100).filter_map(char::from_u32).collect();
    sample.extend(['\u{7ff}', '\u{800}', '한', '\u{2028}', '\u{ffff}', '\u{10000}', '\u{10ffff}']);
    for c in sample {
        let key = format!("a{c}b");
        let r = SubscribeRequest::new(String::new(), String::new(), String::new(), CustomerType::Personal, key.clone(), TrId::RealtimeExec);
        let text = r.get_json_string();
        let expected = format!("\"tr_key\":\"a{}b\"}}}}}}", escaped(c));
        assert!(text.ends_with(&expected), "{c:?}: {text}");
        assert_eq!(json::parse(&text).unwrap()["body"]["input"]["tr_key"], key.as_str());
    }
}

#[test]
fn a_control_is_escaped_with_lower_case_digits() {
    let r = SubscribeRequest::new("\u{1f}\u{1b}\u{0}".to_string(), String::new(), String::new(), CustomerType::Personal, String::new(), TrId::RealtimeExec);
    assert!(r.get_json_string().starts_with("{\"header\":{\"appkey\":\"\\u001f\\u001b\\u0000\","));
}

#[test]
fn the_empty_text_is_two_quotes() {
    let r = SubscribeRequest::new(String::new(), String::new(), String::new(), CustomerType::Personal, String::new(), TrId::RealtimeExec);
    assert!(r.get_json_string().starts_with("{\"header\":{\"appkey\":\"\",\"appsecret\":\"\","));
}
