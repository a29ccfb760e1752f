use korea_investment_api::codes::TrId;
use korea_investment_api::control::{get_json_inner, ControlFrame, Frame, MAX_CONTROL_LEN};
use korea_investment_api::error::Error;
use korea_investment_api::time::Time;

const ACK: &str = r#"{"header":{"tr_id":"H0STCNI0","tr_key":"user01","encrypt":"N"},"body":{"rt_cd":"0","msg_cd":"OPSP0000","msg1":"SUBSCRIBE SUCCESS","output":{"iv":"0123456789abcdef","key":"abcdefghijklmnopqrstuvwxyz012345"}}}"#;
const PING: &str = r#"{"header":{"tr_id":"PINGPONG","datetime":"20240102093000"}}"#;

#[test]
fn an_acknowledgement_is_read() {
    let frame = ControlFrame::read(ACK).unwrap();
    assert_eq!(frame.raw, ACK);
    assert_eq!(frame.tr_id.as_deref(), Some("H0STCNI0"));
    assert_eq!(frame.datetime, None);
    assert_eq!(frame.msg1.as_deref(), Some("SUBSCRIBE SUCCESS"));
    assert_eq!(frame.iv.as_deref(), Some("0123456789abcdef"));
    assert_eq!(frame.key.as_deref(), Some("abcdefghijklmnopqrstuvwxyz012345"));
    assert!(frame.is_ack());
    assert!(!frame.is_keep_alive());
    assert_eq!(frame.tr_id(), Ok(TrId::RealRealtimeMyExec));
    assert_eq!(frame.datetime(), Err(Error::InvalidData));
}

#[test]
fn a_keep_alive_is_read() {
    let frame = ControlFrame::read(PING).unwrap();
    assert!(frame.is_keep_alive());
    assert!(!frame.is_ack());
    assert_eq!(frame.msg1, None);
    assert_eq!(frame.iv, None);
    assert_eq!(frame.key, None);
    assert_eq!(frame.tr_id(), Ok(TrId::PingPong));
    assert_eq!(
        frame.datetime(),
        Ok(Time { year: 2024, month: 1, day: 2, hour: 9, minute: 30, second: 0, nanosecond: 0 })
    );
}

#[test]
fn a_data_frame_is_no_control_frame() {
    assert!(ControlFrame::read("0|H0STCNT0|001|005930^093000^70000").is_none());
    assert!(ControlFrame::read("").is_none());
    assert!(ControlFrame::read("{").is_none());
    assert!(ControlFrame::read("{\"header\":").is_none());
}

#[test]
fn json_that_is_no_object_is_no_control_frame() {
    assert!(ControlFrame::read("123").is_none());
    assert!(ControlFrame::read("\"PINGPONG\"").is_none());
    assert!(ControlFrame::read("[1,2]").is_none());
    assert!(ControlFrame::read("null").is_none());
    assert!(ControlFrame::read("true").is_none());
}

#[test]
fn an_empty_object_has_no_fields() {
    let frame = ControlFrame::read("{}").unwrap();
    assert_eq!(frame.tr_id, None);
    assert_eq!(frame.datetime, None);
    assert_eq!(frame.msg1, None);
    assert!(!frame.is_ack());
    assert!(!frame.is_keep_alive());
    assert_eq!(frame.tr_id(), Err(Error::InvalidData));
}

#[test]
fn members_of_what_is_no_object_are_missing() {
    let frame = ControlFrame::read(r#"{"header":"PINGPONG","body":["msg1"]}"#).unwrap();
    assert_eq!(frame.tr_id, None);
    assert_eq!(frame.msg1, None);
    let frame = ControlFrame::read(r#"{"body":{"msg1":"x","output":"iv"}}"#).unwrap();
    assert_eq!(frame.msg1.as_deref(), Some("x"));
    assert_eq!(frame.iv, None);
    assert_eq!(frame.key, None);
}

#[test]
fn a_member_that_is_no_string_shows_as_its_json() {
    let frame = ControlFrame::read(r#"{"header":{"tr_id":5},"body":{"msg1":null}}"#).unwrap();
    assert_eq!(frame.tr_id.as_deref(), Some("5"));
    assert_eq!(frame.msg1.as_deref(), Some("null"));
    assert_eq!(frame.tr_id(), Err(Error::InvalidData));
}

#[test]
fn escapes_in_strings_are_resolved() {
    let frame = ControlFrame::read(r#"{"body":{"msg1":"invalid \"approval\" : NOT FOUND\n"}}"#).unwrap();
    assert_eq!(frame.msg1.as_deref(), Some("invalid \"approval\" : NOT FOUND\n"));
}

#[test]
fn an_unknown_channel_is_invalid() {
    let frame = ControlFrame::read(r#"{"header":{"tr_id":"H0STQQQ0","datetime":"20240102093000"}}"#).unwrap();
    assert_eq!(frame.tr_id(), Err(Error::InvalidData));
    assert!(frame.datetime().is_ok());
}

#[test]
fn a_stamp_that_cannot_be_read_is_a_format_error() {
    let frame = ControlFrame::read(r#"{"header":{"tr_id":"PINGPONG","datetime":"today"}}"#).unwrap();
    assert_eq!(frame.datetime(), Err(Error::ChronoError));
}

#[test]
fn frames_are_told_apart() {
    assert!(matches!(Frame::classify(PING), Frame::Control(f) if f.is_keep_alive()));
    assert!(matches!(Frame::classify(ACK), Frame::Control(f) if f.is_ack()));
    assert!(matches!(Frame::classify("0|H0STCNT0|001|005930^093000"), Frame::Data));
    assert!(matches!(Frame::classify("[]"), Frame::Data));
}

#[test]
fn a_dotted_path_leads_to_a_member() {
    let doc = json::parse(ACK).unwrap();
    assert_eq!(get_json_inner(&doc, "header.tr_id").unwrap().as_str(), Some("H0STCNI0"));
    assert_eq!(get_json_inner(&doc, "body.output.iv").unwrap().as_str(), Some("0123456789abcdef"));
    assert!(get_json_inner(&doc, "body.output").unwrap().is_object());
    assert_eq!(get_json_inner(&doc, "body").unwrap()["rt_cd"], "0");
}

#[test]
fn a_path_that_leads_nowhere_is_invalid() {
    let doc = json::parse(ACK).unwrap();
    assert_eq!(get_json_inner(&doc, "header.datetime").unwrap_err(), Error::InvalidData);
    assert_eq!(get_json_inner(&doc, "header.tr_id.x").unwrap_err(), Error::InvalidData);
    assert_eq!(get_json_inner(&doc, "").unwrap_err(), Error::InvalidData);
    assert_eq!(get_json_inner(&doc, "header.").unwrap_err(), Error::InvalidData);
    assert_eq!(get_json_inner(&doc, ".header").unwrap_err(), Error::InvalidData);
    assert_eq!(get_json_inner(&json::parse("5").unwrap(), "a").unwrap_err(), Error::InvalidData);
}

#[test]
fn a_key_may_be_empty() {
    let doc = json::parse(r#"{"":{"":"deep"},"a":{"":1}}"#).unwrap();
    assert_eq!(get_json_inner(&doc, ".").unwrap().as_str(), Some("deep"));
    assert_eq!(get_json_inner(&doc, "a.").unwrap().as_u32(), Some(1));
    assert!(get_json_inner(&doc, "").unwrap().is_object());
}

#[test]
fn a_number_with_a_very_long_fraction_is_taken_as_data() {
    let long = format!("0.{}", "0".repeat(32769));
    assert!(long.len() > MAX_CONTROL_LEN);
    assert!(ControlFrame::read(&long).is_none());
    assert!(matches!(Frame::classify(&long), Frame::Data));
    let nested = format!("{{\"a\":0.{}}}", "0".repeat(40000));
    assert!(ControlFrame::read(&nested).is_none());
}

#[test]
fn a_text_beyond_the_limit_is_taken_as_data() {
    assert_eq!(MAX_CONTROL_LEN, 32768);
    let padding = " ".repeat(MAX_CONTROL_LEN - PING.len());
    let at_the_limit = format!("{PING}{padding}");
    assert_eq!(at_the_limit.len(), MAX_CONTROL_LEN);
    assert!(ControlFrame::read(&at_the_limit).unwrap().is_keep_alive());
    let beyond = format!("{at_the_limit} ");
    assert!(ControlFrame::read(&beyond).is_none());
}

#[test]
fn a_long_fraction_within_the_limit_is_read() {
    let number = format!("{{\"n\":0.{}}}", "0".repeat(MAX_CONTROL_LEN - 8));
    assert_eq!(number.len(), MAX_CONTROL_LEN);
    let frame = ControlFrame::read(&number).unwrap();
    assert_eq!(frame.tr_id, None);
    let digits = format!("{{\"header\":{{\"tr_id\":-0.{}e-9}}}}", "9".repeat(32000));
    assert!(ControlFrame::read(&digits).unwrap().tr_id.is_some());
    let big = format!("{{\"header\":{{\"tr_id\":{}.5e99999}}}}", "9".repeat(32000));
    assert!(ControlFrame::read(&big).is_none() || ControlFrame::read(&big).unwrap().tr_id.is_some());
}
