use aes::cipher::{block_padding::ZeroPadding, BlockEncryptMut, KeyIvInit};
use base64::Engine;
use korea_investment_api::codes::{Environment, TrId};
use korea_investment_api::dispatch::{channel_url, endpoint, Channel, Delivery, Dispatch, LoopState, Message, Spawn};
use korea_investment_api::error::Error;
use korea_investment_api::stream::exec::Exec;
use korea_investment_api::stream::Header;
use korea_investment_api::subscribe::SubscribeResponse;
use korea_investment_api::time::Time;

const PING: &str = r#"{"header":{"tr_id":"PINGPONG","datetime":"20240102093000"}}"#;
const KEY: &str = "abcdefghijklmnopqrstuvwxyz012345";
const IV: &str = "0123456789abcdef";
const NEW_KEY: &str = "ABCDEFGHIJKLMNOPQRSTUVWXYZ012345";
const NEW_IV: &str = "fedcba9876543210";

fn granted(iv: Option<&str>, key: Option<&str>) -> SubscribeResponse {
    SubscribeResponse::new(true, "SUBSCRIBE SUCCESS".to_string(), iv.map(str::to_string), key.map(str::to_string))
}

fn tick() -> String {
    let values = [
        "093000", "70000", "2", "500", "0.72", "69850.12", "69500", "70100", "69400", "70000",
        "69900", "10", "123456", "8641920000", "100", "120", "-20", "105.5", "5000", "5250", "1",
        "51.2", "98.76", "090000", "2", "500", "093000", "3", "0", "090100", "5", "-600",
        "20240102", "20", "N", "1000", "2000", "30000", "40000", "0.21", "100000", "123.45", "0",
        "0", "70500",
    ];
    format!("0|H0STCNT0|001|005930^{}", values.join("^"))
}

fn fill(key: &str, iv: &str) -> String {
    let plain = "user01^1234567801^12345^^02^0^00^0^005930^10^70000^093001^N^Y^N^00950^10^a^b^10^^b";
    let mut buffer = vec![0u8; plain.len() + 16];
    buffer[..plain.len()].copy_from_slice(plain.as_bytes());
    let data = cbc::Encryptor::<aes::Aes256>::new_from_slices(key.as_bytes(), iv.as_bytes())
        .unwrap()
        .encrypt_padded_mut::<ZeroPadding>(&mut buffer, plain.len())
        .unwrap()
        .to_vec();
    format!("1|H0STCNI0|001|{}", base64::prelude::BASE64_STANDARD.encode(data))
}

#[test]
fn channels_have_their_ids() {
    assert_eq!(Channel::from_tr_id(TrId::RealtimeExec), Some(Channel::Exec));
    assert_eq!(Channel::from_tr_id(TrId::RealtimeOrdb), Some(Channel::Ordb));
    assert_eq!(Channel::from_tr_id(TrId::RealRealtimeMyExec), Some(Channel::MyExec));
    assert_eq!(Channel::from_tr_id(TrId::VirtualRealtimeMyExec), Some(Channel::MyExec));
    assert_eq!(Channel::from_tr_id(TrId::PingPong), None);
    assert_eq!(Channel::from_tr_id(TrId::DailyPrice), None);
    assert_eq!(Channel::Exec.tr_id(Environment::Real), TrId::RealtimeExec);
    assert_eq!(Channel::Ordb.tr_id(Environment::Virtual), TrId::RealtimeOrdb);
    assert_eq!(Channel::MyExec.tr_id(Environment::Real), TrId::RealRealtimeMyExec);
    assert_eq!(Channel::MyExec.tr_id(Environment::Virtual), TrId::VirtualRealtimeMyExec);
}

#[test]
fn addresses_are_those_of_the_service() {
    assert_eq!(endpoint(Environment::Real), "ws://ops.koreainvestment.com:21000");
    assert_eq!(endpoint(Environment::Virtual), "ws://ops.koreainvestment.com:31000");
    assert_eq!(channel_url(Environment::Real, TrId::RealtimeExec), "ws://ops.koreainvestment.com:21000/tryitout/H0STCNT0");
    assert_eq!(channel_url(Environment::Virtual, TrId::VirtualRealtimeMyExec), "ws://ops.koreainvestment.com:31000/tryitout/H0STCNI9");
}

#[test]
fn the_first_subscription_starts_a_loop() {
    let mut d = Dispatch::new();
    assert_eq!(d.state(Channel::Exec), LoopState::Idle);
    assert_eq!(d.on_subscribed(TrId::RealtimeExec, &granted(None, None)), Ok(Spawn::Start));
    assert_eq!(d.state(Channel::Exec), LoopState::Running);
    assert_eq!(d.state(Channel::Ordb), LoopState::Idle);
    assert_eq!(d.state(Channel::MyExec), LoopState::Idle);
}

#[test]
fn a_second_subscription_to_a_running_channel_starts_no_second_loop() {
    let mut d = Dispatch::new();
    assert_eq!(d.on_subscribed(TrId::RealtimeExec, &granted(None, None)), Ok(Spawn::Start));
    assert_eq!(d.on_subscribed(TrId::RealtimeExec, &granted(None, None)), Ok(Spawn::Reuse));
    assert_eq!(d.on_subscribed(TrId::RealtimeExec, &granted(None, None)), Ok(Spawn::Reuse));
    assert_eq!(d.state(Channel::Exec), LoopState::Running);
    assert_eq!(d.on_subscribed(TrId::RealtimeOrdb, &granted(None, None)), Ok(Spawn::Start));
    assert_eq!(d.on_subscribed(TrId::RealtimeOrdb, &granted(None, None)), Ok(Spawn::Reuse));
}

#[test]
fn a_loop_that_ended_is_started_anew() {
    let mut d = Dispatch::new();
    d.on_subscribed(TrId::RealtimeExec, &granted(None, None)).unwrap();
    d.on_stopped(Channel::Exec);
    assert_eq!(d.state(Channel::Exec), LoopState::Stopped);
    assert_eq!(d.on_subscribed(TrId::RealtimeExec, &granted(None, None)), Ok(Spawn::Start));
    assert_eq!(d.state(Channel::Exec), LoopState::Running);
}

#[test]
fn resubscribing_to_personal_fills_replaces_the_loop_and_the_key() {
    let mut d = Dispatch::new();
    assert_eq!(d.on_subscribed(TrId::RealRealtimeMyExec, &granted(Some(IV), Some(KEY))), Ok(Spawn::Start));
    assert_eq!(d.iv.as_deref(), Some(IV));
    assert_eq!(d.key.as_deref(), Some(KEY));
    assert_eq!(d.on_subscribed(TrId::RealRealtimeMyExec, &granted(Some(NEW_IV), Some(NEW_KEY))), Ok(Spawn::Restart));
    assert_eq!(d.iv.as_deref(), Some(NEW_IV));
    assert_eq!(d.key.as_deref(), Some(NEW_KEY));
    assert_eq!(d.state(Channel::MyExec), LoopState::Running);
}

#[test]
fn frames_under_the_old_key_are_not_decoded_after_a_resubscription() {
    let mut d = Dispatch::new();
    d.on_subscribed(TrId::RealRealtimeMyExec, &granted(Some(IV), Some(KEY))).unwrap();
    let old_frame = fill(KEY, IV);
    assert!(matches!(d.receive(Channel::MyExec, &old_frame, "20240102"), Delivery::Forward(Message::MyExec(_))));
    d.on_subscribed(TrId::RealRealtimeMyExec, &granted(Some(NEW_IV), Some(NEW_KEY))).unwrap();
    assert!(matches!(d.receive(Channel::MyExec, &old_frame, "20240102"), Delivery::Report(_)));
    let new_frame = fill(NEW_KEY, NEW_IV);
    assert!(matches!(d.receive(Channel::MyExec, &new_frame, "20240102"), Delivery::Forward(Message::MyExec(_))));
}

#[test]
fn personal_fills_need_key_material() {
    let mut d = Dispatch::new();
    assert_eq!(d.on_subscribed(TrId::RealRealtimeMyExec, &granted(None, None)), Err(Error::InvalidData));
    assert_eq!(d.on_subscribed(TrId::RealRealtimeMyExec, &granted(Some(IV), None)), Err(Error::InvalidData));
    assert_eq!(d.on_subscribed(TrId::VirtualRealtimeMyExec, &granted(None, Some(KEY))), Err(Error::InvalidData));
    assert_eq!(d.state(Channel::MyExec), LoopState::Idle);
    assert_eq!(d.iv, None);
}

#[test]
fn a_rejected_subscription_starts_nothing() {
    let mut d = Dispatch::new();
    let rejected = SubscribeResponse::new(false, "invalid approval : NOT FOUND".to_string(), None, None);
    assert_eq!(d.on_subscribed(TrId::RealtimeExec, &rejected), Err(Error::SubscriptionRejected));
    assert_eq!(d.state(Channel::Exec), LoopState::Idle);
    assert_eq!(rejected.msg, "invalid approval : NOT FOUND");
}

#[test]
fn an_id_that_is_no_channel_is_the_wrong_id() {
    let mut d = Dispatch::new();
    assert_eq!(d.on_subscribed(TrId::DailyPrice, &granted(None, None)), Err(Error::WrongTrId(TrId::DailyPrice)));
    assert_eq!(d.on_subscribed(TrId::PingPong, &granted(None, None)), Err(Error::WrongTrId(TrId::PingPong)));
}

#[test]
fn a_keep_alive_in_the_loop_is_echoed_and_not_forwarded() {
    let d = Dispatch::new();
    for channel in [Channel::Exec, Channel::Ordb, Channel::MyExec] {
        match d.receive(channel, PING, "20240102") {
            Delivery::Echo(text) => assert_eq!(text, PING),
            other => panic!("{other:?}"),
        }
    }
}

#[test]
fn a_decoded_body_is_forwarded() {
    let d = Dispatch::new();
    match d.receive(Channel::Exec, &tick(), "20240102") {
        Delivery::Forward(Message::Exec(m)) => assert_eq!(m.body.unwrap().current_price, 70000),
        other => panic!("{other:?}"),
    }
}

#[test]
fn frames_are_forwarded_in_the_order_they_arrive() {
    let d = Dispatch::new();
    let frames = [tick().replace("^70000^2^", "^1^2^"), PING.to_string(), tick().replace("^70000^2^", "^2^2^"), "junk".to_string(), tick().replace("^70000^2^", "^3^2^")];
    let mut queue = Vec::new();
    let mut echoed = Vec::new();
    for frame in &frames {
        match d.receive(Channel::Exec, frame, "20240102") {
            Delivery::Forward(Message::Exec(m)) => queue.push(Ok(m.body.unwrap().current_price)),
            Delivery::Report(e) => queue.push(Err(e)),
            Delivery::Echo(text) => echoed.push(text),
            other => panic!("{other:?}"),
        }
    }
    assert_eq!(queue, vec![Ok(1), Ok(2), Err(Error::FieldCount), Ok(3)]);
    assert_eq!(echoed, vec![PING.to_string()]);
}

#[test]
fn a_frame_that_cannot_be_decoded_is_reported_and_the_loop_goes_on() {
    let d = Dispatch::new();
    assert!(matches!(d.receive(Channel::Exec, "0|H0STCNT0|001|005930^1^2", "20240102"), Delivery::Report(Error::FieldCount)));
    assert!(matches!(d.receive(Channel::Exec, &tick(), "20240102"), Delivery::Forward(_)));
    assert_eq!(d.state(Channel::Exec), LoopState::Idle);
}

#[test]
fn a_control_frame_that_is_no_keep_alive_is_skipped() {
    let d = Dispatch::new();
    let late_ack = r#"{"header":{"tr_id":"H0STCNT0","datetime":"20240102093000"},"body":{"msg1":"SUBSCRIBE SUCCESS"}}"#;
    assert!(matches!(d.receive(Channel::Exec, late_ack, "20240102"), Delivery::Skip));
}

#[test]
fn an_encrypted_fill_without_key_material_is_a_crypto_error() {
    let d = Dispatch::new();
    assert!(matches!(d.receive(Channel::MyExec, &fill(KEY, IV), "20240102"), Delivery::Report(Error::AesInvalidLength)));
}

#[test]
fn decide_goes_by_the_header_and_the_body() {
    let when = Time { year: 2024, month: 1, day: 2, hour: 9, minute: 30, second: 0, nanosecond: 0 };
    let ping = Message::Exec(Exec { header: Header { tr_id: TrId::PingPong, datetime: when }, body: None });
    assert!(matches!(Delivery::decide("ping", Ok(ping)), Delivery::Echo(text) if text == "ping"));
    let ack = Message::Exec(Exec { header: Header { tr_id: TrId::RealtimeExec, datetime: when }, body: None });
    assert!(matches!(Delivery::decide("ack", Ok(ack)), Delivery::Skip));
    assert!(matches!(Delivery::decide("x", Err(Error::ParseIntError)), Delivery::Report(Error::ParseIntError)));
    let data = Message::Exec(Exec::parse(tick()).unwrap());
    assert!(data.has_body());
    assert_eq!(data.header().tr_id, TrId::RealtimeExec);
    assert!(matches!(Delivery::decide("data", Ok(data)), Delivery::Forward(_)));
    let pinged_data = {
        let mut m = Exec::parse(tick()).unwrap();
        m.header.tr_id = TrId::PingPong;
        Message::Exec(m)
    };
    assert!(matches!(Delivery::decide("both", Ok(pinged_data)), Delivery::Echo(text) if text == "both"));
}

#[test]
fn a_failed_connection_ends_the_loop() {
    let mut d = Dispatch::new();
    d.on_subscribed(TrId::RealtimeOrdb, &granted(None, None)).unwrap();
    let e = d.on_transport_error(Channel::Ordb);
    assert_eq!(e, Error::WebSocket);
    assert!(!e.is_recoverable());
    assert_eq!(d.state(Channel::Ordb), LoopState::Stopped);
    assert_eq!(d.on_subscribed(TrId::RealtimeOrdb, &granted(None, None)), Ok(Spawn::Start));
}

#[test]
fn cancelling_stops_a_loop_that_runs() {
    let mut d = Dispatch::new();
    assert!(!d.cancel(Channel::Exec));
    assert_eq!(d.state(Channel::Exec), LoopState::Idle);
    d.on_subscribed(TrId::RealtimeExec, &granted(None, None)).unwrap();
    assert!(d.cancel(Channel::Exec));
    assert_eq!(d.state(Channel::Exec), LoopState::Stopped);
    assert!(!d.cancel(Channel::Exec));
}

#[test]
fn a_keep_alive_without_a_stamp_is_echoed_all_the_same() {
    let d = Dispatch::new();
    let bare = r#"{"header":{"tr_id":"PINGPONG"}}"#;
    for channel in [Channel::Exec, Channel::Ordb, Channel::MyExec] {
        match d.receive(channel, bare, "20240102") {
            Delivery::Echo(text) => assert_eq!(text, bare),
            other => panic!("{other:?}"),
        }
    }
}

#[test]
fn a_control_frame_is_never_decoded_as_data() {
    let d = Dispatch::new();
    assert!(matches!(d.receive(Channel::Exec, "{}", "20240102"), Delivery::Skip));
    assert!(matches!(d.receive(Channel::Ordb, r#"{"body":{"msg1":"x"}}"#, "20240102"), Delivery::Skip));
}

#[test]
fn an_operation_asks_for_its_own_channels() {
    assert_eq!(Channel::market(TrId::RealtimeExec), Ok(Channel::Exec));
    assert_eq!(Channel::market(TrId::RealtimeOrdb), Ok(Channel::Ordb));
    assert_eq!(Channel::market(TrId::RealRealtimeMyExec), Err(Error::WrongTrId(TrId::RealRealtimeMyExec)));
    assert_eq!(Channel::market(TrId::PingPong), Err(Error::WrongTrId(TrId::PingPong)));
    assert_eq!(Channel::personal(TrId::RealRealtimeMyExec), Ok(Channel::MyExec));
    assert_eq!(Channel::personal(TrId::VirtualRealtimeMyExec), Ok(Channel::MyExec));
    assert_eq!(Channel::personal(TrId::RealtimeExec), Err(Error::WrongTrId(TrId::RealtimeExec)));
}
