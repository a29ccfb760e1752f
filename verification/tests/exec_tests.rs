use korea_investment_api::codes::{
    ExecClass, MarketOperationClassCode, MarketTerminationClassCode, TimeClassCode, TrId,
    VsPriceSign, What, When,
};
use korea_investment_api::error::{Error, ErrorKind};
use korea_investment_api::stream::exec::{Body, Exec, FIELDS, HEAD_FIELDS};
use korea_investment_api::time::Time;

fn at(hour: u32, minute: u32, second: u32) -> Time {
    Time { year: 2024, month: 1, day: 2, hour, minute, second, nanosecond: 0 }
}

fn tick_values() -> Vec<String> {
    [
        "093000", "70000", "2", "500", "0.72", "69850.12", "69500", "70100", "69400", "70000",
        "69900", "10", "123456", "8641920000", "100", "120", "-20", "105.5", "5000", "5250", "1",
        "51.2", "98.76", "090000", "2", "500", "093000", "3", "0", "090100", "5", "-600",
        "20240102", "20", "N", "1000", "2000", "30000", "40000", "0.21", "100000", "123.45", "0",
        "0", "70500",
    ]
    .iter()
    .map(|s| s.to_string())
    .collect()
}

fn frame_of(head: &str, values: &[String]) -> String {
    let mut fields = vec![head.to_string()];
    fields.extend_from_slice(values);
    fields.join("^")
}

fn tick() -> String {
    frame_of("0|H0STCNT0|001|005930", &tick_values())
}

fn with_value(index: usize, value: &str) -> String {
    let mut values = tick_values();
    values[index - 1] = value.to_string();
    frame_of("0|H0STCNT0|001|005930", &values)
}

fn body_of(frame: String) -> Body {
    Exec::parse(frame).unwrap().body().clone().unwrap()
}

#[test]
fn the_layout_has_forty_six_fields() {
    assert_eq!(FIELDS, 46);
    assert_eq!(HEAD_FIELDS, 4);
    assert_eq!(tick().split('^').count(), 46);
}

#[test]
fn a_trade_tick_round_trips_every_field() {
    let message = Exec::parse(tick()).unwrap();
    assert_eq!(*message.header().tr_id(), TrId::RealtimeExec);
    assert_eq!(*message.header().datetime(), at(9, 30, 0));
    let b = message.body().clone().unwrap();
    assert_eq!(b.shortcode, "005930");
    assert_eq!(b.exec_time, at(9, 30, 0));
    assert_eq!(b.current_price, 70000);
    assert_eq!(b.price_sign_vs_yesterday, VsPriceSign::Increase);
    assert_eq!(b.price_vs_yesterday, 500);
    assert_eq!(b.price_rate_vs_yesterday.text().parse::<f32>().unwrap(), 0.72f32);
    assert_eq!(b.weighted_average_price.text().parse::<f64>().unwrap(), 69850.12);
    assert_eq!(b.market_price, 69500);
    assert_eq!(b.market_upper_price, 70100);
    assert_eq!(b.market_lower_price, 69400);
    assert_eq!(b.ask_price, 70000);
    assert_eq!(b.bid_price, 69900);
    assert_eq!(b.exec_volume, 10);
    assert_eq!(b.accumulative_exec_volume, 123456);
    assert_eq!(b.accumulative_exec_amount, 8_641_920_000);
    assert_eq!(b.ask_exec_count, 100);
    assert_eq!(b.bid_exec_count, 120);
    assert_eq!(b.natural_bid_exec_count, -20);
    assert_eq!(b.volume_power.text().parse::<f64>().unwrap(), 105.5);
    assert_eq!(b.total_ask_exec_volume, 5000);
    assert_eq!(b.total_bid_exec_volume, 5250);
    assert_eq!(b.exec_class, ExecClass::Bid);
    assert_eq!(b.bid_rate.text().parse::<f64>().unwrap(), 51.2);
    assert_eq!(b.exec_volume_rate_vs_yesterday.text().parse::<f64>().unwrap(), 98.76);
    assert_eq!(b.market_price_time, at(9, 0, 0));
    assert_eq!(b.vs_market_price_sign, VsPriceSign::Increase);
    assert_eq!(b.vs_market_price, 500);
    assert_eq!(b.upper_price_time, at(9, 30, 0));
    assert_eq!(b.vs_upper_price_sign, VsPriceSign::Steady);
    assert_eq!(b.vs_upper_price, 0);
    assert_eq!(b.lower_price_time, at(9, 1, 0));
    assert_eq!(b.vs_lower_price_sign, VsPriceSign::LowerLimit);
    assert_eq!(b.vs_lower_price, -600);
    assert_eq!(b.business_operation_date, at(0, 0, 0));
    assert_eq!(b.new_market_operation_class_code, MarketOperationClassCode(When::Market, What::Normal));
    assert!(!b.trade_suspended);
    assert_eq!(b.ask_order_remained, 1000);
    assert_eq!(b.bid_order_remained, 2000);
    assert_eq!(b.total_ask_order_remained, 30000);
    assert_eq!(b.total_bid_order_remained, 40000);
    assert_eq!(b.turnover_ratio.text().parse::<f64>().unwrap(), 0.21);
    assert_eq!(b.yesterday_symmetric_time_accumulate_volume, 100000);
    assert_eq!(b.yesterday_symmetric_time_accumulate_volume_rate.text().parse::<f64>().unwrap(), 123.45);
    assert_eq!(b.time_class_code, TimeClassCode::InMarket);
    assert_eq!(b.market_termination_class_code, MarketTerminationClassCode::Terminated);
    assert_eq!(b.vi_standard_price, 70500);
}

#[test]
fn the_bytes_give_the_same_message_as_the_text() {
    let from_text = Exec::parse(tick()).unwrap();
    let from_bytes = Exec::parse_data(tick().as_bytes()).unwrap();
    assert_eq!(from_text.header, from_bytes.header);
    assert_eq!(from_text.body.unwrap().current_price, from_bytes.body.unwrap().current_price);
}

#[test]
fn too_few_fields_are_a_frame_error() {
    let values = tick_values();
    let short = frame_of("0|H0STCNT0|001|005930", &values[..44]);
    assert_eq!(Exec::parse(short).unwrap_err(), Error::FieldCount);
    assert_eq!(Exec::parse("0|H0STCNT0|001|005930".to_string()).unwrap_err(), Error::FieldCount);
    assert_eq!(Exec::parse(String::new()).unwrap_err(), Error::FieldCount);
    assert_eq!(Error::FieldCount.kind(), ErrorKind::FrameParse);
}

#[test]
fn too_many_fields_are_a_frame_error() {
    let mut values = tick_values();
    values.push("0".to_string());
    assert_eq!(Exec::parse(frame_of("0|H0STCNT0|001|005930", &values)).unwrap_err(), Error::FieldCount);
    assert_eq!(Exec::parse(tick() + "^").unwrap_err(), Error::FieldCount);
}

#[test]
fn a_first_field_without_four_parts_is_a_frame_error() {
    assert_eq!(Exec::parse(frame_of("0|H0STCNT0|001", &tick_values())).unwrap_err(), Error::FieldCount);
    assert_eq!(Exec::parse(frame_of("0|H0STCNT0|001|005930|x", &tick_values())).unwrap_err(), Error::FieldCount);
    assert_eq!(Exec::parse(frame_of("", &tick_values())).unwrap_err(), Error::FieldCount);
}

#[test]
fn an_unknown_channel_code_is_invalid() {
    assert_eq!(Exec::parse(frame_of("0|H0STQQQ0|001|005930", &tick_values())).unwrap_err(), Error::InvalidData);
}

#[test]
fn a_frame_that_is_flagged_as_encrypted_has_no_body() {
    let message = Exec::parse(frame_of("1|H0STCNT0|001|005930", &tick_values())).unwrap();
    assert!(message.body().is_none());
    assert_eq!(*message.header().tr_id(), TrId::RealtimeExec);
    assert_eq!(*message.header().datetime(), at(9, 30, 0));
}

#[test]
fn a_whole_number_that_is_none_is_an_integer_error() {
    assert_eq!(Exec::parse(with_value(2, "70000.5")).unwrap_err(), Error::ParseIntError);
    assert_eq!(Exec::parse(with_value(2, "")).unwrap_err(), Error::ParseIntError);
    assert_eq!(Exec::parse(with_value(2, "-1")).unwrap_err(), Error::ParseIntError);
    assert_eq!(Exec::parse(with_value(2, "4294967296")).unwrap_err(), Error::ParseIntError);
    assert_eq!(Exec::parse(with_value(4, "2147483648")).unwrap_err(), Error::ParseIntError);
    assert_eq!(Exec::parse(with_value(13, "1e6")).unwrap_err(), Error::ParseIntError);
    assert_eq!(Exec::parse(with_value(17, "x")).unwrap_err(), Error::ParseIntError);
    assert_eq!(Exec::parse(with_value(41, " 1")).unwrap_err(), Error::ParseIntError);
}

#[test]
fn a_decimal_that_is_none_is_a_decimal_error() {
    assert_eq!(Exec::parse(with_value(5, "0,72")).unwrap_err(), Error::ParseFloatError);
    assert_eq!(Exec::parse(with_value(6, "")).unwrap_err(), Error::ParseFloatError);
    assert_eq!(Exec::parse(with_value(42, "12%")).unwrap_err(), Error::ParseFloatError);
}

#[test]
fn a_code_that_is_unknown_is_invalid() {
    assert_eq!(Exec::parse(with_value(3, "9")).unwrap_err(), Error::InvalidData);
    assert_eq!(Exec::parse(with_value(21, "2")).unwrap_err(), Error::InvalidData);
    assert_eq!(Exec::parse(with_value(34, "2")).unwrap_err(), Error::InvalidData);
    assert_eq!(Exec::parse(with_value(43, "Z")).unwrap_err(), Error::InvalidData);
}

#[test]
fn a_time_that_cannot_be_read_is_a_format_error() {
    assert_eq!(Exec::parse(with_value(1, "0930")).unwrap_err(), Error::ChronoError);
    assert_eq!(Exec::parse(with_value(1, "256000")).unwrap_err(), Error::ChronoError);
    assert_eq!(Exec::parse(with_value(24, "")).unwrap_err(), Error::ChronoError);
    assert_eq!(Exec::parse(with_value(33, "20241301")).unwrap_err(), Error::ChronoError);
}

#[test]
fn the_first_fault_in_the_order_of_the_layout_is_reported() {
    let mut values = tick_values();
    values[1] = "x".to_string();
    values[4] = "y".to_string();
    assert_eq!(Exec::parse(frame_of("0|H0STCNT0|001|005930", &values)).unwrap_err(), Error::ParseIntError);
    values[1] = "70000".to_string();
    assert_eq!(Exec::parse(frame_of("0|H0STCNT0|001|005930", &values)).unwrap_err(), Error::ParseFloatError);
    values[0] = "z".to_string();
    assert_eq!(Exec::parse(frame_of("0|H0STQQQ0|001|005930", &values)).unwrap_err(), Error::ChronoError);
}

#[test]
fn the_times_are_on_the_business_date_of_the_frame() {
    let b = body_of(with_value(33, "20231229"));
    assert_eq!((b.exec_time.year, b.exec_time.month, b.exec_time.day), (2023, 12, 29));
    assert_eq!((b.lower_price_time.year, b.lower_price_time.month, b.lower_price_time.day), (2023, 12, 29));
    assert_eq!(b.business_operation_date.hour, 0);
}

#[test]
fn the_halt_flag_is_read_tolerantly() {
    assert!(body_of(with_value(35, "Y")).trade_suspended);
    assert!(body_of(with_value(35, "y")).trade_suspended);
    assert!(body_of(with_value(35, "1")).trade_suspended);
    assert!(!body_of(with_value(35, "N")).trade_suspended);
    assert!(!body_of(with_value(35, "")).trade_suspended);
    assert!(!body_of(with_value(35, "?")).trade_suspended);
}

#[test]
fn a_missing_reference_price_is_zero() {
    assert_eq!(body_of(with_value(45, "")).vi_standard_price, 0);
    assert_eq!(body_of(with_value(45, "n/a")).vi_standard_price, 0);
    assert_eq!(body_of(with_value(45, "12")).vi_standard_price, 12);
}

#[test]
fn a_control_frame_has_a_header_and_no_body() {
    let message = Exec::parse(r#"{"header":{"tr_id":"PINGPONG","datetime":"20240102093000"}}"#.to_string()).unwrap();
    assert_eq!(*message.header().tr_id(), TrId::PingPong);
    assert_eq!(*message.header().datetime(), at(9, 30, 0));
    assert!(message.header().is_keep_alive());
    assert!(message.body().is_none());
}

#[test]
fn a_control_frame_without_a_stamp_is_invalid() {
    assert_eq!(Exec::parse(r#"{"header":{"tr_id":"H0STCNT0"}}"#.to_string()).unwrap_err(), Error::InvalidData);
    assert_eq!(Exec::parse("{}".to_string()).unwrap_err(), Error::InvalidData);
}

#[test]
fn json_that_is_no_object_is_decoded_as_data() {
    assert_eq!(Exec::parse("123".to_string()).unwrap_err(), Error::FieldCount);
}

#[test]
fn a_text_frame_never_fails_for_want_of_utf8() {
    let frames = [
        frame_of("0|H0STCNT0|001|삼성전자", &tick_values()),
        with_value(1, "구시삼십분"),
        with_value(2, "칠만"),
        with_value(33, "오늘"),
        frame_of("0|체결|001|005930", &tick_values()),
        "^".repeat(45) + "é",
    ];
    for frame in frames {
        match Exec::parse(frame) {
            Ok(message) => assert_eq!(message.body().clone().unwrap().shortcode, "삼성전자"),
            Err(e) => assert_ne!(e, Error::Utf8Error),
        }
    }
}

#[test]
fn a_very_long_frame_is_decoded_as_data() {
    let long = format!("0.{}", "0".repeat(40000));
    assert_eq!(Exec::parse(long).unwrap_err(), Error::FieldCount);
}
