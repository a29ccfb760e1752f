use korea_investment_api::codes::{DealClassCode, TimeClassCode, TrId, VsPriceSign};
use korea_investment_api::error::Error;
use korea_investment_api::stream::ordb::{Ordb, FIELDS, LEVELS};
use korea_investment_api::time::Time;

fn book_values() -> Vec<String> {
    let mut v: Vec<String> = vec!["093000".to_string(), "0".to_string()];
    for k in 0..10u32 {
        v.push((70000 + 100 * k).to_string());
    }
    for k in 0..10u32 {
        v.push((69900 - 100 * k).to_string());
    }
    for k in 0..10u64 {
        v.push((1000 + k).to_string());
    }
    for k in 0..10u64 {
        v.push((2000 + k).to_string());
    }
    for s in [
        "30000", "40000", "300", "400", "70050", "15", "1500", "-50", "5", "-0.07", "123456", "-10",
        "20", "-30", "40", "0",
    ] {
        v.push(s.to_string());
    }
    v
}

fn frame_of(head: &str, values: &[String]) -> String {
    let mut fields = vec![head.to_string()];
    fields.extend_from_slice(values);
    fields.join("^")
}

fn book() -> String {
    frame_of("0|H0STASP0|001|005930", &book_values())
}

fn with_value(index: usize, value: &str) -> String {
    let mut values = book_values();
    values[index - 1] = value.to_string();
    frame_of("0|H0STASP0|001|005930", &values)
}

#[test]
fn the_layout_has_fifty_nine_fields() {
    assert_eq!(FIELDS, 59);
    assert_eq!(LEVELS, 10);
    assert_eq!(book().split('^').count(), 59);
}

#[test]
fn a_book_has_ten_levels_on_either_side_best_first() {
    let message = Ordb::parse_on(&book(), "20240102").unwrap();
    let b = message.body().clone().unwrap();
    assert_eq!(b.ask_price.len(), 10);
    assert_eq!(b.bid_price.len(), 10);
    assert_eq!(b.ask_remained.len(), 10);
    assert_eq!(b.bid_remained.len(), 10);
    assert_eq!(b.ask_price, [70000, 70100, 70200, 70300, 70400, 70500, 70600, 70700, 70800, 70900]);
    assert_eq!(b.bid_price, [69900, 69800, 69700, 69600, 69500, 69400, 69300, 69200, 69100, 69000]);
    assert_eq!(b.ask_remained, [1000, 1001, 1002, 1003, 1004, 1005, 1006, 1007, 1008, 1009]);
    assert_eq!(b.bid_remained, [2000, 2001, 2002, 2003, 2004, 2005, 2006, 2007, 2008, 2009]);
    assert_eq!(b.ask_price[0], 70000);
    assert_eq!(b.bid_price[0], 69900);
}

#[test]
fn a_book_round_trips_every_field() {
    let message = Ordb::parse_on(&book(), "20240102").unwrap();
    let when = Time { year: 2024, month: 1, day: 2, hour: 9, minute: 30, second: 0, nanosecond: 0 };
    assert_eq!(*message.header().tr_id(), TrId::RealtimeOrdb);
    assert_eq!(*message.header().datetime(), when);
    let b = message.body().clone().unwrap();
    assert_eq!(b.shortcode, "005930");
    assert_eq!(b.time, when);
    assert_eq!(b.time_class_code, TimeClassCode::InMarket);
    assert_eq!(b.total_ask_order_remained, 30000);
    assert_eq!(b.total_bid_order_remained, 40000);
    assert_eq!(b.total_otc_ask_order_remained, 300);
    assert_eq!(b.total_otc_bid_order_remained, 400);
    assert_eq!(b.predicted_exec_price, 70050);
    assert_eq!(b.predicted_exec_quantity, 15);
    assert_eq!(b.predicted_volume, 1500);
    assert_eq!(b.predicted_vs_exec, -50);
    assert_eq!(b.predicted_vs_exec_sign, VsPriceSign::LowerLimit);
    assert_eq!(b.predicted_exec_price_rate_vs_yesterday.text().parse::<f32>().unwrap(), -0.07f32);
    assert_eq!(b.accumulative_exec_volume, 123456);
    assert_eq!(b.total_ask_order_remained_diff, -10);
    assert_eq!(b.total_bid_order_remained_diff, 20);
    assert_eq!(b.total_otc_ask_order_remained_diff, -30);
    assert_eq!(b.total_otc_bid_order_remained_diff, 40);
    let DealClassCode::IDK(code) = b.stock_deal_class_code;
    assert_eq!(code, "0");
}

#[test]
fn the_time_is_on_the_business_date_given() {
    let message = Ordb::parse_on(&book(), "20231229").unwrap();
    let t = message.header().datetime();
    assert_eq!((t.year, t.month, t.day, t.hour, t.minute), (2023, 12, 29, 9, 30));
}

#[test]
fn a_business_date_that_is_none_is_a_format_error() {
    assert_eq!(Ordb::parse_on(&book(), "today").unwrap_err(), Error::ChronoError);
    assert_eq!(Ordb::parse_on(&book(), "").unwrap_err(), Error::ChronoError);
}

#[test]
fn parse_takes_the_date_of_today() {
    let message = Ordb::parse(book()).unwrap();
    let today = Time::now();
    let t = message.header().datetime();
    assert!(t.year == today.year || t.year + 1 == today.year);
    assert_eq!((t.hour, t.minute, t.second), (9, 30, 0));
    assert_eq!(message.body().clone().unwrap().ask_price[9], 70900);
}

#[test]
fn a_level_that_is_no_number_is_an_integer_error() {
    for index in [3, 12, 13, 22, 23, 32, 33, 42] {
        assert_eq!(Ordb::parse_on(&with_value(index, "x"), "20240102").unwrap_err(), Error::ParseIntError);
    }
    assert_eq!(Ordb::parse_on(&with_value(3, "-1"), "20240102").unwrap_err(), Error::ParseIntError);
    assert_eq!(Ordb::parse_on(&with_value(5, "4294967296"), "20240102").unwrap_err(), Error::ParseIntError);
    assert!(Ordb::parse_on(&with_value(25, "4294967296"), "20240102").is_ok());
}

#[test]
fn a_book_with_the_wrong_number_of_fields_is_a_frame_error() {
    let values = book_values();
    assert_eq!(Ordb::parse_on(&frame_of("0|H0STASP0|001|005930", &values[..57]), "20240102").unwrap_err(), Error::FieldCount);
    assert_eq!(Ordb::parse_on(&(book() + "^1"), "20240102").unwrap_err(), Error::FieldCount);
    assert_eq!(Ordb::parse_on(&frame_of("0|H0STASP0|001", &values), "20240102").unwrap_err(), Error::FieldCount);
}

#[test]
fn other_faults_of_a_book_have_their_errors() {
    assert_eq!(Ordb::parse_on(&with_value(2, "E"), "20240102").unwrap_err(), Error::InvalidData);
    assert_eq!(Ordb::parse_on(&with_value(51, "7"), "20240102").unwrap_err(), Error::InvalidData);
    assert_eq!(Ordb::parse_on(&with_value(52, "-"), "20240102").unwrap_err(), Error::ParseFloatError);
    assert_eq!(Ordb::parse_on(&with_value(54, "1.5"), "20240102").unwrap_err(), Error::ParseIntError);
    assert_eq!(Ordb::parse_on(&with_value(1, "9h30"), "20240102").unwrap_err(), Error::ChronoError);
    assert_eq!(Ordb::parse_on(&frame_of("0|????????|001|005930", &book_values()), "20240102").unwrap_err(), Error::InvalidData);
}

#[test]
fn an_encrypted_book_has_no_body() {
    let message = Ordb::parse_on(&frame_of("1|H0STASP0|001|005930", &book_values()), "20240102").unwrap();
    assert!(message.body().is_none());
}

#[test]
fn a_control_frame_on_the_book_channel_has_no_body() {
    let message = Ordb::parse_on(r#"{"header":{"tr_id":"PINGPONG","datetime":"20240102093000"}}"#, "19990101").unwrap();
    assert_eq!(*message.header().tr_id(), TrId::PingPong);
    assert_eq!(message.header().datetime().year, 2024);
    assert!(message.body().is_none());
}
