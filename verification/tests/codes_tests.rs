use korea_investment_api::number::{decimal_string, pad_digits};
use korea_investment_api::codes::{
    parse_bool, parse_bool_field, CorrectionClass, CustomerType,
    DealClassCode, Direction, Environment, ExecClass, MarketOperationClassCode,
    MarketTerminationClassCode, OrderClass, Price, Quantity, TimeClassCode, TrId, TrType,
    VsPriceSign, What, When,
};
use korea_investment_api::error::Error;

#[test]
fn every_channel_code_is_read_back() {
    let all = [
        (TrId::RealStockCashBidOrder, "TTTC0802U"),
        (TrId::RealStockCashAskOrder, "TTTC0801U"),
        (TrId::VirtualStockCashBidOrder, "VTTC0802U"),
        (TrId::VirtualStockCashAskOrder, "VTTC0801U"),
        (TrId::RealStockCorrection, "TTTC0803U"),
        (TrId::VirtualStockCorrection, "VTTC0803U"),
        (TrId::DailyPrice, "FHKST01010400"),
        (TrId::VolumeRank, "FHPST01710000"),
        (TrId::InstockGrouplist, "HHKCM113004C7"),
        (TrId::InstockGroupItem, "HHKCM113004C6"),
        (TrId::BasicStockInfo, "CTPF1002R"),
        (TrId::RealtimeExec, "H0STCNT0"),
        (TrId::RealtimeOrdb, "H0STASP0"),
        (TrId::RealRealtimeMyExec, "H0STCNI0"),
        (TrId::VirtualRealtimeMyExec, "H0STCNI9"),
        (TrId::PingPong, "PINGPONG"),
    ];
    for (id, code) in all {
        assert_eq!(id.code(), code);
        assert_eq!(id.to_string(), code);
        assert_eq!(TrId::from_code(code.as_bytes()), Some(id));
    }
}

#[test]
fn unknown_channel_codes_are_none() {
    assert_eq!(TrId::from_code(b""), None);
    assert_eq!(TrId::from_code(b"H0STCNT"), None);
    assert_eq!(TrId::from_code(b"H0STCNT00"), None);
    assert_eq!(TrId::from_code(b"h0stcnt0"), None);
    assert_eq!(TrId::from_code(b"pingpong"), None);
}

#[test]
fn price_signs_map_one_to_one() {
    let all = [
        (VsPriceSign::UpperLimit, "1"),
        (VsPriceSign::Increase, "2"),
        (VsPriceSign::Steady, "3"),
        (VsPriceSign::Decrease, "4"),
        (VsPriceSign::LowerLimit, "5"),
    ];
    for (sign, code) in all {
        assert_eq!(sign.code(), code);
        assert_eq!(VsPriceSign::from_code(code.as_bytes()), Some(sign));
        assert_eq!(VsPriceSign::read_field(code.as_bytes()), Ok(sign));
    }
    assert_eq!(VsPriceSign::from_code(b"0"), None);
    assert_eq!(VsPriceSign::from_code(b"6"), None);
    assert_eq!(VsPriceSign::from_code(b"22"), None);
    assert_eq!(VsPriceSign::read_field(b""), Err(Error::InvalidData));
}

#[test]
fn execution_classes_map_one_to_one() {
    assert_eq!(ExecClass::from_code(b"1"), Some(ExecClass::Bid));
    assert_eq!(ExecClass::from_code(b"3"), Some(ExecClass::PreMarket));
    assert_eq!(ExecClass::from_code(b"5"), Some(ExecClass::Ask));
    assert_eq!(ExecClass::from_code(b"2"), None);
    assert_eq!(ExecClass::read_field(b"4"), Err(Error::InvalidData));
}

#[test]
fn time_classes_map_one_to_one() {
    let all = [
        (TimeClassCode::InMarket, "0"),
        (TimeClassCode::PostMarketPrediction, "A"),
        (TimeClassCode::PreMarketPrediction, "B"),
        (TimeClassCode::PostNinePmPredictionOrVi, "C"),
        (TimeClassCode::OutMarketSinglePricePredict, "D"),
    ];
    for (class, code) in all {
        assert_eq!(class.code(), code);
        assert_eq!(TimeClassCode::from_code(code.as_bytes()), Some(class));
    }
    assert_eq!(TimeClassCode::from_code(b"a"), None);
    assert_eq!(TimeClassCode::from_code(b"E"), None);
}

#[test]
fn directions_are_sell_then_buy() {
    assert_eq!(Direction::from_code(b"01"), Some(Direction::Ask));
    assert_eq!(Direction::from_code(b"02"), Some(Direction::Bid));
    assert_eq!(Direction::from_code(b"1"), None);
    assert_eq!(Direction::from_code(b"03"), None);
}

#[test]
fn correction_classes_map_one_to_one() {
    assert_eq!(CorrectionClass::from_code(b"0"), Some(CorrectionClass::Absent));
    assert_eq!(CorrectionClass::from_code(b"01"), Some(CorrectionClass::Correction));
    assert_eq!(CorrectionClass::from_code(b"02"), Some(CorrectionClass::Cancel));
    assert_eq!(CorrectionClass::from_code(b"00"), None);
    assert_eq!(CorrectionClass::Absent.to_string(), "0");
    assert_eq!(CorrectionClass::Cancel.to_string(), "02");
}

#[test]
fn order_classes_map_one_to_one() {
    let all = [
        (OrderClass::Limit, "00"),
        (OrderClass::Market, "01"),
        (OrderClass::ConditionalLimit, "02"),
        (OrderClass::Best, "03"),
        (OrderClass::First, "04"),
        (OrderClass::PreMarket, "05"),
        (OrderClass::PostMarket, "06"),
        (OrderClass::OutMarketSinglePrice, "07"),
        (OrderClass::MyStock, "08"),
        (OrderClass::MyStockSOption, "09"),
        (OrderClass::MyStockMoneyTrust, "10"),
        (OrderClass::IOCLimit, "11"),
        (OrderClass::FOKLimit, "12"),
        (OrderClass::IOCMarket, "13"),
        (OrderClass::FOKMarket, "14"),
        (OrderClass::IOCBest, "15"),
        (OrderClass::FOKBest, "16"),
        (OrderClass::MidMarketMassive, "51"),
    ];
    for (class, code) in all {
        assert_eq!(class.to_string(), code);
        assert_eq!(OrderClass::from_code(code.as_bytes()), Some(class));
    }
    assert_eq!(OrderClass::from_code(b"17"), None);
    assert_eq!(OrderClass::default(), OrderClass::Limit);
}

#[test]
fn customer_and_request_types_have_their_codes() {
    assert_eq!(CustomerType::Business.code(), "B");
    assert_eq!(CustomerType::Personal.code(), "P");
    assert_eq!(CustomerType::from_code(b"P"), Some(CustomerType::Personal));
    assert_eq!(TrType::Register.code(), "1");
    assert_eq!(TrType::Unregister.code(), "2");
    assert_eq!(TrType::from_code(b"3"), None);
}

#[test]
fn market_operation_codes_are_read_by_character() {
    assert_eq!(
        MarketOperationClassCode::from_code(b"20"),
        Some(MarketOperationClassCode(When::Market, What::Normal))
    );
    assert_eq!(
        MarketOperationClassCode::from_code(b"31"),
        Some(MarketOperationClassCode(When::PostMarket, What::EndPrice))
    );
    let code = MarketOperationClassCode::from_code(b"87").unwrap();
    assert_eq!(*code.when(), When::TodayBuyIn);
    assert_eq!(*code.what(), What::Clearance);
}

#[test]
fn market_operation_codes_look_at_two_characters_only() {
    assert_eq!(
        MarketOperationClassCode::from_code(b"20x"),
        Some(MarketOperationClassCode(When::Market, What::Normal))
    );
    assert_eq!(MarketOperationClassCode::from_code(b"2"), None);
    assert_eq!(MarketOperationClassCode::from_code(b""), None);
    assert_eq!(MarketOperationClassCode::from_code(b"50"), None);
    assert_eq!(MarketOperationClassCode::from_code(b"29"), None);
    assert_eq!(MarketOperationClassCode::read_field(b"99"), Err(Error::InvalidData));
}

#[test]
fn every_termination_code_means_terminated() {
    assert_eq!(MarketTerminationClassCode::from_code(b""), MarketTerminationClassCode::Terminated);
    assert_eq!(MarketTerminationClassCode::from_code(b"0"), MarketTerminationClassCode::Terminated);
}

#[test]
fn deal_class_keeps_its_text() {
    let DealClassCode::IDK(text) = DealClassCode::IDK("0".to_string());
    assert_eq!(text, "0");
}

#[test]
fn yes_and_no_are_read_tolerantly() {
    for yes in ["1", "TRUE", "true", "True", "T", "t", "Y", "y"] {
        assert!(parse_bool(yes), "{yes:?}");
        assert!(parse_bool_field(yes.as_bytes()), "{yes:?}");
    }
    for no in ["0", "FALSE", "false", "F", "f", "N", "n", "", "yes", "no", "2", " Y", "Y ", "tru"] {
        assert!(!parse_bool(no), "{no:?}");
    }
}

#[test]
fn environments_are_named() {
    assert_eq!(Environment::Real.name(), "Real");
    assert_eq!(Environment::Virtual.to_string(), "Virtual");
    assert_eq!(Environment::from_str("real"), Environment::Real);
    assert_eq!(Environment::from_str("REAL"), Environment::Real);
    assert_eq!(Environment::from_str("virtual"), Environment::Virtual);
    assert_eq!(Environment::from_str("anything"), Environment::Virtual);
    assert_eq!(Environment::default(), Environment::Virtual);
    assert_eq!(Environment::Real.my_exec_channel(), TrId::RealRealtimeMyExec);
    assert_eq!(Environment::Virtual.my_exec_channel(), TrId::VirtualRealtimeMyExec);
}

#[test]
fn quantities_and_prices_print_in_decimal() {
    assert_eq!(Quantity::from(10).to_string(), "10");
    assert_eq!(Quantity::from(10).get(), 10);
    assert_eq!(Price::from(70000).to_string(), "70000");
    assert_eq!(Price::from(0).to_string(), "0");
    assert_eq!(Price::from(u32::MAX).to_string(), "4294967295");
    assert_eq!(Price::from(5), Price::from(5));
}

#[test]
fn digits_are_padded_on_the_left() {
    assert_eq!(pad_digits(7, 2), b"07".to_vec());
    assert_eq!(pad_digits(12, 2), b"12".to_vec());
    assert_eq!(pad_digits(123, 2), b"123".to_vec());
    assert_eq!(pad_digits(0, 4), b"0000".to_vec());
    assert_eq!(pad_digits(0, 0), b"0".to_vec());
    assert_eq!(pad_digits(2024, 4), b"2024".to_vec());
    assert_eq!(decimal_string(0), "0");
    assert_eq!(decimal_string(u64::MAX), "18446744073709551615");
}

#[test]
fn quantities_and_prices_are_read_from_text() {
    assert_eq!(Quantity::from_text("10"), Some(Quantity::from(10)));
    assert_eq!(Quantity::from_text(" 10\n"), Some(Quantity::from(10)));
    assert_eq!(Quantity::from_text("\u{3000}+7\u{a0}"), Some(Quantity::from(7)));
    assert_eq!(Quantity::from_text("0"), Some(Quantity::from(0)));
    assert_eq!(Quantity::from_text("4294967295"), Some(Quantity::from(u32::MAX)));
    assert_eq!(Price::from_text("70000"), Some(Price::from(70000)));
    assert_eq!(Price::from_text("\t0070000 "), Some(Price::from(70000)));
}

#[test]
fn what_is_no_number_is_no_quantity_and_no_price() {
    for bad in ["", " ", "-1", "1 0", "4294967296", "1.0", "ten", "1\u{200b}", "+", "１０"] {
        assert_eq!(Quantity::from_text(bad), None, "{bad:?}");
        assert_eq!(Price::from_text(bad), None, "{bad:?}");
        assert_eq!(Quantity::from_text(bad).map(|q| q.get()), bad.trim().parse::<u32>().ok());
    }
}

#[test]
fn a_quantity_goes_through_text_and_back() {
    for q in [0, 1, 9, 10, 99, 100, 70000, 2147483647, 2147483648, u32::MAX - 1, u32::MAX] {
        assert_eq!(Quantity::from(q).to_string(), q.to_string());
        assert_eq!(Quantity::from_text(&Quantity::from(q).to_string()), Some(Quantity::from(q)));
        assert_eq!(Price::from(q).to_string(), q.to_string());
        assert_eq!(Price::from_text(&Price::from(q).to_string()), Some(Price::from(q)));
        assert_eq!(Quantity::from_text(&format!(" {q} ")).map(|v| v.get()), Some(q));
    }
}
