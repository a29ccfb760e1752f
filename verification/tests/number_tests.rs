use korea_investment_api::number::{check_decimal, parse_i32, parse_i64, parse_u32, parse_u64, Decimal};

#[test]
fn unsigned_numbers_are_read() {
    assert_eq!(parse_u32(b"70000"), Some(70000));
    assert_eq!(parse_u32(b"0"), Some(0));
    assert_eq!(parse_u32(b"+12"), Some(12));
    assert_eq!(parse_u32(b"007"), Some(7));
    assert_eq!(parse_u64(b"8641920000"), Some(8_641_920_000));
}

#[test]
fn unsigned_limits_are_exact() {
    assert_eq!(parse_u32(b"4294967295"), Some(u32::MAX));
    assert_eq!(parse_u32(b"4294967296"), None);
    assert_eq!(parse_u32(b"00000000004294967295"), Some(u32::MAX));
    assert_eq!(parse_u64(b"18446744073709551615"), Some(u64::MAX));
    assert_eq!(parse_u64(b"18446744073709551616"), None);
    assert_eq!(parse_u64(b"99999999999999999999999"), None);
}

#[test]
fn unsigned_refuses_what_is_no_number() {
    for bad in ["", "+", "-", "-1", "-0", " 1", "1 ", "1.0", "1e3", "0x10", "１２", "12a", "++1"] {
        assert_eq!(parse_u32(bad.as_bytes()), None, "{bad:?}");
        assert_eq!(parse_u64(bad.as_bytes()), None, "{bad:?}");
    }
}

#[test]
fn signed_numbers_are_read() {
    assert_eq!(parse_i32(b"-500"), Some(-500));
    assert_eq!(parse_i32(b"+500"), Some(500));
    assert_eq!(parse_i32(b"500"), Some(500));
    assert_eq!(parse_i32(b"-0"), Some(0));
    assert_eq!(parse_i64(b"-20"), Some(-20));
}

#[test]
fn signed_limits_are_exact() {
    assert_eq!(parse_i32(b"2147483647"), Some(i32::MAX));
    assert_eq!(parse_i32(b"2147483648"), None);
    assert_eq!(parse_i32(b"-2147483648"), Some(i32::MIN));
    assert_eq!(parse_i32(b"-2147483649"), None);
    assert_eq!(parse_i64(b"9223372036854775807"), Some(i64::MAX));
    assert_eq!(parse_i64(b"9223372036854775808"), None);
    assert_eq!(parse_i64(b"-9223372036854775808"), Some(i64::MIN));
    assert_eq!(parse_i64(b"-9223372036854775809"), None);
}

#[test]
fn signed_refuses_what_is_no_number() {
    for bad in ["", "+", "-", "--1", "+-1", "- 1", "1-", "1.5", "-1e3"] {
        assert_eq!(parse_i32(bad.as_bytes()), None, "{bad:?}");
        assert_eq!(parse_i64(bad.as_bytes()), None, "{bad:?}");
    }
}

#[test]
fn integers_agree_with_the_standard_library() {
    let samples = [
        "0", "1", "-1", "+1", "", "+", "-", "00", "-00", "4294967295", "4294967296", "-2147483648",
        "2147483647", "2147483648", "18446744073709551615", "18446744073709551616",
        "9223372036854775808", "-9223372036854775809", "12x", "x12", " 12", "1_000", "٣",
    ];
    for s in samples {
        assert_eq!(parse_u32(s.as_bytes()), s.parse::<u32>().ok(), "{s:?}");
        assert_eq!(parse_u64(s.as_bytes()), s.parse::<u64>().ok(), "{s:?}");
        assert_eq!(parse_i32(s.as_bytes()), s.parse::<i32>().ok(), "{s:?}");
        assert_eq!(parse_i64(s.as_bytes()), s.parse::<i64>().ok(), "{s:?}");
    }
}

#[test]
fn decimal_texts_are_recognised() {
    for good in [
        "0", "0.72", "-0.72", "+0.72", "69850.12", "5.", ".5", "1e5", "1E5", "1e+5", "1e-5",
        "1.5e10", ".5e1", "5.e1", "inf", "-inf", "+Infinity", "NaN", "nan", "INFINITY", "000.000",
    ] {
        assert!(check_decimal(good.as_bytes()), "{good:?}");
    }
}

#[test]
fn what_is_no_decimal_text_is_refused() {
    for bad in [
        "", "+", "-", ".", "e5", "1e", "1e+", "1e5.0", "1..5", "1.5.5", " 1.5", "1.5 ", "1,5", "--1",
        "+-1", "in", "infinit", "nanx", "0x1p3", "1_0", "１.５", "1e5e5", ".e5", "+.", "infinityy",
    ] {
        assert!(!check_decimal(bad.as_bytes()), "{bad:?}");
    }
}

#[test]
fn decimal_texts_agree_with_the_standard_library() {
    let samples = [
        "0", "0.72", "-0.72", "+0.72", "5.", ".5", ".", "", "+", "-", "1e5", "1E5", "1e+5", "1e-5",
        "1e", "e5", "1e+", "1.5e10", "inf", "-inf", "+Infinity", "NaN", "nan", "infinit", "nanx",
        " 1", "1 ", "1,5", "1..5", "1_0", "١", "+.5", "-5.", "+.", "1e5.0", "0x10", "1f", "Inf",
        "iNfInItY", "-nan", "+NAN", "1e00005", "00.00e-00",
    ];
    for s in samples {
        assert_eq!(check_decimal(s.as_bytes()), s.parse::<f64>().is_ok(), "{s:?}");
        assert_eq!(check_decimal(s.as_bytes()), s.parse::<f32>().is_ok(), "{s:?}");
    }
}

#[test]
fn a_decimal_keeps_its_text_and_its_value() {
    let d = Decimal::parse(b"69850.12").unwrap();
    assert_eq!(d.text(), "69850.12");
    assert_eq!(d.text().parse::<f64>().unwrap(), 69850.12);
    let e = d.clone();
    assert_eq!(e.text(), "69850.12");
    let n = Decimal::parse(b"-0.72").unwrap();
    assert_eq!(n.text().parse::<f32>().unwrap(), -0.72f32);
}

#[test]
fn a_decimal_is_not_made_of_what_is_no_number() {
    assert!(Decimal::parse(b"").is_none());
    assert!(Decimal::parse(b"abc").is_none());
    assert!(Decimal::parse(b"1.2.3").is_none());
}

#[test]
fn a_number_written_in_decimal_is_read_back() {
    use_round_trip(0);
    use_round_trip(7);
    use_round_trip(10);
    use_round_trip(4_294_967_295);
    use_round_trip(4_294_967_296);
    use_round_trip(9_223_372_036_854_775_807);
    use_round_trip(9_223_372_036_854_775_808);
    use_round_trip(u64::MAX);
}

fn use_round_trip(n: u64) {
    let text = korea_investment_api::number::decimal_string(n);
    assert_eq!(text, n.to_string());
    assert_eq!(parse_u64(text.as_bytes()), Some(n));
    assert_eq!(parse_u32(text.as_bytes()), u32::try_from(n).ok());
    assert_eq!(parse_i64(text.as_bytes()), i64::try_from(n).ok());
    let padded = korea_investment_api::number::pad_digits(n, 25);
    assert_eq!(padded.len(), 25);
    assert_eq!(parse_u64(&padded), Some(n));
}
