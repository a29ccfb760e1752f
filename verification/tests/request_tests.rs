use korea_investment_api::codes::{CorrectionClass, CustomerType, OrderClass, Price, Quantity, TrId};
use korea_investment_api::config::Config;
use korea_investment_api::codes::Environment;
use korea_investment_api::error::{Error, ErrorKind};
use korea_investment_api::futureoption;
use korea_investment_api::futureoption::{KrxOrderClass, OrderClass as Fo};
use korea_investment_api::market::{
    BelongClassCode, ExCode, ExchangeCode, MarketCode, MarketId, OrderDivision, PeriodCode,
    ProductTypeCode, SecurityGroupId, ShareClassCode, StockKindCode, TargetClassCode,
    TargetExeceptClassCode,
};
use korea_investment_api::parameter::{
    BasicStockInfoParameter, DailyPriceParameter, GroupItemParameter, GroupListParameter,
    VolumeRankParameter,
};
use korea_investment_api::request::{
    assemble_order, ApprovalKeyCreationBody, Correction, Order, RequestBody, RequestHeader,
    TokenCreationBody, TokenRevokeBody,
};
use korea_investment_api::response::{ApprovalKeyCreation, HashKey, TokenCreation};

#[test]
fn credential_bodies_ask_for_client_credentials() {
    let a = ApprovalKeyCreationBody::new("secret".to_string(), "key".to_string());
    assert_eq!((a.grant_type.as_str(), a.secretkey.as_str(), a.appkey.as_str()), ("client_credentials", "secret", "key"));
    let t = TokenCreationBody::new("secret".to_string(), "key".to_string());
    assert_eq!((t.grant_type.as_str(), t.appsecret.as_str(), t.appkey.as_str()), ("client_credentials", "secret", "key"));
    let r = TokenRevokeBody::new("key".to_string(), "secret".to_string(), "token".to_string());
    assert_eq!((r.appkey.as_str(), r.appsecret.as_str(), r.token.as_str()), ("key", "secret", "token"));
}

#[test]
fn a_request_header_is_for_a_person() {
    let h = RequestHeader::new("Bearer t".to_string(), "key".to_string(), "secret".to_string(), TrId::RealStockCashBidOrder);
    assert_eq!(h.authorization, "Bearer t");
    assert_eq!(h.tr_id, TrId::RealStockCashBidOrder);
    assert_eq!(h.custtype, CustomerType::Personal);
}

#[test]
fn an_order_is_the_documented_json() {
    let order = Order::new("12345678".to_string(), "01".to_string(), "005930".to_string(), OrderClass::Limit, Quantity::from(10), Price::from(70000));
    assert_eq!(
        order.get_json_string(),
        r#"{"CANO":"12345678","ACNT_PRDT_CD":"01","PDNO":"005930","ORD_DVSN":"00","ORD_QTY":"10", "ORD_UNPR":"70000"}"#
    );
}

#[test]
fn an_order_with_a_division_is_the_same_json() {
    let body = RequestBody::new("12345678".to_string(), "01".to_string(), "005930".to_string(), OrderDivision::Market, Quantity::from(1), Price::from(0));
    assert_eq!(
        body.get_json_string(),
        r#"{"CANO":"12345678","ACNT_PRDT_CD":"01","PDNO":"005930","ORD_DVSN":"01","ORD_QTY":"1", "ORD_UNPR":"0"}"#
    );
}

#[test]
fn an_order_escapes_its_free_texts() {
    let order = Order::new("a\"b".to_string(), "01".to_string(), "x".to_string(), OrderClass::Market, Quantity::from(1), Price::from(2));
    let text = order.get_json_string();
    let doc = json::parse(&text).unwrap();
    assert_eq!(doc["CANO"], "a\"b");
    assert_eq!(doc["ORD_DVSN"], "01");
    assert_eq!(doc["ORD_QTY"], "1");
    assert_eq!(doc["ORD_UNPR"], "2");
}

#[test]
fn an_order_is_assembled_from_its_literals() {
    assert_eq!(
        assemble_order("1", "2", "3", "00", Quantity::from(4), Price::from(5)),
        r#"{"CANO":1,"ACNT_PRDT_CD":2,"PDNO":3,"ORD_DVSN":"00","ORD_QTY":"4", "ORD_UNPR":"5"}"#
    );
}

#[test]
fn a_correction_is_the_documented_json() {
    let c = Correction::new(
        "12345678".to_string(), "01".to_string(), "06010".to_string(), "0000012345".to_string(),
        OrderClass::Limit, CorrectionClass::Cancel, Quantity::from(10), Price::from(0), true,
    );
    assert_eq!(
        c.get_json_string(),
        r#"{"CANO":"12345678","ACNT_PRDT_CD":"01","KRX_FWDG_ORD_ORGNO": "06010","ORGN_ODNO":"0000012345","ORD_DVSN":"00","RVSE_CNCL_DVSN_CD":"02","ORD_QTY":"10","ORD_UNPR":"0","QTY_ALL_ORD_YN":"Y"}"#
    );
    let c = Correction::new(
        "1".to_string(), "2".to_string(), "3".to_string(), "4".to_string(),
        OrderClass::Market, CorrectionClass::Correction, Quantity::from(5), Price::from(6), false,
    );
    assert!(c.get_json_string().ends_with(r#""ORD_DVSN":"01","RVSE_CNCL_DVSN_CD":"01","ORD_QTY":"5","ORD_UNPR":"6","QTY_ALL_ORD_YN":"N"}"#));
}

#[test]
fn daily_price_parameters_are_listed_in_order() {
    let p = DailyPriceParameter::new(MarketCode::Stock, "005930".to_string(), PeriodCode::ThirtyDays, true);
    assert_eq!(p.fid_org_adj_prc, 0);
    let list = p.into_iter();
    assert_eq!(list[0], ("FID_COND_MRKT_DIV_CODE", "J".to_string()));
    assert_eq!(list[1], ("FID_INPUT_ISCD", "005930".to_string()));
    assert_eq!(list[2], ("FID_PERIOD_DIV_CODE", "D".to_string()));
    assert_eq!(list[3], ("FID_ORG_ADJ_PRC", "0".to_string()));
    let p = DailyPriceParameter::new(MarketCode::Etf, "069500".to_string(), PeriodCode::ThirtyMonths, false);
    assert_eq!(p.into_iter()[0].1, "ETF");
    assert_eq!(p.into_iter()[2].1, "M");
    assert_eq!(p.into_iter()[3].1, "1");
}

#[test]
fn volume_rank_parameters_are_listed_in_order() {
    let target = TargetClassCode { margin_30: true, margin_40: false, margin_50: true, margin_60: false, margin_100: true, credit_30: false, credit_40: true, credit_50: false, credit_60: true };
    let except = TargetExeceptClassCode { overheat: false, administrated: true, settlement_trading: false, insufficient_posting: false, preferred_share: true, suspended: true };
    let p = VolumeRankParameter::new("0000".to_string(), ShareClassCode::Common, BelongClassCode::Amount, target, except, Some(Price::from(1000)), None, Some(50000));
    let list = p.into_iter();
    let expected = [
        ("FID_COND_MRKT_DIV_CODE", "J"), ("FID_COND_SCR_DIV_CODE", "20171"), ("FID_INPUT_ISCD", "0000"),
        ("FID_DIV_CLS_CODE", "1"), ("FID_BLNG_CLS_CODE", "3"), ("FID_TRGT_CLS_CODE", "101010101"),
        ("FID_TRGT_EXLS_CLS_CODE", "010011"), ("FID_INPUT_PRICE_1", "1000"), ("FID_INPUT_PRICE_2", ""),
        ("FID_VOL_CNT", "50000"), ("FID_INPUT_DATE_1", ""),
    ];
    for (got, want) in list.iter().zip(expected.iter()) {
        assert_eq!((got.0, got.1.as_str()), *want);
    }
}

#[test]
fn group_parameters_are_listed_in_order() {
    let list = GroupListParameter::new("user01").into_iter();
    assert_eq!(list[0], ("TYPE", "1".to_string()));
    assert_eq!(list[1], ("FID_ETC_CLS_CODE", "00".to_string()));
    assert_eq!(list[2], ("USER_ID", "user01".to_string()));
    let list = GroupItemParameter::new("user01", "001").into_iter();
    let expected = [
        ("TYPE", "1"), ("USER_ID", "user01"), ("DATA_RANK", ""), ("INTER_GRP_CODE", "001"),
        ("INTER_GRP_NAME", ""), ("HTS_KOR_ISNM", ""), ("CNTG_CLS_CODE", ""), ("FID_ETC_CLS_CODE", "4"),
    ];
    for (got, want) in list.iter().zip(expected.iter()) {
        assert_eq!((got.0, got.1.as_str()), *want);
    }
}

#[test]
fn an_unknown_product_type_counts_as_stock() {
    assert_eq!(BasicStockInfoParameter::new("301", "101S03").prdt_type_cd, ProductTypeCode::FutureOption);
    assert_eq!(BasicStockInfoParameter::new("999", "005930").prdt_type_cd, ProductTypeCode::Stock);
    assert_eq!(BasicStockInfoParameter::new("", "005930").prdt_type_cd, ProductTypeCode::Stock);
    let list = BasicStockInfoParameter::new("306", "Q500001").into_iter();
    assert_eq!(list[0], ("PRDT_TYPE_CD", "306".to_string()));
    assert_eq!(list[1], ("PDNO", "Q500001".to_string()));
    assert_eq!(ProductTypeCode::default(), ProductTypeCode::Stock);
}

#[test]
fn quotation_codes_are_read_back() {
    for (id, code) in [(MarketId::Agricultural, "AGR"), (MarketId::Kosdaq, "KSQ"), (MarketId::Stock, "STK"), (MarketId::Etf, "ETF")] {
        assert_eq!(id.to_string(), code);
        assert_eq!(MarketId::from_str(code), Ok(id));
    }
    for (id, code) in [(SecurityGroupId::Income, "BC"), (SecurityGroupId::Options, "OP"), (SecurityGroupId::Stock, "ST"), (SecurityGroupId::TrustIncome, "TC")] {
        assert_eq!(id.to_string(), code);
        assert_eq!(SecurityGroupId::from_str(code), Ok(id));
    }
    for (id, code) in [(ExchangeCode::KoreaSecurities, "01"), (ExchangeCode::Gold, "21"), (ExchangeCode::US, "55"), (ExchangeCode::OutMarketSinglePrice, "81")] {
        assert_eq!(id.to_string(), code);
        assert_eq!(ExchangeCode::from_str(code), Ok(id));
    }
    for (id, code) in [(StockKindCode::Absent, "000"), (StockKindCode::Common, "101"), (StockKindCode::Preferred, "201"), (StockKindCode::Preferred2, "202"), (StockKindCode::Preferred20, "220"), (StockKindCode::After, "301"), (StockKindCode::Mixed, "401")] {
        assert_eq!(id.to_string(), code);
        assert_eq!(StockKindCode::from_str(code), Ok(id));
    }
    assert_eq!(ExCode::from_code(b"07"), Some(ExCode::QtrExRightsAndDividend));
    assert_eq!(ExCode::Absent.code(), "00");
}

#[test]
fn unknown_quotation_codes_break_the_protocol() {
    assert_eq!(MarketId::from_str("QQQ"), Err(Error::BrokenProtocol));
    assert_eq!(MarketId::from_str("stk"), Err(Error::BrokenProtocol));
    assert_eq!(SecurityGroupId::from_str(""), Err(Error::BrokenProtocol));
    assert_eq!(ExchangeCode::from_str("08"), Err(Error::BrokenProtocol));
    assert_eq!(StockKindCode::from_str("221"), Err(Error::BrokenProtocol));
    assert_eq!(ProductTypeCode::from_str("303"), Err(Error::BrokenProtocol));
    assert_eq!(Error::BrokenProtocol.kind(), ErrorKind::Request);
}

#[test]
fn futures_orders_ask_for_transmission() {
    let o = futureoption::Order::new(
        "12345678".to_string(), "03".to_string(), "02".to_string(), "101S03".to_string(),
        Quantity::from(1), Price::from(0), futureoption::OrderTypeClass::Market,
        futureoption::KrxOrderClass::from(futureoption::OrderClass::IOCMarket), futureoption::OrderClass::IOCMarket,
    );
    assert_eq!(o.ord_prcs_cvsn_cd, "02");
    assert_eq!(o.krx_nmpr_cdnt_cd, futureoption::KrxOrderClass::IOC);
    assert_eq!(o.ord_dvsn_cd.code(), "12");
}

#[test]
fn exchange_conditions_follow_the_kind_of_order() {
    for (kind, condition) in [
        (Fo::Limit, KrxOrderClass::Absent), (Fo::Market, KrxOrderClass::Absent), (Fo::ConditionalLimit, KrxOrderClass::Absent),
        (Fo::Best, KrxOrderClass::Absent), (Fo::IOCLimit, KrxOrderClass::IOC), (Fo::IOCMarket, KrxOrderClass::IOC),
        (Fo::IOCBest, KrxOrderClass::IOC), (Fo::FOKLimit, KrxOrderClass::FOK), (Fo::FOKMarket, KrxOrderClass::FOK),
        (Fo::FOKBest, KrxOrderClass::FOK),
    ] {
        assert_eq!(KrxOrderClass::from(kind), condition);
    }
    assert_eq!(KrxOrderClass::IOC.code(), "3");
    assert_eq!(KrxOrderClass::FOK.code(), "4");
    assert_eq!(KrxOrderClass::Absent.code(), "0");
}

#[test]
fn responses_hand_out_their_credentials() {
    assert_eq!(ApprovalKeyCreation { approval_key: "a".to_string() }.get_approval_key(), "a");
    assert_eq!(HashKey { json_body: "{}".to_string(), hash: "h".to_string() }.get_hash(), "h");
    assert_eq!(TokenCreation { access_token: "t".to_string(), token_type: "Bearer".to_string(), expires_in: 86400 }.get_access_token(), "t");
}

#[test]
fn a_config_takes_new_credentials() {
    let mut c = Config {
        hts_id: "user01".to_string(), cano: "12345678".to_string(), acnt_prdt_cd: "01".to_string(),
        app_key: "k".to_string(), app_secret: "s".to_string(), approval_key: None, token: None,
        environment: Environment::Virtual,
    };
    c.set_approval_key(Some("a".to_string()));
    c.set_token(Some("t".to_string()));
    assert_eq!(c.approval_key.as_deref(), Some("a"));
    assert_eq!(c.token.as_deref(), Some("t"));
    assert_eq!(c.hts_id, "user01");
}

#[test]
fn every_error_has_its_class() {
    assert_eq!(Error::WebSocket.kind(), ErrorKind::Connection);
    assert_eq!(Error::WrongTrId(TrId::PingPong).kind(), ErrorKind::ProtocolMismatch);
    for e in [Error::InvalidData, Error::FieldCount, Error::ParseIntError, Error::ParseFloatError, Error::ChronoError, Error::Utf8Error, Error::JsonError, Error::Base64DecodeError] {
        assert_eq!(e.kind(), ErrorKind::FrameParse);
        assert!(e.is_recoverable());
    }
    for e in [Error::AesInvalidLength, Error::AesDecryptError] {
        assert_eq!(e.kind(), ErrorKind::Crypto);
        assert!(e.is_recoverable());
    }
    assert_eq!(Error::SubscriptionRejected.kind(), ErrorKind::SubscriptionRejected);
    assert!(!Error::WebSocket.is_recoverable());
    assert!(!Error::SubscriptionRejected.is_recoverable());
}
