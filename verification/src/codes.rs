//! The closed sets of codes that the service uses on the wire, and the small
//! value types that travel with them.

use vstd::prelude::*;
use vstd::utf8::*;
use crate::error::Error;
use crate::number::{
    decimal_string, decimal_text, is_digit, lemma_decimal_round_trip, lemma_digits_round_trip,
    lemma_padded_ascii, lower, padded, parse_u32, spells, u32_of,
};
use crate::text::{
    bytes_of, is_text, lemma_ascii_chars, lemma_literal, lemma_trimmed_whole, trim, trimmed,
};

verus! {

/// The transaction a message belongs to: the REST calls and the streaming
/// channels, each with the code the service knows it by.
#[derive(Clone, Copy, Debug, PartialEq, Eq, Structural, Hash)]
pub enum TrId {
    /// Cash buy order, live trading.
    RealStockCashBidOrder,
    /// Cash sell order, live trading.
    RealStockCashAskOrder,
    /// Cash buy order, paper trading.
    VirtualStockCashBidOrder,
    /// Cash sell order, paper trading.
    VirtualStockCashAskOrder,
    /// Order correction or cancellation, live trading.
    RealStockCorrection,
    /// Order correction or cancellation, paper trading.
    VirtualStockCorrection,
    /// Daily price lookup.
    DailyPrice,
    /// Volume ranking lookup.
    VolumeRank,
    /// Watch-list groups.
    InstockGrouplist,
    /// Items of a watch-list group.
    InstockGroupItem,
    /// Basic information on an instrument.
    BasicStockInfo,
    /// The trade-tick channel.
    RealtimeExec,
    /// The order-book channel.
    RealtimeOrdb,
    /// The personal-fill channel, live trading.
    RealRealtimeMyExec,
    /// The personal-fill channel, paper trading.
    VirtualRealtimeMyExec,
    /// The keep-alive heartbeat.
    PingPong,
}

impl TrId {
    /// The code that stands for each variant on the wire.
    pub open spec fn code_text(self) -> Seq<char> {
        match self {
            TrId::RealStockCashBidOrder => "TTTC0802U"@,
            TrId::RealStockCashAskOrder => "TTTC0801U"@,
            TrId::VirtualStockCashBidOrder => "VTTC0802U"@,
            TrId::VirtualStockCashAskOrder => "VTTC0801U"@,
            TrId::RealStockCorrection => "TTTC0803U"@,
            TrId::VirtualStockCorrection => "VTTC0803U"@,
            TrId::DailyPrice => "FHKST01010400"@,
            TrId::VolumeRank => "FHPST01710000"@,
            TrId::InstockGrouplist => "HHKCM113004C7"@,
            TrId::InstockGroupItem => "HHKCM113004C6"@,
            TrId::BasicStockInfo => "CTPF1002R"@,
            TrId::RealtimeExec => "H0STCNT0"@,
            TrId::RealtimeOrdb => "H0STASP0"@,
            TrId::RealRealtimeMyExec => "H0STCNI0"@,
            TrId::VirtualRealtimeMyExec => "H0STCNI9"@,
            TrId::PingPong => "PINGPONG"@,
        }
    }

    /// The code of the variant.
    pub fn code(&self) -> (r: &'static str)
        ensures
            r@ == self.code_text(),
    {
        match self {
            TrId::RealStockCashBidOrder => "TTTC0802U",
            TrId::RealStockCashAskOrder => "TTTC0801U",
            TrId::VirtualStockCashBidOrder => "VTTC0802U",
            TrId::VirtualStockCashAskOrder => "VTTC0801U",
            TrId::RealStockCorrection => "TTTC0803U",
            TrId::VirtualStockCorrection => "VTTC0803U",
            TrId::DailyPrice => "FHKST01010400",
            TrId::VolumeRank => "FHPST01710000",
            TrId::InstockGrouplist => "HHKCM113004C7",
            TrId::InstockGroupItem => "HHKCM113004C6",
            TrId::BasicStockInfo => "CTPF1002R",
            TrId::RealtimeExec => "H0STCNT0",
            TrId::RealtimeOrdb => "H0STASP0",
            TrId::RealRealtimeMyExec => "H0STCNI0",
            TrId::VirtualRealtimeMyExec => "H0STCNI9",
            TrId::PingPong => "PINGPONG",
        }
    }

    /// The code as an owned string.
    pub fn to_string(&self) -> (r: String)
        ensures
            r@ == self.code_text(),
    {
        self.code().to_owned()
    }

    /// The variant that a code stands for, if any.
    pub open spec fn decoded(code: Seq<u8>) -> Option<TrId> {
        if code == bytes_of("TTTC0802U"@) {
            Some(TrId::RealStockCashBidOrder)
        } else if code == bytes_of("TTTC0801U"@) {
            Some(TrId::RealStockCashAskOrder)
        } else if code == bytes_of("VTTC0802U"@) {
            Some(TrId::VirtualStockCashBidOrder)
        } else if code == bytes_of("VTTC0801U"@) {
            Some(TrId::VirtualStockCashAskOrder)
        } else if code == bytes_of("TTTC0803U"@) {
            Some(TrId::RealStockCorrection)
        } else if code == bytes_of("VTTC0803U"@) {
            Some(TrId::VirtualStockCorrection)
        } else if code == bytes_of("FHKST01010400"@) {
            Some(TrId::DailyPrice)
        } else if code == bytes_of("FHPST01710000"@) {
            Some(TrId::VolumeRank)
        } else if code == bytes_of("HHKCM113004C7"@) {
            Some(TrId::InstockGrouplist)
        } else if code == bytes_of("HHKCM113004C6"@) {
            Some(TrId::InstockGroupItem)
        } else if code == bytes_of("CTPF1002R"@) {
            Some(TrId::BasicStockInfo)
        } else if code == bytes_of("H0STCNT0"@) {
            Some(TrId::RealtimeExec)
        } else if code == bytes_of("H0STASP0"@) {
            Some(TrId::RealtimeOrdb)
        } else if code == bytes_of("H0STCNI0"@) {
            Some(TrId::RealRealtimeMyExec)
        } else if code == bytes_of("H0STCNI9"@) {
            Some(TrId::VirtualRealtimeMyExec)
        } else if code == bytes_of("PINGPONG"@) {
            Some(TrId::PingPong)
        } else {
            None
        }
    }

    /// Reads a code.
    pub fn from_code(code: &[u8]) -> (r: Option<TrId>)
        ensures
            r == TrId::decoded(code@),
    {
        if is_text(code, "TTTC0802U") {
            Some(TrId::RealStockCashBidOrder)
        } else if is_text(code, "TTTC0801U") {
            Some(TrId::RealStockCashAskOrder)
        } else if is_text(code, "VTTC0802U") {
            Some(TrId::VirtualStockCashBidOrder)
        } else if is_text(code, "VTTC0801U") {
            Some(TrId::VirtualStockCashAskOrder)
        } else if is_text(code, "TTTC0803U") {
            Some(TrId::RealStockCorrection)
        } else if is_text(code, "VTTC0803U") {
            Some(TrId::VirtualStockCorrection)
        } else if is_text(code, "FHKST01010400") {
            Some(TrId::DailyPrice)
        } else if is_text(code, "FHPST01710000") {
            Some(TrId::VolumeRank)
        } else if is_text(code, "HHKCM113004C7") {
            Some(TrId::InstockGrouplist)
        } else if is_text(code, "HHKCM113004C6") {
            Some(TrId::InstockGroupItem)
        } else if is_text(code, "CTPF1002R") {
            Some(TrId::BasicStockInfo)
        } else if is_text(code, "H0STCNT0") {
            Some(TrId::RealtimeExec)
        } else if is_text(code, "H0STASP0") {
            Some(TrId::RealtimeOrdb)
        } else if is_text(code, "H0STCNI0") {
            Some(TrId::RealRealtimeMyExec)
        } else if is_text(code, "H0STCNI9") {
            Some(TrId::VirtualRealtimeMyExec)
        } else if is_text(code, "PINGPONG") {
            Some(TrId::PingPong)
        } else {
            None
        }
    }

    /// Every variant is read back from its own code.
    pub proof fn lemma_code_round_trip(v: TrId)
        ensures
            TrId::decoded(bytes_of(v.code_text())) == Some(v),
    {
        reveal_strlit("TTTC0802U");
        reveal_strlit("TTTC0801U");
        reveal_strlit("VTTC0802U");
        reveal_strlit("VTTC0801U");
        reveal_strlit("TTTC0803U");
        reveal_strlit("VTTC0803U");
        reveal_strlit("FHKST01010400");
        reveal_strlit("FHPST01710000");
        reveal_strlit("HHKCM113004C7");
        reveal_strlit("HHKCM113004C6");
        reveal_strlit("CTPF1002R");
        reveal_strlit("H0STCNT0");
        reveal_strlit("H0STASP0");
        reveal_strlit("H0STCNI0");
        reveal_strlit("H0STCNI9");
        reveal_strlit("PINGPONG");
        lemma_literal("TTTC0802U"@);
        lemma_literal("TTTC0801U"@);
        lemma_literal("VTTC0802U"@);
        lemma_literal("VTTC0801U"@);
        lemma_literal("TTTC0803U"@);
        lemma_literal("VTTC0803U"@);
        lemma_literal("FHKST01010400"@);
        lemma_literal("FHPST01710000"@);
        lemma_literal("HHKCM113004C7"@);
        lemma_literal("HHKCM113004C6"@);
        lemma_literal("CTPF1002R"@);
        lemma_literal("H0STCNT0"@);
        lemma_literal("H0STASP0"@);
        lemma_literal("H0STCNI0"@);
        lemma_literal("H0STCNI9"@);
        lemma_literal("PINGPONG"@);
        assert("TTTC0802U"@[0] == 'T');
        assert("TTTC0802U"@[7] == '2');
        assert("TTTC0801U"@[0] == 'T');
        assert("TTTC0801U"@[7] == '1');
        assert("VTTC0802U"@[0] == 'V');
        assert("VTTC0802U"@[7] == '2');
        assert("VTTC0801U"@[0] == 'V');
        assert("VTTC0801U"@[7] == '1');
        assert("TTTC0803U"@[0] == 'T');
        assert("TTTC0803U"@[7] == '3');
        assert("VTTC0803U"@[0] == 'V');
        assert("VTTC0803U"@[7] == '3');
        assert("FHKST01010400"@[0] == 'F');
        assert("FHKST01010400"@[2] == 'K');
        assert("FHPST01710000"@[0] == 'F');
        assert("FHPST01710000"@[2] == 'P');
        assert("HHKCM113004C7"@[0] == 'H');
        assert("HHKCM113004C7"@[12] == '7');
        assert("HHKCM113004C6"@[0] == 'H');
        assert("HHKCM113004C6"@[12] == '6');
        assert("CTPF1002R"@[0] == 'C');
        assert("H0STCNT0"@[0] == 'H');
        assert("H0STCNT0"@[4] == 'C');
        assert("H0STCNT0"@[6] == 'T');
        assert("H0STASP0"@[0] == 'H');
        assert("H0STASP0"@[4] == 'A');
        assert("H0STCNI0"@[0] == 'H');
        assert("H0STCNI0"@[4] == 'C');
        assert("H0STCNI0"@[6] == 'I');
        assert("H0STCNI0"@[7] == '0');
        assert("H0STCNI9"@[0] == 'H');
        assert("H0STCNI9"@[4] == 'C');
        assert("H0STCNI9"@[6] == 'I');
        assert("H0STCNI9"@[7] == '9');
        assert("PINGPONG"@[0] == 'P');
    }
}

/// Whether the customer is a business or a person.
#[derive(Clone, Copy, Debug, PartialEq, Eq, Structural)]
pub enum CustomerType {
    Business,
    Personal,
}

impl CustomerType {
    /// The code that stands for each variant on the wire.
    pub open spec fn code_text(self) -> Seq<char> {
        match self {
            CustomerType::Business => "B"@,
            CustomerType::Personal => "P"@,
        }
    }

    /// The code of the variant.
    pub fn code(&self) -> (r: &'static str)
        ensures
            r@ == self.code_text(),
    {
        match self {
            CustomerType::Business => "B",
            CustomerType::Personal => "P",
        }
    }

    /// The code as an owned string.
    pub fn to_string(&self) -> (r: String)
        ensures
            r@ == self.code_text(),
    {
        self.code().to_owned()
    }

    /// The variant that a code stands for, if any.
    pub open spec fn decoded(code: Seq<u8>) -> Option<CustomerType> {
        if code == bytes_of("B"@) {
            Some(CustomerType::Business)
        } else if code == bytes_of("P"@) {
            Some(CustomerType::Personal)
        } else {
            None
        }
    }

    /// Reads a code.
    pub fn from_code(code: &[u8]) -> (r: Option<CustomerType>)
        ensures
            r == CustomerType::decoded(code@),
    {
        if is_text(code, "B") {
            Some(CustomerType::Business)
        } else if is_text(code, "P") {
            Some(CustomerType::Personal)
        } else {
            None
        }
    }

    /// Every variant is read back from its own code.
    pub proof fn lemma_code_round_trip(v: CustomerType)
        ensures
            CustomerType::decoded(bytes_of(v.code_text())) == Some(v),
    {
        reveal_strlit("B");
        reveal_strlit("P");
        lemma_literal("B"@);
        lemma_literal("P"@);
        assert("B"@[0] == 'B');
        assert("P"@[0] == 'P');
    }
}

/// What a subscription message asks for.
#[derive(Clone, Copy, Debug, PartialEq, Eq, Structural)]
pub enum TrType {
    /// Start the subscription.
    Register,
    /// End the subscription.
    Unregister,
}

impl TrType {
    /// The code that stands for each variant on the wire.
    pub open spec fn code_text(self) -> Seq<char> {
        match self {
            TrType::Register => "1"@,
            TrType::Unregister => "2"@,
        }
    }

    /// The code of the variant.
    pub fn code(&self) -> (r: &'static str)
        ensures
            r@ == self.code_text(),
    {
        match self {
            TrType::Register => "1",
            TrType::Unregister => "2",
        }
    }

    /// The code as an owned string.
    pub fn to_string(&self) -> (r: String)
        ensures
            r@ == self.code_text(),
    {
        self.code().to_owned()
    }

    /// The variant that a code stands for, if any.
    pub open spec fn decoded(code: Seq<u8>) -> Option<TrType> {
        if code == bytes_of("1"@) {
            Some(TrType::Register)
        } else if code == bytes_of("2"@) {
            Some(TrType::Unregister)
        } else {
            None
        }
    }

    /// Reads a code.
    pub fn from_code(code: &[u8]) -> (r: Option<TrType>)
        ensures
            r == TrType::decoded(code@),
    {
        if is_text(code, "1") {
            Some(TrType::Register)
        } else if is_text(code, "2") {
            Some(TrType::Unregister)
        } else {
            None
        }
    }

    /// Every variant is read back from its own code.
    pub proof fn lemma_code_round_trip(v: TrType)
        ensures
            TrType::decoded(bytes_of(v.code_text())) == Some(v),
    {
        reveal_strlit("1");
        reveal_strlit("2");
        lemma_literal("1"@);
        lemma_literal("2"@);
        assert("1"@[0] == '1');
        assert("2"@[0] == '2');
    }
}

/// The kind of an order.
#[derive(Clone, Copy, Debug, PartialEq, Eq, Structural)]
pub enum OrderClass {
    /// Limit order.
    Limit,
    /// Market order.
    Market,
    /// Conditional limit order.
    ConditionalLimit,
    /// Best-price limit order.
    Best,
    /// First-priority limit order.
    First,
    /// Before the opening, off-hours.
    PreMarket,
    /// After the close, off-hours.
    PostMarket,
    /// Off-hours single price.
    OutMarketSinglePrice,
    /// Treasury stock.
    MyStock,
    /// Treasury stock, stock option.
    MyStockSOption,
    /// Treasury stock, money trust.
    MyStockMoneyTrust,
    /// Limit, immediate or cancel.
    IOCLimit,
    /// Limit, fill or kill.
    FOKLimit,
    /// Market, immediate or cancel.
    IOCMarket,
    /// Market, fill or kill.
    FOKMarket,
    /// Best price, immediate or cancel.
    IOCBest,
    /// Best price, fill or kill.
    FOKBest,
    /// Block trade during the session.
    MidMarketMassive,
}

impl OrderClass {
    /// The code that stands for each variant on the wire.
    pub open spec fn code_text(self) -> Seq<char> {
        match self {
            OrderClass::Limit => "00"@,
            OrderClass::Market => "01"@,
            OrderClass::ConditionalLimit => "02"@,
            OrderClass::Best => "03"@,
            OrderClass::First => "04"@,
            OrderClass::PreMarket => "05"@,
            OrderClass::PostMarket => "06"@,
            OrderClass::OutMarketSinglePrice => "07"@,
            OrderClass::MyStock => "08"@,
            OrderClass::MyStockSOption => "09"@,
            OrderClass::MyStockMoneyTrust => "10"@,
            OrderClass::IOCLimit => "11"@,
            OrderClass::FOKLimit => "12"@,
            OrderClass::IOCMarket => "13"@,
            OrderClass::FOKMarket => "14"@,
            OrderClass::IOCBest => "15"@,
            OrderClass::FOKBest => "16"@,
            OrderClass::MidMarketMassive => "51"@,
        }
    }

    /// The code of the variant.
    pub fn code(&self) -> (r: &'static str)
        ensures
            r@ == self.code_text(),
    {
        match self {
            OrderClass::Limit => "00",
            OrderClass::Market => "01",
            OrderClass::ConditionalLimit => "02",
            OrderClass::Best => "03",
            OrderClass::First => "04",
            OrderClass::PreMarket => "05",
            OrderClass::PostMarket => "06",
            OrderClass::OutMarketSinglePrice => "07",
            OrderClass::MyStock => "08",
            OrderClass::MyStockSOption => "09",
            OrderClass::MyStockMoneyTrust => "10",
            OrderClass::IOCLimit => "11",
            OrderClass::FOKLimit => "12",
            OrderClass::IOCMarket => "13",
            OrderClass::FOKMarket => "14",
            OrderClass::IOCBest => "15",
            OrderClass::FOKBest => "16",
            OrderClass::MidMarketMassive => "51",
        }
    }

    /// The code as an owned string.
    pub fn to_string(&self) -> (r: String)
        ensures
            r@ == self.code_text(),
    {
        self.code().to_owned()
    }

    /// The variant that a code stands for, if any.
    pub open spec fn decoded(code: Seq<u8>) -> Option<OrderClass> {
        if code == bytes_of("00"@) {
            Some(OrderClass::Limit)
        } else if code == bytes_of("01"@) {
            Some(OrderClass::Market)
        } else if code == bytes_of("02"@) {
            Some(OrderClass::ConditionalLimit)
        } else if code == bytes_of("03"@) {
            Some(OrderClass::Best)
        } else if code == bytes_of("04"@) {
            Some(OrderClass::First)
        } else if code == bytes_of("05"@) {
            Some(OrderClass::PreMarket)
        } else if code == bytes_of("06"@) {
            Some(OrderClass::PostMarket)
        } else if code == bytes_of("07"@) {
            Some(OrderClass::OutMarketSinglePrice)
        } else if code == bytes_of("08"@) {
            Some(OrderClass::MyStock)
        } else if code == bytes_of("09"@) {
            Some(OrderClass::MyStockSOption)
        } else if code == bytes_of("10"@) {
            Some(OrderClass::MyStockMoneyTrust)
        } else if code == bytes_of("11"@) {
            Some(OrderClass::IOCLimit)
        } else if code == bytes_of("12"@) {
            Some(OrderClass::FOKLimit)
        } else if code == bytes_of("13"@) {
            Some(OrderClass::IOCMarket)
        } else if code == bytes_of("14"@) {
            Some(OrderClass::FOKMarket)
        } else if code == bytes_of("15"@) {
            Some(OrderClass::IOCBest)
        } else if code == bytes_of("16"@) {
            Some(OrderClass::FOKBest)
        } else if code == bytes_of("51"@) {
            Some(OrderClass::MidMarketMassive)
        } else {
            None
        }
    }

    /// Reads a code.
    pub fn from_code(code: &[u8]) -> (r: Option<OrderClass>)
        ensures
            r == OrderClass::decoded(code@),
    {
        if is_text(code, "00") {
            Some(OrderClass::Limit)
        } else if is_text(code, "01") {
            Some(OrderClass::Market)
        } else if is_text(code, "02") {
            Some(OrderClass::ConditionalLimit)
        } else if is_text(code, "03") {
            Some(OrderClass::Best)
        } else if is_text(code, "04") {
            Some(OrderClass::First)
        } else if is_text(code, "05") {
            Some(OrderClass::PreMarket)
        } else if is_text(code, "06") {
            Some(OrderClass::PostMarket)
        } else if is_text(code, "07") {
            Some(OrderClass::OutMarketSinglePrice)
        } else if is_text(code, "08") {
            Some(OrderClass::MyStock)
        } else if is_text(code, "09") {
            Some(OrderClass::MyStockSOption)
        } else if is_text(code, "10") {
            Some(OrderClass::MyStockMoneyTrust)
        } else if is_text(code, "11") {
            Some(OrderClass::IOCLimit)
        } else if is_text(code, "12") {
            Some(OrderClass::FOKLimit)
        } else if is_text(code, "13") {
            Some(OrderClass::IOCMarket)
        } else if is_text(code, "14") {
            Some(OrderClass::FOKMarket)
        } else if is_text(code, "15") {
            Some(OrderClass::IOCBest)
        } else if is_text(code, "16") {
            Some(OrderClass::FOKBest)
        } else if is_text(code, "51") {
            Some(OrderClass::MidMarketMassive)
        } else {
            None
        }
    }

    /// The variant in a field of a frame; a field with no known code is
    /// invalid.
    pub open spec fn of_field(code: Seq<u8>) -> Result<OrderClass, Error> {
        match OrderClass::decoded(code) {
            Some(v) => Ok(v),
            None => Err(Error::InvalidData),
        }
    }

    /// Reads the code in a field of a frame.
    pub fn read_field(code: &[u8]) -> (r: Result<OrderClass, Error>)
        ensures
            r == OrderClass::of_field(code@),
    {
        match OrderClass::from_code(code) {
            Some(v) => Ok(v),
            None => Err(Error::InvalidData),
        }
    }

    /// Every variant is read back from its own code.
    pub proof fn lemma_code_round_trip(v: OrderClass)
        ensures
            OrderClass::decoded(bytes_of(v.code_text())) == Some(v),
    {
        reveal_strlit("00");
        reveal_strlit("01");
        reveal_strlit("02");
        reveal_strlit("03");
        reveal_strlit("04");
        reveal_strlit("05");
        reveal_strlit("06");
        reveal_strlit("07");
        reveal_strlit("08");
        reveal_strlit("09");
        reveal_strlit("10");
        reveal_strlit("11");
        reveal_strlit("12");
        reveal_strlit("13");
        reveal_strlit("14");
        reveal_strlit("15");
        reveal_strlit("16");
        reveal_strlit("51");
        lemma_literal("00"@);
        lemma_literal("01"@);
        lemma_literal("02"@);
        lemma_literal("03"@);
        lemma_literal("04"@);
        lemma_literal("05"@);
        lemma_literal("06"@);
        lemma_literal("07"@);
        lemma_literal("08"@);
        lemma_literal("09"@);
        lemma_literal("10"@);
        lemma_literal("11"@);
        lemma_literal("12"@);
        lemma_literal("13"@);
        lemma_literal("14"@);
        lemma_literal("15"@);
        lemma_literal("16"@);
        lemma_literal("51"@);
        assert("00"@[0] == '0');
        assert("00"@[1] == '0');
        assert("01"@[0] == '0');
        assert("01"@[1] == '1');
        assert("02"@[0] == '0');
        assert("02"@[1] == '2');
        assert("03"@[0] == '0');
        assert("03"@[1] == '3');
        assert("04"@[0] == '0');
        assert("04"@[1] == '4');
        assert("05"@[0] == '0');
        assert("05"@[1] == '5');
        assert("06"@[0] == '0');
        assert("06"@[1] == '6');
        assert("07"@[0] == '0');
        assert("07"@[1] == '7');
        assert("08"@[0] == '0');
        assert("08"@[1] == '8');
        assert("09"@[0] == '0');
        assert("09"@[1] == '9');
        assert("10"@[0] == '1');
        assert("10"@[1] == '0');
        assert("11"@[0] == '1');
        assert("11"@[1] == '1');
        assert("12"@[0] == '1');
        assert("12"@[1] == '2');
        assert("13"@[0] == '1');
        assert("13"@[1] == '3');
        assert("14"@[0] == '1');
        assert("14"@[1] == '4');
        assert("15"@[0] == '1');
        assert("15"@[1] == '5');
        assert("16"@[0] == '1');
        assert("16"@[1] == '6');
        assert("51"@[0] == '5');
    }
}

impl Default for OrderClass {
    fn default() -> (r: Self)
        ensures
            r == OrderClass::Limit,
    {
        OrderClass::Limit
    }
}

/// Whether an order notice is a correction or a cancellation.
#[derive(Clone, Copy, Debug, PartialEq, Eq, Structural)]
pub enum CorrectionClass {
    /// Neither.
    Absent,
    Correction,
    Cancel,
}

impl CorrectionClass {
    /// The code that stands for each variant on the wire.
    pub open spec fn code_text(self) -> Seq<char> {
        match self {
            CorrectionClass::Absent => "0"@,
            CorrectionClass::Correction => "01"@,
            CorrectionClass::Cancel => "02"@,
        }
    }

    /// The code of the variant.
    pub fn code(&self) -> (r: &'static str)
        ensures
            r@ == self.code_text(),
    {
        match self {
            CorrectionClass::Absent => "0",
            CorrectionClass::Correction => "01",
            CorrectionClass::Cancel => "02",
        }
    }

    /// The code as an owned string.
    pub fn to_string(&self) -> (r: String)
        ensures
            r@ == self.code_text(),
    {
        self.code().to_owned()
    }

    /// The variant that a code stands for, if any.
    pub open spec fn decoded(code: Seq<u8>) -> Option<CorrectionClass> {
        if code == bytes_of("0"@) {
            Some(CorrectionClass::Absent)
        } else if code == bytes_of("01"@) {
            Some(CorrectionClass::Correction)
        } else if code == bytes_of("02"@) {
            Some(CorrectionClass::Cancel)
        } else {
            None
        }
    }

    /// Reads a code.
    pub fn from_code(code: &[u8]) -> (r: Option<CorrectionClass>)
        ensures
            r == CorrectionClass::decoded(code@),
    {
        if is_text(code, "0") {
            Some(CorrectionClass::Absent)
        } else if is_text(code, "01") {
            Some(CorrectionClass::Correction)
        } else if is_text(code, "02") {
            Some(CorrectionClass::Cancel)
        } else {
            None
        }
    }

    /// The variant in a field of a frame; a field with no known code is
    /// invalid.
    pub open spec fn of_field(code: Seq<u8>) -> Result<CorrectionClass, Error> {
        match CorrectionClass::decoded(code) {
            Some(v) => Ok(v),
            None => Err(Error::InvalidData),
        }
    }

    /// Reads the code in a field of a frame.
    pub fn read_field(code: &[u8]) -> (r: Result<CorrectionClass, Error>)
        ensures
            r == CorrectionClass::of_field(code@),
    {
        match CorrectionClass::from_code(code) {
            Some(v) => Ok(v),
            None => Err(Error::InvalidData),
        }
    }

    /// Every variant is read back from its own code.
    pub proof fn lemma_code_round_trip(v: CorrectionClass)
        ensures
            CorrectionClass::decoded(bytes_of(v.code_text())) == Some(v),
    {
        reveal_strlit("0");
        reveal_strlit("01");
        reveal_strlit("02");
        lemma_literal("0"@);
        lemma_literal("01"@);
        lemma_literal("02"@);
        assert("01"@[1] == '1');
        assert("02"@[1] == '2');
    }
}

/// The side of an order.
#[derive(Clone, Copy, Debug, PartialEq, Eq, Structural)]
pub enum Direction {
    /// Sell.
    Ask,
    /// Buy.
    Bid,
}

impl Direction {
    /// The code that stands for each variant on the wire.
    pub open spec fn code_text(self) -> Seq<char> {
        match self {
            Direction::Ask => "01"@,
            Direction::Bid => "02"@,
        }
    }

    /// The code of the variant.
    pub fn code(&self) -> (r: &'static str)
        ensures
            r@ == self.code_text(),
    {
        match self {
            Direction::Ask => "01",
            Direction::Bid => "02",
        }
    }

    /// The variant that a code stands for, if any.
    pub open spec fn decoded(code: Seq<u8>) -> Option<Direction> {
        if code == bytes_of("01"@) {
            Some(Direction::Ask)
        } else if code == bytes_of("02"@) {
            Some(Direction::Bid)
        } else {
            None
        }
    }

    /// Reads a code.
    pub fn from_code(code: &[u8]) -> (r: Option<Direction>)
        ensures
            r == Direction::decoded(code@),
    {
        if is_text(code, "01") {
            Some(Direction::Ask)
        } else if is_text(code, "02") {
            Some(Direction::Bid)
        } else {
            None
        }
    }

    /// The variant in a field of a frame; a field with no known code is
    /// invalid.
    pub open spec fn of_field(code: Seq<u8>) -> Result<Direction, Error> {
        match Direction::decoded(code) {
            Some(v) => Ok(v),
            None => Err(Error::InvalidData),
        }
    }

    /// Reads the code in a field of a frame.
    pub fn read_field(code: &[u8]) -> (r: Result<Direction, Error>)
        ensures
            r == Direction::of_field(code@),
    {
        match Direction::from_code(code) {
            Some(v) => Ok(v),
            None => Err(Error::InvalidData),
        }
    }

    /// Every variant is read back from its own code.
    pub proof fn lemma_code_round_trip(v: Direction)
        ensures
            Direction::decoded(bytes_of(v.code_text())) == Some(v),
    {
        reveal_strlit("01");
        reveal_strlit("02");
        lemma_literal("01"@);
        lemma_literal("02"@);
        assert("01"@[1] == '1');
        assert("02"@[1] == '2');
    }
}

/// Which side an execution was booked on.
#[derive(Clone, Copy, Debug, PartialEq, Eq, Structural)]
pub enum ExecClass {
    /// Buy.
    Bid,
    /// Before the opening.
    PreMarket,
    /// Sell.
    Ask,
}

impl ExecClass {
    /// The code that stands for each variant on the wire.
    pub open spec fn code_text(self) -> Seq<char> {
        match self {
            ExecClass::Bid => "1"@,
            ExecClass::PreMarket => "3"@,
            ExecClass::Ask => "5"@,
        }
    }

    /// The code of the variant.
    pub fn code(&self) -> (r: &'static str)
        ensures
            r@ == self.code_text(),
    {
        match self {
            ExecClass::Bid => "1",
            ExecClass::PreMarket => "3",
            ExecClass::Ask => "5",
        }
    }

    /// The variant that a code stands for, if any.
    pub open spec fn decoded(code: Seq<u8>) -> Option<ExecClass> {
        if code == bytes_of("1"@) {
            Some(ExecClass::Bid)
        } else if code == bytes_of("3"@) {
            Some(ExecClass::PreMarket)
        } else if code == bytes_of("5"@) {
            Some(ExecClass::Ask)
        } else {
            None
        }
    }

    /// Reads a code.
    pub fn from_code(code: &[u8]) -> (r: Option<ExecClass>)
        ensures
            r == ExecClass::decoded(code@),
    {
        if is_text(code, "1") {
            Some(ExecClass::Bid)
        } else if is_text(code, "3") {
            Some(ExecClass::PreMarket)
        } else if is_text(code, "5") {
            Some(ExecClass::Ask)
        } else {
            None
        }
    }

    /// The variant in a field of a frame; a field with no known code is
    /// invalid.
    pub open spec fn of_field(code: Seq<u8>) -> Result<ExecClass, Error> {
        match ExecClass::decoded(code) {
            Some(v) => Ok(v),
            None => Err(Error::InvalidData),
        }
    }

    /// Reads the code in a field of a frame.
    pub fn read_field(code: &[u8]) -> (r: Result<ExecClass, Error>)
        ensures
            r == ExecClass::of_field(code@),
    {
        match ExecClass::from_code(code) {
            Some(v) => Ok(v),
            None => Err(Error::InvalidData),
        }
    }

    /// Every variant is read back from its own code.
    pub proof fn lemma_code_round_trip(v: ExecClass)
        ensures
            ExecClass::decoded(bytes_of(v.code_text())) == Some(v),
    {
        reveal_strlit("1");
        reveal_strlit("3");
        reveal_strlit("5");
        lemma_literal("1"@);
        lemma_literal("3"@);
        lemma_literal("5"@);
        assert("1"@[0] == '1');
        assert("3"@[0] == '3');
        assert("5"@[0] == '5');
    }
}

/// How a price stands against its reference.
#[derive(Clone, Copy, Debug, PartialEq, Eq, Structural)]
pub enum VsPriceSign {
    /// At the upper limit.
    UpperLimit,
    /// Higher.
    Increase,
    /// Unchanged.
    Steady,
    /// Lower.
    Decrease,
    /// At the lower limit.
    LowerLimit,
}

impl VsPriceSign {
    /// The code that stands for each variant on the wire.
    pub open spec fn code_text(self) -> Seq<char> {
        match self {
            VsPriceSign::UpperLimit => "1"@,
            VsPriceSign::Increase => "2"@,
            VsPriceSign::Steady => "3"@,
            VsPriceSign::Decrease => "4"@,
            VsPriceSign::LowerLimit => "5"@,
        }
    }

    /// The code of the variant.
    pub fn code(&self) -> (r: &'static str)
        ensures
            r@ == self.code_text(),
    {
        match self {
            VsPriceSign::UpperLimit => "1",
            VsPriceSign::Increase => "2",
            VsPriceSign::Steady => "3",
            VsPriceSign::Decrease => "4",
            VsPriceSign::LowerLimit => "5",
        }
    }

    /// The variant that a code stands for, if any.
    pub open spec fn decoded(code: Seq<u8>) -> Option<VsPriceSign> {
        if code == bytes_of("1"@) {
            Some(VsPriceSign::UpperLimit)
        } else if code == bytes_of("2"@) {
            Some(VsPriceSign::Increase)
        } else if code == bytes_of("3"@) {
            Some(VsPriceSign::Steady)
        } else if code == bytes_of("4"@) {
            Some(VsPriceSign::Decrease)
        } else if code == bytes_of("5"@) {
            Some(VsPriceSign::LowerLimit)
        } else {
            None
        }
    }

    /// Reads a code.
    pub fn from_code(code: &[u8]) -> (r: Option<VsPriceSign>)
        ensures
            r == VsPriceSign::decoded(code@),
    {
        if is_text(code, "1") {
            Some(VsPriceSign::UpperLimit)
        } else if is_text(code, "2") {
            Some(VsPriceSign::Increase)
        } else if is_text(code, "3") {
            Some(VsPriceSign::Steady)
        } else if is_text(code, "4") {
            Some(VsPriceSign::Decrease)
        } else if is_text(code, "5") {
            Some(VsPriceSign::LowerLimit)
        } else {
            None
        }
    }

    /// The variant in a field of a frame; a field with no known code is
    /// invalid.
    pub open spec fn of_field(code: Seq<u8>) -> Result<VsPriceSign, Error> {
        match VsPriceSign::decoded(code) {
            Some(v) => Ok(v),
            None => Err(Error::InvalidData),
        }
    }

    /// Reads the code in a field of a frame.
    pub fn read_field(code: &[u8]) -> (r: Result<VsPriceSign, Error>)
        ensures
            r == VsPriceSign::of_field(code@),
    {
        match VsPriceSign::from_code(code) {
            Some(v) => Ok(v),
            None => Err(Error::InvalidData),
        }
    }

    /// Every variant is read back from its own code.
    pub proof fn lemma_code_round_trip(v: VsPriceSign)
        ensures
            VsPriceSign::decoded(bytes_of(v.code_text())) == Some(v),
    {
        reveal_strlit("1");
        reveal_strlit("2");
        reveal_strlit("3");
        reveal_strlit("4");
        reveal_strlit("5");
        lemma_literal("1"@);
        lemma_literal("2"@);
        lemma_literal("3"@);
        lemma_literal("4"@);
        lemma_literal("5"@);
        assert("1"@[0] == '1');
        assert("2"@[0] == '2');
        assert("3"@[0] == '3');
        assert("4"@[0] == '4');
        assert("5"@[0] == '5');
    }
}

/// The part of the trading day that a quote belongs to.
#[derive(Clone, Copy, Debug, PartialEq, Eq, Structural)]
pub enum TimeClassCode {
    /// During the session.
    InMarket,
    /// Expected price after the close.
    PostMarketPrediction,
    /// Expected price before the opening.
    PreMarketPrediction,
    /// Expected price after nine, or a volatility interruption.
    PostNinePmPredictionOrVi,
    /// Expected off-hours single price.
    OutMarketSinglePricePredict,
}

impl TimeClassCode {
    /// The code that stands for each variant on the wire.
    pub open spec fn code_text(self) -> Seq<char> {
        match self {
            TimeClassCode::InMarket => "0"@,
            TimeClassCode::PostMarketPrediction => "A"@,
            TimeClassCode::PreMarketPrediction => "B"@,
            TimeClassCode::PostNinePmPredictionOrVi => "C"@,
            TimeClassCode::OutMarketSinglePricePredict => "D"@,
        }
    }

    /// The code of the variant.
    pub fn code(&self) -> (r: &'static str)
        ensures
            r@ == self.code_text(),
    {
        match self {
            TimeClassCode::InMarket => "0",
            TimeClassCode::PostMarketPrediction => "A",
            TimeClassCode::PreMarketPrediction => "B",
            TimeClassCode::PostNinePmPredictionOrVi => "C",
            TimeClassCode::OutMarketSinglePricePredict => "D",
        }
    }

    /// The variant that a code stands for, if any.
    pub open spec fn decoded(code: Seq<u8>) -> Option<TimeClassCode> {
        if code == bytes_of("0"@) {
            Some(TimeClassCode::InMarket)
        } else if code == bytes_of("A"@) {
            Some(TimeClassCode::PostMarketPrediction)
        } else if code == bytes_of("B"@) {
            Some(TimeClassCode::PreMarketPrediction)
        } else if code == bytes_of("C"@) {
            Some(TimeClassCode::PostNinePmPredictionOrVi)
        } else if code == bytes_of("D"@) {
            Some(TimeClassCode::OutMarketSinglePricePredict)
        } else {
            None
        }
    }

    /// Reads a code.
    pub fn from_code(code: &[u8]) -> (r: Option<TimeClassCode>)
        ensures
            r == TimeClassCode::decoded(code@),
    {
        if is_text(code, "0") {
            Some(TimeClassCode::InMarket)
        } else if is_text(code, "A") {
            Some(TimeClassCode::PostMarketPrediction)
        } else if is_text(code, "B") {
            Some(TimeClassCode::PreMarketPrediction)
        } else if is_text(code, "C") {
            Some(TimeClassCode::PostNinePmPredictionOrVi)
        } else if is_text(code, "D") {
            Some(TimeClassCode::OutMarketSinglePricePredict)
        } else {
            None
        }
    }

    /// The variant in a field of a frame; a field with no known code is
    /// invalid.
    pub open spec fn of_field(code: Seq<u8>) -> Result<TimeClassCode, Error> {
        match TimeClassCode::decoded(code) {
            Some(v) => Ok(v),
            None => Err(Error::InvalidData),
        }
    }

    /// Reads the code in a field of a frame.
    pub fn read_field(code: &[u8]) -> (r: Result<TimeClassCode, Error>)
        ensures
            r == TimeClassCode::of_field(code@),
    {
        match TimeClassCode::from_code(code) {
            Some(v) => Ok(v),
            None => Err(Error::InvalidData),
        }
    }

    /// Every variant is read back from its own code.
    pub proof fn lemma_code_round_trip(v: TimeClassCode)
        ensures
            TimeClassCode::decoded(bytes_of(v.code_text())) == Some(v),
    {
        reveal_strlit("0");
        reveal_strlit("A");
        reveal_strlit("B");
        reveal_strlit("C");
        reveal_strlit("D");
        lemma_literal("0"@);
        lemma_literal("A"@);
        lemma_literal("B"@);
        lemma_literal("C"@);
        lemma_literal("D"@);
        assert("0"@[0] == '0');
        assert("A"@[0] == 'A');
        assert("B"@[0] == 'B');
        assert("C"@[0] == 'C');
        assert("D"@[0] == 'D');
    }
}

/// The first character of a market-operation code: when the order is made.
#[derive(Clone, Copy, Debug, PartialEq, Eq, Structural)]
pub enum When {
    /// Before the opening.
    PreMarket,
    /// During the session.
    Market,
    /// After the close.
    PostMarket,
    /// Off-hours single price.
    OutMarketSinglePrice,
    /// Ordinary buy-in.
    NormalBuyIn,
    /// Same-day buy-in.
    TodayBuyIn,
}

impl When {
    /// The code that stands for each variant on the wire.
    pub open spec fn code_text(self) -> Seq<char> {
        match self {
            When::PreMarket => "1"@,
            When::Market => "2"@,
            When::PostMarket => "3"@,
            When::OutMarketSinglePrice => "4"@,
            When::NormalBuyIn => "7"@,
            When::TodayBuyIn => "8"@,
        }
    }

    /// The code of the variant.
    pub fn code(&self) -> (r: &'static str)
        ensures
            r@ == self.code_text(),
    {
        match self {
            When::PreMarket => "1",
            When::Market => "2",
            When::PostMarket => "3",
            When::OutMarketSinglePrice => "4",
            When::NormalBuyIn => "7",
            When::TodayBuyIn => "8",
        }
    }

    /// The variant that a code stands for, if any.
    pub open spec fn decoded(code: Seq<u8>) -> Option<When> {
        if code == bytes_of("1"@) {
            Some(When::PreMarket)
        } else if code == bytes_of("2"@) {
            Some(When::Market)
        } else if code == bytes_of("3"@) {
            Some(When::PostMarket)
        } else if code == bytes_of("4"@) {
            Some(When::OutMarketSinglePrice)
        } else if code == bytes_of("7"@) {
            Some(When::NormalBuyIn)
        } else if code == bytes_of("8"@) {
            Some(When::TodayBuyIn)
        } else {
            None
        }
    }

    /// Reads a code.
    pub fn from_code(code: &[u8]) -> (r: Option<When>)
        ensures
            r == When::decoded(code@),
    {
        if is_text(code, "1") {
            Some(When::PreMarket)
        } else if is_text(code, "2") {
            Some(When::Market)
        } else if is_text(code, "3") {
            Some(When::PostMarket)
        } else if is_text(code, "4") {
            Some(When::OutMarketSinglePrice)
        } else if is_text(code, "7") {
            Some(When::NormalBuyIn)
        } else if is_text(code, "8") {
            Some(When::TodayBuyIn)
        } else {
            None
        }
    }

    /// Every variant is read back from its own code.
    pub proof fn lemma_code_round_trip(v: When)
        ensures
            When::decoded(bytes_of(v.code_text())) == Some(v),
    {
        reveal_strlit("1");
        reveal_strlit("2");
        reveal_strlit("3");
        reveal_strlit("4");
        reveal_strlit("7");
        reveal_strlit("8");
        lemma_literal("1"@);
        lemma_literal("2"@);
        lemma_literal("3"@);
        lemma_literal("4"@);
        lemma_literal("7"@);
        lemma_literal("8"@);
        assert("1"@[0] == '1');
        assert("2"@[0] == '2');
        assert("3"@[0] == '3');
        assert("4"@[0] == '4');
        assert("7"@[0] == '7');
        assert("8"@[0] == '8');
    }
}

/// The second character of a market-operation code: what the order is for.
#[derive(Clone, Copy, Debug, PartialEq, Eq, Structural)]
pub enum What {
    /// Ordinary.
    Normal,
    /// Closing price.
    EndPrice,
    /// Block.
    Massive,
    /// Basket.
    Basket,
    /// Liquidation trading.
    Clearance,
    /// Buy-in.
    BuyIn,
}

impl What {
    /// The code that stands for each variant on the wire.
    pub open spec fn code_text(self) -> Seq<char> {
        match self {
            What::Normal => "0"@,
            What::EndPrice => "1"@,
            What::Massive => "2"@,
            What::Basket => "3"@,
            What::Clearance => "7"@,
            What::BuyIn => "8"@,
        }
    }

    /// The code of the variant.
    pub fn code(&self) -> (r: &'static str)
        ensures
            r@ == self.code_text(),
    {
        match self {
            What::Normal => "0",
            What::EndPrice => "1",
            What::Massive => "2",
            What::Basket => "3",
            What::Clearance => "7",
            What::BuyIn => "8",
        }
    }

    /// The variant that a code stands for, if any.
    pub open spec fn decoded(code: Seq<u8>) -> Option<What> {
        if code == bytes_of("0"@) {
            Some(What::Normal)
        } else if code == bytes_of("1"@) {
            Some(What::EndPrice)
        } else if code == bytes_of("2"@) {
            Some(What::Massive)
        } else if code == bytes_of("3"@) {
            Some(What::Basket)
        } else if code == bytes_of("7"@) {
            Some(What::Clearance)
        } else if code == bytes_of("8"@) {
            Some(What::BuyIn)
        } else {
            None
        }
    }

    /// Reads a code.
    pub fn from_code(code: &[u8]) -> (r: Option<What>)
        ensures
            r == What::decoded(code@),
    {
        if is_text(code, "0") {
            Some(What::Normal)
        } else if is_text(code, "1") {
            Some(What::EndPrice)
        } else if is_text(code, "2") {
            Some(What::Massive)
        } else if is_text(code, "3") {
            Some(What::Basket)
        } else if is_text(code, "7") {
            Some(What::Clearance)
        } else if is_text(code, "8") {
            Some(What::BuyIn)
        } else {
            None
        }
    }

    /// Every variant is read back from its own code.
    pub proof fn lemma_code_round_trip(v: What)
        ensures
            What::decoded(bytes_of(v.code_text())) == Some(v),
    {
        reveal_strlit("0");
        reveal_strlit("1");
        reveal_strlit("2");
        reveal_strlit("3");
        reveal_strlit("7");
        reveal_strlit("8");
        lemma_literal("0"@);
        lemma_literal("1"@);
        lemma_literal("2"@);
        lemma_literal("3"@);
        lemma_literal("7"@);
        lemma_literal("8"@);
        assert("0"@[0] == '0');
        assert("1"@[0] == '1');
        assert("2"@[0] == '2');
        assert("3"@[0] == '3');
        assert("7"@[0] == '7');
        assert("8"@[0] == '8');
    }
}

/// The trading environment.
#[derive(Clone, Copy, Debug, PartialEq, Eq, Structural)]
pub enum Environment {
    /// Live trading.
    Real,
    /// Paper trading.
    Virtual,
}

impl Default for Environment {
    fn default() -> (r: Self)
        ensures
            r == Environment::Virtual,
    {
        Environment::Virtual
    }
}

impl Environment {
    /// The name of each environment.
    pub open spec fn name_text(self) -> Seq<char> {
        match self {
            Environment::Real => "Real"@,
            Environment::Virtual => "Virtual"@,
        }
    }

    /// The name of the environment.
    pub fn name(&self) -> (r: &'static str)
        ensures
            r@ == self.name_text(),
    {
        match self {
            Environment::Real => "Real",
            Environment::Virtual => "Virtual",
        }
    }

    /// The name as an owned string.
    pub fn to_string(&self) -> (r: String)
        ensures
            r@ == self.name_text(),
    {
        self.name().to_owned()
    }

    /// The environment that a name stands for, letters compared without
    /// regard to case; anything that is not `real` is paper trading.
    pub open spec fn named(name: Seq<u8>) -> Environment {
        if spells(name, bytes_of("real"@)) {
            Environment::Real
        } else {
            Environment::Virtual
        }
    }

    /// Reads the name of an environment.
    pub fn from_str(s: &str) -> (r: Environment)
        ensures
            r == Environment::named(bytes_of(s@)),
    {
        if spells_text(s.as_bytes(), "real") {
            Environment::Real
        } else {
            Environment::Virtual
        }
    }

    /// The channel on which the personal fills of this environment arrive.
    pub fn my_exec_channel(&self) -> (r: TrId)
        ensures
            r == match self {
                Environment::Real => TrId::RealRealtimeMyExec,
                Environment::Virtual => TrId::VirtualRealtimeMyExec,
            },
    {
        match self {
            Environment::Real => TrId::RealRealtimeMyExec,
            Environment::Virtual => TrId::VirtualRealtimeMyExec,
        }
    }
}

/// Whether `s` spells the lower-case `word`, letters compared without regard
/// to case.
pub fn spells_text(s: &[u8], word: &str) -> (r: bool)
    ensures
        r == spells(s@, bytes_of(word@)),
{
    let w: &[u8] = word.as_bytes();
    if s.len() != w.len() {
        return false;
    }
    let mut i: usize = 0;
    while i < w.len()
        invariant
            0 <= i <= w.len(),
            s.len() == w.len(),
            w@ == bytes_of(word@),
            forall|j: int| 0 <= j < i ==> lower(#[trigger] s@[j]) == w@[j],
        decreases w.len() - i,
    {
        let b: u8 = s[i];
        let low: u8 = if 0x41 <= b && b <= 0x5a {
            b + 0x20
        } else {
            b
        };
        if low != w[i] {
            return false;
        }
        i = i + 1;
    }
    true
}

/// What a yes/no field says: `1`, `true`, `t` and `y` in either case mean
/// yes, everything else means no.
pub open spec fn bool_of(s: Seq<u8>) -> bool {
    ||| spells(s, bytes_of("1"@))
    ||| spells(s, bytes_of("true"@))
    ||| spells(s, bytes_of("t"@))
    ||| spells(s, bytes_of("y"@))
}

/// Reads a yes/no field of a frame.
pub fn parse_bool_field(s: &[u8]) -> (r: bool)
    ensures
        r == bool_of(s@),
{
    spells_text(s, "1") || spells_text(s, "true") || spells_text(s, "t") || spells_text(s, "y")
}

/// Reads a yes/no text.
pub fn parse_bool(s: &str) -> (r: bool)
    ensures
        r == bool_of(bytes_of(s@)),
{
    parse_bool_field(s.as_bytes())
}

/// An account: the first eight and the last two digits of its number.
#[derive(Clone, Debug)]
pub struct Account {
    pub cano: String,
    pub acnt_prdt_cd: String,
}

/// A trade classification code whose values are not documented; the text is
/// kept as it came.
#[derive(Clone, Debug)]
pub enum DealClassCode {
    IDK(String),
}

impl DealClassCode {
    /// The text of the code.
    pub open spec fn text(self) -> Seq<char> {
        match self {
            DealClassCode::IDK(s) => s@,
        }
    }
}

/// Why a session ended early. Only one value is known.
#[derive(Clone, Copy, Debug, PartialEq, Eq, Structural)]
pub enum MarketTerminationClassCode {
    Terminated,
}

impl MarketTerminationClassCode {
    /// Every code means the same.
    pub fn from_code(code: &[u8]) -> (r: MarketTerminationClassCode)
        ensures
            r == MarketTerminationClassCode::Terminated,
    {
        MarketTerminationClassCode::Terminated
    }
}

/// A market-operation code: when an order is made and what it is for.
#[derive(Clone, Copy, Debug, PartialEq, Eq, Structural)]
pub struct MarketOperationClassCode(pub When, pub What);

impl MarketOperationClassCode {
    pub fn when(&self) -> (r: &When)
        ensures
            *r == self.0,
    {
        &self.0
    }

    pub fn what(&self) -> (r: &What)
        ensures
            *r == self.1,
    {
        &self.1
    }

    /// The code that two or more characters stand for: the first says when,
    /// the second what; any further characters are not looked at.
    pub open spec fn decoded(code: Seq<u8>) -> Option<MarketOperationClassCode> {
        if code.len() < 2 {
            None
        } else {
            match (When::decoded(code.subrange(0, 1)), What::decoded(code.subrange(1, 2))) {
                (Some(when), Some(what)) => Some(MarketOperationClassCode(when, what)),
                _ => None,
            }
        }
    }

    /// The code in a field of a frame; a field with no known code is invalid.
    pub open spec fn of_field(code: Seq<u8>) -> Result<MarketOperationClassCode, Error> {
        match MarketOperationClassCode::decoded(code) {
            Some(v) => Ok(v),
            None => Err(Error::InvalidData),
        }
    }

    /// Reads the code in a field of a frame.
    pub fn read_field(code: &[u8]) -> (r: Result<MarketOperationClassCode, Error>)
        ensures
            r == MarketOperationClassCode::of_field(code@),
    {
        match MarketOperationClassCode::from_code(code) {
            Some(v) => Ok(v),
            None => Err(Error::InvalidData),
        }
    }

    /// Reads a code.
    pub fn from_code(code: &[u8]) -> (r: Option<MarketOperationClassCode>)
        ensures
            r == MarketOperationClassCode::decoded(code@),
    {
        if code.len() < 2 {
            return None;
        }
        let first = When::from_code(vstd::slice::slice_subrange(code, 0, 1));
        let second = What::from_code(vstd::slice::slice_subrange(code, 1, 2));
        match (first, second) {
            (Some(when), Some(what)) => Some(MarketOperationClassCode(when, what)),
            _ => None,
        }
    }
}

/// The number that a text holds between the white space around it, where
/// that is an unsigned literal within 32 bits.
pub open spec fn u32_in(text: Seq<char>) -> Option<u32> {
    u32_of(bytes_of(trimmed(text)))
}

/// The decimal digits of a number are read back as that number.
pub proof fn lemma_number_round_trip(n: u32)
    ensures
        u32_in(decimal_text(n as nat)) == Some(n),
{
    let digits = padded(n as nat, 1);
    let text = decimal_text(n as nat);
    lemma_digits_round_trip(n as nat, 1);
    lemma_padded_ascii(n as nat, 1);
    lemma_ascii_chars(digits);
    assert(is_digit(digits[0]));
    assert(is_digit(digits.last()));
    assert(text[0] == digits[0] as char);
    assert(text.last() == digits.last() as char);
    lemma_trimmed_whole(text);
    lemma_decimal_round_trip(n as u64);
}

/// A number of shares.
#[derive(Clone, Copy, Debug, PartialEq, Eq, Structural)]
pub struct Quantity {
    inner: u32,
}

impl Quantity {
    /// The number itself.
    pub closed spec fn value(self) -> u32 {
        self.inner
    }

    pub fn from(quantity: u32) -> (r: Quantity)
        ensures
            r.value() == quantity,
    {
        Quantity { inner: quantity }
    }

    pub fn get(&self) -> (r: u32)
        ensures
            r == self.value(),
    {
        self.inner
    }

    /// The quantity in decimal digits.
    pub fn to_string(&self) -> (r: String)
        ensures
            r@ == decimal_text(self.value() as nat),
    {
        decimal_string(self.inner as u64)
    }

    /// Reads a quantity from a text: an unsigned number of 32 bits, with or
    /// without white space around it. `None` for any other text.
    pub fn from_text(s: &str) -> (r: Option<Quantity>)
        ensures
            match r {
                Some(q) => u32_in(s@) == Some(q.value()),
                None => u32_in(s@) is None,
            },
    {
        match parse_u32(trim(s).as_bytes()) {
            Some(v) => Some(Quantity { inner: v }),
            None => None,
        }
    }

    /// Two quantities of the same number are the same quantity.
    pub proof fn lemma_value_decides(a: Quantity, b: Quantity)
        requires
            a.value() == b.value(),
        ensures
            a == b,
    {
    }

    /// A quantity that is written as text and read again is the same
    /// quantity.
    pub proof fn lemma_text_round_trip(q: Quantity)
        ensures
            u32_in(decimal_text(q.value() as nat)) == Some(q.value()),
    {
        lemma_number_round_trip(q.value());
    }
}

/// A price per share.
#[derive(Clone, Copy, Debug, PartialEq, Eq, Structural)]
pub struct Price {
    inner: u32,
}

impl Price {
    /// The number itself.
    pub closed spec fn value(self) -> u32 {
        self.inner
    }

    pub fn from(price: u32) -> (r: Price)
        ensures
            r.value() == price,
    {
        Price { inner: price }
    }

    pub fn get(&self) -> (r: u32)
        ensures
            r == self.value(),
    {
        self.inner
    }

    /// The price in decimal digits.
    pub fn to_string(&self) -> (r: String)
        ensures
            r@ == decimal_text(self.value() as nat),
    {
        decimal_string(self.inner as u64)
    }

    /// Reads a price from a text: an unsigned number of 32 bits, with or
    /// without white space around it. `None` for any other text.
    pub fn from_text(s: &str) -> (r: Option<Price>)
        ensures
            match r {
                Some(p) => u32_in(s@) == Some(p.value()),
                None => u32_in(s@) is None,
            },
    {
        match parse_u32(trim(s).as_bytes()) {
            Some(v) => Some(Price { inner: v }),
            None => None,
        }
    }

    /// Two prices of the same number are the same price.
    pub proof fn lemma_value_decides(a: Price, b: Price)
        requires
            a.value() == b.value(),
        ensures
            a == b,
    {
    }

    /// A price that is written as text and read again is the same price.
    pub proof fn lemma_text_round_trip(p: Price)
        ensures
            u32_in(decimal_text(p.value() as nat)) == Some(p.value()),
    {
        lemma_number_round_trip(p.value());
    }
}

} // verus!
