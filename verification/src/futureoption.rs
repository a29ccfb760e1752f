//! Orders on futures and options.

use vstd::prelude::*;
use crate::codes::{Price, Quantity};
use crate::text::{bytes_of, is_text, lemma_literal};

verus! {

/// The kind of an order on futures and options.
#[derive(Clone, Copy, Debug, PartialEq, Eq, Structural)]
pub enum OrderClass {
    /// Limit order.
    Limit,
    /// Market order.
    Market,
    /// Conditional limit order.
    ConditionalLimit,
    /// Best-price limit order.
    Best,
    /// Limit, immediate or cancel.
    IOCLimit,
    /// Limit, fill or kill.
    FOKLimit,
    /// Market, immediate or cancel.
    IOCMarket,
    /// Market, fill or kill.
    FOKMarket,
    /// Best price, immediate or cancel.
    IOCBest,
    /// Best price, fill or kill.
    FOKBest,
}

impl OrderClass {
    /// The code that stands for each variant on the wire.
    pub open spec fn code_text(self) -> Seq<char> {
        match self {
            OrderClass::Limit => "01"@,
            OrderClass::Market => "02"@,
            OrderClass::ConditionalLimit => "03"@,
            OrderClass::Best => "04"@,
            OrderClass::IOCLimit => "10"@,
            OrderClass::FOKLimit => "11"@,
            OrderClass::IOCMarket => "12"@,
            OrderClass::FOKMarket => "13"@,
            OrderClass::IOCBest => "14"@,
            OrderClass::FOKBest => "15"@,
        }
    }

    /// The code of the variant.
    pub fn code(&self) -> (r: &'static str)
        ensures
            r@ == self.code_text(),
    {
        match self {
            OrderClass::Limit => "01",
            OrderClass::Market => "02",
            OrderClass::ConditionalLimit => "03",
            OrderClass::Best => "04",
            OrderClass::IOCLimit => "10",
            OrderClass::FOKLimit => "11",
            OrderClass::IOCMarket => "12",
            OrderClass::FOKMarket => "13",
            OrderClass::IOCBest => "14",
            OrderClass::FOKBest => "15",
        }
    }

    /// The variant that a code stands for, if any.
    pub open spec fn decoded(code: Seq<u8>) -> Option<OrderClass> {
        if code == bytes_of("01"@) {
            Some(OrderClass::Limit)
        } else if code == bytes_of("02"@) {
            Some(OrderClass::Market)
        } else if code == bytes_of("03"@) {
            Some(OrderClass::ConditionalLimit)
        } else if code == bytes_of("04"@) {
            Some(OrderClass::Best)
        } else if code == bytes_of("10"@) {
            Some(OrderClass::IOCLimit)
        } else if code == bytes_of("11"@) {
            Some(OrderClass::FOKLimit)
        } else if code == bytes_of("12"@) {
            Some(OrderClass::IOCMarket)
        } else if code == bytes_of("13"@) {
            Some(OrderClass::FOKMarket)
        } else if code == bytes_of("14"@) {
            Some(OrderClass::IOCBest)
        } else if code == bytes_of("15"@) {
            Some(OrderClass::FOKBest)
        } else {
            None
        }
    }

    /// Reads a code.
    pub fn from_code(code: &[u8]) -> (r: Option<OrderClass>)
        ensures
            r == OrderClass::decoded(code@),
    {
        if is_text(code, "01") {
            Some(OrderClass::Limit)
        } else if is_text(code, "02") {
            Some(OrderClass::Market)
        } else if is_text(code, "03") {
            Some(OrderClass::ConditionalLimit)
        } else if is_text(code, "04") {
            Some(OrderClass::Best)
        } else if is_text(code, "10") {
            Some(OrderClass::IOCLimit)
        } else if is_text(code, "11") {
            Some(OrderClass::FOKLimit)
        } else if is_text(code, "12") {
            Some(OrderClass::IOCMarket)
        } else if is_text(code, "13") {
            Some(OrderClass::FOKMarket)
        } else if is_text(code, "14") {
            Some(OrderClass::IOCBest)
        } else if is_text(code, "15") {
            Some(OrderClass::FOKBest)
        } else {
            None
        }
    }

    /// Every variant is read back from its own code.
    pub proof fn lemma_code_round_trip(v: OrderClass)
        ensures
            OrderClass::decoded(bytes_of(v.code_text())) == Some(v),
    {
        reveal_strlit("01");
        reveal_strlit("02");
        reveal_strlit("03");
        reveal_strlit("04");
        reveal_strlit("10");
        reveal_strlit("11");
        reveal_strlit("12");
        reveal_strlit("13");
        reveal_strlit("14");
        reveal_strlit("15");
        lemma_literal("01"@);
        lemma_literal("02"@);
        lemma_literal("03"@);
        lemma_literal("04"@);
        lemma_literal("10"@);
        lemma_literal("11"@);
        lemma_literal("12"@);
        lemma_literal("13"@);
        lemma_literal("14"@);
        lemma_literal("15"@);
        assert("01"@[0] == '0');
        assert("01"@[1] == '1');
        assert("02"@[0] == '0');
        assert("02"@[1] == '2');
        assert("03"@[0] == '0');
        assert("03"@[1] == '3');
        assert("04"@[0] == '0');
        assert("04"@[1] == '4');
        assert("10"@[0] == '1');
        assert("10"@[1] == '0');
        assert("11"@[0] == '1');
        assert("11"@[1] == '1');
        assert("12"@[0] == '1');
        assert("12"@[1] == '2');
        assert("13"@[0] == '1');
        assert("13"@[1] == '3');
        assert("14"@[0] == '1');
        assert("14"@[1] == '4');
        assert("15"@[0] == '1');
        assert("15"@[1] == '5');
    }
}

/// The type of quote of an order.
#[derive(Clone, Copy, Debug, PartialEq, Eq, Structural)]
pub enum OrderTypeClass {
    /// Limit order.
    Limit,
    /// Market order.
    Market,
    /// Conditional limit order.
    ConditionalLimit,
    /// Best-price limit order.
    Best,
}

impl OrderTypeClass {
    /// The code that stands for each variant on the wire.
    pub open spec fn code_text(self) -> Seq<char> {
        match self {
            OrderTypeClass::Limit => "01"@,
            OrderTypeClass::Market => "02"@,
            OrderTypeClass::ConditionalLimit => "03"@,
            OrderTypeClass::Best => "04"@,
        }
    }

    /// The code of the variant.
    pub fn code(&self) -> (r: &'static str)
        ensures
            r@ == self.code_text(),
    {
        match self {
            OrderTypeClass::Limit => "01",
            OrderTypeClass::Market => "02",
            OrderTypeClass::ConditionalLimit => "03",
            OrderTypeClass::Best => "04",
        }
    }

    /// The variant that a code stands for, if any.
    pub open spec fn decoded(code: Seq<u8>) -> Option<OrderTypeClass> {
        if code == bytes_of("01"@) {
            Some(OrderTypeClass::Limit)
        } else if code == bytes_of("02"@) {
            Some(OrderTypeClass::Market)
        } else if code == bytes_of("03"@) {
            Some(OrderTypeClass::ConditionalLimit)
        } else if code == bytes_of("04"@) {
            Some(OrderTypeClass::Best)
        } else {
            None
        }
    }

    /// Reads a code.
    pub fn from_code(code: &[u8]) -> (r: Option<OrderTypeClass>)
        ensures
            r == OrderTypeClass::decoded(code@),
    {
        if is_text(code, "01") {
            Some(OrderTypeClass::Limit)
        } else if is_text(code, "02") {
            Some(OrderTypeClass::Market)
        } else if is_text(code, "03") {
            Some(OrderTypeClass::ConditionalLimit)
        } else if is_text(code, "04") {
            Some(OrderTypeClass::Best)
        } else {
            None
        }
    }

    /// Every variant is read back from its own code.
    pub proof fn lemma_code_round_trip(v: OrderTypeClass)
        ensures
            OrderTypeClass::decoded(bytes_of(v.code_text())) == Some(v),
    {
        reveal_strlit("01");
        reveal_strlit("02");
        reveal_strlit("03");
        reveal_strlit("04");
        lemma_literal("01"@);
        lemma_literal("02"@);
        lemma_literal("03"@);
        lemma_literal("04"@);
        assert("01"@[1] == '1');
        assert("02"@[1] == '2');
        assert("03"@[1] == '3');
        assert("04"@[1] == '4');
    }
}

/// The condition that the exchange attaches to a quote.
#[derive(Clone, Copy, Debug, PartialEq, Eq, Structural)]
pub enum KrxOrderClass {
    /// No condition.
    Absent,
    /// Immediate or cancel.
    IOC,
    /// Fill or kill.
    FOK,
}

impl KrxOrderClass {
    /// The code that stands for each variant on the wire.
    pub open spec fn code_text(self) -> Seq<char> {
        match self {
            KrxOrderClass::Absent => "0"@,
            KrxOrderClass::IOC => "3"@,
            KrxOrderClass::FOK => "4"@,
        }
    }

    /// The code of the variant.
    pub fn code(&self) -> (r: &'static str)
        ensures
            r@ == self.code_text(),
    {
        match self {
            KrxOrderClass::Absent => "0",
            KrxOrderClass::IOC => "3",
            KrxOrderClass::FOK => "4",
        }
    }

    /// The variant that a code stands for, if any.
    pub open spec fn decoded(code: Seq<u8>) -> Option<KrxOrderClass> {
        if code == bytes_of("0"@) {
            Some(KrxOrderClass::Absent)
        } else if code == bytes_of("3"@) {
            Some(KrxOrderClass::IOC)
        } else if code == bytes_of("4"@) {
            Some(KrxOrderClass::FOK)
        } else {
            None
        }
    }

    /// Reads a code.
    pub fn from_code(code: &[u8]) -> (r: Option<KrxOrderClass>)
        ensures
            r == KrxOrderClass::decoded(code@),
    {
        if is_text(code, "0") {
            Some(KrxOrderClass::Absent)
        } else if is_text(code, "3") {
            Some(KrxOrderClass::IOC)
        } else if is_text(code, "4") {
            Some(KrxOrderClass::FOK)
        } else {
            None
        }
    }

    /// Every variant is read back from its own code.
    pub proof fn lemma_code_round_trip(v: KrxOrderClass)
        ensures
            KrxOrderClass::decoded(bytes_of(v.code_text())) == Some(v),
    {
        reveal_strlit("0");
        reveal_strlit("3");
        reveal_strlit("4");
        lemma_literal("0"@);
        lemma_literal("3"@);
        lemma_literal("4"@);
        assert("0"@[0] == '0');
        assert("3"@[0] == '3');
        assert("4"@[0] == '4');
    }
}

impl KrxOrderClass {
    /// The condition that goes with a kind of order.
    pub open spec fn of(oc: OrderClass) -> KrxOrderClass {
        match oc {
            OrderClass::IOCLimit | OrderClass::IOCMarket | OrderClass::IOCBest => {
                KrxOrderClass::IOC
            },
            OrderClass::FOKLimit | OrderClass::FOKMarket | OrderClass::FOKBest => {
                KrxOrderClass::FOK
            },
            _ => KrxOrderClass::Absent,
        }
    }

    pub fn from(oc: OrderClass) -> (r: KrxOrderClass)
        ensures
            r == KrxOrderClass::of(oc),
    {
        match oc {
            OrderClass::IOCLimit | OrderClass::IOCMarket | OrderClass::IOCBest => {
                KrxOrderClass::IOC
            },
            OrderClass::FOKLimit | OrderClass::FOKMarket | OrderClass::FOKBest => {
                KrxOrderClass::FOK
            },
            _ => KrxOrderClass::Absent,
        }
    }
}

/// The code with which every order asks for transmission.
pub open spec fn transmit_text() -> Seq<char> {
    "02"@
}

/// The body of an order on futures and options.
#[derive(Clone, Debug)]
pub struct Order {
    /// How the order is processed; always that of transmission.
    pub ord_prcs_cvsn_cd: String,
    /// The first eight digits of the account number.
    pub cano: String,
    /// The last two digits of the account number.
    pub acnt_prdt_cd: String,
    /// Whether to sell or to buy.
    pub sll_buy_dvsn_cd: String,
    /// The code of the instrument: six digits for a future, nine for an
    /// option.
    pub shtn_pdno: String,
    /// The number of contracts.
    pub ord_qty: Quantity,
    /// The price per contract; zero for a market or best-price order.
    pub unit_price: Price,
    /// The type of quote.
    pub nmpr_type_cd: OrderTypeClass,
    /// The condition of the exchange.
    pub krx_nmpr_cdnt_cd: KrxOrderClass,
    /// The kind of the order.
    pub ord_dvsn_cd: OrderClass,
}

impl Order {
    pub fn new(
        cano: String,
        acnt_prdt_cd: String,
        sll_buy_dvsn_cd: String,
        shtn_pdno: String,
        ord_qty: Quantity,
        unit_price: Price,
        nmpr_type_cd: OrderTypeClass,
        krx_nmpr_cdnt_cd: KrxOrderClass,
        ord_dvsn_cd: OrderClass,
    ) -> (r: Order)
        ensures
            r.ord_prcs_cvsn_cd@ == transmit_text(),
            r.cano == cano,
            r.acnt_prdt_cd == acnt_prdt_cd,
            r.sll_buy_dvsn_cd == sll_buy_dvsn_cd,
            r.shtn_pdno == shtn_pdno,
            r.ord_qty == ord_qty,
            r.unit_price == unit_price,
            r.nmpr_type_cd == nmpr_type_cd,
            r.krx_nmpr_cdnt_cd == krx_nmpr_cdnt_cd,
            r.ord_dvsn_cd == ord_dvsn_cd,
    {
        Order {
            ord_prcs_cvsn_cd: "02".to_owned(),
            cano,
            acnt_prdt_cd,
            sll_buy_dvsn_cd,
            shtn_pdno,
            ord_qty,
            unit_price,
            nmpr_type_cd,
            krx_nmpr_cdnt_cd,
            ord_dvsn_cd,
        }
    }
}

} // verus!
