//! The codes of the quotation service: markets, periods, security groups
//! and the like, each with the text the service knows it by.

use vstd::prelude::*;
use crate::error::Error;
use crate::text::{ascii_text, bytes_of, is_text, lemma_literal};

verus! {

/// The market division of a quotation.
#[derive(Clone, Copy, Debug, PartialEq, Eq, Structural)]
pub enum MarketCode {
    /// Stocks.
    Stock,
    /// Exchange-traded funds.
    Etf,
}

impl MarketCode {
    /// The code that stands for each variant on the wire.
    pub open spec fn code_text(self) -> Seq<char> {
        match self {
            MarketCode::Stock => "J"@,
            MarketCode::Etf => "ETF"@,
        }
    }

    /// The code of the variant.
    pub fn code(&self) -> (r: &'static str)
        ensures
            r@ == self.code_text(),
    {
        match self {
            MarketCode::Stock => "J",
            MarketCode::Etf => "ETF",
        }
    }

    /// The code as an owned string.
    pub fn to_string(&self) -> (r: String)
        ensures
            r@ == self.code_text(),
    {
        self.code().to_owned()
    }

    /// The variant that a code stands for, if any.
    pub open spec fn decoded(code: Seq<u8>) -> Option<MarketCode> {
        if code == bytes_of("J"@) {
            Some(MarketCode::Stock)
        } else if code == bytes_of("ETF"@) {
            Some(MarketCode::Etf)
        } else {
            None
        }
    }

    /// Reads a code.
    pub fn from_code(code: &[u8]) -> (r: Option<MarketCode>)
        ensures
            r == MarketCode::decoded(code@),
    {
        if is_text(code, "J") {
            Some(MarketCode::Stock)
        } else if is_text(code, "ETF") {
            Some(MarketCode::Etf)
        } else {
            None
        }
    }

    /// Every variant is read back from its own code.
    pub proof fn lemma_code_round_trip(v: MarketCode)
        ensures
            MarketCode::decoded(bytes_of(v.code_text())) == Some(v),
    {
        reveal_strlit("J");
        reveal_strlit("ETF");
        lemma_literal("J"@);
        lemma_literal("ETF"@);
    }
}

/// The period of a price series.
#[derive(Clone, Copy, Debug, PartialEq, Eq, Structural)]
pub enum PeriodCode {
    /// The last thirty days.
    ThirtyDays,
    /// The last thirty weeks.
    ThirtyWeeks,
    /// The last thirty months.
    ThirtyMonths,
}

impl PeriodCode {
    /// The code that stands for each variant on the wire.
    pub open spec fn code_text(self) -> Seq<char> {
        match self {
            PeriodCode::ThirtyDays => "D"@,
            PeriodCode::ThirtyWeeks => "W"@,
            PeriodCode::ThirtyMonths => "M"@,
        }
    }

    /// The code of the variant.
    pub fn code(&self) -> (r: &'static str)
        ensures
            r@ == self.code_text(),
    {
        match self {
            PeriodCode::ThirtyDays => "D",
            PeriodCode::ThirtyWeeks => "W",
            PeriodCode::ThirtyMonths => "M",
        }
    }

    /// The code as an owned string.
    pub fn to_string(&self) -> (r: String)
        ensures
            r@ == self.code_text(),
    {
        self.code().to_owned()
    }

    /// The variant that a code stands for, if any.
    pub open spec fn decoded(code: Seq<u8>) -> Option<PeriodCode> {
        if code == bytes_of("D"@) {
            Some(PeriodCode::ThirtyDays)
        } else if code == bytes_of("W"@) {
            Some(PeriodCode::ThirtyWeeks)
        } else if code == bytes_of("M"@) {
            Some(PeriodCode::ThirtyMonths)
        } else {
            None
        }
    }

    /// Reads a code.
    pub fn from_code(code: &[u8]) -> (r: Option<PeriodCode>)
        ensures
            r == PeriodCode::decoded(code@),
    {
        if is_text(code, "D") {
            Some(PeriodCode::ThirtyDays)
        } else if is_text(code, "W") {
            Some(PeriodCode::ThirtyWeeks)
        } else if is_text(code, "M") {
            Some(PeriodCode::ThirtyMonths)
        } else {
            None
        }
    }

    /// Every variant is read back from its own code.
    pub proof fn lemma_code_round_trip(v: PeriodCode)
        ensures
            PeriodCode::decoded(bytes_of(v.code_text())) == Some(v),
    {
        reveal_strlit("D");
        reveal_strlit("W");
        reveal_strlit("M");
        lemma_literal("D"@);
        lemma_literal("W"@);
        lemma_literal("M"@);
        assert("D"@[0] == 'D');
        assert("W"@[0] == 'W');
        assert("M"@[0] == 'M');
    }
}

/// What a price is quoted without.
#[derive(Clone, Copy, Debug, PartialEq, Eq, Structural)]
pub enum ExCode {
    /// Nothing.
    Absent,
    /// Ex-rights.
    ExRights,
    /// Ex-dividend.
    ExDividend,
    /// Ex-distribution.
    ExEtfDividend,
    /// Ex-rights and ex-dividend.
    ExRightsAndDividend,
    /// Ex interim or quarterly dividend.
    MidOrQtrExDividend,
    /// Ex-rights and ex interim dividend.
    MidExRightsAndDividend,
    /// Ex-rights and ex quarterly dividend.
    QtrExRightsAndDividend,
}

impl ExCode {
    /// The code that stands for each variant on the wire.
    pub open spec fn code_text(self) -> Seq<char> {
        match self {
            ExCode::Absent => "00"@,
            ExCode::ExRights => "01"@,
            ExCode::ExDividend => "02"@,
            ExCode::ExEtfDividend => "03"@,
            ExCode::ExRightsAndDividend => "04"@,
            ExCode::MidOrQtrExDividend => "05"@,
            ExCode::MidExRightsAndDividend => "06"@,
            ExCode::QtrExRightsAndDividend => "07"@,
        }
    }

    /// The code of the variant.
    pub fn code(&self) -> (r: &'static str)
        ensures
            r@ == self.code_text(),
    {
        match self {
            ExCode::Absent => "00",
            ExCode::ExRights => "01",
            ExCode::ExDividend => "02",
            ExCode::ExEtfDividend => "03",
            ExCode::ExRightsAndDividend => "04",
            ExCode::MidOrQtrExDividend => "05",
            ExCode::MidExRightsAndDividend => "06",
            ExCode::QtrExRightsAndDividend => "07",
        }
    }

    /// The code as an owned string.
    pub fn to_string(&self) -> (r: String)
        ensures
            r@ == self.code_text(),
    {
        self.code().to_owned()
    }

    /// The variant that a code stands for, if any.
    pub open spec fn decoded(code: Seq<u8>) -> Option<ExCode> {
        if code == bytes_of("00"@) {
            Some(ExCode::Absent)
        } else if code == bytes_of("01"@) {
            Some(ExCode::ExRights)
        } else if code == bytes_of("02"@) {
            Some(ExCode::ExDividend)
        } else if code == bytes_of("03"@) {
            Some(ExCode::ExEtfDividend)
        } else if code == bytes_of("04"@) {
            Some(ExCode::ExRightsAndDividend)
        } else if code == bytes_of("05"@) {
            Some(ExCode::MidOrQtrExDividend)
        } else if code == bytes_of("06"@) {
            Some(ExCode::MidExRightsAndDividend)
        } else if code == bytes_of("07"@) {
            Some(ExCode::QtrExRightsAndDividend)
        } else {
            None
        }
    }

    /// Reads a code.
    pub fn from_code(code: &[u8]) -> (r: Option<ExCode>)
        ensures
            r == ExCode::decoded(code@),
    {
        if is_text(code, "00") {
            Some(ExCode::Absent)
        } else if is_text(code, "01") {
            Some(ExCode::ExRights)
        } else if is_text(code, "02") {
            Some(ExCode::ExDividend)
        } else if is_text(code, "03") {
            Some(ExCode::ExEtfDividend)
        } else if is_text(code, "04") {
            Some(ExCode::ExRightsAndDividend)
        } else if is_text(code, "05") {
            Some(ExCode::MidOrQtrExDividend)
        } else if is_text(code, "06") {
            Some(ExCode::MidExRightsAndDividend)
        } else if is_text(code, "07") {
            Some(ExCode::QtrExRightsAndDividend)
        } else {
            None
        }
    }

    /// Every variant is read back from its own code.
    pub proof fn lemma_code_round_trip(v: ExCode)
        ensures
            ExCode::decoded(bytes_of(v.code_text())) == Some(v),
    {
        reveal_strlit("00");
        reveal_strlit("01");
        reveal_strlit("02");
        reveal_strlit("03");
        reveal_strlit("04");
        reveal_strlit("05");
        reveal_strlit("06");
        reveal_strlit("07");
        lemma_literal("00"@);
        lemma_literal("01"@);
        lemma_literal("02"@);
        lemma_literal("03"@);
        lemma_literal("04"@);
        lemma_literal("05"@);
        lemma_literal("06"@);
        lemma_literal("07"@);
        assert("00"@[1] == '0');
        assert("01"@[1] == '1');
        assert("02"@[1] == '2');
        assert("03"@[1] == '3');
        assert("04"@[1] == '4');
        assert("05"@[1] == '5');
        assert("06"@[1] == '6');
        assert("07"@[1] == '7');
    }
}

/// What a volume ranking is ordered by.
#[derive(Clone, Copy, Debug, PartialEq, Eq, Structural)]
pub enum BelongClassCode {
    /// Average volume.
    MeanVolume,
    /// Growth of volume.
    IncreasedVolumeRate,
    /// Average turnover ratio.
    MeanRotationRate,
    /// Traded amount.
    Amount,
    /// Average turnover ratio of the traded amount.
    AmountRotationRate,
}

impl BelongClassCode {
    /// The code that stands for each variant on the wire.
    pub open spec fn code_text(self) -> Seq<char> {
        match self {
            BelongClassCode::MeanVolume => "0"@,
            BelongClassCode::IncreasedVolumeRate => "1"@,
            BelongClassCode::MeanRotationRate => "2"@,
            BelongClassCode::Amount => "3"@,
            BelongClassCode::AmountRotationRate => "4"@,
        }
    }

    /// The code of the variant.
    pub fn code(&self) -> (r: &'static str)
        ensures
            r@ == self.code_text(),
    {
        match self {
            BelongClassCode::MeanVolume => "0",
            BelongClassCode::IncreasedVolumeRate => "1",
            BelongClassCode::MeanRotationRate => "2",
            BelongClassCode::Amount => "3",
            BelongClassCode::AmountRotationRate => "4",
        }
    }

    /// The code as an owned string.
    pub fn to_string(&self) -> (r: String)
        ensures
            r@ == self.code_text(),
    {
        self.code().to_owned()
    }

    /// The variant that a code stands for, if any.
    pub open spec fn decoded(code: Seq<u8>) -> Option<BelongClassCode> {
        if code == bytes_of("0"@) {
            Some(BelongClassCode::MeanVolume)
        } else if code == bytes_of("1"@) {
            Some(BelongClassCode::IncreasedVolumeRate)
        } else if code == bytes_of("2"@) {
            Some(BelongClassCode::MeanRotationRate)
        } else if code == bytes_of("3"@) {
            Some(BelongClassCode::Amount)
        } else if code == bytes_of("4"@) {
            Some(BelongClassCode::AmountRotationRate)
        } else {
            None
        }
    }

    /// Reads a code.
    pub fn from_code(code: &[u8]) -> (r: Option<BelongClassCode>)
        ensures
            r == BelongClassCode::decoded(code@),
    {
        if is_text(code, "0") {
            Some(BelongClassCode::MeanVolume)
        } else if is_text(code, "1") {
            Some(BelongClassCode::IncreasedVolumeRate)
        } else if is_text(code, "2") {
            Some(BelongClassCode::MeanRotationRate)
        } else if is_text(code, "3") {
            Some(BelongClassCode::Amount)
        } else if is_text(code, "4") {
            Some(BelongClassCode::AmountRotationRate)
        } else {
            None
        }
    }

    /// Every variant is read back from its own code.
    pub proof fn lemma_code_round_trip(v: BelongClassCode)
        ensures
            BelongClassCode::decoded(bytes_of(v.code_text())) == Some(v),
    {
        reveal_strlit("0");
        reveal_strlit("1");
        reveal_strlit("2");
        reveal_strlit("3");
        reveal_strlit("4");
        lemma_literal("0"@);
        lemma_literal("1"@);
        lemma_literal("2"@);
        lemma_literal("3"@);
        lemma_literal("4"@);
        assert("0"@[0] == '0');
        assert("1"@[0] == '1');
        assert("2"@[0] == '2');
        assert("3"@[0] == '3');
        assert("4"@[0] == '4');
    }
}

/// The class of shares that a ranking covers.
#[derive(Clone, Copy, Debug, PartialEq, Eq, Structural)]
pub enum ShareClassCode {
    /// All shares.
    Whole,
    /// Common shares.
    Common,
    /// Preferred shares.
    Preferred,
}

impl ShareClassCode {
    /// The code that stands for each variant on the wire.
    pub open spec fn code_text(self) -> Seq<char> {
        match self {
            ShareClassCode::Whole => "0"@,
            ShareClassCode::Common => "1"@,
            ShareClassCode::Preferred => "2"@,
        }
    }

    /// The code of the variant.
    pub fn code(&self) -> (r: &'static str)
        ensures
            r@ == self.code_text(),
    {
        match self {
            ShareClassCode::Whole => "0",
            ShareClassCode::Common => "1",
            ShareClassCode::Preferred => "2",
        }
    }

    /// The code as an owned string.
    pub fn to_string(&self) -> (r: String)
        ensures
            r@ == self.code_text(),
    {
        self.code().to_owned()
    }

    /// The variant that a code stands for, if any.
    pub open spec fn decoded(code: Seq<u8>) -> Option<ShareClassCode> {
        if code == bytes_of("0"@) {
            Some(ShareClassCode::Whole)
        } else if code == bytes_of("1"@) {
            Some(ShareClassCode::Common)
        } else if code == bytes_of("2"@) {
            Some(ShareClassCode::Preferred)
        } else {
            None
        }
    }

    /// Reads a code.
    pub fn from_code(code: &[u8]) -> (r: Option<ShareClassCode>)
        ensures
            r == ShareClassCode::decoded(code@),
    {
        if is_text(code, "0") {
            Some(ShareClassCode::Whole)
        } else if is_text(code, "1") {
            Some(ShareClassCode::Common)
        } else if is_text(code, "2") {
            Some(ShareClassCode::Preferred)
        } else {
            None
        }
    }

    /// Every variant is read back from its own code.
    pub proof fn lemma_code_round_trip(v: ShareClassCode)
        ensures
            ShareClassCode::decoded(bytes_of(v.code_text())) == Some(v),
    {
        reveal_strlit("0");
        reveal_strlit("1");
        reveal_strlit("2");
        lemma_literal("0"@);
        lemma_literal("1"@);
        lemma_literal("2"@);
        assert("0"@[0] == '0');
        assert("1"@[0] == '1');
        assert("2"@[0] == '2');
    }
}

/// The market that an instrument is listed on.
#[derive(Clone, Copy, Debug, PartialEq, Eq, Structural)]
pub enum MarketId {
    /// Agricultural derivatives.
    Agricultural,
    /// Bond derivatives.
    Bond,
    /// Commodities.
    Commodity,
    /// Currency derivatives.
    Currency,
    /// Energy derivatives.
    Energy,
    /// Equity derivatives.
    Equity,
    /// ETF derivatives.
    Etf,
    /// Interest-rate derivatives.
    InterestRate,
    /// KONEX.
    Konex,
    /// KOSDAQ.
    Kosdaq,
    /// Metal derivatives.
    Metal,
    /// Stock-index derivatives.
    StockPriceIndex,
    /// The main board.
    Stock,
}

impl MarketId {
    /// The code that stands for each variant on the wire.
    pub open spec fn code_text(self) -> Seq<char> {
        match self {
            MarketId::Agricultural => "AGR"@,
            MarketId::Bond => "BON"@,
            MarketId::Commodity => "CMD"@,
            MarketId::Currency => "CUR"@,
            MarketId::Energy => "ENG"@,
            MarketId::Equity => "EQU"@,
            MarketId::Etf => "ETF"@,
            MarketId::InterestRate => "IRT"@,
            MarketId::Konex => "KNX"@,
            MarketId::Kosdaq => "KSQ"@,
            MarketId::Metal => "MTL"@,
            MarketId::StockPriceIndex => "SPI"@,
            MarketId::Stock => "STK"@,
        }
    }

    /// The code of the variant.
    pub fn code(&self) -> (r: &'static str)
        ensures
            r@ == self.code_text(),
    {
        match self {
            MarketId::Agricultural => "AGR",
            MarketId::Bond => "BON",
            MarketId::Commodity => "CMD",
            MarketId::Currency => "CUR",
            MarketId::Energy => "ENG",
            MarketId::Equity => "EQU",
            MarketId::Etf => "ETF",
            MarketId::InterestRate => "IRT",
            MarketId::Konex => "KNX",
            MarketId::Kosdaq => "KSQ",
            MarketId::Metal => "MTL",
            MarketId::StockPriceIndex => "SPI",
            MarketId::Stock => "STK",
        }
    }

    /// The code as an owned string.
    pub fn to_string(&self) -> (r: String)
        ensures
            r@ == self.code_text(),
    {
        self.code().to_owned()
    }

    /// The variant that a code stands for, if any.
    pub open spec fn decoded(code: Seq<u8>) -> Option<MarketId> {
        if code == bytes_of("AGR"@) {
            Some(MarketId::Agricultural)
        } else if code == bytes_of("BON"@) {
            Some(MarketId::Bond)
        } else if code == bytes_of("CMD"@) {
            Some(MarketId::Commodity)
        } else if code == bytes_of("CUR"@) {
            Some(MarketId::Currency)
        } else if code == bytes_of("ENG"@) {
            Some(MarketId::Energy)
        } else if code == bytes_of("EQU"@) {
            Some(MarketId::Equity)
        } else if code == bytes_of("ETF"@) {
            Some(MarketId::Etf)
        } else if code == bytes_of("IRT"@) {
            Some(MarketId::InterestRate)
        } else if code == bytes_of("KNX"@) {
            Some(MarketId::Konex)
        } else if code == bytes_of("KSQ"@) {
            Some(MarketId::Kosdaq)
        } else if code == bytes_of("MTL"@) {
            Some(MarketId::Metal)
        } else if code == bytes_of("SPI"@) {
            Some(MarketId::StockPriceIndex)
        } else if code == bytes_of("STK"@) {
            Some(MarketId::Stock)
        } else {
            None
        }
    }

    /// Reads a code.
    pub fn from_code(code: &[u8]) -> (r: Option<MarketId>)
        ensures
            r == MarketId::decoded(code@),
    {
        if is_text(code, "AGR") {
            Some(MarketId::Agricultural)
        } else if is_text(code, "BON") {
            Some(MarketId::Bond)
        } else if is_text(code, "CMD") {
            Some(MarketId::Commodity)
        } else if is_text(code, "CUR") {
            Some(MarketId::Currency)
        } else if is_text(code, "ENG") {
            Some(MarketId::Energy)
        } else if is_text(code, "EQU") {
            Some(MarketId::Equity)
        } else if is_text(code, "ETF") {
            Some(MarketId::Etf)
        } else if is_text(code, "IRT") {
            Some(MarketId::InterestRate)
        } else if is_text(code, "KNX") {
            Some(MarketId::Konex)
        } else if is_text(code, "KSQ") {
            Some(MarketId::Kosdaq)
        } else if is_text(code, "MTL") {
            Some(MarketId::Metal)
        } else if is_text(code, "SPI") {
            Some(MarketId::StockPriceIndex)
        } else if is_text(code, "STK") {
            Some(MarketId::Stock)
        } else {
            None
        }
    }

    /// Reads a code; an unknown one is a breach of the protocol.
    pub fn from_str(s: &str) -> (r: Result<MarketId, Error>)
        ensures
            r == match MarketId::decoded(bytes_of(s@)) {
                Some(v) => Ok::<MarketId, Error>(v),
                None => Err(Error::BrokenProtocol),
            },
    {
        match MarketId::from_code(s.as_bytes()) {
            Some(v) => Ok(v),
            None => Err(Error::BrokenProtocol),
        }
    }

    /// Every variant is read back from its own code.
    pub proof fn lemma_code_round_trip(v: MarketId)
        ensures
            MarketId::decoded(bytes_of(v.code_text())) == Some(v),
    {
        reveal_strlit("AGR");
        reveal_strlit("BON");
        reveal_strlit("CMD");
        reveal_strlit("CUR");
        reveal_strlit("ENG");
        reveal_strlit("EQU");
        reveal_strlit("ETF");
        reveal_strlit("IRT");
        reveal_strlit("KNX");
        reveal_strlit("KSQ");
        reveal_strlit("MTL");
        reveal_strlit("SPI");
        reveal_strlit("STK");
        lemma_literal("AGR"@);
        lemma_literal("BON"@);
        lemma_literal("CMD"@);
        lemma_literal("CUR"@);
        lemma_literal("ENG"@);
        lemma_literal("EQU"@);
        lemma_literal("ETF"@);
        lemma_literal("IRT"@);
        lemma_literal("KNX"@);
        lemma_literal("KSQ"@);
        lemma_literal("MTL"@);
        lemma_literal("SPI"@);
        lemma_literal("STK"@);
        assert("AGR"@[0] == 'A');
        assert("BON"@[0] == 'B');
        assert("CMD"@[0] == 'C');
        assert("CMD"@[1] == 'M');
        assert("CUR"@[0] == 'C');
        assert("CUR"@[1] == 'U');
        assert("ENG"@[0] == 'E');
        assert("ENG"@[1] == 'N');
        assert("EQU"@[0] == 'E');
        assert("EQU"@[1] == 'Q');
        assert("ETF"@[0] == 'E');
        assert("ETF"@[1] == 'T');
        assert("IRT"@[0] == 'I');
        assert("KNX"@[0] == 'K');
        assert("KNX"@[1] == 'N');
        assert("KSQ"@[0] == 'K');
        assert("KSQ"@[1] == 'S');
        assert("MTL"@[0] == 'M');
        assert("SPI"@[0] == 'S');
        assert("SPI"@[1] == 'P');
        assert("STK"@[0] == 'S');
        assert("STK"@[1] == 'T');
    }
}

/// The group of securities that an instrument belongs to.
#[derive(Clone, Copy, Debug, PartialEq, Eq, Structural)]
pub enum SecurityGroupId {
    /// Beneficiary certificates.
    Income,
    /// Depositary receipts.
    StockDepositaryReceipt,
    /// Exchange-traded funds.
    Etf,
    /// Exchange-traded notes.
    Etn,
    /// Equity-linked warrants.
    Elw,
    /// Foreign exchange-traded funds.
    ForeignEtf,
    /// Futures and options.
    FutureOption,
    /// Foreign shares.
    ForeignStock,
    /// Futures.
    Future,
    /// Flex futures.
    FlexFuture,
    /// Spot gold.
    Gold,
    /// Investment contract securities.
    InvestmentContract,
    /// Infrastructure investment companies.
    IndirectCapitalInvestmentCompany,
    /// KONEX shares.
    KonexStock,
    /// Investment companies.
    InvestmentCompany,
    /// Options.
    Options,
    /// Real-estate investment companies.
    RealEstateInvestmentCompany,
    /// Ship investment companies.
    ShipInvestmentCompany,
    /// Subscription rights.
    Warrant,
    /// Shares.
    Stock,
    /// Subscription warrants.
    WarrantSecurity,
    /// Trust beneficiary certificates.
    TrustIncome,
}

impl SecurityGroupId {
    /// The code that stands for each variant on the wire.
    pub open spec fn code_text(self) -> Seq<char> {
        match self {
            SecurityGroupId::Income => "BC"@,
            SecurityGroupId::StockDepositaryReceipt => "DR"@,
            SecurityGroupId::Etf => "EF"@,
            SecurityGroupId::Etn => "EN"@,
            SecurityGroupId::Elw => "EW"@,
            SecurityGroupId::ForeignEtf => "FE"@,
            SecurityGroupId::FutureOption => "FO"@,
            SecurityGroupId::ForeignStock => "FS"@,
            SecurityGroupId::Future => "FU"@,
            SecurityGroupId::FlexFuture => "FX"@,
            SecurityGroupId::Gold => "GD"@,
            SecurityGroupId::InvestmentContract => "IC"@,
            SecurityGroupId::IndirectCapitalInvestmentCompany => "IF"@,
            SecurityGroupId::KonexStock => "KN"@,
            SecurityGroupId::InvestmentCompany => "MF"@,
            SecurityGroupId::Options => "OP"@,
            SecurityGroupId::RealEstateInvestmentCompany => "RT"@,
            SecurityGroupId::ShipInvestmentCompany => "SC"@,
            SecurityGroupId::Warrant => "SR"@,
            SecurityGroupId::Stock => "ST"@,
            SecurityGroupId::WarrantSecurity => "SW"@,
            SecurityGroupId::TrustIncome => "TC"@,
        }
    }

    /// The code of the variant.
    pub fn code(&self) -> (r: &'static str)
        ensures
            r@ == self.code_text(),
    {
        match self {
            SecurityGroupId::Income => "BC",
            SecurityGroupId::StockDepositaryReceipt => "DR",
            SecurityGroupId::Etf => "EF",
            SecurityGroupId::Etn => "EN",
            SecurityGroupId::Elw => "EW",
            SecurityGroupId::ForeignEtf => "FE",
            SecurityGroupId::FutureOption => "FO",
            SecurityGroupId::ForeignStock => "FS",
            SecurityGroupId::Future => "FU",
            SecurityGroupId::FlexFuture => "FX",
            SecurityGroupId::Gold => "GD",
            SecurityGroupId::InvestmentContract => "IC",
            SecurityGroupId::IndirectCapitalInvestmentCompany => "IF",
            SecurityGroupId::KonexStock => "KN",
            SecurityGroupId::InvestmentCompany => "MF",
            SecurityGroupId::Options => "OP",
            SecurityGroupId::RealEstateInvestmentCompany => "RT",
            SecurityGroupId::ShipInvestmentCompany => "SC",
            SecurityGroupId::Warrant => "SR",
            SecurityGroupId::Stock => "ST",
            SecurityGroupId::WarrantSecurity => "SW",
            SecurityGroupId::TrustIncome => "TC",
        }
    }

    /// The code as an owned string.
    pub fn to_string(&self) -> (r: String)
        ensures
            r@ == self.code_text(),
    {
        self.code().to_owned()
    }

    /// The variant that a code stands for, if any.
    pub open spec fn decoded(code: Seq<u8>) -> Option<SecurityGroupId> {
        if code == bytes_of("BC"@) {
            Some(SecurityGroupId::Income)
        } else if code == bytes_of("DR"@) {
            Some(SecurityGroupId::StockDepositaryReceipt)
        } else if code == bytes_of("EF"@) {
            Some(SecurityGroupId::Etf)
        } else if code == bytes_of("EN"@) {
            Some(SecurityGroupId::Etn)
        } else if code == bytes_of("EW"@) {
            Some(SecurityGroupId::Elw)
        } else if code == bytes_of("FE"@) {
            Some(SecurityGroupId::ForeignEtf)
        } else if code == bytes_of("FO"@) {
            Some(SecurityGroupId::FutureOption)
        } else if code == bytes_of("FS"@) {
            Some(SecurityGroupId::ForeignStock)
        } else if code == bytes_of("FU"@) {
            Some(SecurityGroupId::Future)
        } else if code == bytes_of("FX"@) {
            Some(SecurityGroupId::FlexFuture)
        } else if code == bytes_of("GD"@) {
            Some(SecurityGroupId::Gold)
        } else if code == bytes_of("IC"@) {
            Some(SecurityGroupId::InvestmentContract)
        } else if code == bytes_of("IF"@) {
            Some(SecurityGroupId::IndirectCapitalInvestmentCompany)
        } else if code == bytes_of("KN"@) {
            Some(SecurityGroupId::KonexStock)
        } else if code == bytes_of("MF"@) {
            Some(SecurityGroupId::InvestmentCompany)
        } else if code == bytes_of("OP"@) {
            Some(SecurityGroupId::Options)
        } else if code == bytes_of("RT"@) {
            Some(SecurityGroupId::RealEstateInvestmentCompany)
        } else if code == bytes_of("SC"@) {
            Some(SecurityGroupId::ShipInvestmentCompany)
        } else if code == bytes_of("SR"@) {
            Some(SecurityGroupId::Warrant)
        } else if code == bytes_of("ST"@) {
            Some(SecurityGroupId::Stock)
        } else if code == bytes_of("SW"@) {
            Some(SecurityGroupId::WarrantSecurity)
        } else if code == bytes_of("TC"@) {
            Some(SecurityGroupId::TrustIncome)
        } else {
            None
        }
    }

    /// Reads a code.
    pub fn from_code(code: &[u8]) -> (r: Option<SecurityGroupId>)
        ensures
            r == SecurityGroupId::decoded(code@),
    {
        if is_text(code, "BC") {
            Some(SecurityGroupId::Income)
        } else if is_text(code, "DR") {
            Some(SecurityGroupId::StockDepositaryReceipt)
        } else if is_text(code, "EF") {
            Some(SecurityGroupId::Etf)
        } else if is_text(code, "EN") {
            Some(SecurityGroupId::Etn)
        } else if is_text(code, "EW") {
            Some(SecurityGroupId::Elw)
        } else if is_text(code, "FE") {
            Some(SecurityGroupId::ForeignEtf)
        } else if is_text(code, "FO") {
            Some(SecurityGroupId::FutureOption)
        } else if is_text(code, "FS") {
            Some(SecurityGroupId::ForeignStock)
        } else if is_text(code, "FU") {
            Some(SecurityGroupId::Future)
        } else if is_text(code, "FX") {
            Some(SecurityGroupId::FlexFuture)
        } else if is_text(code, "GD") {
            Some(SecurityGroupId::Gold)
        } else if is_text(code, "IC") {
            Some(SecurityGroupId::InvestmentContract)
        } else if is_text(code, "IF") {
            Some(SecurityGroupId::IndirectCapitalInvestmentCompany)
        } else if is_text(code, "KN") {
            Some(SecurityGroupId::KonexStock)
        } else if is_text(code, "MF") {
            Some(SecurityGroupId::InvestmentCompany)
        } else if is_text(code, "OP") {
            Some(SecurityGroupId::Options)
        } else if is_text(code, "RT") {
            Some(SecurityGroupId::RealEstateInvestmentCompany)
        } else if is_text(code, "SC") {
            Some(SecurityGroupId::ShipInvestmentCompany)
        } else if is_text(code, "SR") {
            Some(SecurityGroupId::Warrant)
        } else if is_text(code, "ST") {
            Some(SecurityGroupId::Stock)
        } else if is_text(code, "SW") {
            Some(SecurityGroupId::WarrantSecurity)
        } else if is_text(code, "TC") {
            Some(SecurityGroupId::TrustIncome)
        } else {
            None
        }
    }

    /// Reads a code; an unknown one is a breach of the protocol.
    pub fn from_str(s: &str) -> (r: Result<SecurityGroupId, Error>)
        ensures
            r == match SecurityGroupId::decoded(bytes_of(s@)) {
                Some(v) => Ok::<SecurityGroupId, Error>(v),
                None => Err(Error::BrokenProtocol),
            },
    {
        match SecurityGroupId::from_code(s.as_bytes()) {
            Some(v) => Ok(v),
            None => Err(Error::BrokenProtocol),
        }
    }

    /// Every variant is read back from its own code.
    pub proof fn lemma_code_round_trip(v: SecurityGroupId)
        ensures
            SecurityGroupId::decoded(bytes_of(v.code_text())) == Some(v),
    {
        reveal_strlit("BC");
        reveal_strlit("DR");
        reveal_strlit("EF");
        reveal_strlit("EN");
        reveal_strlit("EW");
        reveal_strlit("FE");
        reveal_strlit("FO");
        reveal_strlit("FS");
        reveal_strlit("FU");
        reveal_strlit("FX");
        reveal_strlit("GD");
        reveal_strlit("IC");
        reveal_strlit("IF");
        reveal_strlit("KN");
        reveal_strlit("MF");
        reveal_strlit("OP");
        reveal_strlit("RT");
        reveal_strlit("SC");
        reveal_strlit("SR");
        reveal_strlit("ST");
        reveal_strlit("SW");
        reveal_strlit("TC");
        lemma_literal("BC"@);
        lemma_literal("DR"@);
        lemma_literal("EF"@);
        lemma_literal("EN"@);
        lemma_literal("EW"@);
        lemma_literal("FE"@);
        lemma_literal("FO"@);
        lemma_literal("FS"@);
        lemma_literal("FU"@);
        lemma_literal("FX"@);
        lemma_literal("GD"@);
        lemma_literal("IC"@);
        lemma_literal("IF"@);
        lemma_literal("KN"@);
        lemma_literal("MF"@);
        lemma_literal("OP"@);
        lemma_literal("RT"@);
        lemma_literal("SC"@);
        lemma_literal("SR"@);
        lemma_literal("ST"@);
        lemma_literal("SW"@);
        lemma_literal("TC"@);
        assert("BC"@[0] == 'B');
        assert("DR"@[0] == 'D');
        assert("EF"@[0] == 'E');
        assert("EF"@[1] == 'F');
        assert("EN"@[0] == 'E');
        assert("EN"@[1] == 'N');
        assert("EW"@[0] == 'E');
        assert("EW"@[1] == 'W');
        assert("FE"@[0] == 'F');
        assert("FE"@[1] == 'E');
        assert("FO"@[0] == 'F');
        assert("FO"@[1] == 'O');
        assert("FS"@[0] == 'F');
        assert("FS"@[1] == 'S');
        assert("FU"@[0] == 'F');
        assert("FU"@[1] == 'U');
        assert("FX"@[0] == 'F');
        assert("FX"@[1] == 'X');
        assert("GD"@[0] == 'G');
        assert("IC"@[0] == 'I');
        assert("IC"@[1] == 'C');
        assert("IF"@[0] == 'I');
        assert("IF"@[1] == 'F');
        assert("KN"@[0] == 'K');
        assert("MF"@[0] == 'M');
        assert("OP"@[0] == 'O');
        assert("RT"@[0] == 'R');
        assert("SC"@[0] == 'S');
        assert("SC"@[1] == 'C');
        assert("SR"@[0] == 'S');
        assert("SR"@[1] == 'R');
        assert("ST"@[0] == 'S');
        assert("ST"@[1] == 'T');
        assert("SW"@[0] == 'S');
        assert("SW"@[1] == 'W');
        assert("TC"@[0] == 'T');
    }
}

/// The exchange that an instrument trades on.
#[derive(Clone, Copy, Debug, PartialEq, Eq, Structural)]
pub enum ExchangeCode {
    KoreaSecurities,
    /// The stock exchange.
    SecuritiesExchange,
    Kosdaq,
    /// The over-the-counter board.
    KOTC,
    /// The futures exchange.
    FutureExchange,
    CME,
    EUREX,
    /// Spot gold.
    Gold,
    /// United States, daytime.
    USDaytime,
    HongKong,
    ShanghaiB,
    Shenzhen,
    HongKongExchange,
    /// United States.
    US,
    Japan,
    ShanghaiA,
    ShenzhenA,
    Vietnam,
    /// The off-hours market before the opening.
    PreMarket,
    /// Competitive block trading.
    CompetitiveMassive,
    /// The auction market.
    AuctionMarket,
    /// The off-hours single-price market.
    OutMarketSinglePrice,
}

impl ExchangeCode {
    /// The code that stands for each variant on the wire.
    pub open spec fn code_text(self) -> Seq<char> {
        match self {
            ExchangeCode::KoreaSecurities => "01"@,
            ExchangeCode::SecuritiesExchange => "02"@,
            ExchangeCode::Kosdaq => "03"@,
            ExchangeCode::KOTC => "04"@,
            ExchangeCode::FutureExchange => "05"@,
            ExchangeCode::CME => "06"@,
            ExchangeCode::EUREX => "07"@,
            ExchangeCode::Gold => "21"@,
            ExchangeCode::USDaytime => "50"@,
            ExchangeCode::HongKong => "51"@,
            ExchangeCode::ShanghaiB => "52"@,
            ExchangeCode::Shenzhen => "53"@,
            ExchangeCode::HongKongExchange => "54"@,
            ExchangeCode::US => "55"@,
            ExchangeCode::Japan => "56"@,
            ExchangeCode::ShanghaiA => "57"@,
            ExchangeCode::ShenzhenA => "58"@,
            ExchangeCode::Vietnam => "59"@,
            ExchangeCode::PreMarket => "61"@,
            ExchangeCode::CompetitiveMassive => "64"@,
            ExchangeCode::AuctionMarket => "65"@,
            ExchangeCode::OutMarketSinglePrice => "81"@,
        }
    }

    /// The code of the variant.
    pub fn code(&self) -> (r: &'static str)
        ensures
            r@ == self.code_text(),
    {
        match self {
            ExchangeCode::KoreaSecurities => "01",
            ExchangeCode::SecuritiesExchange => "02",
            ExchangeCode::Kosdaq => "03",
            ExchangeCode::KOTC => "04",
            ExchangeCode::FutureExchange => "05",
            ExchangeCode::CME => "06",
            ExchangeCode::EUREX => "07",
            ExchangeCode::Gold => "21",
            ExchangeCode::USDaytime => "50",
            ExchangeCode::HongKong => "51",
            ExchangeCode::ShanghaiB => "52",
            ExchangeCode::Shenzhen => "53",
            ExchangeCode::HongKongExchange => "54",
            ExchangeCode::US => "55",
            ExchangeCode::Japan => "56",
            ExchangeCode::ShanghaiA => "57",
            ExchangeCode::ShenzhenA => "58",
            ExchangeCode::Vietnam => "59",
            ExchangeCode::PreMarket => "61",
            ExchangeCode::CompetitiveMassive => "64",
            ExchangeCode::AuctionMarket => "65",
            ExchangeCode::OutMarketSinglePrice => "81",
        }
    }

    /// The code as an owned string.
    pub fn to_string(&self) -> (r: String)
        ensures
            r@ == self.code_text(),
    {
        self.code().to_owned()
    }

    /// The variant that a code stands for, if any.
    pub open spec fn decoded(code: Seq<u8>) -> Option<ExchangeCode> {
        if code == bytes_of("01"@) {
            Some(ExchangeCode::KoreaSecurities)
        } else if code == bytes_of("02"@) {
            Some(ExchangeCode::SecuritiesExchange)
        } else if code == bytes_of("03"@) {
            Some(ExchangeCode::Kosdaq)
        } else if code == bytes_of("04"@) {
            Some(ExchangeCode::KOTC)
        } else if code == bytes_of("05"@) {
            Some(ExchangeCode::FutureExchange)
        } else if code == bytes_of("06"@) {
            Some(ExchangeCode::CME)
        } else if code == bytes_of("07"@) {
            Some(ExchangeCode::EUREX)
        } else if code == bytes_of("21"@) {
            Some(ExchangeCode::Gold)
        } else if code == bytes_of("50"@) {
            Some(ExchangeCode::USDaytime)
        } else if code == bytes_of("51"@) {
            Some(ExchangeCode::HongKong)
        } else if code == bytes_of("52"@) {
            Some(ExchangeCode::ShanghaiB)
        } else if code == bytes_of("53"@) {
            Some(ExchangeCode::Shenzhen)
        } else if code == bytes_of("54"@) {
            Some(ExchangeCode::HongKongExchange)
        } else if code == bytes_of("55"@) {
            Some(ExchangeCode::US)
        } else if code == bytes_of("56"@) {
            Some(ExchangeCode::Japan)
        } else if code == bytes_of("57"@) {
            Some(ExchangeCode::ShanghaiA)
        } else if code == bytes_of("58"@) {
            Some(ExchangeCode::ShenzhenA)
        } else if code == bytes_of("59"@) {
            Some(ExchangeCode::Vietnam)
        } else if code == bytes_of("61"@) {
            Some(ExchangeCode::PreMarket)
        } else if code == bytes_of("64"@) {
            Some(ExchangeCode::CompetitiveMassive)
        } else if code == bytes_of("65"@) {
            Some(ExchangeCode::AuctionMarket)
        } else if code == bytes_of("81"@) {
            Some(ExchangeCode::OutMarketSinglePrice)
        } else {
            None
        }
    }

    /// Reads a code.
    pub fn from_code(code: &[u8]) -> (r: Option<ExchangeCode>)
        ensures
            r == ExchangeCode::decoded(code@),
    {
        if is_text(code, "01") {
            Some(ExchangeCode::KoreaSecurities)
        } else if is_text(code, "02") {
            Some(ExchangeCode::SecuritiesExchange)
        } else if is_text(code, "03") {
            Some(ExchangeCode::Kosdaq)
        } else if is_text(code, "04") {
            Some(ExchangeCode::KOTC)
        } else if is_text(code, "05") {
            Some(ExchangeCode::FutureExchange)
        } else if is_text(code, "06") {
            Some(ExchangeCode::CME)
        } else if is_text(code, "07") {
            Some(ExchangeCode::EUREX)
        } else if is_text(code, "21") {
            Some(ExchangeCode::Gold)
        } else if is_text(code, "50") {
            Some(ExchangeCode::USDaytime)
        } else if is_text(code, "51") {
            Some(ExchangeCode::HongKong)
        } else if is_text(code, "52") {
            Some(ExchangeCode::ShanghaiB)
        } else if is_text(code, "53") {
            Some(ExchangeCode::Shenzhen)
        } else if is_text(code, "54") {
            Some(ExchangeCode::HongKongExchange)
        } else if is_text(code, "55") {
            Some(ExchangeCode::US)
        } else if is_text(code, "56") {
            Some(ExchangeCode::Japan)
        } else if is_text(code, "57") {
            Some(ExchangeCode::ShanghaiA)
        } else if is_text(code, "58") {
            Some(ExchangeCode::ShenzhenA)
        } else if is_text(code, "59") {
            Some(ExchangeCode::Vietnam)
        } else if is_text(code, "61") {
            Some(ExchangeCode::PreMarket)
        } else if is_text(code, "64") {
            Some(ExchangeCode::CompetitiveMassive)
        } else if is_text(code, "65") {
            Some(ExchangeCode::AuctionMarket)
        } else if is_text(code, "81") {
            Some(ExchangeCode::OutMarketSinglePrice)
        } else {
            None
        }
    }

    /// Reads a code; an unknown one is a breach of the protocol.
    pub fn from_str(s: &str) -> (r: Result<ExchangeCode, Error>)
        ensures
            r == match ExchangeCode::decoded(bytes_of(s@)) {
                Some(v) => Ok::<ExchangeCode, Error>(v),
                None => Err(Error::BrokenProtocol),
            },
    {
        match ExchangeCode::from_code(s.as_bytes()) {
            Some(v) => Ok(v),
            None => Err(Error::BrokenProtocol),
        }
    }

    /// Every variant is read back from its own code.
    pub proof fn lemma_code_round_trip(v: ExchangeCode)
        ensures
            ExchangeCode::decoded(bytes_of(v.code_text())) == Some(v),
    {
        reveal_strlit("01");
        reveal_strlit("02");
        reveal_strlit("03");
        reveal_strlit("04");
        reveal_strlit("05");
        reveal_strlit("06");
        reveal_strlit("07");
        reveal_strlit("21");
        reveal_strlit("50");
        reveal_strlit("51");
        reveal_strlit("52");
        reveal_strlit("53");
        reveal_strlit("54");
        reveal_strlit("55");
        reveal_strlit("56");
        reveal_strlit("57");
        reveal_strlit("58");
        reveal_strlit("59");
        reveal_strlit("61");
        reveal_strlit("64");
        reveal_strlit("65");
        reveal_strlit("81");
        lemma_literal("01"@);
        lemma_literal("02"@);
        lemma_literal("03"@);
        lemma_literal("04"@);
        lemma_literal("05"@);
        lemma_literal("06"@);
        lemma_literal("07"@);
        lemma_literal("21"@);
        lemma_literal("50"@);
        lemma_literal("51"@);
        lemma_literal("52"@);
        lemma_literal("53"@);
        lemma_literal("54"@);
        lemma_literal("55"@);
        lemma_literal("56"@);
        lemma_literal("57"@);
        lemma_literal("58"@);
        lemma_literal("59"@);
        lemma_literal("61"@);
        lemma_literal("64"@);
        lemma_literal("65"@);
        lemma_literal("81"@);
        assert("01"@[0] == '0');
        assert("01"@[1] == '1');
        assert("02"@[0] == '0');
        assert("02"@[1] == '2');
        assert("03"@[0] == '0');
        assert("03"@[1] == '3');
        assert("04"@[0] == '0');
        assert("04"@[1] == '4');
        assert("05"@[0] == '0');
        assert("05"@[1] == '5');
        assert("06"@[0] == '0');
        assert("06"@[1] == '6');
        assert("07"@[0] == '0');
        assert("07"@[1] == '7');
        assert("21"@[0] == '2');
        assert("50"@[0] == '5');
        assert("50"@[1] == '0');
        assert("51"@[0] == '5');
        assert("51"@[1] == '1');
        assert("52"@[0] == '5');
        assert("52"@[1] == '2');
        assert("53"@[0] == '5');
        assert("53"@[1] == '3');
        assert("54"@[0] == '5');
        assert("54"@[1] == '4');
        assert("55"@[0] == '5');
        assert("55"@[1] == '5');
        assert("56"@[0] == '5');
        assert("56"@[1] == '6');
        assert("57"@[0] == '5');
        assert("57"@[1] == '7');
        assert("58"@[0] == '5');
        assert("58"@[1] == '8');
        assert("59"@[0] == '5');
        assert("59"@[1] == '9');
        assert("61"@[0] == '6');
        assert("61"@[1] == '1');
        assert("64"@[0] == '6');
        assert("64"@[1] == '4');
        assert("65"@[0] == '6');
        assert("65"@[1] == '5');
        assert("81"@[0] == '8');
    }
}

/// The kind of a share.
#[derive(Clone, Copy, Debug, PartialEq, Eq, Structural)]
pub enum StockKindCode {
    /// No kind.
    Absent,
    /// Common shares.
    Common,
    /// Preferred shares.
    Preferred,
    /// Preferred shares, series 2.
    Preferred2,
    /// Preferred shares, series 3.
    Preferred3,
    /// Preferred shares, series 4.
    Preferred4,
    /// Preferred shares, series 5.
    Preferred5,
    /// Preferred shares, series 6.
    Preferred6,
    /// Preferred shares, series 7.
    Preferred7,
    /// Preferred shares, series 8.
    Preferred8,
    /// Preferred shares, series 9.
    Preferred9,
    /// Preferred shares, series 10.
    Preferred10,
    /// Preferred shares, series 11.
    Preferred11,
    /// Preferred shares, series 12.
    Preferred12,
    /// Preferred shares, series 13.
    Preferred13,
    /// Preferred shares, series 14.
    Preferred14,
    /// Preferred shares, series 15.
    Preferred15,
    /// Preferred shares, series 16.
    Preferred16,
    /// Preferred shares, series 17.
    Preferred17,
    /// Preferred shares, series 18.
    Preferred18,
    /// Preferred shares, series 19.
    Preferred19,
    /// Preferred shares, series 20.
    Preferred20,
    /// Deferred shares.
    After,
    /// Mixed shares.
    Mixed,
}

impl StockKindCode {
    /// The code that stands for each variant on the wire.
    pub open spec fn code_text(self) -> Seq<char> {
        match self {
            StockKindCode::Absent => "000"@,
            StockKindCode::Common => "101"@,
            StockKindCode::Preferred => "201"@,
            StockKindCode::Preferred2 => "202"@,
            StockKindCode::Preferred3 => "203"@,
            StockKindCode::Preferred4 => "204"@,
            StockKindCode::Preferred5 => "205"@,
            StockKindCode::Preferred6 => "206"@,
            StockKindCode::Preferred7 => "207"@,
            StockKindCode::Preferred8 => "208"@,
            StockKindCode::Preferred9 => "209"@,
            StockKindCode::Preferred10 => "210"@,
            StockKindCode::Preferred11 => "211"@,
            StockKindCode::Preferred12 => "212"@,
            StockKindCode::Preferred13 => "213"@,
            StockKindCode::Preferred14 => "214"@,
            StockKindCode::Preferred15 => "215"@,
            StockKindCode::Preferred16 => "216"@,
            StockKindCode::Preferred17 => "217"@,
            StockKindCode::Preferred18 => "218"@,
            StockKindCode::Preferred19 => "219"@,
            StockKindCode::Preferred20 => "220"@,
            StockKindCode::After => "301"@,
            StockKindCode::Mixed => "401"@,
        }
    }

    /// The code of the variant.
    pub fn code(&self) -> (r: &'static str)
        ensures
            r@ == self.code_text(),
    {
        match self {
            StockKindCode::Absent => "000",
            StockKindCode::Common => "101",
            StockKindCode::Preferred => "201",
            StockKindCode::Preferred2 => "202",
            StockKindCode::Preferred3 => "203",
            StockKindCode::Preferred4 => "204",
            StockKindCode::Preferred5 => "205",
            StockKindCode::Preferred6 => "206",
            StockKindCode::Preferred7 => "207",
            StockKindCode::Preferred8 => "208",
            StockKindCode::Preferred9 => "209",
            StockKindCode::Preferred10 => "210",
            StockKindCode::Preferred11 => "211",
            StockKindCode::Preferred12 => "212",
            StockKindCode::Preferred13 => "213",
            StockKindCode::Preferred14 => "214",
            StockKindCode::Preferred15 => "215",
            StockKindCode::Preferred16 => "216",
            StockKindCode::Preferred17 => "217",
            StockKindCode::Preferred18 => "218",
            StockKindCode::Preferred19 => "219",
            StockKindCode::Preferred20 => "220",
            StockKindCode::After => "301",
            StockKindCode::Mixed => "401",
        }
    }

    /// The code as an owned string.
    pub fn to_string(&self) -> (r: String)
        ensures
            r@ == self.code_text(),
    {
        self.code().to_owned()
    }

    /// The variant that a code stands for, if any.
    pub open spec fn decoded(code: Seq<u8>) -> Option<StockKindCode> {
        if code == bytes_of("000"@) {
            Some(StockKindCode::Absent)
        } else if code == bytes_of("101"@) {
            Some(StockKindCode::Common)
        } else if code == bytes_of("201"@) {
            Some(StockKindCode::Preferred)
        } else if code == bytes_of("202"@) {
            Some(StockKindCode::Preferred2)
        } else if code == bytes_of("203"@) {
            Some(StockKindCode::Preferred3)
        } else if code == bytes_of("204"@) {
            Some(StockKindCode::Preferred4)
        } else if code == bytes_of("205"@) {
            Some(StockKindCode::Preferred5)
        } else if code == bytes_of("206"@) {
            Some(StockKindCode::Preferred6)
        } else if code == bytes_of("207"@) {
            Some(StockKindCode::Preferred7)
        } else if code == bytes_of("208"@) {
            Some(StockKindCode::Preferred8)
        } else if code == bytes_of("209"@) {
            Some(StockKindCode::Preferred9)
        } else if code == bytes_of("210"@) {
            Some(StockKindCode::Preferred10)
        } else if code == bytes_of("211"@) {
            Some(StockKindCode::Preferred11)
        } else if code == bytes_of("212"@) {
            Some(StockKindCode::Preferred12)
        } else if code == bytes_of("213"@) {
            Some(StockKindCode::Preferred13)
        } else if code == bytes_of("214"@) {
            Some(StockKindCode::Preferred14)
        } else if code == bytes_of("215"@) {
            Some(StockKindCode::Preferred15)
        } else if code == bytes_of("216"@) {
            Some(StockKindCode::Preferred16)
        } else if code == bytes_of("217"@) {
            Some(StockKindCode::Preferred17)
        } else if code == bytes_of("218"@) {
            Some(StockKindCode::Preferred18)
        } else if code == bytes_of("219"@) {
            Some(StockKindCode::Preferred19)
        } else if code == bytes_of("220"@) {
            Some(StockKindCode::Preferred20)
        } else if code == bytes_of("301"@) {
            Some(StockKindCode::After)
        } else if code == bytes_of("401"@) {
            Some(StockKindCode::Mixed)
        } else {
            None
        }
    }

    /// Reads a code.
    pub fn from_code(code: &[u8]) -> (r: Option<StockKindCode>)
        ensures
            r == StockKindCode::decoded(code@),
    {
        if is_text(code, "000") {
            Some(StockKindCode::Absent)
        } else if is_text(code, "101") {
            Some(StockKindCode::Common)
        } else if is_text(code, "201") {
            Some(StockKindCode::Preferred)
        } else if is_text(code, "202") {
            Some(StockKindCode::Preferred2)
        } else if is_text(code, "203") {
            Some(StockKindCode::Preferred3)
        } else if is_text(code, "204") {
            Some(StockKindCode::Preferred4)
        } else if is_text(code, "205") {
            Some(StockKindCode::Preferred5)
        } else if is_text(code, "206") {
            Some(StockKindCode::Preferred6)
        } else if is_text(code, "207") {
            Some(StockKindCode::Preferred7)
        } else if is_text(code, "208") {
            Some(StockKindCode::Preferred8)
        } else if is_text(code, "209") {
            Some(StockKindCode::Preferred9)
        } else if is_text(code, "210") {
            Some(StockKindCode::Preferred10)
        } else if is_text(code, "211") {
            Some(StockKindCode::Preferred11)
        } else if is_text(code, "212") {
            Some(StockKindCode::Preferred12)
        } else if is_text(code, "213") {
            Some(StockKindCode::Preferred13)
        } else if is_text(code, "214") {
            Some(StockKindCode::Preferred14)
        } else if is_text(code, "215") {
            Some(StockKindCode::Preferred15)
        } else if is_text(code, "216") {
            Some(StockKindCode::Preferred16)
        } else if is_text(code, "217") {
            Some(StockKindCode::Preferred17)
        } else if is_text(code, "218") {
            Some(StockKindCode::Preferred18)
        } else if is_text(code, "219") {
            Some(StockKindCode::Preferred19)
        } else if is_text(code, "220") {
            Some(StockKindCode::Preferred20)
        } else if is_text(code, "301") {
            Some(StockKindCode::After)
        } else if is_text(code, "401") {
            Some(StockKindCode::Mixed)
        } else {
            None
        }
    }

    /// Reads a code; an unknown one is a breach of the protocol.
    pub fn from_str(s: &str) -> (r: Result<StockKindCode, Error>)
        ensures
            r == match StockKindCode::decoded(bytes_of(s@)) {
                Some(v) => Ok::<StockKindCode, Error>(v),
                None => Err(Error::BrokenProtocol),
            },
    {
        match StockKindCode::from_code(s.as_bytes()) {
            Some(v) => Ok(v),
            None => Err(Error::BrokenProtocol),
        }
    }

    /// Every variant is read back from its own code.
    pub proof fn lemma_code_round_trip(v: StockKindCode)
        ensures
            StockKindCode::decoded(bytes_of(v.code_text())) == Some(v),
    {
        reveal_strlit("000");
        reveal_strlit("101");
        reveal_strlit("201");
        reveal_strlit("202");
        reveal_strlit("203");
        reveal_strlit("204");
        reveal_strlit("205");
        reveal_strlit("206");
        reveal_strlit("207");
        reveal_strlit("208");
        reveal_strlit("209");
        reveal_strlit("210");
        reveal_strlit("211");
        reveal_strlit("212");
        reveal_strlit("213");
        reveal_strlit("214");
        reveal_strlit("215");
        reveal_strlit("216");
        reveal_strlit("217");
        reveal_strlit("218");
        reveal_strlit("219");
        reveal_strlit("220");
        reveal_strlit("301");
        reveal_strlit("401");
        lemma_literal("000"@);
        lemma_literal("101"@);
        lemma_literal("201"@);
        lemma_literal("202"@);
        lemma_literal("203"@);
        lemma_literal("204"@);
        lemma_literal("205"@);
        lemma_literal("206"@);
        lemma_literal("207"@);
        lemma_literal("208"@);
        lemma_literal("209"@);
        lemma_literal("210"@);
        lemma_literal("211"@);
        lemma_literal("212"@);
        lemma_literal("213"@);
        lemma_literal("214"@);
        lemma_literal("215"@);
        lemma_literal("216"@);
        lemma_literal("217"@);
        lemma_literal("218"@);
        lemma_literal("219"@);
        lemma_literal("220"@);
        lemma_literal("301"@);
        lemma_literal("401"@);
        assert("000"@[0] == '0');
        assert("101"@[0] == '1');
        assert("201"@[0] == '2');
        assert("201"@[1] == '0');
        assert("201"@[2] == '1');
        assert("202"@[0] == '2');
        assert("202"@[1] == '0');
        assert("202"@[2] == '2');
        assert("203"@[0] == '2');
        assert("203"@[1] == '0');
        assert("203"@[2] == '3');
        assert("204"@[0] == '2');
        assert("204"@[1] == '0');
        assert("204"@[2] == '4');
        assert("205"@[0] == '2');
        assert("205"@[1] == '0');
        assert("205"@[2] == '5');
        assert("206"@[0] == '2');
        assert("206"@[1] == '0');
        assert("206"@[2] == '6');
        assert("207"@[0] == '2');
        assert("207"@[1] == '0');
        assert("207"@[2] == '7');
        assert("208"@[0] == '2');
        assert("208"@[1] == '0');
        assert("208"@[2] == '8');
        assert("209"@[0] == '2');
        assert("209"@[1] == '0');
        assert("209"@[2] == '9');
        assert("210"@[0] == '2');
        assert("210"@[1] == '1');
        assert("210"@[2] == '0');
        assert("211"@[0] == '2');
        assert("211"@[1] == '1');
        assert("211"@[2] == '1');
        assert("212"@[0] == '2');
        assert("212"@[1] == '1');
        assert("212"@[2] == '2');
        assert("213"@[0] == '2');
        assert("213"@[1] == '1');
        assert("213"@[2] == '3');
        assert("214"@[0] == '2');
        assert("214"@[1] == '1');
        assert("214"@[2] == '4');
        assert("215"@[0] == '2');
        assert("215"@[1] == '1');
        assert("215"@[2] == '5');
        assert("216"@[0] == '2');
        assert("216"@[1] == '1');
        assert("216"@[2] == '6');
        assert("217"@[0] == '2');
        assert("217"@[1] == '1');
        assert("217"@[2] == '7');
        assert("218"@[0] == '2');
        assert("218"@[1] == '1');
        assert("218"@[2] == '8');
        assert("219"@[0] == '2');
        assert("219"@[1] == '1');
        assert("219"@[2] == '9');
        assert("220"@[0] == '2');
        assert("220"@[1] == '2');
        assert("301"@[0] == '3');
        assert("401"@[0] == '4');
    }
}

/// The type of a product.
#[derive(Clone, Copy, Debug, PartialEq, Eq, Structural)]
pub enum ProductTypeCode {
    /// Stocks, ETFs, ETNs and ELWs.
    Stock,
    /// Futures and options.
    FutureOption,
    /// Bonds.
    Bond,
    /// Equity-linked securities.
    ELS,
}

impl ProductTypeCode {
    /// The code that stands for each variant on the wire.
    pub open spec fn code_text(self) -> Seq<char> {
        match self {
            ProductTypeCode::Stock => "300"@,
            ProductTypeCode::FutureOption => "301"@,
            ProductTypeCode::Bond => "302"@,
            ProductTypeCode::ELS => "306"@,
        }
    }

    /// The code of the variant.
    pub fn code(&self) -> (r: &'static str)
        ensures
            r@ == self.code_text(),
    {
        match self {
            ProductTypeCode::Stock => "300",
            ProductTypeCode::FutureOption => "301",
            ProductTypeCode::Bond => "302",
            ProductTypeCode::ELS => "306",
        }
    }

    /// The code as an owned string.
    pub fn to_string(&self) -> (r: String)
        ensures
            r@ == self.code_text(),
    {
        self.code().to_owned()
    }

    /// The variant that a code stands for, if any.
    pub open spec fn decoded(code: Seq<u8>) -> Option<ProductTypeCode> {
        if code == bytes_of("300"@) {
            Some(ProductTypeCode::Stock)
        } else if code == bytes_of("301"@) {
            Some(ProductTypeCode::FutureOption)
        } else if code == bytes_of("302"@) {
            Some(ProductTypeCode::Bond)
        } else if code == bytes_of("306"@) {
            Some(ProductTypeCode::ELS)
        } else {
            None
        }
    }

    /// Reads a code.
    pub fn from_code(code: &[u8]) -> (r: Option<ProductTypeCode>)
        ensures
            r == ProductTypeCode::decoded(code@),
    {
        if is_text(code, "300") {
            Some(ProductTypeCode::Stock)
        } else if is_text(code, "301") {
            Some(ProductTypeCode::FutureOption)
        } else if is_text(code, "302") {
            Some(ProductTypeCode::Bond)
        } else if is_text(code, "306") {
            Some(ProductTypeCode::ELS)
        } else {
            None
        }
    }

    /// Reads a code; an unknown one is a breach of the protocol.
    pub fn from_str(s: &str) -> (r: Result<ProductTypeCode, Error>)
        ensures
            r == match ProductTypeCode::decoded(bytes_of(s@)) {
                Some(v) => Ok::<ProductTypeCode, Error>(v),
                None => Err(Error::BrokenProtocol),
            },
    {
        match ProductTypeCode::from_code(s.as_bytes()) {
            Some(v) => Ok(v),
            None => Err(Error::BrokenProtocol),
        }
    }

    /// Every variant is read back from its own code.
    pub proof fn lemma_code_round_trip(v: ProductTypeCode)
        ensures
            ProductTypeCode::decoded(bytes_of(v.code_text())) == Some(v),
    {
        reveal_strlit("300");
        reveal_strlit("301");
        reveal_strlit("302");
        reveal_strlit("306");
        lemma_literal("300"@);
        lemma_literal("301"@);
        lemma_literal("302"@);
        lemma_literal("306"@);
        assert("300"@[2] == '0');
        assert("301"@[2] == '1');
        assert("302"@[2] == '2');
        assert("306"@[2] == '6');
    }
}

impl Default for ProductTypeCode {
    fn default() -> (r: Self)
        ensures
            r == ProductTypeCode::Stock,
    {
        ProductTypeCode::Stock
    }
}

/// The division of a cash order.
#[derive(Clone, Copy, Debug, PartialEq, Eq, Structural)]
pub enum OrderDivision {
    /// Limit order.
    Limit,
    /// Market order.
    Market,
}

impl OrderDivision {
    /// The code that stands for each variant on the wire.
    pub open spec fn code_text(self) -> Seq<char> {
        match self {
            OrderDivision::Limit => "00"@,
            OrderDivision::Market => "01"@,
        }
    }

    /// The code of the variant.
    pub fn code(&self) -> (r: &'static str)
        ensures
            r@ == self.code_text(),
    {
        match self {
            OrderDivision::Limit => "00",
            OrderDivision::Market => "01",
        }
    }

    /// The code as an owned string.
    pub fn to_string(&self) -> (r: String)
        ensures
            r@ == self.code_text(),
    {
        self.code().to_owned()
    }

    /// The variant that a code stands for, if any.
    pub open spec fn decoded(code: Seq<u8>) -> Option<OrderDivision> {
        if code == bytes_of("00"@) {
            Some(OrderDivision::Limit)
        } else if code == bytes_of("01"@) {
            Some(OrderDivision::Market)
        } else {
            None
        }
    }

    /// Reads a code.
    pub fn from_code(code: &[u8]) -> (r: Option<OrderDivision>)
        ensures
            r == OrderDivision::decoded(code@),
    {
        if is_text(code, "00") {
            Some(OrderDivision::Limit)
        } else if is_text(code, "01") {
            Some(OrderDivision::Market)
        } else {
            None
        }
    }

    /// Every variant is read back from its own code.
    pub proof fn lemma_code_round_trip(v: OrderDivision)
        ensures
            OrderDivision::decoded(bytes_of(v.code_text())) == Some(v),
    {
        reveal_strlit("00");
        reveal_strlit("01");
        lemma_literal("00"@);
        lemma_literal("01"@);
        assert("00"@[1] == '0');
        assert("01"@[1] == '1');
    }
}

/// The byte that a flag is written as: `1` for set, `0` for clear.
pub open spec fn flag_byte(set: bool) -> u8 {
    if set {
        0x31
    } else {
        0x30
    }
}

fn flag(set: bool) -> (r: u8)
    ensures
        r == flag_byte(set),
{
    if set {
        0x31
    } else {
        0x30
    }
}

/// Which margin and credit classes a ranking covers.
#[derive(Clone, Copy, Debug, PartialEq, Eq, Structural)]
pub struct TargetClassCode {
    pub margin_30: bool,
    pub margin_40: bool,
    pub margin_50: bool,
    pub margin_60: bool,
    pub margin_100: bool,
    pub credit_30: bool,
    pub credit_40: bool,
    pub credit_50: bool,
    pub credit_60: bool,
}

impl TargetClassCode {
    /// The nine flags as digits, in the order of the fields.
    pub open spec fn digits(self) -> Seq<u8> {
        seq![
            flag_byte(self.margin_30),
            flag_byte(self.margin_40),
            flag_byte(self.margin_50),
            flag_byte(self.margin_60),
            flag_byte(self.margin_100),
            flag_byte(self.credit_30),
            flag_byte(self.credit_40),
            flag_byte(self.credit_50),
            flag_byte(self.credit_60),
        ]
    }

    /// The flags as the service reads them.
    pub fn to_string(&self) -> (r: String)
        ensures
            bytes_of(r@) == self.digits(),
    {
        let mut out: Vec<u8> = Vec::new();
        out.push(flag(self.margin_30));
        out.push(flag(self.margin_40));
        out.push(flag(self.margin_50));
        out.push(flag(self.margin_60));
        out.push(flag(self.margin_100));
        out.push(flag(self.credit_30));
        out.push(flag(self.credit_40));
        out.push(flag(self.credit_50));
        out.push(flag(self.credit_60));
        assert(out@ =~= self.digits());
        ascii_text(out.as_slice())
    }
}

/// Which instruments a ranking leaves out.
#[derive(Clone, Copy, Debug, PartialEq, Eq, Structural)]
pub struct TargetExeceptClassCode {
    /// Under an investment risk, warning or caution.
    pub overheat: bool,
    /// Under administration.
    pub administrated: bool,
    /// In liquidation trading.
    pub settlement_trading: bool,
    /// Cited for unfaithful disclosure.
    pub insufficient_posting: bool,
    /// Preferred shares.
    pub preferred_share: bool,
    /// Suspended from trading.
    pub suspended: bool,
}

impl TargetExeceptClassCode {
    /// The six flags as digits, in the order of the fields.
    pub open spec fn digits(self) -> Seq<u8> {
        seq![
            flag_byte(self.overheat),
            flag_byte(self.administrated),
            flag_byte(self.settlement_trading),
            flag_byte(self.insufficient_posting),
            flag_byte(self.preferred_share),
            flag_byte(self.suspended),
        ]
    }

    /// The flags as the service reads them.
    pub fn to_string(&self) -> (r: String)
        ensures
            bytes_of(r@) == self.digits(),
    {
        let mut out: Vec<u8> = Vec::new();
        out.push(flag(self.overheat));
        out.push(flag(self.administrated));
        out.push(flag(self.settlement_trading));
        out.push(flag(self.insufficient_posting));
        out.push(flag(self.preferred_share));
        out.push(flag(self.suspended));
        assert(out@ =~= self.digits());
        ascii_text(out.as_slice())
    }
}

} // verus!
