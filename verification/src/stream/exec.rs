//! The trade-tick channel: one message for every execution on the exchange.

use vstd::prelude::*;
use crate::codes::{
    bool_of, parse_bool_field, ExecClass, MarketOperationClassCode, MarketTerminationClassCode,
    TimeClassCode, VsPriceSign,
};
use crate::control::{control_of, ControlFrame};
use crate::error::Error;
use crate::number::Decimal;
use crate::stream::{
    channel_field, decimal_field, field_channel, field_decimal, field_i32, field_i64, field_text,
    field_time, field_u32, field_u32_or_zero, field_u64, flagged, i32_field, i64_field, is_flagged,
    text_field, time_field, u32_field, u32_or_zero, u64_field, Header,
};
use crate::text::{bytes_of, lemma_fields_are_text, split, split_fields, views, CARET, PIPE};
use crate::time::Time;
use vstd::utf8::*;

verus! {

/// The number of fields in a data frame of this channel: the compound first
/// field and forty-five values.
pub const FIELDS: usize = 46;

/// The number of sub-fields in the first field: the encryption flag, the
/// channel code, the item count and the instrument code.
pub const HEAD_FIELDS: usize = 4;

/// A message of the trade-tick channel. A control frame has no body, and
/// neither has a data frame that is flagged as encrypted.
#[derive(Clone, Debug)]
pub struct Exec {
    pub header: Header,
    pub body: Option<Body>,
}

/// The values of a trade tick, in the order of the frame.
#[derive(Clone, Debug)]
pub struct Body {
    /// The short code of the instrument.
    pub shortcode: String,
    /// When the trade was executed.
    pub exec_time: Time,
    /// The price of the trade.
    pub current_price: u32,
    /// How the price stands against the previous close.
    pub price_sign_vs_yesterday: VsPriceSign,
    /// The difference from the previous close.
    pub price_vs_yesterday: i32,
    /// The difference from the previous close, in percent.
    pub price_rate_vs_yesterday: Decimal,
    /// The volume-weighted average price of the day.
    pub weighted_average_price: Decimal,
    /// The opening price of the day.
    pub market_price: u32,
    /// The highest price of the day.
    pub market_upper_price: u32,
    /// The lowest price of the day.
    pub market_lower_price: u32,
    /// The best ask.
    pub ask_price: u32,
    /// The best bid.
    pub bid_price: u32,
    /// The volume of the trade.
    pub exec_volume: u64,
    /// The volume of the day so far.
    pub accumulative_exec_volume: u64,
    /// The turnover of the day so far.
    pub accumulative_exec_amount: u64,
    /// The number of trades on the ask side.
    pub ask_exec_count: u32,
    /// The number of trades on the bid side.
    pub bid_exec_count: u32,
    /// The number of buy trades less the number of sell trades.
    pub natural_bid_exec_count: i64,
    /// The strength of buying against selling.
    pub volume_power: Decimal,
    /// The volume sold so far.
    pub total_ask_exec_volume: u64,
    /// The volume bought so far.
    pub total_bid_exec_volume: u64,
    /// The side the trade was booked on.
    pub exec_class: ExecClass,
    /// The share of buying in the volume.
    pub bid_rate: Decimal,
    /// The volume against that of the previous day, in percent.
    pub exec_volume_rate_vs_yesterday: Decimal,
    /// When the opening price was set.
    pub market_price_time: Time,
    /// How the price stands against the opening price.
    pub vs_market_price_sign: VsPriceSign,
    /// The difference from the opening price.
    pub vs_market_price: i32,
    /// When the highest price was set.
    pub upper_price_time: Time,
    /// How the price stands against the highest price.
    pub vs_upper_price_sign: VsPriceSign,
    /// The difference from the highest price.
    pub vs_upper_price: i32,
    /// When the lowest price was set.
    pub lower_price_time: Time,
    /// How the price stands against the lowest price.
    pub vs_lower_price_sign: VsPriceSign,
    /// The difference from the lowest price.
    pub vs_lower_price: i32,
    /// The business date, at midnight.
    pub business_operation_date: Time,
    /// The state of the market session.
    pub new_market_operation_class_code: MarketOperationClassCode,
    /// Whether trading is halted.
    pub trade_suspended: bool,
    /// The quantity left at the best ask.
    pub ask_order_remained: u64,
    /// The quantity left at the best bid.
    pub bid_order_remained: u64,
    /// The quantity left on the ask side.
    pub total_ask_order_remained: u64,
    /// The quantity left on the bid side.
    pub total_bid_order_remained: u64,
    /// The turnover ratio of the volume.
    pub turnover_ratio: Decimal,
    /// The volume of the previous day up to the same time.
    pub yesterday_symmetric_time_accumulate_volume: u64,
    /// The volume against that of the previous day up to the same time, in percent.
    pub yesterday_symmetric_time_accumulate_volume_rate: Decimal,
    /// The part of the trading day.
    pub time_class_code: TimeClassCode,
    /// Why the session ended early, if it did.
    pub market_termination_class_code: MarketTerminationClassCode,
    /// The reference price of the static volatility interruption; zero where the field holds none.
    pub vi_standard_price: u32,
}

impl Body {
    /// Whether the fields from
    /// `shortcode` to
    /// `market_price`
    /// hold the typed values of the fields of the frame that they are read
    /// from.
    pub open spec fn agrees_from_shortcode(self, f: Seq<Seq<u8>>, h: Seq<Seq<u8>>) -> bool {
        &&& text_field(h[3]) == Ok::<Seq<char>, Error>(self.shortcode@)
        &&& time_field(f[33], f[1]) == Ok::<Time, Error>(self.exec_time)
        &&& u32_field(f[2]) == Ok::<u32, Error>(self.current_price)
        &&& VsPriceSign::of_field(f[3]) == Ok::<VsPriceSign, Error>(self.price_sign_vs_yesterday)
        &&& i32_field(f[4]) == Ok::<i32, Error>(self.price_vs_yesterday)
        &&& decimal_field(f[5]) == Ok::<Seq<char>, Error>(self.price_rate_vs_yesterday@)
        &&& decimal_field(f[6]) == Ok::<Seq<char>, Error>(self.weighted_average_price@)
        &&& u32_field(f[7]) == Ok::<u32, Error>(self.market_price)
    }

    /// Whether the fields from
    /// `market_upper_price` to
    /// `ask_exec_count`
    /// hold the typed values of the fields of the frame that they are read
    /// from.
    pub open spec fn agrees_from_market_upper_price(
        self,
        f: Seq<Seq<u8>>,
        h: Seq<Seq<u8>>,
    ) -> bool {
        &&& u32_field(f[8]) == Ok::<u32, Error>(self.market_upper_price)
        &&& u32_field(f[9]) == Ok::<u32, Error>(self.market_lower_price)
        &&& u32_field(f[10]) == Ok::<u32, Error>(self.ask_price)
        &&& u32_field(f[11]) == Ok::<u32, Error>(self.bid_price)
        &&& u64_field(f[12]) == Ok::<u64, Error>(self.exec_volume)
        &&& u64_field(f[13]) == Ok::<u64, Error>(self.accumulative_exec_volume)
        &&& u64_field(f[14]) == Ok::<u64, Error>(self.accumulative_exec_amount)
        &&& u32_field(f[15]) == Ok::<u32, Error>(self.ask_exec_count)
    }

    /// Whether the fields from
    /// `bid_exec_count` to
    /// `exec_volume_rate_vs_yesterday`
    /// hold the typed values of the fields of the frame that they are read
    /// from.
    pub open spec fn agrees_from_bid_exec_count(self, f: Seq<Seq<u8>>, h: Seq<Seq<u8>>) -> bool {
        &&& u32_field(f[16]) == Ok::<u32, Error>(self.bid_exec_count)
        &&& i64_field(f[17]) == Ok::<i64, Error>(self.natural_bid_exec_count)
        &&& decimal_field(f[18]) == Ok::<Seq<char>, Error>(self.volume_power@)
        &&& u64_field(f[19]) == Ok::<u64, Error>(self.total_ask_exec_volume)
        &&& u64_field(f[20]) == Ok::<u64, Error>(self.total_bid_exec_volume)
        &&& ExecClass::of_field(f[21]) == Ok::<ExecClass, Error>(self.exec_class)
        &&& decimal_field(f[22]) == Ok::<Seq<char>, Error>(self.bid_rate@)
        &&& decimal_field(f[23]) == Ok::<Seq<char>, Error>(self.exec_volume_rate_vs_yesterday@)
    }

    /// Whether the fields from
    /// `market_price_time` to
    /// `vs_lower_price_sign`
    /// hold the typed values of the fields of the frame that they are read
    /// from.
    pub open spec fn agrees_from_market_price_time(self, f: Seq<Seq<u8>>, h: Seq<Seq<u8>>) -> bool {
        &&& time_field(f[33], f[24]) == Ok::<Time, Error>(self.market_price_time)
        &&& VsPriceSign::of_field(f[25]) == Ok::<VsPriceSign, Error>(self.vs_market_price_sign)
        &&& i32_field(f[26]) == Ok::<i32, Error>(self.vs_market_price)
        &&& time_field(f[33], f[27]) == Ok::<Time, Error>(self.upper_price_time)
        &&& VsPriceSign::of_field(f[28]) == Ok::<VsPriceSign, Error>(self.vs_upper_price_sign)
        &&& i32_field(f[29]) == Ok::<i32, Error>(self.vs_upper_price)
        &&& time_field(f[33], f[30]) == Ok::<Time, Error>(self.lower_price_time)
        &&& VsPriceSign::of_field(f[31]) == Ok::<VsPriceSign, Error>(self.vs_lower_price_sign)
    }

    /// Whether the fields from
    /// `vs_lower_price` to
    /// `total_bid_order_remained`
    /// hold the typed values of the fields of the frame that they are read
    /// from.
    pub open spec fn agrees_from_vs_lower_price(self, f: Seq<Seq<u8>>, h: Seq<Seq<u8>>) -> bool {
        &&& i32_field(f[32]) == Ok::<i32, Error>(self.vs_lower_price)
        &&& time_field(f[33], bytes_of("000000"@))
            == Ok::<Time, Error>(self.business_operation_date)
        &&& MarketOperationClassCode::of_field(f[34])
            == Ok::<MarketOperationClassCode, Error>(self.new_market_operation_class_code)
        &&& self.trade_suspended == bool_of(f[35])
        &&& u64_field(f[36]) == Ok::<u64, Error>(self.ask_order_remained)
        &&& u64_field(f[37]) == Ok::<u64, Error>(self.bid_order_remained)
        &&& u64_field(f[38]) == Ok::<u64, Error>(self.total_ask_order_remained)
        &&& u64_field(f[39]) == Ok::<u64, Error>(self.total_bid_order_remained)
    }

    /// Whether the fields from
    /// `turnover_ratio` to
    /// `vi_standard_price`
    /// hold the typed values of the fields of the frame that they are read
    /// from.
    pub open spec fn agrees_from_turnover_ratio(self, f: Seq<Seq<u8>>, h: Seq<Seq<u8>>) -> bool {
        &&& decimal_field(f[40]) == Ok::<Seq<char>, Error>(self.turnover_ratio@)
        &&& u64_field(f[41]) == Ok::<u64, Error>(self.yesterday_symmetric_time_accumulate_volume)
        &&& decimal_field(f[42])
            == Ok::<Seq<char>, Error>(self.yesterday_symmetric_time_accumulate_volume_rate@)
        &&& TimeClassCode::of_field(f[43]) == Ok::<TimeClassCode, Error>(self.time_class_code)
        &&& self.market_termination_class_code == MarketTerminationClassCode::Terminated
        &&& self.vi_standard_price == u32_or_zero(f[45])
    }

    /// Whether every field of the body holds the typed value of the field of
    /// the frame that it is read from.
    pub open spec fn agrees(self, f: Seq<Seq<u8>>, h: Seq<Seq<u8>>) -> bool {
        &&& self.agrees_from_shortcode(f, h)
        &&& self.agrees_from_market_upper_price(f, h)
        &&& self.agrees_from_bid_exec_count(f, h)
        &&& self.agrees_from_market_price_time(f, h)
        &&& self.agrees_from_vs_lower_price(f, h)
        &&& self.agrees_from_turnover_ratio(f, h)
    }

    /// The error of the first field, in the order of the layout, from
    /// `shortcode` to
    /// `market_price`
    /// that does not hold a value of its type.
    pub open spec fn fault_from_shortcode(f: Seq<Seq<u8>>, h: Seq<Seq<u8>>) -> Option<Error> {
        if text_field(h[3]) is Err {
            Some(text_field(h[3])->Err_0)
        } else if time_field(f[33], f[1]) is Err {
            Some(time_field(f[33], f[1])->Err_0)
        } else if u32_field(f[2]) is Err {
            Some(u32_field(f[2])->Err_0)
        } else if VsPriceSign::of_field(f[3]) is Err {
            Some(VsPriceSign::of_field(f[3])->Err_0)
        } else if i32_field(f[4]) is Err {
            Some(i32_field(f[4])->Err_0)
        } else if decimal_field(f[5]) is Err {
            Some(decimal_field(f[5])->Err_0)
        } else if decimal_field(f[6]) is Err {
            Some(decimal_field(f[6])->Err_0)
        } else if u32_field(f[7]) is Err {
            Some(u32_field(f[7])->Err_0)
        } else {
            None
        }
    }

    /// The error of the first field, in the order of the layout, from
    /// `market_upper_price` to
    /// `ask_exec_count`
    /// that does not hold a value of its type.
    pub open spec fn fault_from_market_upper_price(
        f: Seq<Seq<u8>>,
        h: Seq<Seq<u8>>,
    ) -> Option<Error> {
        if u32_field(f[8]) is Err {
            Some(u32_field(f[8])->Err_0)
        } else if u32_field(f[9]) is Err {
            Some(u32_field(f[9])->Err_0)
        } else if u32_field(f[10]) is Err {
            Some(u32_field(f[10])->Err_0)
        } else if u32_field(f[11]) is Err {
            Some(u32_field(f[11])->Err_0)
        } else if u64_field(f[12]) is Err {
            Some(u64_field(f[12])->Err_0)
        } else if u64_field(f[13]) is Err {
            Some(u64_field(f[13])->Err_0)
        } else if u64_field(f[14]) is Err {
            Some(u64_field(f[14])->Err_0)
        } else if u32_field(f[15]) is Err {
            Some(u32_field(f[15])->Err_0)
        } else {
            None
        }
    }

    /// The error of the first field, in the order of the layout, from
    /// `bid_exec_count` to
    /// `exec_volume_rate_vs_yesterday`
    /// that does not hold a value of its type.
    pub open spec fn fault_from_bid_exec_count(f: Seq<Seq<u8>>, h: Seq<Seq<u8>>) -> Option<Error> {
        if u32_field(f[16]) is Err {
            Some(u32_field(f[16])->Err_0)
        } else if i64_field(f[17]) is Err {
            Some(i64_field(f[17])->Err_0)
        } else if decimal_field(f[18]) is Err {
            Some(decimal_field(f[18])->Err_0)
        } else if u64_field(f[19]) is Err {
            Some(u64_field(f[19])->Err_0)
        } else if u64_field(f[20]) is Err {
            Some(u64_field(f[20])->Err_0)
        } else if ExecClass::of_field(f[21]) is Err {
            Some(ExecClass::of_field(f[21])->Err_0)
        } else if decimal_field(f[22]) is Err {
            Some(decimal_field(f[22])->Err_0)
        } else if decimal_field(f[23]) is Err {
            Some(decimal_field(f[23])->Err_0)
        } else {
            None
        }
    }

    /// The error of the first field, in the order of the layout, from
    /// `market_price_time` to
    /// `vs_lower_price_sign`
    /// that does not hold a value of its type.
    pub open spec fn fault_from_market_price_time(
        f: Seq<Seq<u8>>,
        h: Seq<Seq<u8>>,
    ) -> Option<Error> {
        if time_field(f[33], f[24]) is Err {
            Some(time_field(f[33], f[24])->Err_0)
        } else if VsPriceSign::of_field(f[25]) is Err {
            Some(VsPriceSign::of_field(f[25])->Err_0)
        } else if i32_field(f[26]) is Err {
            Some(i32_field(f[26])->Err_0)
        } else if time_field(f[33], f[27]) is Err {
            Some(time_field(f[33], f[27])->Err_0)
        } else if VsPriceSign::of_field(f[28]) is Err {
            Some(VsPriceSign::of_field(f[28])->Err_0)
        } else if i32_field(f[29]) is Err {
            Some(i32_field(f[29])->Err_0)
        } else if time_field(f[33], f[30]) is Err {
            Some(time_field(f[33], f[30])->Err_0)
        } else if VsPriceSign::of_field(f[31]) is Err {
            Some(VsPriceSign::of_field(f[31])->Err_0)
        } else {
            None
        }
    }

    /// The error of the first field, in the order of the layout, from
    /// `vs_lower_price` to
    /// `total_bid_order_remained`
    /// that does not hold a value of its type.
    pub open spec fn fault_from_vs_lower_price(f: Seq<Seq<u8>>, h: Seq<Seq<u8>>) -> Option<Error> {
        if i32_field(f[32]) is Err {
            Some(i32_field(f[32])->Err_0)
        } else if time_field(f[33], bytes_of("000000"@)) is Err {
            Some(time_field(f[33], bytes_of("000000"@))->Err_0)
        } else if MarketOperationClassCode::of_field(f[34]) is Err {
            Some(MarketOperationClassCode::of_field(f[34])->Err_0)
        } else if u64_field(f[36]) is Err {
            Some(u64_field(f[36])->Err_0)
        } else if u64_field(f[37]) is Err {
            Some(u64_field(f[37])->Err_0)
        } else if u64_field(f[38]) is Err {
            Some(u64_field(f[38])->Err_0)
        } else if u64_field(f[39]) is Err {
            Some(u64_field(f[39])->Err_0)
        } else {
            None
        }
    }

    /// The error of the first field, in the order of the layout, from
    /// `turnover_ratio` to
    /// `vi_standard_price`
    /// that does not hold a value of its type.
    pub open spec fn fault_from_turnover_ratio(f: Seq<Seq<u8>>, h: Seq<Seq<u8>>) -> Option<Error> {
        if decimal_field(f[40]) is Err {
            Some(decimal_field(f[40])->Err_0)
        } else if u64_field(f[41]) is Err {
            Some(u64_field(f[41])->Err_0)
        } else if decimal_field(f[42]) is Err {
            Some(decimal_field(f[42])->Err_0)
        } else if TimeClassCode::of_field(f[43]) is Err {
            Some(TimeClassCode::of_field(f[43])->Err_0)
        } else {
            None
        }
    }

    /// The error of the first field, in the order of the layout, that does not
    /// hold a value of its type; `None` where every field does.
    pub open spec fn fault(f: Seq<Seq<u8>>, h: Seq<Seq<u8>>) -> Option<Error> {
        if Body::fault_from_shortcode(f, h) is Some {
            Body::fault_from_shortcode(f, h)
        } else if Body::fault_from_market_upper_price(f, h) is Some {
            Body::fault_from_market_upper_price(f, h)
        } else if Body::fault_from_bid_exec_count(f, h) is Some {
            Body::fault_from_bid_exec_count(f, h)
        } else if Body::fault_from_market_price_time(f, h) is Some {
            Body::fault_from_market_price_time(f, h)
        } else if Body::fault_from_vs_lower_price(f, h) is Some {
            Body::fault_from_vs_lower_price(f, h)
        } else if Body::fault_from_turnover_ratio(f, h) is Some {
            Body::fault_from_turnover_ratio(f, h)
        } else {
            None
        }
    }

    /// Reads the fields from
    /// `shortcode` to
    /// `market_price`.
    fn read_from_shortcode(fields: &Vec<Vec<u8>>, head: &Vec<Vec<u8>>) -> (r: Result<
        (
            String,
            Time,
            u32,
            VsPriceSign,
            i32,
            Decimal,
            Decimal,
            u32,
        ),
        Error,
    >)
        requires
            fields@.len() == FIELDS,
            head@.len() == HEAD_FIELDS,
        ensures
            match r {
                Ok(v) => {
                    &&& Body::fault_from_shortcode(
                        views(fields@),
                        views(head@),
                    ) is None
                    &&& text_field(views(head@)[3]) == Ok::<Seq<char>, Error>(v.0@)
                    &&& time_field(views(fields@)[33], views(fields@)[1]) == Ok::<Time, Error>(v.1)
                    &&& u32_field(views(fields@)[2]) == Ok::<u32, Error>(v.2)
                    &&& VsPriceSign::of_field(views(fields@)[3]) == Ok::<VsPriceSign, Error>(v.3)
                    &&& i32_field(views(fields@)[4]) == Ok::<i32, Error>(v.4)
                    &&& decimal_field(views(fields@)[5]) == Ok::<Seq<char>, Error>(v.5@)
                    &&& decimal_field(views(fields@)[6]) == Ok::<Seq<char>, Error>(v.6@)
                    &&& u32_field(views(fields@)[7]) == Ok::<u32, Error>(v.7)
                },
                Err(e) => Body::fault_from_shortcode(
                    views(fields@),
                    views(head@),
                ) == Some(e),
            },
    {
        let shortcode = field_text(head[3].as_slice())?;
        let exec_time = field_time(fields[33].as_slice(), fields[1].as_slice())?;
        let current_price = field_u32(fields[2].as_slice())?;
        let price_sign_vs_yesterday = VsPriceSign::read_field(fields[3].as_slice())?;
        let price_vs_yesterday = field_i32(fields[4].as_slice())?;
        let price_rate_vs_yesterday = field_decimal(fields[5].as_slice())?;
        let weighted_average_price = field_decimal(fields[6].as_slice())?;
        let market_price = field_u32(fields[7].as_slice())?;
        Ok(
            (
                shortcode,
                exec_time,
                current_price,
                price_sign_vs_yesterday,
                price_vs_yesterday,
                price_rate_vs_yesterday,
                weighted_average_price,
                market_price,
            ),
        )
    }

    proof fn lemma_text_from_shortcode(
        f: Seq<Seq<u8>>,
        h: Seq<Seq<u8>>,
    )
        requires
            f.len() == FIELDS,
            h.len() == HEAD_FIELDS,
            forall|i: int| 0 <= i < f.len() ==> valid_utf8(#[trigger] f[i]),
            forall|i: int| 0 <= i < h.len() ==> valid_utf8(#[trigger] h[i]),
        ensures
            Body::fault_from_shortcode(
                f,
                h,
            ) != Some(Error::Utf8Error),
    {
        valid_utf8_concat(f[33], f[1]);
    }

    /// Reads the fields from
    /// `market_upper_price` to
    /// `ask_exec_count`.
    fn read_from_market_upper_price(fields: &Vec<Vec<u8>>, head: &Vec<Vec<u8>>) -> (r: Result<
        (
            u32,
            u32,
            u32,
            u32,
            u64,
            u64,
            u64,
            u32,
        ),
        Error,
    >)
        requires
            fields@.len() == FIELDS,
            head@.len() == HEAD_FIELDS,
        ensures
            match r {
                Ok(v) => {
                    &&& Body::fault_from_market_upper_price(
                        views(fields@),
                        views(head@),
                    ) is None
                    &&& u32_field(views(fields@)[8]) == Ok::<u32, Error>(v.0)
                    &&& u32_field(views(fields@)[9]) == Ok::<u32, Error>(v.1)
                    &&& u32_field(views(fields@)[10]) == Ok::<u32, Error>(v.2)
                    &&& u32_field(views(fields@)[11]) == Ok::<u32, Error>(v.3)
                    &&& u64_field(views(fields@)[12]) == Ok::<u64, Error>(v.4)
                    &&& u64_field(views(fields@)[13]) == Ok::<u64, Error>(v.5)
                    &&& u64_field(views(fields@)[14]) == Ok::<u64, Error>(v.6)
                    &&& u32_field(views(fields@)[15]) == Ok::<u32, Error>(v.7)
                },
                Err(e) => Body::fault_from_market_upper_price(
                    views(fields@),
                    views(head@),
                ) == Some(e),
            },
    {
        let market_upper_price = field_u32(fields[8].as_slice())?;
        let market_lower_price = field_u32(fields[9].as_slice())?;
        let ask_price = field_u32(fields[10].as_slice())?;
        let bid_price = field_u32(fields[11].as_slice())?;
        let exec_volume = field_u64(fields[12].as_slice())?;
        let accumulative_exec_volume = field_u64(fields[13].as_slice())?;
        let accumulative_exec_amount = field_u64(fields[14].as_slice())?;
        let ask_exec_count = field_u32(fields[15].as_slice())?;
        Ok(
            (
                market_upper_price,
                market_lower_price,
                ask_price,
                bid_price,
                exec_volume,
                accumulative_exec_volume,
                accumulative_exec_amount,
                ask_exec_count,
            ),
        )
    }

    proof fn lemma_text_from_market_upper_price(
        f: Seq<Seq<u8>>,
        h: Seq<Seq<u8>>,
    )
        requires
            f.len() == FIELDS,
            h.len() == HEAD_FIELDS,
            forall|i: int| 0 <= i < f.len() ==> valid_utf8(#[trigger] f[i]),
            forall|i: int| 0 <= i < h.len() ==> valid_utf8(#[trigger] h[i]),
        ensures
            Body::fault_from_market_upper_price(
                f,
                h,
            ) != Some(Error::Utf8Error),
    {
    }

    /// Reads the fields from
    /// `bid_exec_count` to
    /// `exec_volume_rate_vs_yesterday`.
    fn read_from_bid_exec_count(fields: &Vec<Vec<u8>>, head: &Vec<Vec<u8>>) -> (r: Result<
        (
            u32,
            i64,
            Decimal,
            u64,
            u64,
            ExecClass,
            Decimal,
            Decimal,
        ),
        Error,
    >)
        requires
            fields@.len() == FIELDS,
            head@.len() == HEAD_FIELDS,
        ensures
            match r {
                Ok(v) => {
                    &&& Body::fault_from_bid_exec_count(
                        views(fields@),
                        views(head@),
                    ) is None
                    &&& u32_field(views(fields@)[16]) == Ok::<u32, Error>(v.0)
                    &&& i64_field(views(fields@)[17]) == Ok::<i64, Error>(v.1)
                    &&& decimal_field(views(fields@)[18]) == Ok::<Seq<char>, Error>(v.2@)
                    &&& u64_field(views(fields@)[19]) == Ok::<u64, Error>(v.3)
                    &&& u64_field(views(fields@)[20]) == Ok::<u64, Error>(v.4)
                    &&& ExecClass::of_field(views(fields@)[21]) == Ok::<ExecClass, Error>(v.5)
                    &&& decimal_field(views(fields@)[22]) == Ok::<Seq<char>, Error>(v.6@)
                    &&& decimal_field(views(fields@)[23]) == Ok::<Seq<char>, Error>(v.7@)
                },
                Err(e) => Body::fault_from_bid_exec_count(
                    views(fields@),
                    views(head@),
                ) == Some(e),
            },
    {
        let bid_exec_count = field_u32(fields[16].as_slice())?;
        let natural_bid_exec_count = field_i64(fields[17].as_slice())?;
        let volume_power = field_decimal(fields[18].as_slice())?;
        let total_ask_exec_volume = field_u64(fields[19].as_slice())?;
        let total_bid_exec_volume = field_u64(fields[20].as_slice())?;
        let exec_class = ExecClass::read_field(fields[21].as_slice())?;
        let bid_rate = field_decimal(fields[22].as_slice())?;
        let exec_volume_rate_vs_yesterday = field_decimal(fields[23].as_slice())?;
        Ok(
            (
                bid_exec_count,
                natural_bid_exec_count,
                volume_power,
                total_ask_exec_volume,
                total_bid_exec_volume,
                exec_class,
                bid_rate,
                exec_volume_rate_vs_yesterday,
            ),
        )
    }

    proof fn lemma_text_from_bid_exec_count(
        f: Seq<Seq<u8>>,
        h: Seq<Seq<u8>>,
    )
        requires
            f.len() == FIELDS,
            h.len() == HEAD_FIELDS,
            forall|i: int| 0 <= i < f.len() ==> valid_utf8(#[trigger] f[i]),
            forall|i: int| 0 <= i < h.len() ==> valid_utf8(#[trigger] h[i]),
        ensures
            Body::fault_from_bid_exec_count(
                f,
                h,
            ) != Some(Error::Utf8Error),
    {
    }

    /// Reads the fields from
    /// `market_price_time` to
    /// `vs_lower_price_sign`.
    fn read_from_market_price_time(fields: &Vec<Vec<u8>>, head: &Vec<Vec<u8>>) -> (r: Result<
        (
            Time,
            VsPriceSign,
            i32,
            Time,
            VsPriceSign,
            i32,
            Time,
            VsPriceSign,
        ),
        Error,
    >)
        requires
            fields@.len() == FIELDS,
            head@.len() == HEAD_FIELDS,
        ensures
            match r {
                Ok(v) => {
                    &&& Body::fault_from_market_price_time(
                        views(fields@),
                        views(head@),
                    ) is None
                    &&& time_field(views(fields@)[33], views(fields@)[24]) == Ok::<Time, Error>(v.0)
                    &&& VsPriceSign::of_field(views(fields@)[25]) == Ok::<VsPriceSign, Error>(v.1)
                    &&& i32_field(views(fields@)[26]) == Ok::<i32, Error>(v.2)
                    &&& time_field(views(fields@)[33], views(fields@)[27]) == Ok::<Time, Error>(v.3)
                    &&& VsPriceSign::of_field(views(fields@)[28]) == Ok::<VsPriceSign, Error>(v.4)
                    &&& i32_field(views(fields@)[29]) == Ok::<i32, Error>(v.5)
                    &&& time_field(views(fields@)[33], views(fields@)[30]) == Ok::<Time, Error>(v.6)
                    &&& VsPriceSign::of_field(views(fields@)[31]) == Ok::<VsPriceSign, Error>(v.7)
                },
                Err(e) => Body::fault_from_market_price_time(
                    views(fields@),
                    views(head@),
                ) == Some(e),
            },
    {
        let market_price_time = field_time(fields[33].as_slice(), fields[24].as_slice())?;
        let vs_market_price_sign = VsPriceSign::read_field(fields[25].as_slice())?;
        let vs_market_price = field_i32(fields[26].as_slice())?;
        let upper_price_time = field_time(fields[33].as_slice(), fields[27].as_slice())?;
        let vs_upper_price_sign = VsPriceSign::read_field(fields[28].as_slice())?;
        let vs_upper_price = field_i32(fields[29].as_slice())?;
        let lower_price_time = field_time(fields[33].as_slice(), fields[30].as_slice())?;
        let vs_lower_price_sign = VsPriceSign::read_field(fields[31].as_slice())?;
        Ok(
            (
                market_price_time,
                vs_market_price_sign,
                vs_market_price,
                upper_price_time,
                vs_upper_price_sign,
                vs_upper_price,
                lower_price_time,
                vs_lower_price_sign,
            ),
        )
    }

    proof fn lemma_text_from_market_price_time(
        f: Seq<Seq<u8>>,
        h: Seq<Seq<u8>>,
    )
        requires
            f.len() == FIELDS,
            h.len() == HEAD_FIELDS,
            forall|i: int| 0 <= i < f.len() ==> valid_utf8(#[trigger] f[i]),
            forall|i: int| 0 <= i < h.len() ==> valid_utf8(#[trigger] h[i]),
        ensures
            Body::fault_from_market_price_time(
                f,
                h,
            ) != Some(Error::Utf8Error),
    {
        valid_utf8_concat(f[33], f[24]);
        valid_utf8_concat(f[33], f[27]);
        valid_utf8_concat(f[33], f[30]);
    }

    /// Reads the fields from
    /// `vs_lower_price` to
    /// `total_bid_order_remained`.
    fn read_from_vs_lower_price(fields: &Vec<Vec<u8>>, head: &Vec<Vec<u8>>) -> (r: Result<
        (
            i32,
            Time,
            MarketOperationClassCode,
            bool,
            u64,
            u64,
            u64,
            u64,
        ),
        Error,
    >)
        requires
            fields@.len() == FIELDS,
            head@.len() == HEAD_FIELDS,
        ensures
            match r {
                Ok(v) => {
                    &&& Body::fault_from_vs_lower_price(
                        views(fields@),
                        views(head@),
                    ) is None
                    &&& i32_field(views(fields@)[32]) == Ok::<i32, Error>(v.0)
                    &&& time_field(views(fields@)[33], bytes_of("000000"@))
                        == Ok::<Time, Error>(v.1)
                    &&& MarketOperationClassCode::of_field(views(fields@)[34])
                        == Ok::<MarketOperationClassCode, Error>(v.2)
                    &&& v.3 == bool_of(views(fields@)[35])
                    &&& u64_field(views(fields@)[36]) == Ok::<u64, Error>(v.4)
                    &&& u64_field(views(fields@)[37]) == Ok::<u64, Error>(v.5)
                    &&& u64_field(views(fields@)[38]) == Ok::<u64, Error>(v.6)
                    &&& u64_field(views(fields@)[39]) == Ok::<u64, Error>(v.7)
                },
                Err(e) => Body::fault_from_vs_lower_price(
                    views(fields@),
                    views(head@),
                ) == Some(e),
            },
    {
        let vs_lower_price = field_i32(fields[32].as_slice())?;
        let business_operation_date = field_time(fields[33].as_slice(), "000000".as_bytes())?;
        let new_market_operation_class_code =
            MarketOperationClassCode::read_field(fields[34].as_slice())?;
        let trade_suspended = parse_bool_field(fields[35].as_slice());
        let ask_order_remained = field_u64(fields[36].as_slice())?;
        let bid_order_remained = field_u64(fields[37].as_slice())?;
        let total_ask_order_remained = field_u64(fields[38].as_slice())?;
        let total_bid_order_remained = field_u64(fields[39].as_slice())?;
        Ok(
            (
                vs_lower_price,
                business_operation_date,
                new_market_operation_class_code,
                trade_suspended,
                ask_order_remained,
                bid_order_remained,
                total_ask_order_remained,
                total_bid_order_remained,
            ),
        )
    }

    proof fn lemma_text_from_vs_lower_price(
        f: Seq<Seq<u8>>,
        h: Seq<Seq<u8>>,
    )
        requires
            f.len() == FIELDS,
            h.len() == HEAD_FIELDS,
            forall|i: int| 0 <= i < f.len() ==> valid_utf8(#[trigger] f[i]),
            forall|i: int| 0 <= i < h.len() ==> valid_utf8(#[trigger] h[i]),
        ensures
            Body::fault_from_vs_lower_price(
                f,
                h,
            ) != Some(Error::Utf8Error),
    {
        encode_utf8_valid_utf8("000000"@);
        valid_utf8_concat(f[33], bytes_of("000000"@));
    }

    /// Reads the fields from
    /// `turnover_ratio` to
    /// `vi_standard_price`.
    fn read_from_turnover_ratio(fields: &Vec<Vec<u8>>, head: &Vec<Vec<u8>>) -> (r: Result<
        (
            Decimal,
            u64,
            Decimal,
            TimeClassCode,
            MarketTerminationClassCode,
            u32,
        ),
        Error,
    >)
        requires
            fields@.len() == FIELDS,
            head@.len() == HEAD_FIELDS,
        ensures
            match r {
                Ok(v) => {
                    &&& Body::fault_from_turnover_ratio(
                        views(fields@),
                        views(head@),
                    ) is None
                    &&& decimal_field(views(fields@)[40]) == Ok::<Seq<char>, Error>(v.0@)
                    &&& u64_field(views(fields@)[41]) == Ok::<u64, Error>(v.1)
                    &&& decimal_field(views(fields@)[42]) == Ok::<Seq<char>, Error>(v.2@)
                    &&& TimeClassCode::of_field(views(fields@)[43])
                        == Ok::<TimeClassCode, Error>(v.3)
                    &&& v.4 == MarketTerminationClassCode::Terminated
                    &&& v.5 == u32_or_zero(views(fields@)[45])
                },
                Err(e) => Body::fault_from_turnover_ratio(
                    views(fields@),
                    views(head@),
                ) == Some(e),
            },
    {
        let turnover_ratio = field_decimal(fields[40].as_slice())?;
        let yesterday_symmetric_time_accumulate_volume = field_u64(fields[41].as_slice())?;
        let yesterday_symmetric_time_accumulate_volume_rate = field_decimal(fields[42].as_slice())?;
        let time_class_code = TimeClassCode::read_field(fields[43].as_slice())?;
        let market_termination_class_code =
            MarketTerminationClassCode::from_code(fields[44].as_slice());
        let vi_standard_price = field_u32_or_zero(fields[45].as_slice());
        Ok(
            (
                turnover_ratio,
                yesterday_symmetric_time_accumulate_volume,
                yesterday_symmetric_time_accumulate_volume_rate,
                time_class_code,
                market_termination_class_code,
                vi_standard_price,
            ),
        )
    }

    proof fn lemma_text_from_turnover_ratio(
        f: Seq<Seq<u8>>,
        h: Seq<Seq<u8>>,
    )
        requires
            f.len() == FIELDS,
            h.len() == HEAD_FIELDS,
            forall|i: int| 0 <= i < f.len() ==> valid_utf8(#[trigger] f[i]),
            forall|i: int| 0 <= i < h.len() ==> valid_utf8(#[trigger] h[i]),
        ensures
            Body::fault_from_turnover_ratio(
                f,
                h,
            ) != Some(Error::Utf8Error),
    {
    }

    /// A body that is read from fields that are texts never fails for want
    /// of valid UTF-8.
    pub proof fn lemma_text_has_no_utf8_fault(f: Seq<Seq<u8>>, h: Seq<Seq<u8>>)
        requires
            f.len() == FIELDS,
            h.len() == HEAD_FIELDS,
            forall|i: int| 0 <= i < f.len() ==> valid_utf8(#[trigger] f[i]),
            forall|i: int| 0 <= i < h.len() ==> valid_utf8(#[trigger] h[i]),
        ensures
            Body::fault(f, h) != Some(Error::Utf8Error),
    {
        Body::lemma_text_from_shortcode(f, h);
        Body::lemma_text_from_market_upper_price(f, h);
        Body::lemma_text_from_bid_exec_count(f, h);
        Body::lemma_text_from_market_price_time(f, h);
        Body::lemma_text_from_vs_lower_price(f, h);
        Body::lemma_text_from_turnover_ratio(f, h);
    }

    /// Reads the body from the fields of a data frame.
    pub(crate) fn read(fields: &Vec<Vec<u8>>, head: &Vec<Vec<u8>>) -> (r: Result<Body, Error>)
        requires
            fields@.len() == FIELDS,
            head@.len() == HEAD_FIELDS,
        ensures
            match r {
                Ok(body) => Body::fault(views(fields@), views(head@)) is None && body.agrees(
                    views(fields@),
                    views(head@),
                ),
                Err(e) => Body::fault(views(fields@), views(head@)) == Some(e),
            },
    {
        let (
            shortcode,
            exec_time,
            current_price,
            price_sign_vs_yesterday,
            price_vs_yesterday,
            price_rate_vs_yesterday,
            weighted_average_price,
            market_price,
        ) = Body::read_from_shortcode(fields, head)?;
        let (
            market_upper_price,
            market_lower_price,
            ask_price,
            bid_price,
            exec_volume,
            accumulative_exec_volume,
            accumulative_exec_amount,
            ask_exec_count,
        ) = Body::read_from_market_upper_price(fields, head)?;
        let (
            bid_exec_count,
            natural_bid_exec_count,
            volume_power,
            total_ask_exec_volume,
            total_bid_exec_volume,
            exec_class,
            bid_rate,
            exec_volume_rate_vs_yesterday,
        ) = Body::read_from_bid_exec_count(fields, head)?;
        let (
            market_price_time,
            vs_market_price_sign,
            vs_market_price,
            upper_price_time,
            vs_upper_price_sign,
            vs_upper_price,
            lower_price_time,
            vs_lower_price_sign,
        ) = Body::read_from_market_price_time(fields, head)?;
        let (
            vs_lower_price,
            business_operation_date,
            new_market_operation_class_code,
            trade_suspended,
            ask_order_remained,
            bid_order_remained,
            total_ask_order_remained,
            total_bid_order_remained,
        ) = Body::read_from_vs_lower_price(fields, head)?;
        let (
            turnover_ratio,
            yesterday_symmetric_time_accumulate_volume,
            yesterday_symmetric_time_accumulate_volume_rate,
            time_class_code,
            market_termination_class_code,
            vi_standard_price,
        ) = Body::read_from_turnover_ratio(fields, head)?;
        Ok(
            Body {
                shortcode,
                exec_time,
                current_price,
                price_sign_vs_yesterday,
                price_vs_yesterday,
                price_rate_vs_yesterday,
                weighted_average_price,
                market_price,
                market_upper_price,
                market_lower_price,
                ask_price,
                bid_price,
                exec_volume,
                accumulative_exec_volume,
                accumulative_exec_amount,
                ask_exec_count,
                bid_exec_count,
                natural_bid_exec_count,
                volume_power,
                total_ask_exec_volume,
                total_bid_exec_volume,
                exec_class,
                bid_rate,
                exec_volume_rate_vs_yesterday,
                market_price_time,
                vs_market_price_sign,
                vs_market_price,
                upper_price_time,
                vs_upper_price_sign,
                vs_upper_price,
                lower_price_time,
                vs_lower_price_sign,
                vs_lower_price,
                business_operation_date,
                new_market_operation_class_code,
                trade_suspended,
                ask_order_remained,
                bid_order_remained,
                total_ask_order_remained,
                total_bid_order_remained,
                turnover_ratio,
                yesterday_symmetric_time_accumulate_volume,
                yesterday_symmetric_time_accumulate_volume_rate,
                time_class_code,
                market_termination_class_code,
                vi_standard_price,
            },
        )
    }
}

impl Exec {
    /// The error that decoding a data frame ends in, if any: a wrong number
    /// of fields, a time stamp or channel code that cannot be read, or the
    /// fault of the body.
    pub open spec fn data_fault(bytes: Seq<u8>) -> Option<Error> {
        let f = split(bytes, CARET);
        let h = split(f[0], PIPE);
        if f.len() != FIELDS {
            Some(Error::FieldCount)
        } else if h.len() != HEAD_FIELDS {
            Some(Error::FieldCount)
        } else if time_field(f[33], f[1]) is Err {
            Some(time_field(f[33], f[1])->Err_0)
        } else if channel_field(h[1]) is Err {
            Some(channel_field(h[1])->Err_0)
        } else if flagged(h[0]) {
            None
        } else {
            Body::fault(f, h)
        }
    }

    /// Whether the message is what the data frame says: the header holds the
    /// channel and the time of the trade, and the body every typed field.
    pub open spec fn data_agrees(self, bytes: Seq<u8>) -> bool {
        let f = split(bytes, CARET);
        let h = split(f[0], PIPE);
        &&& time_field(f[33], f[1]) == Ok::<Time, Error>(self.header.datetime)
        &&& channel_field(h[1]) == Ok::<crate::codes::TrId, Error>(self.header.tr_id)
        &&& flagged(h[0]) ==> self.body is None
        &&& !flagged(h[0]) ==> self.body is Some && self.body->Some_0.agrees(f, h)
    }

    /// Decodes a data frame.
    pub fn parse_data(bytes: &[u8]) -> (r: Result<Exec, Error>)
        ensures
            match r {
                Ok(m) => Exec::data_fault(bytes@) is None && m.data_agrees(bytes@),
                Err(e) => Exec::data_fault(bytes@) == Some(e),
            },
    {
        let fields = split_fields(bytes, CARET);
        if fields.len() != FIELDS {
            return Err(Error::FieldCount);
        }
        let head = split_fields(fields[0].as_slice(), PIPE);
        if head.len() != HEAD_FIELDS {
            return Err(Error::FieldCount);
        }
        let datetime = field_time(fields[33].as_slice(), fields[1].as_slice())?;
        let tr_id = field_channel(head[1].as_slice())?;
        let body = if is_flagged(head[0].as_slice()) {
            None
        } else {
            Some(Body::read(&fields, &head)?)
        };
        Ok(Exec { header: Header { tr_id, datetime }, body })
    }

    /// What [`Exec::parse`] returns for a frame: for a control frame its
    /// header and no body, or the error of the header; for a data frame what
    /// [`Exec::parse_data`] returns for its bytes.
    pub open spec fn parses(text: Seq<char>, r: Result<Exec, Error>) -> bool {
        match control_of(text) {
            Some(view) => match r {
                Ok(m) => Header::of_control(view) == Ok::<Header, Error>(m.header)
                    && m.body is None,
                Err(e) => Header::of_control(view) == Err::<Header, Error>(e),
            },
            None => match r {
                Ok(m) => Exec::data_fault(bytes_of(text)) is None && m.data_agrees(bytes_of(text)),
                Err(e) => Exec::data_fault(bytes_of(text)) == Some(e),
            },
        }
    }

    /// A data frame that is text never fails for want of valid UTF-8: every
    /// field of a text is a text.
    pub proof fn lemma_text_has_no_utf8_fault(text: Seq<char>)
        ensures
            Exec::data_fault(bytes_of(text)) != Some(Error::Utf8Error),
    {
        let bytes = bytes_of(text);
        encode_utf8_valid_utf8(text);
        lemma_fields_are_text(bytes, CARET);
        let f = split(bytes, CARET);
        if f.len() == FIELDS {
            lemma_fields_are_text(f[0], PIPE);
            let h = split(f[0], PIPE);
            valid_utf8_concat(f[33], f[1]);
            if h.len() == HEAD_FIELDS {
                Body::lemma_text_has_no_utf8_fault(f, h);
            }
        }
    }

    /// Decodes a frame of the trade-tick channel.
    pub fn parse(s: String) -> (r: Result<Exec, Error>)
        ensures
            Exec::parses(s@, r),
            r matches Err(e) ==> e != Error::Utf8Error,
    {
        proof {
            Exec::lemma_text_has_no_utf8_fault(s@);
        }
        match ControlFrame::read(s.as_str()) {
            Some(frame) => {
                let header = Header::from_control(&frame)?;
                Ok(Exec { header, body: None })
            },
            None => Exec::parse_data(s.as_str().as_bytes()),
        }
    }

    pub fn header(&self) -> (r: &Header)
        ensures
            *r == self.header,
    {
        &self.header
    }

    pub fn body(&self) -> (r: &Option<Body>)
        ensures
            *r == self.body,
    {
        &self.body
    }
}

} // verus!
