//! The order-book channel: the ten best levels on either side.

use vstd::prelude::*;
use crate::codes::{DealClassCode, TimeClassCode, VsPriceSign};
use crate::control::{control_of, ControlFrame};
use crate::error::Error;
use crate::number::Decimal;
use crate::stream::{
    channel_field, decimal_field, field_channel, field_decimal, field_i32, field_i64, field_text,
    field_time, field_u32, field_u64, flagged, i32_field, i64_field, is_flagged, levels_u32,
    levels_u64, read_levels_u32, read_levels_u64, text_field, time_field, u32_field, u64_field,
    Header,
};
use crate::text::{bytes_of, lemma_fields_are_text, split, split_fields, views, CARET, PIPE};
use crate::time::Time;
use vstd::utf8::*;

verus! {

/// The number of fields in a data frame of this channel: the compound first
/// field and fifty-eight values.
pub const FIELDS: usize = 59;

/// The number of sub-fields in the first field: the encryption flag, the
/// channel code, the item count and the instrument code.
pub const HEAD_FIELDS: usize = 4;

/// The number of price levels on either side of the book.
pub const LEVELS: usize = 10;

/// A message of the order-book channel. A control frame has no body, and
/// neither has a data frame that is flagged as encrypted.
#[derive(Clone, Debug)]
pub struct Ordb {
    pub header: Header,
    pub body: Option<Body>,
}

/// The values of an order-book update, in the order of the frame.
#[derive(Clone, Debug)]
pub struct Body {
    /// The short code of the instrument.
    pub shortcode: String,
    /// The time of the quote.
    pub time: Time,
    /// The part of the trading day.
    pub time_class_code: TimeClassCode,
    /// The ask prices of the ten levels, the best first.
    pub ask_price: [u32; 10],
    /// The bid prices of the ten levels, the best first.
    pub bid_price: [u32; 10],
    /// The quantities left at the ten ask levels, the best first.
    pub ask_remained: [u64; 10],
    /// The quantities left at the ten bid levels, the best first.
    pub bid_remained: [u64; 10],
    /// The quantity left on the ask side.
    pub total_ask_order_remained: u64,
    /// The quantity left on the bid side.
    pub total_bid_order_remained: u64,
    /// The quantity left on the ask side after hours.
    pub total_otc_ask_order_remained: u64,
    /// The quantity left on the bid side after hours.
    pub total_otc_bid_order_remained: u64,
    /// The expected price of the next auction.
    pub predicted_exec_price: u32,
    /// The expected quantity of the next auction.
    pub predicted_exec_quantity: u64,
    /// The expected volume.
    pub predicted_volume: u64,
    /// The expected price less the previous close.
    pub predicted_vs_exec: i32,
    /// How the expected price stands against the previous close.
    pub predicted_vs_exec_sign: VsPriceSign,
    /// The expected price against the previous close, in percent.
    pub predicted_exec_price_rate_vs_yesterday: Decimal,
    /// The volume of the day so far.
    pub accumulative_exec_volume: u64,
    /// The change of the quantity left on the ask side.
    pub total_ask_order_remained_diff: i64,
    /// The change of the quantity left on the bid side.
    pub total_bid_order_remained_diff: i64,
    /// The change of the quantity left on the ask side after hours.
    pub total_otc_ask_order_remained_diff: i64,
    /// The change of the quantity left on the bid side after hours.
    pub total_otc_bid_order_remained_diff: i64,
    /// The trade classification code.
    pub stock_deal_class_code: DealClassCode,
}

impl Body {
    /// Whether the fields from
    /// `shortcode` to
    /// `total_ask_order_remained`
    /// hold the typed values of the fields of the frame that they are read
    /// from.
    pub open spec fn agrees_from_shortcode(
        self,
        f: Seq<Seq<u8>>,
        h: Seq<Seq<u8>>,
        date: Seq<u8>,
    ) -> bool {
        &&& text_field(h[3]) == Ok::<Seq<char>, Error>(self.shortcode@)
        &&& time_field(date, f[1]) == Ok::<Time, Error>(self.time)
        &&& TimeClassCode::of_field(f[2]) == Ok::<TimeClassCode, Error>(self.time_class_code)
        &&& forall|k: int| 0 <= k < 10 ==> u32_field(#[trigger] f[3 + k])
            == Ok::<u32, Error>(self.ask_price[k])
        &&& forall|k: int| 0 <= k < 10 ==> u32_field(#[trigger] f[13 + k])
            == Ok::<u32, Error>(self.bid_price[k])
        &&& forall|k: int| 0 <= k < 10 ==> u64_field(#[trigger] f[23 + k])
            == Ok::<u64, Error>(self.ask_remained[k])
        &&& forall|k: int| 0 <= k < 10 ==> u64_field(#[trigger] f[33 + k])
            == Ok::<u64, Error>(self.bid_remained[k])
        &&& u64_field(f[43]) == Ok::<u64, Error>(self.total_ask_order_remained)
    }

    /// Whether the fields from
    /// `total_bid_order_remained` to
    /// `predicted_vs_exec_sign`
    /// hold the typed values of the fields of the frame that they are read
    /// from.
    pub open spec fn agrees_from_total_bid_order_remained(
        self,
        f: Seq<Seq<u8>>,
        h: Seq<Seq<u8>>,
        date: Seq<u8>,
    ) -> bool {
        &&& u64_field(f[44]) == Ok::<u64, Error>(self.total_bid_order_remained)
        &&& u64_field(f[45]) == Ok::<u64, Error>(self.total_otc_ask_order_remained)
        &&& u64_field(f[46]) == Ok::<u64, Error>(self.total_otc_bid_order_remained)
        &&& u32_field(f[47]) == Ok::<u32, Error>(self.predicted_exec_price)
        &&& u64_field(f[48]) == Ok::<u64, Error>(self.predicted_exec_quantity)
        &&& u64_field(f[49]) == Ok::<u64, Error>(self.predicted_volume)
        &&& i32_field(f[50]) == Ok::<i32, Error>(self.predicted_vs_exec)
        &&& VsPriceSign::of_field(f[51]) == Ok::<VsPriceSign, Error>(self.predicted_vs_exec_sign)
    }

    /// Whether the fields from
    /// `predicted_exec_price_rate_vs_yesterday` to
    /// `stock_deal_class_code`
    /// hold the typed values of the fields of the frame that they are read
    /// from.
    pub open spec fn agrees_from_predicted_exec_price_rate_vs_yesterday(
        self,
        f: Seq<Seq<u8>>,
        h: Seq<Seq<u8>>,
        date: Seq<u8>,
    ) -> bool {
        &&& decimal_field(f[52])
            == Ok::<Seq<char>, Error>(self.predicted_exec_price_rate_vs_yesterday@)
        &&& u64_field(f[53]) == Ok::<u64, Error>(self.accumulative_exec_volume)
        &&& i64_field(f[54]) == Ok::<i64, Error>(self.total_ask_order_remained_diff)
        &&& i64_field(f[55]) == Ok::<i64, Error>(self.total_bid_order_remained_diff)
        &&& i64_field(f[56]) == Ok::<i64, Error>(self.total_otc_ask_order_remained_diff)
        &&& i64_field(f[57]) == Ok::<i64, Error>(self.total_otc_bid_order_remained_diff)
        &&& text_field(f[58]) == Ok::<Seq<char>, Error>(self.stock_deal_class_code.text())
    }

    /// Whether every field of the body holds the typed value of the field of
    /// the frame that it is read from.
    pub open spec fn agrees(self, f: Seq<Seq<u8>>, h: Seq<Seq<u8>>, date: Seq<u8>) -> bool {
        &&& self.agrees_from_shortcode(f, h, date)
        &&& self.agrees_from_total_bid_order_remained(f, h, date)
        &&& self.agrees_from_predicted_exec_price_rate_vs_yesterday(f, h, date)
    }

    /// The error of the first field, in the order of the layout, from
    /// `shortcode` to
    /// `total_ask_order_remained`
    /// that does not hold a value of its type.
    pub open spec fn fault_from_shortcode(
        f: Seq<Seq<u8>>,
        h: Seq<Seq<u8>>,
        date: Seq<u8>,
    ) -> Option<Error> {
        if text_field(h[3]) is Err {
            Some(text_field(h[3])->Err_0)
        } else if time_field(date, f[1]) is Err {
            Some(time_field(date, f[1])->Err_0)
        } else if TimeClassCode::of_field(f[2]) is Err {
            Some(TimeClassCode::of_field(f[2])->Err_0)
        } else if levels_u32(f, 3) is Err {
            Some(levels_u32(f, 3)->Err_0)
        } else if levels_u32(f, 13) is Err {
            Some(levels_u32(f, 13)->Err_0)
        } else if levels_u64(f, 23) is Err {
            Some(levels_u64(f, 23)->Err_0)
        } else if levels_u64(f, 33) is Err {
            Some(levels_u64(f, 33)->Err_0)
        } else if u64_field(f[43]) is Err {
            Some(u64_field(f[43])->Err_0)
        } else {
            None
        }
    }

    /// The error of the first field, in the order of the layout, from
    /// `total_bid_order_remained` to
    /// `predicted_vs_exec_sign`
    /// that does not hold a value of its type.
    pub open spec fn fault_from_total_bid_order_remained(
        f: Seq<Seq<u8>>,
        h: Seq<Seq<u8>>,
        date: Seq<u8>,
    ) -> Option<Error> {
        if u64_field(f[44]) is Err {
            Some(u64_field(f[44])->Err_0)
        } else if u64_field(f[45]) is Err {
            Some(u64_field(f[45])->Err_0)
        } else if u64_field(f[46]) is Err {
            Some(u64_field(f[46])->Err_0)
        } else if u32_field(f[47]) is Err {
            Some(u32_field(f[47])->Err_0)
        } else if u64_field(f[48]) is Err {
            Some(u64_field(f[48])->Err_0)
        } else if u64_field(f[49]) is Err {
            Some(u64_field(f[49])->Err_0)
        } else if i32_field(f[50]) is Err {
            Some(i32_field(f[50])->Err_0)
        } else if VsPriceSign::of_field(f[51]) is Err {
            Some(VsPriceSign::of_field(f[51])->Err_0)
        } else {
            None
        }
    }

    /// The error of the first field, in the order of the layout, from
    /// `predicted_exec_price_rate_vs_yesterday` to
    /// `stock_deal_class_code`
    /// that does not hold a value of its type.
    pub open spec fn fault_from_predicted_exec_price_rate_vs_yesterday(
        f: Seq<Seq<u8>>,
        h: Seq<Seq<u8>>,
        date: Seq<u8>,
    ) -> Option<Error> {
        if decimal_field(f[52]) is Err {
            Some(decimal_field(f[52])->Err_0)
        } else if u64_field(f[53]) is Err {
            Some(u64_field(f[53])->Err_0)
        } else if i64_field(f[54]) is Err {
            Some(i64_field(f[54])->Err_0)
        } else if i64_field(f[55]) is Err {
            Some(i64_field(f[55])->Err_0)
        } else if i64_field(f[56]) is Err {
            Some(i64_field(f[56])->Err_0)
        } else if i64_field(f[57]) is Err {
            Some(i64_field(f[57])->Err_0)
        } else if text_field(f[58]) is Err {
            Some(text_field(f[58])->Err_0)
        } else {
            None
        }
    }

    /// The error of the first field, in the order of the layout, that does not
    /// hold a value of its type; `None` where every field does.
    pub open spec fn fault(f: Seq<Seq<u8>>, h: Seq<Seq<u8>>, date: Seq<u8>) -> Option<Error> {
        if Body::fault_from_shortcode(f, h, date) is Some {
            Body::fault_from_shortcode(f, h, date)
        } else if Body::fault_from_total_bid_order_remained(f, h, date) is Some {
            Body::fault_from_total_bid_order_remained(f, h, date)
        } else if Body::fault_from_predicted_exec_price_rate_vs_yesterday(f, h, date) is Some {
            Body::fault_from_predicted_exec_price_rate_vs_yesterday(f, h, date)
        } else {
            None
        }
    }

    /// Reads the fields from
    /// `shortcode` to
    /// `total_ask_order_remained`.
    fn read_from_shortcode(fields: &Vec<Vec<u8>>, head: &Vec<Vec<u8>>, date: &[u8]) -> (r: Result<
        (
            String,
            Time,
            TimeClassCode,
            [u32; 10],
            [u32; 10],
            [u64; 10],
            [u64; 10],
            u64,
        ),
        Error,
    >)
        requires
            fields@.len() == FIELDS,
            head@.len() == HEAD_FIELDS,
        ensures
            match r {
                Ok(v) => {
                    &&& Body::fault_from_shortcode(
                        views(fields@),
                        views(head@),
                        date@,
                    ) is None
                    &&& text_field(views(head@)[3]) == Ok::<Seq<char>, Error>(v.0@)
                    &&& time_field(date@, views(fields@)[1]) == Ok::<Time, Error>(v.1)
                    &&& TimeClassCode::of_field(views(fields@)[2])
                        == Ok::<TimeClassCode, Error>(v.2)
                    &&& forall|k: int| 0 <= k < 10 ==> u32_field(#[trigger] views(fields@)[3 + k])
                        == Ok::<u32, Error>(v.3[k])
                    &&& forall|k: int| 0 <= k < 10 ==> u32_field(#[trigger] views(fields@)[13 + k])
                        == Ok::<u32, Error>(v.4[k])
                    &&& forall|k: int| 0 <= k < 10 ==> u64_field(#[trigger] views(fields@)[23 + k])
                        == Ok::<u64, Error>(v.5[k])
                    &&& forall|k: int| 0 <= k < 10 ==> u64_field(#[trigger] views(fields@)[33 + k])
                        == Ok::<u64, Error>(v.6[k])
                    &&& u64_field(views(fields@)[43]) == Ok::<u64, Error>(v.7)
                },
                Err(e) => Body::fault_from_shortcode(
                    views(fields@),
                    views(head@),
                    date@,
                ) == Some(e),
            },
    {
        let shortcode = field_text(head[3].as_slice())?;
        let time = field_time(date, fields[1].as_slice())?;
        let time_class_code = TimeClassCode::read_field(fields[2].as_slice())?;
        let ask_price = read_levels_u32(fields, 3)?;
        let bid_price = read_levels_u32(fields, 13)?;
        let ask_remained = read_levels_u64(fields, 23)?;
        let bid_remained = read_levels_u64(fields, 33)?;
        let total_ask_order_remained = field_u64(fields[43].as_slice())?;
        Ok(
            (
                shortcode,
                time,
                time_class_code,
                ask_price,
                bid_price,
                ask_remained,
                bid_remained,
                total_ask_order_remained,
            ),
        )
    }

    proof fn lemma_text_from_shortcode(
        f: Seq<Seq<u8>>,
        h: Seq<Seq<u8>>,
        date: Seq<u8>,
    )
        requires
            f.len() == FIELDS,
            h.len() == HEAD_FIELDS,
            forall|i: int| 0 <= i < f.len() ==> valid_utf8(#[trigger] f[i]),
            forall|i: int| 0 <= i < h.len() ==> valid_utf8(#[trigger] h[i]),
            valid_utf8(date),
        ensures
            Body::fault_from_shortcode(
                f,
                h,
                date,
            ) != Some(Error::Utf8Error),
    {
        valid_utf8_concat(date, f[1]);
    }

    /// Reads the fields from
    /// `total_bid_order_remained` to
    /// `predicted_vs_exec_sign`.
    fn read_from_total_bid_order_remained(
        fields: &Vec<Vec<u8>>,
        head: &Vec<Vec<u8>>,
        date: &[u8],
    ) -> (r: Result<
        (
            u64,
            u64,
            u64,
            u32,
            u64,
            u64,
            i32,
            VsPriceSign,
        ),
        Error,
    >)
        requires
            fields@.len() == FIELDS,
            head@.len() == HEAD_FIELDS,
        ensures
            match r {
                Ok(v) => {
                    &&& Body::fault_from_total_bid_order_remained(
                        views(fields@),
                        views(head@),
                        date@,
                    ) is None
                    &&& u64_field(views(fields@)[44]) == Ok::<u64, Error>(v.0)
                    &&& u64_field(views(fields@)[45]) == Ok::<u64, Error>(v.1)
                    &&& u64_field(views(fields@)[46]) == Ok::<u64, Error>(v.2)
                    &&& u32_field(views(fields@)[47]) == Ok::<u32, Error>(v.3)
                    &&& u64_field(views(fields@)[48]) == Ok::<u64, Error>(v.4)
                    &&& u64_field(views(fields@)[49]) == Ok::<u64, Error>(v.5)
                    &&& i32_field(views(fields@)[50]) == Ok::<i32, Error>(v.6)
                    &&& VsPriceSign::of_field(views(fields@)[51]) == Ok::<VsPriceSign, Error>(v.7)
                },
                Err(e) => Body::fault_from_total_bid_order_remained(
                    views(fields@),
                    views(head@),
                    date@,
                ) == Some(e),
            },
    {
        let total_bid_order_remained = field_u64(fields[44].as_slice())?;
        let total_otc_ask_order_remained = field_u64(fields[45].as_slice())?;
        let total_otc_bid_order_remained = field_u64(fields[46].as_slice())?;
        let predicted_exec_price = field_u32(fields[47].as_slice())?;
        let predicted_exec_quantity = field_u64(fields[48].as_slice())?;
        let predicted_volume = field_u64(fields[49].as_slice())?;
        let predicted_vs_exec = field_i32(fields[50].as_slice())?;
        let predicted_vs_exec_sign = VsPriceSign::read_field(fields[51].as_slice())?;
        Ok(
            (
                total_bid_order_remained,
                total_otc_ask_order_remained,
                total_otc_bid_order_remained,
                predicted_exec_price,
                predicted_exec_quantity,
                predicted_volume,
                predicted_vs_exec,
                predicted_vs_exec_sign,
            ),
        )
    }

    proof fn lemma_text_from_total_bid_order_remained(
        f: Seq<Seq<u8>>,
        h: Seq<Seq<u8>>,
        date: Seq<u8>,
    )
        requires
            f.len() == FIELDS,
            h.len() == HEAD_FIELDS,
            forall|i: int| 0 <= i < f.len() ==> valid_utf8(#[trigger] f[i]),
            forall|i: int| 0 <= i < h.len() ==> valid_utf8(#[trigger] h[i]),
            valid_utf8(date),
        ensures
            Body::fault_from_total_bid_order_remained(
                f,
                h,
                date,
            ) != Some(Error::Utf8Error),
    {
    }

    /// Reads the fields from
    /// `predicted_exec_price_rate_vs_yesterday` to
    /// `stock_deal_class_code`.
    fn read_from_predicted_exec_price_rate_vs_yesterday(
        fields: &Vec<Vec<u8>>,
        head: &Vec<Vec<u8>>,
        date: &[u8],
    ) -> (r: Result<
        (
            Decimal,
            u64,
            i64,
            i64,
            i64,
            i64,
            DealClassCode,
        ),
        Error,
    >)
        requires
            fields@.len() == FIELDS,
            head@.len() == HEAD_FIELDS,
        ensures
            match r {
                Ok(v) => {
                    &&& Body::fault_from_predicted_exec_price_rate_vs_yesterday(
                        views(fields@),
                        views(head@),
                        date@,
                    ) is None
                    &&& decimal_field(views(fields@)[52]) == Ok::<Seq<char>, Error>(v.0@)
                    &&& u64_field(views(fields@)[53]) == Ok::<u64, Error>(v.1)
                    &&& i64_field(views(fields@)[54]) == Ok::<i64, Error>(v.2)
                    &&& i64_field(views(fields@)[55]) == Ok::<i64, Error>(v.3)
                    &&& i64_field(views(fields@)[56]) == Ok::<i64, Error>(v.4)
                    &&& i64_field(views(fields@)[57]) == Ok::<i64, Error>(v.5)
                    &&& text_field(views(fields@)[58]) == Ok::<Seq<char>, Error>(v.6.text())
                },
                Err(e) => Body::fault_from_predicted_exec_price_rate_vs_yesterday(
                    views(fields@),
                    views(head@),
                    date@,
                ) == Some(e),
            },
    {
        let predicted_exec_price_rate_vs_yesterday = field_decimal(fields[52].as_slice())?;
        let accumulative_exec_volume = field_u64(fields[53].as_slice())?;
        let total_ask_order_remained_diff = field_i64(fields[54].as_slice())?;
        let total_bid_order_remained_diff = field_i64(fields[55].as_slice())?;
        let total_otc_ask_order_remained_diff = field_i64(fields[56].as_slice())?;
        let total_otc_bid_order_remained_diff = field_i64(fields[57].as_slice())?;
        let stock_deal_class_code = DealClassCode::IDK(field_text(fields[58].as_slice())?);
        Ok(
            (
                predicted_exec_price_rate_vs_yesterday,
                accumulative_exec_volume,
                total_ask_order_remained_diff,
                total_bid_order_remained_diff,
                total_otc_ask_order_remained_diff,
                total_otc_bid_order_remained_diff,
                stock_deal_class_code,
            ),
        )
    }

    proof fn lemma_text_from_predicted_exec_price_rate_vs_yesterday(
        f: Seq<Seq<u8>>,
        h: Seq<Seq<u8>>,
        date: Seq<u8>,
    )
        requires
            f.len() == FIELDS,
            h.len() == HEAD_FIELDS,
            forall|i: int| 0 <= i < f.len() ==> valid_utf8(#[trigger] f[i]),
            forall|i: int| 0 <= i < h.len() ==> valid_utf8(#[trigger] h[i]),
            valid_utf8(date),
        ensures
            Body::fault_from_predicted_exec_price_rate_vs_yesterday(
                f,
                h,
                date,
            ) != Some(Error::Utf8Error),
    {
    }

    /// A body that is read from fields that are texts never fails for want
    /// of valid UTF-8.
    pub proof fn lemma_text_has_no_utf8_fault(f: Seq<Seq<u8>>, h: Seq<Seq<u8>>, date: Seq<u8>)
        requires
            f.len() == FIELDS,
            h.len() == HEAD_FIELDS,
            forall|i: int| 0 <= i < f.len() ==> valid_utf8(#[trigger] f[i]),
            forall|i: int| 0 <= i < h.len() ==> valid_utf8(#[trigger] h[i]),
            valid_utf8(date),
        ensures
            Body::fault(f, h, date) != Some(Error::Utf8Error),
    {
        Body::lemma_text_from_shortcode(f, h, date);
        Body::lemma_text_from_total_bid_order_remained(f, h, date);
        Body::lemma_text_from_predicted_exec_price_rate_vs_yesterday(f, h, date);
    }

    /// Reads the body from the fields of a data frame.
    pub(
        crate) fn read(fields: &Vec<Vec<u8>>,
        head: &Vec<Vec<u8>>,
        date: &[u8],
    ) -> (r: Result<Body, Error>)
        requires
            fields@.len() == FIELDS,
            head@.len() == HEAD_FIELDS,
        ensures
            match r {
                Ok(body) => Body::fault(views(fields@), views(head@), date@) is None && body.agrees(
                    views(fields@),
                    views(head@),
                    date@,
                ),
                Err(e) => Body::fault(views(fields@), views(head@), date@) == Some(e),
            },
    {
        let (
            shortcode,
            time,
            time_class_code,
            ask_price,
            bid_price,
            ask_remained,
            bid_remained,
            total_ask_order_remained,
        ) = Body::read_from_shortcode(fields, head, date)?;
        let (
            total_bid_order_remained,
            total_otc_ask_order_remained,
            total_otc_bid_order_remained,
            predicted_exec_price,
            predicted_exec_quantity,
            predicted_volume,
            predicted_vs_exec,
            predicted_vs_exec_sign,
        ) = Body::read_from_total_bid_order_remained(fields, head, date)?;
        let (
            predicted_exec_price_rate_vs_yesterday,
            accumulative_exec_volume,
            total_ask_order_remained_diff,
            total_bid_order_remained_diff,
            total_otc_ask_order_remained_diff,
            total_otc_bid_order_remained_diff,
            stock_deal_class_code,
        ) = Body::read_from_predicted_exec_price_rate_vs_yesterday(fields, head, date)?;
        Ok(
            Body {
                shortcode,
                time,
                time_class_code,
                ask_price,
                bid_price,
                ask_remained,
                bid_remained,
                total_ask_order_remained,
                total_bid_order_remained,
                total_otc_ask_order_remained,
                total_otc_bid_order_remained,
                predicted_exec_price,
                predicted_exec_quantity,
                predicted_volume,
                predicted_vs_exec,
                predicted_vs_exec_sign,
                predicted_exec_price_rate_vs_yesterday,
                accumulative_exec_volume,
                total_ask_order_remained_diff,
                total_bid_order_remained_diff,
                total_otc_ask_order_remained_diff,
                total_otc_bid_order_remained_diff,
                stock_deal_class_code,
            },
        )
    }
}

impl Ordb {
    /// The error that decoding a data frame ends in, if any: a wrong number
    /// of fields, a time or channel code that cannot be read, or the fault of
    /// the body. The frame gives the time of day only; `date` is the business
    /// date that goes before it.
    pub open spec fn data_fault(bytes: Seq<u8>, date: Seq<u8>) -> Option<Error> {
        let f = split(bytes, CARET);
        let h = split(f[0], PIPE);
        if f.len() != FIELDS {
            Some(Error::FieldCount)
        } else if h.len() != HEAD_FIELDS {
            Some(Error::FieldCount)
        } else if time_field(date, f[1]) is Err {
            Some(time_field(date, f[1])->Err_0)
        } else if channel_field(h[1]) is Err {
            Some(channel_field(h[1])->Err_0)
        } else if flagged(h[0]) {
            None
        } else {
            Body::fault(f, h, date)
        }
    }

    /// Whether the message is what the data frame says: the header holds the
    /// channel and the time of the quote, and the body every typed field.
    pub open spec fn data_agrees(self, bytes: Seq<u8>, date: Seq<u8>) -> bool {
        let f = split(bytes, CARET);
        let h = split(f[0], PIPE);
        &&& time_field(date, f[1]) == Ok::<Time, Error>(self.header.datetime)
        &&& channel_field(h[1]) == Ok::<crate::codes::TrId, Error>(self.header.tr_id)
        &&& flagged(h[0]) ==> self.body is None
        &&& !flagged(h[0]) ==> self.body is Some && self.body->Some_0.agrees(f, h, date)
    }

    /// Decodes a data frame that arrived on the business date `date`.
    pub fn parse_data(bytes: &[u8], date: &[u8]) -> (r: Result<Ordb, Error>)
        ensures
            match r {
                Ok(m) => Ordb::data_fault(bytes@, date@) is None && m.data_agrees(bytes@, date@),
                Err(e) => Ordb::data_fault(bytes@, date@) == Some(e),
            },
    {
        let fields = split_fields(bytes, CARET);
        if fields.len() != FIELDS {
            return Err(Error::FieldCount);
        }
        let head = split_fields(fields[0].as_slice(), PIPE);
        if head.len() != HEAD_FIELDS {
            return Err(Error::FieldCount);
        }
        let datetime = field_time(date, fields[1].as_slice())?;
        let tr_id = field_channel(head[1].as_slice())?;
        let body = if is_flagged(head[0].as_slice()) {
            None
        } else {
            Some(Body::read(&fields, &head, date)?)
        };
        Ok(Ordb { header: Header { tr_id, datetime }, body })
    }

    /// What [`Ordb::parse_on`] returns for a frame: for a control frame its
    /// header and no body, or the error of the header; for a data frame what
    /// [`Ordb::parse_data`] returns for its bytes.
    pub open spec fn parses(text: Seq<char>, date: Seq<u8>, r: Result<Ordb, Error>) -> bool {
        match control_of(text) {
            Some(view) => match r {
                Ok(m) => Header::of_control(view) == Ok::<Header, Error>(m.header)
                    && m.body is None,
                Err(e) => Header::of_control(view) == Err::<Header, Error>(e),
            },
            None => match r {
                Ok(m) => Ordb::data_fault(bytes_of(text), date) is None && m.data_agrees(
                    bytes_of(text),
                    date,
                ),
                Err(e) => Ordb::data_fault(bytes_of(text), date) == Some(e),
            },
        }
    }

    /// A data frame that is text never fails for want of valid UTF-8: every
    /// field of a text is a text.
    pub proof fn lemma_text_has_no_utf8_fault(text: Seq<char>, date: Seq<u8>)
        requires
            valid_utf8(date),
        ensures
            Ordb::data_fault(bytes_of(text), date) != Some(Error::Utf8Error),
    {
        let bytes = bytes_of(text);
        encode_utf8_valid_utf8(text);
        lemma_fields_are_text(bytes, CARET);
        let f = split(bytes, CARET);
        if f.len() == FIELDS {
            lemma_fields_are_text(f[0], PIPE);
            let h = split(f[0], PIPE);
            valid_utf8_concat(date, f[1]);
            if h.len() == HEAD_FIELDS {
                Body::lemma_text_has_no_utf8_fault(f, h, date);
            }
        }
    }

    /// Decodes a frame of the order-book channel that arrived on the business
    /// date `date`, given as eight digits.
    pub fn parse_on(s: &str, date: &str) -> (r: Result<Ordb, Error>)
        ensures
            Ordb::parses(s@, bytes_of(date@), r),
            r matches Err(e) ==> e != Error::Utf8Error,
    {
        proof {
            encode_utf8_valid_utf8(date@);
            Ordb::lemma_text_has_no_utf8_fault(s@, bytes_of(date@));
        }
        match ControlFrame::read(s) {
            Some(frame) => {
                let header = Header::from_control(&frame)?;
                Ok(Ordb { header, body: None })
            },
            None => Ordb::parse_data(s.as_bytes(), date.as_bytes()),
        }
    }

    /// Decodes a frame of the order-book channel, with today's date in Seoul
    /// as the business date.
    pub fn parse(s: String) -> (r: Result<Ordb, Error>)
        ensures
            exists|now: Time| now.in_range() && Ordb::parses(s@, now.date_digits(), r),
            r matches Err(e) ==> e != Error::Utf8Error,
    {
        let now = Time::now();
        let today = now.date();
        let r = Ordb::parse_on(s.as_str(), today.as_str());
        assert(now.in_range() && Ordb::parses(s@, now.date_digits(), r));
        r
    }

    pub fn header(&self) -> (r: &Header)
        ensures
            *r == self.header,
    {
        &self.header
    }

    pub fn body(&self) -> (r: &Option<Body>)
        ensures
            *r == self.body,
    {
        &self.body
    }
}

} // verus!
