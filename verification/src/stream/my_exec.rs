//! The personal-fill channel: notices of the customer's own orders, as a
//! base64 payload that is encrypted where the frame says so.

use vstd::prelude::*;
use crate::codes::{bool_of, parse_bool_field, CorrectionClass, Direction, OrderClass};
use crate::control::{control_of, ControlFrame};
use crate::crypto::{open_payload, payload_opened};
use crate::error::Error;
use crate::stream::{
    channel_field, date_field, field_channel, field_date, field_text, field_time, field_u32,
    field_u64, field_u64_or_zero, flagged, is_flagged, text_field, time_field, u32_field,
    u64_field, u64_or_zero, Header,
};
use crate::text::{bytes_of, split, split_fields, views, CARET, PIPE};
use crate::time::Time;
use vstd::utf8::*;

verus! {

/// The number of fields in the plaintext of a payload.
pub const FIELDS: usize = 22;

/// The number of parts of a data frame: the encryption flag, the channel
/// code, the item count and the payload.
pub const PARTS: usize = 4;

/// A message of the personal-fill channel. A control frame has no body.
#[derive(Clone, Debug)]
pub struct MyExec {
    pub header: Header,
    pub body: Option<Body>,
}

/// The values of a fill notice, in the order of the plaintext.
#[derive(Clone, Debug)]
pub struct Body {
    /// The customer id.
    pub cust_id: String,
    /// The account number.
    pub acnt_no: String,
    /// The number of the order.
    pub order_no: u64,
    /// The number of the order that this one corrects; zero where there is none.
    pub origin_order_no: u64,
    /// The side of the order.
    pub ask_bid_class: Direction,
    /// Whether the notice is a correction or a cancellation.
    pub correction_class: CorrectionClass,
    /// The kind of the order.
    pub order_kind: OrderClass,
    /// The condition of the order.
    pub order_condition: String,
    /// The short code of the instrument.
    pub shortcode: String,
    /// The executed quantity.
    pub exec_qty: u64,
    /// The executed price.
    pub exec_price: u32,
    /// When the order was executed.
    pub exec_time: Time,
    /// Whether the order was refused.
    pub is_refused: bool,
    /// Whether the order was executed.
    pub is_executed: bool,
    /// Whether the order was accepted.
    pub is_accepted: bool,
    /// The number of the branch.
    pub branch_no: String,
    /// The ordered quantity.
    pub order_qty: u64,
    /// The name of the account.
    pub account_name: String,
    /// The name of the instrument.
    pub stock_name: String,
    /// The credit class.
    pub credit_class: String,
    /// The date of the credit loan, at midnight, where the field holds a date.
    pub credit_loan_date: Option<Time>,
    /// The name of the instrument, in forty characters.
    pub stock_name_40: String,
}

impl Body {
    /// Whether the fields from
    /// `cust_id` to
    /// `order_condition`
    /// hold the typed values of the fields of the frame that they are read
    /// from.
    pub open spec fn agrees_from_cust_id(self, f: Seq<Seq<u8>>, date: Seq<u8>) -> bool {
        &&& text_field(f[0]) == Ok::<Seq<char>, Error>(self.cust_id@)
        &&& text_field(f[1]) == Ok::<Seq<char>, Error>(self.acnt_no@)
        &&& u64_field(f[2]) == Ok::<u64, Error>(self.order_no)
        &&& self.origin_order_no == u64_or_zero(f[3])
        &&& Direction::of_field(f[4]) == Ok::<Direction, Error>(self.ask_bid_class)
        &&& CorrectionClass::of_field(f[5]) == Ok::<CorrectionClass, Error>(self.correction_class)
        &&& OrderClass::of_field(f[6]) == Ok::<OrderClass, Error>(self.order_kind)
        &&& text_field(f[7]) == Ok::<Seq<char>, Error>(self.order_condition@)
    }

    /// Whether the fields from
    /// `shortcode` to
    /// `branch_no`
    /// hold the typed values of the fields of the frame that they are read
    /// from.
    pub open spec fn agrees_from_shortcode(self, f: Seq<Seq<u8>>, date: Seq<u8>) -> bool {
        &&& text_field(f[8]) == Ok::<Seq<char>, Error>(self.shortcode@)
        &&& u64_field(f[9]) == Ok::<u64, Error>(self.exec_qty)
        &&& u32_field(f[10]) == Ok::<u32, Error>(self.exec_price)
        &&& time_field(date, f[11]) == Ok::<Time, Error>(self.exec_time)
        &&& self.is_refused == bool_of(f[12])
        &&& self.is_executed == bool_of(f[13])
        &&& self.is_accepted == bool_of(f[14])
        &&& text_field(f[15]) == Ok::<Seq<char>, Error>(self.branch_no@)
    }

    /// Whether the fields from
    /// `order_qty` to
    /// `stock_name_40`
    /// hold the typed values of the fields of the frame that they are read
    /// from.
    pub open spec fn agrees_from_order_qty(self, f: Seq<Seq<u8>>, date: Seq<u8>) -> bool {
        &&& u64_field(f[16]) == Ok::<u64, Error>(self.order_qty)
        &&& text_field(f[17]) == Ok::<Seq<char>, Error>(self.account_name@)
        &&& text_field(f[18]) == Ok::<Seq<char>, Error>(self.stock_name@)
        &&& text_field(f[19]) == Ok::<Seq<char>, Error>(self.credit_class@)
        &&& self.credit_loan_date == date_field(f[20])
        &&& text_field(f[21]) == Ok::<Seq<char>, Error>(self.stock_name_40@)
    }

    /// Whether every field of the body holds the typed value of the field of
    /// the frame that it is read from.
    pub open spec fn agrees(self, f: Seq<Seq<u8>>, date: Seq<u8>) -> bool {
        &&& self.agrees_from_cust_id(f, date)
        &&& self.agrees_from_shortcode(f, date)
        &&& self.agrees_from_order_qty(f, date)
    }

    /// The error of the first field, in the order of the layout, from
    /// `cust_id` to
    /// `order_condition`
    /// that does not hold a value of its type.
    pub open spec fn fault_from_cust_id(f: Seq<Seq<u8>>, date: Seq<u8>) -> Option<Error> {
        if text_field(f[0]) is Err {
            Some(text_field(f[0])->Err_0)
        } else if text_field(f[1]) is Err {
            Some(text_field(f[1])->Err_0)
        } else if u64_field(f[2]) is Err {
            Some(u64_field(f[2])->Err_0)
        } else if Direction::of_field(f[4]) is Err {
            Some(Direction::of_field(f[4])->Err_0)
        } else if CorrectionClass::of_field(f[5]) is Err {
            Some(CorrectionClass::of_field(f[5])->Err_0)
        } else if OrderClass::of_field(f[6]) is Err {
            Some(OrderClass::of_field(f[6])->Err_0)
        } else if text_field(f[7]) is Err {
            Some(text_field(f[7])->Err_0)
        } else {
            None
        }
    }

    /// The error of the first field, in the order of the layout, from
    /// `shortcode` to
    /// `branch_no`
    /// that does not hold a value of its type.
    pub open spec fn fault_from_shortcode(f: Seq<Seq<u8>>, date: Seq<u8>) -> Option<Error> {
        if text_field(f[8]) is Err {
            Some(text_field(f[8])->Err_0)
        } else if u64_field(f[9]) is Err {
            Some(u64_field(f[9])->Err_0)
        } else if u32_field(f[10]) is Err {
            Some(u32_field(f[10])->Err_0)
        } else if time_field(date, f[11]) is Err {
            Some(time_field(date, f[11])->Err_0)
        } else if text_field(f[15]) is Err {
            Some(text_field(f[15])->Err_0)
        } else {
            None
        }
    }

    /// The error of the first field, in the order of the layout, from
    /// `order_qty` to
    /// `stock_name_40`
    /// that does not hold a value of its type.
    pub open spec fn fault_from_order_qty(f: Seq<Seq<u8>>, date: Seq<u8>) -> Option<Error> {
        if u64_field(f[16]) is Err {
            Some(u64_field(f[16])->Err_0)
        } else if text_field(f[17]) is Err {
            Some(text_field(f[17])->Err_0)
        } else if text_field(f[18]) is Err {
            Some(text_field(f[18])->Err_0)
        } else if text_field(f[19]) is Err {
            Some(text_field(f[19])->Err_0)
        } else if text_field(f[21]) is Err {
            Some(text_field(f[21])->Err_0)
        } else {
            None
        }
    }

    /// The error of the first field, in the order of the layout, that does not
    /// hold a value of its type; `None` where every field does.
    pub open spec fn fault(f: Seq<Seq<u8>>, date: Seq<u8>) -> Option<Error> {
        if Body::fault_from_cust_id(f, date) is Some {
            Body::fault_from_cust_id(f, date)
        } else if Body::fault_from_shortcode(f, date) is Some {
            Body::fault_from_shortcode(f, date)
        } else if Body::fault_from_order_qty(f, date) is Some {
            Body::fault_from_order_qty(f, date)
        } else {
            None
        }
    }

    /// Reads the fields from
    /// `cust_id` to
    /// `order_condition`.
    fn read_from_cust_id(fields: &Vec<Vec<u8>>, date: &[u8]) -> (r: Result<
        (
            String,
            String,
            u64,
            u64,
            Direction,
            CorrectionClass,
            OrderClass,
            String,
        ),
        Error,
    >)
        requires
            fields@.len() == FIELDS,
        ensures
            match r {
                Ok(v) => {
                    &&& Body::fault_from_cust_id(
                        views(fields@),
                        date@,
                    ) is None
                    &&& text_field(views(fields@)[0]) == Ok::<Seq<char>, Error>(v.0@)
                    &&& text_field(views(fields@)[1]) == Ok::<Seq<char>, Error>(v.1@)
                    &&& u64_field(views(fields@)[2]) == Ok::<u64, Error>(v.2)
                    &&& v.3 == u64_or_zero(views(fields@)[3])
                    &&& Direction::of_field(views(fields@)[4]) == Ok::<Direction, Error>(v.4)
                    &&& CorrectionClass::of_field(views(fields@)[5])
                        == Ok::<CorrectionClass, Error>(v.5)
                    &&& OrderClass::of_field(views(fields@)[6]) == Ok::<OrderClass, Error>(v.6)
                    &&& text_field(views(fields@)[7]) == Ok::<Seq<char>, Error>(v.7@)
                },
                Err(e) => Body::fault_from_cust_id(
                    views(fields@),
                    date@,
                ) == Some(e),
            },
    {
        let cust_id = field_text(fields[0].as_slice())?;
        let acnt_no = field_text(fields[1].as_slice())?;
        let order_no = field_u64(fields[2].as_slice())?;
        let origin_order_no = field_u64_or_zero(fields[3].as_slice());
        let ask_bid_class = Direction::read_field(fields[4].as_slice())?;
        let correction_class = CorrectionClass::read_field(fields[5].as_slice())?;
        let order_kind = OrderClass::read_field(fields[6].as_slice())?;
        let order_condition = field_text(fields[7].as_slice())?;
        Ok(
            (
                cust_id,
                acnt_no,
                order_no,
                origin_order_no,
                ask_bid_class,
                correction_class,
                order_kind,
                order_condition,
            ),
        )
    }

    proof fn lemma_text_from_cust_id(
        f: Seq<Seq<u8>>,
        date: Seq<u8>,
    )
        requires
            f.len() == FIELDS,
            forall|i: int| 0 <= i < f.len() ==> valid_utf8(#[trigger] f[i]),
            valid_utf8(date),
        ensures
            Body::fault_from_cust_id(
                f,
                date,
            ) != Some(Error::Utf8Error),
    {
    }

    /// Reads the fields from
    /// `shortcode` to
    /// `branch_no`.
    fn read_from_shortcode(fields: &Vec<Vec<u8>>, date: &[u8]) -> (r: Result<
        (
            String,
            u64,
            u32,
            Time,
            bool,
            bool,
            bool,
            String,
        ),
        Error,
    >)
        requires
            fields@.len() == FIELDS,
        ensures
            match r {
                Ok(v) => {
                    &&& Body::fault_from_shortcode(
                        views(fields@),
                        date@,
                    ) is None
                    &&& text_field(views(fields@)[8]) == Ok::<Seq<char>, Error>(v.0@)
                    &&& u64_field(views(fields@)[9]) == Ok::<u64, Error>(v.1)
                    &&& u32_field(views(fields@)[10]) == Ok::<u32, Error>(v.2)
                    &&& time_field(date@, views(fields@)[11]) == Ok::<Time, Error>(v.3)
                    &&& v.4 == bool_of(views(fields@)[12])
                    &&& v.5 == bool_of(views(fields@)[13])
                    &&& v.6 == bool_of(views(fields@)[14])
                    &&& text_field(views(fields@)[15]) == Ok::<Seq<char>, Error>(v.7@)
                },
                Err(e) => Body::fault_from_shortcode(
                    views(fields@),
                    date@,
                ) == Some(e),
            },
    {
        let shortcode = field_text(fields[8].as_slice())?;
        let exec_qty = field_u64(fields[9].as_slice())?;
        let exec_price = field_u32(fields[10].as_slice())?;
        let exec_time = field_time(date, fields[11].as_slice())?;
        let is_refused = parse_bool_field(fields[12].as_slice());
        let is_executed = parse_bool_field(fields[13].as_slice());
        let is_accepted = parse_bool_field(fields[14].as_slice());
        let branch_no = field_text(fields[15].as_slice())?;
        Ok(
            (
                shortcode,
                exec_qty,
                exec_price,
                exec_time,
                is_refused,
                is_executed,
                is_accepted,
                branch_no,
            ),
        )
    }

    proof fn lemma_text_from_shortcode(
        f: Seq<Seq<u8>>,
        date: Seq<u8>,
    )
        requires
            f.len() == FIELDS,
            forall|i: int| 0 <= i < f.len() ==> valid_utf8(#[trigger] f[i]),
            valid_utf8(date),
        ensures
            Body::fault_from_shortcode(
                f,
                date,
            ) != Some(Error::Utf8Error),
    {
        valid_utf8_concat(date, f[11]);
    }

    /// Reads the fields from
    /// `order_qty` to
    /// `stock_name_40`.
    fn read_from_order_qty(fields: &Vec<Vec<u8>>, date: &[u8]) -> (r: Result<
        (
            u64,
            String,
            String,
            String,
            Option<Time>,
            String,
        ),
        Error,
    >)
        requires
            fields@.len() == FIELDS,
        ensures
            match r {
                Ok(v) => {
                    &&& Body::fault_from_order_qty(
                        views(fields@),
                        date@,
                    ) is None
                    &&& u64_field(views(fields@)[16]) == Ok::<u64, Error>(v.0)
                    &&& text_field(views(fields@)[17]) == Ok::<Seq<char>, Error>(v.1@)
                    &&& text_field(views(fields@)[18]) == Ok::<Seq<char>, Error>(v.2@)
                    &&& text_field(views(fields@)[19]) == Ok::<Seq<char>, Error>(v.3@)
                    &&& v.4 == date_field(views(fields@)[20])
                    &&& text_field(views(fields@)[21]) == Ok::<Seq<char>, Error>(v.5@)
                },
                Err(e) => Body::fault_from_order_qty(
                    views(fields@),
                    date@,
                ) == Some(e),
            },
    {
        let order_qty = field_u64(fields[16].as_slice())?;
        let account_name = field_text(fields[17].as_slice())?;
        let stock_name = field_text(fields[18].as_slice())?;
        let credit_class = field_text(fields[19].as_slice())?;
        let credit_loan_date = field_date(fields[20].as_slice());
        let stock_name_40 = field_text(fields[21].as_slice())?;
        Ok(
            (
                order_qty,
                account_name,
                stock_name,
                credit_class,
                credit_loan_date,
                stock_name_40,
            ),
        )
    }

    proof fn lemma_text_from_order_qty(
        f: Seq<Seq<u8>>,
        date: Seq<u8>,
    )
        requires
            f.len() == FIELDS,
            forall|i: int| 0 <= i < f.len() ==> valid_utf8(#[trigger] f[i]),
            valid_utf8(date),
        ensures
            Body::fault_from_order_qty(
                f,
                date,
            ) != Some(Error::Utf8Error),
    {
    }

    /// A body that is read from fields that are texts never fails for want
    /// of valid UTF-8.
    pub proof fn lemma_text_has_no_utf8_fault(f: Seq<Seq<u8>>, date: Seq<u8>)
        requires
            f.len() == FIELDS,
            forall|i: int| 0 <= i < f.len() ==> valid_utf8(#[trigger] f[i]),
            valid_utf8(date),
        ensures
            Body::fault(f, date) != Some(Error::Utf8Error),
    {
        Body::lemma_text_from_cust_id(f, date);
        Body::lemma_text_from_shortcode(f, date);
        Body::lemma_text_from_order_qty(f, date);
    }

    /// Reads the body from the fields of a data frame.
    pub(crate) fn read(fields: &Vec<Vec<u8>>, date: &[u8]) -> (r: Result<Body, Error>)
        requires
            fields@.len() == FIELDS,
        ensures
            match r {
                Ok(body) => Body::fault(views(fields@), date@) is None && body.agrees(
                    views(fields@),
                    date@,
                ),
                Err(e) => Body::fault(views(fields@), date@) == Some(e),
            },
    {
        let (
            cust_id,
            acnt_no,
            order_no,
            origin_order_no,
            ask_bid_class,
            correction_class,
            order_kind,
            order_condition,
        ) = Body::read_from_cust_id(fields, date)?;
        let (
            shortcode,
            exec_qty,
            exec_price,
            exec_time,
            is_refused,
            is_executed,
            is_accepted,
            branch_no,
        ) = Body::read_from_shortcode(fields, date)?;
        let (
            order_qty,
            account_name,
            stock_name,
            credit_class,
            credit_loan_date,
            stock_name_40,
        ) = Body::read_from_order_qty(fields, date)?;
        Ok(
            Body {
                cust_id,
                acnt_no,
                order_no,
                origin_order_no,
                ask_bid_class,
                correction_class,
                order_kind,
                order_condition,
                shortcode,
                exec_qty,
                exec_price,
                exec_time,
                is_refused,
                is_executed,
                is_accepted,
                branch_no,
                order_qty,
                account_name,
                stock_name,
                credit_class,
                credit_loan_date,
                stock_name_40,
            },
        )
    }
}

impl MyExec {
    /// The error that decoding a plaintext ends in, if any: a wrong number of
    /// fields, a time or channel code that cannot be read, or the fault of
    /// the body. `code` is the channel code of the frame and `date` the
    /// business date that goes before the time of day.
    pub open spec fn plain_fault(code: Seq<u8>, plain: Seq<u8>, date: Seq<u8>) -> Option<Error> {
        let f = split(plain, CARET);
        if f.len() != FIELDS {
            Some(Error::FieldCount)
        } else if time_field(date, f[11]) is Err {
            Some(time_field(date, f[11])->Err_0)
        } else if channel_field(code) is Err {
            Some(channel_field(code)->Err_0)
        } else {
            Body::fault(f, date)
        }
    }

    /// Whether the message is what the plaintext says: the header holds the
    /// channel and the time of the execution, and the body every typed field.
    pub open spec fn plain_agrees(self, code: Seq<u8>, plain: Seq<u8>, date: Seq<u8>) -> bool {
        let f = split(plain, CARET);
        &&& time_field(date, f[11]) == Ok::<Time, Error>(self.header.datetime)
        &&& channel_field(code) == Ok::<crate::codes::TrId, Error>(self.header.tr_id)
        &&& self.body is Some
        &&& self.body->Some_0.agrees(f, date)
    }

    /// Decodes the plaintext of a payload.
    pub fn from_plain(code: &[u8], plain: &[u8], date: &[u8]) -> (r: Result<MyExec, Error>)
        ensures
            match r {
                Ok(m) => MyExec::plain_fault(code@, plain@, date@) is None && m.plain_agrees(
                    code@,
                    plain@,
                    date@,
                ),
                Err(e) => MyExec::plain_fault(code@, plain@, date@) == Some(e),
            },
    {
        let fields = split_fields(plain, CARET);
        if fields.len() != FIELDS {
            return Err(Error::FieldCount);
        }
        let datetime = field_time(date, fields[11].as_slice())?;
        let tr_id = field_channel(code)?;
        let body = Body::read(&fields, date)?;
        Ok(MyExec { header: Header { tr_id, datetime }, body: Some(body) })
    }

    /// What decoding a data frame ends in: `Err` with the error, or `Ok` with
    /// the plaintext that the body is read from. A frame that has not four
    /// parts has the wrong number of fields, and a payload that is not base64
    /// is a base64 error: both are faults of the frame. Key material of the
    /// wrong length is a length error of the cipher, and an encrypted payload
    /// that is not made of whole blocks a decryption error.
    pub open spec fn opened(bytes: Seq<u8>, iv: Seq<u8>, key: Seq<u8>) -> Result<Seq<u8>, Error> {
        let c = split(bytes, PIPE);
        if c.len() != PARTS {
            Err(Error::FieldCount)
        } else {
            payload_opened(flagged(c[0]), key, iv, c[3])
        }
    }

    /// What [`MyExec::parse_on`] returns for a frame: for a control frame its
    /// header and no body, or the error of the header; for a data frame the
    /// error of opening its payload, or what [`MyExec::from_plain`] returns
    /// for the plaintext.
    pub open spec fn parses(
        text: Seq<char>,
        iv: Seq<u8>,
        key: Seq<u8>,
        date: Seq<u8>,
        r: Result<MyExec, Error>,
    ) -> bool {
        let code = split(bytes_of(text), PIPE)[1];
        match control_of(text) {
            Some(view) => match r {
                Ok(m) => Header::of_control(view) == Ok::<Header, Error>(m.header)
                    && m.body is None,
                Err(e) => Header::of_control(view) == Err::<Header, Error>(e),
            },
            None => match MyExec::opened(bytes_of(text), iv, key) {
                Err(fault) => r == Err::<MyExec, Error>(fault),
                Ok(plain) => match r {
                    Ok(m) => MyExec::plain_fault(code, plain, date) is None && m.plain_agrees(
                        code,
                        plain,
                        date,
                    ),
                    Err(e) => MyExec::plain_fault(code, plain, date) == Some(e),
                },
            },
        }
    }

    /// Decodes a frame of the personal-fill channel that arrived on the
    /// business date `date`, given as eight digits. `iv` and `key` are those
    /// of the acknowledgement of the subscription; their bytes are the key
    /// material as they stand.
    pub fn parse_on(s: &str, iv: &str, key: &str, date: &str) -> (r: Result<MyExec, Error>)
        ensures
            MyExec::parses(s@, bytes_of(iv@), bytes_of(key@), bytes_of(date@), r),
    {
        match ControlFrame::read(s) {
            Some(frame) => {
                let header = Header::from_control(&frame)?;
                Ok(MyExec { header, body: None })
            },
            None => {
                let parts = split_fields(s.as_bytes(), PIPE);
                if parts.len() != PARTS {
                    return Err(Error::FieldCount);
                }
                let encrypted = is_flagged(parts[0].as_slice());
                let opened = open_payload(
                    encrypted,
                    key.as_bytes(),
                    iv.as_bytes(),
                    parts[3].as_slice(),
                );
                match opened {
                    Err(e) => Err(e),
                    Ok(plain) => MyExec::from_plain(
                        parts[1].as_slice(),
                        plain.as_slice(),
                        date.as_bytes(),
                    ),
                }
            },
        }
    }

    /// Decodes a frame of the personal-fill channel, with today's date in
    /// Seoul as the business date.
    pub fn parse(s: String, iv: String, key: String) -> (r: Result<MyExec, Error>)
        ensures
            exists|now: Time|
                now.in_range() && MyExec::parses(
                    s@,
                    bytes_of(iv@),
                    bytes_of(key@),
                    now.date_digits(),
                    r,
                ),
    {
        let now = Time::now();
        let today = now.date();
        let r = MyExec::parse_on(s.as_str(), iv.as_str(), key.as_str(), today.as_str());
        assert(now.in_range() && MyExec::parses(
            s@,
            bytes_of(iv@),
            bytes_of(key@),
            now.date_digits(),
            r,
        ));
        r
    }

    pub fn header(&self) -> (r: &Header)
        ensures
            *r == self.header,
    {
        &self.header
    }

    pub fn body(&self) -> (r: &Option<Body>)
        ensures
            *r == self.body,
    {
        &self.body
    }
}

} // verus!
