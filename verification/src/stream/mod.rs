//! The messages of the three streaming channels and how their frames are
//! decoded.
//!
//! A frame is either a control frame, which is a JSON object, or a data
//! frame in the positional text format: fields separated by `^`, the first
//! of them a compound of sub-fields separated by `|`.

pub mod exec;
pub mod my_exec;
pub mod ordb;

use vstd::prelude::*;
use vstd::utf8::*;
use crate::codes::TrId;
use crate::control::{ControlFrame, ControlView};
use crate::error::Error;
use crate::number::{
    i32_of, i64_of, is_decimal_text, parse_i32, parse_i64, parse_u32, parse_u64, u32_of, u64_of,
    Decimal,
};
use crate::text::{ascii_chars, bytes_of, is_text, to_text};
use crate::text::views;
use crate::time::Time;

verus! {

/// What every message carries: the channel it came on and its time stamp.
#[derive(Clone, Copy, Debug, PartialEq, Eq, Structural)]
pub struct Header {
    pub tr_id: TrId,
    pub datetime: Time,
}

impl Header {
    pub fn tr_id(&self) -> (r: &TrId)
        ensures
            *r == self.tr_id,
    {
        &self.tr_id
    }

    pub fn datetime(&self) -> (r: &Time)
        ensures
            *r == self.datetime,
    {
        &self.datetime
    }

    /// The header of a control frame: its channel and its time stamp. A frame
    /// that lacks either, or names no known channel, is invalid.
    pub open spec fn of_control(view: ControlView) -> Result<Header, Error> {
        match ControlFrame::channel(view) {
            Err(e) => Err(e),
            Ok(tr_id) => match ControlFrame::stamped(view) {
                Err(e) => Err(e),
                Ok(datetime) => Ok(Header { tr_id, datetime }),
            },
        }
    }

    /// Reads the header of a control frame.
    pub fn from_control(frame: &ControlFrame) -> (r: Result<Header, Error>)
        ensures
            r == Header::of_control(frame@),
    {
        let tr_id = frame.tr_id()?;
        let datetime = frame.datetime()?;
        Ok(Header { tr_id, datetime })
    }

    /// Whether the frame that carried this header is a keep-alive.
    pub fn is_keep_alive(&self) -> (r: bool)
        ensures
            r == (self.tr_id == TrId::PingPong),
    {
        self.tr_id == TrId::PingPong
    }
}

/// Whether the flag of a data frame says that its body is encrypted.
pub open spec fn flagged(flag: Seq<u8>) -> bool {
    flag == bytes_of("1"@)
}

/// Reads the encryption flag of a data frame.
pub fn is_flagged(flag: &[u8]) -> (r: bool)
    ensures
        r == flagged(flag@),
{
    is_text(flag, "1")
}

/// The channel that the code in a data frame names.
pub open spec fn channel_field(code: Seq<u8>) -> Result<TrId, Error> {
    match TrId::decoded(code) {
        Some(id) => Ok(id),
        None => Err(Error::InvalidData),
    }
}

/// Reads the channel code of a data frame.
pub fn field_channel(code: &[u8]) -> (r: Result<TrId, Error>)
    ensures
        r == channel_field(code@),
{
    match TrId::from_code(code) {
        Some(id) => Ok(id),
        None => Err(Error::InvalidData),
    }
}

/// The value of a field that is a whole number; a field that is none is an
/// integer error. The same holds of the three that follow.
pub open spec fn u32_field(f: Seq<u8>) -> Result<u32, Error> {
    match u32_of(f) {
        Some(v) => Ok(v),
        None => Err(Error::ParseIntError),
    }
}

pub open spec fn u64_field(f: Seq<u8>) -> Result<u64, Error> {
    match u64_of(f) {
        Some(v) => Ok(v),
        None => Err(Error::ParseIntError),
    }
}

pub open spec fn i32_field(f: Seq<u8>) -> Result<i32, Error> {
    match i32_of(f) {
        Some(v) => Ok(v),
        None => Err(Error::ParseIntError),
    }
}

pub open spec fn i64_field(f: Seq<u8>) -> Result<i64, Error> {
    match i64_of(f) {
        Some(v) => Ok(v),
        None => Err(Error::ParseIntError),
    }
}

/// The value of a field that is a whole number where it can be read as one,
/// and zero where it cannot.
pub open spec fn u32_or_zero(f: Seq<u8>) -> u32 {
    match u32_of(f) {
        Some(v) => v,
        None => 0,
    }
}

pub open spec fn u64_or_zero(f: Seq<u8>) -> u64 {
    match u64_of(f) {
        Some(v) => v,
        None => 0,
    }
}

/// The text of a field that holds a decimal number.
pub open spec fn decimal_field(f: Seq<u8>) -> Result<Seq<char>, Error> {
    if is_decimal_text(f) {
        Ok(ascii_chars(f))
    } else {
        Err(Error::ParseFloatError)
    }
}

/// The text of a field.
pub open spec fn text_field(f: Seq<u8>) -> Result<Seq<char>, Error> {
    if valid_utf8(f) {
        Ok(decode_utf8(f))
    } else {
        Err(Error::Utf8Error)
    }
}

/// The time of day in a field, on the given date.
pub open spec fn time_field(date: Seq<u8>, f: Seq<u8>) -> Result<Time, Error> {
    Time::stamp(date + f)
}

/// The text of a result that holds a string.
pub open spec fn text_in(r: Result<String, Error>) -> Result<Seq<char>, Error> {
    match r {
        Ok(s) => Ok(s@),
        Err(e) => Err(e),
    }
}

/// The text of a result that holds a decimal number.
pub open spec fn decimal_in(r: Result<Decimal, Error>) -> Result<Seq<char>, Error> {
    match r {
        Ok(d) => Ok(d@),
        Err(e) => Err(e),
    }
}

/// Reads a field that is an unsigned number of 32 bits.
pub fn field_u32(f: &[u8]) -> (r: Result<u32, Error>)
    ensures
        r == u32_field(f@),
{
    match parse_u32(f) {
        Some(v) => Ok(v),
        None => Err(Error::ParseIntError),
    }
}

/// Reads a field that is an unsigned number of 64 bits.
pub fn field_u64(f: &[u8]) -> (r: Result<u64, Error>)
    ensures
        r == u64_field(f@),
{
    match parse_u64(f) {
        Some(v) => Ok(v),
        None => Err(Error::ParseIntError),
    }
}

/// Reads a field that is a signed number of 32 bits.
pub fn field_i32(f: &[u8]) -> (r: Result<i32, Error>)
    ensures
        r == i32_field(f@),
{
    match parse_i32(f) {
        Some(v) => Ok(v),
        None => Err(Error::ParseIntError),
    }
}

/// Reads a field that is a signed number of 64 bits.
pub fn field_i64(f: &[u8]) -> (r: Result<i64, Error>)
    ensures
        r == i64_field(f@),
{
    match parse_i64(f) {
        Some(v) => Ok(v),
        None => Err(Error::ParseIntError),
    }
}

/// Reads a field that may hold an unsigned number of 32 bits.
pub fn field_u32_or_zero(f: &[u8]) -> (r: u32)
    ensures
        r == u32_or_zero(f@),
{
    match parse_u32(f) {
        Some(v) => v,
        None => 0,
    }
}

/// Reads a field that may hold an unsigned number of 64 bits.
pub fn field_u64_or_zero(f: &[u8]) -> (r: u64)
    ensures
        r == u64_or_zero(f@),
{
    match parse_u64(f) {
        Some(v) => v,
        None => 0,
    }
}

/// Reads a field that is a decimal number.
pub fn field_decimal(f: &[u8]) -> (r: Result<Decimal, Error>)
    ensures
        decimal_in(r) == decimal_field(f@),
{
    match Decimal::parse(f) {
        Some(d) => Ok(d),
        None => Err(Error::ParseFloatError),
    }
}

/// Reads a field that is a text.
pub fn field_text(f: &[u8]) -> (r: Result<String, Error>)
    ensures
        text_in(r) == text_field(f@),
{
    match to_text(f) {
        Some(s) => Ok(s),
        None => Err(Error::Utf8Error),
    }
}

/// Reads a field that is a time of day, on the given date.
pub fn field_time(date: &[u8], f: &[u8]) -> (r: Result<Time, Error>)
    ensures
        r == time_field(date@, f@),
{
    let mut stamp: Vec<u8> = vstd::slice::slice_to_vec(date);
    let mut rest: Vec<u8> = vstd::slice::slice_to_vec(f);
    stamp.append(&mut rest);
    Time::parse_stamp(stamp.as_slice())
}

/// The midnight digits that make a time stamp of a date.
pub open spec fn midnight() -> Seq<u8> {
    bytes_of("000000"@)
}

/// The date in a field that may hold one, as the midnight that begins it:
/// the field is read as a business date is, with the digits of midnight
/// after it. `None` where that cannot be read as a time stamp.
pub open spec fn date_field(f: Seq<u8>) -> Option<Time> {
    match time_field(f, midnight()) {
        Ok(t) => Some(t),
        Err(_) => None,
    }
}

/// Reads a field that may hold a date.
pub fn field_date(f: &[u8]) -> (r: Option<Time>)
    ensures
        r == date_field(f@),
{
    match field_time(f, "000000".as_bytes()) {
        Ok(t) => Some(t),
        Err(_) => None,
    }
}

/// Whether the ten fields from `from` on are all whole numbers of 32 bits.
pub open spec fn levels_u32(f: Seq<Seq<u8>>, from: int) -> Result<(), Error> {
    if forall|k: int| 0 <= k < 10 ==> u32_of(#[trigger] f[from + k]) is Some {
        Ok(())
    } else {
        Err(Error::ParseIntError)
    }
}

/// Whether the ten fields from `from` on are all whole numbers of 64 bits.
pub open spec fn levels_u64(f: Seq<Seq<u8>>, from: int) -> Result<(), Error> {
    if forall|k: int| 0 <= k < 10 ==> u64_of(#[trigger] f[from + k]) is Some {
        Ok(())
    } else {
        Err(Error::ParseIntError)
    }
}

/// Reads the ten levels of a price ladder, best level first.
pub(crate) fn read_levels_u32(fields: &Vec<Vec<u8>>, from: usize) -> (r: Result<[u32; 10], Error>)
    requires
        from + 10 <= fields@.len(),
    ensures
        match r {
            Ok(levels) => levels_u32(views(fields@), from as int) is Ok && forall|k: int|
                0 <= k < 10 ==> u32_field(#[trigger] views(fields@)[from + k]) == Ok::<u32, Error>(
                    levels[k],
                ),
            Err(e) => levels_u32(views(fields@), from as int) == Err::<(), Error>(e),
        },
{
    let ghost f = views(fields@);
    let mut levels: [u32; 10] = [0u32; 10];
    let mut k: usize = 0;
    while k < 10
        invariant
            0 <= k <= 10,
            from + 10 <= fields.len(),
            f == views(fields@),
            forall|j: int|
                0 <= j < k ==> u32_field(#[trigger] f[from + j]) == Ok::<u32, Error>(levels[j]),
        decreases 10 - k,
    {
        match parse_u32(fields[from + k].as_slice()) {
            Some(v) => {
                levels[k] = v;
            },
            None => {
                assert(u32_of(f[from + k]) is None);
                return Err(Error::ParseIntError);
            },
        }
        k = k + 1;
    }
    assert forall|j: int| 0 <= j < 10 implies u32_of(#[trigger] f[from + j]) is Some by {
        assert(u32_field(f[from + j]) is Ok);
    }
    Ok(levels)
}

/// Reads the ten levels of a quantity ladder, best level first.
pub(crate) fn read_levels_u64(fields: &Vec<Vec<u8>>, from: usize) -> (r: Result<[u64; 10], Error>)
    requires
        from + 10 <= fields@.len(),
    ensures
        match r {
            Ok(levels) => levels_u64(views(fields@), from as int) is Ok && forall|k: int|
                0 <= k < 10 ==> u64_field(#[trigger] views(fields@)[from + k]) == Ok::<u64, Error>(
                    levels[k],
                ),
            Err(e) => levels_u64(views(fields@), from as int) == Err::<(), Error>(e),
        },
{
    let ghost f = views(fields@);
    let mut levels: [u64; 10] = [0u64; 10];
    let mut k: usize = 0;
    while k < 10
        invariant
            0 <= k <= 10,
            from + 10 <= fields.len(),
            f == views(fields@),
            forall|j: int|
                0 <= j < k ==> u64_field(#[trigger] f[from + j]) == Ok::<u64, Error>(levels[j]),
        decreases 10 - k,
    {
        match parse_u64(fields[from + k].as_slice()) {
            Some(v) => {
                levels[k] = v;
            },
            None => {
                assert(u64_of(f[from + k]) is None);
                return Err(Error::ParseIntError);
            },
        }
        k = k + 1;
    }
    assert forall|j: int| 0 <= j < 10 implies u64_of(#[trigger] f[from + j]) is Some by {
        assert(u64_field(f[from + j]) is Ok);
    }
    Ok(levels)
}

} // verus!
