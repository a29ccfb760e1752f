//! Points in time on the wall clock of Seoul, where the exchange is.

use chrono::{Datelike, Timelike};
use vstd::prelude::*;
use vstd::utf8::*;
use crate::number::{lemma_padded_ascii, pad_digits, padded, MINUS, PLUS};
use crate::error::Error;
use crate::text::{ascii_text, bytes_of, to_text};

verus! {

/// A point in time, by the fields of the wall clock of Seoul.
#[derive(Clone, Copy, Debug, PartialEq, Eq, Structural)]
pub struct Time {
    pub year: i32,
    pub month: u32,
    pub day: u32,
    pub hour: u32,
    pub minute: u32,
    pub second: u32,
    /// Nanoseconds into the second; a thousand million or more during a leap
    /// second.
    pub nanosecond: u32,
}

/// What `chrono::NaiveDateTime::parse_from_str` makes of a text under a
/// format: the fields of the date and time, or `None` where it reports an
/// error.
pub uninterp spec fn naive_parsed(text: Seq<char>, format: Seq<char>) -> Option<Time>;

/// Whether the wall clock of Seoul showed a date and time exactly once:
/// `false` where it skipped it or showed it twice, and for fields that make
/// no date and time at all.
pub uninterp spec fn seoul_shows_once(naive: Time) -> bool;

/// `chrono::NaiveDateTime::parse_from_str`, its result by its fields and its
/// error dropped.
#[verifier::external_body]
fn parse_naive(text: &str, format: &str) -> (r: Option<Time>)
    ensures
        r == naive_parsed(text@, format@),
{
    match chrono::NaiveDateTime::parse_from_str(text, format) {
        Ok(t) => Some(
            Time {
                year: t.year(),
                month: t.month(),
                day: t.day(),
                hour: t.hour(),
                minute: t.minute(),
                second: t.second(),
                nanosecond: t.nanosecond(),
            },
        ),
        Err(_) => None,
    }
}

/// `chrono::NaiveDateTime::and_local_timezone` with the zone `Asia/Seoul`, on
/// the date and time that `chrono::NaiveDate::from_ymd_opt` and
/// `and_hms_nano_opt` make of the fields: whether the result is single.
#[verifier::external_body]
fn single_in_seoul(naive: &Time) -> (r: bool)
    ensures
        r == seoul_shows_once(*naive),
{
    let date = match chrono::NaiveDate::from_ymd_opt(naive.year, naive.month, naive.day) {
        Some(date) => date,
        None => return false,
    };
    match date.and_hms_nano_opt(naive.hour, naive.minute, naive.second, naive.nanosecond) {
        Some(t) => matches!(
            t.and_local_timezone(chrono_tz::Asia::Seoul),
            chrono::LocalResult::Single(_)
        ),
        None => false,
    }
}

/// The format of the time stamps in frames: four digits of year, then two
/// each of month, day, hour, minute and second.
pub open spec fn stamp_format() -> Seq<char> {
    "%Y%m%d%H%M%S"@
}

/// The sign and digits of a year as a date shows them: four digits for the
/// years 0 to 9999, else a sign and at least four digits.
pub open spec fn year_digits(year: int) -> Seq<u8> {
    if 0 <= year <= 9999 {
        padded(year as nat, 4)
    } else if year < 0 {
        seq![MINUS] + padded((-year) as nat, 4)
    } else {
        seq![PLUS] + padded(year as nat, 4)
    }
}

impl Time {
    /// Whether the fields are in the ranges of a calendar and a clock: a month
    /// from one to twelve, a day from one to thirty-one, an hour below
    /// twenty-four, minute and second below sixty.
    pub open spec fn in_range(self) -> bool {
        &&& 1 <= self.month <= 12
        &&& 1 <= self.day <= 31
        &&& self.hour <= 23
        &&& self.minute <= 59
        &&& self.second <= 59
        &&& self.nanosecond <= 1_999_999_999
    }

    /// The wall clock of Seoul at this moment: `chrono::Utc::now` in the zone
    /// `Asia/Seoul`, by its fields. Nothing is known of the moment but that
    /// its fields are in range.
    #[verifier::external_body]
    pub fn now() -> (r: Time)
        ensures
            r.in_range(),
    {
        let t = chrono::Utc::now().with_timezone(&chrono_tz::Asia::Seoul);
        Time {
            year: t.year(),
            month: t.month(),
            day: t.day(),
            hour: t.hour(),
            minute: t.minute(),
            second: t.second(),
            nanosecond: t.nanosecond(),
        }
    }

    /// What [`Time::parse`] returns: a format error where the text does not
    /// follow the format, invalid data where the wall clock of Seoul never
    /// showed the time or showed it twice.
    pub open spec fn parsed(text: Seq<char>, format: Seq<char>) -> Result<Time, Error> {
        match naive_parsed(text, format) {
            None => Err(Error::ChronoError),
            Some(naive) => Time::resolved(naive, seoul_shows_once(naive)),
        }
    }

    /// Reads a local time of Seoul from `s` under the format `fmt`.
    pub fn parse(s: &str, fmt: &str) -> (r: Result<Time, Error>)
        ensures
            r == Time::parsed(s@, fmt@),
    {
        match parse_naive(s, fmt) {
            None => Err(Error::ChronoError),
            Some(naive) => Time::resolve(naive, single_in_seoul(&naive)),
        }
    }

    /// A date and time as a point in time in Seoul: itself where the wall
    /// clock showed it exactly once, and invalid otherwise.
    pub open spec fn resolved(naive: Time, once: bool) -> Result<Time, Error> {
        if once {
            Ok(naive)
        } else {
            Err(Error::InvalidData)
        }
    }

    /// Places a date and time on the wall clock of Seoul, given whether that
    /// clock showed it exactly once.
    pub fn resolve(naive: Time, once: bool) -> (r: Result<Time, Error>)
        ensures
            r == Time::resolved(naive, once),
    {
        if once {
            Ok(naive)
        } else {
            Err(Error::InvalidData)
        }
    }

    /// What [`Time::parse_stamp`] returns for the bytes of a time stamp.
    pub open spec fn stamp(bytes: Seq<u8>) -> Result<Time, Error> {
        if valid_utf8(bytes) {
            Time::parsed(decode_utf8(bytes), stamp_format())
        } else {
            Err(Error::Utf8Error)
        }
    }

    /// Reads a time stamp of fourteen digits from a field of a frame.
    pub fn parse_stamp(bytes: &[u8]) -> (r: Result<Time, Error>)
        ensures
            r == Time::stamp(bytes@),
    {
        match to_text(bytes) {
            None => Err(Error::Utf8Error),
            Some(text) => Time::parse(text.as_str(), "%Y%m%d%H%M%S"),
        }
    }

    /// The bytes of [`Time::date`].
    pub open spec fn date_digits(self) -> Seq<u8> {
        year_digits(self.year as int) + padded(self.month as nat, 2) + padded(self.day as nat, 2)
    }

    /// The date as year, month and day in digits, as in `20240131`.
    pub fn date(&self) -> (r: String)
        ensures
            bytes_of(r@) == self.date_digits(),
    {
        let mut out: Vec<u8> = Vec::new();
        let year: i64 = self.year as i64;
        if 0 <= year && year <= 9999 {
            let mut digits = pad_digits(year as u64, 4);
            out.append(&mut digits);
        } else if year < 0 {
            out.push(MINUS);
            let mut digits = pad_digits((0 - year) as u64, 4);
            out.append(&mut digits);
            assert(out@ == year_digits(self.year as int));
        } else {
            out.push(PLUS);
            let mut digits = pad_digits(year as u64, 4);
            out.append(&mut digits);
            assert(out@ == year_digits(self.year as int));
        }
        let mut month = pad_digits(self.month as u64, 2);
        out.append(&mut month);
        let mut day = pad_digits(self.day as u64, 2);
        out.append(&mut day);
        proof {
            lemma_padded_ascii(self.year as nat, 4);
            lemma_padded_ascii((-self.year) as nat, 4);
            lemma_padded_ascii(self.month as nat, 2);
            lemma_padded_ascii(self.day as nat, 2);
            assert(out@ == self.date_digits());
        }
        ascii_text(out.as_slice())
    }
}

} // verus!
