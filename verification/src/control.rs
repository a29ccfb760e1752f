//! Control frames: the JSON messages that the service sends beside the data,
//! such as acknowledgements and keep-alives.

use vstd::prelude::*;
use vstd::utf8::*;
use crate::codes::TrId;
use crate::error::Error;
use crate::number::DOT;
use crate::text::{bytes_of, split, split_fields, to_text, views};
use crate::time::{stamp_format, Time};

verus! {

/// `json::JsonValue`, declared so that it can be carried through verified
/// code. Nothing inside a value is seen here; what it holds is told by
/// [`json_model`].
#[verifier::external_type_specification]
#[verifier::external_body]
pub struct ExJsonValue(json::JsonValue);

/// What a JSON value holds for this library: whether it is an object, the
/// text it displays as, and its members by key. A value that is no object
/// has no members; a string displays as its content, without quotes or
/// escapes.
pub struct Json {
    pub object: bool,
    pub text: Seq<char>,
    pub members: Map<Seq<char>, Json>,
}

/// What a `json::JsonValue` holds.
pub uninterp spec fn json_model(value: json::JsonValue) -> Json;

/// What `json::parse` makes of a text: what the document holds, or `None`
/// where it reports an error.
pub uninterp spec fn json_parsed(text: Seq<char>) -> Option<Json>;

/// The longest text, in bytes, that is tried as JSON. The parser counts the
/// digits of a fraction in sixteen bits, so a longer text may take it out
/// of its range; a control frame is far shorter.
pub const MAX_CONTROL_LEN: usize = 32768;

/// `json::parse`, its error dropped. The parser keeps the exponent of a
/// number in an `i16` and lowers it by one for every digit of the fraction,
/// so `requires` leaves out the texts that are long enough to hold more
/// such digits than that.
#[verifier::external_body]
fn parse_json(text: &str) -> (r: Option<json::JsonValue>)
    requires
        bytes_of(text@).len() <= MAX_CONTROL_LEN,
    ensures
        match r {
            Some(doc) => json_parsed(text@) == Some(json_model(doc)),
            None => json_parsed(text@) is None,
        },
{
    json::parse(text).ok()
}

/// `json::JsonValue::is_object`.
#[verifier::external_body]
fn is_object(value: &json::JsonValue) -> (r: bool)
    ensures
        r == json_model(*value).object,
{
    value.is_object()
}

/// `json::object::Object::get` on the object that `value` is; nothing where
/// `value` is no object.
#[verifier::external_body]
fn member<'a>(value: &'a json::JsonValue, key: &str) -> (r: Option<&'a json::JsonValue>)
    ensures
        r.is_some() == json_model(*value).members.contains_key(key@),
        r matches Some(m) ==> json_model(*m) == json_model(*value).members[key@],
{
    match value {
        json::JsonValue::Object(o) => o.get(key),
        _ => None,
    }
}

/// `to_string` of a `json::JsonValue`.
#[verifier::external_body]
fn display(value: &json::JsonValue) -> (r: String)
    ensures
        r@ == json_model(*value).text,
{
    value.to_string()
}

/// The value that a path of keys leads to from `value`: the member under
/// the first key, then the member of that under the second, and so on.
/// `None` where a key is missing on the way, or a value on the way is no
/// object.
pub open spec fn path_value(value: Json, keys: Seq<Seq<u8>>) -> Option<Json>
    decreases keys.len(),
{
    if keys.len() == 0 {
        Some(value)
    } else if valid_utf8(keys[0]) && value.members.contains_key(decode_utf8(keys[0])) {
        path_value(value.members[decode_utf8(keys[0])], keys.skip(1))
    } else {
        None
    }
}

/// The value under a path written with dots between the keys, as in
/// `header.tr_id`.
pub open spec fn json_inner(value: Json, path: Seq<char>) -> Option<Json> {
    path_value(value, split(bytes_of(path), DOT))
}

/// The value under a path written with dots between the keys. A path that
/// leads nowhere is invalid data.
pub fn get_json_inner<'a>(val: &'a json::JsonValue, key: &str) -> (r: Result<
    &'a json::JsonValue,
    Error,
>)
    ensures
        match r {
            Ok(v) => json_inner(json_model(*val), key@) == Some(json_model(*v)),
            Err(e) => e == Error::InvalidData && json_inner(json_model(*val), key@) is None,
        },
{
    let keys = split_fields(key.as_bytes(), DOT);
    let ghost all = views(keys@);
    let mut current: &json::JsonValue = val;
    let mut i: usize = 0;
    proof {
        assert(all.skip(0) == all);
    }
    while i < keys.len()
        invariant
            0 <= i <= keys.len(),
            all == views(keys@),
            all == split(bytes_of(key@), DOT),
            path_value(json_model(*val), all) == path_value(
                json_model(*current),
                all.skip(i as int),
            ),
        decreases keys.len() - i,
    {
        let ghost rest = all.skip(i as int);
        proof {
            assert(rest.len() > 0);
            assert(rest[0] == keys@[i as int]@);
            assert(rest.skip(1) == all.skip(i + 1));
        }
        let name = match to_text(keys[i].as_slice()) {
            Some(name) => name,
            None => {
                return Err(Error::InvalidData);
            },
        };
        match member(current, name.as_str()) {
            Some(next) => {
                current = next;
            },
            None => {
                return Err(Error::InvalidData);
            },
        }
        i = i + 1;
    }
    proof {
        assert(all.skip(i as int).len() == 0);
    }
    Ok(current)
}

/// The text of the value under a dotted path, if there is one.
pub open spec fn shown(value: Json, path: Seq<char>) -> Option<Seq<char>> {
    match json_inner(value, path) {
        Some(v) => Some(v.text),
        None => None,
    }
}

/// The character of a hexadecimal digit, in lower case.
pub open spec fn hex_digit(n: int) -> char {
    if n < 10 {
        ((0x30 + n) as u8) as char
    } else {
        ((0x57 + n) as u8) as char
    }
}

/// How a character stands in a JSON string literal: the quote and the
/// backslash after a backslash, the five controls that have a short form by
/// it, any other control as `\u00` and two hexadecimal digits, and every
/// other character as itself.
pub open spec fn json_escaped(c: char) -> Seq<char> {
    if c == '"' {
        seq!['\\', '"']
    } else if c == '\\' {
        seq!['\\', '\\']
    } else if c == '\u{8}' {
        seq!['\\', 'b']
    } else if c == '\t' {
        seq!['\\', 't']
    } else if c == '\n' {
        seq!['\\', 'n']
    } else if c == '\u{c}' {
        seq!['\\', 'f']
    } else if c == '\r' {
        seq!['\\', 'r']
    } else if (c as int) < 0x20 {
        seq!['\\', 'u', '0', '0', hex_digit((c as int) / 16), hex_digit((c as int) % 16)]
    } else {
        seq![c]
    }
}

/// A text with every character as it stands in a JSON string literal.
pub open spec fn json_escaped_text(text: Seq<char>) -> Seq<char>
    decreases text.len(),
{
    if text.len() == 0 {
        Seq::<char>::empty()
    } else {
        json_escaped_text(text.drop_last()) + json_escaped(text.last())
    }
}

/// The JSON string literal of a text: the escaped text between quotes.
pub open spec fn json_quoted(text: Seq<char>) -> Seq<char> {
    seq!['"'] + json_escaped_text(text) + seq!['"']
}

/// `serde_json::to_string` of a string slice: the text between quotes, with
/// the quote, the backslash and the controls below `U+0020` escaped. It
/// cannot fail on a string.
#[verifier::external_body]
pub(crate) fn json_quote(text: &str) -> (r: String)
    ensures
        r@ == json_quoted(text@),
{
    serde_json::to_string(text).unwrap_or_default()
}

/// The text of an optional string.
pub open spec fn text_of(s: Option<String>) -> Option<Seq<char>> {
    match s {
        Some(s) => Some(s@),
        None => None,
    }
}

/// What the protocol reads in a control frame. Each field is the text of one
/// member, or `None` where the frame has no such member.
#[derive(Clone, Debug)]
pub struct ControlFrame {
    /// The frame as it came.
    pub raw: String,
    /// `header.tr_id`: the channel the frame speaks of.
    pub tr_id: Option<String>,
    /// `header.datetime`: when the service sent it.
    pub datetime: Option<String>,
    /// `body.msg1`: the message of an acknowledgement.
    pub msg1: Option<String>,
    /// `body.output.iv`: the initialisation vector for personal fills.
    pub iv: Option<String>,
    /// `body.output.key`: the key for personal fills.
    pub key: Option<String>,
}

/// The mathematical content of a [`ControlFrame`].
pub struct ControlView {
    pub raw: Seq<char>,
    pub tr_id: Option<Seq<char>>,
    pub datetime: Option<Seq<char>>,
    pub msg1: Option<Seq<char>>,
    pub iv: Option<Seq<char>>,
    pub key: Option<Seq<char>>,
}

impl View for ControlFrame {
    type V = ControlView;

    open spec fn view(&self) -> ControlView {
        ControlView {
            raw: self.raw@,
            tr_id: text_of(self.tr_id),
            datetime: text_of(self.datetime),
            msg1: text_of(self.msg1),
            iv: text_of(self.iv),
            key: text_of(self.key),
        }
    }
}

/// What a JSON document holds for the protocol; `raw` is its text.
pub open spec fn control_view(raw: Seq<char>, doc: Json) -> ControlView {
    ControlView {
        raw,
        tr_id: shown(doc, "header.tr_id"@),
        datetime: shown(doc, "header.datetime"@),
        msg1: shown(doc, "body.msg1"@),
        iv: shown(doc, "body.output.iv"@),
        key: shown(doc, "body.output.key"@),
    }
}

/// The control frame that a text is: it is one where it has no more than
/// [`MAX_CONTROL_LEN`] bytes and parses as a JSON object, and a data frame
/// otherwise.
pub open spec fn control_of(text: Seq<char>) -> Option<ControlView> {
    if bytes_of(text).len() > MAX_CONTROL_LEN {
        None
    } else {
        match json_parsed(text) {
            Some(doc) => if doc.object {
                Some(control_view(text, doc))
            } else {
                None
            },
            None => None,
        }
    }
}

fn show(value: &json::JsonValue, path: &str) -> (r: Option<String>)
    ensures
        text_of(r) == shown(json_model(*value), path@),
{
    match get_json_inner(value, path) {
        Ok(v) => Some(display(v)),
        Err(_) => None,
    }
}

impl ControlFrame {
    /// Reads a frame as a control frame. Returns `None` for a data frame,
    /// that is for any text that is too long to be tried as JSON or does not
    /// parse as a JSON object.
    pub fn read(text: &str) -> (r: Option<ControlFrame>)
        ensures
            match r {
                Some(frame) => control_of(text@) == Some(frame@),
                None => control_of(text@) is None,
            },
    {
        if text.as_bytes().len() > MAX_CONTROL_LEN {
            return None;
        }
        let doc = match parse_json(text) {
            Some(doc) => doc,
            None => {
                return None;
            },
        };
        if !is_object(&doc) {
            return None;
        }
        Some(
            ControlFrame {
                raw: text.to_owned(),
                tr_id: show(&doc, "header.tr_id"),
                datetime: show(&doc, "header.datetime"),
                msg1: show(&doc, "body.msg1"),
                iv: show(&doc, "body.output.iv"),
                key: show(&doc, "body.output.key"),
            },
        )
    }

    /// Whether the frame is a keep-alive: its channel code is that of the
    /// heartbeat.
    pub open spec fn keep_alive(view: ControlView) -> bool {
        view.tr_id == Some(TrId::PingPong.code_text())
    }

    /// Whether the frame is a keep-alive.
    pub fn is_keep_alive(&self) -> (r: bool)
        ensures
            r == ControlFrame::keep_alive(self@),
    {
        match &self.tr_id {
            Some(code) => crate::text::same_text(code.as_str(), TrId::PingPong.code()),
            None => false,
        }
    }

    /// Whether the frame is an acknowledgement: its body has a message.
    pub open spec fn ack(view: ControlView) -> bool {
        view.msg1 is Some
    }

    /// Whether the frame is an acknowledgement.
    pub fn is_ack(&self) -> (r: bool)
        ensures
            r == ControlFrame::ack(self@),
    {
        self.msg1.is_some()
    }

    /// The channel that the frame names, or the error where it names none
    /// that is known.
    pub open spec fn channel(view: ControlView) -> Result<TrId, Error> {
        match view.tr_id {
            Some(code) => match TrId::decoded(bytes_of(code)) {
                Some(id) => Ok(id),
                None => Err(Error::InvalidData),
            },
            None => Err(Error::InvalidData),
        }
    }

    /// The time stamp of the frame, or the error where it has none that can
    /// be read.
    pub open spec fn stamped(view: ControlView) -> Result<Time, Error> {
        match view.datetime {
            Some(text) => Time::parsed(text, stamp_format()),
            None => Err(Error::InvalidData),
        }
    }

    /// The channel that the frame names.
    pub fn tr_id(&self) -> (r: Result<TrId, Error>)
        ensures
            r == ControlFrame::channel(self@),
    {
        match &self.tr_id {
            Some(code) => match TrId::from_code(code.as_str().as_bytes()) {
                Some(id) => Ok(id),
                None => Err(Error::InvalidData),
            },
            None => Err(Error::InvalidData),
        }
    }

    /// The time stamp of the frame.
    pub fn datetime(&self) -> (r: Result<Time, Error>)
        ensures
            r == ControlFrame::stamped(self@),
    {
        match &self.datetime {
            Some(text) => Time::parse(text.as_str(), "%Y%m%d%H%M%S"),
            None => Err(Error::InvalidData),
        }
    }
}

/// A frame by its kind.
#[derive(Clone, Debug)]
pub enum Frame {
    /// A JSON object: an acknowledgement, a keep-alive or another message of
    /// the service.
    Control(ControlFrame),
    /// Anything else: the positional text of a data frame, to be decoded by
    /// the channel it arrived on.
    Data,
}

impl Frame {
    /// Tells a control frame from a data frame by trying the text as JSON.
    pub fn classify(text: &str) -> (r: Frame)
        ensures
            match r {
                Frame::Control(frame) => control_of(text@) == Some(frame@),
                Frame::Data => control_of(text@) is None,
            },
    {
        match ControlFrame::read(text) {
            Some(frame) => Frame::Control(frame),
            None => Frame::Data,
        }
    }
}

} // verus!
