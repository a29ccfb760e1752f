//! The errors of the library and the classes they fall into.

use vstd::prelude::*;
use crate::codes::TrId;

verus! {

/// What can go wrong.
#[derive(Clone, Copy, Debug, PartialEq, Eq, Structural)]
pub enum Error {
    /// The transport failed; the channel it belongs to is lost.
    WebSocket,
    /// An operation was asked for a channel it does not serve.
    WrongTrId(TrId),
    /// A control frame lacks a field, or a field holds no known code.
    InvalidData,
    /// A data frame has too few fields for its layout.
    FieldCount,
    /// A field that should be a whole number is not one, or is out of range.
    ParseIntError,
    /// A field that should be a decimal number is not one.
    ParseFloatError,
    /// A field that should be a point in time is not one.
    ChronoError,
    /// A payload is not valid UTF-8.
    Utf8Error,
    /// A frame that had to be JSON is not.
    JsonError,
    /// A payload is not base64.
    Base64DecodeError,
    /// The key material has a length the cipher cannot take.
    AesInvalidLength,
    /// The cipher refused the payload.
    AesDecryptError,
    /// The server turned the subscription down.
    SubscriptionRejected,
    /// A response holds a code that the protocol does not know.
    BrokenProtocol,
}

/// The classes of error that a caller tells apart.
#[derive(Clone, Copy, Debug, PartialEq, Eq, Structural)]
pub enum ErrorKind {
    /// Transport-level; fatal to the channel.
    Connection,
    /// The wrong channel for the operation.
    ProtocolMismatch,
    /// One frame could not be decoded; the connection stays usable.
    FrameParse,
    /// Bad key material or a payload that does not decrypt.
    Crypto,
    /// The acknowledgement reported failure.
    SubscriptionRejected,
    /// A fault of the request/response surface.
    Request,
}

impl Error {
    /// The class of each error.
    pub open spec fn kind_of(self) -> ErrorKind {
        match self {
            Error::WebSocket => ErrorKind::Connection,
            Error::WrongTrId(_) => ErrorKind::ProtocolMismatch,
            Error::InvalidData
            | Error::FieldCount
            | Error::ParseIntError
            | Error::ParseFloatError
            | Error::ChronoError
            | Error::Utf8Error
            | Error::JsonError
            | Error::Base64DecodeError => ErrorKind::FrameParse,
            Error::AesInvalidLength | Error::AesDecryptError => ErrorKind::Crypto,
            Error::SubscriptionRejected => ErrorKind::SubscriptionRejected,
            Error::BrokenProtocol => ErrorKind::Request,
        }
    }

    /// The class of the error.
    pub fn kind(&self) -> (r: ErrorKind)
        ensures
            r == self.kind_of(),
    {
        match self {
            Error::WebSocket => ErrorKind::Connection,
            Error::WrongTrId(_) => ErrorKind::ProtocolMismatch,
            Error::InvalidData
            | Error::FieldCount
            | Error::ParseIntError
            | Error::ParseFloatError
            | Error::ChronoError
            | Error::Utf8Error
            | Error::JsonError
            | Error::Base64DecodeError => ErrorKind::FrameParse,
            Error::AesInvalidLength | Error::AesDecryptError => ErrorKind::Crypto,
            Error::SubscriptionRejected => ErrorKind::SubscriptionRejected,
            Error::BrokenProtocol => ErrorKind::Request,
        }
    }

    /// Whether the connection can go on after this error.
    pub fn is_recoverable(&self) -> (r: bool)
        ensures
            r == (self.kind_of() == ErrorKind::FrameParse || self.kind_of() == ErrorKind::Crypto),
    {
        match self.kind() {
            ErrorKind::FrameParse | ErrorKind::Crypto => true,
            _ => false,
        }
    }
}

} // verus!
