//! Client-side protocol logic for a brokerage's real-time streaming service:
//! the text wire format of market-data and execution frames, the
//! subscribe/acknowledge handshake, keep-alive handling and the per-channel
//! dispatch rules, together with the request and response types of the REST
//! surface.

pub mod codes;
pub mod config;
pub mod control;
pub mod crypto;
pub mod dispatch;
pub mod error;
pub mod futureoption;
pub mod market;
pub mod number;
pub mod parameter;
pub mod request;
pub mod response;
pub mod stream;
pub mod subscribe;
pub mod text;
pub mod time;
