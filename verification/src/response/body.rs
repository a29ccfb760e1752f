//! The answers on orders.

use vstd::prelude::*;
use crate::response::output;

verus! {

/// The answer to an order, a correction or a cancellation.
#[derive(Clone, Debug)]
pub struct Order {
    /// `0` for success, anything else for failure.
    pub rt_cd: String,
    /// The code of the answer.
    pub msg_cd: String,
    /// The message of the answer.
    pub msg1: String,
    /// The details, where the order was taken.
    pub output: Option<output::Order>,
}

/// The answer to a lookup of the orders that can still be corrected or cancelled.
#[derive(Clone, Debug)]
pub struct InquirePsblRvsecncl {
    /// `0` for success, anything else for failure.
    pub tr_cd: String,
    /// The code of the answer.
    pub msg_cd: String,
    /// The message of the answer.
    pub msg1: String,
    /// The search condition for the next page.
    pub ctx_area_fk100: Option<String>,
    /// The key of the next page.
    pub ctx_area_nk100: Option<String>,
    /// The details.
    pub output: output::InquirePsblRvsecncl,
}

} // verus!
