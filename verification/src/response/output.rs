//! The details of the answers on orders.

use vstd::prelude::*;
use crate::codes::OrderClass;

verus! {

/// Where and when an order was taken.
#[derive(Clone, Debug)]
pub struct Order {
    /// The code of the branch that took the order.
    pub krx_fwdg_ord_orgno: String,
    /// The number of the order.
    pub odno: String,
    /// The time of the order, as `HHMMSS`.
    pub ord_tmd: String,
}

/// An order that can still be corrected or cancelled.
#[derive(Clone, Debug)]
pub struct InquirePsblRvsecncl {
    /// The code of the branch that took the order.
    pub ord_gno_brno: String,
    /// The number of the order.
    pub odno: String,
    /// The number of the order that this one corrects.
    pub orgn_odno: String,
    /// The name of the kind of order.
    pub ord_dvsn_name: String,
    /// The code of the instrument.
    pub pdno: String,
    /// The name of the instrument.
    pub prdt_name: String,
    /// Whether it is a correction or a cancellation.
    pub rvse_cncl_dvsn_name: String,
    /// The ordered quantity.
    pub ord_qty: String,
    /// The price per share.
    pub ord_unpr: String,
    /// The time of the order, as `HHMMSS`.
    pub ord_tmd: String,
    /// The quantity executed so far.
    pub tot_ccld_qty: String,
    /// The amount executed so far.
    pub tot_ccld_amt: String,
    /// The quantity that can still be corrected or cancelled.
    pub psbl_qty: String,
    /// `01` for a sale, `02` for a purchase.
    pub sll_buy_dvsn_cd: String,
    /// The kind of the order.
    pub ord_dvsn_cd: OrderClass,
    /// The order number that the asset manager gave.
    pub mgco_aptm_odno: String,
}

} // verus!
