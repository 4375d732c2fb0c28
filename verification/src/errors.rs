//! Typed rejections.
//!
//! Every failure is a synchronous, typed rejection of the whole call: a
//! failed operation leaves the ledger unchanged, which each operation's
//! contract states explicitly.

use vstd::prelude::*;

verus! {

/// Why an operation rejected a call.
#[derive(Clone, Copy, PartialEq, Eq, Structural, Debug)]
pub enum Error {
    /// `create_order`: the item list is empty.
    NoItems,
    /// `create_order`: the four item arrays differ in length.
    ArrayLengthMismatch,
    /// `create_order`: the subtotal is zero.
    ZeroSubtotal,
    /// `create_order`: the delivery information is empty.
    NoDeliveryInfo,
    /// `create_order`: the attached value is below subtotal plus fee.
    InsufficientPayment,
    /// The caller is not the administrator.
    NotOwner,
    /// `cancel_order`: the caller is not the order's buyer.
    NotBuyer,
    /// The order id is zero or beyond the counter.
    OrderNotFound,
    /// `update_order_status`: the order is already cancelled.
    OrderCancelled,
    /// `cancel_order`: the order's status is not exactly `Paid`.
    CanOnlyCancelPaid,
    /// `cancel_order`: the grace window has elapsed.
    TimeExpired,
    /// `withdraw`: the pooled balance is zero.
    NoFunds,
    /// `transfer_ownership`: the proposed administrator is the null identity.
    InvalidAddress,
}

} // verus!
