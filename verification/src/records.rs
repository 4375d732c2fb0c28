//! Audit records and transfer requests.
//!
//! The ledger persists almost nothing: item-level detail exists only in the
//! audit records a successful operation hands back, which the host appends
//! to its log. Likewise the ledger never moves value itself; it returns a
//! `Transfer` describing the movement the host must perform atomically with
//! the state change.

use vstd::prelude::*;
use crate::address::Address;

verus! {

/// A value movement the host must perform: `amount` to `to`.
///
/// If the host cannot perform it, the whole operation that requested it must
/// be rolled back.
#[derive(Clone, Copy, PartialEq, Eq, Structural, Debug)]
pub struct Transfer {
    pub to: Address,
    pub amount: u128,
}

/// Audit record of a successful creation: the only place the item-level and
/// delivery data ever become observable.
#[derive(Clone, Debug)]
pub struct OrderCreatedRecord {
    pub order_id: u64,
    pub buyer: Address,
    pub total: u128,
    pub timestamp: u64,
    pub delivery_info: String,
    pub product_ids: Vec<String>,
    pub product_names: Vec<String>,
    pub prices: Vec<u128>,
    pub quantities: Vec<u128>,
}

/// Audit record of a status change, whether by the administrator or by a
/// buyer's cancellation.
#[derive(Clone, Copy, PartialEq, Eq, Structural, Debug)]
pub struct OrderStatusUpdatedRecord {
    pub order_id: u64,
    pub new_status: u8,
    pub timestamp: u64,
}

/// Audit record of the raw value attached to a successful creation.
#[derive(Clone, Copy, PartialEq, Eq, Structural, Debug)]
pub struct PaymentReceivedRecord {
    pub order_id: u64,
    pub buyer: Address,
    pub amount: u128,
}

/// Audit record of a sweep of the pooled balance.
#[derive(Clone, Copy, PartialEq, Eq, Structural, Debug)]
pub struct FundsWithdrawnRecord {
    pub owner: Address,
    pub amount: u128,
}

/// Everything a successful `create_order` hands back to the host: the new
/// id, the two audit records to append, and the refund of any excess value.
#[derive(Clone, Debug)]
pub struct CreateOutcome {
    pub order_id: u64,
    pub created: OrderCreatedRecord,
    pub payment: PaymentReceivedRecord,
    pub refund: Option<Transfer>,
}

/// Everything a successful `cancel_order` hands back: the full refund to the
/// buyer and the audit record to append.
#[derive(Clone, Copy, PartialEq, Eq, Structural, Debug)]
pub struct CancelOutcome {
    pub refund: Transfer,
    pub record: OrderStatusUpdatedRecord,
}

/// Everything a successful `withdraw` hands back: the sweep of the whole
/// pooled balance to the administrator and the audit record to append.
#[derive(Clone, Copy, PartialEq, Eq, Structural, Debug)]
pub struct WithdrawOutcome {
    pub transfer: Transfer,
    pub record: FundsWithdrawnRecord,
}

} // verus!
