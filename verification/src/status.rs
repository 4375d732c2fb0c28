//! Order lifecycle states and their stored ordinals.

use vstd::prelude::*;

verus! {

/// Ordinal stored for an order that was created but not yet paid.
/// Unreachable in practice: creation lands directly on `Paid`.
pub const STATUS_PENDING: u8 = 0;

/// Ordinal stored for a paid order; the state every order starts in.
pub const STATUS_PAID: u8 = 1;

/// Ordinal stored for an order the administrator has confirmed.
pub const STATUS_CONFIRMED: u8 = 2;

/// Ordinal stored for a completed order.
pub const STATUS_COMPLETED: u8 = 3;

/// Ordinal stored for a cancelled order. A sink: no transition leaves it.
pub const STATUS_CANCELLED: u8 = 4;

/// The named lifecycle states of an order.
///
/// An order's stored status is a raw ordinal, not this enum: the
/// administrator may overwrite it with any byte (the state machine is
/// deliberately permissive towards its trusted operator). The enum names the
/// ordinals that the ledger itself assigns or tests.
#[derive(Clone, Copy, PartialEq, Eq, Structural, Debug)]
pub enum OrderStatus {
    Pending,
    Paid,
    Confirmed,
    Completed,
    Cancelled,
}

impl OrderStatus {
    /// The ordinal this state is stored as.
    pub open spec fn spec_code(self) -> u8 {
        match self {
            OrderStatus::Pending => STATUS_PENDING,
            OrderStatus::Paid => STATUS_PAID,
            OrderStatus::Confirmed => STATUS_CONFIRMED,
            OrderStatus::Completed => STATUS_COMPLETED,
            OrderStatus::Cancelled => STATUS_CANCELLED,
        }
    }

    /// The ordinal this state is stored as.
    pub fn code(&self) -> (c: u8)
        ensures
            c == self.spec_code(),
    {
        match self {
            OrderStatus::Pending => STATUS_PENDING,
            OrderStatus::Paid => STATUS_PAID,
            OrderStatus::Confirmed => STATUS_CONFIRMED,
            OrderStatus::Completed => STATUS_COMPLETED,
            OrderStatus::Cancelled => STATUS_CANCELLED,
        }
    }
}

} // verus!
