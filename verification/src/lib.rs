//! An escrow-style order-management ledger.
//!
//! A buyer pays an exact total (item subtotal plus a fixed fee) into custody
//! when creating an order; the administrator can progress an order through a
//! status lifecycle; the buyer may cancel for a full refund within a short
//! grace window; the administrator may sweep the pooled funds.
//!
//! The ledger itself is a pure, verified state machine. Everything the
//! surrounding execution environment supplies — the caller's identity, the
//! current time, the value attached to a call, the pooled balance — enters
//! each operation as a plain argument, and everything the ledger asks of the
//! environment — value transfers to perform, audit records to append — comes
//! back as a plain result. The host that embeds the ledger performs those
//! effects and, when a transfer fails, discards the new state so that a
//! failed operation leaves the ledger unchanged.

pub mod address;
pub mod errors;
pub mod laws;
pub mod ledger;
pub mod records;
pub mod status;
