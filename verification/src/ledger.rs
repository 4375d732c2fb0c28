//! The order ledger: persistent state and every mutating operation.
//!
//! Each operation takes whatever the execution environment would supply —
//! the caller's identity, the value attached to the call, the current time,
//! the pooled balance — as plain arguments, and returns the audit records
//! and value transfers the host must then effect. Every contract is stated
//! over [`LedgerModel`], the mathematical view of the ledger, through
//! explicit check functions (which error a call draws, if any) and
//! next-state functions (what a successful call leaves behind).

use vstd::prelude::*;
use crate::address::Address;
use crate::errors::Error;
use crate::records::CancelOutcome;
use crate::records::CreateOutcome;
use crate::records::FundsWithdrawnRecord;
use crate::records::OrderCreatedRecord;
use crate::records::OrderStatusUpdatedRecord;
use crate::records::PaymentReceivedRecord;
use crate::records::Transfer;
use crate::records::WithdrawOutcome;
use crate::status::STATUS_CANCELLED;
use crate::status::STATUS_PAID;

verus! {

/// Flat fee added to every order's subtotal to form the required total.
pub const FIXED_FEE: u128 = 10000000000000;

/// Length of the buyer's cancellation window, in time units, measured from
/// the order's creation timestamp.
pub const GRACE_WINDOW: u64 = 300;

/// One order's persistent record: the only fields the ledger ever keeps.
/// After creation only `status` is ever written again.
#[derive(Clone, Copy, PartialEq, Eq, Structural, Debug)]
pub struct Order {
    pub buyer: Address,
    pub total: u128,
    pub timestamp: u64,
    pub status: u8,
}

/// The mathematical view of the ledger: the administrator, the id of the
/// most recently created order, and one record per order, where the order
/// with id `i` sits at index `i - 1`.
#[verifier::ext_equal]
pub ghost struct LedgerModel {
    pub admin: Address,
    pub counter: int,
    pub orders: Seq<Order>,
}

impl LedgerModel {
    /// Well-formedness: ids `1..=counter` index exactly the stored records.
    pub open spec fn wf(self) -> bool {
        self.counter == self.orders.len()
    }

    /// Whether `order_id` names an existing order. Id zero is reserved and
    /// always invalid.
    pub open spec fn has_order(self, order_id: u64) -> bool {
        1 <= order_id <= self.counter
    }

    /// The record of order `order_id` (meaningful when `has_order` holds).
    pub open spec fn order(self, order_id: u64) -> Order {
        self.orders[order_id - 1]
    }
}

/// Time elapsed between an order's creation and `now`, clamped at zero if
/// the clock reads earlier than the creation timestamp.
pub open spec fn elapsed_since(created: u64, now: u64) -> int {
    if now > created {
        now - created
    } else {
        0
    }
}

/// What the ledger looks like after `init` by `caller`: untouched if an
/// administrator is already set, otherwise freshly set up under `caller`.
pub open spec fn init_next(pre: LedgerModel, caller: Address) -> LedgerModel {
    if !pre.admin.spec_is_zero() {
        pre
    } else {
        LedgerModel { admin: caller, counter: 0, orders: Seq::empty() }
    }
}

/// The error `create_order` draws, if any, given the attached value, the
/// four item-array lengths, the subtotal and the delivery-text length.
/// The checks apply in this order, each a distinct failure.
pub open spec fn create_check(
    attached: u128,
    n_ids: int,
    n_names: int,
    n_prices: int,
    n_quantities: int,
    subtotal: u128,
    delivery_len: int,
) -> Option<Error> {
    if n_ids == 0 {
        Some(Error::NoItems)
    } else if n_names != n_ids || n_prices != n_ids || n_quantities != n_ids {
        Some(Error::ArrayLengthMismatch)
    } else if subtotal == 0 {
        Some(Error::ZeroSubtotal)
    } else if delivery_len == 0 {
        Some(Error::NoDeliveryInfo)
    } else if (attached as int) < subtotal + FIXED_FEE {
        Some(Error::InsufficientPayment)
    } else {
        None
    }
}

/// What the ledger looks like after a successful creation: the counter
/// advanced by one and a fresh record, already `Paid`, appended under the
/// new id.
pub open spec fn create_next(
    pre: LedgerModel,
    caller: Address,
    now: u64,
    subtotal: u128,
) -> LedgerModel {
    LedgerModel {
        counter: pre.counter + 1,
        orders: pre.orders.push(
            Order {
                buyer: caller,
                total: (subtotal + FIXED_FEE) as u128,
                timestamp: now,
                status: STATUS_PAID,
            },
        ),
        ..pre
    }
}

/// The refund a creation owes: the excess of the attached value over the
/// required total, returned to the caller, or nothing when the payment was
/// exact.
pub open spec fn create_refund(caller: Address, attached: u128, subtotal: u128) -> Option<
    Transfer,
> {
    if attached > subtotal + FIXED_FEE {
        Some(Transfer { to: caller, amount: (attached - subtotal - FIXED_FEE) as u128 })
    } else {
        None
    }
}

/// The error `update_order_status` draws, if any: only the administrator
/// may update, the order must exist, and a cancelled order is a sink.
pub open spec fn update_check(pre: LedgerModel, caller: Address, order_id: u64) -> Option<
    Error,
> {
    if caller != pre.admin {
        Some(Error::NotOwner)
    } else if !pre.has_order(order_id) {
        Some(Error::OrderNotFound)
    } else if pre.order(order_id).status == STATUS_CANCELLED {
        Some(Error::OrderCancelled)
    } else {
        None
    }
}

/// What the ledger looks like after order `order_id`'s status is
/// overwritten with `new_status`: every other field, and every other order,
/// unchanged.
pub open spec fn update_next(pre: LedgerModel, order_id: u64, new_status: u8) -> LedgerModel {
    LedgerModel {
        orders: pre.orders.update(
            order_id - 1,
            Order { status: new_status, ..pre.order(order_id) },
        ),
        ..pre
    }
}

/// The error `cancel_order` draws, if any: the order must exist, only its
/// buyer may cancel, only while the status is exactly `Paid`, and only
/// within the grace window after creation.
pub open spec fn cancel_check(
    pre: LedgerModel,
    caller: Address,
    now: u64,
    order_id: u64,
) -> Option<Error> {
    if !pre.has_order(order_id) {
        Some(Error::OrderNotFound)
    } else if caller != pre.order(order_id).buyer {
        Some(Error::NotBuyer)
    } else if pre.order(order_id).status != STATUS_PAID {
        Some(Error::CanOnlyCancelPaid)
    } else if elapsed_since(pre.order(order_id).timestamp, now) > GRACE_WINDOW {
        Some(Error::TimeExpired)
    } else {
        None
    }
}

/// The error `withdraw` draws, if any: only the administrator may sweep,
/// and only a non-zero pooled balance.
pub open spec fn withdraw_check(pre: LedgerModel, caller: Address, balance: u128) -> Option<
    Error,
> {
    if caller != pre.admin {
        Some(Error::NotOwner)
    } else if balance == 0 {
        Some(Error::NoFunds)
    } else {
        None
    }
}

/// The error `transfer_ownership` draws, if any: only the administrator may
/// reassign, and never to the null identity.
pub open spec fn transfer_ownership_check(
    pre: LedgerModel,
    caller: Address,
    new_owner: Address,
) -> Option<Error> {
    if caller != pre.admin {
        Some(Error::NotOwner)
    } else if new_owner.spec_is_zero() {
        Some(Error::InvalidAddress)
    } else {
        None
    }
}

/// What the ledger looks like after a successful reassignment of the
/// administrator.
pub open spec fn transfer_ownership_next(pre: LedgerModel, new_owner: Address) -> LedgerModel {
    LedgerModel { admin: new_owner, ..pre }
}

/// The order ledger. All persistent state of the system lives here; the
/// contracts speak of it through its view, a [`LedgerModel`].
#[derive(Clone)]
pub struct ChowFastOrder {
    pub admin: Address,
    pub order_counter: u64,
    pub orders: Vec<Order>,
}

impl View for ChowFastOrder {
    type V = LedgerModel;

    open spec fn view(&self) -> LedgerModel {
        LedgerModel {
            admin: self.admin,
            counter: self.order_counter as int,
            orders: self.orders@,
        }
    }
}

impl ChowFastOrder {
    /// A freshly deployed ledger: no administrator, no orders.
    pub fn new() -> (l: ChowFastOrder)
        ensures
            l@.wf(),
            l@.admin.spec_is_zero(),
            l@.counter == 0,
            l@.orders == Seq::<Order>::empty(),
    {
        ChowFastOrder { admin: Address::zero(), order_counter: 0, orders: Vec::new() }
    }

    /// Idempotent setup: the first caller becomes the administrator; once
    /// one is set, the call changes nothing, whoever makes it.
    pub fn init(&mut self, caller: Address)
        requires
            old(self)@.wf(),
        ensures
            final(self)@.wf(),
            final(self)@ == init_next(old(self)@, caller),
    {
        if !self.admin.is_zero() {
            return ;
        }
        self.admin = caller;
        self.order_counter = 0;
        self.orders = Vec::new();
        assert(self@ =~= init_next(old(self)@, caller));
    }

    /// The current administrator; the null identity before initialization.
    pub fn owner(&self) -> (a: Address)
        ensures
            a == self@.admin,
    {
        self.admin
    }

    /// The id of the most recently created order; equally, how many orders
    /// have ever been created.
    pub fn get_total_orders(&self) -> (n: u64)
        ensures
            n == self@.counter,
    {
        self.order_counter
    }

    /// Create an order: validate the items, require an attached value of at
    /// least subtotal plus [`FIXED_FEE`], store a fresh `Paid` record under
    /// the next id, and hand back the audit records together with the
    /// refund of any excess value.
    ///
    /// On any rejection the ledger is unchanged and the result pins down
    /// exactly which check failed, per [`create_check`].
    pub fn create_order(
        &mut self,
        caller: Address,
        attached: u128,
        now: u64,
        item_product_ids: Vec<String>,
        item_product_names: Vec<String>,
        item_prices: Vec<u128>,
        item_quantities: Vec<u128>,
        subtotal: u128,
        delivery_info: String,
    ) -> (result: Result<CreateOutcome, Error>)
        requires
            old(self)@.wf(),
            old(self)@.counter < u64::MAX,
            subtotal + FIXED_FEE <= u128::MAX,
        ensures
            final(self)@.wf(),
            ({
                let check = create_check(
                    attached,
                    item_product_ids@.len() as int,
                    item_product_names@.len() as int,
                    item_prices@.len() as int,
                    item_quantities@.len() as int,
                    subtotal,
                    delivery_info@.len() as int,
                );
                match result {
                    Err(e) => Some(e) == check && final(self)@ == old(self)@,
                    Ok(out) => {
                        &&& check is None
                        &&& final(self)@ == create_next(old(self)@, caller, now, subtotal)
                        &&& out.order_id == old(self)@.counter + 1
                        &&& out.created.order_id == out.order_id
                        &&& out.created.buyer == caller
                        &&& out.created.total == subtotal + FIXED_FEE
                        &&& out.created.timestamp == now
                        &&& out.created.delivery_info@ == delivery_info@
                        &&& out.created.product_ids@ == item_product_ids@
                        &&& out.created.product_names@ == item_product_names@
                        &&& out.created.prices@ == item_prices@
                        &&& out.created.quantities@ == item_quantities@
                        &&& out.payment == (PaymentReceivedRecord {
                            order_id: out.order_id,
                            buyer: caller,
                            amount: attached,
                        })
                        &&& out.refund == create_refund(caller, attached, subtotal)
                    },
                }
            }),
    {
        if item_product_ids.len() == 0 {
            return Err(Error::NoItems);
        }
        if item_product_names.len() != item_product_ids.len() || item_prices.len()
            != item_product_ids.len() || item_quantities.len() != item_product_ids.len() {
            return Err(Error::ArrayLengthMismatch);
        }
        if subtotal == 0 {
            return Err(Error::ZeroSubtotal);
        }
        if delivery_info.as_str().is_empty() {
            return Err(Error::NoDeliveryInfo);
        }
        let total_amount: u128 = subtotal + FIXED_FEE;
        if attached < total_amount {
            return Err(Error::InsufficientPayment);
        }
        let new_order_id: u64 = self.order_counter + 1;
        self.order_counter = new_order_id;
        self.orders.push(
            Order { buyer: caller, total: total_amount, timestamp: now, status: STATUS_PAID },
        );
        assert(self@ =~= create_next(old(self)@, caller, now, subtotal));
        let refund: Option<Transfer> = if attached > total_amount {
            Some(Transfer { to: caller, amount: attached - total_amount })
        } else {
            None
        };
        let payment = PaymentReceivedRecord {
            order_id: new_order_id,
            buyer: caller,
            amount: attached,
        };
        let created = OrderCreatedRecord {
            order_id: new_order_id,
            buyer: caller,
            total: total_amount,
            timestamp: now,
            delivery_info,
            product_ids: item_product_ids,
            product_names: item_product_names,
            prices: item_prices,
            quantities: item_quantities,
        };
        Ok(CreateOutcome { order_id: new_order_id, created, payment, refund })
    }

    /// Overwrite an order's status with `new_status`, verbatim — the
    /// administrator is trusted, so no forward-progress check is made —
    /// except that a cancelled order can never be touched again.
    ///
    /// On any rejection the ledger is unchanged and the result pins down
    /// exactly which check failed, per [`update_check`].
    pub fn update_order_status(
        &mut self,
        caller: Address,
        now: u64,
        order_id: u64,
        new_status: u8,
    ) -> (result: Result<OrderStatusUpdatedRecord, Error>)
        requires
            old(self)@.wf(),
        ensures
            final(self)@.wf(),
            match result {
                Err(e) => Some(e) == update_check(old(self)@, caller, order_id) && final(self)@
                    == old(self)@,
                Ok(rec) => {
                    &&& update_check(old(self)@, caller, order_id) is None
                    &&& final(self)@ == update_next(old(self)@, order_id, new_status)
                    &&& rec == (OrderStatusUpdatedRecord {
                        order_id,
                        new_status,
                        timestamp: now,
                    })
                },
            },
    {
        if caller.value != self.admin.value {
            return Err(Error::NotOwner);
        }
        if order_id == 0 || order_id > self.order_counter {
            return Err(Error::OrderNotFound);
        }
        let n: usize = self.orders.len();
        assert(order_id - 1 < n);
        let idx: usize = (order_id - 1) as usize;
        if self.orders[idx].status == STATUS_CANCELLED {
            return Err(Error::OrderCancelled);
        }
        let order = self.orders[idx];
        self.orders.set(idx, Order { status: new_status, ..order });
        assert(self@ =~= update_next(old(self)@, order_id, new_status));
        Ok(OrderStatusUpdatedRecord { order_id, new_status, timestamp: now })
    }

    /// Cancel a still-`Paid` order: only its buyer, and only within
    /// [`GRACE_WINDOW`] time units of creation. On success the status flips
    /// to `Cancelled` and the host must refund the full stored total to the
    /// buyer — one atomic unit with the state change.
    ///
    /// On any rejection the ledger is unchanged and the result pins down
    /// exactly which check failed, per [`cancel_check`].
    pub fn cancel_order(&mut self, caller: Address, now: u64, order_id: u64) -> (result: Result<
        CancelOutcome,
        Error,
    >)
        requires
            old(self)@.wf(),
        ensures
            final(self)@.wf(),
            match result {
                Err(e) => Some(e) == cancel_check(old(self)@, caller, now, order_id)
                    && final(self)@ == old(self)@,
                Ok(out) => {
                    &&& cancel_check(old(self)@, caller, now, order_id) is None
                    &&& final(self)@ == update_next(old(self)@, order_id, STATUS_CANCELLED)
                    &&& out.refund == (Transfer {
                        to: caller,
                        amount: old(self)@.order(order_id).total,
                    })
                    &&& out.record == (OrderStatusUpdatedRecord {
                        order_id,
                        new_status: STATUS_CANCELLED,
                        timestamp: now,
                    })
                },
            },
    {
        if order_id == 0 || order_id > self.order_counter {
            return Err(Error::OrderNotFound);
        }
        let n: usize = self.orders.len();
        assert(order_id - 1 < n);
        let idx: usize = (order_id - 1) as usize;
        let order = self.orders[idx];
        if caller.value != order.buyer.value {
            return Err(Error::NotBuyer);
        }
        if order.status != STATUS_PAID {
            return Err(Error::CanOnlyCancelPaid);
        }
        let elapsed: u64 = if now > order.timestamp {
            now - order.timestamp
        } else {
            0
        };
        if elapsed > GRACE_WINDOW {
            return Err(Error::TimeExpired);
        }
        self.orders.set(idx, Order { status: STATUS_CANCELLED, ..order });
        assert(self@ =~= update_next(old(self)@, order_id, STATUS_CANCELLED));
        Ok(
            CancelOutcome {
                refund: Transfer { to: caller, amount: order.total },
                record: OrderStatusUpdatedRecord {
                    order_id,
                    new_status: STATUS_CANCELLED,
                    timestamp: now,
                },
            },
        )
    }

    /// Sweep the entire pooled balance — `balance`, as the environment
    /// reports it — to the administrator. The ledger's own state never
    /// changes: the pool is one undifferentiated pot, with no per-order
    /// reservation, so a sweep can even drain funds a still-cancellable
    /// order would need for its refund.
    ///
    /// The result pins down exactly which check failed, per
    /// [`withdraw_check`].
    pub fn withdraw(&mut self, caller: Address, balance: u128) -> (result: Result<
        WithdrawOutcome,
        Error,
    >)
        requires
            old(self)@.wf(),
        ensures
            final(self)@.wf(),
            final(self)@ == old(self)@,
            match result {
                Err(e) => Some(e) == withdraw_check(old(self)@, caller, balance),
                Ok(out) => {
                    &&& withdraw_check(old(self)@, caller, balance) is None
                    &&& out.transfer == (Transfer { to: old(self)@.admin, amount: balance })
                    &&& out.record == (FundsWithdrawnRecord {
                        owner: old(self)@.admin,
                        amount: balance,
                    })
                },
            },
    {
        if caller.value != self.admin.value {
            return Err(Error::NotOwner);
        }
        if balance == 0 {
            return Err(Error::NoFunds);
        }
        Ok(
            WithdrawOutcome {
                transfer: Transfer { to: self.admin, amount: balance },
                record: FundsWithdrawnRecord { owner: self.admin, amount: balance },
            },
        )
    }

    /// Reassign the administrator: only the current administrator, and
    /// never to the null identity.
    ///
    /// The result pins down exactly which check failed, per
    /// [`transfer_ownership_check`].
    pub fn transfer_ownership(&mut self, caller: Address, new_owner: Address) -> (result: Result<
        (),
        Error,
    >)
        requires
            old(self)@.wf(),
        ensures
            final(self)@.wf(),
            match result {
                Err(e) => Some(e) == transfer_ownership_check(old(self)@, caller, new_owner)
                    && final(self)@ == old(self)@,
                Ok(()) => {
                    &&& transfer_ownership_check(old(self)@, caller, new_owner) is None
                    &&& final(self)@ == transfer_ownership_next(old(self)@, new_owner)
                },
            },
    {
        if caller.value != self.admin.value {
            return Err(Error::NotOwner);
        }
        if new_owner.is_zero() {
            return Err(Error::InvalidAddress);
        }
        self.admin = new_owner;
        assert(self@ =~= transfer_ownership_next(old(self)@, new_owner));
        Ok(())
    }
}

} // verus!
