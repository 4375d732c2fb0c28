//! The laws of the ledger, each stated over [`LedgerModel`] and the check
//! and next-state functions that the operations' own contracts use, and
//! proved once for all inputs.

use vstd::prelude::*;
use crate::address::Address;
use crate::errors::Error;
use crate::ledger::FIXED_FEE;
use crate::ledger::GRACE_WINDOW;
use crate::ledger::LedgerModel;
use crate::ledger::cancel_check;
use crate::ledger::create_check;
use crate::ledger::create_next;
use crate::ledger::create_refund;
use crate::ledger::init_next;
use crate::ledger::transfer_ownership_check;
use crate::ledger::transfer_ownership_next;
use crate::ledger::update_check;
use crate::ledger::update_next;
use crate::ledger::withdraw_check;
use crate::records::Transfer;
use crate::status::STATUS_CANCELLED;
use crate::status::STATUS_PAID;

verus! {

/// Creation payment law. For any valid item set (some items, matching
/// lengths, a positive subtotal, some delivery text): attaching exactly
/// subtotal plus fee passes every check and owes no refund; attaching more
/// passes and owes back exactly the excess, so the caller's net outflow is
/// subtotal plus fee either way; attaching less is rejected as
/// `InsufficientPayment` — and a rejected creation leaves the ledger
/// unchanged, as `create_order`'s own contract states.
pub proof fn creation_payment_law(
    caller: Address,
    attached: u128,
    n_items: int,
    subtotal: u128,
    delivery_len: int,
)
    requires
        n_items > 0,
        subtotal > 0,
        delivery_len > 0,
    ensures
        attached == subtotal + FIXED_FEE ==> create_check(
            attached,
            n_items,
            n_items,
            n_items,
            n_items,
            subtotal,
            delivery_len,
        ) is None && create_refund(caller, attached, subtotal) is None,
        attached > subtotal + FIXED_FEE ==> create_check(
            attached,
            n_items,
            n_items,
            n_items,
            n_items,
            subtotal,
            delivery_len,
        ) is None && create_refund(caller, attached, subtotal) == Some(
            (Transfer { to: caller, amount: (attached - subtotal - FIXED_FEE) as u128 }),
        ),
        attached < subtotal + FIXED_FEE ==> create_check(
            attached,
            n_items,
            n_items,
            n_items,
            n_items,
            subtotal,
            delivery_len,
        ) == Some(Error::InsufficientPayment),
{
}

/// Cancellation window. For a still-`Paid` order cancelled by its buyer:
/// at any time up to the creation timestamp plus [`GRACE_WINDOW`] the
/// cancellation passes every check — so `cancel_order`'s contract then
/// flips the status to `Cancelled` and refunds the full stored total —
/// while one time unit later it is rejected as `TimeExpired`, leaving
/// status and balances untouched.
pub proof fn cancellation_window(pre: LedgerModel, caller: Address, now: u64, order_id: u64)
    requires
        pre.wf(),
        pre.has_order(order_id),
        caller == pre.order(order_id).buyer,
        pre.order(order_id).status == STATUS_PAID,
    ensures
        now <= pre.order(order_id).timestamp + GRACE_WINDOW ==> cancel_check(
            pre,
            caller,
            now,
            order_id,
        ) is None,
        now > pre.order(order_id).timestamp + GRACE_WINDOW ==> cancel_check(
            pre,
            caller,
            now,
            order_id,
        ) == Some(Error::TimeExpired),
        update_next(pre, order_id, STATUS_CANCELLED).order(order_id).status == STATUS_CANCELLED,
{
}

/// Cancellation sink. Once an order's status is `Cancelled`, every further
/// `update_order_status` and every further `cancel_order` on that id is
/// rejected, whoever calls: the administrator draws `OrderCancelled`, the
/// buyer `CanOnlyCancelPaid`, anyone else the respective access error. A
/// rejected call moves no state and no funds, per the operations' own
/// contracts.
pub proof fn cancelled_is_sink(
    pre: LedgerModel,
    caller: Address,
    now: u64,
    order_id: u64,
)
    requires
        pre.wf(),
        pre.has_order(order_id),
        pre.order(order_id).status == STATUS_CANCELLED,
    ensures
        update_check(pre, caller, order_id) is Some,
        caller == pre.admin ==> update_check(pre, caller, order_id) == Some(
            Error::OrderCancelled,
        ),
        cancel_check(pre, caller, now, order_id) is Some,
        caller == pre.order(order_id).buyer ==> cancel_check(pre, caller, now, order_id)
            == Some(Error::CanOnlyCancelPaid),
{
}

/// Administrator access control. From any caller other than the
/// administrator, `update_order_status`, `withdraw` and
/// `transfer_ownership` are all rejected as `NotOwner`, whatever their
/// other arguments — and a rejected call mutates nothing, per the
/// operations' own contracts.
pub proof fn admin_access_control(
    pre: LedgerModel,
    caller: Address,
    order_id: u64,
    new_owner: Address,
    balance: u128,
)
    requires
        caller != pre.admin,
    ensures
        update_check(pre, caller, order_id) == Some(Error::NotOwner),
        withdraw_check(pre, caller, balance) == Some(Error::NotOwner),
        transfer_ownership_check(pre, caller, new_owner) == Some(Error::NotOwner),
{
}

/// Buyer access control. A cancellation of an existing order by anyone but
/// that order's buyer is rejected as `NotBuyer`, whatever the order's
/// status or the time.
pub proof fn buyer_access_control(pre: LedgerModel, caller: Address, now: u64, order_id: u64)
    requires
        pre.wf(),
        pre.has_order(order_id),
        caller != pre.order(order_id).buyer,
    ensures
        cancel_check(pre, caller, now, order_id) == Some(Error::NotBuyer),
{
}

/// Idempotent initialization. Once a first `init` has set an
/// administrator, a second `init` changes nothing, whoever makes it. (The
/// one input left out: a first caller who is the null identity sets no
/// administrator at all, so the ledger is still open to a later `init`.)
pub proof fn init_idempotent(pre: LedgerModel, first: Address, second: Address)
    requires
        !pre.admin.spec_is_zero() || !first.spec_is_zero(),
    ensures
        init_next(init_next(pre, first), second) == init_next(pre, first),
{
}

/// Everything a `create_order` call carries that the ledger's next state or
/// the outcome of its checks can depend on.
pub ghost struct CreateRequest {
    pub caller: Address,
    pub attached: u128,
    pub now: u64,
    pub n_ids: int,
    pub n_names: int,
    pub n_prices: int,
    pub n_quantities: int,
    pub subtotal: u128,
    pub delivery_len: int,
}

/// The error a creation request draws, if any.
pub open spec fn request_check(r: CreateRequest) -> Option<Error> {
    create_check(
        r.attached,
        r.n_ids,
        r.n_names,
        r.n_prices,
        r.n_quantities,
        r.subtotal,
        r.delivery_len,
    )
}

/// The ledger after one creation attempt: advanced on success, untouched on
/// rejection — exactly what `create_order`'s contract states of it.
pub open spec fn request_step(pre: LedgerModel, r: CreateRequest) -> LedgerModel {
    if request_check(r) is None {
        create_next(pre, r.caller, r.now, r.subtotal)
    } else {
        pre
    }
}

/// One call on the ledger, with everything its outcome can depend on.
pub ghost enum Action {
    Init { caller: Address },
    Create { request: CreateRequest },
    UpdateStatus { caller: Address, order_id: u64, new_status: u8 },
    Cancel { caller: Address, now: u64, order_id: u64 },
    Withdraw { caller: Address, balance: u128 },
    TransferOwnership { caller: Address, new_owner: Address },
}

/// The ledger after one call of any operation: advanced per the operation's
/// next-state function when its checks pass, untouched when they reject —
/// exactly what each operation's own contract states of it. A withdrawal
/// never touches ledger state either way.
pub open spec fn action_step(pre: LedgerModel, a: Action) -> LedgerModel {
    match a {
        Action::Init { caller } => init_next(pre, caller),
        Action::Create { request } => request_step(pre, request),
        Action::UpdateStatus { caller, order_id, new_status } => if update_check(
            pre,
            caller,
            order_id,
        ) is None {
            update_next(pre, order_id, new_status)
        } else {
            pre
        },
        Action::Cancel { caller, now, order_id } => if cancel_check(
            pre,
            caller,
            now,
            order_id,
        ) is None {
            update_next(pre, order_id, STATUS_CANCELLED)
        } else {
            pre
        },
        Action::Withdraw { .. } => pre,
        Action::TransferOwnership { caller, new_owner } => if transfer_ownership_check(
            pre,
            caller,
            new_owner,
        ) is None {
            transfer_ownership_next(pre, new_owner)
        } else {
            pre
        },
    }
}

/// The ledger after a whole sequence of calls, in order.
pub open spec fn run_actions(pre: LedgerModel, actions: Seq<Action>) -> LedgerModel
    decreases actions.len(),
{
    if actions.len() == 0 {
        pre
    } else {
        run_actions(action_step(pre, actions[0]), actions.skip(1))
    }
}

/// How many calls of a sequence are creations that pass every check.
pub open spec fn successful_creations(actions: Seq<Action>) -> int
    decreases actions.len(),
{
    if actions.len() == 0 {
        0
    } else if actions[0] matches Action::Create { request } && request_check(
        actions[0]->Create_request,
    ) is None {
        1 + successful_creations(actions.skip(1))
    } else {
        successful_creations(actions.skip(1))
    }
}

/// A sequence of calls never counts a negative number of creations.
pub proof fn successful_creations_nonneg(actions: Seq<Action>)
    ensures
        successful_creations(actions) >= 0,
    decreases actions.len(),
{
    if actions.len() != 0 {
        successful_creations_nonneg(actions.skip(1));
    }
}

/// Counter monotonicity. Starting from any well-formed, initialized
/// ledger, run any sequence of calls whatsoever — creations, status
/// updates, cancellations, withdrawals, ownership transfers, repeated
/// `init`s, successful or failed, in any order. The counter ends exactly
/// `n` higher than it began, where `n` is the number of creations that
/// passed every check; nothing else moves it, so it never decreases. The
/// ledger stays well-formed and initialized throughout, so ids up to the
/// counter resolve to distinct, fully populated records — and the buyer,
/// total and creation timestamp of every record that existed before are
/// still exactly what they were: the run can have touched nothing of them
/// but the status byte.
pub proof fn counter_counts_creations(pre: LedgerModel, actions: Seq<Action>)
    requires
        pre.wf(),
        !pre.admin.spec_is_zero(),
    ensures
        run_actions(pre, actions).wf(),
        !run_actions(pre, actions).admin.spec_is_zero(),
        run_actions(pre, actions).counter == pre.counter + successful_creations(actions),
        run_actions(pre, actions).counter >= pre.counter,
        run_actions(pre, actions).orders.len() == pre.orders.len() + successful_creations(
            actions,
        ),
        forall|i: int|
            0 <= i < pre.orders.len() ==> {
                &&& (#[trigger] run_actions(pre, actions).orders[i]).buyer == pre.orders[i].buyer
                &&& run_actions(pre, actions).orders[i].total == pre.orders[i].total
                &&& run_actions(pre, actions).orders[i].timestamp == pre.orders[i].timestamp
            },
    decreases actions.len(),
{
    successful_creations_nonneg(actions);
    if actions.len() != 0 {
        let next = action_step(pre, actions[0]);
        counter_counts_creations(next, actions.skip(1));
        assert forall|i: int| 0 <= i < pre.orders.len() implies {
            &&& (#[trigger] run_actions(pre, actions).orders[i]).buyer == pre.orders[i].buyer
            &&& run_actions(pre, actions).orders[i].total == pre.orders[i].total
            &&& run_actions(pre, actions).orders[i].timestamp == pre.orders[i].timestamp
        } by {
            assert(next.orders[i].buyer == pre.orders[i].buyer && next.orders[i].total
                == pre.orders[i].total && next.orders[i].timestamp == pre.orders[i].timestamp);
            assert(run_actions(pre, actions).orders[i] == run_actions(
                next,
                actions.skip(1),
            ).orders[i]);
        }
    }
}

/// Append-only but for the status byte. A status overwrite — whether by
/// the administrator or by a cancellation, which is the same next-state —
/// never touches an order's buyer, total or creation timestamp, and never
/// touches any other order at all: once created, a record's payment fields
/// stand forever.
pub proof fn creation_fields_never_change(
    pre: LedgerModel,
    order_id: u64,
    new_status: u8,
    other_id: u64,
)
    requires
        pre.wf(),
        pre.has_order(order_id),
        pre.has_order(other_id),
    ensures
        update_next(pre, order_id, new_status).order(other_id).buyer == pre.order(
            other_id,
        ).buyer,
        update_next(pre, order_id, new_status).order(other_id).total == pre.order(
            other_id,
        ).total,
        update_next(pre, order_id, new_status).order(other_id).timestamp == pre.order(
            other_id,
        ).timestamp,
        other_id != order_id ==> update_next(pre, order_id, new_status).order(other_id)
            == pre.order(other_id),
{
}

/// Of all the operations, only a successful creation moves the order
/// counter: a status update and an ownership transfer keep it, a withdrawal
/// touches no ledger state at all, and once an administrator is set an
/// `init` is a no-op.
pub proof fn only_creation_moves_counter(
    pre: LedgerModel,
    caller: Address,
    order_id: u64,
    new_status: u8,
    new_owner: Address,
)
    ensures
        update_next(pre, order_id, new_status).counter == pre.counter,
        transfer_ownership_next(pre, new_owner).counter == pre.counter,
        !pre.admin.spec_is_zero() ==> init_next(pre, caller) == pre,
{
}

} // verus!
