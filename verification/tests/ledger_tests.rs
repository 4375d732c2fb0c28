use chowfast_order::address::Address;
use chowfast_order::errors::Error;
use chowfast_order::ledger::ChowFastOrder;
use chowfast_order::ledger::FIXED_FEE;
use chowfast_order::ledger::GRACE_WINDOW;
use chowfast_order::records::Transfer;
use chowfast_order::status::OrderStatus;
use chowfast_order::status::STATUS_CANCELLED;
use chowfast_order::status::STATUS_COMPLETED;
use chowfast_order::status::STATUS_CONFIRMED;
use chowfast_order::status::STATUS_PAID;
use chowfast_order::status::STATUS_PENDING;

fn admin() -> Address {
    Address { value: 1 }
}

fn buyer() -> Address {
    Address { value: 2 }
}

fn stranger() -> Address {
    Address { value: 3 }
}

fn initialized_ledger() -> ChowFastOrder {
    let mut ledger = ChowFastOrder::new();
    ledger.init(admin());
    ledger
}

fn items_of(n: usize) -> (Vec<String>, Vec<String>, Vec<u128>, Vec<u128>) {
    let mut ids = Vec::new();
    let mut names = Vec::new();
    let mut prices = Vec::new();
    let mut quantities = Vec::new();
    for i in 0..n {
        ids.push(format!("prod-{}", i));
        names.push(format!("name-{}", i));
        prices.push(100 + i as u128);
        quantities.push(1 + i as u128);
    }
    (ids, names, prices, quantities)
}

fn create(
    ledger: &mut ChowFastOrder,
    buyer: Address,
    attached: u128,
    now: u64,
    subtotal: u128,
) -> Result<chowfast_order::records::CreateOutcome, Error> {
    let (ids, names, prices, quantities) = items_of(2);
    ledger.create_order(
        buyer,
        attached,
        now,
        ids,
        names,
        prices,
        quantities,
        subtotal,
        String::from("12 Main Street"),
    )
}

#[test]
fn exact_payment_creates_and_stores_total() {
    let mut ledger = initialized_ledger();
    let subtotal: u128 = 5000;
    let out = create(&mut ledger, buyer(), subtotal + FIXED_FEE, 1000, subtotal).unwrap();
    assert_eq!(out.order_id, 1);
    assert_eq!(ledger.get_total_orders(), 1);
    assert_eq!(out.created.order_id, 1);
    assert_eq!(out.created.buyer, buyer());
    assert_eq!(out.created.total, subtotal + FIXED_FEE);
    assert_eq!(out.created.timestamp, 1000);
    assert_eq!(out.payment.amount, subtotal + FIXED_FEE);
    assert_eq!(out.payment.buyer, buyer());
    assert!(out.refund.is_none());
}

#[test]
fn creation_keeps_item_detail_only_in_the_record() {
    let mut ledger = initialized_ledger();
    let (ids, names, prices, quantities) = items_of(3);
    let out = ledger
        .create_order(
            buyer(),
            700 + FIXED_FEE,
            1000,
            ids.clone(),
            names.clone(),
            prices.clone(),
            quantities.clone(),
            700,
            String::from("flat 4, Rose Lane"),
        )
        .unwrap();
    assert_eq!(out.created.product_ids, ids);
    assert_eq!(out.created.product_names, names);
    assert_eq!(out.created.prices, prices);
    assert_eq!(out.created.quantities, quantities);
    assert_eq!(out.created.delivery_info, "flat 4, Rose Lane");
}

#[test]
fn underpayment_fails_and_mutates_nothing() {
    let mut ledger = initialized_ledger();
    let subtotal: u128 = 5000;
    let err = create(&mut ledger, buyer(), subtotal + FIXED_FEE - 1, 1000, subtotal);
    assert_eq!(err.unwrap_err(), Error::InsufficientPayment);
    assert_eq!(ledger.get_total_orders(), 0);
}

#[test]
fn overpayment_refunds_exactly_the_excess() {
    let mut ledger = initialized_ledger();
    let subtotal: u128 = 5000;
    let excess: u128 = 137;
    let out = create(&mut ledger, buyer(), subtotal + FIXED_FEE + excess, 1000, subtotal).unwrap();
    assert_eq!(out.created.total, subtotal + FIXED_FEE);
    assert_eq!(out.refund, Some(Transfer { to: buyer(), amount: excess }));
    // net outflow: attached minus refund equals exactly subtotal plus fee
    let attached = subtotal + FIXED_FEE + excess;
    assert_eq!(attached - out.refund.unwrap().amount, subtotal + FIXED_FEE);
    // the raw attached value is what the payment record carries
    assert_eq!(out.payment.amount, attached);
}

#[test]
fn empty_item_list_is_rejected() {
    let mut ledger = initialized_ledger();
    let err = ledger.create_order(
        buyer(),
        FIXED_FEE + 100,
        1000,
        Vec::new(),
        Vec::new(),
        Vec::new(),
        Vec::new(),
        100,
        String::from("12 Main Street"),
    );
    assert_eq!(err.unwrap_err(), Error::NoItems);
    assert_eq!(ledger.get_total_orders(), 0);
}

#[test]
fn mismatched_item_arrays_are_rejected() {
    let mut ledger = initialized_ledger();
    let (ids, names, prices, _) = items_of(2);
    let err = ledger.create_order(
        buyer(),
        FIXED_FEE + 100,
        1000,
        ids,
        names,
        prices,
        vec![1],
        100,
        String::from("12 Main Street"),
    );
    assert_eq!(err.unwrap_err(), Error::ArrayLengthMismatch);
}

#[test]
fn zero_subtotal_is_rejected() {
    let mut ledger = initialized_ledger();
    let err = create(&mut ledger, buyer(), FIXED_FEE, 1000, 0);
    assert_eq!(err.unwrap_err(), Error::ZeroSubtotal);
}

#[test]
fn empty_delivery_info_is_rejected() {
    let mut ledger = initialized_ledger();
    let (ids, names, prices, quantities) = items_of(2);
    let err = ledger.create_order(
        buyer(),
        FIXED_FEE + 100,
        1000,
        ids,
        names,
        prices,
        quantities,
        100,
        String::new(),
    );
    assert_eq!(err.unwrap_err(), Error::NoDeliveryInfo);
}

#[test]
fn cancel_inside_window_refunds_in_full() {
    let mut ledger = initialized_ledger();
    let subtotal: u128 = 5000;
    create(&mut ledger, buyer(), subtotal + FIXED_FEE, 1000, subtotal).unwrap();
    let out = ledger.cancel_order(buyer(), 1000 + GRACE_WINDOW, 1).unwrap();
    assert_eq!(out.refund, Transfer { to: buyer(), amount: subtotal + FIXED_FEE });
    assert_eq!(out.record.order_id, 1);
    assert_eq!(out.record.new_status, STATUS_CANCELLED);
    assert_eq!(out.record.timestamp, 1000 + GRACE_WINDOW);
    // the order is cancelled now: the administrator can no longer touch it
    let err = ledger.update_order_status(admin(), 2000, 1, STATUS_CONFIRMED);
    assert_eq!(err, Err(Error::OrderCancelled));
}

#[test]
fn cancel_one_unit_past_the_window_fails() {
    let mut ledger = initialized_ledger();
    let subtotal: u128 = 5000;
    create(&mut ledger, buyer(), subtotal + FIXED_FEE, 1000, subtotal).unwrap();
    let err = ledger.cancel_order(buyer(), 1000 + GRACE_WINDOW + 1, 1);
    assert_eq!(err, Err(Error::TimeExpired));
    // status is untouched: the administrator can still confirm it
    let rec = ledger.update_order_status(admin(), 2000, 1, STATUS_CONFIRMED).unwrap();
    assert_eq!(rec.new_status, STATUS_CONFIRMED);
}

#[test]
fn clock_running_behind_creation_counts_as_no_elapsed_time() {
    let mut ledger = initialized_ledger();
    create(&mut ledger, buyer(), 100 + FIXED_FEE, 1000, 100).unwrap();
    let out = ledger.cancel_order(buyer(), 900, 1).unwrap();
    assert_eq!(out.refund.amount, 100 + FIXED_FEE);
}

#[test]
fn cancelled_order_is_a_sink() {
    let mut ledger = initialized_ledger();
    create(&mut ledger, buyer(), 100 + FIXED_FEE, 1000, 100).unwrap();
    ledger.cancel_order(buyer(), 1100, 1).unwrap();
    assert_eq!(
        ledger.update_order_status(admin(), 1200, 1, STATUS_PAID),
        Err(Error::OrderCancelled)
    );
    assert_eq!(ledger.cancel_order(buyer(), 1200, 1), Err(Error::CanOnlyCancelPaid));
}

#[test]
fn only_paid_orders_can_be_cancelled() {
    let mut ledger = initialized_ledger();
    create(&mut ledger, buyer(), 100 + FIXED_FEE, 1000, 100).unwrap();
    ledger.update_order_status(admin(), 1001, 1, STATUS_COMPLETED).unwrap();
    assert_eq!(ledger.cancel_order(buyer(), 1002, 1), Err(Error::CanOnlyCancelPaid));
}

#[test]
fn status_overwrite_is_permissive_for_the_administrator() {
    let mut ledger = initialized_ledger();
    create(&mut ledger, buyer(), 100 + FIXED_FEE, 1000, 100).unwrap();
    // any ordinal is accepted verbatim, even an unrecognized one
    let rec = ledger.update_order_status(admin(), 1001, 1, 99).unwrap();
    assert_eq!(rec.new_status, 99);
    // and such an order is no longer exactly Paid, so it cannot be cancelled
    assert_eq!(ledger.cancel_order(buyer(), 1002, 1), Err(Error::CanOnlyCancelPaid));
}

#[test]
fn unknown_order_ids_are_rejected() {
    let mut ledger = initialized_ledger();
    create(&mut ledger, buyer(), 100 + FIXED_FEE, 1000, 100).unwrap();
    assert_eq!(
        ledger.update_order_status(admin(), 1001, 0, STATUS_CONFIRMED),
        Err(Error::OrderNotFound)
    );
    assert_eq!(
        ledger.update_order_status(admin(), 1001, 2, STATUS_CONFIRMED),
        Err(Error::OrderNotFound)
    );
    assert_eq!(ledger.cancel_order(buyer(), 1001, 0), Err(Error::OrderNotFound));
    assert_eq!(ledger.cancel_order(buyer(), 1001, 2), Err(Error::OrderNotFound));
}

#[test]
fn non_administrator_calls_are_rejected() {
    let mut ledger = initialized_ledger();
    create(&mut ledger, buyer(), 100 + FIXED_FEE, 1000, 100).unwrap();
    assert_eq!(
        ledger.update_order_status(stranger(), 1001, 1, STATUS_CONFIRMED),
        Err(Error::NotOwner)
    );
    assert_eq!(ledger.withdraw(stranger(), 100), Err(Error::NotOwner));
    assert_eq!(ledger.transfer_ownership(stranger(), stranger()), Err(Error::NotOwner));
    // nothing moved
    assert_eq!(ledger.owner(), admin());
    assert_eq!(ledger.get_total_orders(), 1);
}

#[test]
fn non_buyer_cancellation_is_rejected() {
    let mut ledger = initialized_ledger();
    create(&mut ledger, buyer(), 100 + FIXED_FEE, 1000, 100).unwrap();
    assert_eq!(ledger.cancel_order(stranger(), 1001, 1), Err(Error::NotBuyer));
    assert_eq!(ledger.cancel_order(admin(), 1001, 1), Err(Error::NotBuyer));
}

#[test]
fn counter_counts_only_successful_creations() {
    let mut ledger = initialized_ledger();
    assert_eq!(ledger.get_total_orders(), 0);
    let first = create(&mut ledger, buyer(), 100 + FIXED_FEE, 1000, 100).unwrap();
    let _ = create(&mut ledger, buyer(), 0, 1001, 100); // fails: insufficient
    let _ = create(&mut ledger, buyer(), 100 + FIXED_FEE, 1002, 0); // fails: zero subtotal
    let second = create(&mut ledger, stranger(), 200 + FIXED_FEE, 1003, 200).unwrap();
    let third = create(&mut ledger, buyer(), 300 + FIXED_FEE, 1004, 300).unwrap();
    assert_eq!(ledger.get_total_orders(), 3);
    assert_eq!(first.order_id, 1);
    assert_eq!(second.order_id, 2);
    assert_eq!(third.order_id, 3);
    // each id resolves to its own record: distinct buyers and totals survive
    let c2 = ledger.cancel_order(stranger(), 1003, 2).unwrap();
    assert_eq!(c2.refund, Transfer { to: stranger(), amount: 200 + FIXED_FEE });
    let c3 = ledger.cancel_order(buyer(), 1004, 3).unwrap();
    assert_eq!(c3.refund, Transfer { to: buyer(), amount: 300 + FIXED_FEE });
}

#[test]
fn init_sets_the_first_caller_as_administrator() {
    let mut ledger = ChowFastOrder::new();
    assert!(ledger.owner().is_zero());
    ledger.init(admin());
    assert_eq!(ledger.owner(), admin());
}

#[test]
fn init_twice_keeps_the_first_administrator() {
    let mut ledger = ChowFastOrder::new();
    ledger.init(admin());
    ledger.init(stranger());
    assert_eq!(ledger.owner(), admin());
    ledger.init(admin());
    assert_eq!(ledger.owner(), admin());
}

#[test]
fn withdraw_sweeps_the_whole_reported_balance() {
    let mut ledger = initialized_ledger();
    let out = ledger.withdraw(admin(), 123456).unwrap();
    assert_eq!(out.transfer, Transfer { to: admin(), amount: 123456 });
    assert_eq!(out.record.owner, admin());
    assert_eq!(out.record.amount, 123456);
}

#[test]
fn withdraw_with_no_funds_is_rejected() {
    let mut ledger = initialized_ledger();
    assert_eq!(ledger.withdraw(admin(), 0), Err(Error::NoFunds));
}

#[test]
fn withdraw_does_not_reserve_refundable_escrow() {
    // The pool is one undifferentiated pot: a sweep can drain the funds a
    // still-cancellable order would need. The ledger still accepts the
    // cancellation and demands the full refund; the host's transfer is then
    // what fails, rolling the whole cancellation back.
    let mut ledger = initialized_ledger();
    let subtotal: u128 = 5000;
    create(&mut ledger, buyer(), subtotal + FIXED_FEE, 1000, subtotal).unwrap();
    let pooled = subtotal + FIXED_FEE;
    let swept = ledger.withdraw(admin(), pooled).unwrap();
    assert_eq!(swept.transfer.amount, pooled);
    let cancel = ledger.cancel_order(buyer(), 1100, 1).unwrap();
    assert_eq!(cancel.refund.amount, pooled); // demanded, though the pot is empty
}

#[test]
fn ownership_transfer_replaces_the_administrator() {
    let mut ledger = initialized_ledger();
    ledger.transfer_ownership(admin(), stranger()).unwrap();
    assert_eq!(ledger.owner(), stranger());
    // the old administrator has no rights left
    assert_eq!(ledger.withdraw(admin(), 10), Err(Error::NotOwner));
    assert_eq!(ledger.withdraw(stranger(), 10).unwrap().transfer.to, stranger());
}

#[test]
fn ownership_transfer_to_the_null_identity_is_rejected() {
    let mut ledger = initialized_ledger();
    assert_eq!(ledger.transfer_ownership(admin(), Address::zero()), Err(Error::InvalidAddress));
    assert_eq!(ledger.owner(), admin());
}

#[test]
fn status_ordinals_match_the_stored_codes() {
    assert_eq!(OrderStatus::Pending.code(), STATUS_PENDING);
    assert_eq!(OrderStatus::Paid.code(), STATUS_PAID);
    assert_eq!(OrderStatus::Confirmed.code(), STATUS_CONFIRMED);
    assert_eq!(OrderStatus::Completed.code(), STATUS_COMPLETED);
    assert_eq!(OrderStatus::Cancelled.code(), STATUS_CANCELLED);
    assert_eq!(STATUS_PENDING, 0);
    assert_eq!(STATUS_PAID, 1);
    assert_eq!(STATUS_CONFIRMED, 2);
    assert_eq!(STATUS_COMPLETED, 3);
    assert_eq!(STATUS_CANCELLED, 4);
}

#[test]
fn fee_and_window_are_the_protocol_constants() {
    assert_eq!(FIXED_FEE, 10_000_000_000_000u128);
    assert_eq!(GRACE_WINDOW, 300);
}
