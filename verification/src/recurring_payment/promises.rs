//! What each call of the recurring payments owes its caller, in the terms of its
//! arguments and of the ledger: when it succeeds, what each failure means, what
//! it changes and what it asks for.

use crate::address::Address;
use crate::recurring_payment::model;
use crate::recurring_payment::model::Ledger;
use crate::recurring_payment::{
    Call, DataKey, Event, Outward, RecurringError, RecurringPayment, RecurringPaymentContract,
    RecurringStatus, Value,
};
use vstd::prelude::*;

verus! {

/// Whether the requests are those that open a call of `caller`, and no more.
pub open spec fn only_opened(calls: Seq<Call>, caller: Address) -> bool {
    &&& calls.len() == 2
    &&& opened(calls, caller)
}

/// Whether a call opens as it should: the instance is kept alive, then `caller`
/// authorizes.
pub open spec fn opened(calls: Seq<Call>, caller: Address) -> bool {
    &&& calls.len() >= 2
    &&& calls[0] == crate::requests::instance_kept_alive::<DataKey, Value, Outward>()
    &&& calls[1] == crate::requests::authorization::<DataKey, Value, Outward>(caller)
}

/// Whether a payment is filed under its id by the request at `i`, and kept alive
/// by the next.
pub open spec fn filed_at(calls: Seq<Call>, i: int, id: u64, payment: RecurringPayment) -> bool {
    &&& 0 <= i && i + 1 < calls.len()
    &&& calls[i] == crate::requests::entry_filed::<DataKey, Value, Outward>(
        DataKey::Payment(id),
        Value::Payment(payment),
    )
    &&& calls[i + 1] == crate::requests::entry_kept_alive::<DataKey, Value, Outward>(
        DataKey::Payment(id),
    )
}

/// Whether the request at `i` has the token contract move the money of a
/// payment: the amount on file, of the token on file, from the payer on file to
/// the recipient on file.
pub open spec fn money_moved_at(calls: Seq<Call>, i: int, payment: RecurringPayment) -> bool {
    &&& 0 <= i < calls.len()
    &&& calls[i] == crate::requests::sent::<DataKey, Value, Outward>(
        Outward::TransferFrom {
            token: payment.token,
            from: payment.payer,
            to: payment.recipient,
            amount: payment.amount,
        },
    )
}

/// What the contract holds is what its ledger shows.
pub proof fn law_ledger_shows_the_contract(contract: RecurringPaymentContract)
    ensures
        contract@.admin == contract.admin,
        contract@.pending_admin == contract.pending_admin,
        contract@.payment_counter == contract.payment_counter,
        contract@.payments == contract.payments@,
{
}

/// What is filed, what it is filed under and what is asked for are shown as they
/// are.
pub proof fn law_values_show_themselves(
    payment: RecurringPayment,
    key: DataKey,
    value: Value,
    request: Outward,
)
    ensures
        payment@ == payment,
        key@ == key,
        value@ == value,
        request@ == request,
{
}

/// A contract is set up exactly where no administrator is on file. It then has
/// the given one and counts from 0, and all else stays.
pub proof fn law_initialize(s: Ledger, admin: Address)
    ensures
        ({
            let step = model::initialize(s, admin);
            &&& step.value is Ok <==> s.admin is None
            &&& step.value is Ok ==> {
                &&& step.state.admin == Some(admin)
                &&& step.state.payment_counter == Some(0u64)
                &&& step.state.pending_admin == s.pending_admin
                &&& step.state.payments == s.payments
                &&& step.calls.len() == 4
                &&& opened(step.calls, admin)
                &&& step.calls[2] == crate::requests::instance_filed::<DataKey, Value, Outward>(
                    DataKey::Admin,
                    Value::Address(admin),
                )
                &&& step.calls[3] == crate::requests::instance_filed::<DataKey, Value, Outward>(
                    DataKey::PaymentCounter,
                    Value::Counter(0),
                )
            }
            &&& step.value is Err ==> {
                &&& step.value->Err_0 == RecurringError::AlreadyInitialized
                &&& step.state == s
                &&& step.calls.len() == 1
                &&& step.calls[0] == crate::requests::instance_kept_alive::<
                    DataKey,
                    Value,
                    Outward,
                >()
            }
        }),
{
}

/// A payment is set up exactly where the amount is positive, the interval is
/// between a second and a year, and neither the ids nor the clock run out.
pub proof fn law_who_can_create(
    s: Ledger,
    now: u64,
    payer: Address,
    recipient: Address,
    token: Address,
    amount: i128,
    interval_secs: u64,
    max_payments: Option<u32>,
)
    ensures
        ({
            let step = model::create(
                s,
                now,
                payer,
                recipient,
                token,
                amount,
                interval_secs,
                max_payments,
            );
            let year: int = 31_536_000;
            let positive = amount > 0;
            let in_range = 1 <= interval_secs && interval_secs <= year;
            let ids_left = s.payment_counter != Some(u64::MAX);
            let time_left = interval_secs <= u64::MAX - now;
            &&& step.value is Ok <==> positive && in_range && ids_left && time_left
            &&& step.value is Err ==> {
                &&& step.state == s
                &&& only_opened(step.calls, payer)
                &&& step.value->Err_0 == RecurringError::InvalidAmount <==> !positive
                &&& step.value->Err_0 == RecurringError::IntervalOutOfRange <==> positive
                    && !in_range
                &&& step.value->Err_0 == RecurringError::CounterOverflow <==> positive && in_range
                    && !ids_left
                &&& step.value->Err_0 == RecurringError::NextPaymentOverflow <==> positive
                    && in_range && ids_left && !time_left
            }
        }),
{
}

/// A new payment has the terms that it was set up with, is active, was never
/// made, and is due an interval from now. It is filed under the next id, and
/// nothing else on file changes but the count.
pub proof fn law_create(
    s: Ledger,
    now: u64,
    payer: Address,
    recipient: Address,
    token: Address,
    amount: i128,
    interval_secs: u64,
    max_payments: Option<u32>,
)
    ensures
        ({
            let step = model::create(
                s,
                now,
                payer,
                recipient,
                token,
                amount,
                interval_secs,
                max_payments,
            );
            step.value matches Ok(id) ==> {
                let new = step.state.payments[id];
                &&& match s.payment_counter {
                    Some(last) => id == last + 1,
                    None => id == 1,
                }
                &&& step.state.payment_counter == Some(id)
                &&& step.state.admin == s.admin
                &&& step.state.pending_admin == s.pending_admin
                &&& step.state.payments == s.payments.insert(id, new)
                &&& new.payment_id == id
                &&& new.payer == payer
                &&& new.recipient == recipient
                &&& new.token == token
                &&& new.amount == amount
                &&& new.interval_secs == interval_secs
                &&& new.max_payments == max_payments
                &&& new.total_payments == 0
                &&& new.status == RecurringStatus::Active
                &&& new.created_at == now
                &&& new.last_payment == now
                &&& new.next_payment - now == interval_secs
                &&& step.calls.len() == 5
                &&& opened(step.calls, payer)
                &&& filed_at(step.calls, 2, id, new)
                &&& step.calls[4] == crate::requests::instance_filed::<DataKey, Value, Outward>(
                    DataKey::PaymentCounter,
                    Value::Counter(id),
                )
            }
        }),
{
}

/// A payment is made exactly where it is on file, the payer, the recipient or
/// the administrator asks for it, it is active and due, and its limit, if it has
/// one, leaves room; and neither the count nor the clock runs out. What fails
/// first is what the caller is told.
pub proof fn law_who_can_execute(s: Ledger, now: u64, caller: Address, id: u64)
    ensures
        ({
            let step = model::execute(s, now, caller, id);
            let known = s.payments.contains_key(id);
            let payment = s.payments[id];
            let party = payment.payer == caller || payment.recipient == caller;
            let allowed = party || s.admin == Some(caller);
            let active = payment.status == RecurringStatus::Active;
            let due = payment.next_payment <= now;
            let room = payment.max_payments is None || payment.total_payments
                < payment.max_payments->Some_0;
            let countable = payment.total_payments < u32::MAX;
            let time_left = payment.interval_secs <= u64::MAX - now;
            &&& step.value is Ok <==> known && allowed && active && due && room && countable
                && time_left
            &&& step.value is Err ==> {
                let error = step.value->Err_0;
                &&& step.state == s
                &&& error == RecurringError::PaymentNotFound <==> !known
                &&& error == RecurringError::AdminNotFound <==> known && !party && s.admin is None
                &&& error == RecurringError::Unauthorized <==> known && !allowed && s.admin is Some
                &&& error == RecurringError::NotActive <==> known && allowed && !active
                &&& error == RecurringError::TooEarly <==> known && allowed && active && !due
                &&& error == RecurringError::MaxPaymentsReached <==> known && allowed && active
                    && due && !room
                &&& error == RecurringError::TotalOverflow <==> known && allowed && active && due
                    && room && !countable
                &&& error == RecurringError::NextPaymentOverflow <==> known && allowed && active
                    && due && room && countable && !time_left
            }
        }),
{
}

/// Whenever a payment is made, whatever its history, the one request that moves
/// money takes the amount on file, of the token on file, from the payer on file
/// and gives it to the recipient on file. The payment is then counted once more,
/// was last made now and is due an interval from now; its terms and everything
/// else stay.
pub proof fn law_execute(s: Ledger, now: u64, caller: Address, id: u64)
    ensures
        ({
            let step = model::execute(s, now, caller, id);
            let payment = s.payments[id];
            let paid = step.state.payments[id];
            step.value is Ok ==> {
                &&& step.state.admin == s.admin
                &&& step.state.pending_admin == s.pending_admin
                &&& step.state.payment_counter == s.payment_counter
                &&& step.state.payments == s.payments.insert(id, paid)
                &&& paid.total_payments - payment.total_payments == 1
                &&& paid.last_payment == now
                &&& paid.next_payment - now == payment.interval_secs
                &&& paid.payment_id == payment.payment_id
                &&& paid.payer == payment.payer
                &&& paid.recipient == payment.recipient
                &&& paid.token == payment.token
                &&& paid.amount == payment.amount
                &&& paid.interval_secs == payment.interval_secs
                &&& paid.max_payments == payment.max_payments
                &&& paid.status == payment.status
                &&& paid.created_at == payment.created_at
                &&& step.calls.len() == 6
                &&& opened(step.calls, caller)
                &&& money_moved_at(step.calls, 2, payment)
                &&& filed_at(step.calls, 3, id, paid)
                &&& step.calls[5] == crate::requests::sent::<DataKey, Value, Outward>(
                    Outward::Publish(Event::Paid { payment_id: id, amount: payment.amount }),
                )
            }
        }),
{
}

/// What a payment that is not made has asked for until it failed: nothing but
/// its opening; where its limit was reached, that it be filed as cancelled; where
/// the count or the clock ran out, the move of the money. The host undoes it all.
pub proof fn law_execute_requests_of_a_failure(s: Ledger, now: u64, caller: Address, id: u64)
    ensures
        ({
            let step = model::execute(s, now, caller, id);
            let payment = s.payments[id];
            step.value matches Err(error) ==> if error == RecurringError::MaxPaymentsReached {
                &&& step.calls.len() == 4
                &&& opened(step.calls, caller)
                &&& filed_at(
                    step.calls,
                    2,
                    id,
                    RecurringPayment { status: RecurringStatus::Cancelled, ..payment },
                )
            } else if error == RecurringError::TotalOverflow || error
                == RecurringError::NextPaymentOverflow {
                &&& step.calls.len() == 3
                &&& opened(step.calls, caller)
                &&& money_moved_at(step.calls, 2, payment)
            } else {
                only_opened(step.calls, caller)
            }
        }),
{
}

/// Whether a step puts `changed` in place of the payment `id`, and does nothing
/// else.
pub open spec fn replaces(
    s: Ledger,
    state: Ledger,
    calls: Seq<Call>,
    payer: Address,
    id: u64,
    changed: RecurringPayment,
) -> bool {
    &&& state.admin == s.admin
    &&& state.pending_admin == s.pending_admin
    &&& state.payment_counter == s.payment_counter
    &&& state.payments == s.payments.insert(id, changed)
    &&& calls.len() == 4
    &&& opened(calls, payer)
    &&& filed_at(calls, 2, id, changed)
}

/// A payment is paused exactly where its payer asks for it and it is active.
/// Nothing of it changes but its status.
pub proof fn law_pause(s: Ledger, payer: Address, id: u64)
    ensures
        ({
            let step = model::pause(s, payer, id);
            let known = s.payments.contains_key(id);
            let own = s.payments[id].payer == payer;
            let active = s.payments[id].status == RecurringStatus::Active;
            &&& step.value is Ok <==> known && own && active
            &&& step.value is Ok ==> replaces(
                s,
                step.state,
                step.calls,
                payer,
                id,
                RecurringPayment { status: RecurringStatus::Paused, ..s.payments[id] },
            )
            &&& step.value matches Err(error) ==> {
                &&& step.state == s
                &&& only_opened(step.calls, payer)
                &&& error == RecurringError::PaymentNotFound <==> !known
                &&& error == RecurringError::Unauthorized <==> known && !own
                &&& error == RecurringError::CannotPause <==> known && own && !active
            }
        }),
{
}

/// A payment is resumed exactly where its payer asks for it, it is paused, and
/// the clock does not run out. It is then active, due an interval from now, and
/// nothing else of it changes.
pub proof fn law_resume(s: Ledger, now: u64, payer: Address, id: u64)
    ensures
        ({
            let step = model::resume(s, now, payer, id);
            let known = s.payments.contains_key(id);
            let payment = s.payments[id];
            let own = payment.payer == payer;
            let paused = payment.status == RecurringStatus::Paused;
            let time_left = payment.interval_secs <= u64::MAX - now;
            let resumed = step.state.payments[id];
            &&& step.value is Ok <==> known && own && paused && time_left
            &&& step.value is Ok ==> {
                &&& resumed.next_payment - now == payment.interval_secs
                &&& resumed == RecurringPayment {
                    status: RecurringStatus::Active,
                    next_payment: resumed.next_payment,
                    ..payment
                }
                &&& replaces(s, step.state, step.calls, payer, id, resumed)
            }
            &&& step.value matches Err(error) ==> {
                &&& step.state == s
                &&& only_opened(step.calls, payer)
                &&& error == RecurringError::PaymentNotFound <==> !known
                &&& error == RecurringError::Unauthorized <==> known && !own
                &&& error == RecurringError::NotPaused <==> known && own && !paused
                &&& error == RecurringError::NextPaymentOverflow <==> known && own && paused
                    && !time_left
            }
        }),
{
}

/// A payment is cancelled exactly where its payer asks for it, whatever its
/// status. Nothing of it changes but its status.
pub proof fn law_cancel(s: Ledger, payer: Address, id: u64)
    ensures
        ({
            let step = model::cancel(s, payer, id);
            let known = s.payments.contains_key(id);
            let own = s.payments[id].payer == payer;
            &&& step.value is Ok <==> known && own
            &&& step.value is Ok ==> replaces(
                s,
                step.state,
                step.calls,
                payer,
                id,
                RecurringPayment { status: RecurringStatus::Cancelled, ..s.payments[id] },
            )
            &&& step.value matches Err(error) ==> {
                &&& step.state == s
                &&& only_opened(step.calls, payer)
                &&& error == RecurringError::PaymentNotFound <==> !known
                &&& error == RecurringError::Unauthorized <==> known && !own
            }
        }),
{
}

/// A payment that is looked up is the one on file, and none where none is;
/// looking it up only keeps the instance alive.
pub proof fn law_get_payment(s: Ledger, id: u64)
    ensures
        model::payment(s, id) is Some <==> s.payments.contains_key(id),
        s.payments.contains_key(id) ==> model::payment(s, id) == Some(s.payments[id]),
        model::reading().len() == 1,
        model::reading()[0] == crate::requests::instance_kept_alive::<DataKey, Value, Outward>(),
{
}

/// Each failure is reported in its own words.
pub proof fn law_messages()
    ensures
        model::message(RecurringError::AlreadyInitialized) == "already initialized"@,
        model::message(RecurringError::InvalidAmount) == "invalid amount"@,
        model::message(RecurringError::IntervalOutOfRange) == "interval out of valid range"@,
        model::message(RecurringError::CounterOverflow) == "attempt to add with overflow"@,
        model::message(RecurringError::NextPaymentOverflow) == "next_payment timestamp overflow"@,
        model::message(RecurringError::PaymentNotFound) == "payment not found"@,
        model::message(RecurringError::AdminNotFound) == "admin not found"@,
        model::message(RecurringError::Unauthorized) == "unauthorized"@,
        model::message(RecurringError::NotActive) == "payment not active"@,
        model::message(RecurringError::TooEarly) == "too early"@,
        model::message(RecurringError::MaxPaymentsReached) == "max payments reached"@,
        model::message(RecurringError::TotalOverflow) == "attempt to add with overflow"@,
        model::message(RecurringError::CannotPause) == "can only pause an active payment"@,
        model::message(RecurringError::NotPaused) == "payment is not paused"@,
{
}

} // verus!
