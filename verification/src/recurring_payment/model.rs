//! What the recurring payments are: their ledger, and what each call makes of
//! it.

use crate::address::Address;
use crate::host::{HostCall, Step};
use crate::recurring_payment::{
    Call, DataKey, Event, Outward, RecurringError, RecurringPayment, RecurringStatus, Value,
};
use vstd::prelude::*;

verus! {

/// The ledger of the recurring payments.
#[verifier::ext_equal]
pub struct Ledger {
    pub admin: Option<Address>,
    pub pending_admin: Option<Address>,
    pub payment_counter: Option<u64>,
    pub payments: Map<u64, RecurringPayment>,
}

impl Ledger {
    /// The id of the latest payment; 0 where there is none.
    pub open spec fn last_payment_id(self) -> u64 {
        match self.payment_counter {
            Some(counter) => counter,
            None => 0,
        }
    }

    /// The ledger with `payment` filed under its id.
    pub open spec fn with_payment(self, payment_id: u64, payment: RecurringPayment) -> Ledger {
        Ledger { payments: self.payments.insert(payment_id, payment), ..self }
    }
}

/// The filing of a payment.
pub open spec fn filing(payment_id: u64, payment: RecurringPayment) -> Seq<Call> {
    crate::host::filing(DataKey::Payment(payment_id), Value::Payment(payment))
}

/// The setting up of the contract.
pub open spec fn initialize(s: Ledger, admin: Address) -> Step<
    Ledger,
    Call,
    Result<(), RecurringError>,
> {
    if s.admin is Some {
        Step {
            state: s,
            calls: seq![crate::host::renewal()],
            value: Err(RecurringError::AlreadyInitialized),
        }
    } else {
        Step {
            state: Ledger { admin: Some(admin), payment_counter: Some(0), ..s },
            calls: crate::host::opening(admin) + seq![
                HostCall::SetInstance { key: DataKey::Admin, value: Value::Address(admin) },
                HostCall::SetInstance { key: DataKey::PaymentCounter, value: Value::Counter(0) },
            ],
            value: Ok(()),
        }
    }
}

/// Why a payment is not set up: the first of the checks that fails.
pub open spec fn create_refusal(
    s: Ledger,
    now: u64,
    amount: i128,
    interval_secs: u64,
) -> Option<RecurringError> {
    if amount <= 0 {
        Some(RecurringError::InvalidAmount)
    } else if !(0 < interval_secs <= crate::recurring_payment::MAX_INTERVAL_SECS) {
        Some(RecurringError::IntervalOutOfRange)
    } else if s.last_payment_id() == u64::MAX {
        Some(RecurringError::CounterOverflow)
    } else if now + interval_secs > u64::MAX {
        Some(RecurringError::NextPaymentOverflow)
    } else {
        None
    }
}

/// The setting up of a payment.
pub open spec fn create(
    s: Ledger,
    now: u64,
    payer: Address,
    recipient: Address,
    token: Address,
    amount: i128,
    interval_secs: u64,
    max_payments: Option<u32>,
) -> Step<Ledger, Call, Result<u64, RecurringError>> {
    let opened = crate::host::opening(payer);
    match create_refusal(s, now, amount, interval_secs) {
        Some(error) => Step { state: s, calls: opened, value: Err(error) },
        None => {
            let payment_id = (s.last_payment_id() + 1) as u64;
            let recurring = RecurringPayment {
                payment_id,
                payer,
                recipient,
                token,
                amount,
                interval_secs,
                max_payments,
                total_payments: 0,
                status: RecurringStatus::Active,
                created_at: now,
                last_payment: now,
                next_payment: (now + interval_secs) as u64,
            };
            Step {
                state: Ledger {
                    payment_counter: Some(payment_id),
                    ..s.with_payment(payment_id, recurring)
                },
                calls: (opened + filing(payment_id, recurring)).push(
                    HostCall::SetInstance {
                        key: DataKey::PaymentCounter,
                        value: Value::Counter(payment_id),
                    },
                ),
                value: Ok(payment_id),
            }
        },
    }
}

/// Whether a payment has been made as often as it may.
pub open spec fn used_up(payment: RecurringPayment) -> bool {
    match payment.max_payments {
        Some(max) => payment.total_payments >= max,
        None => false,
    }
}

/// The request to move the money of a payment.
pub open spec fn transfer(payment: RecurringPayment) -> Call {
    HostCall::Outward {
        request: Outward::TransferFrom {
            token: payment.token,
            from: payment.payer,
            to: payment.recipient,
            amount: payment.amount,
        },
    }
}

/// Why a payment is not made, as far as nothing is filed or moved for it: the
/// first of the checks that fails.
pub open spec fn execute_refusal(
    s: Ledger,
    now: u64,
    caller: Address,
    payment_id: u64,
) -> Option<RecurringError> {
    if !s.payments.contains_key(payment_id) {
        Some(RecurringError::PaymentNotFound)
    } else {
        let payment = s.payments[payment_id];
        let party = caller == payment.payer || caller == payment.recipient;
        if !party && s.admin is None {
            Some(RecurringError::AdminNotFound)
        } else if !party && s.admin != Some(caller) {
            Some(RecurringError::Unauthorized)
        } else if payment.status != RecurringStatus::Active {
            Some(RecurringError::NotActive)
        } else if now < payment.next_payment {
            Some(RecurringError::TooEarly)
        } else {
            None
        }
    }
}

/// The making of a payment. One that has been made as often as it may is filed
/// as cancelled before the call fails, and the failure undoes that again.
pub open spec fn execute(s: Ledger, now: u64, caller: Address, payment_id: u64) -> Step<
    Ledger,
    Call,
    Result<(), RecurringError>,
> {
    let opened = crate::host::opening(caller);
    match execute_refusal(s, now, caller, payment_id) {
        Some(error) => Step { state: s, calls: opened, value: Err(error) },
        None => {
            let payment = s.payments[payment_id];
            let moved = opened.push(transfer(payment));
            let paid = RecurringPayment {
                total_payments: (payment.total_payments + 1) as u32,
                last_payment: now,
                next_payment: (now + payment.interval_secs) as u64,
                ..payment
            };
            if used_up(payment) {
                Step {
                    state: s,
                    calls: opened + filing(
                        payment_id,
                        RecurringPayment { status: RecurringStatus::Cancelled, ..payment },
                    ),
                    value: Err(RecurringError::MaxPaymentsReached),
                }
            } else if payment.total_payments == u32::MAX {
                Step { state: s, calls: moved, value: Err(RecurringError::TotalOverflow) }
            } else if now + payment.interval_secs > u64::MAX {
                Step { state: s, calls: moved, value: Err(RecurringError::NextPaymentOverflow) }
            } else {
                Step {
                    state: s.with_payment(payment_id, paid),
                    calls: (moved + filing(payment_id, paid)).push(
                        HostCall::Outward {
                            request: Outward::Publish(
                                Event::Paid { payment_id, amount: payment.amount },
                            ),
                        },
                    ),
                    value: Ok(()),
                }
            }
        },
    }
}

/// Why `caller` may not do what is the payer's.
pub open spec fn payer_refusal(s: Ledger, caller: Address, payment_id: u64) -> Option<
    RecurringError,
> {
    if !s.payments.contains_key(payment_id) {
        Some(RecurringError::PaymentNotFound)
    } else if s.payments[payment_id].payer != caller {
        Some(RecurringError::Unauthorized)
    } else {
        None
    }
}

/// What a call comes to that files `changed` in place of a payment, or is
/// refused.
pub open spec fn change(
    s: Ledger,
    payer: Address,
    payment_id: u64,
    refusal: Option<RecurringError>,
    changed: RecurringPayment,
) -> Step<Ledger, Call, Result<(), RecurringError>> {
    let opened = crate::host::opening(payer);
    match refusal {
        Some(error) => Step { state: s, calls: opened, value: Err(error) },
        None => Step {
            state: s.with_payment(payment_id, changed),
            calls: opened + filing(payment_id, changed),
            value: Ok(()),
        },
    }
}

/// Why a payment is not paused.
pub open spec fn pause_refusal(s: Ledger, payer: Address, payment_id: u64) -> Option<
    RecurringError,
> {
    if payer_refusal(s, payer, payment_id) is Some {
        payer_refusal(s, payer, payment_id)
    } else if s.payments[payment_id].status != RecurringStatus::Active {
        Some(RecurringError::CannotPause)
    } else {
        None
    }
}

/// The pausing of a payment.
pub open spec fn pause(s: Ledger, payer: Address, payment_id: u64) -> Step<
    Ledger,
    Call,
    Result<(), RecurringError>,
> {
    change(
        s,
        payer,
        payment_id,
        pause_refusal(s, payer, payment_id),
        RecurringPayment { status: RecurringStatus::Paused, ..s.payments[payment_id] },
    )
}

/// Why a payment is not resumed.
pub open spec fn resume_refusal(s: Ledger, now: u64, payer: Address, payment_id: u64) -> Option<
    RecurringError,
> {
    if payer_refusal(s, payer, payment_id) is Some {
        payer_refusal(s, payer, payment_id)
    } else if s.payments[payment_id].status != RecurringStatus::Paused {
        Some(RecurringError::NotPaused)
    } else if now + s.payments[payment_id].interval_secs > u64::MAX {
        Some(RecurringError::NextPaymentOverflow)
    } else {
        None
    }
}

/// The resumption of a payment: it is due a full interval from now.
pub open spec fn resume(s: Ledger, now: u64, payer: Address, payment_id: u64) -> Step<
    Ledger,
    Call,
    Result<(), RecurringError>,
> {
    change(
        s,
        payer,
        payment_id,
        resume_refusal(s, now, payer, payment_id),
        RecurringPayment {
            status: RecurringStatus::Active,
            next_payment: (now + s.payments[payment_id].interval_secs) as u64,
            ..s.payments[payment_id]
        },
    )
}

/// The cancellation of a payment, whatever its status.
pub open spec fn cancel(s: Ledger, payer: Address, payment_id: u64) -> Step<
    Ledger,
    Call,
    Result<(), RecurringError>,
> {
    change(
        s,
        payer,
        payment_id,
        payer_refusal(s, payer, payment_id),
        RecurringPayment { status: RecurringStatus::Cancelled, ..s.payments[payment_id] },
    )
}

/// The requests of a call that only reads.
pub open spec fn reading() -> Seq<Call> {
    seq![crate::host::renewal()]
}

/// The payment of that id.
pub open spec fn payment(s: Ledger, payment_id: u64) -> Option<RecurringPayment> {
    if s.payments.contains_key(payment_id) {
        Some(s.payments[payment_id])
    } else {
        None
    }
}

/// What the host reports of a failed call.
pub open spec fn message(error: RecurringError) -> Seq<char> {
    match error {
        RecurringError::AlreadyInitialized => "already initialized"@,
        RecurringError::InvalidAmount => "invalid amount"@,
        RecurringError::IntervalOutOfRange => "interval out of valid range"@,
        RecurringError::CounterOverflow => "attempt to add with overflow"@,
        RecurringError::NextPaymentOverflow => "next_payment timestamp overflow"@,
        RecurringError::PaymentNotFound => "payment not found"@,
        RecurringError::AdminNotFound => "admin not found"@,
        RecurringError::Unauthorized => "unauthorized"@,
        RecurringError::NotActive => "payment not active"@,
        RecurringError::TooEarly => "too early"@,
        RecurringError::MaxPaymentsReached => "max payments reached"@,
        RecurringError::TotalOverflow => "attempt to add with overflow"@,
        RecurringError::CannotPause => "can only pause an active payment"@,
        RecurringError::NotPaused => "payment is not paused"@,
    }
}

} // verus!
