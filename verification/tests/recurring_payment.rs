use pulsar_contracts::address::Address;
use pulsar_contracts::admin::AdminRequest;
use pulsar_contracts::host::HostCall;
use pulsar_contracts::recurring_payment::{
    Call, DataKey, Event, Outward, RecurringError, RecurringPayment, RecurringPaymentContract,
    RecurringStatus, Value, MAX_INTERVAL_SECS,
};

const ADMIN: Address = Address::Account([1u8; 32]);
const PAYER: Address = Address::Account([2u8; 32]);
const RECIPIENT: Address = Address::Contract([3u8; 32]);
const TOKEN: Address = Address::Contract([4u8; 32]);
const STRANGER: Address = Address::Account([5u8; 32]);
const NOW: u64 = 1_000_000;
const DAY: u64 = 86_400;

fn renewal() -> Call {
    HostCall::ExtendInstanceTtl { threshold: 17_280, extend_to: 86_400 }
}

fn opening(caller: Address) -> Vec<Call> {
    vec![renewal(), HostCall::RequireAuth { address: caller }]
}

fn filing(payment: RecurringPayment) -> Vec<Call> {
    let key = DataKey::Payment(payment.payment_id);
    vec![
        HostCall::SetPersistent { key, value: Value::Payment(payment) },
        HostCall::ExtendPersistentTtl { key, threshold: 120_960, extend_to: 1_051_200 },
    ]
}

fn transfer(payment: RecurringPayment) -> Call {
    HostCall::Outward {
        request: Outward::TransferFrom {
            token: payment.token,
            from: payment.payer,
            to: payment.recipient,
            amount: payment.amount,
        },
    }
}

fn set_up() -> RecurringPaymentContract {
    let mut contract = RecurringPaymentContract::new();
    assert_eq!(contract.initialize(ADMIN).value, Ok(()));
    contract
}

fn with_payment(max_payments: Option<u32>) -> RecurringPaymentContract {
    let mut contract = set_up();
    let made = contract.create_recurring(NOW, PAYER, RECIPIENT, TOKEN, 500, DAY, max_payments);
    assert_eq!(made.value, Ok(1));
    contract
}

fn payment(contract: &RecurringPaymentContract, id: u64) -> RecurringPayment {
    contract.get_payment(id).value.unwrap()
}

fn first(max_payments: Option<u32>) -> RecurringPayment {
    RecurringPayment {
        payment_id: 1,
        payer: PAYER,
        recipient: RECIPIENT,
        token: TOKEN,
        amount: 500,
        interval_secs: 86_400,
        max_payments,
        total_payments: 0,
        status: RecurringStatus::Active,
        created_at: 1_000_000,
        last_payment: 1_000_000,
        next_payment: 1_086_400,
    }
}

#[test]
fn recurring_initialize() {
    let mut contract = RecurringPaymentContract::new();
    let outcome = contract.initialize(ADMIN);
    assert_eq!(outcome.value, Ok(()));
    assert_eq!(
        outcome.calls,
        vec![
            renewal(),
            HostCall::RequireAuth { address: ADMIN },
            HostCall::SetInstance { key: DataKey::Admin, value: Value::Address(ADMIN) },
            HostCall::SetInstance { key: DataKey::PaymentCounter, value: Value::Counter(0) },
        ]
    );
    assert_eq!(contract.admin, Some(ADMIN));
    assert_eq!(contract.pending_admin, None);
    assert_eq!(contract.payment_counter, Some(0));
}

#[test]
fn recurring_initialize_twice() {
    let mut contract = with_payment(None);
    let outcome = contract.initialize(STRANGER);
    assert_eq!(outcome.value, Err(RecurringError::AlreadyInitialized));
    assert_eq!(outcome.calls, vec![renewal()]);
    assert_eq!(contract.admin, Some(ADMIN));
    assert_eq!(contract.payment_counter, Some(1));
}

#[test]
fn create_recurring_files_the_payment() {
    let mut contract = set_up();
    let outcome = contract.create_recurring(NOW, PAYER, RECIPIENT, TOKEN, 500, DAY, Some(3));
    assert_eq!(outcome.value, Ok(1));
    let mut want = opening(PAYER);
    want.extend(filing(first(Some(3))));
    want.push(HostCall::SetInstance { key: DataKey::PaymentCounter, value: Value::Counter(1) });
    assert_eq!(outcome.calls, want);
    let found = contract.get_payment(1);
    assert_eq!(found.value, Some(first(Some(3))));
    assert_eq!(found.calls, vec![renewal()]);
    assert_eq!(contract.get_payment(2).value, None);
}

#[test]
fn payments_are_numbered_in_order() {
    let mut contract = with_payment(None);
    for id in 2u64..6 {
        let made = contract.create_recurring(NOW + id, PAYER, STRANGER, TOKEN, 1, 1, None);
        assert_eq!(made.value, Ok(id));
        assert_eq!(payment(&contract, id).payment_id, id);
        assert_eq!(payment(&contract, id).next_payment, NOW + id + 1);
    }
    assert_eq!(payment(&contract, 1), first(None));
}

#[test]
fn create_recurring_before_set_up() {
    let mut contract = RecurringPaymentContract::new();
    let made = contract.create_recurring(NOW, PAYER, RECIPIENT, TOKEN, 500, DAY, None);
    assert_eq!(made.value, Ok(1));
    assert_eq!(contract.payment_counter, Some(1));
    assert_eq!(contract.initialize(ADMIN).value, Ok(()));
    assert_eq!(payment(&contract, 1), first(None));
    let again = contract.create_recurring(NOW, STRANGER, RECIPIENT, TOKEN, 7, DAY, None);
    assert_eq!(again.value, Ok(1));
    assert_eq!(payment(&contract, 1).payer, STRANGER);
}

#[test]
fn create_recurring_refuses_amounts() {
    let mut contract = set_up();
    for amount in [0i128, -1, i128::MIN] {
        let outcome = contract.create_recurring(NOW, PAYER, RECIPIENT, TOKEN, amount, 0, None);
        assert_eq!(outcome.value, Err(RecurringError::InvalidAmount));
        assert_eq!(outcome.calls, opening(PAYER));
    }
    assert_eq!(contract.get_payment(1).value, None);
    assert_eq!(contract.payment_counter, Some(0));
}

#[test]
fn create_recurring_keeps_intervals_within_a_year() {
    assert_eq!(MAX_INTERVAL_SECS, 31_536_000);
    let mut contract = set_up();
    for interval in [0u64, 31_536_001, u64::MAX] {
        let outcome = contract.create_recurring(NOW, PAYER, RECIPIENT, TOKEN, 1, interval, None);
        assert_eq!(outcome.value, Err(RecurringError::IntervalOutOfRange));
        assert_eq!(outcome.calls, opening(PAYER));
    }
    let longest = contract.create_recurring(NOW, PAYER, RECIPIENT, TOKEN, 1, 31_536_000, None);
    assert_eq!(longest.value, Ok(1));
    assert_eq!(payment(&contract, 1).next_payment, 32_536_000);
    let shortest = contract.create_recurring(NOW, PAYER, RECIPIENT, TOKEN, 1, 1, None);
    assert_eq!(shortest.value, Ok(2));
    assert_eq!(payment(&contract, 2).next_payment, 1_000_001);
}

#[test]
fn create_recurring_at_the_end_of_the_clock() {
    let mut contract = set_up();
    let late = contract.create_recurring(u64::MAX - 9, PAYER, RECIPIENT, TOKEN, 1, 10, None);
    assert_eq!(late.value, Err(RecurringError::NextPaymentOverflow));
    assert_eq!(late.calls, opening(PAYER));
    let last = contract.create_recurring(u64::MAX - 10, PAYER, RECIPIENT, TOKEN, 1, 10, None);
    assert_eq!(last.value, Ok(1));
    assert_eq!(payment(&contract, 1).next_payment, u64::MAX);
}

#[test]
fn create_recurring_at_the_last_id() {
    let mut contract = set_up();
    contract.payment_counter = Some(u64::MAX);
    let outcome = contract.create_recurring(u64::MAX, PAYER, RECIPIENT, TOKEN, 1, 10, None);
    assert_eq!(outcome.value, Err(RecurringError::CounterOverflow));
    assert_eq!(outcome.calls, opening(PAYER));
}

#[test]
fn execute_payment_moves_the_money_and_the_schedule() {
    let mut contract = with_payment(Some(3));
    let outcome = contract.execute_payment(1_086_400, PAYER, 1);
    assert_eq!(outcome.value, Ok(()));
    let paid = RecurringPayment {
        total_payments: 1,
        last_payment: 1_086_400,
        next_payment: 1_172_800,
        ..first(Some(3))
    };
    let mut want = opening(PAYER);
    want.push(transfer(paid));
    want.extend(filing(paid));
    want.push(HostCall::Outward {
        request: Outward::Publish(Event::Paid { payment_id: 1, amount: 500 }),
    });
    assert_eq!(outcome.calls, want);
    assert_eq!(payment(&contract, 1), paid);
}

#[test]
fn a_late_payment_shifts_the_schedule() {
    let mut contract = with_payment(None);
    assert_eq!(contract.execute_payment(2_000_000, RECIPIENT, 1).value, Ok(()));
    assert_eq!(payment(&contract, 1).last_payment, 2_000_000);
    assert_eq!(payment(&contract, 1).next_payment, 2_086_400);
}

#[test]
fn who_can_execute_a_payment() {
    for caller in [PAYER, RECIPIENT, ADMIN] {
        let mut contract = with_payment(None);
        let outcome = contract.execute_payment(1_086_400, caller, 1);
        assert_eq!(outcome.value, Ok(()));
        assert_eq!(outcome.calls[..2], opening(caller)[..]);
    }
    let mut contract = with_payment(None);
    let outcome = contract.execute_payment(1_086_400, STRANGER, 1);
    assert_eq!(outcome.value, Err(RecurringError::Unauthorized));
    assert_eq!(outcome.calls, opening(STRANGER));
    contract.admin = None;
    let outcome = contract.execute_payment(1_086_400, STRANGER, 1);
    assert_eq!(outcome.value, Err(RecurringError::AdminNotFound));
    assert_eq!(contract.execute_payment(1_086_400, RECIPIENT, 1).value, Ok(()));
}

#[test]
fn execute_payment_not_found() {
    let mut contract = with_payment(None);
    let outcome = contract.execute_payment(1_086_400, PAYER, 2);
    assert_eq!(outcome.value, Err(RecurringError::PaymentNotFound));
    assert_eq!(outcome.calls, opening(PAYER));
}

#[test]
fn execute_payment_too_early() {
    let mut contract = with_payment(None);
    let outcome = contract.execute_payment(1_086_399, PAYER, 1);
    assert_eq!(outcome.value, Err(RecurringError::TooEarly));
    assert_eq!(outcome.calls, opening(PAYER));
    assert_eq!(payment(&contract, 1), first(None));
}

#[test]
fn an_interval_lies_between_payments() {
    let mut contract = with_payment(None);
    assert_eq!(contract.execute_payment(1_090_000, PAYER, 1).value, Ok(()));
    assert_eq!(
        contract.execute_payment(1_176_399, ADMIN, 1).value,
        Err(RecurringError::TooEarly)
    );
    assert_eq!(contract.execute_payment(1_176_400, ADMIN, 1).value, Ok(()));
}

#[test]
fn an_interval_before_the_first_payment() {
    let mut contract = with_payment(None);
    assert_eq!(payment(&contract, 1).created_at, NOW);
    assert_eq!(
        contract.execute_payment(NOW + DAY - 1, ADMIN, 1).value,
        Err(RecurringError::TooEarly)
    );
    assert_eq!(contract.execute_payment(NOW + DAY, ADMIN, 1).value, Ok(()));
}

#[test]
fn payments_stay_on_schedule() {
    let mut contract = with_payment(None);
    let mut clock: u64 = NOW;
    for step in [90_000u64, 86_400, 500_000] {
        clock += step;
        assert_eq!(contract.execute_payment(clock, PAYER, 1).value, Ok(()));
        assert_eq!(contract.pause_payment(PAYER, 1).value, Ok(()));
        clock += 1_000;
        assert_eq!(contract.resume_payment(clock, PAYER, 1).value, Ok(()));
        let now = payment(&contract, 1);
        assert!(now.created_at <= now.last_payment);
        assert!(now.last_payment + now.interval_secs <= now.next_payment);
        assert!(now.next_payment <= clock + now.interval_secs);
    }
}

#[test]
fn the_agreed_amount_is_charged_each_time() {
    let mut contract = with_payment(Some(3));
    let mut charged: i128 = 0;
    for day in 1u64..6 {
        let outcome = contract.execute_payment(NOW + day * DAY, PAYER, 1);
        if outcome.value.is_ok() {
            for call in &outcome.calls {
                if let HostCall::Outward { request: Outward::TransferFrom { amount, .. } } = call {
                    charged += amount;
                }
            }
        }
    }
    assert_eq!(payment(&contract, 1).total_payments, 3);
    assert_eq!(charged, 1_500);
}

#[test]
fn a_paused_payment_is_not_made_until_it_is_resumed() {
    let mut contract = with_payment(None);
    assert_eq!(contract.pause_payment(PAYER, 1).value, Ok(()));
    for caller in [PAYER, RECIPIENT, ADMIN] {
        assert_eq!(
            contract.execute_payment(9_000_000, caller, 1).value,
            Err(RecurringError::NotActive)
        );
    }
    assert_eq!(contract.resume_payment(9_000_000, PAYER, 1).value, Ok(()));
    assert_eq!(contract.execute_payment(9_086_400, PAYER, 1).value, Ok(()));
    assert_eq!(payment(&contract, 1).total_payments, 1);
}

#[test]
fn payments_are_counted_up_to_the_limit() {
    let mut contract = with_payment(Some(2));
    assert_eq!(contract.execute_payment(1_086_400, PAYER, 1).value, Ok(()));
    assert_eq!(contract.execute_payment(1_172_800, PAYER, 1).value, Ok(()));
    let before = payment(&contract, 1);
    assert_eq!(before.total_payments, 2);
    let outcome = contract.execute_payment(1_259_200, PAYER, 1);
    assert_eq!(outcome.value, Err(RecurringError::MaxPaymentsReached));
    let mut want = opening(PAYER);
    want.extend(filing(RecurringPayment { status: RecurringStatus::Cancelled, ..before }));
    assert_eq!(outcome.calls, want);
    assert_eq!(payment(&contract, 1), before);
    assert_eq!(before.status, RecurringStatus::Active);
}

#[test]
fn a_limit_of_none_at_all() {
    let mut contract = with_payment(Some(0));
    assert_eq!(
        contract.execute_payment(1_086_400, PAYER, 1).value,
        Err(RecurringError::MaxPaymentsReached)
    );
}

#[test]
fn execute_payment_at_the_end_of_the_clock() {
    let mut contract = with_payment(None);
    let outcome = contract.execute_payment(u64::MAX - 86_399, PAYER, 1);
    assert_eq!(outcome.value, Err(RecurringError::NextPaymentOverflow));
    let mut want = opening(PAYER);
    want.push(transfer(first(None)));
    assert_eq!(outcome.calls, want);
    assert_eq!(payment(&contract, 1), first(None));
    assert_eq!(contract.execute_payment(u64::MAX - 86_400, PAYER, 1).value, Ok(()));
    assert_eq!(payment(&contract, 1).next_payment, u64::MAX);
}

#[test]
fn execute_payment_at_the_last_count() {
    let mut contract = with_payment(None);
    let worn = RecurringPayment { total_payments: u32::MAX, ..first(None) };
    contract.payments.set(1, worn);
    let outcome = contract.execute_payment(1_086_400, PAYER, 1);
    assert_eq!(outcome.value, Err(RecurringError::TotalOverflow));
    let mut want = opening(PAYER);
    want.push(transfer(worn));
    assert_eq!(outcome.calls, want);
    assert_eq!(payment(&contract, 1), worn);
}

#[test]
fn pause_and_resume() {
    let mut contract = with_payment(None);
    let paused = RecurringPayment { status: RecurringStatus::Paused, ..first(None) };
    let outcome = contract.pause_payment(PAYER, 1);
    assert_eq!(outcome.value, Ok(()));
    let mut want = opening(PAYER);
    want.extend(filing(paused));
    assert_eq!(outcome.calls, want);
    assert_eq!(payment(&contract, 1), paused);
    assert_eq!(
        contract.execute_payment(1_086_400, PAYER, 1).value,
        Err(RecurringError::NotActive)
    );
    let resumed = RecurringPayment { next_payment: 3_086_400, ..first(None) };
    let outcome = contract.resume_payment(3_000_000, PAYER, 1);
    assert_eq!(outcome.value, Ok(()));
    let mut want = opening(PAYER);
    want.extend(filing(resumed));
    assert_eq!(outcome.calls, want);
    assert_eq!(payment(&contract, 1), resumed);
}

#[test]
fn only_the_payer_pauses_resumes_and_cancels() {
    let mut contract = with_payment(None);
    for caller in [RECIPIENT, ADMIN, STRANGER] {
        let paused = contract.pause_payment(caller, 1);
        assert_eq!(paused.value, Err(RecurringError::Unauthorized));
        assert_eq!(paused.calls, opening(caller));
        let resumed = contract.resume_payment(NOW, caller, 1);
        assert_eq!(resumed.value, Err(RecurringError::Unauthorized));
        assert_eq!(resumed.calls, opening(caller));
        let cancelled = contract.cancel_payment(caller, 1);
        assert_eq!(cancelled.value, Err(RecurringError::Unauthorized));
        assert_eq!(cancelled.calls, opening(caller));
    }
    assert_eq!(payment(&contract, 1), first(None));
}

#[test]
fn pause_resume_and_cancel_not_found() {
    let mut contract = with_payment(None);
    assert_eq!(contract.pause_payment(PAYER, 2).value, Err(RecurringError::PaymentNotFound));
    assert_eq!(
        contract.resume_payment(NOW, PAYER, 2).value,
        Err(RecurringError::PaymentNotFound)
    );
    assert_eq!(contract.cancel_payment(PAYER, 2).value, Err(RecurringError::PaymentNotFound));
}

#[test]
fn only_an_active_payment_is_paused_and_only_a_paused_one_resumed() {
    let mut contract = with_payment(None);
    assert_eq!(contract.resume_payment(NOW, PAYER, 1).value, Err(RecurringError::NotPaused));
    assert_eq!(contract.pause_payment(PAYER, 1).value, Ok(()));
    assert_eq!(contract.pause_payment(PAYER, 1).value, Err(RecurringError::CannotPause));
    assert_eq!(contract.cancel_payment(PAYER, 1).value, Ok(()));
    assert_eq!(contract.pause_payment(PAYER, 1).value, Err(RecurringError::CannotPause));
    assert_eq!(contract.resume_payment(NOW, PAYER, 1).value, Err(RecurringError::NotPaused));
}

#[test]
fn resume_at_the_end_of_the_clock() {
    let mut contract = with_payment(None);
    assert_eq!(contract.pause_payment(PAYER, 1).value, Ok(()));
    let outcome = contract.resume_payment(u64::MAX - 86_399, PAYER, 1);
    assert_eq!(outcome.value, Err(RecurringError::NextPaymentOverflow));
    assert_eq!(outcome.calls, opening(PAYER));
    assert_eq!(payment(&contract, 1).status, RecurringStatus::Paused);
    assert_eq!(contract.resume_payment(u64::MAX - 86_400, PAYER, 1).value, Ok(()));
}

#[test]
fn a_cancelled_payment_is_never_made_again() {
    let mut contract = with_payment(None);
    let cancelled = RecurringPayment { status: RecurringStatus::Cancelled, ..first(None) };
    let outcome = contract.cancel_payment(PAYER, 1);
    assert_eq!(outcome.value, Ok(()));
    let mut want = opening(PAYER);
    want.extend(filing(cancelled));
    assert_eq!(outcome.calls, want);
    assert_eq!(
        contract.execute_payment(1_086_400, PAYER, 1).value,
        Err(RecurringError::NotActive)
    );
    assert_eq!(contract.cancel_payment(PAYER, 1).value, Ok(()));
    assert_eq!(payment(&contract, 1), cancelled);
}

#[test]
fn other_payments_are_untouched() {
    let mut contract = with_payment(None);
    assert_eq!(
        contract.create_recurring(NOW, PAYER, STRANGER, TOKEN, 7, DAY, None).value,
        Ok(2)
    );
    assert_eq!(contract.execute_payment(1_086_400, PAYER, 2).value, Ok(()));
    assert_eq!(contract.pause_payment(PAYER, 2).value, Ok(()));
    assert_eq!(contract.resume_payment(1_086_500, PAYER, 2).value, Ok(()));
    assert_eq!(contract.cancel_payment(PAYER, 2).value, Ok(()));
    assert_eq!(payment(&contract, 1), first(None));
    assert_eq!(payment(&contract, 2).total_payments, 1);
}

#[test]
fn terms_stay_as_agreed() {
    let mut contract = with_payment(Some(5));
    assert_eq!(contract.execute_payment(1_086_400, PAYER, 1).value, Ok(()));
    assert_eq!(contract.pause_payment(PAYER, 1).value, Ok(()));
    assert_eq!(contract.resume_payment(1_100_000, PAYER, 1).value, Ok(()));
    let now = payment(&contract, 1);
    assert_eq!(
        now,
        RecurringPayment {
            total_payments: 1,
            last_payment: 1_086_400,
            next_payment: 1_186_400,
            ..first(Some(5))
        }
    );
}

/// Files what the calls file, as the host does.
fn carry_out(ledger: &mut RecurringPaymentContract, calls: &Vec<Call>) {
    for call in calls {
        match call {
            HostCall::SetInstance { key: DataKey::Admin, value: Value::Address(admin) } => {
                ledger.admin = Some(*admin);
            }
            HostCall::SetInstance {
                key: DataKey::PaymentCounter,
                value: Value::Counter(counter),
            } => {
                ledger.payment_counter = Some(*counter);
            }
            HostCall::SetPersistent {
                key: DataKey::Payment(id),
                value: Value::Payment(payment),
            } => {
                ledger.payments.set(*id, *payment);
            }
            HostCall::SetInstance { .. } | HostCall::SetPersistent { .. } => unreachable!(),
            _ => {}
        }
    }
}

#[test]
fn the_requests_make_the_ledger() {
    let mut contract = RecurringPaymentContract::new();
    let mut ledger = RecurringPaymentContract::new();
    carry_out(&mut ledger, &contract.initialize(ADMIN).calls);
    let made = contract.create_recurring(NOW, PAYER, RECIPIENT, TOKEN, 500, DAY, None);
    carry_out(&mut ledger, &made.calls);
    carry_out(&mut ledger, &contract.execute_payment(1_086_400, PAYER, 1).calls);
    carry_out(&mut ledger, &contract.pause_payment(PAYER, 1).calls);
    carry_out(&mut ledger, &contract.resume_payment(1_100_000, PAYER, 1).calls);
    assert_eq!(ledger.admin, contract.admin);
    assert_eq!(ledger.payment_counter, contract.payment_counter);
    assert_eq!(payment(&ledger, 1), payment(&contract, 1));
}

#[test]
fn recurring_administrators_are_handed_over_by_the_shared_library() {
    assert_eq!(
        RecurringPaymentContract::propose_admin(ADMIN, STRANGER),
        AdminRequest::Propose {
            admin_key: DataKey::Admin,
            pending_key: DataKey::PendingAdmin,
            current_admin: ADMIN,
            new_admin: STRANGER,
        }
    );
    assert_eq!(
        RecurringPaymentContract::accept_admin(STRANGER),
        AdminRequest::Accept {
            admin_key: DataKey::Admin,
            pending_key: DataKey::PendingAdmin,
            new_admin: STRANGER,
        }
    );
}

#[test]
fn recurring_topics_and_messages() {
    assert_eq!(Event::Paid { payment_id: 1, amount: 2 }.topics(), ("recurring", "paid"));
    let messages = [
        (RecurringError::AlreadyInitialized, "already initialized"),
        (RecurringError::InvalidAmount, "invalid amount"),
        (RecurringError::IntervalOutOfRange, "interval out of valid range"),
        (RecurringError::CounterOverflow, "attempt to add with overflow"),
        (RecurringError::NextPaymentOverflow, "next_payment timestamp overflow"),
        (RecurringError::PaymentNotFound, "payment not found"),
        (RecurringError::AdminNotFound, "admin not found"),
        (RecurringError::Unauthorized, "unauthorized"),
        (RecurringError::NotActive, "payment not active"),
        (RecurringError::TooEarly, "too early"),
        (RecurringError::MaxPaymentsReached, "max payments reached"),
        (RecurringError::TotalOverflow, "attempt to add with overflow"),
        (RecurringError::CannotPause, "can only pause an active payment"),
        (RecurringError::NotPaused, "payment is not paused"),
    ];
    for (error, message) in messages {
        assert_eq!(error.message(), message);
    }
}
