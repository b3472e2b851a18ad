//! Automated recurring payment subscriptions for ad campaigns.

use crate::address::Address;
use crate::admin::AdminRequest;
use crate::host::{ask, begin, begin_as, file, HostCall, Label, Outcome};
use crate::table::Table;
use vstd::prelude::*;

pub mod laws;
pub mod model;
pub mod promises;

verus! {

/// The longest interval between two payments: a year.
pub const MAX_INTERVAL_SECS: u64 = 31_536_000;

/// Where a payment stands.
#[derive(Clone, Copy, PartialEq, Eq, Structural, Debug)]
pub enum RecurringStatus {
    Active,
    Paused,
    Cancelled,
    Failed,
}

/// A payment that is made again and again.
#[derive(Clone, Copy, PartialEq, Eq, Debug)]
pub struct RecurringPayment {
    pub payment_id: u64,
    pub payer: Address,
    pub recipient: Address,
    pub token: Address,
    pub amount: i128,
    pub interval_secs: u64,
    /// How often the payment may be made; without a limit where there is none.
    pub max_payments: Option<u32>,
    /// How often the payment has been made.
    pub total_payments: u32,
    pub status: RecurringStatus,
    pub created_at: u64,
    pub last_payment: u64,
    /// When the payment is due next.
    pub next_payment: u64,
}

impl View for RecurringPayment {
    type V = RecurringPayment;

    open spec fn view(&self) -> RecurringPayment {
        *self
    }
}

/// What an entry of the ledger is filed under.
#[derive(Clone, Copy, PartialEq, Eq, Debug)]
pub enum DataKey {
    Admin,
    PendingAdmin,
    PaymentCounter,
    Payment(u64),
}

impl View for DataKey {
    type V = DataKey;

    open spec fn view(&self) -> DataKey {
        *self
    }
}

impl Label for DataKey {
    fn again(&self) -> (label: Self) {
        *self
    }
}

/// What is filed in the ledger.
#[derive(Clone, Copy, PartialEq, Eq, Debug)]
pub enum Value {
    Address(Address),
    Counter(u64),
    Payment(RecurringPayment),
}

impl View for Value {
    type V = Value;

    open spec fn view(&self) -> Value {
        *self
    }
}

/// What is published.
#[derive(Clone, Copy, PartialEq, Eq, Debug)]
pub enum Event {
    /// A payment was made.
    Paid { payment_id: u64, amount: i128 },
}

impl Event {
    /// The topics under which the event is published.
    pub fn topics(&self) -> (topics: (&'static str, &'static str))
        ensures
            topics.0@ == "recurring"@,
            topics.1@ == "paid"@,
    {
        ("recurring", "paid")
    }
}

/// A request to the world outside.
#[derive(Clone, Copy, PartialEq, Eq, Debug)]
pub enum Outward {
    /// Have the token contract `token` move `amount` between two others, out of
    /// what the one has allowed this contract to spend.
    TransferFrom { token: Address, from: Address, to: Address, amount: i128 },
    /// Publish an event.
    Publish(Event),
}

impl View for Outward {
    type V = Outward;

    open spec fn view(&self) -> Outward {
        *self
    }
}

pub type Call = HostCall<DataKey, Value, Outward>;

/// Why a call fails.
#[derive(Clone, Copy, PartialEq, Eq, Structural, Debug)]
pub enum RecurringError {
    AlreadyInitialized,
    InvalidAmount,
    IntervalOutOfRange,
    CounterOverflow,
    NextPaymentOverflow,
    PaymentNotFound,
    AdminNotFound,
    Unauthorized,
    NotActive,
    TooEarly,
    MaxPaymentsReached,
    TotalOverflow,
    CannotPause,
    NotPaused,
}

impl RecurringError {
    /// What the host reports of the failed call.
    pub fn message(&self) -> (message: &'static str)
        ensures
            message@ == model::message(*self),
    {
        match self {
            RecurringError::AlreadyInitialized => "already initialized",
            RecurringError::InvalidAmount => "invalid amount",
            RecurringError::IntervalOutOfRange => "interval out of valid range",
            RecurringError::CounterOverflow => "attempt to add with overflow",
            RecurringError::NextPaymentOverflow => "next_payment timestamp overflow",
            RecurringError::PaymentNotFound => "payment not found",
            RecurringError::AdminNotFound => "admin not found",
            RecurringError::Unauthorized => "unauthorized",
            RecurringError::NotActive => "payment not active",
            RecurringError::TooEarly => "too early",
            RecurringError::MaxPaymentsReached => "max payments reached",
            RecurringError::TotalOverflow => "attempt to add with overflow",
            RecurringError::CannotPause => "can only pause an active payment",
            RecurringError::NotPaused => "payment is not paused",
        }
    }
}

/// The recurring payments, with their ledger.
pub struct RecurringPaymentContract {
    pub admin: Option<Address>,
    pub pending_admin: Option<Address>,
    pub payment_counter: Option<u64>,
    pub payments: Table<u64, RecurringPayment>,
}

impl View for RecurringPaymentContract {
    type V = model::Ledger;

    open spec fn view(&self) -> model::Ledger {
        model::Ledger {
            admin: self.admin,
            pending_admin: self.pending_admin,
            payment_counter: self.payment_counter,
            payments: self.payments@,
        }
    }
}

impl RecurringPaymentContract {
    /// A contract with nothing in its ledger.
    pub fn new() -> (contract: Self)
        ensures
            contract@ == (model::Ledger {
                admin: None,
                pending_admin: None,
                payment_counter: None,
                payments: Map::empty(),
            }),
    {
        RecurringPaymentContract {
            admin: None,
            pending_admin: None,
            payment_counter: None,
            payments: Table::new(),
        }
    }

    /// Sets the contract up, once.
    pub fn initialize(&mut self, admin: Address) -> (outcome: Outcome<
        Call,
        Result<(), RecurringError>,
    >)
        ensures
            ({
                let step = model::initialize(old(self)@, admin);
                &&& final(self)@ == step.state
                &&& outcome.trace() == step.calls
                &&& outcome.value == step.value
            }),
    {
        let mut calls: Vec<Call> = begin();
        if self.admin.is_some() {
            return Outcome { calls, value: Err(RecurringError::AlreadyInitialized) };
        }
        ask(&mut calls, HostCall::RequireAuth { address: admin });
        ask(
            &mut calls,
            HostCall::SetInstance { key: DataKey::Admin, value: Value::Address(admin) },
        );
        ask(
            &mut calls,
            HostCall::SetInstance { key: DataKey::PaymentCounter, value: Value::Counter(0) },
        );
        self.admin = Some(admin);
        self.payment_counter = Some(0);
        let outcome = Outcome { calls, value: Ok(()) };
        assert(outcome.trace() =~= model::initialize(old(self)@, admin).calls);
        outcome
    }

    /// Sets up a payment of `amount` every `interval_secs`, the first of them
    /// an interval from now.
    pub fn create_recurring(
        &mut self,
        now: u64,
        payer: Address,
        recipient: Address,
        token: Address,
        amount: i128,
        interval_secs: u64,
        max_payments: Option<u32>,
    ) -> (outcome: Outcome<Call, Result<u64, RecurringError>>)
        ensures
            ({
                let step = model::create(
                    old(self)@,
                    now,
                    payer,
                    recipient,
                    token,
                    amount,
                    interval_secs,
                    max_payments,
                );
                &&& final(self)@ == step.state
                &&& outcome.trace() == step.calls
                &&& outcome.value == step.value
            }),
    {
        let mut calls: Vec<Call> = begin_as(payer);
        if amount <= 0 {
            return Outcome { calls, value: Err(RecurringError::InvalidAmount) };
        }
        if interval_secs == 0 || interval_secs > MAX_INTERVAL_SECS {
            return Outcome { calls, value: Err(RecurringError::IntervalOutOfRange) };
        }
        let counter: u64 = match self.payment_counter {
            Some(counter) => counter,
            None => 0,
        };
        if counter == u64::MAX {
            return Outcome { calls, value: Err(RecurringError::CounterOverflow) };
        }
        let payment_id: u64 = counter + 1;
        let next_payment: u64 = match now.checked_add(interval_secs) {
            Some(next) => next,
            None => {
                return Outcome { calls, value: Err(RecurringError::NextPaymentOverflow) };
            },
        };
        let recurring = RecurringPayment {
            payment_id,
            payer,
            recipient,
            token,
            amount,
            interval_secs,
            max_payments,
            total_payments: 0,
            status: RecurringStatus::Active,
            created_at: now,
            last_payment: now,
            next_payment,
        };
        file(&mut calls, DataKey::Payment(payment_id), Value::Payment(recurring));
        ask(
            &mut calls,
            HostCall::SetInstance {
                key: DataKey::PaymentCounter,
                value: Value::Counter(payment_id),
            },
        );
        self.payments.set(payment_id, recurring);
        self.payment_counter = Some(payment_id);
        Outcome { calls, value: Ok(payment_id) }
    }

    /// Makes a payment that is due.
    pub fn execute_payment(&mut self, now: u64, caller: Address, payment_id: u64) -> (outcome:
        Outcome<Call, Result<(), RecurringError>>)
        ensures
            ({
                let step = model::execute(old(self)@, now, caller, payment_id);
                &&& final(self)@ == step.state
                &&& outcome.trace() == step.calls
                &&& outcome.value == step.value
            }),
    {
        let mut calls: Vec<Call> = begin_as(caller);
        let mut recurring: RecurringPayment = match self.payments.get(&payment_id) {
            None => {
                return Outcome { calls, value: Err(RecurringError::PaymentNotFound) };
            },
            Some(payment) => *payment,
        };
        if caller != recurring.payer && caller != recurring.recipient {
            match self.admin {
                None => {
                    return Outcome { calls, value: Err(RecurringError::AdminNotFound) };
                },
                Some(admin) => {
                    if caller != admin {
                        return Outcome { calls, value: Err(RecurringError::Unauthorized) };
                    }
                },
            }
        }
        if recurring.status != RecurringStatus::Active {
            return Outcome { calls, value: Err(RecurringError::NotActive) };
        }
        if now < recurring.next_payment {
            return Outcome { calls, value: Err(RecurringError::TooEarly) };
        }
        if let Some(max) = recurring.max_payments {
            if recurring.total_payments >= max {
                recurring.status = RecurringStatus::Cancelled;
                file(&mut calls, DataKey::Payment(payment_id), Value::Payment(recurring));
                return Outcome { calls, value: Err(RecurringError::MaxPaymentsReached) };
            }
        }
        ask(
            &mut calls,
            HostCall::Outward {
                request: Outward::TransferFrom {
                    token: recurring.token,
                    from: recurring.payer,
                    to: recurring.recipient,
                    amount: recurring.amount,
                },
            },
        );
        if recurring.total_payments == u32::MAX {
            return Outcome { calls, value: Err(RecurringError::TotalOverflow) };
        }
        recurring.total_payments = recurring.total_payments + 1;
        recurring.last_payment = now;
        match now.checked_add(recurring.interval_secs) {
            Some(next) => {
                recurring.next_payment = next;
            },
            None => {
                return Outcome { calls, value: Err(RecurringError::NextPaymentOverflow) };
            },
        }
        file(&mut calls, DataKey::Payment(payment_id), Value::Payment(recurring));
        ask(
            &mut calls,
            HostCall::Outward {
                request: Outward::Publish(Event::Paid { payment_id, amount: recurring.amount }),
            },
        );
        self.payments.set(payment_id, recurring);
        Outcome { calls, value: Ok(()) }
    }

    /// The payment `payment_id`, where `caller` is its payer.
    fn payment_of(&self, caller: Address, payment_id: u64) -> (found: Result<
        RecurringPayment,
        RecurringError,
    >)
        ensures
            match model::payer_refusal(self@, caller, payment_id) {
                Some(error) => found == Err::<RecurringPayment, RecurringError>(error),
                None => found == Ok::<RecurringPayment, RecurringError>(
                    self@.payments[payment_id],
                ),
            },
    {
        match self.payments.get(&payment_id) {
            None => Err(RecurringError::PaymentNotFound),
            Some(recurring) => if recurring.payer != caller {
                Err(RecurringError::Unauthorized)
            } else {
                Ok(*recurring)
            },
        }
    }

    /// Suspends a payment.
    pub fn pause_payment(&mut self, payer: Address, payment_id: u64) -> (outcome: Outcome<
        Call,
        Result<(), RecurringError>,
    >)
        ensures
            ({
                let step = model::pause(old(self)@, payer, payment_id);
                &&& final(self)@ == step.state
                &&& outcome.trace() == step.calls
                &&& outcome.value == step.value
            }),
    {
        let mut calls: Vec<Call> = begin_as(payer);
        let mut recurring: RecurringPayment = match self.payment_of(payer, payment_id) {
            Ok(payment) => payment,
            Err(error) => {
                return Outcome { calls, value: Err(error) };
            },
        };
        if recurring.status != RecurringStatus::Active {
            return Outcome { calls, value: Err(RecurringError::CannotPause) };
        }
        recurring.status = RecurringStatus::Paused;
        file(&mut calls, DataKey::Payment(payment_id), Value::Payment(recurring));
        self.payments.set(payment_id, recurring);
        Outcome { calls, value: Ok(()) }
    }

    /// Takes up a suspended payment again, due a full interval from now.
    pub fn resume_payment(&mut self, now: u64, payer: Address, payment_id: u64) -> (outcome:
        Outcome<Call, Result<(), RecurringError>>)
        ensures
            ({
                let step = model::resume(old(self)@, now, payer, payment_id);
                &&& final(self)@ == step.state
                &&& outcome.trace() == step.calls
                &&& outcome.value == step.value
            }),
    {
        let mut calls: Vec<Call> = begin_as(payer);
        let mut recurring: RecurringPayment = match self.payment_of(payer, payment_id) {
            Ok(payment) => payment,
            Err(error) => {
                return Outcome { calls, value: Err(error) };
            },
        };
        if recurring.status != RecurringStatus::Paused {
            return Outcome { calls, value: Err(RecurringError::NotPaused) };
        }
        recurring.status = RecurringStatus::Active;
        match now.checked_add(recurring.interval_secs) {
            Some(next) => {
                recurring.next_payment = next;
            },
            None => {
                return Outcome { calls, value: Err(RecurringError::NextPaymentOverflow) };
            },
        }
        file(&mut calls, DataKey::Payment(payment_id), Value::Payment(recurring));
        self.payments.set(payment_id, recurring);
        Outcome { calls, value: Ok(()) }
    }

    /// Ends a payment.
    pub fn cancel_payment(&mut self, payer: Address, payment_id: u64) -> (outcome: Outcome<
        Call,
        Result<(), RecurringError>,
    >)
        ensures
            ({
                let step = model::cancel(old(self)@, payer, payment_id);
                &&& final(self)@ == step.state
                &&& outcome.trace() == step.calls
                &&& outcome.value == step.value
            }),
    {
        let mut calls: Vec<Call> = begin_as(payer);
        let mut recurring: RecurringPayment = match self.payment_of(payer, payment_id) {
            Ok(payment) => payment,
            Err(error) => {
                return Outcome { calls, value: Err(error) };
            },
        };
        recurring.status = RecurringStatus::Cancelled;
        file(&mut calls, DataKey::Payment(payment_id), Value::Payment(recurring));
        self.payments.set(payment_id, recurring);
        Outcome { calls, value: Ok(()) }
    }

    /// The payment of that id.
    pub fn get_payment(&self, payment_id: u64) -> (outcome: Outcome<Call, Option<RecurringPayment>>)
        ensures
            outcome.trace() == model::reading(),
            outcome.value == model::payment(self@, payment_id),
    {
        let calls: Vec<Call> = begin();
        let value = match self.payments.get(&payment_id) {
            Some(payment) => Some(*payment),
            None => None,
        };
        Outcome { calls, value }
    }

    /// Proposes another administrator.
    pub fn propose_admin(current_admin: Address, new_admin: Address) -> (request: AdminRequest<
        DataKey,
    >)
        ensures
            request == (AdminRequest::Propose {
                admin_key: DataKey::Admin,
                pending_key: DataKey::PendingAdmin,
                current_admin,
                new_admin,
            }),
    {
        AdminRequest::Propose {
            admin_key: DataKey::Admin,
            pending_key: DataKey::PendingAdmin,
            current_admin,
            new_admin,
        }
    }

    /// Takes over as the administrator.
    pub fn accept_admin(new_admin: Address) -> (request: AdminRequest<DataKey>)
        ensures
            request == (AdminRequest::Accept {
                admin_key: DataKey::Admin,
                pending_key: DataKey::PendingAdmin,
                new_admin,
            }),
    {
        AdminRequest::Accept {
            admin_key: DataKey::Admin,
            pending_key: DataKey::PendingAdmin,
            new_admin,
        }
    }
}

} // verus!
