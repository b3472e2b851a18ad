//! Time-locked execution of governance decisions.

use crate::address::Address;
use crate::admin::AdminRequest;
use crate::bytes::{copy_bytes, copy_list};
use crate::host::{ask, begin, begin_as, file, HostCall, Label, Outcome};
use crate::operation::{operation_bytes, operation_hash, Symbol};
use crate::table::Table;
use vstd::prelude::*;

pub mod laws;
pub mod model;
pub mod promises;

verus! {

/// The shortest delay where none is set: a day.
pub const DEFAULT_MIN_DELAY: u64 = 86_400;

/// The longest delay where none is set: thirty days.
pub const DEFAULT_MAX_DELAY: u64 = 2_592_000;

/// How long an operation stays executable: two days.
pub const GRACE_PERIOD_SECS: u64 = 172_800;

/// Where an operation stands.
#[derive(Clone, Copy, PartialEq, Eq, Structural, Debug)]
pub enum TimelockStatus {
    Queued,
    Executed,
    Cancelled,
    Expired,
}

/// An operation in the queue, or one that has left it.
#[derive(PartialEq, Eq, Debug)]
pub struct TimelockEntry {
    pub entry_id: u64,
    pub proposer: Address,
    pub target_contract: Address,
    pub function_name: Symbol,
    pub description: Vec<u8>,
    /// The earliest time of execution.
    pub eta: u64,
    /// How long after that it can still be executed.
    pub grace_period: u64,
    /// The arguments, each in XDR form.
    pub args: Vec<Vec<u8>>,
    pub status: TimelockStatus,
    pub queued_at: u64,
    pub executed_at: Option<u64>,
}

impl View for TimelockEntry {
    type V = model::EntryModel;

    open spec fn view(&self) -> model::EntryModel {
        model::EntryModel {
            entry_id: self.entry_id,
            proposer: self.proposer,
            target_contract: self.target_contract,
            function_name: self.function_name@,
            description: self.description@,
            eta: self.eta,
            grace_period: self.grace_period,
            args: crate::bytes::contents(self.args@),
            status: self.status,
            queued_at: self.queued_at,
            executed_at: self.executed_at,
        }
    }
}

impl Clone for TimelockEntry {
    fn clone(&self) -> (copy: Self)
        ensures
            copy@ == self@,
    {
        TimelockEntry {
            entry_id: self.entry_id,
            proposer: self.proposer,
            target_contract: self.target_contract,
            function_name: self.function_name.copy(),
            description: copy_bytes(&self.description),
            eta: self.eta,
            grace_period: self.grace_period,
            args: copy_list(&self.args),
            status: self.status,
            queued_at: self.queued_at,
            executed_at: self.executed_at,
        }
    }
}

/// What an entry of the ledger is filed under.
#[derive(Clone, Copy, PartialEq, Eq, Debug)]
pub enum DataKey {
    Admin,
    PendingAdmin,
    ExecutorAddress,
    MinDelay,
    MaxDelay,
    GracePeriod,
    EntryCounter,
    Entry(u64),
    /// An operation, by its hash.
    OperationHash([u8; 32]),
}

impl View for DataKey {
    type V = model::KeyModel;

    open spec fn view(&self) -> model::KeyModel {
        match *self {
            DataKey::Admin => model::KeyModel::Admin,
            DataKey::PendingAdmin => model::KeyModel::PendingAdmin,
            DataKey::ExecutorAddress => model::KeyModel::ExecutorAddress,
            DataKey::MinDelay => model::KeyModel::MinDelay,
            DataKey::MaxDelay => model::KeyModel::MaxDelay,
            DataKey::GracePeriod => model::KeyModel::GracePeriod,
            DataKey::EntryCounter => model::KeyModel::EntryCounter,
            DataKey::Entry(entry_id) => model::KeyModel::Entry(entry_id),
            DataKey::OperationHash(hash) => model::KeyModel::OperationHash(hash@),
        }
    }
}

impl Label for DataKey {
    fn again(&self) -> (label: Self) {
        *self
    }
}

/// What is filed in the ledger.
#[derive(PartialEq, Eq, Debug)]
pub enum Value {
    Address(Address),
    Number(u64),
    Entry(TimelockEntry),
}

impl View for Value {
    type V = model::ValueModel;

    open spec fn view(&self) -> model::ValueModel {
        match *self {
            Value::Address(address) => model::ValueModel::Address(address),
            Value::Number(number) => model::ValueModel::Number(number),
            Value::Entry(entry) => model::ValueModel::Entry(entry@),
        }
    }
}

/// What is published.
#[derive(Clone, Copy, PartialEq, Eq, Debug)]
pub enum Event {
    /// An operation was queued.
    Queued { entry_id: u64, proposer: Address },
    /// An operation was executed.
    Executed { entry_id: u64 },
}

impl View for Event {
    type V = model::EventModel;

    open spec fn view(&self) -> model::EventModel {
        match *self {
            Event::Queued { entry_id, proposer } => model::EventModel::Queued {
                entry_id,
                proposer,
            },
            Event::Executed { entry_id } => model::EventModel::Executed { entry_id },
        }
    }
}

impl Event {
    /// The topics under which the event is published.
    pub fn topics(&self) -> (topics: (&'static str, &'static str))
        ensures
            topics.0@ == "timelock"@,
            topics.1@ == match *self {
                Event::Queued { .. } => "queued"@,
                Event::Executed { .. } => "executed"@,
            },
    {
        match self {
            Event::Queued { .. } => ("timelock", "queued"),
            Event::Executed { .. } => ("timelock", "executed"),
        }
    }
}

/// A request to the world outside.
#[derive(PartialEq, Eq, Debug)]
pub enum Outward {
    /// Call a function of another contract; what it returns is dropped.
    Invoke { target_contract: Address, function_name: Symbol, args: Vec<Vec<u8>> },
    /// Have the host hash an operation, on the budget of this call.
    Hash { operation: Vec<u8> },
    /// Publish an event.
    Publish(Event),
}

impl View for Outward {
    type V = model::OutwardModel;

    open spec fn view(&self) -> model::OutwardModel {
        match *self {
            Outward::Invoke { target_contract, function_name, args } =>
                model::OutwardModel::Invoke {
                target_contract,
                function_name: function_name@,
                args: crate::bytes::contents(args@),
            },
            Outward::Hash { operation } => model::OutwardModel::Hash { operation: operation@ },
            Outward::Publish(event) => model::OutwardModel::Publish(event@),
        }
    }
}

/// A proposal to queue an operation.
#[derive(PartialEq, Eq, Debug)]
pub struct Proposal {
    pub now: u64,
    pub proposer: Address,
    pub target_contract: Address,
    pub function_name: Symbol,
    /// The arguments, each in XDR form.
    pub args: Vec<Vec<u8>>,
    pub description: Vec<u8>,
    pub delay_secs: u64,
}

impl View for Proposal {
    type V = model::ProposalModel;

    open spec fn view(&self) -> model::ProposalModel {
        model::ProposalModel {
            now: self.now,
            proposer: self.proposer,
            target_contract: self.target_contract,
            function_name: self.function_name@,
            args: crate::bytes::contents(self.args@),
            description: self.description@,
            delay_secs: self.delay_secs,
        }
    }
}

/// What comes of a proposal at first.
#[derive(PartialEq, Eq, Debug)]
pub enum Queueing {
    /// The operation is in the queue, under this id.
    Queued(u64),
    /// The operation waits for the hash that the host was asked for.
    AwaitsHash(Proposal),
}

impl View for Queueing {
    type V = model::QueueingModel;

    open spec fn view(&self) -> model::QueueingModel {
        match *self {
            Queueing::Queued(entry_id) => model::QueueingModel::Queued(entry_id),
            Queueing::AwaitsHash(proposal) => model::QueueingModel::AwaitsHash(proposal@),
        }
    }
}

pub type Call = HostCall<DataKey, Value, Outward>;

/// Why a call fails.
#[derive(Clone, Copy, PartialEq, Eq, Structural, Debug)]
pub enum TimelockError {
    AlreadyInitialized,
    AdminMissing,
    ExecutorMissing,
    GracePeriodMissing,
    Unauthorized,
    UnauthorizedExecutor,
    InvalidDelay,
    AlreadyQueued,
    CounterOverflow,
    EtaOverflow,
    GraceEndOverflow,
    EntryNotFound,
    NotQueued,
    ProposerNotAuthorized,
    NotYetDue,
    GracePeriodExpired,
}

impl TimelockError {
    /// What the host reports of the failed call.
    pub fn message(&self) -> (message: &'static str)
        ensures
            message@ == model::message(*self),
    {
        match self {
            TimelockError::AlreadyInitialized => "already initialized",
            TimelockError::AdminMissing => "called `Option::unwrap()` on a `None` value",
            TimelockError::ExecutorMissing => "called `Option::unwrap()` on a `None` value",
            TimelockError::GracePeriodMissing => "called `Option::unwrap()` on a `None` value",
            TimelockError::Unauthorized => "unauthorized",
            TimelockError::UnauthorizedExecutor => "unauthorized executor",
            TimelockError::InvalidDelay => "invalid delay",
            TimelockError::AlreadyQueued => "operation already queued",
            TimelockError::CounterOverflow => "attempt to add with overflow",
            TimelockError::EtaOverflow => "eta calculation overflows u64",
            TimelockError::GraceEndOverflow => "grace period end overflows u64",
            TimelockError::EntryNotFound => "entry not found",
            TimelockError::NotQueued => "entry not queued",
            TimelockError::ProposerNotAuthorized => "proposer no longer authorized",
            TimelockError::NotYetDue => "timelock not expired",
            TimelockError::GracePeriodExpired => "grace period expired",
        }
    }
}

/// The timelock executor, with its ledger.
pub struct TimelockExecutorContract {
    pub admin: Option<Address>,
    pub pending_admin: Option<Address>,
    pub executor: Option<Address>,
    pub min_delay: Option<u64>,
    pub max_delay: Option<u64>,
    pub grace_period: Option<u64>,
    pub entry_counter: Option<u64>,
    pub entries: Table<u64, TimelockEntry>,
    /// The entry of each operation that was ever queued, by the operation's
    /// hash.
    pub operations: Table<[u8; 32], u64>,
}

impl View for TimelockExecutorContract {
    type V = model::Ledger;

    open spec fn view(&self) -> model::Ledger {
        model::Ledger {
            admin: self.admin,
            pending_admin: self.pending_admin,
            executor: self.executor,
            min_delay: self.min_delay,
            max_delay: self.max_delay,
            grace_period: self.grace_period,
            entry_counter: self.entry_counter,
            entries: self.entries@,
            operations: self.operations@,
        }
    }
}

impl TimelockExecutorContract {
    /// A contract with nothing in its ledger.
    pub fn new() -> (contract: Self)
        ensures
            contract@ == (model::Ledger {
                admin: None,
                pending_admin: None,
                executor: None,
                min_delay: None,
                max_delay: None,
                grace_period: None,
                entry_counter: None,
                entries: Map::empty(),
                operations: Map::empty(),
            }),
    {
        TimelockExecutorContract {
            admin: None,
            pending_admin: None,
            executor: None,
            min_delay: None,
            max_delay: None,
            grace_period: None,
            entry_counter: None,
            entries: Table::new(),
            operations: Table::new(),
        }
    }

    /// Sets the contract up, once.
    pub fn initialize(
        &mut self,
        admin: Address,
        executor: Address,
        min_delay_secs: u64,
        max_delay_secs: u64,
    ) -> (outcome: Outcome<Call, Result<(), TimelockError>>)
        ensures
            ({
                let step = model::initialize(
                    old(self)@,
                    admin,
                    executor,
                    min_delay_secs,
                    max_delay_secs,
                );
                &&& final(self)@ == step.state
                &&& outcome.trace() == step.calls
                &&& outcome.value == step.value
            }),
    {
        let mut calls: Vec<Call> = begin();
        if self.admin.is_some() {
            return Outcome { calls, value: Err(TimelockError::AlreadyInitialized) };
        }
        ask(&mut calls, HostCall::RequireAuth { address: admin });
        ask(
            &mut calls,
            HostCall::SetInstance { key: DataKey::Admin, value: Value::Address(admin) },
        );
        ask(
            &mut calls,
            HostCall::SetInstance {
                key: DataKey::ExecutorAddress,
                value: Value::Address(executor),
            },
        );
        ask(
            &mut calls,
            HostCall::SetInstance { key: DataKey::MinDelay, value: Value::Number(min_delay_secs) },
        );
        ask(
            &mut calls,
            HostCall::SetInstance { key: DataKey::MaxDelay, value: Value::Number(max_delay_secs) },
        );
        ask(
            &mut calls,
            HostCall::SetInstance {
                key: DataKey::GracePeriod,
                value: Value::Number(GRACE_PERIOD_SECS),
            },
        );
        ask(
            &mut calls,
            HostCall::SetInstance { key: DataKey::EntryCounter, value: Value::Number(0) },
        );
        self.admin = Some(admin);
        self.executor = Some(executor);
        self.min_delay = Some(min_delay_secs);
        self.max_delay = Some(max_delay_secs);
        self.grace_period = Some(GRACE_PERIOD_SECS);
        self.entry_counter = Some(0);
        let outcome = Outcome { calls, value: Ok(()) };
        assert(outcome.trace() =~= model::initialize(
            old(self)@,
            admin,
            executor,
            min_delay_secs,
            max_delay_secs,
        ).calls);
        outcome
    }

    /// Whether `caller` is the administrator.
    fn check_admin(&self, caller: Address) -> (checked: Result<(), TimelockError>)
        ensures
            match model::admin_refusal(self@, caller) {
                Some(error) => checked == Err::<(), TimelockError>(error),
                None => checked is Ok,
            },
    {
        match self.admin {
            None => Err(TimelockError::AdminMissing),
            Some(stored) => if caller != stored {
                Err(TimelockError::Unauthorized)
            } else {
                Ok(())
            },
        }
    }

    /// The checks on who proposes an operation and on its delay.
    fn check_proposal(&self, proposer: Address, delay_secs: u64) -> (checked: Result<
        (),
        TimelockError,
    >)
        ensures
            match model::proposal_refusal(self@, proposer, delay_secs) {
                Some(error) => checked == Err::<(), TimelockError>(error),
                None => checked is Ok,
            },
    {
        if let Err(error) = self.check_admin(proposer) {
            return Err(error);
        }
        let min_delay: u64 = match self.min_delay {
            Some(delay) => delay,
            None => DEFAULT_MIN_DELAY,
        };
        let max_delay: u64 = match self.max_delay {
            Some(delay) => delay,
            None => DEFAULT_MAX_DELAY,
        };
        if delay_secs < min_delay || delay_secs > max_delay {
            return Err(TimelockError::InvalidDelay);
        }
        Ok(())
    }

    /// Queues a call of `function_name` of `target_contract`, to be made after
    /// `delay_secs` at the earliest. The arguments are given in XDR form. Where
    /// the operation is too long to be hashed here, the host is asked for its
    /// hash, and `finish_queue` goes on from there.
    pub fn queue(
        &mut self,
        now: u64,
        proposer: Address,
        target_contract: Address,
        function_name: Symbol,
        args: Vec<Vec<u8>>,
        description: Vec<u8>,
        delay_secs: u64,
    ) -> (outcome: Outcome<Call, Result<Queueing, TimelockError>>)
        ensures
            ({
                let step = model::queue(
                    old(self)@,
                    model::ProposalModel {
                        now,
                        proposer,
                        target_contract,
                        function_name: function_name@,
                        args: crate::bytes::contents(args@),
                        description: description@,
                        delay_secs,
                    },
                );
                &&& final(self)@ == step.state
                &&& outcome.trace() == step.calls
                &&& match step.value {
                    Ok(queueing) => outcome.value is Ok && outcome.value->Ok_0@ == queueing,
                    Err(error) => outcome.value is Err && outcome.value->Err_0 == error,
                }
            }),
    {
        let mut calls: Vec<Call> = begin_as(proposer);
        if let Err(error) = self.check_proposal(proposer, delay_secs) {
            return Outcome { calls, value: Err(error) };
        }
        let op_hash = operation_hash(&target_contract, &function_name, &args);
        let proposal = Proposal {
            now,
            proposer,
            target_contract,
            function_name,
            args,
            description,
            delay_secs,
        };
        match op_hash {
            None => {
                let operation = operation_bytes(
                    &target_contract,
                    &proposal.function_name,
                    &proposal.args,
                );
                ask(&mut calls, HostCall::Outward { request: Outward::Hash { operation } });
                Outcome { calls, value: Ok(Queueing::AwaitsHash(proposal)) }
            },
            Some(op_hash) => {
                let ghost opened = calls@;
                let mut rest = self.finish_queue(proposal, op_hash);
                let ghost finished = rest.calls@;
                calls.append(&mut rest.calls);
                assert(crate::host::trace(calls@) =~= crate::host::trace(opened)
                    + crate::host::trace(finished));
                match rest.value {
                    Ok(entry_id) => Outcome { calls, value: Ok(Queueing::Queued(entry_id)) },
                    Err(error) => Outcome { calls, value: Err(error) },
                }
            },
        }
    }

    /// Carries a queueing through, now that the operation's hash is known.
    pub fn finish_queue(&mut self, proposal: Proposal, op_hash: [u8; 32]) -> (outcome: Outcome<
        Call,
        Result<u64, TimelockError>,
    >)
        ensures
            ({
                let step = model::finish_queue(old(self)@, proposal@, op_hash@);
                &&& final(self)@ == step.state
                &&& outcome.trace() == step.calls
                &&& outcome.value == step.value
            }),
    {
        let ghost step = model::finish_queue(self@, proposal@, op_hash@);
        let mut calls: Vec<Call> = Vec::new();
        assert(crate::host::trace(calls@) =~= Seq::<model::CallModel>::empty());
        if self.operations.has(&op_hash) {
            return Outcome { calls, value: Err(TimelockError::AlreadyQueued) };
        }
        let counter: u64 = match self.entry_counter {
            Some(counter) => counter,
            None => 0,
        };
        if counter == u64::MAX {
            return Outcome { calls, value: Err(TimelockError::CounterOverflow) };
        }
        let entry_id: u64 = counter + 1;
        let grace: u64 = match self.grace_period {
            Some(grace) => grace,
            None => {
                return Outcome { calls, value: Err(TimelockError::GracePeriodMissing) };
            },
        };
        let eta: u64 = match proposal.now.checked_add(proposal.delay_secs) {
            Some(eta) => eta,
            None => {
                return Outcome { calls, value: Err(TimelockError::EtaOverflow) };
            },
        };
        if eta.checked_add(grace).is_none() {
            return Outcome { calls, value: Err(TimelockError::GraceEndOverflow) };
        }
        let proposer = proposal.proposer;
        let entry = TimelockEntry {
            entry_id,
            proposer,
            target_contract: proposal.target_contract,
            function_name: proposal.function_name,
            description: proposal.description,
            eta,
            grace_period: grace,
            args: proposal.args,
            status: TimelockStatus::Queued,
            queued_at: proposal.now,
            executed_at: None,
        };
        file(&mut calls, DataKey::Entry(entry_id), Value::Entry(entry.clone()));
        ask(
            &mut calls,
            HostCall::SetInstance { key: DataKey::EntryCounter, value: Value::Number(entry_id) },
        );
        ask(
            &mut calls,
            HostCall::SetPersistent {
                key: DataKey::OperationHash(op_hash),
                value: Value::Number(entry_id),
            },
        );
        ask(
            &mut calls,
            HostCall::Outward { request: Outward::Publish(Event::Queued { entry_id, proposer }) },
        );
        self.entries.set(entry_id, entry);
        self.entry_counter = Some(entry_id);
        self.operations.set(op_hash, entry_id);
        let outcome = Outcome { calls, value: Ok(entry_id) };
        assert(outcome.trace() =~= step.calls);
        outcome
    }

    /// Makes the call of an entry that is due.
    pub fn execute(&mut self, now: u64, executor: Address, entry_id: u64) -> (outcome: Outcome<
        Call,
        Result<(), TimelockError>,
    >)
        ensures
            ({
                let step = model::execute(old(self)@, now, executor, entry_id);
                &&& final(self)@ == step.state
                &&& outcome.trace() == step.calls
                &&& outcome.value == step.value
            }),
    {
        let ghost step = model::execute(self@, now, executor, entry_id);
        let mut calls: Vec<Call> = begin_as(executor);
        match self.executor {
            None => {
                return Outcome { calls, value: Err(TimelockError::ExecutorMissing) };
            },
            Some(stored) => {
                if executor != stored {
                    return Outcome { calls, value: Err(TimelockError::UnauthorizedExecutor) };
                }
            },
        }
        let mut entry = match self.entries.get(&entry_id) {
            None => {
                return Outcome { calls, value: Err(TimelockError::EntryNotFound) };
            },
            Some(entry) => entry.clone(),
        };
        if entry.status != TimelockStatus::Queued {
            return Outcome { calls, value: Err(TimelockError::NotQueued) };
        }
        match self.admin {
            None => {
                return Outcome { calls, value: Err(TimelockError::AdminMissing) };
            },
            Some(current_admin) => {
                if entry.proposer != current_admin {
                    return Outcome { calls, value: Err(TimelockError::ProposerNotAuthorized) };
                }
            },
        }
        if now < entry.eta {
            return Outcome { calls, value: Err(TimelockError::NotYetDue) };
        }
        let grace_end: u64 = match entry.eta.checked_add(entry.grace_period) {
            Some(end) => end,
            None => {
                return Outcome { calls, value: Err(TimelockError::GraceEndOverflow) };
            },
        };
        if now > grace_end {
            entry.status = TimelockStatus::Expired;
            file(&mut calls, DataKey::Entry(entry_id), Value::Entry(entry));
            return Outcome { calls, value: Err(TimelockError::GracePeriodExpired) };
        }
        // The entry leaves the queue before the other contract gets to run.

        entry.status = TimelockStatus::Executed;
        entry.executed_at = Some(now);
        file(&mut calls, DataKey::Entry(entry_id), Value::Entry(entry.clone()));
        ask(
            &mut calls,
            HostCall::Outward {
                request: Outward::Invoke {
                    target_contract: entry.target_contract,
                    function_name: entry.function_name.copy(),
                    args: copy_list(&entry.args),
                },
            },
        );
        ask(
            &mut calls,
            HostCall::Outward { request: Outward::Publish(Event::Executed { entry_id }) },
        );
        self.entries.set(entry_id, entry);
        let outcome = Outcome { calls, value: Ok(()) };
        assert(outcome.trace() =~= step.calls);
        outcome
    }

    /// Takes an entry out of the queue.
    pub fn cancel(&mut self, admin: Address, entry_id: u64) -> (outcome: Outcome<
        Call,
        Result<(), TimelockError>,
    >)
        ensures
            ({
                let step = model::cancel(old(self)@, admin, entry_id);
                &&& final(self)@ == step.state
                &&& outcome.trace() == step.calls
                &&& outcome.value == step.value
            }),
    {
        let mut calls: Vec<Call> = begin_as(admin);
        if let Err(error) = self.check_admin(admin) {
            return Outcome { calls, value: Err(error) };
        }
        let mut entry = match self.entries.get(&entry_id) {
            None => {
                return Outcome { calls, value: Err(TimelockError::EntryNotFound) };
            },
            Some(entry) => entry.clone(),
        };
        if entry.status != TimelockStatus::Queued {
            return Outcome { calls, value: Err(TimelockError::NotQueued) };
        }
        entry.status = TimelockStatus::Cancelled;
        file(&mut calls, DataKey::Entry(entry_id), Value::Entry(entry.clone()));
        self.entries.set(entry_id, entry);
        Outcome { calls, value: Ok(()) }
    }

    /// The entry of that id.
    pub fn get_entry(&self, entry_id: u64) -> (outcome: Outcome<Call, Option<TimelockEntry>>)
        ensures
            outcome.trace() == model::reading(),
            match model::entry(self@, entry_id) {
                Some(entry) => outcome.value is Some && outcome.value->Some_0@ == entry,
                None => outcome.value is None,
            },
    {
        let calls: Vec<Call> = begin();
        let value = match self.entries.get(&entry_id) {
            Some(entry) => Some(entry.clone()),
            None => None,
        };
        Outcome { calls, value }
    }

    /// Whether an entry is due.
    pub fn is_ready(&self, now: u64, entry_id: u64) -> (outcome: Outcome<Call, bool>)
        ensures
            outcome.trace() == model::reading(),
            outcome.value == model::ready(self@, now, entry_id),
    {
        let calls: Vec<Call> = begin();
        let value = match self.entries.get(&entry_id) {
            Some(entry) => match entry.eta.checked_add(entry.grace_period) {
                Some(grace_end) => entry.status == TimelockStatus::Queued && now >= entry.eta && now
                    <= grace_end,
                None => false,
            },
            None => false,
        };
        Outcome { calls, value }
    }

    /// Proposes another administrator.
    pub fn propose_admin(current_admin: Address, new_admin: Address) -> (request: AdminRequest<
        DataKey,
    >)
        ensures
            request == (AdminRequest::Propose {
                admin_key: DataKey::Admin,
                pending_key: DataKey::PendingAdmin,
                current_admin,
                new_admin,
            }),
    {
        AdminRequest::Propose {
            admin_key: DataKey::Admin,
            pending_key: DataKey::PendingAdmin,
            current_admin,
            new_admin,
        }
    }

    /// Takes over as the administrator.
    pub fn accept_admin(new_admin: Address) -> (request: AdminRequest<DataKey>)
        ensures
            request == (AdminRequest::Accept {
                admin_key: DataKey::Admin,
                pending_key: DataKey::PendingAdmin,
                new_admin,
            }),
    {
        AdminRequest::Accept {
            admin_key: DataKey::Admin,
            pending_key: DataKey::PendingAdmin,
            new_admin,
        }
    }
}

} // verus!
