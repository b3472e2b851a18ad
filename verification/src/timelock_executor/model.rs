//! What the timelock executor is: its ledger, and what each call makes of it.

use crate::address::Address;
use crate::host::{HostCall, Step};
use crate::timelock_executor::{TimelockError, TimelockStatus};
use vstd::prelude::*;

verus! {

/// An operation in the queue, or one that has left it.
pub struct EntryModel {
    pub entry_id: u64,
    pub proposer: Address,
    pub target_contract: Address,
    pub function_name: Seq<u8>,
    pub description: Seq<u8>,
    pub eta: u64,
    pub grace_period: u64,
    pub args: Seq<Seq<u8>>,
    pub status: TimelockStatus,
    pub queued_at: u64,
    pub executed_at: Option<u64>,
}

/// What an entry is filed under.
pub enum KeyModel {
    Admin,
    PendingAdmin,
    ExecutorAddress,
    MinDelay,
    MaxDelay,
    GracePeriod,
    EntryCounter,
    Entry(u64),
    OperationHash(Seq<u8>),
}

/// What can be filed.
pub enum ValueModel {
    Address(Address),
    Number(u64),
    Entry(EntryModel),
}

/// What is published.
pub enum EventModel {
    Queued { entry_id: u64, proposer: Address },
    Executed { entry_id: u64 },
}

/// A request to the world outside.
pub enum OutwardModel {
    Invoke { target_contract: Address, function_name: Seq<u8>, args: Seq<Seq<u8>> },
    Hash { operation: Seq<u8> },
    Publish(EventModel),
}

/// A proposal to queue an operation.
pub struct ProposalModel {
    pub now: u64,
    pub proposer: Address,
    pub target_contract: Address,
    pub function_name: Seq<u8>,
    pub args: Seq<Seq<u8>>,
    pub description: Seq<u8>,
    pub delay_secs: u64,
}

impl ProposalModel {
    /// The bytes by which the operation is identified.
    pub open spec fn operation(self) -> Seq<u8> {
        crate::operation::operation_xdr(self.target_contract, self.function_name, self.args)
    }

    /// The hash of the operation.
    pub open spec fn hash(self) -> Seq<u8> {
        crate::operation::operation_hash_of(self.target_contract, self.function_name, self.args)
    }

    /// Whether the operation is short enough to be hashed here.
    pub open spec fn fits(self) -> bool {
        crate::operation::operation_fits(self.target_contract, self.function_name, self.args)
    }
}

/// What comes of a proposal at first: an entry in the queue, or one that waits
/// for the host to hash the operation.
pub enum QueueingModel {
    Queued(u64),
    AwaitsHash(ProposalModel),
}

pub type CallModel = HostCall<KeyModel, ValueModel, OutwardModel>;

/// The ledger of the timelock executor.
#[verifier::ext_equal]
pub struct Ledger {
    pub admin: Option<Address>,
    pub pending_admin: Option<Address>,
    pub executor: Option<Address>,
    pub min_delay: Option<u64>,
    pub max_delay: Option<u64>,
    pub grace_period: Option<u64>,
    pub entry_counter: Option<u64>,
    pub entries: Map<u64, EntryModel>,
    pub operations: Map<Seq<u8>, u64>,
}

impl Ledger {
    /// The id of the latest entry; 0 where there is none.
    pub open spec fn last_entry(self) -> u64 {
        match self.entry_counter {
            Some(counter) => counter,
            None => 0,
        }
    }

    /// The shortest delay that an operation can have.
    pub open spec fn shortest_delay(self) -> u64 {
        match self.min_delay {
            Some(delay) => delay,
            None => crate::timelock_executor::DEFAULT_MIN_DELAY,
        }
    }

    /// The longest delay that an operation can have.
    pub open spec fn longest_delay(self) -> u64 {
        match self.max_delay {
            Some(delay) => delay,
            None => crate::timelock_executor::DEFAULT_MAX_DELAY,
        }
    }
}

/// The setting up of the contract.
pub open spec fn initialize(
    s: Ledger,
    admin: Address,
    executor: Address,
    min_delay_secs: u64,
    max_delay_secs: u64,
) -> Step<Ledger, CallModel, Result<(), TimelockError>> {
    if s.admin is Some {
        Step {
            state: s,
            calls: seq![crate::host::renewal()],
            value: Err(TimelockError::AlreadyInitialized),
        }
    } else {
        Step {
            state: Ledger {
                admin: Some(admin),
                executor: Some(executor),
                min_delay: Some(min_delay_secs),
                max_delay: Some(max_delay_secs),
                grace_period: Some(crate::timelock_executor::GRACE_PERIOD_SECS),
                entry_counter: Some(0),
                ..s
            },
            calls: crate::host::opening(admin) + seq![
                HostCall::SetInstance { key: KeyModel::Admin, value: ValueModel::Address(admin) },
                HostCall::SetInstance {
                    key: KeyModel::ExecutorAddress,
                    value: ValueModel::Address(executor),
                },
                HostCall::SetInstance {
                    key: KeyModel::MinDelay,
                    value: ValueModel::Number(min_delay_secs),
                },
                HostCall::SetInstance {
                    key: KeyModel::MaxDelay,
                    value: ValueModel::Number(max_delay_secs),
                },
                HostCall::SetInstance {
                    key: KeyModel::GracePeriod,
                    value: ValueModel::Number(crate::timelock_executor::GRACE_PERIOD_SECS),
                },
                HostCall::SetInstance { key: KeyModel::EntryCounter, value: ValueModel::Number(0) },
            ],
            value: Ok(()),
        }
    }
}

/// Why `caller` may not do what is the administrator's.
pub open spec fn admin_refusal(s: Ledger, caller: Address) -> Option<TimelockError> {
    if s.admin is None {
        Some(TimelockError::AdminMissing)
    } else if s.admin != Some(caller) {
        Some(TimelockError::Unauthorized)
    } else {
        None
    }
}

/// Why an operation is not taken into the queue, whatever it is: the first of
/// the checks on who proposes it and on its delay that fails.
pub open spec fn proposal_refusal(s: Ledger, proposer: Address, delay_secs: u64) -> Option<
    TimelockError,
> {
    if admin_refusal(s, proposer) is Some {
        admin_refusal(s, proposer)
    } else if !(s.shortest_delay() <= delay_secs <= s.longest_delay()) {
        Some(TimelockError::InvalidDelay)
    } else {
        None
    }
}

/// Why an operation with the hash `op_hash` is not taken into the queue, though
/// the proposal is in order: the first of the checks that fails.
pub open spec fn finish_refusal(s: Ledger, proposal: ProposalModel, op_hash: Seq<u8>) -> Option<
    TimelockError,
> {
    if s.operations.contains_key(op_hash) {
        Some(TimelockError::AlreadyQueued)
    } else if s.last_entry() == u64::MAX {
        Some(TimelockError::CounterOverflow)
    } else if s.grace_period is None {
        Some(TimelockError::GracePeriodMissing)
    } else if proposal.now + proposal.delay_secs > u64::MAX {
        Some(TimelockError::EtaOverflow)
    } else if proposal.now + proposal.delay_secs + s.grace_period->Some_0 > u64::MAX {
        Some(TimelockError::GraceEndOverflow)
    } else {
        None
    }
}

/// The second half of a queueing, once the operation's hash is known.
pub open spec fn finish_queue(s: Ledger, proposal: ProposalModel, op_hash: Seq<u8>) -> Step<
    Ledger,
    CallModel,
    Result<u64, TimelockError>,
> {
    match finish_refusal(s, proposal, op_hash) {
        Some(error) => Step { state: s, calls: Seq::empty(), value: Err(error) },
        None => {
            let entry_id = (s.last_entry() + 1) as u64;
            let entry = EntryModel {
                entry_id,
                proposer: proposal.proposer,
                target_contract: proposal.target_contract,
                function_name: proposal.function_name,
                description: proposal.description,
                eta: (proposal.now + proposal.delay_secs) as u64,
                grace_period: s.grace_period->Some_0,
                args: proposal.args,
                status: TimelockStatus::Queued,
                queued_at: proposal.now,
                executed_at: None,
            };
            Step {
                state: Ledger {
                    entry_counter: Some(entry_id),
                    entries: s.entries.insert(entry_id, entry),
                    operations: s.operations.insert(op_hash, entry_id),
                    ..s
                },
                calls: crate::host::filing(KeyModel::Entry(entry_id), ValueModel::Entry(entry))
                    + seq![
                    HostCall::SetInstance {
                        key: KeyModel::EntryCounter,
                        value: ValueModel::Number(entry_id),
                    },
                    HostCall::SetPersistent {
                        key: KeyModel::OperationHash(op_hash),
                        value: ValueModel::Number(entry_id),
                    },
                    HostCall::Outward {
                        request: OutwardModel::Publish(
                            EventModel::Queued { entry_id, proposer: proposal.proposer },
                        ),
                    },
                ],
                value: Ok(entry_id),
            }
        },
    }
}

/// The queueing of an operation that has the hash `op_hash`, from beginning to
/// end.
pub open spec fn enqueue(s: Ledger, proposal: ProposalModel, op_hash: Seq<u8>) -> Step<
    Ledger,
    CallModel,
    Result<u64, TimelockError>,
> {
    let opened = crate::host::opening(proposal.proposer);
    match proposal_refusal(s, proposal.proposer, proposal.delay_secs) {
        Some(error) => Step { state: s, calls: opened, value: Err(error) },
        None => {
            let finished = finish_queue(s, proposal, op_hash);
            Step {
                state: finished.state,
                calls: opened + finished.calls,
                value: finished.value,
            }
        },
    }
}

/// The queueing of an operation; or, where the proposal is in order and the
/// operation is too long to be hashed here, its first half, up to the request
/// that the host hash it.
pub open spec fn queue(s: Ledger, proposal: ProposalModel) -> Step<
    Ledger,
    CallModel,
    Result<QueueingModel, TimelockError>,
> {
    if proposal_refusal(s, proposal.proposer, proposal.delay_secs) is None && !proposal.fits() {
        Step {
            state: s,
            calls: crate::host::opening(proposal.proposer).push(
                HostCall::Outward {
                    request: OutwardModel::Hash { operation: proposal.operation() },
                },
            ),
            value: Ok(QueueingModel::AwaitsHash(proposal)),
        }
    } else {
        let whole = enqueue(s, proposal, proposal.hash());
        Step {
            state: whole.state,
            calls: whole.calls,
            value: match whole.value {
                Ok(entry_id) => Ok(QueueingModel::Queued(entry_id)),
                Err(error) => Err(error),
            },
        }
    }
}

/// Why the entry `entry_id` is not executed, as far as nothing is filed for it:
/// the first of the checks that fails.
pub open spec fn execute_refusal(
    s: Ledger,
    now: u64,
    executor: Address,
    entry_id: u64,
) -> Option<TimelockError> {
    if s.executor is None {
        Some(TimelockError::ExecutorMissing)
    } else if s.executor != Some(executor) {
        Some(TimelockError::UnauthorizedExecutor)
    } else if !s.entries.contains_key(entry_id) {
        Some(TimelockError::EntryNotFound)
    } else if s.entries[entry_id].status != TimelockStatus::Queued {
        Some(TimelockError::NotQueued)
    } else if s.admin is None {
        Some(TimelockError::AdminMissing)
    } else if s.admin != Some(s.entries[entry_id].proposer) {
        Some(TimelockError::ProposerNotAuthorized)
    } else if now < s.entries[entry_id].eta {
        Some(TimelockError::NotYetDue)
    } else if s.entries[entry_id].eta + s.entries[entry_id].grace_period > u64::MAX {
        Some(TimelockError::GraceEndOverflow)
    } else {
        None
    }
}

/// The execution of an entry. One that comes too late is filed as expired
/// before the call fails, and the failure undoes that again.
pub open spec fn execute(s: Ledger, now: u64, executor: Address, entry_id: u64) -> Step<
    Ledger,
    CallModel,
    Result<(), TimelockError>,
> {
    let opened = crate::host::opening(executor);
    match execute_refusal(s, now, executor, entry_id) {
        Some(error) => Step { state: s, calls: opened, value: Err(error) },
        None => {
            let entry = s.entries[entry_id];
            if now > entry.eta + entry.grace_period {
                Step {
                    state: s,
                    calls: opened + crate::host::filing(
                        KeyModel::Entry(entry_id),
                        ValueModel::Entry(EntryModel { status: TimelockStatus::Expired, ..entry }),
                    ),
                    value: Err(TimelockError::GracePeriodExpired),
                }
            } else {
                let executed = EntryModel {
                    status: TimelockStatus::Executed,
                    executed_at: Some(now),
                    ..entry
                };
                Step {
                    state: Ledger { entries: s.entries.insert(entry_id, executed), ..s },
                    calls: opened + crate::host::filing(
                        KeyModel::Entry(entry_id),
                        ValueModel::Entry(executed),
                    ) + seq![
                        HostCall::Outward {
                            request: OutwardModel::Invoke {
                                target_contract: entry.target_contract,
                                function_name: entry.function_name,
                                args: entry.args,
                            },
                        },
                        HostCall::Outward {
                            request: OutwardModel::Publish(EventModel::Executed { entry_id }),
                        },
                    ],
                    value: Ok(()),
                }
            }
        },
    }
}

/// Why the entry `entry_id` is not cancelled.
pub open spec fn cancel_refusal(s: Ledger, admin: Address, entry_id: u64) -> Option<TimelockError> {
    if admin_refusal(s, admin) is Some {
        admin_refusal(s, admin)
    } else if !s.entries.contains_key(entry_id) {
        Some(TimelockError::EntryNotFound)
    } else if s.entries[entry_id].status != TimelockStatus::Queued {
        Some(TimelockError::NotQueued)
    } else {
        None
    }
}

/// The cancellation of an entry.
pub open spec fn cancel(s: Ledger, admin: Address, entry_id: u64) -> Step<
    Ledger,
    CallModel,
    Result<(), TimelockError>,
> {
    let opened = crate::host::opening(admin);
    match cancel_refusal(s, admin, entry_id) {
        Some(error) => Step { state: s, calls: opened, value: Err(error) },
        None => {
            let cancelled = EntryModel {
                status: TimelockStatus::Cancelled,
                ..s.entries[entry_id]
            };
            Step {
                state: Ledger { entries: s.entries.insert(entry_id, cancelled), ..s },
                calls: opened + crate::host::filing(
                    KeyModel::Entry(entry_id),
                    ValueModel::Entry(cancelled),
                ),
                value: Ok(()),
            }
        },
    }
}

/// The requests of a call that only reads.
pub open spec fn reading() -> Seq<CallModel> {
    seq![crate::host::renewal()]
}

/// The entry of that id.
pub open spec fn entry(s: Ledger, entry_id: u64) -> Option<EntryModel> {
    if s.entries.contains_key(entry_id) {
        Some(s.entries[entry_id])
    } else {
        None
    }
}

/// Whether an entry is due: in the queue, past its delay and within its grace
/// period. One whose grace period has no end that a clock can show never is.
pub open spec fn ready(s: Ledger, now: u64, entry_id: u64) -> bool {
    &&& s.entries.contains_key(entry_id)
    &&& s.entries[entry_id].status == TimelockStatus::Queued
    &&& s.entries[entry_id].eta <= now <= s.entries[entry_id].eta + s.entries[entry_id].grace_period
    &&& s.entries[entry_id].eta + s.entries[entry_id].grace_period <= u64::MAX
}

/// What the host reports of a failed call.
pub open spec fn message(error: TimelockError) -> Seq<char> {
    match error {
        TimelockError::AlreadyInitialized => "already initialized"@,
        TimelockError::AdminMissing => "called `Option::unwrap()` on a `None` value"@,
        TimelockError::ExecutorMissing => "called `Option::unwrap()` on a `None` value"@,
        TimelockError::GracePeriodMissing => "called `Option::unwrap()` on a `None` value"@,
        TimelockError::Unauthorized => "unauthorized"@,
        TimelockError::UnauthorizedExecutor => "unauthorized executor"@,
        TimelockError::InvalidDelay => "invalid delay"@,
        TimelockError::AlreadyQueued => "operation already queued"@,
        TimelockError::CounterOverflow => "attempt to add with overflow"@,
        TimelockError::EtaOverflow => "eta calculation overflows u64"@,
        TimelockError::GraceEndOverflow => "grace period end overflows u64"@,
        TimelockError::EntryNotFound => "entry not found"@,
        TimelockError::NotQueued => "entry not queued"@,
        TimelockError::ProposerNotAuthorized => "proposer no longer authorized"@,
        TimelockError::NotYetDue => "timelock not expired"@,
        TimelockError::GracePeriodExpired => "grace period expired"@,
    }
}

} // verus!
