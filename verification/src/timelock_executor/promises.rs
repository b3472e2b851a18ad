//! What each call of the timelock executor owes its caller, in the terms of its
//! arguments and of the ledger: when it succeeds, what each failure means, what
//! it changes and what it asks for.

use crate::address::Address;
use crate::timelock_executor::model;
use crate::timelock_executor::model::{
    CallModel, EntryModel, EventModel, KeyModel, Ledger, OutwardModel, ProposalModel,
    QueueingModel, ValueModel,
};
use crate::timelock_executor::{
    DataKey, Event, Outward, Proposal, Queueing, TimelockEntry, TimelockError,
    TimelockExecutorContract, TimelockStatus, Value,
};
use vstd::prelude::*;

verus! {

/// Whether the requests are those that open a call of `caller`, and no more.
pub open spec fn only_opened(calls: Seq<CallModel>, caller: Address) -> bool {
    &&& calls.len() == 2
    &&& opened(calls, caller)
}

/// Whether a call opens as it should: the instance is kept alive, then `caller`
/// authorizes.
pub open spec fn opened(calls: Seq<CallModel>, caller: Address) -> bool {
    &&& calls.len() >= 2
    &&& calls[0] == crate::requests::instance_kept_alive::<KeyModel, ValueModel, OutwardModel>()
    &&& calls[1] == crate::requests::authorization::<KeyModel, ValueModel, OutwardModel>(caller)
}

/// Whether the request at `i` files a value with the contract instance.
pub open spec fn instance_filed_at(
    calls: Seq<CallModel>,
    i: int,
    key: KeyModel,
    value: ValueModel,
) -> bool {
    &&& 0 <= i < calls.len()
    &&& calls[i] == crate::requests::instance_filed::<KeyModel, ValueModel, OutwardModel>(
        key,
        value,
    )
}

/// Whether an entry is filed under its id by the request at `i`, and kept alive
/// by the next.
pub open spec fn entry_filed_at(
    calls: Seq<CallModel>,
    i: int,
    id: u64,
    entry: EntryModel,
) -> bool {
    &&& 0 <= i && i + 1 < calls.len()
    &&& calls[i] == crate::requests::entry_filed::<KeyModel, ValueModel, OutwardModel>(
        KeyModel::Entry(id),
        ValueModel::Entry(entry),
    )
    &&& calls[i + 1] == crate::requests::entry_kept_alive::<KeyModel, ValueModel, OutwardModel>(
        KeyModel::Entry(id),
    )
}

/// Whether the request at `i` goes to the world outside.
pub open spec fn sent_at(calls: Seq<CallModel>, i: int, request: OutwardModel) -> bool {
    &&& 0 <= i < calls.len()
    &&& calls[i] == crate::requests::sent::<KeyModel, ValueModel, OutwardModel>(request)
}

/// Whether a delay is within the bounds on file; where none are, between a day
/// and thirty.
pub open spec fn delay_allowed(s: Ledger, delay_secs: u64) -> bool {
    &&& s.min_delay matches Some(shortest) ==> shortest <= delay_secs
    &&& s.min_delay is None ==> 86_400 <= delay_secs
    &&& s.max_delay matches Some(longest) ==> delay_secs <= longest
    &&& s.max_delay is None ==> delay_secs <= 2_592_000
}

/// What the contract holds is what its ledger shows.
pub proof fn law_ledger_shows_the_contract(contract: TimelockExecutorContract)
    ensures
        contract@.admin == contract.admin,
        contract@.pending_admin == contract.pending_admin,
        contract@.executor == contract.executor,
        contract@.min_delay == contract.min_delay,
        contract@.max_delay == contract.max_delay,
        contract@.grace_period == contract.grace_period,
        contract@.entry_counter == contract.entry_counter,
        contract@.entries == contract.entries@,
        contract@.operations == contract.operations@,
{
}

/// What an entry holds is what is shown of it.
pub proof fn law_entry_is_shown_whole(entry: TimelockEntry)
    ensures
        entry@.entry_id == entry.entry_id,
        entry@.proposer == entry.proposer,
        entry@.target_contract == entry.target_contract,
        entry@.function_name == entry.function_name@,
        entry@.description == entry.description@,
        entry@.eta == entry.eta,
        entry@.grace_period == entry.grace_period,
        entry@.args.len() == entry.args@.len(),
        forall|i: int| 0 <= i < entry.args@.len() ==> #[trigger] entry@.args[i] == entry.args@[i]@,
        entry@.status == entry.status,
        entry@.queued_at == entry.queued_at,
        entry@.executed_at == entry.executed_at,
{
}

/// What a proposal holds is what is shown of it.
pub proof fn law_proposal_is_shown_whole(proposal: Proposal)
    ensures
        proposal@.now == proposal.now,
        proposal@.proposer == proposal.proposer,
        proposal@.target_contract == proposal.target_contract,
        proposal@.function_name == proposal.function_name@,
        proposal@.args.len() == proposal.args@.len(),
        forall|i: int|
            0 <= i < proposal.args@.len() ==> #[trigger] proposal@.args[i] == proposal.args@[i]@,
        proposal@.description == proposal.description@,
        proposal@.delay_secs == proposal.delay_secs,
{
}

/// What is filed, what it is filed under, what is published, asked for and
/// answered are shown as they are.
pub proof fn law_values_show_themselves(
    key: DataKey,
    value: Value,
    event: Event,
    request: Outward,
    queueing: Queueing,
)
    ensures
        match key {
            DataKey::Admin => key@ == KeyModel::Admin,
            DataKey::PendingAdmin => key@ == KeyModel::PendingAdmin,
            DataKey::ExecutorAddress => key@ == KeyModel::ExecutorAddress,
            DataKey::MinDelay => key@ == KeyModel::MinDelay,
            DataKey::MaxDelay => key@ == KeyModel::MaxDelay,
            DataKey::GracePeriod => key@ == KeyModel::GracePeriod,
            DataKey::EntryCounter => key@ == KeyModel::EntryCounter,
            DataKey::Entry(id) => key@ == KeyModel::Entry(id),
            DataKey::OperationHash(hash) => key@ == KeyModel::OperationHash(hash@),
        },
        match value {
            Value::Address(address) => value@ == ValueModel::Address(address),
            Value::Number(number) => value@ == ValueModel::Number(number),
            Value::Entry(entry) => value@ == ValueModel::Entry(entry@),
        },
        match event {
            Event::Queued { entry_id, proposer } => {
                &&& event@ is Queued
                &&& event@->Queued_entry_id == entry_id
                &&& event@->proposer == proposer
            },
            Event::Executed { entry_id } => {
                &&& event@ is Executed
                &&& event@->Executed_entry_id == entry_id
            },
        },
        match request {
            Outward::Invoke { target_contract, function_name, args } => {
                &&& request@ is Invoke
                &&& request@->target_contract == target_contract
                &&& request@->function_name == function_name@
                &&& request@->args.len() == args@.len()
                &&& forall|i: int|
                    0 <= i < args@.len() ==> #[trigger] request@->args[i] == args@[i]@
            },
            Outward::Hash { operation } => {
                &&& request@ is Hash
                &&& request@->operation == operation@
            },
            Outward::Publish(event) => request@ == OutwardModel::Publish(event@),
        },
        match queueing {
            Queueing::Queued(id) => queueing@ == QueueingModel::Queued(id),
            Queueing::AwaitsHash(proposal) => queueing@ == QueueingModel::AwaitsHash(proposal@),
        },
{
}

/// A contract is set up exactly where no administrator is on file. It then has
/// the given administrator, executor and delays, a grace period of two days, and
/// counts from 0; all else stays.
pub proof fn law_initialize(
    s: Ledger,
    admin: Address,
    executor: Address,
    min_delay_secs: u64,
    max_delay_secs: u64,
)
    ensures
        ({
            let step = model::initialize(s, admin, executor, min_delay_secs, max_delay_secs);
            &&& step.value is Ok <==> s.admin is None
            &&& step.value is Ok ==> {
                &&& step.state.admin == Some(admin)
                &&& step.state.pending_admin == s.pending_admin
                &&& step.state.executor == Some(executor)
                &&& step.state.min_delay == Some(min_delay_secs)
                &&& step.state.max_delay == Some(max_delay_secs)
                &&& step.state.grace_period == Some(172_800u64)
                &&& step.state.entry_counter == Some(0u64)
                &&& step.state.entries == s.entries
                &&& step.state.operations == s.operations
                &&& step.calls.len() == 8
                &&& opened(step.calls, admin)
                &&& instance_filed_at(step.calls, 2, KeyModel::Admin, ValueModel::Address(admin))
                &&& instance_filed_at(
                    step.calls,
                    3,
                    KeyModel::ExecutorAddress,
                    ValueModel::Address(executor),
                )
                &&& instance_filed_at(
                    step.calls,
                    4,
                    KeyModel::MinDelay,
                    ValueModel::Number(min_delay_secs),
                )
                &&& instance_filed_at(
                    step.calls,
                    5,
                    KeyModel::MaxDelay,
                    ValueModel::Number(max_delay_secs),
                )
                &&& instance_filed_at(
                    step.calls,
                    6,
                    KeyModel::GracePeriod,
                    ValueModel::Number(172_800),
                )
                &&& instance_filed_at(
                    step.calls,
                    7,
                    KeyModel::EntryCounter,
                    ValueModel::Number(0),
                )
            }
            &&& step.value is Err ==> {
                &&& step.value->Err_0 == TimelockError::AlreadyInitialized
                &&& step.state == s
                &&& step.calls.len() == 1
                &&& step.calls[0] == crate::requests::instance_kept_alive::<
                    KeyModel,
                    ValueModel,
                    OutwardModel,
                >()
            }
        }),
{
}

/// A proposal is in order exactly where the administrator on file makes it, with
/// a delay within the bounds on file. What is not in order is refused with
/// nothing done.
pub proof fn law_who_can_queue(s: Ledger, proposal: ProposalModel)
    ensures
        ({
            let step = model::queue(s, proposal);
            let by_admin = s.admin == Some(proposal.proposer);
            let allowed = delay_allowed(s, proposal.delay_secs);
            &&& !(by_admin && allowed) ==> {
                &&& step.value is Err
                &&& step.state == s
                &&& only_opened(step.calls, proposal.proposer)
            }
            &&& step.value is Ok ==> by_admin && allowed
            &&& step.value == Err::<QueueingModel, TimelockError>(TimelockError::AdminMissing)
                <==> s.admin is None
            &&& step.value == Err::<QueueingModel, TimelockError>(TimelockError::Unauthorized)
                <==> s.admin is Some && !by_admin
            &&& step.value == Err::<QueueingModel, TimelockError>(TimelockError::InvalidDelay)
                <==> by_admin && !allowed
        }),
{
}

/// A proposal in order is carried through with the SHA-256 of its operation's
/// bytes; where these are more than 1,800,000, the host is asked for it first,
/// with nothing else done.
pub proof fn law_queue(s: Ledger, proposal: ProposalModel)
    requires
        s.admin == Some(proposal.proposer),
        delay_allowed(s, proposal.delay_secs),
    ensures
        ({
            let step = model::queue(s, proposal);
            let operation = crate::operation::operation_xdr(
                proposal.target_contract,
                proposal.function_name,
                proposal.args,
            );
            let finished = model::finish_queue(s, proposal, crate::operation::sha256(operation));
            if operation.len() <= 1_800_000 {
                &&& step.state == finished.state
                &&& opened(step.calls, proposal.proposer)
                &&& step.calls.skip(2) == finished.calls
                &&& match finished.value {
                    Ok(id) => step.value == Ok::<QueueingModel, TimelockError>(
                        QueueingModel::Queued(id),
                    ),
                    Err(error) => step.value == Err::<QueueingModel, TimelockError>(error),
                }
            } else {
                &&& step.value == Ok::<QueueingModel, TimelockError>(
                    QueueingModel::AwaitsHash(proposal),
                )
                &&& step.state == s
                &&& step.calls.len() == 3
                &&& opened(step.calls, proposal.proposer)
                &&& sent_at(step.calls, 2, OutwardModel::Hash { operation })
            }
        }),
{
    let operation = crate::operation::operation_xdr(
        proposal.target_contract,
        proposal.function_name,
        proposal.args,
    );
    let finished = model::finish_queue(s, proposal, crate::operation::sha256(operation));
    if operation.len() <= 1_800_000 {
        assert(model::queue(s, proposal).calls.skip(2) =~= finished.calls);
    }
}

/// A proposal with a hash goes into the queue exactly where no operation of that
/// hash is on file, ids are left, a grace period is on file, and its end can be
/// told. What fails first is what the caller is told.
pub proof fn law_who_can_finish_queue(s: Ledger, proposal: ProposalModel, op_hash: Seq<u8>)
    ensures
        ({
            let step = model::finish_queue(s, proposal, op_hash);
            let new = !s.operations.contains_key(op_hash);
            let ids_left = s.entry_counter != Some(u64::MAX);
            let grace = s.grace_period is Some;
            let eta_fits = proposal.delay_secs <= u64::MAX - proposal.now;
            let end_fits = s.grace_period->Some_0 <= u64::MAX - proposal.now - proposal.delay_secs;
            &&& step.value is Ok <==> new && ids_left && grace && eta_fits && end_fits
            &&& step.value matches Err(error) ==> {
                &&& step.state == s
                &&& step.calls.len() == 0
                &&& error == TimelockError::AlreadyQueued <==> !new
                &&& error == TimelockError::CounterOverflow <==> new && !ids_left
                &&& error == TimelockError::GracePeriodMissing <==> new && ids_left && !grace
                &&& error == TimelockError::EtaOverflow <==> new && ids_left && grace && !eta_fits
                &&& error == TimelockError::GraceEndOverflow <==> new && ids_left && grace
                    && eta_fits && !end_fits
            }
        }),
{
}

/// An entry of the queue is the proposal as it was made: due after its delay,
/// for as long as the grace period on file. It stands under the next id, its
/// hash leads to it, and nothing else on file changes but the count.
pub proof fn law_finish_queue(s: Ledger, proposal: ProposalModel, op_hash: Seq<u8>)
    ensures
        ({
            let step = model::finish_queue(s, proposal, op_hash);
            step.value matches Ok(id) ==> {
                let new = step.state.entries[id];
                &&& match s.entry_counter {
                    Some(last) => id == last + 1,
                    None => id == 1,
                }
                &&& step.state.entry_counter == Some(id)
                &&& step.state.entries == s.entries.insert(id, new)
                &&& step.state.operations == s.operations.insert(op_hash, id)
                &&& step.state.admin == s.admin
                &&& step.state.pending_admin == s.pending_admin
                &&& step.state.executor == s.executor
                &&& step.state.min_delay == s.min_delay
                &&& step.state.max_delay == s.max_delay
                &&& step.state.grace_period == s.grace_period
                &&& new.entry_id == id
                &&& new.proposer == proposal.proposer
                &&& new.target_contract == proposal.target_contract
                &&& new.function_name == proposal.function_name
                &&& new.args == proposal.args
                &&& new.description == proposal.description
                &&& new.eta - proposal.now == proposal.delay_secs
                &&& Some(new.grace_period) == s.grace_period
                &&& new.status == TimelockStatus::Queued
                &&& new.queued_at == proposal.now
                &&& new.executed_at is None
                &&& step.calls.len() == 5
                &&& entry_filed_at(step.calls, 0, id, new)
                &&& instance_filed_at(
                    step.calls,
                    2,
                    KeyModel::EntryCounter,
                    ValueModel::Number(id),
                )
                &&& step.calls[3] == crate::requests::entry_filed::<
                    KeyModel,
                    ValueModel,
                    OutwardModel,
                >(KeyModel::OperationHash(op_hash), ValueModel::Number(id))
                &&& sent_at(
                    step.calls,
                    4,
                    OutwardModel::Publish(
                        EventModel::Queued { entry_id: id, proposer: proposal.proposer },
                    ),
                )
            }
        }),
{
}

/// The whole of a queueing is its opening and, where the proposal is in order,
/// what follows from the hash.
pub proof fn law_enqueue(s: Ledger, proposal: ProposalModel, op_hash: Seq<u8>)
    ensures
        ({
            let step = model::enqueue(s, proposal, op_hash);
            let finished = model::finish_queue(s, proposal, op_hash);
            let by_admin = s.admin == Some(proposal.proposer);
            let allowed = delay_allowed(s, proposal.delay_secs);
            &&& opened(step.calls, proposal.proposer)
            &&& by_admin && allowed ==> {
                &&& step.state == finished.state
                &&& step.value == finished.value
                &&& step.calls.skip(2) == finished.calls
            }
            &&& !(by_admin && allowed) ==> {
                &&& step.value is Err
                &&& step.state == s
                &&& step.calls.len() == 2
            }
        }),
{
    let finished = model::finish_queue(s, proposal, op_hash);
    if s.admin == Some(proposal.proposer) && delay_allowed(s, proposal.delay_secs) {
        assert(model::enqueue(s, proposal, op_hash).calls.skip(2) =~= finished.calls);
    }
}

/// An entry is executed exactly where the executor on file asks for it, it is on
/// file and in the queue, its proposer is the administrator on file, and the
/// clock shows a time from its due date to the end of its grace period, which has
/// to fit the clock; whatever its operation is. What fails first is what the
/// caller is told.
pub proof fn law_who_can_execute(s: Ledger, now: u64, executor: Address, id: u64)
    ensures
        ({
            let step = model::execute(s, now, executor, id);
            let by_executor = s.executor == Some(executor);
            let known = s.entries.contains_key(id);
            let entry = s.entries[id];
            let in_queue = entry.status == TimelockStatus::Queued;
            let authorized = s.admin == Some(entry.proposer);
            let due = entry.eta <= now;
            let end_fits = entry.grace_period <= u64::MAX - entry.eta;
            let in_time = now - entry.eta <= entry.grace_period;
            let asked = by_executor && known && in_queue;
            &&& step.value is Ok <==> asked && authorized && due && end_fits && in_time
            &&& step.value matches Err(error) ==> {
                &&& step.state == s
                &&& error == TimelockError::ExecutorMissing <==> s.executor is None
                &&& error == TimelockError::UnauthorizedExecutor <==> s.executor is Some
                    && !by_executor
                &&& error == TimelockError::EntryNotFound <==> by_executor && !known
                &&& error == TimelockError::NotQueued <==> by_executor && known && !in_queue
                &&& error == TimelockError::AdminMissing <==> asked && s.admin is None
                &&& error == TimelockError::ProposerNotAuthorized <==> asked && s.admin is Some
                    && !authorized
                &&& error == TimelockError::NotYetDue <==> asked && authorized && !due
                &&& error == TimelockError::GraceEndOverflow <==> asked && authorized && due
                    && !end_fits
                &&& error == TimelockError::GracePeriodExpired <==> asked && authorized && due
                    && end_fits && !in_time
            }
        }),
{
}

/// An executed entry is on file as such, with the time, before the one
/// invocation of its function of its contract with its arguments; nothing else
/// of it and nothing else on file changes.
pub proof fn law_execute(s: Ledger, now: u64, executor: Address, id: u64)
    ensures
        ({
            let step = model::execute(s, now, executor, id);
            let entry = s.entries[id];
            let executed = step.state.entries[id];
            step.value is Ok ==> {
                &&& step.state == Ledger { entries: s.entries.insert(id, executed), ..s }
                &&& executed == EntryModel {
                    status: TimelockStatus::Executed,
                    executed_at: Some(now),
                    ..entry
                }
                &&& step.calls.len() == 6
                &&& opened(step.calls, executor)
                &&& entry_filed_at(step.calls, 2, id, executed)
                &&& sent_at(
                    step.calls,
                    4,
                    OutwardModel::Invoke {
                        target_contract: entry.target_contract,
                        function_name: entry.function_name,
                        args: entry.args,
                    },
                )
                &&& sent_at(
                    step.calls,
                    5,
                    OutwardModel::Publish(EventModel::Executed { entry_id: id }),
                )
            }
        }),
{
}

/// What an execution that fails has asked for until then: nothing but its
/// opening; where the grace period is over, that the entry be filed as expired.
/// The host undoes it all.
pub proof fn law_execute_requests_of_a_failure(s: Ledger, now: u64, executor: Address, id: u64)
    ensures
        ({
            let step = model::execute(s, now, executor, id);
            step.value matches Err(error) ==> if error == TimelockError::GracePeriodExpired {
                &&& step.calls.len() == 4
                &&& opened(step.calls, executor)
                &&& entry_filed_at(
                    step.calls,
                    2,
                    id,
                    EntryModel { status: TimelockStatus::Expired, ..s.entries[id] },
                )
            } else {
                only_opened(step.calls, executor)
            }
        }),
{
}

/// An entry is cancelled exactly where the administrator on file asks for it and
/// it is in the queue, at any time. Nothing of it changes but its status.
pub proof fn law_cancel(s: Ledger, admin: Address, id: u64)
    ensures
        ({
            let step = model::cancel(s, admin, id);
            let by_admin = s.admin == Some(admin);
            let known = s.entries.contains_key(id);
            let in_queue = s.entries[id].status == TimelockStatus::Queued;
            let cancelled = EntryModel { status: TimelockStatus::Cancelled, ..s.entries[id] };
            &&& step.value is Ok <==> by_admin && known && in_queue
            &&& step.value is Ok ==> {
                &&& step.state == Ledger { entries: s.entries.insert(id, cancelled), ..s }
                &&& step.calls.len() == 4
                &&& opened(step.calls, admin)
                &&& entry_filed_at(step.calls, 2, id, cancelled)
            }
            &&& step.value matches Err(error) ==> {
                &&& step.state == s
                &&& only_opened(step.calls, admin)
                &&& error == TimelockError::AdminMissing <==> s.admin is None
                &&& error == TimelockError::Unauthorized <==> s.admin is Some && !by_admin
                &&& error == TimelockError::EntryNotFound <==> by_admin && !known
                &&& error == TimelockError::NotQueued <==> by_admin && known && !in_queue
            }
        }),
{
}

/// An entry that is looked up is the one on file, and none where none is;
/// looking it up only keeps the instance alive.
pub proof fn law_get_entry(s: Ledger, id: u64)
    ensures
        model::entry(s, id) is Some <==> s.entries.contains_key(id),
        s.entries.contains_key(id) ==> model::entry(s, id) == Some(s.entries[id]),
        model::reading().len() == 1,
        model::reading()[0] == crate::requests::instance_kept_alive::<
            KeyModel,
            ValueModel,
            OutwardModel,
        >(),
{
}

/// An entry is ready exactly where it is on file and in the queue, and the clock
/// shows a time from its due date to the end of its grace period, which has to
/// fit the clock; whatever its operation is.
pub proof fn law_is_ready(s: Ledger, now: u64, id: u64)
    ensures
        model::ready(s, now, id) <==> {
            let entry = s.entries[id];
            &&& s.entries.contains_key(id)
            &&& entry.status == TimelockStatus::Queued
            &&& entry.grace_period <= u64::MAX - entry.eta
            &&& 0 <= now - entry.eta <= entry.grace_period
        },
{
}

/// Each failure is reported in its own words.
pub proof fn law_messages()
    ensures
        model::message(TimelockError::AlreadyInitialized) == "already initialized"@,
        model::message(TimelockError::AdminMissing)
            == "called `Option::unwrap()` on a `None` value"@,
        model::message(TimelockError::ExecutorMissing)
            == "called `Option::unwrap()` on a `None` value"@,
        model::message(TimelockError::GracePeriodMissing)
            == "called `Option::unwrap()` on a `None` value"@,
        model::message(TimelockError::Unauthorized) == "unauthorized"@,
        model::message(TimelockError::UnauthorizedExecutor) == "unauthorized executor"@,
        model::message(TimelockError::InvalidDelay) == "invalid delay"@,
        model::message(TimelockError::AlreadyQueued) == "operation already queued"@,
        model::message(TimelockError::CounterOverflow) == "attempt to add with overflow"@,
        model::message(TimelockError::EtaOverflow) == "eta calculation overflows u64"@,
        model::message(TimelockError::GraceEndOverflow) == "grace period end overflows u64"@,
        model::message(TimelockError::EntryNotFound) == "entry not found"@,
        model::message(TimelockError::NotQueued) == "entry not queued"@,
        model::message(TimelockError::ProposerNotAuthorized) == "proposer no longer authorized"@,
        model::message(TimelockError::NotYetDue) == "timelock not expired"@,
        model::message(TimelockError::GracePeriodExpired) == "grace period expired"@,
{
}

} // verus!
