//! What holds of the timelock executor as a whole, over any run of calls.

use crate::address::Address;
use crate::host::HostCall;
use crate::timelock_executor::model;
use crate::timelock_executor::model::{
    CallModel, EntryModel, KeyModel, Ledger, OutwardModel, ValueModel,
};
use crate::timelock_executor::{TimelockError, TimelockStatus};
use vstd::prelude::*;

verus! {

/// An operation.
pub struct Operation {
    pub target_contract: Address,
    pub function_name: Seq<u8>,
    pub args: Seq<Seq<u8>>,
}

impl Operation {
    /// The bytes by which the operation is identified.
    pub open spec fn bytes(self) -> Seq<u8> {
        crate::operation::operation_xdr(self.target_contract, self.function_name, self.args)
    }

    /// The hash of the operation.
    pub open spec fn hash(self) -> Seq<u8> {
        crate::operation::operation_hash_of(self.target_contract, self.function_name, self.args)
    }
}

/// The operation of an entry.
pub open spec fn operation_of(entry: EntryModel) -> Operation {
    Operation {
        target_contract: entry.target_contract,
        function_name: entry.function_name,
        args: entry.args,
    }
}

/// A call that can change the ledger. A handover is what the shared admin
/// library makes of the administrator.
pub enum Action {
    Initialize { admin: Address, executor: Address, min_delay_secs: u64, max_delay_secs: u64 },
    Queue {
        now: u64,
        proposer: Address,
        operation: Operation,
        description: Seq<u8>,
        delay_secs: u64,
    },
    Execute { now: u64, executor: Address, entry_id: u64 },
    Cancel { admin: Address, entry_id: u64 },
    Handover { admin: Address, pending_admin: Option<Address> },
}

/// The proposal to queue an operation.
pub open spec fn proposal_of(
    now: u64,
    proposer: Address,
    operation: Operation,
    description: Seq<u8>,
    delay_secs: u64,
) -> model::ProposalModel {
    model::ProposalModel {
        now,
        proposer,
        target_contract: operation.target_contract,
        function_name: operation.function_name,
        args: operation.args,
        description,
        delay_secs,
    }
}

/// What queueing an operation comes to, from beginning to end.
pub open spec fn queued(
    s: Ledger,
    now: u64,
    proposer: Address,
    operation: Operation,
    description: Seq<u8>,
    delay_secs: u64,
) -> crate::host::Step<Ledger, CallModel, Result<u64, TimelockError>> {
    model::enqueue(
        s,
        proposal_of(now, proposer, operation, description, delay_secs),
        operation.hash(),
    )
}

/// An operation that the host has to hash is queued like any other: once the
/// host has answered, the ledger and the value are those of the whole queueing,
/// and so are the requests, but for the one to the host.
pub proof fn law_hashed_by_the_host_or_here(s: Ledger, proposal: model::ProposalModel)
    ensures
        ({
            let begun = model::queue(s, proposal);
            let finished = model::finish_queue(begun.state, proposal, proposal.hash());
            let whole = model::enqueue(s, proposal, proposal.hash());
            match begun.value {
                Ok(model::QueueingModel::AwaitsHash(pending)) => {
                    &&& pending == proposal
                    &&& finished.state == whole.state
                    &&& finished.value == whole.value
                    &&& begun.calls.drop_last() + finished.calls == whole.calls
                },
                Ok(model::QueueingModel::Queued(entry_id)) => {
                    &&& begun.state == whole.state
                    &&& begun.calls == whole.calls
                    &&& whole.value == Ok::<u64, TimelockError>(entry_id)
                },
                Err(error) => {
                    &&& begun.state == whole.state
                    &&& begun.calls == whole.calls
                    &&& whole.value == Err::<u64, TimelockError>(error)
                },
            }
        }),
{
    let opened = crate::host::opening::<KeyModel, ValueModel, OutwardModel>(proposal.proposer);
    let request = HostCall::Outward {
        request: OutwardModel::Hash { operation: proposal.operation() },
    };
    assert(opened.push(request).drop_last() =~= opened);
}

/// The ledger after an action.
pub open spec fn after(s: Ledger, action: Action) -> Ledger {
    match action {
        Action::Initialize { admin, executor, min_delay_secs, max_delay_secs } => model::initialize(
            s,
            admin,
            executor,
            min_delay_secs,
            max_delay_secs,
        ).state,
        Action::Queue { now, proposer, operation, description, delay_secs } => queued(
            s,
            now,
            proposer,
            operation,
            description,
            delay_secs,
        ).state,
        Action::Execute { now, executor, entry_id } => model::execute(
            s,
            now,
            executor,
            entry_id,
        ).state,
        Action::Cancel { admin, entry_id } => model::cancel(s, admin, entry_id).state,
        Action::Handover { admin, pending_admin } => Ledger {
            admin: Some(admin),
            pending_admin,
            ..s
        },
    }
}

/// The ledger after a run of actions.
pub open spec fn run(s: Ledger, actions: Seq<Action>) -> Ledger
    decreases actions.len(),
{
    if actions.len() == 0 {
        s
    } else {
        after(run(s, actions.drop_last()), actions.last())
    }
}

/// Whether a delay is within the bounds on file; where none are, between a day
/// and thirty.
pub open spec fn within_bounds(s: Ledger, delay: int) -> bool {
    &&& delay >= (match s.min_delay {
        Some(shortest) => shortest as int,
        None => 86_400,
    })
    &&& delay <= (match s.max_delay {
        Some(longest) => longest as int,
        None => 2_592_000,
    })
}

/// Whether an entry is as the rules have it: its delay is one that the contract
/// allows, its grace period is two days and has an end that can be told, and it
/// was executed, if it was, in between.
pub open spec fn sound(s: Ledger, entry: EntryModel) -> bool {
    &&& within_bounds(s, entry.eta - entry.queued_at)
    &&& entry.grace_period == 172_800
    &&& entry.eta + entry.grace_period <= u64::MAX
    &&& entry.status != TimelockStatus::Expired
    &&& match entry.executed_at {
        Some(time) => entry.status == TimelockStatus::Executed && entry.eta <= time <= entry.eta
            + entry.grace_period,
        None => entry.status != TimelockStatus::Executed,
    }
}

/// Whether a ledger is that of a contract that was set up: every id up to the
/// latest is on file and no other, each entry is filed under its own and is as
/// the rules have it, and the operations on file are those of the entries.
pub open spec fn consistent(s: Ledger) -> bool {
    &&& s.admin is Some
    &&& s.grace_period == Some(172_800u64)
    &&& forall|id: u64| #[trigger]
        s.entries.contains_key(id) <==> 1 <= id <= s.last_entry()
    &&& forall|id: u64| #[trigger]
        s.entries.contains_key(id) ==> {
            &&& s.entries[id].entry_id == id
            &&& sound(s, s.entries[id])
            &&& s.operations.contains_key(operation_of(s.entries[id]).hash())
            &&& s.operations[operation_of(s.entries[id]).hash()] == id
        }
    &&& forall|hash: Seq<u8>| #[trigger]
        s.operations.contains_key(hash) ==> {
            &&& s.entries.contains_key(s.operations[hash])
            &&& operation_of(s.entries[s.operations[hash]]).hash() == hash
        }
}

/// A contract without entries is consistent once it is set up.
pub proof fn law_setup_is_consistent(
    s: Ledger,
    admin: Address,
    executor: Address,
    min_delay_secs: u64,
    max_delay_secs: u64,
)
    requires
        s.admin is None,
        s.entries =~= Map::empty(),
        s.operations =~= Map::empty(),
    ensures
        ({
            let step = model::initialize(s, admin, executor, min_delay_secs, max_delay_secs);
            step.value is Ok && consistent(step.state)
        }),
{
}

proof fn lemma_action_keeps_consistency(s: Ledger, action: Action)
    requires
        consistent(s),
    ensures
        consistent(after(s, action)),
{
    let t = after(s, action);
    assert forall|id: u64| #[trigger]
        t.entries.contains_key(id) <==> 1 <= id <= t.last_entry() by {
        assert(s.entries.contains_key(id) <==> 1 <= id <= s.last_entry());
    }
    assert forall|id: u64| #[trigger] t.entries.contains_key(id) implies {
        &&& t.entries[id].entry_id == id
        &&& sound(t, t.entries[id])
        &&& t.operations.contains_key(operation_of(t.entries[id]).hash())
        &&& t.operations[operation_of(t.entries[id]).hash()] == id
    } by {
        if s.entries.contains_key(id) {
            assert(operation_of(t.entries[id]) == operation_of(s.entries[id]));
            assert(sound(s, s.entries[id]));
        }
    }
    assert forall|hash: Seq<u8>| #[trigger] t.operations.contains_key(hash) implies {
        &&& t.entries.contains_key(t.operations[hash])
        &&& operation_of(t.entries[t.operations[hash]]).hash() == hash
    } by {
        if s.operations.contains_key(hash) {
            let id = s.operations[hash];
            assert(s.entries.contains_key(id));
            assert(operation_of(t.entries[id]) == operation_of(s.entries[id]));
        }
    }
}

/// Every run of calls keeps a ledger consistent.
pub proof fn law_consistency_is_kept(s: Ledger, actions: Seq<Action>)
    requires
        consistent(s),
    ensures
        consistent(run(s, actions)),
    decreases actions.len(),
{
    if actions.len() > 0 {
        law_consistency_is_kept(s, actions.drop_last());
        lemma_action_keeps_consistency(run(s, actions.drop_last()), actions.last());
    }
}

/// A contract that is set up cannot be set up again, and keeps its executor, its
/// delays and its grace period, whatever is called.
pub proof fn law_set_up_once(
    s: Ledger,
    actions: Seq<Action>,
    admin: Address,
    executor: Address,
    min_delay_secs: u64,
    max_delay_secs: u64,
)
    requires
        s.admin is Some,
    ensures
        model::initialize(
            run(s, actions),
            admin,
            executor,
            min_delay_secs,
            max_delay_secs,
        ).value == Err::<(), TimelockError>(TimelockError::AlreadyInitialized),
        run(s, actions).executor == s.executor,
        run(s, actions).min_delay == s.min_delay,
        run(s, actions).max_delay == s.max_delay,
        run(s, actions).grace_period == s.grace_period,
    decreases actions.len(),
{
    if actions.len() > 0 {
        law_set_up_once(
            s,
            actions.drop_last(),
            admin,
            executor,
            min_delay_secs,
            max_delay_secs,
        );
    }
}

/// A new entry gets the next id, under which nothing stood; only the
/// administrator makes one, with a delay that the contract allows, counted from
/// now.
pub proof fn law_new_entry(
    s: Ledger,
    now: u64,
    proposer: Address,
    operation: Operation,
    description: Seq<u8>,
    delay_secs: u64,
)
    requires
        consistent(s),
        queued(s, now, proposer, operation, description, delay_secs).value is Ok,
    ensures
        ({
            let step = queued(s, now, proposer, operation, description, delay_secs);
            let id = step.value->Ok_0;
            &&& id == s.last_entry() + 1
            &&& !s.entries.contains_key(id)
            &&& step.state.entries[id].status == TimelockStatus::Queued
            &&& operation_of(step.state.entries[id]) == operation
            &&& step.state.entries[id].queued_at == now
            &&& step.state.entries[id].eta == now + delay_secs
            &&& s.admin == Some(proposer)
            &&& within_bounds(s, delay_secs as int)
        }),
{
}

/// An entry in the queue is executed exactly from its due date to the end of its
/// grace period, on the word of the executor, as long as the one who proposed it
/// is the administrator; and it is ready exactly then.
pub proof fn law_executed_when_due(s: Ledger, now: u64, executor: Address, id: u64)
    requires
        consistent(s),
        s.entries.contains_key(id),
        s.entries[id].status == TimelockStatus::Queued,
    ensures
        model::ready(s, now, id) <==> s.entries[id].eta <= now <= s.entries[id].eta
            + s.entries[id].grace_period,
        model::execute(s, now, executor, id).value is Ok <==> {
            &&& s.entries[id].eta <= now <= s.entries[id].eta + s.entries[id].grace_period
            &&& s.executor == Some(executor)
            &&& s.admin == Some(s.entries[id].proposer)
        },
{
    assert(sound(s, s.entries[id]));
}

/// What is executed is ready, and what is ready is executed for the executor, as
/// long as the one who proposed it is the administrator.
pub proof fn law_ready_is_executed(s: Ledger, now: u64, executor: Address, id: u64)
    ensures
        model::execute(s, now, executor, id).value is Ok <==> {
            &&& model::ready(s, now, id)
            &&& s.executor == Some(executor)
            &&& s.admin == Some(s.entries[id].proposer)
        },
{
}

/// No operation is executed before the shortest delay has passed since it was
/// queued, nor after its grace period.
pub proof fn law_delay_is_kept(s: Ledger, now: u64, executor: Address, id: u64)
    requires
        consistent(s),
        model::execute(s, now, executor, id).value is Ok,
    ensures
        s.entries.contains_key(id),
        s.min_delay matches Some(shortest) ==> now >= s.entries[id].queued_at + shortest,
        s.min_delay is None ==> now >= s.entries[id].queued_at + 86_400,
        s.entries[id].eta <= now <= s.entries[id].eta + s.entries[id].grace_period,
{
    assert(sound(s, s.entries[id]));
}

/// From the set-up on, whatever is called, nothing is queued with less than the
/// shortest delay that the contract was set up with, nor with more than the
/// longest, and nothing is executed before that shortest delay has passed since
/// it was queued.
pub proof fn law_delays_of_the_setup_are_kept(
    s: Ledger,
    admin: Address,
    executor: Address,
    min_delay_secs: u64,
    max_delay_secs: u64,
    actions: Seq<Action>,
    proposal: model::ProposalModel,
    now: u64,
    caller: Address,
    id: u64,
)
    requires
        s.admin is None,
        s.entries =~= Map::empty(),
        s.operations =~= Map::empty(),
    ensures
        ({
            let set_up = model::initialize(s, admin, executor, min_delay_secs, max_delay_secs);
            let later = run(set_up.state, actions);
            &&& set_up.value is Ok
            &&& model::queue(later, proposal).value is Ok ==> min_delay_secs <= proposal.delay_secs
                <= max_delay_secs
            &&& model::execute(later, now, caller, id).value is Ok ==> {
                &&& later.entries.contains_key(id)
                &&& now >= later.entries[id].queued_at + min_delay_secs
                &&& later.entries[id].eta <= later.entries[id].queued_at + max_delay_secs
                &&& caller == executor
            }
        }),
{
    law_setup_is_consistent(s, admin, executor, min_delay_secs, max_delay_secs);
    let set_up = model::initialize(s, admin, executor, min_delay_secs, max_delay_secs).state;
    let later = run(set_up, actions);
    law_consistency_is_kept(set_up, actions);
    law_set_up_once(set_up, actions, admin, executor, min_delay_secs, max_delay_secs);
    if model::execute(later, now, caller, id).value is Ok {
        assert(sound(later, later.entries[id]));
    }
}

/// The end of a grace period never overflows when an entry is executed.
pub proof fn law_grace_period_ends(s: Ledger, now: u64, executor: Address, id: u64)
    requires
        consistent(s),
    ensures
        model::execute(s, now, executor, id).value != Err::<(), TimelockError>(
            TimelockError::GraceEndOverflow,
        ),
{
    if s.entries.contains_key(id) {
        assert(sound(s, s.entries[id]));
    }
}

/// An entry that has left the queue stays as it is, whatever is called, and can
/// neither be executed nor cancelled: the executor and the administrator are
/// told that it is not in the queue.
pub proof fn law_out_of_the_queue_for_good(
    s: Ledger,
    actions: Seq<Action>,
    id: u64,
    now: u64,
    caller: Address,
)
    requires
        consistent(s),
        s.entries.contains_key(id),
        s.entries[id].status != TimelockStatus::Queued,
    ensures
        run(s, actions).entries.contains_key(id),
        run(s, actions).entries[id] == s.entries[id],
        model::execute(run(s, actions), now, caller, id).value is Err,
        s.executor == Some(caller) ==> model::execute(run(s, actions), now, caller, id).value
            == Err::<(), TimelockError>(TimelockError::NotQueued),
        model::cancel(run(s, actions), caller, id).value is Err,
        run(s, actions).admin == Some(caller) ==> model::cancel(
            run(s, actions),
            caller,
            id,
        ).value == Err::<(), TimelockError>(TimelockError::NotQueued),
    decreases actions.len(),
{
    law_set_up_once(s, actions, caller, caller, 0, 0);
    if actions.len() > 0 {
        law_out_of_the_queue_for_good(s, actions.drop_last(), id, now, caller);
        law_consistency_is_kept(s, actions.drop_last());
    }
}

/// An entry is executed at most once: after that it is not in the queue.
pub proof fn law_executed_at_most_once(
    s: Ledger,
    now: u64,
    executor: Address,
    id: u64,
    actions: Seq<Action>,
    then: u64,
    caller: Address,
)
    requires
        consistent(s),
        model::execute(s, now, executor, id).value is Ok,
    ensures
        ({
            let again = model::execute(
                run(model::execute(s, now, executor, id).state, actions),
                then,
                caller,
                id,
            );
            &&& again.value is Err
            &&& caller == executor ==> again.value == Err::<(), TimelockError>(
                TimelockError::NotQueued,
            )
        }),
{
    let executed = model::execute(s, now, executor, id).state;
    assert(executed == after(s, Action::Execute { now, executor, entry_id: id }));
    lemma_action_keeps_consistency(s, Action::Execute { now, executor, entry_id: id });
    law_out_of_the_queue_for_good(executed, actions, id, then, caller);
}

/// A cancelled entry is never executed.
pub proof fn law_cancelled_is_never_executed(
    s: Ledger,
    admin: Address,
    id: u64,
    actions: Seq<Action>,
    then: u64,
    caller: Address,
)
    requires
        consistent(s),
        model::cancel(s, admin, id).value is Ok,
    ensures
        ({
            let refused = model::execute(
                run(model::cancel(s, admin, id).state, actions),
                then,
                caller,
                id,
            );
            &&& refused.value is Err
            &&& s.executor == Some(caller) ==> refused.value == Err::<(), TimelockError>(
                TimelockError::NotQueued,
            )
        }),
{
    let cancelled = model::cancel(s, admin, id).state;
    assert(cancelled == after(s, Action::Cancel { admin, entry_id: id }));
    lemma_action_keeps_consistency(s, Action::Cancel { admin, entry_id: id });
    law_out_of_the_queue_for_good(cancelled, actions, id, then, caller);
}

/// No call removes an entry or alters what was queued: the operation, who
/// proposed it, and when it is due.
pub proof fn law_entries_are_fixed(s: Ledger, actions: Seq<Action>, id: u64)
    requires
        consistent(s),
        s.entries.contains_key(id),
    ensures
        run(s, actions).entries.contains_key(id),
        ({
            let later = run(s, actions).entries[id];
            later == EntryModel {
                status: later.status,
                executed_at: later.executed_at,
                ..s.entries[id]
            }
        }),
    decreases actions.len(),
{
    if actions.len() > 0 {
        law_entries_are_fixed(s, actions.drop_last(), id);
        law_consistency_is_kept(s, actions.drop_last());
    }
}

/// An operation that was queued once is refused ever after, executed, cancelled
/// or not: a proposal that is in order otherwise is refused as a duplicate.
pub proof fn law_queued_once(
    s: Ledger,
    actions: Seq<Action>,
    operation: Operation,
    now: u64,
    proposer: Address,
    description: Seq<u8>,
    delay_secs: u64,
)
    requires
        s.operations.contains_key(operation.hash()),
    ensures
        run(s, actions).operations.contains_key(operation.hash()),
        queued(run(s, actions), now, proposer, operation, description, delay_secs).value is Err,
        run(s, actions).admin == Some(proposer) && within_bounds(run(s, actions), delay_secs as int)
            ==> queued(
            run(s, actions),
            now,
            proposer,
            operation,
            description,
            delay_secs,
        ).value == Err::<u64, TimelockError>(TimelockError::AlreadyQueued),
    decreases actions.len(),
{
    if actions.len() > 0 {
        law_queued_once(
            s,
            actions.drop_last(),
            operation,
            now,
            proposer,
            description,
            delay_secs,
        );
    }
}

/// Once an operation is queued, its hash is on file.
pub proof fn law_queueing_files_the_hash(
    s: Ledger,
    now: u64,
    proposer: Address,
    operation: Operation,
    description: Seq<u8>,
    delay_secs: u64,
)
    requires
        queued(s, now, proposer, operation, description, delay_secs).value is Ok,
    ensures
        !s.operations.contains_key(operation.hash()),
        ({
            let step = queued(s, now, proposer, operation, description, delay_secs);
            step.state.operations.contains_key(operation.hash())
                && step.state.operations[operation.hash()] == step.value->Ok_0
        }),
{
}

/// Whether two operations can be told apart: their names are symbols, their
/// arguments say where they end, and where their bytes differ so do their
/// hashes.
pub open spec fn distinguishable(operation: Operation, other: Operation) -> bool {
    &&& crate::operation::is_symbol(operation.function_name)
    &&& crate::operation::is_symbol(other.function_name)
    &&& crate::operation::self_delimiting(operation.args, other.args)
    &&& operation.bytes() != other.bytes() ==> operation.hash() != other.hash()
}

proof fn lemma_other_hash(operation: Operation, other: Operation)
    requires
        distinguishable(operation, other),
        operation != other,
    ensures
        operation.hash() != other.hash(),
{
    if operation.bytes() == other.bytes() {
        crate::operation::law_operations_are_told_apart(
            operation.target_contract,
            operation.function_name,
            operation.args,
            other.target_contract,
            other.function_name,
            other.args,
        );
        crate::operation::law_arguments_are_told_apart(operation.args, other.args);
    }
}

/// Only duplicates are refused as such: an operation that differs from every one
/// that was queued, be it in the target, the function or the arguments, is not
/// refused as already queued.
pub proof fn law_only_duplicates_are_refused(
    s: Ledger,
    now: u64,
    proposer: Address,
    operation: Operation,
    description: Seq<u8>,
    delay_secs: u64,
)
    requires
        consistent(s),
        forall|id: u64| #[trigger]
            s.entries.contains_key(id) ==> operation_of(s.entries[id]) != operation
                && distinguishable(operation_of(s.entries[id]), operation),
    ensures
        !s.operations.contains_key(operation.hash()),
        queued(s, now, proposer, operation, description, delay_secs).value != Err::<
            u64,
            TimelockError,
        >(TimelockError::AlreadyQueued),
{
    if s.operations.contains_key(operation.hash()) {
        let id = s.operations[operation.hash()];
        assert(s.entries.contains_key(id));
        lemma_other_hash(operation_of(s.entries[id]), operation);
    }
}

/// Queueing one operation does not stand in the way of another: one that differs
/// from it, and was not queued itself, is queued as well, by the same
/// administrator, with any delay that is allowed and does not overflow.
pub proof fn law_another_operation_can_be_queued(
    s: Ledger,
    now: u64,
    proposer: Address,
    operation: Operation,
    description: Seq<u8>,
    delay_secs: u64,
    then: u64,
    other: Operation,
    other_description: Seq<u8>,
    other_delay: u64,
)
    requires
        consistent(s),
        queued(s, now, proposer, operation, description, delay_secs).value is Ok,
        operation != other,
        distinguishable(operation, other),
        !s.operations.contains_key(other.hash()),
        within_bounds(s, other_delay as int),
        then + other_delay + 172_800 <= u64::MAX,
        s.last_entry() + 1 < u64::MAX,
    ensures
        ({
            let first = queued(s, now, proposer, operation, description, delay_secs).state;
            queued(first, then, proposer, other, other_description, other_delay).value == Ok::<
                u64,
                TimelockError,
            >((s.last_entry() + 2) as u64)
        }),
{
    lemma_other_hash(operation, other);
}

/// What a former administrator queued is not executed: the executor is told that
/// the proposer is no longer authorized.
pub proof fn law_former_administrators_are_not_heeded(
    s: Ledger,
    now: u64,
    executor: Address,
    id: u64,
)
    requires
        s.entries.contains_key(id),
        s.admin != Some(s.entries[id].proposer),
    ensures
        model::execute(s, now, executor, id).value is Err,
        s.executor == Some(executor) && s.admin is Some && s.entries[id].status
            == TimelockStatus::Queued ==> model::execute(s, now, executor, id).value == Err::<
            (),
            TimelockError,
        >(TimelockError::ProposerNotAuthorized),
{
}

/// Whether a request hands control to another contract.
pub open spec fn hands_control_over(call: CallModel) -> bool {
    call matches HostCall::Outward { request: OutwardModel::Invoke { .. } }
}

/// The invocation of the operation of an entry.
pub open spec fn invocation(entry: EntryModel) -> CallModel {
    HostCall::Outward {
        request: OutwardModel::Invoke {
            target_contract: entry.target_contract,
            function_name: entry.function_name,
            args: entry.args,
        },
    }
}

/// The filing of an entry.
pub open spec fn entry_set(entry: EntryModel) -> CallModel {
    HostCall::SetPersistent {
        key: KeyModel::Entry(entry.entry_id),
        value: ValueModel::Entry(entry),
    }
}

/// An entry is executed by one invocation of its operation, and by then it is
/// on file as executed: another contract that calls back finds it so.
pub proof fn law_effects_before_interactions(s: Ledger, now: u64, executor: Address, id: u64)
    requires
        consistent(s),
        model::execute(s, now, executor, id).value is Ok,
    ensures
        ({
            let step = model::execute(s, now, executor, id);
            &&& step.calls[2] == entry_set(step.state.entries[id])
            &&& step.state.entries[id].status == TimelockStatus::Executed
            &&& step.calls[4] == invocation(s.entries[id])
            &&& forall|i: int|
                0 <= i < step.calls.len() && i != 4 ==> !hands_control_over(#[trigger] step.calls[i])
        }),
{
}

/// A call that fails leaves the ledger as it was.
pub proof fn law_failure_changes_nothing(
    s: Ledger,
    now: u64,
    caller: Address,
    executor: Address,
    min_delay_secs: u64,
    max_delay_secs: u64,
    operation: Operation,
    description: Seq<u8>,
    delay_secs: u64,
    id: u64,
)
    ensures
        ({
            let step = model::initialize(s, caller, executor, min_delay_secs, max_delay_secs);
            step.value is Err ==> step.state == s
        }),
        ({
            let step = queued(s, now, caller, operation, description, delay_secs);
            step.value is Err ==> step.state == s
        }),
        model::execute(s, now, caller, id).value is Err ==> model::execute(
            s,
            now,
            caller,
            id,
        ).state == s,
        model::cancel(s, caller, id).value is Err ==> model::cancel(s, caller, id).state == s,
{
}

/// The ledger once the host has carried out a request.
pub open spec fn carried_out(s: Ledger, call: CallModel) -> Ledger {
    match call {
        HostCall::SetInstance { key: KeyModel::Admin, value: ValueModel::Address(admin) } =>
            Ledger { admin: Some(admin), ..s },
        HostCall::SetInstance {
            key: KeyModel::ExecutorAddress,
            value: ValueModel::Address(executor),
        } => Ledger { executor: Some(executor), ..s },
        HostCall::SetInstance { key: KeyModel::MinDelay, value: ValueModel::Number(delay) } =>
            Ledger { min_delay: Some(delay), ..s },
        HostCall::SetInstance { key: KeyModel::MaxDelay, value: ValueModel::Number(delay) } =>
            Ledger { max_delay: Some(delay), ..s },
        HostCall::SetInstance { key: KeyModel::GracePeriod, value: ValueModel::Number(period) } =>
            Ledger { grace_period: Some(period), ..s },
        HostCall::SetInstance { key: KeyModel::EntryCounter, value: ValueModel::Number(counter) } =>
            Ledger { entry_counter: Some(counter), ..s },
        HostCall::SetPersistent { key: KeyModel::Entry(id), value: ValueModel::Entry(entry) } =>
            Ledger { entries: s.entries.insert(id, entry), ..s },
        HostCall::SetPersistent {
            key: KeyModel::OperationHash(hash),
            value: ValueModel::Number(id),
        } => Ledger { operations: s.operations.insert(hash, id), ..s },
        _ => s,
    }
}

/// What a request makes of a ledger.
pub open spec fn carrier() -> spec_fn(Ledger, CallModel) -> Ledger {
    |s: Ledger, call: CallModel| carried_out(s, call)
}

/// The ledger once the host has carried out some requests, one by one.
pub open spec fn replay(s: Ledger, calls: Seq<CallModel>) -> Ledger {
    crate::host::replay(s, carrier(), calls)
}

proof fn lemma_initialize_replays(
    s: Ledger,
    admin: Address,
    executor: Address,
    min_delay_secs: u64,
    max_delay_secs: u64,
)
    ensures
        ({
            let step = model::initialize(s, admin, executor, min_delay_secs, max_delay_secs);
            step.value is Ok ==> replay(s, step.calls) == step.state
        }),
{
    let step = model::initialize(s, admin, executor, min_delay_secs, max_delay_secs);
    if step.value is Ok {
        crate::host::lemma_replay_opening(s, carrier(), admin);
        let c = step.calls;
        let c0 = crate::host::opening::<KeyModel, ValueModel, OutwardModel>(admin);
        let c1 = c0.push(c[2]);
        let c2 = c1.push(c[3]);
        let c3 = c2.push(c[4]);
        let c4 = c3.push(c[5]);
        let c5 = c4.push(c[6]);
        crate::host::lemma_replay_one(s, carrier(), c0, c[2]);
        crate::host::lemma_replay_one(s, carrier(), c1, c[3]);
        crate::host::lemma_replay_one(s, carrier(), c2, c[4]);
        crate::host::lemma_replay_one(s, carrier(), c3, c[5]);
        crate::host::lemma_replay_one(s, carrier(), c4, c[6]);
        crate::host::lemma_replay_one(s, carrier(), c5, c[7]);
        assert(c =~= c5.push(c[7]));
    }
}

proof fn lemma_queue_replays(
    s: Ledger,
    now: u64,
    proposer: Address,
    operation: Operation,
    description: Seq<u8>,
    delay_secs: u64,
)
    ensures
        ({
            let step = queued(s, now, proposer, operation, description, delay_secs);
            step.value is Ok ==> replay(s, step.calls) == step.state
        }),
{
    let step = queued(s, now, proposer, operation, description, delay_secs);
    if step.value is Ok {
        crate::host::lemma_replay_opening(s, carrier(), proposer);
        let id = step.value->Ok_0;
        let entry = step.state.entries[id];
        let opened = crate::host::opening::<KeyModel, ValueModel, OutwardModel>(proposer);
        let c = step.calls;
        let filed = opened + crate::host::filing(KeyModel::Entry(id), ValueModel::Entry(entry));
        crate::host::lemma_replay_filing(
            s,
            carrier(),
            opened,
            KeyModel::Entry(id),
            ValueModel::Entry(entry),
        );
        crate::host::lemma_replay_one(s, carrier(), filed, c[4]);
        crate::host::lemma_replay_one(s, carrier(), filed.push(c[4]), c[5]);
        crate::host::lemma_replay_one(s, carrier(), filed.push(c[4]).push(c[5]), c[6]);
        assert(c =~= filed.push(c[4]).push(c[5]).push(c[6]));
    }
}

/// What a call that succeeds asks the host to file is what the ledger then
/// holds.
pub proof fn law_requests_make_the_ledger(
    s: Ledger,
    now: u64,
    caller: Address,
    executor: Address,
    min_delay_secs: u64,
    max_delay_secs: u64,
    operation: Operation,
    description: Seq<u8>,
    delay_secs: u64,
    id: u64,
)
    ensures
        ({
            let step = model::initialize(s, caller, executor, min_delay_secs, max_delay_secs);
            step.value is Ok ==> replay(s, step.calls) == step.state
        }),
        ({
            let step = queued(s, now, caller, operation, description, delay_secs);
            step.value is Ok ==> replay(s, step.calls) == step.state
        }),
        ({
            let begun = model::queue(
                s,
                proposal_of(now, caller, operation, description, delay_secs),
            );
            begun.value is Ok ==> replay(s, begun.calls) == begun.state
        }),
        model::execute(s, now, caller, id).value is Ok ==> replay(
            s,
            model::execute(s, now, caller, id).calls,
        ) == model::execute(s, now, caller, id).state,
        model::cancel(s, caller, id).value is Ok ==> replay(s, model::cancel(s, caller, id).calls)
            == model::cancel(s, caller, id).state,
        replay(s, model::reading()) == s,
{
    lemma_initialize_replays(s, caller, executor, min_delay_secs, max_delay_secs);
    lemma_queue_replays(s, now, caller, operation, description, delay_secs);
    crate::host::lemma_replay_opening(s, carrier(), caller);
    let opened = crate::host::opening::<KeyModel, ValueModel, OutwardModel>(caller);
    crate::host::lemma_replay_one(
        s,
        carrier(),
        opened,
        HostCall::Outward { request: OutwardModel::Hash { operation: operation.bytes() } },
    );
    let executed = model::execute(s, now, caller, id);
    if executed.value is Ok {
        let entry = executed.state.entries[id];
        let filed = opened + crate::host::filing(KeyModel::Entry(id), ValueModel::Entry(entry));
        crate::host::lemma_replay_filing(
            s,
            carrier(),
            opened,
            KeyModel::Entry(id),
            ValueModel::Entry(entry),
        );
        crate::host::lemma_replay_one(s, carrier(), filed, executed.calls[4]);
        crate::host::lemma_replay_one(s, carrier(), filed.push(executed.calls[4]), executed.calls[5]);
        assert(executed.calls =~= filed.push(executed.calls[4]).push(executed.calls[5]));
    }
    crate::host::lemma_replay_filing(
        s,
        carrier(),
        opened,
        KeyModel::Entry(id),
        ValueModel::Entry(EntryModel { status: TimelockStatus::Cancelled, ..s.entries[id] }),
    );
}

} // verus!
