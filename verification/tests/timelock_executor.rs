use pulsar_contracts::address::Address;
use pulsar_contracts::admin::AdminRequest;
use pulsar_contracts::host::HostCall;
use pulsar_contracts::operation::{operation_bytes, operation_hash, Symbol};
use pulsar_contracts::timelock_executor::{
    Call, DataKey, Event, Outward, Proposal, Queueing, TimelockEntry, TimelockError,
    TimelockExecutorContract, TimelockStatus, Value, DEFAULT_MAX_DELAY, DEFAULT_MIN_DELAY,
    GRACE_PERIOD_SECS,
};

const ADMIN: Address = Address::Account([1u8; 32]);
const EXECUTOR: Address = Address::Account([2u8; 32]);
const TARGET: Address = Address::Contract([7u8; 32]);
const STRANGER: Address = Address::Account([5u8; 32]);
const NOW: u64 = 1_000_000;

/// The hash of the call of `set_fee` that most tests queue.
const SET_FEE_HASH: [u8; 32] = [
    84, 168, 5, 211, 174, 205, 2, 119, 122, 54, 193, 60, 68, 152, 60, 79, 90, 110, 180, 0, 159,
    175, 28, 108, 158, 154, 237, 161, 2, 41, 128, 242,
];

fn renewal() -> Call {
    HostCall::ExtendInstanceTtl { threshold: 17_280, extend_to: 86_400 }
}

fn opening(caller: Address) -> Vec<Call> {
    vec![renewal(), HostCall::RequireAuth { address: caller }]
}

fn filing(entry: TimelockEntry) -> Vec<Call> {
    let key = DataKey::Entry(entry.entry_id);
    vec![
        HostCall::SetPersistent { key, value: Value::Entry(entry) },
        HostCall::ExtendPersistentTtl { key, threshold: 120_960, extend_to: 1_051_200 },
    ]
}

fn symbol(name: &str) -> Symbol {
    Symbol::new(name.as_bytes().to_vec()).unwrap()
}

fn args() -> Vec<Vec<u8>> {
    vec![vec![0u8, 0, 0, 3, 0, 0, 0, 5], vec![0u8, 0, 0, 1]]
}

fn set_up() -> TimelockExecutorContract {
    let mut contract = TimelockExecutorContract::new();
    assert_eq!(contract.initialize(ADMIN, EXECUTOR, 3_600, 604_800).value, Ok(()));
    contract
}

/// The id of an entry that is in the queue.
fn entry_id(queueing: Queueing) -> u64 {
    match queueing {
        Queueing::Queued(id) => id,
        Queueing::AwaitsHash(_) => unreachable!(),
    }
}

fn queue_set_fee(contract: &mut TimelockExecutorContract) -> Result<u64, TimelockError> {
    contract
        .queue(NOW, ADMIN, TARGET, symbol("set_fee"), args(), b"raise fee".to_vec(), 7_200)
        .value
        .map(entry_id)
}

fn with_entry() -> TimelockExecutorContract {
    let mut contract = set_up();
    assert_eq!(queue_set_fee(&mut contract), Ok(1));
    contract
}

fn first() -> TimelockEntry {
    TimelockEntry {
        entry_id: 1,
        proposer: ADMIN,
        target_contract: TARGET,
        function_name: symbol("set_fee"),
        description: b"raise fee".to_vec(),
        eta: 1_007_200,
        grace_period: 172_800,
        args: args(),
        status: TimelockStatus::Queued,
        queued_at: 1_000_000,
        executed_at: None,
    }
}

fn entry(contract: &TimelockExecutorContract, id: u64) -> TimelockEntry {
    contract.get_entry(id).value.unwrap()
}

#[test]
fn timelock_initialize() {
    let mut contract = TimelockExecutorContract::new();
    let outcome = contract.initialize(ADMIN, EXECUTOR, 3_600, 604_800);
    assert_eq!(outcome.value, Ok(()));
    let mut want = opening(ADMIN);
    want.push(HostCall::SetInstance { key: DataKey::Admin, value: Value::Address(ADMIN) });
    want.push(HostCall::SetInstance {
        key: DataKey::ExecutorAddress,
        value: Value::Address(EXECUTOR),
    });
    want.push(HostCall::SetInstance { key: DataKey::MinDelay, value: Value::Number(3_600) });
    want.push(HostCall::SetInstance { key: DataKey::MaxDelay, value: Value::Number(604_800) });
    want.push(HostCall::SetInstance { key: DataKey::GracePeriod, value: Value::Number(172_800) });
    want.push(HostCall::SetInstance { key: DataKey::EntryCounter, value: Value::Number(0) });
    assert_eq!(outcome.calls, want);
    assert_eq!(contract.admin, Some(ADMIN));
    assert_eq!(contract.pending_admin, None);
    assert_eq!(contract.executor, Some(EXECUTOR));
    assert_eq!(contract.min_delay, Some(3_600));
    assert_eq!(contract.max_delay, Some(604_800));
    assert_eq!(contract.grace_period, Some(172_800));
    assert_eq!(contract.entry_counter, Some(0));
}

#[test]
fn timelock_initialize_twice() {
    let mut contract = with_entry();
    let outcome = contract.initialize(STRANGER, STRANGER, 0, 0);
    assert_eq!(outcome.value, Err(TimelockError::AlreadyInitialized));
    assert_eq!(outcome.calls, vec![renewal()]);
    assert_eq!(contract.admin, Some(ADMIN));
    assert_eq!(contract.entry_counter, Some(1));
}

#[test]
fn queue_files_the_entry_and_the_hash() {
    let mut contract = set_up();
    let outcome = contract.queue(
        NOW,
        ADMIN,
        TARGET,
        symbol("set_fee"),
        args(),
        b"raise fee".to_vec(),
        7_200,
    );
    assert_eq!(outcome.value, Ok(Queueing::Queued(1)));
    let mut want = opening(ADMIN);
    want.extend(filing(first()));
    want.push(HostCall::SetInstance { key: DataKey::EntryCounter, value: Value::Number(1) });
    want.push(HostCall::SetPersistent {
        key: DataKey::OperationHash(SET_FEE_HASH),
        value: Value::Number(1),
    });
    want.push(HostCall::Outward {
        request: Outward::Publish(Event::Queued { entry_id: 1, proposer: ADMIN }),
    });
    assert_eq!(outcome.calls, want);
    let found = contract.get_entry(1);
    assert_eq!(found.value, Some(first()));
    assert_eq!(found.calls, vec![renewal()]);
    assert_eq!(contract.get_entry(2).value, None);
    assert_eq!(contract.operations.get(&SET_FEE_HASH), Some(&1));
}

#[test]
fn entries_are_numbered_in_order() {
    let mut contract = with_entry();
    for id in 2u64..5 {
        let queued =
            contract.queue(NOW, ADMIN, TARGET, symbol("vote"), vec![vec![id as u8]], vec![], 3_600);
        assert_eq!(queued.value, Ok(Queueing::Queued(id)));
        assert_eq!(entry(&contract, id).entry_id, id);
    }
    assert_eq!(entry(&contract, 1), first());
}

#[test]
fn only_the_administrator_queues() {
    let mut contract = set_up();
    for caller in [STRANGER, EXECUTOR] {
        let outcome = contract.queue(NOW, caller, TARGET, symbol("f"), vec![], vec![], 0);
        assert_eq!(outcome.value, Err(TimelockError::Unauthorized));
        assert_eq!(outcome.calls, opening(caller));
    }
    let mut bare = TimelockExecutorContract::new();
    let outcome = bare.queue(NOW, ADMIN, TARGET, symbol("f"), vec![], vec![], 7_200);
    assert_eq!(outcome.value, Err(TimelockError::AdminMissing));
    assert_eq!(outcome.calls, opening(ADMIN));
}

#[test]
fn delays_are_within_bounds() {
    let mut contract = set_up();
    for delay in [0u64, 3_599, 604_801, u64::MAX] {
        let outcome = contract.queue(NOW, ADMIN, TARGET, symbol("f"), vec![], vec![], delay);
        assert_eq!(outcome.value, Err(TimelockError::InvalidDelay));
        assert_eq!(outcome.calls, opening(ADMIN));
    }
    let shortest = contract.queue(NOW, ADMIN, TARGET, symbol("f"), vec![], vec![], 3_600);
    assert_eq!(shortest.value, Ok(Queueing::Queued(1)));
    assert_eq!(entry(&contract, 1).eta, 1_003_600);
    let longest = contract.queue(NOW, ADMIN, TARGET, symbol("g"), vec![], vec![], 604_800);
    assert_eq!(longest.value, Ok(Queueing::Queued(2)));
    assert_eq!(entry(&contract, 2).eta, 1_604_800);
}

#[test]
fn delays_where_no_bounds_are_filed() {
    assert_eq!(DEFAULT_MIN_DELAY, 86_400);
    assert_eq!(DEFAULT_MAX_DELAY, 2_592_000);
    assert_eq!(GRACE_PERIOD_SECS, 172_800);
    let mut contract = set_up();
    contract.min_delay = None;
    contract.max_delay = None;
    for delay in [86_399u64, 2_592_001] {
        let outcome = contract.queue(NOW, ADMIN, TARGET, symbol("f"), vec![], vec![], delay);
        assert_eq!(outcome.value, Err(TimelockError::InvalidDelay));
    }
    let f = contract.queue(NOW, ADMIN, TARGET, symbol("f"), vec![], vec![], 86_400);
    assert_eq!(f.value, Ok(Queueing::Queued(1)));
    let g = contract.queue(NOW, ADMIN, TARGET, symbol("g"), vec![], vec![], 2_592_000);
    assert_eq!(g.value, Ok(Queueing::Queued(2)));
}

#[test]
fn an_operation_is_queued_once() {
    let mut contract = with_entry();
    let again = contract.queue(
        NOW + 5,
        ADMIN,
        TARGET,
        symbol("set_fee"),
        args(),
        b"another description".to_vec(),
        3_600,
    );
    assert_eq!(again.value, Err(TimelockError::AlreadyQueued));
    assert_eq!(again.calls, opening(ADMIN));
    assert_eq!(contract.cancel(ADMIN, 1).value, Ok(()));
    assert_eq!(queue_set_fee(&mut contract), Err(TimelockError::AlreadyQueued));
    let other = contract.queue(NOW, ADMIN, TARGET, symbol("set_fee"), vec![], vec![], 3_600);
    assert_eq!(other.value, Ok(Queueing::Queued(2)));
}

#[test]
fn the_host_hashes_an_operation_that_is_too_long_to_be_hashed_here() {
    let mut contract = set_up();
    let long = vec![vec![0u8; 1_800_000]];
    assert_eq!(operation_hash(&TARGET, &symbol("f"), &long), None);
    let refused = contract.queue(NOW, ADMIN, TARGET, symbol("f"), long.clone(), vec![], 0);
    assert_eq!(refused.value, Err(TimelockError::InvalidDelay));
    assert_eq!(refused.calls, opening(ADMIN));
    let begun = contract.queue(NOW, ADMIN, TARGET, symbol("f"), long.clone(), vec![], 7_200);
    let mut want = opening(ADMIN);
    want.push(HostCall::Outward {
        request: Outward::Hash { operation: operation_bytes(&TARGET, &symbol("f"), &long) },
    });
    assert!(begun.calls == want);
    assert_eq!(contract.entry_counter, Some(0));
    let proposal = match begun.value {
        Ok(Queueing::AwaitsHash(proposal)) => proposal,
        _ => unreachable!(),
    };
    let finished = contract.finish_queue(proposal, [9u8; 32]);
    assert_eq!(finished.value, Ok(1));
    assert_eq!(entry(&contract, 1).eta, 1_007_200);
    assert!(entry(&contract, 1).args == long);
    assert_eq!(contract.operations.get(&[9u8; 32]), Some(&1));
}

fn set_fee_proposal() -> Proposal {
    Proposal {
        now: NOW,
        proposer: ADMIN,
        target_contract: TARGET,
        function_name: symbol("set_fee"),
        args: args(),
        description: b"raise fee".to_vec(),
        delay_secs: 7_200,
    }
}

#[test]
fn finish_queue_goes_by_the_hash_it_is_given() {
    let mut contract = set_up();
    let outcome = contract.finish_queue(set_fee_proposal(), [9u8; 32]);
    assert_eq!(outcome.value, Ok(1));
    let mut want = filing(first());
    want.push(HostCall::SetInstance { key: DataKey::EntryCounter, value: Value::Number(1) });
    want.push(HostCall::SetPersistent {
        key: DataKey::OperationHash([9u8; 32]),
        value: Value::Number(1),
    });
    want.push(HostCall::Outward {
        request: Outward::Publish(Event::Queued { entry_id: 1, proposer: ADMIN }),
    });
    assert_eq!(outcome.calls, want);
    assert_eq!(entry(&contract, 1), first());
    let again = contract.finish_queue(set_fee_proposal(), [9u8; 32]);
    assert_eq!(again.value, Err(TimelockError::AlreadyQueued));
    assert_eq!(again.calls, vec![]);
    assert_eq!(queue_set_fee(&mut contract), Ok(2));
}

#[test]
fn both_ways_of_hashing_come_to_the_same() {
    let mut here = with_entry();
    let mut there = set_up();
    let finished = there.finish_queue(set_fee_proposal(), SET_FEE_HASH);
    assert_eq!(finished.value, Ok(1));
    assert_eq!(entry(&here, 1), entry(&there, 1));
    assert_eq!(here.operations.get(&SET_FEE_HASH), there.operations.get(&SET_FEE_HASH));
    assert_eq!(here.entry_counter, there.entry_counter);
    assert_eq!(queue_set_fee(&mut here), Err(TimelockError::AlreadyQueued));
    assert_eq!(queue_set_fee(&mut there), Err(TimelockError::AlreadyQueued));
}

#[test]
fn other_operations_are_no_duplicates() {
    let mut contract = with_entry();
    let [five, one] = [vec![0u8, 0, 0, 3, 0, 0, 0, 5], vec![0u8, 0, 0, 1]];
    let others = [
        (Address::Contract([8u8; 32]), "set_fee", vec![five.clone(), one.clone()]),
        (TARGET, "set_fees", vec![five.clone(), one.clone()]),
        (TARGET, "set_fee", vec![one.clone(), five.clone()]),
        (TARGET, "set_fee", vec![five.clone()]),
        (TARGET, "set_fee", vec![five.clone(), one.clone(), one.clone()]),
        (TARGET, "set_fee", vec![five.clone(), five.clone()]),
    ];
    let mut id: u64 = 1;
    for (target, name, list) in others {
        id += 1;
        let description = b"raise fee".to_vec();
        let queued =
            contract.queue(NOW, ADMIN, target, symbol(name), list, description, 7_200);
        assert_eq!(queued.value, Ok(Queueing::Queued(id)));
        assert_eq!(entry(&contract, id).grace_period, 172_800);
    }
}

#[test]
fn queue_at_the_last_id() {
    let mut contract = set_up();
    contract.entry_counter = Some(u64::MAX);
    assert_eq!(queue_set_fee(&mut contract), Err(TimelockError::CounterOverflow));
    contract.entry_counter = None;
    assert_eq!(queue_set_fee(&mut contract), Ok(1));
}

#[test]
fn queue_without_a_grace_period() {
    let mut contract = set_up();
    contract.grace_period = None;
    assert_eq!(queue_set_fee(&mut contract), Err(TimelockError::GracePeriodMissing));
}

#[test]
fn queue_at_the_end_of_the_clock() {
    let mut contract = set_up();
    let past = contract.queue(u64::MAX - 7_199, ADMIN, TARGET, symbol("f"), vec![], vec![], 7_200);
    assert_eq!(past.value, Err(TimelockError::EtaOverflow));
    assert_eq!(past.calls, opening(ADMIN));
    let late =
        contract.queue(u64::MAX - 179_999, ADMIN, TARGET, symbol("f"), vec![], vec![], 7_200);
    assert_eq!(late.value, Err(TimelockError::GraceEndOverflow));
    assert_eq!(late.calls, opening(ADMIN));
    let last =
        contract.queue(u64::MAX - 180_000, ADMIN, TARGET, symbol("f"), vec![], vec![], 7_200);
    assert_eq!(last.value, Ok(Queueing::Queued(1)));
}

#[test]
fn execute_files_the_entry_before_the_call() {
    let mut contract = with_entry();
    let outcome = contract.execute(1_007_200, EXECUTOR, 1);
    assert_eq!(outcome.value, Ok(()));
    let executed = TimelockEntry {
        status: TimelockStatus::Executed,
        executed_at: Some(1_007_200),
        ..first()
    };
    let mut want = opening(EXECUTOR);
    want.extend(filing(executed.clone()));
    want.push(HostCall::Outward {
        request: Outward::Invoke {
            target_contract: TARGET,
            function_name: symbol("set_fee"),
            args: args(),
        },
    });
    want.push(HostCall::Outward { request: Outward::Publish(Event::Executed { entry_id: 1 }) });
    assert_eq!(outcome.calls, want);
    assert_eq!(entry(&contract, 1), executed);
}

#[test]
fn only_the_executor_executes() {
    let mut contract = with_entry();
    for caller in [ADMIN, STRANGER] {
        let outcome = contract.execute(1_007_200, caller, 1);
        assert_eq!(outcome.value, Err(TimelockError::UnauthorizedExecutor));
        assert_eq!(outcome.calls, opening(caller));
    }
    contract.executor = None;
    let outcome = contract.execute(1_007_200, EXECUTOR, 1);
    assert_eq!(outcome.value, Err(TimelockError::ExecutorMissing));
    assert_eq!(entry(&contract, 1), first());
}

#[test]
fn execute_an_unknown_entry() {
    let mut contract = with_entry();
    let outcome = contract.execute(1_007_200, EXECUTOR, 2);
    assert_eq!(outcome.value, Err(TimelockError::EntryNotFound));
    assert_eq!(outcome.calls, opening(EXECUTOR));
}

#[test]
fn the_delay_is_kept() {
    let mut contract = with_entry();
    let outcome = contract.execute(1_007_199, EXECUTOR, 1);
    assert_eq!(outcome.value, Err(TimelockError::NotYetDue));
    assert_eq!(outcome.calls, opening(EXECUTOR));
    assert_eq!(entry(&contract, 1), first());
}

#[test]
fn the_grace_period_ends() {
    let mut contract = with_entry();
    let outcome = contract.execute(1_180_001, EXECUTOR, 1);
    assert_eq!(outcome.value, Err(TimelockError::GracePeriodExpired));
    let mut want = opening(EXECUTOR);
    want.extend(filing(TimelockEntry { status: TimelockStatus::Expired, ..first() }));
    assert_eq!(outcome.calls, want);
    assert_eq!(entry(&contract, 1), first());
    assert_eq!(contract.execute(1_180_000, EXECUTOR, 1).value, Ok(()));
}

#[test]
fn a_grace_period_without_an_end() {
    let mut contract = with_entry();
    contract.entries.set(1, TimelockEntry { grace_period: u64::MAX, ..first() });
    let outcome = contract.execute(1_007_200, EXECUTOR, 1);
    assert_eq!(outcome.value, Err(TimelockError::GraceEndOverflow));
    assert_eq!(outcome.calls, opening(EXECUTOR));
    assert_eq!(contract.is_ready(1_007_200, 1).value, false);
}

#[test]
fn an_entry_is_executed_at_most_once() {
    let mut contract = with_entry();
    assert_eq!(contract.execute(1_007_200, EXECUTOR, 1).value, Ok(()));
    let again = contract.execute(1_007_201, EXECUTOR, 1);
    assert_eq!(again.value, Err(TimelockError::NotQueued));
    assert_eq!(again.calls, opening(EXECUTOR));
    assert_eq!(contract.cancel(ADMIN, 1).value, Err(TimelockError::NotQueued));
    assert_eq!(entry(&contract, 1).executed_at, Some(1_007_200));
}

#[test]
fn a_cancelled_entry_is_never_executed() {
    let mut contract = with_entry();
    let outcome = contract.cancel(ADMIN, 1);
    assert_eq!(outcome.value, Ok(()));
    let cancelled = TimelockEntry { status: TimelockStatus::Cancelled, ..first() };
    let mut want = opening(ADMIN);
    want.extend(filing(cancelled.clone()));
    assert_eq!(outcome.calls, want);
    assert_eq!(contract.execute(1_007_200, EXECUTOR, 1).value, Err(TimelockError::NotQueued));
    assert_eq!(contract.cancel(ADMIN, 1).value, Err(TimelockError::NotQueued));
    assert_eq!(entry(&contract, 1), cancelled);
}

#[test]
fn only_the_administrator_cancels() {
    let mut contract = with_entry();
    for caller in [EXECUTOR, STRANGER] {
        let outcome = contract.cancel(caller, 1);
        assert_eq!(outcome.value, Err(TimelockError::Unauthorized));
        assert_eq!(outcome.calls, opening(caller));
    }
    assert_eq!(contract.cancel(ADMIN, 2).value, Err(TimelockError::EntryNotFound));
    contract.admin = None;
    assert_eq!(contract.cancel(ADMIN, 1).value, Err(TimelockError::AdminMissing));
}

#[test]
fn proposals_of_a_former_administrator_are_not_executed() {
    let mut contract = with_entry();
    contract.admin = Some(STRANGER);
    let outcome = contract.execute(1_007_200, EXECUTOR, 1);
    assert_eq!(outcome.value, Err(TimelockError::ProposerNotAuthorized));
    assert_eq!(outcome.calls, opening(EXECUTOR));
    contract.admin = None;
    assert_eq!(contract.execute(1_007_200, EXECUTOR, 1).value, Err(TimelockError::AdminMissing));
    contract.admin = Some(ADMIN);
    assert_eq!(contract.execute(1_007_200, EXECUTOR, 1).value, Ok(()));
}

#[test]
fn is_ready_between_delay_and_grace_end() {
    let mut contract = with_entry();
    let outcome = contract.is_ready(1_007_200, 1);
    assert_eq!(outcome.value, true);
    assert_eq!(outcome.calls, vec![renewal()]);
    assert_eq!(contract.is_ready(1_007_199, 1).value, false);
    assert_eq!(contract.is_ready(1_180_000, 1).value, true);
    assert_eq!(contract.is_ready(1_180_001, 1).value, false);
    assert_eq!(contract.is_ready(1_007_200, 2).value, false);
    assert_eq!(contract.execute(1_007_200, EXECUTOR, 1).value, Ok(()));
    assert_eq!(contract.is_ready(1_007_200, 1).value, false);
}

#[test]
fn entries_keep_what_was_queued() {
    let mut contract = with_entry();
    let queued = contract.queue(NOW, ADMIN, TARGET, symbol("g"), vec![], vec![], 3_600);
    assert_eq!(queued.value, Ok(Queueing::Queued(2)));
    assert_eq!(contract.cancel(ADMIN, 2).value, Ok(()));
    assert_eq!(entry(&contract, 1), first());
    assert_eq!(contract.execute(1_007_300, EXECUTOR, 1).value, Ok(()));
    assert_eq!(
        entry(&contract, 1),
        TimelockEntry {
            status: TimelockStatus::Executed,
            executed_at: Some(1_007_300),
            ..first()
        }
    );
}

/// Files what the calls file, as the host does.
fn carry_out(ledger: &mut TimelockExecutorContract, calls: &Vec<Call>) {
    for call in calls {
        match call {
            HostCall::SetInstance { key, value: Value::Address(address) } => match key {
                DataKey::Admin => ledger.admin = Some(*address),
                DataKey::ExecutorAddress => ledger.executor = Some(*address),
                _ => unreachable!(),
            },
            HostCall::SetInstance { key, value: Value::Number(number) } => match key {
                DataKey::MinDelay => ledger.min_delay = Some(*number),
                DataKey::MaxDelay => ledger.max_delay = Some(*number),
                DataKey::GracePeriod => ledger.grace_period = Some(*number),
                DataKey::EntryCounter => ledger.entry_counter = Some(*number),
                _ => unreachable!(),
            },
            HostCall::SetPersistent { key: DataKey::Entry(id), value: Value::Entry(entry) } => {
                ledger.entries.set(*id, entry.clone());
            }
            HostCall::SetPersistent {
                key: DataKey::OperationHash(hash),
                value: Value::Number(id),
            } => {
                ledger.operations.set(*hash, *id);
            }
            HostCall::SetInstance { .. } | HostCall::SetPersistent { .. } => unreachable!(),
            _ => {}
        }
    }
}

#[test]
fn the_requests_make_the_timelock_ledger() {
    let mut contract = TimelockExecutorContract::new();
    let mut ledger = TimelockExecutorContract::new();
    carry_out(&mut ledger, &contract.initialize(ADMIN, EXECUTOR, 3_600, 604_800).calls);
    let f = contract.queue(NOW, ADMIN, TARGET, symbol("f"), vec![], vec![], 7_200);
    carry_out(&mut ledger, &f.calls);
    let g = contract.queue(NOW, ADMIN, TARGET, symbol("g"), args(), vec![], 7_200);
    carry_out(&mut ledger, &g.calls);
    carry_out(&mut ledger, &contract.cancel(ADMIN, 1).calls);
    carry_out(&mut ledger, &contract.execute(1_007_200, EXECUTOR, 2).calls);
    assert_eq!(ledger.admin, contract.admin);
    assert_eq!(ledger.executor, contract.executor);
    assert_eq!(ledger.min_delay, contract.min_delay);
    assert_eq!(ledger.max_delay, contract.max_delay);
    assert_eq!(ledger.grace_period, contract.grace_period);
    assert_eq!(ledger.entry_counter, contract.entry_counter);
    assert_eq!(entry(&ledger, 1), entry(&contract, 1));
    assert_eq!(entry(&ledger, 2), entry(&contract, 2));
    let hash = operation_hash(&TARGET, &symbol("g"), &args()).unwrap();
    assert_eq!(ledger.operations.get(&hash), Some(&2));
    assert_eq!(contract.operations.get(&hash), Some(&2));
}

#[test]
fn timelock_administrators_are_handed_over_by_the_shared_library() {
    assert_eq!(
        TimelockExecutorContract::propose_admin(ADMIN, STRANGER),
        AdminRequest::Propose {
            admin_key: DataKey::Admin,
            pending_key: DataKey::PendingAdmin,
            current_admin: ADMIN,
            new_admin: STRANGER,
        }
    );
    assert_eq!(
        TimelockExecutorContract::accept_admin(STRANGER),
        AdminRequest::Accept {
            admin_key: DataKey::Admin,
            pending_key: DataKey::PendingAdmin,
            new_admin: STRANGER,
        }
    );
}

#[test]
fn timelock_topics_and_messages() {
    assert_eq!(Event::Queued { entry_id: 1, proposer: ADMIN }.topics(), ("timelock", "queued"));
    assert_eq!(Event::Executed { entry_id: 1 }.topics(), ("timelock", "executed"));
    let missing = "called `Option::unwrap()` on a `None` value";
    let messages = [
        (TimelockError::AlreadyInitialized, "already initialized"),
        (TimelockError::AdminMissing, missing),
        (TimelockError::ExecutorMissing, missing),
        (TimelockError::GracePeriodMissing, missing),
        (TimelockError::Unauthorized, "unauthorized"),
        (TimelockError::UnauthorizedExecutor, "unauthorized executor"),
        (TimelockError::InvalidDelay, "invalid delay"),
        (TimelockError::AlreadyQueued, "operation already queued"),
        (TimelockError::CounterOverflow, "attempt to add with overflow"),
        (TimelockError::EtaOverflow, "eta calculation overflows u64"),
        (TimelockError::GraceEndOverflow, "grace period end overflows u64"),
        (TimelockError::EntryNotFound, "entry not found"),
        (TimelockError::NotQueued, "entry not queued"),
        (TimelockError::ProposerNotAuthorized, "proposer no longer authorized"),
        (TimelockError::NotYetDue, "timelock not expired"),
        (TimelockError::GracePeriodExpired, "grace period expired"),
    ];
    for (error, message) in messages {
        assert_eq!(error.message(), message);
    }
}
