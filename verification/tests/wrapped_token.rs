use pulsar_contracts::address::Address;
use pulsar_contracts::admin::AdminRequest;
use pulsar_contracts::host::HostCall;
use pulsar_contracts::wrapped_token::{
    BalanceKey, Call, DataKey, Event, Outward, PendingBurn, Value, WrapRecord, WrappedToken,
    WrappedTokenContract, WrappedTokenError,
};

const ADMIN: Address = Address::Account([1u8; 32]);
const RELAYER: Address = Address::Account([2u8; 32]);
const USER: Address = Address::Account([3u8; 32]);
const TOKEN: Address = Address::Contract([4u8; 32]);
const STRANGER: Address = Address::Account([5u8; 32]);
const NOW: u64 = 1_000_000;

fn text(s: &str) -> Vec<u8> {
    s.as_bytes().to_vec()
}

fn renewal() -> Call {
    HostCall::ExtendInstanceTtl { threshold: 17_280, extend_to: 86_400 }
}

fn opening(caller: Address) -> Vec<Call> {
    vec![renewal(), HostCall::RequireAuth { address: caller }]
}

fn filing(key: DataKey, value: Value) -> Vec<Call> {
    vec![
        HostCall::SetPersistent { key: key.clone(), value },
        HostCall::ExtendPersistentTtl { key, threshold: 120_960, extend_to: 1_051_200 },
    ]
}

fn outward(request: Outward) -> Call {
    HostCall::Outward { request }
}

fn weth(total_wrapped: i128) -> WrappedToken {
    WrappedToken {
        symbol: text("WETH"),
        name: text("Wrapped Ether"),
        decimals: 18,
        underlying_chain: text("ethereum"),
        underlying_address: text("0xC02a"),
        stellar_token: TOKEN,
        total_wrapped,
        is_active: true,
    }
}

fn set_up() -> WrappedTokenContract {
    let mut contract = WrappedTokenContract::new();
    assert_eq!(contract.initialize(ADMIN, RELAYER).value, Ok(()));
    contract
}

fn register_weth(contract: &mut WrappedTokenContract) -> Vec<Call> {
    let outcome = contract.register_wrapped_token(
        ADMIN,
        text("WETH"),
        text("Wrapped Ether"),
        18,
        text("ethereum"),
        text("0xC02a"),
        TOKEN,
    );
    assert_eq!(outcome.value, Ok(()));
    outcome.calls
}

fn with_token() -> WrappedTokenContract {
    let mut contract = set_up();
    register_weth(&mut contract);
    contract
}

fn mint(
    contract: &mut WrappedTokenContract,
    amount: i128,
    source_tx: &str,
) -> Result<u64, WrappedTokenError> {
    contract.mint_wrapped(NOW, RELAYER, text("WETH"), USER, amount, text(source_tx)).value
}

fn burn(
    contract: &mut WrappedTokenContract,
    amount: i128,
    balance: i128,
) -> Result<(), WrappedTokenError> {
    let begun = contract.burn_wrapped(USER, text("WETH"), amount, text("0xabc"));
    match begun.value {
        Ok(pending) => contract.finish_burn(pending, balance).value,
        Err(error) => Err(error),
    }
}

fn total(contract: &WrappedTokenContract) -> i128 {
    contract.get_wrapped_token(text("WETH")).value.unwrap().total_wrapped
}

#[test]
fn wrapped_initialize() {
    let mut contract = WrappedTokenContract::new();
    let outcome = contract.initialize(ADMIN, RELAYER);
    assert_eq!(outcome.value, Ok(()));
    let mut want = opening(ADMIN);
    want.push(HostCall::SetInstance { key: DataKey::Admin, value: Value::Address(ADMIN) });
    want.push(HostCall::SetInstance {
        key: DataKey::RelayerAddress,
        value: Value::Address(RELAYER),
    });
    want.push(HostCall::SetInstance { key: DataKey::MintingPaused, value: Value::Flag(false) });
    want.push(HostCall::SetInstance {
        key: DataKey::WrapRecordCounter,
        value: Value::Counter(0),
    });
    assert_eq!(outcome.calls, want);
    assert_eq!(contract.admin, Some(ADMIN));
    assert_eq!(contract.pending_admin, None);
    assert_eq!(contract.relayer, Some(RELAYER));
    assert_eq!(contract.minting_paused, Some(false));
    assert_eq!(contract.record_counter, Some(0));
}

#[test]
fn wrapped_initialize_twice() {
    let mut contract = set_up();
    let outcome = contract.initialize(STRANGER, STRANGER);
    assert_eq!(outcome.value, Err(WrappedTokenError::AlreadyInitialized));
    assert_eq!(outcome.calls, vec![renewal()]);
    assert_eq!(contract.admin, Some(ADMIN));
    assert_eq!(contract.relayer, Some(RELAYER));
}

#[test]
fn register_files_the_token() {
    let mut contract = set_up();
    let calls = register_weth(&mut contract);
    let mut want = opening(ADMIN);
    want.extend(filing(DataKey::WrappedToken(text("WETH")), Value::Token(weth(0))));
    assert_eq!(calls, want);
    let found = contract.get_wrapped_token(text("WETH"));
    assert_eq!(found.value, Some(weth(0)));
    assert_eq!(found.calls, vec![renewal()]);
    assert_eq!(contract.get_wrapped_token(text("WBTC")).value, None);
}

#[test]
fn register_again_starts_from_nothing() {
    let mut contract = with_token();
    assert_eq!(mint(&mut contract, 700, "tx1"), Ok(1));
    assert_eq!(total(&contract), 700);
    register_weth(&mut contract);
    assert_eq!(total(&contract), 0);
}

#[test]
fn only_the_administrator_registers() {
    let mut contract = set_up();
    let outcome = contract.register_wrapped_token(
        RELAYER,
        text("WETH"),
        text(""),
        0,
        text(""),
        text(""),
        TOKEN,
    );
    assert_eq!(outcome.value, Err(WrappedTokenError::Unauthorized));
    assert_eq!(outcome.calls, opening(RELAYER));
    assert_eq!(contract.get_wrapped_token(text("WETH")).value, None);
    let mut bare = WrappedTokenContract::new();
    let outcome =
        bare.register_wrapped_token(ADMIN, text("W"), text(""), 0, text(""), text(""), TOKEN);
    assert_eq!(outcome.value, Err(WrappedTokenError::AdminMissing));
}

#[test]
fn mint_files_total_record_and_transaction() {
    let mut contract = with_token();
    let outcome = contract.mint_wrapped(NOW, RELAYER, text("WETH"), USER, 700, text("tx1"));
    assert_eq!(outcome.value, Ok(1));
    let record = WrapRecord {
        record_id: 1,
        user: USER,
        token: text("WETH"),
        amount: 700,
        source_tx: text("tx1"),
        wrapped_at: 1_000_000,
    };
    let mut want = opening(RELAYER);
    want.push(outward(Outward::Mint { token: TOKEN, to: USER, amount: 700 }));
    want.extend(filing(DataKey::WrappedToken(text("WETH")), Value::Token(weth(700))));
    want.extend(filing(DataKey::WrapRecord(1), Value::Record(record.clone())));
    want.push(HostCall::SetInstance {
        key: DataKey::WrapRecordCounter,
        value: Value::Counter(1),
    });
    want.extend(filing(DataKey::ProcessedTx(text("tx1")), Value::Flag(true)));
    want.push(outward(Outward::Publish(Event::Minted {
        record_id: 1,
        recipient: USER,
        amount: 700,
    })));
    assert_eq!(outcome.calls, want);
    assert_eq!(contract.get_wrapped_token(text("WETH")).value, Some(weth(700)));
    assert_eq!(contract.records.get(&1), Some(&record));
    assert_eq!(contract.record_counter, Some(1));
    assert_eq!(contract.processed.get(&text("tx1")), Some(&true));
}

#[test]
fn a_source_transaction_is_minted_once() {
    let mut contract = with_token();
    assert_eq!(mint(&mut contract, 700, "tx1"), Ok(1));
    let again = contract.mint_wrapped(NOW + 9, RELAYER, text("WETH"), STRANGER, 1, text("tx1"));
    assert_eq!(again.value, Err(WrappedTokenError::AlreadyProcessed));
    assert_eq!(again.calls, opening(RELAYER));
    assert_eq!(total(&contract), 700);
    assert_eq!(mint(&mut contract, 300, "tx2"), Ok(2));
    assert_eq!(total(&contract), 1_000);
    assert_eq!(contract.records.get(&1).unwrap().amount, 700);
}

#[test]
fn a_refused_minting_can_be_tried_again() {
    let mut contract = with_token();
    assert_eq!(mint(&mut contract, 0, "tx1"), Err(WrappedTokenError::AmountNotPositive));
    assert_eq!(mint(&mut contract, 1, "tx1"), Ok(1));
}

#[test]
fn only_the_relayer_mints() {
    let mut contract = with_token();
    for caller in [ADMIN, USER, STRANGER] {
        let outcome = contract.mint_wrapped(NOW, caller, text("WETH"), USER, 1, text("tx"));
        assert_eq!(outcome.value, Err(WrappedTokenError::UnauthorizedRelayer));
        assert_eq!(outcome.calls, opening(caller));
    }
    contract.relayer = None;
    assert_eq!(mint(&mut contract, 1, "tx"), Err(WrappedTokenError::RelayerMissing));
    assert_eq!(total(&contract), 0);
}

#[test]
fn a_former_relayer_does_not_mint() {
    let mut contract = with_token();
    let outcome = contract.set_relayer(ADMIN, STRANGER);
    assert_eq!(outcome.value, Ok(()));
    let mut want = opening(ADMIN);
    want.push(HostCall::SetInstance {
        key: DataKey::RelayerAddress,
        value: Value::Address(STRANGER),
    });
    assert_eq!(outcome.calls, want);
    assert_eq!(mint(&mut contract, 1, "tx"), Err(WrappedTokenError::UnauthorizedRelayer));
    let minted = contract.mint_wrapped(NOW, STRANGER, text("WETH"), USER, 1, text("tx"));
    assert_eq!(minted.value, Ok(1));
}

#[test]
fn only_the_administrator_names_the_relayer() {
    let mut contract = set_up();
    let outcome = contract.set_relayer(RELAYER, RELAYER);
    assert_eq!(outcome.value, Err(WrappedTokenError::Unauthorized));
    assert_eq!(outcome.calls, opening(RELAYER));
    contract.admin = None;
    assert_eq!(contract.set_relayer(ADMIN, USER).value, Err(WrappedTokenError::AdminMissing));
    assert_eq!(contract.relayer, Some(RELAYER));
}

#[test]
fn pausing_stops_minting() {
    let mut contract = with_token();
    let outcome = contract.set_minting_paused(ADMIN, true);
    assert_eq!(outcome.value, Ok(()));
    let mut want = opening(ADMIN);
    want.push(HostCall::SetInstance { key: DataKey::MintingPaused, value: Value::Flag(true) });
    assert_eq!(outcome.calls, want);
    let refused = contract.mint_wrapped(NOW, RELAYER, text("WETH"), USER, 1, text("tx"));
    assert_eq!(refused.value, Err(WrappedTokenError::MintingPaused));
    assert_eq!(refused.calls, opening(RELAYER));
    assert_eq!(contract.set_minting_paused(ADMIN, false).value, Ok(()));
    assert_eq!(mint(&mut contract, 1, "tx"), Ok(1));
}

#[test]
fn only_the_administrator_pauses() {
    let mut contract = set_up();
    let outcome = contract.set_minting_paused(STRANGER, true);
    assert_eq!(outcome.value, Err(WrappedTokenError::Unauthorized));
    assert_eq!(outcome.calls, opening(STRANGER));
    assert_eq!(contract.minting_paused, Some(false));
    contract.admin = None;
    assert_eq!(
        contract.set_minting_paused(ADMIN, true).value,
        Err(WrappedTokenError::AdminMissing)
    );
}

#[test]
fn minting_is_not_paused_where_nothing_is_filed() {
    let mut contract = with_token();
    contract.minting_paused = None;
    contract.record_counter = None;
    assert_eq!(mint(&mut contract, 1, "tx"), Ok(1));
}

#[test]
fn mint_refuses_amounts() {
    let mut contract = with_token();
    for amount in [0i128, -1, i128::MIN] {
        assert_eq!(
            mint(&mut contract, amount, "tx"),
            Err(WrappedTokenError::AmountNotPositive)
        );
    }
    assert_eq!(contract.processed.get(&text("tx")), None);
}

#[test]
fn mint_of_an_unknown_or_inactive_token() {
    let mut contract = with_token();
    let unknown = contract.mint_wrapped(NOW, RELAYER, text("WBTC"), USER, 1, text("tx"));
    assert_eq!(unknown.value, Err(WrappedTokenError::TokenNotRegistered));
    assert_eq!(unknown.calls, opening(RELAYER));
    contract.tokens.set(text("WETH"), WrappedToken { is_active: false, ..weth(0) });
    let inactive = contract.mint_wrapped(NOW, RELAYER, text("WETH"), USER, 1, text("tx"));
    assert_eq!(inactive.value, Err(WrappedTokenError::TokenNotActive));
    assert_eq!(inactive.calls, opening(RELAYER));
}

#[test]
fn mint_up_to_the_largest_total() {
    let mut contract = with_token();
    assert_eq!(mint(&mut contract, i128::MAX, "tx1"), Ok(1));
    let over = contract.mint_wrapped(NOW, RELAYER, text("WETH"), USER, 1, text("tx2"));
    assert_eq!(over.value, Err(WrappedTokenError::TotalOverflow));
    let mut want = opening(RELAYER);
    want.push(outward(Outward::Mint { token: TOKEN, to: USER, amount: 1 }));
    assert_eq!(over.calls, want);
    assert_eq!(total(&contract), i128::MAX);
    assert_eq!(contract.processed.get(&text("tx2")), None);
}

#[test]
fn mint_at_the_last_id() {
    let mut contract = with_token();
    contract.record_counter = Some(u64::MAX);
    let outcome = contract.mint_wrapped(NOW, RELAYER, text("WETH"), USER, 5, text("tx"));
    assert_eq!(outcome.value, Err(WrappedTokenError::CounterOverflow));
    let mut want = opening(RELAYER);
    want.push(outward(Outward::Mint { token: TOKEN, to: USER, amount: 5 }));
    want.extend(filing(DataKey::WrappedToken(text("WETH")), Value::Token(weth(5))));
    assert_eq!(outcome.calls, want);
    assert_eq!(total(&contract), 0);
}

#[test]
fn burn_asks_for_the_balance_and_takes_the_amount_off() {
    let mut contract = with_token();
    assert_eq!(mint(&mut contract, 700, "tx1"), Ok(1));
    let begun = contract.burn_wrapped(USER, text("WETH"), 300, text("0xabc"));
    let mut want = opening(USER);
    want.push(outward(Outward::AskBalance { token: TOKEN, of: USER }));
    assert_eq!(begun.calls, want);
    let pending = begun.value.unwrap();
    assert_eq!(
        pending,
        PendingBurn {
            user: USER,
            symbol: text("WETH"),
            amount: 300,
            target_address: text("0xabc"),
            wrapped: weth(700),
        }
    );
    let outcome = contract.finish_burn(pending, 300);
    assert_eq!(outcome.value, Ok(()));
    let mut want = filing(DataKey::WrappedToken(text("WETH")), Value::Token(weth(400)));
    want.push(outward(Outward::Publish(Event::Burned {
        user: USER,
        amount: 300,
        target_address: text("0xabc"),
    })));
    assert_eq!(outcome.calls, want);
    assert_eq!(contract.get_wrapped_token(text("WETH")).value, Some(weth(400)));
}

#[test]
fn burn_refuses_amounts_and_unknown_tokens() {
    let contract = with_token();
    for amount in [0i128, -1, i128::MIN] {
        let outcome = contract.burn_wrapped(USER, text("WBTC"), amount, text(""));
        assert_eq!(outcome.value, Err(WrappedTokenError::AmountNotPositive));
        assert_eq!(outcome.calls, opening(USER));
    }
    let unknown = contract.burn_wrapped(USER, text("WBTC"), 1, text(""));
    assert_eq!(unknown.value, Err(WrappedTokenError::TokenNotRegistered));
    assert_eq!(unknown.calls, opening(USER));
}

#[test]
fn burn_more_than_there_is() {
    let mut contract = with_token();
    assert_eq!(mint(&mut contract, 700, "tx1"), Ok(1));
    assert_eq!(burn(&mut contract, 300, 299), Err(WrappedTokenError::InsufficientBalance));
    assert_eq!(burn(&mut contract, 701, 700), Err(WrappedTokenError::InsufficientBalance));
    let begun = contract.burn_wrapped(USER, text("WETH"), 701, text("")).value.unwrap();
    let outcome = contract.finish_burn(begun, 1_000);
    assert_eq!(outcome.value, Err(WrappedTokenError::ExceedsTotalWrapped));
    assert_eq!(outcome.calls, vec![]);
    assert_eq!(total(&contract), 700);
}

#[test]
fn a_total_that_cannot_be_reckoned() {
    let mut contract = with_token();
    let pending = PendingBurn {
        user: USER,
        symbol: text("WETH"),
        amount: -1,
        target_address: text(""),
        wrapped: weth(i128::MAX),
    };
    let outcome = contract.finish_burn(pending, 0);
    assert_eq!(outcome.value, Err(WrappedTokenError::TotalUnderflow));
    assert_eq!(total(&contract), 0);
}

#[test]
fn an_inactive_token_can_be_burned() {
    let mut contract = with_token();
    contract.tokens.set(text("WETH"), WrappedToken { is_active: false, ..weth(10) });
    assert_eq!(burn(&mut contract, 10, 10), Ok(()));
    assert_eq!(total(&contract), 0);
}

#[test]
fn what_is_in_circulation_adds_up() {
    let mut contract = with_token();
    assert_eq!(mint(&mut contract, 700, "tx1"), Ok(1));
    assert_eq!(burn(&mut contract, 200, 700), Ok(()));
    assert_eq!(mint(&mut contract, 5, "tx2"), Ok(2));
    assert_eq!(burn(&mut contract, 506, 1_000), Err(WrappedTokenError::ExceedsTotalWrapped));
    assert_eq!(total(&contract), 505);
    assert_eq!(burn(&mut contract, 505, 505), Ok(()));
    assert_eq!(total(&contract), 0);
}

#[test]
fn circulation_is_counted_since_the_last_registration() {
    let mut contract = set_up();
    assert_eq!(contract.get_wrapped_token(text("WETH")).value, None);
    assert_eq!(mint(&mut contract, 1, "tx0"), Err(WrappedTokenError::TokenNotRegistered));
    register_weth(&mut contract);
    assert_eq!(mint(&mut contract, 700, "tx1"), Ok(1));
    register_weth(&mut contract);
    assert_eq!(mint(&mut contract, 30, "tx2"), Ok(2));
    assert_eq!(burn(&mut contract, 10, 730), Ok(()));
    assert_eq!(total(&contract), 20);
}

#[test]
fn burning_undoes_minting() {
    let mut contract = with_token();
    assert_eq!(mint(&mut contract, 40, "tx1"), Ok(1));
    assert_eq!(mint(&mut contract, 700, "tx2"), Ok(2));
    assert_eq!(burn(&mut contract, 700, 700), Ok(()));
    assert_eq!(contract.get_wrapped_token(text("WETH")).value, Some(weth(40)));
}

#[test]
fn tokens_of_other_symbols_are_untouched() {
    let mut contract = with_token();
    let registered = contract.register_wrapped_token(
        ADMIN,
        text("WBTC"),
        text("Wrapped Bitcoin"),
        8,
        text("bitcoin"),
        text(""),
        STRANGER,
    );
    assert_eq!(registered.value, Ok(()));
    let before = contract.get_wrapped_token(text("WBTC")).value.unwrap();
    assert_eq!(mint(&mut contract, 700, "tx1"), Ok(1));
    assert_eq!(burn(&mut contract, 100, 700), Ok(()));
    assert_eq!(contract.get_wrapped_token(text("WBTC")).value, Some(before));
}

#[test]
fn user_balances_are_read_as_filed() {
    let mut contract = with_token();
    let nothing = contract.get_user_balance(text("WETH"), USER);
    assert_eq!(nothing.value, 0);
    assert_eq!(nothing.calls, vec![renewal()]);
    assert_eq!(mint(&mut contract, 700, "tx1"), Ok(1));
    assert_eq!(contract.get_user_balance(text("WETH"), USER).value, 0);
    contract.user_balances.set(BalanceKey { symbol: text("WETH"), user: USER }, 12);
    assert_eq!(contract.get_user_balance(text("WETH"), USER).value, 12);
    assert_eq!(contract.get_user_balance(text("WETH"), STRANGER).value, 0);
    assert_eq!(contract.get_user_balance(text("WBTC"), USER).value, 0);
}

/// Files what the calls file, as the host does.
fn carry_out(ledger: &mut WrappedTokenContract, calls: &Vec<Call>) {
    for call in calls {
        match call {
            HostCall::SetInstance { key: DataKey::Admin, value: Value::Address(admin) } => {
                ledger.admin = Some(*admin);
            }
            HostCall::SetInstance { key: DataKey::RelayerAddress, value: Value::Address(to) } => {
                ledger.relayer = Some(*to);
            }
            HostCall::SetInstance { key: DataKey::MintingPaused, value: Value::Flag(paused) } => {
                ledger.minting_paused = Some(*paused);
            }
            HostCall::SetInstance {
                key: DataKey::WrapRecordCounter,
                value: Value::Counter(counter),
            } => {
                ledger.record_counter = Some(*counter);
            }
            HostCall::SetPersistent {
                key: DataKey::WrappedToken(symbol),
                value: Value::Token(token),
            } => {
                ledger.tokens.set(symbol.clone(), token.clone());
            }
            HostCall::SetPersistent {
                key: DataKey::WrapRecord(id),
                value: Value::Record(record),
            } => {
                ledger.records.set(*id, record.clone());
            }
            HostCall::SetPersistent {
                key: DataKey::ProcessedTx(source_tx),
                value: Value::Flag(flag),
            } => {
                ledger.processed.set(source_tx.clone(), *flag);
            }
            HostCall::SetInstance { .. } | HostCall::SetPersistent { .. } => unreachable!(),
            _ => {}
        }
    }
}

#[test]
fn the_requests_make_the_wrapped_token_ledger() {
    let mut contract = WrappedTokenContract::new();
    let mut ledger = WrappedTokenContract::new();
    carry_out(&mut ledger, &contract.initialize(ADMIN, RELAYER).calls);
    let registered = register_weth(&mut contract);
    carry_out(&mut ledger, &registered);
    let minted = contract.mint_wrapped(NOW, RELAYER, text("WETH"), USER, 700, text("tx1"));
    carry_out(&mut ledger, &minted.calls);
    let pending = contract.burn_wrapped(USER, text("WETH"), 100, text("")).value.unwrap();
    carry_out(&mut ledger, &contract.finish_burn(pending, 700).calls);
    carry_out(&mut ledger, &contract.set_relayer(ADMIN, STRANGER).calls);
    carry_out(&mut ledger, &contract.set_minting_paused(ADMIN, true).calls);
    assert_eq!(ledger.admin, contract.admin);
    assert_eq!(ledger.relayer, contract.relayer);
    assert_eq!(ledger.minting_paused, contract.minting_paused);
    assert_eq!(ledger.record_counter, contract.record_counter);
    assert_eq!(ledger.tokens.get(&text("WETH")), Some(&weth(600)));
    assert_eq!(contract.tokens.get(&text("WETH")), Some(&weth(600)));
    assert_eq!(ledger.records.get(&1), contract.records.get(&1));
    assert_eq!(ledger.processed.get(&text("tx1")), Some(&true));
}

#[test]
fn wrapped_administrators_are_handed_over_by_the_shared_library() {
    assert_eq!(
        WrappedTokenContract::propose_admin(ADMIN, STRANGER),
        AdminRequest::Propose {
            admin_key: DataKey::Admin,
            pending_key: DataKey::PendingAdmin,
            current_admin: ADMIN,
            new_admin: STRANGER,
        }
    );
    assert_eq!(
        WrappedTokenContract::accept_admin(STRANGER),
        AdminRequest::Accept {
            admin_key: DataKey::Admin,
            pending_key: DataKey::PendingAdmin,
            new_admin: STRANGER,
        }
    );
}

#[test]
fn ledger_keys_are_copied() {
    let keys = [
        DataKey::Admin,
        DataKey::PendingAdmin,
        DataKey::RelayerAddress,
        DataKey::MintingPaused,
        DataKey::WrapRecordCounter,
        DataKey::WrappedToken(text("WETH")),
        DataKey::WrapRecord(7),
        DataKey::UserBalance(text("WETH"), USER),
        DataKey::ProcessedTx(text("tx1")),
    ];
    for key in &keys {
        assert_eq!(&key.clone(), key);
    }
}

#[test]
fn wrapped_topics_and_messages() {
    let minted = Event::Minted { record_id: 1, recipient: USER, amount: 2 };
    assert_eq!(minted.topics(), ("wrapped", "minted"));
    let burned = Event::Burned { user: USER, amount: 2, target_address: text("") };
    assert_eq!(burned.topics(), ("wrapped", "burned"));
    let missing = "called `Option::unwrap()` on a `None` value";
    let messages = [
        (WrappedTokenError::AlreadyInitialized, "already initialized"),
        (WrappedTokenError::AdminMissing, missing),
        (WrappedTokenError::RelayerMissing, missing),
        (WrappedTokenError::Unauthorized, "unauthorized"),
        (WrappedTokenError::UnauthorizedRelayer, "unauthorized relayer"),
        (WrappedTokenError::MintingPaused, "minting paused"),
        (WrappedTokenError::AlreadyProcessed, "source transaction already processed"),
        (WrappedTokenError::AmountNotPositive, "amount must be positive"),
        (WrappedTokenError::TokenNotRegistered, "token not registered"),
        (WrappedTokenError::TokenNotActive, "token not active"),
        (WrappedTokenError::TotalOverflow, "total_wrapped overflow"),
        (WrappedTokenError::CounterOverflow, "attempt to add with overflow"),
        (WrappedTokenError::InsufficientBalance, "insufficient balance"),
        (WrappedTokenError::ExceedsTotalWrapped, "burn amount exceeds total wrapped supply"),
        (WrappedTokenError::TotalUnderflow, "total_wrapped underflow"),
    ];
    for (error, message) in messages {
        assert_eq!(error.message(), message);
    }
}
