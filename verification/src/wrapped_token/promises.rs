//! What each call of the wrapped token manager owes its caller, in the terms of
//! its arguments and of the ledger: when it succeeds, what each failure means,
//! what it changes and what it asks for.

use crate::address::Address;
use crate::wrapped_token::model;
use crate::wrapped_token::model::{
    CallModel, EventModel, KeyModel, Ledger, OutwardModel, PendingBurnModel, RecordModel,
    TokenModel, ValueModel,
};
use crate::wrapped_token::{
    BalanceKey, DataKey, Event, Outward, PendingBurn, Value, WrapRecord, WrappedToken,
    WrappedTokenContract, WrappedTokenError,
};
use vstd::prelude::*;

verus! {

/// Whether the requests are those that open a call of `caller`, and no more.
pub open spec fn only_opened(calls: Seq<CallModel>, caller: Address) -> bool {
    &&& calls.len() == 2
    &&& opened(calls, caller)
}

/// Whether a call opens as it should: the instance is kept alive, then `caller`
/// authorizes.
pub open spec fn opened(calls: Seq<CallModel>, caller: Address) -> bool {
    &&& calls.len() >= 2
    &&& calls[0] == crate::requests::instance_kept_alive::<KeyModel, ValueModel, OutwardModel>()
    &&& calls[1] == crate::requests::authorization::<KeyModel, ValueModel, OutwardModel>(caller)
}

/// Whether the request at `i` files a value with the contract instance.
pub open spec fn instance_filed_at(
    calls: Seq<CallModel>,
    i: int,
    key: KeyModel,
    value: ValueModel,
) -> bool {
    &&& 0 <= i < calls.len()
    &&& calls[i] == crate::requests::instance_filed::<KeyModel, ValueModel, OutwardModel>(
        key,
        value,
    )
}

/// Whether a value is filed as an entry by the request at `i`, and kept alive by
/// the next.
pub open spec fn entry_filed_at(
    calls: Seq<CallModel>,
    i: int,
    key: KeyModel,
    value: ValueModel,
) -> bool {
    &&& 0 <= i && i + 1 < calls.len()
    &&& calls[i] == crate::requests::entry_filed::<KeyModel, ValueModel, OutwardModel>(key, value)
    &&& calls[i + 1] == crate::requests::entry_kept_alive::<KeyModel, ValueModel, OutwardModel>(
        key,
    )
}

/// Whether the request at `i` goes to the world outside.
pub open spec fn sent_at(calls: Seq<CallModel>, i: int, request: OutwardModel) -> bool {
    &&& 0 <= i < calls.len()
    &&& calls[i] == crate::requests::sent::<KeyModel, ValueModel, OutwardModel>(request)
}

/// What the contract holds is what its ledger shows.
pub proof fn law_ledger_shows_the_contract(contract: WrappedTokenContract)
    ensures
        contract@.admin == contract.admin,
        contract@.pending_admin == contract.pending_admin,
        contract@.relayer == contract.relayer,
        contract@.minting_paused == contract.minting_paused,
        contract@.record_counter == contract.record_counter,
        contract@.tokens == contract.tokens@,
        contract@.records == contract.records@,
        contract@.user_balances == contract.user_balances@,
        contract@.processed == contract.processed@,
{
}

/// What a token, a record, a burning and a key hold is what is shown of them.
pub proof fn law_holdings_are_shown_whole(
    token: WrappedToken,
    record: WrapRecord,
    burn: PendingBurn,
    balance: BalanceKey,
)
    ensures
        token@.symbol == token.symbol@,
        token@.name == token.name@,
        token@.decimals == token.decimals,
        token@.underlying_chain == token.underlying_chain@,
        token@.underlying_address == token.underlying_address@,
        token@.stellar_token == token.stellar_token,
        token@.total_wrapped == token.total_wrapped,
        token@.is_active == token.is_active,
        record@.record_id == record.record_id,
        record@.user == record.user,
        record@.token == record.token@,
        record@.amount == record.amount,
        record@.source_tx == record.source_tx@,
        record@.wrapped_at == record.wrapped_at,
        burn@.user == burn.user,
        burn@.symbol == burn.symbol@,
        burn@.amount == burn.amount,
        burn@.target_address == burn.target_address@,
        burn@.wrapped == burn.wrapped@,
        balance@.0 == balance.symbol@,
        balance@.1 == balance.user,
{
}

/// What is filed, what it is filed under, what is published and asked for are
/// shown as they are.
pub proof fn law_values_show_themselves(
    key: DataKey,
    value: Value,
    event: Event,
    request: Outward,
)
    ensures
        match key {
            DataKey::Admin => key@ == KeyModel::Admin,
            DataKey::PendingAdmin => key@ == KeyModel::PendingAdmin,
            DataKey::RelayerAddress => key@ == KeyModel::RelayerAddress,
            DataKey::MintingPaused => key@ == KeyModel::MintingPaused,
            DataKey::WrapRecordCounter => key@ == KeyModel::WrapRecordCounter,
            DataKey::WrappedToken(symbol) => key@ == KeyModel::WrappedToken(symbol@),
            DataKey::WrapRecord(id) => key@ == KeyModel::WrapRecord(id),
            DataKey::UserBalance(symbol, user) => key@ == KeyModel::UserBalance(symbol@, user),
            DataKey::ProcessedTx(source_tx) => key@ == KeyModel::ProcessedTx(source_tx@),
        },
        match value {
            Value::Address(address) => value@ == ValueModel::Address(address),
            Value::Flag(flag) => value@ == ValueModel::Flag(flag),
            Value::Counter(counter) => value@ == ValueModel::Counter(counter),
            Value::Token(token) => value@ == ValueModel::Token(token@),
            Value::Record(record) => value@ == ValueModel::Record(record@),
        },
        match event {
            Event::Minted { record_id, recipient, amount } => {
                &&& event@ is Minted
                &&& event@->record_id == record_id
                &&& event@->recipient == recipient
                &&& event@->Minted_amount == amount
            },
            Event::Burned { user, amount, target_address } => {
                &&& event@ is Burned
                &&& event@->user == user
                &&& event@->Burned_amount == amount
                &&& event@->target_address == target_address@
            },
        },
        match request {
            Outward::Mint { token, to, amount } => {
                &&& request@ is Mint
                &&& request@->Mint_token == token
                &&& request@->to == to
                &&& request@->amount == amount
            },
            Outward::AskBalance { token, of } => {
                &&& request@ is AskBalance
                &&& request@->AskBalance_token == token
                &&& request@->of == of
            },
            Outward::Publish(event) => request@ == OutwardModel::Publish(event@),
        },
{
}

/// A contract is set up exactly where no administrator is on file. It then has
/// the given administrator and relayer, minting is not paused, and it counts
/// from 0; all else stays.
pub proof fn law_initialize(s: Ledger, admin: Address, relayer: Address)
    ensures
        ({
            let step = model::initialize(s, admin, relayer);
            &&& step.value is Ok <==> s.admin is None
            &&& step.value is Ok ==> {
                &&& step.state.admin == Some(admin)
                &&& step.state.pending_admin == s.pending_admin
                &&& step.state.relayer == Some(relayer)
                &&& step.state.minting_paused == Some(false)
                &&& step.state.record_counter == Some(0u64)
                &&& step.state.tokens == s.tokens
                &&& step.state.records == s.records
                &&& step.state.user_balances == s.user_balances
                &&& step.state.processed == s.processed
                &&& step.calls.len() == 6
                &&& opened(step.calls, admin)
                &&& instance_filed_at(step.calls, 2, KeyModel::Admin, ValueModel::Address(admin))
                &&& instance_filed_at(
                    step.calls,
                    3,
                    KeyModel::RelayerAddress,
                    ValueModel::Address(relayer),
                )
                &&& instance_filed_at(
                    step.calls,
                    4,
                    KeyModel::MintingPaused,
                    ValueModel::Flag(false),
                )
                &&& instance_filed_at(
                    step.calls,
                    5,
                    KeyModel::WrapRecordCounter,
                    ValueModel::Counter(0),
                )
            }
            &&& step.value is Err ==> {
                &&& step.value->Err_0 == WrappedTokenError::AlreadyInitialized
                &&& step.state == s
                &&& step.calls.len() == 1
                &&& step.calls[0] == crate::requests::instance_kept_alive::<
                    KeyModel,
                    ValueModel,
                    OutwardModel,
                >()
            }
        }),
{
}

/// A token is registered exactly where the administrator on file asks for it. It
/// stands as given under its symbol, in place of any other of that symbol, and
/// nothing else on file changes.
pub proof fn law_register(s: Ledger, admin: Address, token: TokenModel)
    ensures
        ({
            let step = model::register(s, admin, token);
            &&& step.value is Ok <==> s.admin == Some(admin)
            &&& step.value is Ok ==> {
                &&& step.state == Ledger { tokens: s.tokens.insert(token.symbol, token), ..s }
                &&& step.calls.len() == 4
                &&& opened(step.calls, admin)
                &&& entry_filed_at(
                    step.calls,
                    2,
                    KeyModel::WrappedToken(token.symbol),
                    ValueModel::Token(token),
                )
            }
            &&& step.value matches Err(error) ==> {
                &&& step.state == s
                &&& only_opened(step.calls, admin)
                &&& error == WrappedTokenError::AdminMissing <==> s.admin is None
                &&& error == WrappedTokenError::Unauthorized <==> s.admin is Some && s.admin
                    != Some(admin)
            }
        }),
{
}

/// A minting succeeds exactly where the relayer on file asks for it, minting is
/// not paused, the source transaction is not on file, the amount is positive, the
/// token is registered and active, and neither its total nor the ids run out;
/// whatever else is true of the token or the recipient. What fails first is what
/// the caller is told.
pub proof fn law_who_can_mint(
    s: Ledger,
    now: u64,
    relayer: Address,
    symbol: Seq<u8>,
    recipient: Address,
    amount: i128,
    source_tx: Seq<u8>,
)
    ensures
        ({
            let step = model::mint(s, now, relayer, symbol, recipient, amount, source_tx);
            let by_relayer = s.relayer == Some(relayer);
            let running = s.minting_paused != Some(true);
            let new = !s.processed.contains_key(source_tx);
            let positive = amount > 0;
            let known = s.tokens.contains_key(symbol);
            let active = s.tokens[symbol].is_active;
            let total_fits = s.tokens[symbol].total_wrapped <= i128::MAX - amount;
            let ids_left = s.record_counter != Some(u64::MAX);
            let asked = by_relayer && running && new && positive;
            &&& step.value is Ok <==> asked && known && active && total_fits && ids_left
            &&& step.value matches Err(error) ==> {
                &&& step.state == s
                &&& error == WrappedTokenError::RelayerMissing <==> s.relayer is None
                &&& error == WrappedTokenError::UnauthorizedRelayer <==> s.relayer is Some
                    && !by_relayer
                &&& error == WrappedTokenError::MintingPaused <==> by_relayer && !running
                &&& error == WrappedTokenError::AlreadyProcessed <==> by_relayer && running && !new
                &&& error == WrappedTokenError::AmountNotPositive <==> by_relayer && running && new
                    && !positive
                &&& error == WrappedTokenError::TokenNotRegistered <==> asked && !known
                &&& error == WrappedTokenError::TokenNotActive <==> asked && known && !active
                &&& error == WrappedTokenError::TotalOverflow <==> asked && known && active
                    && !total_fits
                &&& error == WrappedTokenError::CounterOverflow <==> asked && known && active
                    && total_fits && !ids_left
            }
        }),
{
}

/// A minting has the token contract on file mint the amount for the recipient,
/// adds it to what is in circulation, records it under the next id with the time
/// and the transaction, and puts the transaction on file; nothing else changes.
pub proof fn law_mint(
    s: Ledger,
    now: u64,
    relayer: Address,
    symbol: Seq<u8>,
    recipient: Address,
    amount: i128,
    source_tx: Seq<u8>,
)
    ensures
        ({
            let step = model::mint(s, now, relayer, symbol, recipient, amount, source_tx);
            let token = s.tokens[symbol];
            let grown = step.state.tokens[symbol];
            step.value matches Ok(id) ==> {
                let record = RecordModel {
                    record_id: id,
                    user: recipient,
                    token: symbol,
                    amount,
                    source_tx,
                    wrapped_at: now,
                };
                &&& match s.record_counter {
                    Some(last) => id == last + 1,
                    None => id == 1,
                }
                &&& grown.total_wrapped - token.total_wrapped == amount
                &&& grown == TokenModel { total_wrapped: grown.total_wrapped, ..token }
                &&& step.state == Ledger {
                    record_counter: Some(id),
                    tokens: s.tokens.insert(symbol, grown),
                    records: s.records.insert(id, record),
                    processed: s.processed.insert(source_tx, true),
                    ..s
                }
                &&& step.calls.len() == 11
                &&& opened(step.calls, relayer)
                &&& sent_at(
                    step.calls,
                    2,
                    OutwardModel::Mint { token: token.stellar_token, to: recipient, amount },
                )
                &&& entry_filed_at(
                    step.calls,
                    3,
                    KeyModel::WrappedToken(symbol),
                    ValueModel::Token(grown),
                )
                &&& entry_filed_at(
                    step.calls,
                    5,
                    KeyModel::WrapRecord(id),
                    ValueModel::Record(record),
                )
                &&& instance_filed_at(
                    step.calls,
                    7,
                    KeyModel::WrapRecordCounter,
                    ValueModel::Counter(id),
                )
                &&& entry_filed_at(
                    step.calls,
                    8,
                    KeyModel::ProcessedTx(source_tx),
                    ValueModel::Flag(true),
                )
                &&& sent_at(
                    step.calls,
                    10,
                    OutwardModel::Publish(EventModel::Minted { record_id: id, recipient, amount }),
                )
            }
        }),
{
}

/// What a minting that fails has asked for until then: nothing but its opening;
/// where the total or the ids ran out, the minting at the token contract, and
/// where it was the ids, the filing of the new total. The host undoes it all.
pub proof fn law_mint_requests_of_a_failure(
    s: Ledger,
    now: u64,
    relayer: Address,
    symbol: Seq<u8>,
    recipient: Address,
    amount: i128,
    source_tx: Seq<u8>,
)
    ensures
        ({
            let step = model::mint(s, now, relayer, symbol, recipient, amount, source_tx);
            let token = s.tokens[symbol];
            let minting = OutwardModel::Mint { token: token.stellar_token, to: recipient, amount };
            step.value matches Err(error) ==> if error == WrappedTokenError::TotalOverflow {
                &&& step.calls.len() == 3
                &&& opened(step.calls, relayer)
                &&& sent_at(step.calls, 2, minting)
            } else if error == WrappedTokenError::CounterOverflow {
                &&& step.calls.len() == 5
                &&& opened(step.calls, relayer)
                &&& sent_at(step.calls, 2, minting)
                &&& entry_filed_at(
                    step.calls,
                    3,
                    KeyModel::WrappedToken(symbol),
                    ValueModel::Token(
                        TokenModel {
                            total_wrapped: (token.total_wrapped + amount) as i128,
                            ..token
                        },
                    ),
                )
            } else {
                only_opened(step.calls, relayer)
            }
        }),
{
}

/// A burning begins exactly where the amount is positive and the token is
/// registered, whether or not minting is paused and whether or not the token is
/// active. The token contract on file is then asked for the user's balance, and
/// nothing on file changes.
pub proof fn law_burn(
    s: Ledger,
    user: Address,
    symbol: Seq<u8>,
    amount: i128,
    target_address: Seq<u8>,
)
    ensures
        ({
            let step = model::burn(s, user, symbol, amount, target_address);
            let positive = amount > 0;
            let known = s.tokens.contains_key(symbol);
            &&& step.state == s
            &&& step.value is Ok <==> positive && known
            &&& step.value matches Ok(pending) ==> {
                &&& pending.user == user
                &&& pending.symbol == symbol
                &&& pending.amount == amount
                &&& pending.target_address == target_address
                &&& pending.wrapped == s.tokens[symbol]
                &&& step.calls.len() == 3
                &&& opened(step.calls, user)
                &&& sent_at(
                    step.calls,
                    2,
                    OutwardModel::AskBalance { token: s.tokens[symbol].stellar_token, of: user },
                )
            }
            &&& step.value matches Err(error) ==> {
                &&& only_opened(step.calls, user)
                &&& error == WrappedTokenError::AmountNotPositive <==> !positive
                &&& error == WrappedTokenError::TokenNotRegistered <==> positive && !known
            }
        }),
{
}

/// A burning that was begun goes through exactly where the user has the amount
/// and as much is in circulation, which has to leave a total that fits. The
/// amount is taken off the total, the event names the user, the amount and the
/// target, and nothing else changes.
pub proof fn law_finish_burn(s: Ledger, burn: PendingBurnModel, current_balance: i128)
    ensures
        ({
            let step = model::finish_burn(s, burn, current_balance);
            let held = burn.amount <= current_balance;
            let wrapped = burn.amount <= burn.wrapped.total_wrapped;
            let left = burn.wrapped.total_wrapped - burn.amount;
            let fits = left <= i128::MAX;
            let shrunk = step.state.tokens[burn.symbol];
            &&& step.value is Ok <==> held && wrapped && fits
            &&& step.value is Ok ==> {
                &&& shrunk.total_wrapped == left
                &&& shrunk == TokenModel { total_wrapped: shrunk.total_wrapped, ..burn.wrapped }
                &&& step.state == Ledger { tokens: s.tokens.insert(burn.symbol, shrunk), ..s }
                &&& step.calls.len() == 3
                &&& entry_filed_at(
                    step.calls,
                    0,
                    KeyModel::WrappedToken(burn.symbol),
                    ValueModel::Token(shrunk),
                )
                &&& sent_at(
                    step.calls,
                    2,
                    OutwardModel::Publish(
                        EventModel::Burned {
                            user: burn.user,
                            amount: burn.amount,
                            target_address: burn.target_address,
                        },
                    ),
                )
            }
            &&& step.value matches Err(error) ==> {
                &&& step.state == s
                &&& step.calls.len() == 0
                &&& error == WrappedTokenError::InsufficientBalance <==> !held
                &&& error == WrappedTokenError::ExceedsTotalWrapped <==> held && !wrapped
                &&& error == WrappedTokenError::TotalUnderflow <==> held && wrapped && !fits
            }
        }),
{
}

/// Another relayer is named exactly where the administrator on file asks for it,
/// and nothing else changes.
pub proof fn law_set_relayer(s: Ledger, admin: Address, new_relayer: Address)
    ensures
        ({
            let step = model::set_relayer(s, admin, new_relayer);
            &&& step.value is Ok <==> s.admin == Some(admin)
            &&& step.value is Ok ==> {
                &&& step.state == Ledger { relayer: Some(new_relayer), ..s }
                &&& step.calls.len() == 3
                &&& opened(step.calls, admin)
                &&& instance_filed_at(
                    step.calls,
                    2,
                    KeyModel::RelayerAddress,
                    ValueModel::Address(new_relayer),
                )
            }
            &&& step.value matches Err(error) ==> {
                &&& step.state == s
                &&& only_opened(step.calls, admin)
                &&& error == WrappedTokenError::AdminMissing <==> s.admin is None
                &&& error == WrappedTokenError::Unauthorized <==> s.admin is Some && s.admin
                    != Some(admin)
            }
        }),
{
}

/// Minting is stopped or let go on exactly where the administrator on file asks
/// for it, and nothing else changes.
pub proof fn law_set_minting_paused(s: Ledger, admin: Address, paused: bool)
    ensures
        ({
            let step = model::set_minting_paused(s, admin, paused);
            &&& step.value is Ok <==> s.admin == Some(admin)
            &&& step.value is Ok ==> {
                &&& step.state == Ledger { minting_paused: Some(paused), ..s }
                &&& step.calls.len() == 3
                &&& opened(step.calls, admin)
                &&& instance_filed_at(
                    step.calls,
                    2,
                    KeyModel::MintingPaused,
                    ValueModel::Flag(paused),
                )
            }
            &&& step.value matches Err(error) ==> {
                &&& step.state == s
                &&& only_opened(step.calls, admin)
                &&& error == WrappedTokenError::AdminMissing <==> s.admin is None
                &&& error == WrappedTokenError::Unauthorized <==> s.admin is Some && s.admin
                    != Some(admin)
            }
        }),
{
}

/// A token or a balance that is looked up is the one on file; where none is,
/// there is no token, and the balance is 0. Looking it up only keeps the instance
/// alive.
pub proof fn law_lookups(s: Ledger, symbol: Seq<u8>, user: Address)
    ensures
        model::token(s, symbol) is Some <==> s.tokens.contains_key(symbol),
        s.tokens.contains_key(symbol) ==> model::token(s, symbol) == Some(s.tokens[symbol]),
        s.user_balances.contains_key((symbol, user)) ==> model::user_balance(s, symbol, user)
            == s.user_balances[(symbol, user)],
        !s.user_balances.contains_key((symbol, user)) ==> model::user_balance(s, symbol, user) == 0,
        model::reading().len() == 1,
        model::reading()[0] == crate::requests::instance_kept_alive::<
            KeyModel,
            ValueModel,
            OutwardModel,
        >(),
{
}

/// Each failure is reported in its own words.
pub proof fn law_messages()
    ensures
        model::message(WrappedTokenError::AlreadyInitialized) == "already initialized"@,
        model::message(WrappedTokenError::AdminMissing)
            == "called `Option::unwrap()` on a `None` value"@,
        model::message(WrappedTokenError::RelayerMissing)
            == "called `Option::unwrap()` on a `None` value"@,
        model::message(WrappedTokenError::Unauthorized) == "unauthorized"@,
        model::message(WrappedTokenError::UnauthorizedRelayer) == "unauthorized relayer"@,
        model::message(WrappedTokenError::MintingPaused) == "minting paused"@,
        model::message(WrappedTokenError::AlreadyProcessed)
            == "source transaction already processed"@,
        model::message(WrappedTokenError::AmountNotPositive) == "amount must be positive"@,
        model::message(WrappedTokenError::TokenNotRegistered) == "token not registered"@,
        model::message(WrappedTokenError::TokenNotActive) == "token not active"@,
        model::message(WrappedTokenError::TotalOverflow) == "total_wrapped overflow"@,
        model::message(WrappedTokenError::CounterOverflow) == "attempt to add with overflow"@,
        model::message(WrappedTokenError::InsufficientBalance) == "insufficient balance"@,
        model::message(WrappedTokenError::ExceedsTotalWrapped)
            == "burn amount exceeds total wrapped supply"@,
        model::message(WrappedTokenError::TotalUnderflow) == "total_wrapped underflow"@,
{
}

} // verus!
