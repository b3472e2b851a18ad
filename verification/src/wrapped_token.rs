//! Manages wrapped tokens from other chains for use in campaigns.

use crate::address::Address;
use crate::admin::AdminRequest;
use crate::bytes::{copy_bytes, same_bytes};
use crate::host::{ask, begin, begin_as, file, HostCall, Label, Outcome};
use crate::table::{Key, Table};
use vstd::prelude::*;

pub mod laws;
pub mod model;
pub mod promises;

verus! {

/// A token of another chain and the Stellar token that stands for it.
#[derive(PartialEq, Eq, Debug)]
pub struct WrappedToken {
    pub symbol: Vec<u8>,
    pub name: Vec<u8>,
    pub decimals: u32,
    pub underlying_chain: Vec<u8>,
    pub underlying_address: Vec<u8>,
    pub stellar_token: Address,
    pub total_wrapped: i128,
    pub is_active: bool,
}

impl View for WrappedToken {
    type V = model::TokenModel;

    open spec fn view(&self) -> model::TokenModel {
        model::TokenModel {
            symbol: self.symbol@,
            name: self.name@,
            decimals: self.decimals,
            underlying_chain: self.underlying_chain@,
            underlying_address: self.underlying_address@,
            stellar_token: self.stellar_token,
            total_wrapped: self.total_wrapped,
            is_active: self.is_active,
        }
    }
}

impl Clone for WrappedToken {
    fn clone(&self) -> (copy: Self)
        ensures
            copy@ == self@,
    {
        WrappedToken {
            symbol: copy_bytes(&self.symbol),
            name: copy_bytes(&self.name),
            decimals: self.decimals,
            underlying_chain: copy_bytes(&self.underlying_chain),
            underlying_address: copy_bytes(&self.underlying_address),
            stellar_token: self.stellar_token,
            total_wrapped: self.total_wrapped,
            is_active: self.is_active,
        }
    }
}

/// The record of a minting.
#[derive(PartialEq, Eq, Debug)]
pub struct WrapRecord {
    pub record_id: u64,
    pub user: Address,
    pub token: Vec<u8>,
    pub amount: i128,
    /// The transaction on the source chain.
    pub source_tx: Vec<u8>,
    pub wrapped_at: u64,
}

impl View for WrapRecord {
    type V = model::RecordModel;

    open spec fn view(&self) -> model::RecordModel {
        model::RecordModel {
            record_id: self.record_id,
            user: self.user,
            token: self.token@,
            amount: self.amount,
            source_tx: self.source_tx@,
            wrapped_at: self.wrapped_at,
        }
    }
}

impl Clone for WrapRecord {
    fn clone(&self) -> (copy: Self)
        ensures
            copy@ == self@,
    {
        WrapRecord {
            record_id: self.record_id,
            user: self.user,
            token: copy_bytes(&self.token),
            amount: self.amount,
            source_tx: copy_bytes(&self.source_tx),
            wrapped_at: self.wrapped_at,
        }
    }
}

/// What an entry of the ledger is filed under.
#[derive(PartialEq, Eq, Debug)]
pub enum DataKey {
    Admin,
    PendingAdmin,
    RelayerAddress,
    MintingPaused,
    WrapRecordCounter,
    /// A token, by its symbol.
    WrappedToken(Vec<u8>),
    WrapRecord(u64),
    /// A balance, by the token's symbol and the user.
    UserBalance(Vec<u8>, Address),
    /// A transaction of the source chain.
    ProcessedTx(Vec<u8>),
}

impl View for DataKey {
    type V = model::KeyModel;

    open spec fn view(&self) -> model::KeyModel {
        match *self {
            DataKey::Admin => model::KeyModel::Admin,
            DataKey::PendingAdmin => model::KeyModel::PendingAdmin,
            DataKey::RelayerAddress => model::KeyModel::RelayerAddress,
            DataKey::MintingPaused => model::KeyModel::MintingPaused,
            DataKey::WrapRecordCounter => model::KeyModel::WrapRecordCounter,
            DataKey::WrappedToken(symbol) => model::KeyModel::WrappedToken(symbol@),
            DataKey::WrapRecord(record_id) => model::KeyModel::WrapRecord(record_id),
            DataKey::UserBalance(symbol, user) => model::KeyModel::UserBalance(symbol@, user),
            DataKey::ProcessedTx(source_tx) => model::KeyModel::ProcessedTx(source_tx@),
        }
    }
}

impl Label for DataKey {
    fn again(&self) -> (label: Self) {
        match self {
            DataKey::Admin => DataKey::Admin,
            DataKey::PendingAdmin => DataKey::PendingAdmin,
            DataKey::RelayerAddress => DataKey::RelayerAddress,
            DataKey::MintingPaused => DataKey::MintingPaused,
            DataKey::WrapRecordCounter => DataKey::WrapRecordCounter,
            DataKey::WrappedToken(symbol) => DataKey::WrappedToken(copy_bytes(symbol)),
            DataKey::WrapRecord(record_id) => DataKey::WrapRecord(*record_id),
            DataKey::UserBalance(symbol, user) => DataKey::UserBalance(copy_bytes(symbol), *user),
            DataKey::ProcessedTx(source_tx) => DataKey::ProcessedTx(copy_bytes(source_tx)),
        }
    }
}

impl Clone for DataKey {
    fn clone(&self) -> (copy: Self)
        ensures
            copy@ == self@,
    {
        self.again()
    }
}

/// What is filed in the ledger.
#[derive(PartialEq, Eq, Debug)]
pub enum Value {
    Address(Address),
    Flag(bool),
    Counter(u64),
    Token(WrappedToken),
    Record(WrapRecord),
}

impl View for Value {
    type V = model::ValueModel;

    open spec fn view(&self) -> model::ValueModel {
        match *self {
            Value::Address(address) => model::ValueModel::Address(address),
            Value::Flag(flag) => model::ValueModel::Flag(flag),
            Value::Counter(counter) => model::ValueModel::Counter(counter),
            Value::Token(token) => model::ValueModel::Token(token@),
            Value::Record(record) => model::ValueModel::Record(record@),
        }
    }
}

/// What is published.
#[derive(PartialEq, Eq, Debug)]
pub enum Event {
    /// Tokens were minted.
    Minted { record_id: u64, recipient: Address, amount: i128 },
    /// Tokens were burned, to be released at `target_address` of their chain.
    Burned { user: Address, amount: i128, target_address: Vec<u8> },
}

impl View for Event {
    type V = model::EventModel;

    open spec fn view(&self) -> model::EventModel {
        match *self {
            Event::Minted { record_id, recipient, amount } => model::EventModel::Minted {
                record_id,
                recipient,
                amount,
            },
            Event::Burned { user, amount, target_address } => model::EventModel::Burned {
                user,
                amount,
                target_address: target_address@,
            },
        }
    }
}

impl Event {
    /// The topics under which the event is published.
    pub fn topics(&self) -> (topics: (&'static str, &'static str))
        ensures
            topics.0@ == "wrapped"@,
            topics.1@ == match *self {
                Event::Minted { .. } => "minted"@,
                Event::Burned { .. } => "burned"@,
            },
    {
        match self {
            Event::Minted { .. } => ("wrapped", "minted"),
            Event::Burned { .. } => ("wrapped", "burned"),
        }
    }
}

/// A request to the world outside.
#[derive(PartialEq, Eq, Debug)]
pub enum Outward {
    /// Mint `amount` for `to` at the token contract `token`.
    Mint { token: Address, to: Address, amount: i128 },
    /// Ask the token contract `token` what `of` holds.
    AskBalance { token: Address, of: Address },
    /// Publish an event.
    Publish(Event),
}

impl View for Outward {
    type V = model::OutwardModel;

    open spec fn view(&self) -> model::OutwardModel {
        match *self {
            Outward::Mint { token, to, amount } => model::OutwardModel::Mint { token, to, amount },
            Outward::AskBalance { token, of } => model::OutwardModel::AskBalance { token, of },
            Outward::Publish(event) => model::OutwardModel::Publish(event@),
        }
    }
}

/// A burning that waits for the user's balance at the token contract.
#[derive(PartialEq, Eq, Debug)]
pub struct PendingBurn {
    pub user: Address,
    pub symbol: Vec<u8>,
    pub amount: i128,
    pub target_address: Vec<u8>,
    /// The token as it stood when the burning began.
    pub wrapped: WrappedToken,
}

impl View for PendingBurn {
    type V = model::PendingBurnModel;

    open spec fn view(&self) -> model::PendingBurnModel {
        model::PendingBurnModel {
            user: self.user,
            symbol: self.symbol@,
            amount: self.amount,
            target_address: self.target_address@,
            wrapped: self.wrapped@,
        }
    }
}

pub type Call = HostCall<DataKey, Value, Outward>;

/// Why a call fails.
#[derive(Clone, Copy, PartialEq, Eq, Structural, Debug)]
pub enum WrappedTokenError {
    AlreadyInitialized,
    AdminMissing,
    RelayerMissing,
    Unauthorized,
    UnauthorizedRelayer,
    MintingPaused,
    AlreadyProcessed,
    AmountNotPositive,
    TokenNotRegistered,
    TokenNotActive,
    TotalOverflow,
    CounterOverflow,
    InsufficientBalance,
    ExceedsTotalWrapped,
    TotalUnderflow,
}

impl WrappedTokenError {
    /// What the host reports of the failed call.
    pub fn message(&self) -> (message: &'static str)
        ensures
            message@ == model::message(*self),
    {
        match self {
            WrappedTokenError::AlreadyInitialized => "already initialized",
            WrappedTokenError::AdminMissing => "called `Option::unwrap()` on a `None` value",
            WrappedTokenError::RelayerMissing => "called `Option::unwrap()` on a `None` value",
            WrappedTokenError::Unauthorized => "unauthorized",
            WrappedTokenError::UnauthorizedRelayer => "unauthorized relayer",
            WrappedTokenError::MintingPaused => "minting paused",
            WrappedTokenError::AlreadyProcessed => "source transaction already processed",
            WrappedTokenError::AmountNotPositive => "amount must be positive",
            WrappedTokenError::TokenNotRegistered => "token not registered",
            WrappedTokenError::TokenNotActive => "token not active",
            WrappedTokenError::TotalOverflow => "total_wrapped overflow",
            WrappedTokenError::CounterOverflow => "attempt to add with overflow",
            WrappedTokenError::InsufficientBalance => "insufficient balance",
            WrappedTokenError::ExceedsTotalWrapped => "burn amount exceeds total wrapped supply",
            WrappedTokenError::TotalUnderflow => "total_wrapped underflow",
        }
    }
}

/// The key of a balance.
#[derive(PartialEq, Eq, Debug)]
pub struct BalanceKey {
    pub symbol: Vec<u8>,
    pub user: Address,
}

impl View for BalanceKey {
    type V = (Seq<u8>, Address);

    open spec fn view(&self) -> (Seq<u8>, Address) {
        (self.symbol@, self.user)
    }
}

impl Key for BalanceKey {
    fn same_key(&self, other: &Self) -> (same: bool) {
        same_bytes(&self.symbol, &other.symbol) && self.user == other.user
    }
}

/// The wrapped token manager, with its ledger.
pub struct WrappedTokenContract {
    pub admin: Option<Address>,
    pub pending_admin: Option<Address>,
    pub relayer: Option<Address>,
    pub minting_paused: Option<bool>,
    pub record_counter: Option<u64>,
    pub tokens: Table<Vec<u8>, WrappedToken>,
    pub records: Table<u64, WrapRecord>,
    pub user_balances: Table<BalanceKey, i128>,
    pub processed: Table<Vec<u8>, bool>,
}

impl View for WrappedTokenContract {
    type V = model::Ledger;

    open spec fn view(&self) -> model::Ledger {
        model::Ledger {
            admin: self.admin,
            pending_admin: self.pending_admin,
            relayer: self.relayer,
            minting_paused: self.minting_paused,
            record_counter: self.record_counter,
            tokens: self.tokens@,
            records: self.records@,
            user_balances: self.user_balances@,
            processed: self.processed@,
        }
    }
}

impl WrappedTokenContract {
    /// A contract with nothing in its ledger.
    pub fn new() -> (contract: Self)
        ensures
            contract@ == (model::Ledger {
                admin: None,
                pending_admin: None,
                relayer: None,
                minting_paused: None,
                record_counter: None,
                tokens: Map::empty(),
                records: Map::empty(),
                user_balances: Map::empty(),
                processed: Map::empty(),
            }),
    {
        WrappedTokenContract {
            admin: None,
            pending_admin: None,
            relayer: None,
            minting_paused: None,
            record_counter: None,
            tokens: Table::new(),
            records: Table::new(),
            user_balances: Table::new(),
            processed: Table::new(),
        }
    }

    /// Sets the contract up, once.
    pub fn initialize(&mut self, admin: Address, relayer: Address) -> (outcome: Outcome<
        Call,
        Result<(), WrappedTokenError>,
    >)
        ensures
            ({
                let step = model::initialize(old(self)@, admin, relayer);
                &&& final(self)@ == step.state
                &&& outcome.trace() == step.calls
                &&& outcome.value == step.value
            }),
    {
        let mut calls: Vec<Call> = begin();
        if self.admin.is_some() {
            return Outcome { calls, value: Err(WrappedTokenError::AlreadyInitialized) };
        }
        ask(&mut calls, HostCall::RequireAuth { address: admin });
        ask(
            &mut calls,
            HostCall::SetInstance { key: DataKey::Admin, value: Value::Address(admin) },
        );
        ask(
            &mut calls,
            HostCall::SetInstance { key: DataKey::RelayerAddress, value: Value::Address(relayer) },
        );
        ask(
            &mut calls,
            HostCall::SetInstance { key: DataKey::MintingPaused, value: Value::Flag(false) },
        );
        ask(
            &mut calls,
            HostCall::SetInstance { key: DataKey::WrapRecordCounter, value: Value::Counter(0) },
        );
        self.admin = Some(admin);
        self.relayer = Some(relayer);
        self.minting_paused = Some(false);
        self.record_counter = Some(0);
        let outcome = Outcome { calls, value: Ok(()) };
        assert(outcome.trace() =~= model::initialize(old(self)@, admin, relayer).calls);
        outcome
    }

    /// Whether `caller` is the administrator.
    fn check_admin(&self, caller: Address) -> (checked: Result<(), WrappedTokenError>)
        ensures
            match model::admin_refusal(self@, caller) {
                Some(error) => checked == Err::<(), WrappedTokenError>(error),
                None => checked is Ok,
            },
    {
        match self.admin {
            None => Err(WrappedTokenError::AdminMissing),
            Some(stored) => if caller != stored {
                Err(WrappedTokenError::Unauthorized)
            } else {
                Ok(())
            },
        }
    }

    /// Registers a token of another chain, in place of any of that symbol.
    pub fn register_wrapped_token(
        &mut self,
        admin: Address,
        symbol: Vec<u8>,
        name: Vec<u8>,
        decimals: u32,
        underlying_chain: Vec<u8>,
        underlying_address: Vec<u8>,
        stellar_token: Address,
    ) -> (outcome: Outcome<Call, Result<(), WrappedTokenError>>)
        ensures
            ({
                let step = model::register(
                    old(self)@,
                    admin,
                    model::TokenModel {
                        symbol: symbol@,
                        name: name@,
                        decimals,
                        underlying_chain: underlying_chain@,
                        underlying_address: underlying_address@,
                        stellar_token,
                        total_wrapped: 0,
                        is_active: true,
                    },
                );
                &&& final(self)@ == step.state
                &&& outcome.trace() == step.calls
                &&& outcome.value == step.value
            }),
    {
        let mut calls: Vec<Call> = begin_as(admin);
        if let Err(error) = self.check_admin(admin) {
            return Outcome { calls, value: Err(error) };
        }
        let wrapped = WrappedToken {
            symbol: copy_bytes(&symbol),
            name,
            decimals,
            underlying_chain,
            underlying_address,
            stellar_token,
            total_wrapped: 0,
            is_active: true,
        };
        file(
            &mut calls,
            DataKey::WrappedToken(copy_bytes(&symbol)),
            Value::Token(wrapped.clone()),
        );
        self.tokens.set(symbol, wrapped);
        Outcome { calls, value: Ok(()) }
    }

    /// Mints `amount` of the token `symbol` for `recipient`, on the word of the
    /// relayer that `source_tx` locked as much on the other chain.
    pub fn mint_wrapped(
        &mut self,
        now: u64,
        relayer: Address,
        symbol: Vec<u8>,
        recipient: Address,
        amount: i128,
        source_tx: Vec<u8>,
    ) -> (outcome: Outcome<Call, Result<u64, WrappedTokenError>>)
        ensures
            ({
                let step = model::mint(
                    old(self)@,
                    now,
                    relayer,
                    symbol@,
                    recipient,
                    amount,
                    source_tx@,
                );
                &&& final(self)@ == step.state
                &&& outcome.trace() == step.calls
                &&& outcome.value == step.value
            }),
    {
        let mut calls: Vec<Call> = begin_as(relayer);
        match self.relayer {
            None => {
                return Outcome { calls, value: Err(WrappedTokenError::RelayerMissing) };
            },
            Some(stored) => {
                if relayer != stored {
                    return Outcome { calls, value: Err(WrappedTokenError::UnauthorizedRelayer) };
                }
            },
        }
        if let Some(true) = self.minting_paused {
            return Outcome { calls, value: Err(WrappedTokenError::MintingPaused) };
        }
        if self.processed.has(&source_tx) {
            return Outcome { calls, value: Err(WrappedTokenError::AlreadyProcessed) };
        }
        if amount <= 0 {
            return Outcome { calls, value: Err(WrappedTokenError::AmountNotPositive) };
        }
        let mut wrapped = match self.tokens.get(&symbol) {
            None => {
                return Outcome { calls, value: Err(WrappedTokenError::TokenNotRegistered) };
            },
            Some(token) => token.clone(),
        };
        if !wrapped.is_active {
            return Outcome { calls, value: Err(WrappedTokenError::TokenNotActive) };
        }
        ask(
            &mut calls,
            HostCall::Outward {
                request: Outward::Mint { token: wrapped.stellar_token, to: recipient, amount },
            },
        );
        match wrapped.total_wrapped.checked_add(amount) {
            None => {
                return Outcome { calls, value: Err(WrappedTokenError::TotalOverflow) };
            },
            Some(total) => {
                wrapped.total_wrapped = total;
            },
        }
        file(
            &mut calls,
            DataKey::WrappedToken(copy_bytes(&symbol)),
            Value::Token(wrapped.clone()),
        );
        let counter: u64 = match self.record_counter {
            Some(counter) => counter,
            None => 0,
        };
        if counter == u64::MAX {
            return Outcome { calls, value: Err(WrappedTokenError::CounterOverflow) };
        }
        let record_id: u64 = counter + 1;
        let record = WrapRecord {
            record_id,
            user: recipient,
            token: copy_bytes(&symbol),
            amount,
            source_tx: copy_bytes(&source_tx),
            wrapped_at: now,
        };
        file(
            &mut calls,
            DataKey::WrapRecord(record_id),
            Value::Record(record.clone()),
        );
        ask(
            &mut calls,
            HostCall::SetInstance {
                key: DataKey::WrapRecordCounter,
                value: Value::Counter(record_id),
            },
        );
        file(
            &mut calls,
            DataKey::ProcessedTx(copy_bytes(&source_tx)),
            Value::Flag(true),
        );
        ask(
            &mut calls,
            HostCall::Outward {
                request: Outward::Publish(Event::Minted { record_id, recipient, amount }),
            },
        );
        self.tokens.set(symbol, wrapped);
        self.records.set(record_id, record);
        self.record_counter = Some(record_id);
        self.processed.set(source_tx, true);
        Outcome { calls, value: Ok(record_id) }
    }

    /// Begins to burn `amount` of the token `symbol`: what comes of it depends
    /// on the balance that the token contract reports for `user`.
    pub fn burn_wrapped(
        &self,
        user: Address,
        symbol: Vec<u8>,
        amount: i128,
        target_address: Vec<u8>,
    ) -> (outcome: Outcome<Call, Result<PendingBurn, WrappedTokenError>>)
        ensures
            ({
                let step = model::burn(self@, user, symbol@, amount, target_address@);
                &&& outcome.trace() == step.calls
                &&& match step.value {
                    Ok(burn) => outcome.value is Ok && outcome.value->Ok_0@ == burn,
                    Err(error) => outcome.value is Err && outcome.value->Err_0 == error,
                }
            }),
    {
        let mut calls: Vec<Call> = begin_as(user);
        if amount <= 0 {
            return Outcome { calls, value: Err(WrappedTokenError::AmountNotPositive) };
        }
        let wrapped = match self.tokens.get(&symbol) {
            None => {
                return Outcome { calls, value: Err(WrappedTokenError::TokenNotRegistered) };
            },
            Some(token) => token.clone(),
        };
        ask(
            &mut calls,
            HostCall::Outward {
                request: Outward::AskBalance { token: wrapped.stellar_token, of: user },
            },
        );
        Outcome { calls, value: Ok(PendingBurn { user, symbol, amount, target_address, wrapped }) }
    }

    /// Carries a burning through, now that the user's balance is known.
    pub fn finish_burn(&mut self, burn: PendingBurn, current_balance: i128) -> (outcome: Outcome<
        Call,
        Result<(), WrappedTokenError>,
    >)
        ensures
            ({
                let step = model::finish_burn(old(self)@, burn@, current_balance);
                &&& final(self)@ == step.state
                &&& outcome.trace() == step.calls
                &&& outcome.value == step.value
            }),
    {
        let mut calls: Vec<Call> = Vec::new();
        assert(crate::host::trace(calls@) =~= Seq::<model::CallModel>::empty());
        if current_balance < burn.amount {
            return Outcome { calls, value: Err(WrappedTokenError::InsufficientBalance) };
        }
        if burn.amount > burn.wrapped.total_wrapped {
            return Outcome { calls, value: Err(WrappedTokenError::ExceedsTotalWrapped) };
        }
        let mut wrapped = burn.wrapped;
        match wrapped.total_wrapped.checked_sub(burn.amount) {
            None => {
                return Outcome { calls, value: Err(WrappedTokenError::TotalUnderflow) };
            },
            Some(total) => {
                wrapped.total_wrapped = total;
            },
        }
        file(
            &mut calls,
            DataKey::WrappedToken(copy_bytes(&burn.symbol)),
            Value::Token(wrapped.clone()),
        );
        ask(
            &mut calls,
            HostCall::Outward {
                request: Outward::Publish(
                    Event::Burned {
                        user: burn.user,
                        amount: burn.amount,
                        target_address: burn.target_address,
                    },
                ),
            },
        );
        self.tokens.set(burn.symbol, wrapped);
        let outcome = Outcome { calls, value: Ok(()) };
        assert(outcome.trace() =~= model::finish_burn(old(self)@, burn@, current_balance).calls);
        outcome
    }

    /// Names another relayer.
    pub fn set_relayer(&mut self, admin: Address, new_relayer: Address) -> (outcome: Outcome<
        Call,
        Result<(), WrappedTokenError>,
    >)
        ensures
            ({
                let step = model::set_relayer(old(self)@, admin, new_relayer);
                &&& final(self)@ == step.state
                &&& outcome.trace() == step.calls
                &&& outcome.value == step.value
            }),
    {
        let mut calls: Vec<Call> = begin_as(admin);
        if let Err(error) = self.check_admin(admin) {
            return Outcome { calls, value: Err(error) };
        }
        ask(
            &mut calls,
            HostCall::SetInstance {
                key: DataKey::RelayerAddress,
                value: Value::Address(new_relayer),
            },
        );
        self.relayer = Some(new_relayer);
        Outcome { calls, value: Ok(()) }
    }

    /// Stops minting, or lets it go on.
    pub fn set_minting_paused(&mut self, admin: Address, paused: bool) -> (outcome: Outcome<
        Call,
        Result<(), WrappedTokenError>,
    >)
        ensures
            ({
                let step = model::set_minting_paused(old(self)@, admin, paused);
                &&& final(self)@ == step.state
                &&& outcome.trace() == step.calls
                &&& outcome.value == step.value
            }),
    {
        let mut calls: Vec<Call> = begin_as(admin);
        if let Err(error) = self.check_admin(admin) {
            return Outcome { calls, value: Err(error) };
        }
        ask(
            &mut calls,
            HostCall::SetInstance { key: DataKey::MintingPaused, value: Value::Flag(paused) },
        );
        self.minting_paused = Some(paused);
        Outcome { calls, value: Ok(()) }
    }

    /// The token of that symbol.
    pub fn get_wrapped_token(&self, symbol: Vec<u8>) -> (outcome: Outcome<
        Call,
        Option<WrappedToken>,
    >)
        ensures
            outcome.trace() == model::reading(),
            match model::token(self@, symbol@) {
                Some(token) => outcome.value is Some && outcome.value->Some_0@ == token,
                None => outcome.value is None,
            },
    {
        let calls: Vec<Call> = begin();
        let value = match self.tokens.get(&symbol) {
            Some(token) => Some(token.clone()),
            None => None,
        };
        Outcome { calls, value }
    }

    /// The balance that is filed for a user.
    pub fn get_user_balance(&self, symbol: Vec<u8>, user: Address) -> (outcome: Outcome<Call, i128>)
        ensures
            outcome.trace() == model::reading(),
            outcome.value == model::user_balance(self@, symbol@, user),
    {
        let calls: Vec<Call> = begin();
        let value: i128 = match self.user_balances.get(&BalanceKey { symbol, user }) {
            Some(balance) => *balance,
            None => 0,
        };
        Outcome { calls, value }
    }

    /// Proposes another administrator.
    pub fn propose_admin(current_admin: Address, new_admin: Address) -> (request: AdminRequest<
        DataKey,
    >)
        ensures
            request == (AdminRequest::Propose {
                admin_key: DataKey::Admin,
                pending_key: DataKey::PendingAdmin,
                current_admin,
                new_admin,
            }),
    {
        AdminRequest::Propose {
            admin_key: DataKey::Admin,
            pending_key: DataKey::PendingAdmin,
            current_admin,
            new_admin,
        }
    }

    /// Takes over as the administrator.
    pub fn accept_admin(new_admin: Address) -> (request: AdminRequest<DataKey>)
        ensures
            request == (AdminRequest::Accept {
                admin_key: DataKey::Admin,
                pending_key: DataKey::PendingAdmin,
                new_admin,
            }),
    {
        AdminRequest::Accept {
            admin_key: DataKey::Admin,
            pending_key: DataKey::PendingAdmin,
            new_admin,
        }
    }
}

} // verus!
