//! What the wrapped token manager is: its ledger, and what each call makes of
//! it.

use crate::address::Address;
use crate::host::{HostCall, Step};
use crate::wrapped_token::WrappedTokenError;
use vstd::prelude::*;

verus! {

/// A registered token.
pub struct TokenModel {
    pub symbol: Seq<u8>,
    pub name: Seq<u8>,
    pub decimals: u32,
    pub underlying_chain: Seq<u8>,
    pub underlying_address: Seq<u8>,
    pub stellar_token: Address,
    pub total_wrapped: i128,
    pub is_active: bool,
}

/// A minting.
pub struct RecordModel {
    pub record_id: u64,
    pub user: Address,
    pub token: Seq<u8>,
    pub amount: i128,
    pub source_tx: Seq<u8>,
    pub wrapped_at: u64,
}

/// What an entry is filed under.
pub enum KeyModel {
    Admin,
    PendingAdmin,
    RelayerAddress,
    MintingPaused,
    WrapRecordCounter,
    WrappedToken(Seq<u8>),
    WrapRecord(u64),
    UserBalance(Seq<u8>, Address),
    ProcessedTx(Seq<u8>),
}

/// What can be filed.
pub enum ValueModel {
    Address(Address),
    Flag(bool),
    Counter(u64),
    Token(TokenModel),
    Record(RecordModel),
}

/// What is published.
pub enum EventModel {
    Minted { record_id: u64, recipient: Address, amount: i128 },
    Burned { user: Address, amount: i128, target_address: Seq<u8> },
}

/// A request to the world outside.
pub enum OutwardModel {
    Mint { token: Address, to: Address, amount: i128 },
    AskBalance { token: Address, of: Address },
    Publish(EventModel),
}

/// A burning that waits for the user's balance.
pub struct PendingBurnModel {
    pub user: Address,
    pub symbol: Seq<u8>,
    pub amount: i128,
    pub target_address: Seq<u8>,
    pub wrapped: TokenModel,
}

pub type CallModel = HostCall<KeyModel, ValueModel, OutwardModel>;

/// The ledger of the wrapped token manager.
#[verifier::ext_equal]
pub struct Ledger {
    pub admin: Option<Address>,
    pub pending_admin: Option<Address>,
    pub relayer: Option<Address>,
    pub minting_paused: Option<bool>,
    pub record_counter: Option<u64>,
    pub tokens: Map<Seq<u8>, TokenModel>,
    pub records: Map<u64, RecordModel>,
    pub user_balances: Map<(Seq<u8>, Address), i128>,
    pub processed: Map<Seq<u8>, bool>,
}

impl Ledger {
    /// The id of the latest record; 0 where there is none.
    pub open spec fn last_record(self) -> u64 {
        match self.record_counter {
            Some(counter) => counter,
            None => 0,
        }
    }
}

/// The setting up of the contract.
pub open spec fn initialize(s: Ledger, admin: Address, relayer: Address) -> Step<
    Ledger,
    CallModel,
    Result<(), WrappedTokenError>,
> {
    if s.admin is Some {
        Step {
            state: s,
            calls: seq![crate::host::renewal()],
            value: Err(WrappedTokenError::AlreadyInitialized),
        }
    } else {
        Step {
            state: Ledger {
                admin: Some(admin),
                relayer: Some(relayer),
                minting_paused: Some(false),
                record_counter: Some(0),
                ..s
            },
            calls: crate::host::opening(admin) + seq![
                HostCall::SetInstance { key: KeyModel::Admin, value: ValueModel::Address(admin) },
                HostCall::SetInstance {
                    key: KeyModel::RelayerAddress,
                    value: ValueModel::Address(relayer),
                },
                HostCall::SetInstance {
                    key: KeyModel::MintingPaused,
                    value: ValueModel::Flag(false),
                },
                HostCall::SetInstance {
                    key: KeyModel::WrapRecordCounter,
                    value: ValueModel::Counter(0),
                },
            ],
            value: Ok(()),
        }
    }
}

/// Why `caller` may not do what is the administrator's.
pub open spec fn admin_refusal(s: Ledger, caller: Address) -> Option<WrappedTokenError> {
    if s.admin is None {
        Some(WrappedTokenError::AdminMissing)
    } else if s.admin != Some(caller) {
        Some(WrappedTokenError::Unauthorized)
    } else {
        None
    }
}

/// The registration of `token`. Its amount in circulation starts at nothing,
/// even where a token of that symbol is registered already.
pub open spec fn register(s: Ledger, admin: Address, token: TokenModel) -> Step<
    Ledger,
    CallModel,
    Result<(), WrappedTokenError>,
> {
    let opened = crate::host::opening(admin);
    match admin_refusal(s, admin) {
        Some(error) => Step { state: s, calls: opened, value: Err(error) },
        None => Step {
            state: Ledger { tokens: s.tokens.insert(token.symbol, token), ..s },
            calls: opened + crate::host::filing(
                KeyModel::WrappedToken(token.symbol),
                ValueModel::Token(token),
            ),
            value: Ok(()),
        },
    }
}

/// Why a minting is refused before any token is minted: the first of the
/// checks that fails.
pub open spec fn mint_refusal(
    s: Ledger,
    relayer: Address,
    symbol: Seq<u8>,
    amount: i128,
    source_tx: Seq<u8>,
) -> Option<WrappedTokenError> {
    if s.relayer is None {
        Some(WrappedTokenError::RelayerMissing)
    } else if s.relayer != Some(relayer) {
        Some(WrappedTokenError::UnauthorizedRelayer)
    } else if s.minting_paused == Some(true) {
        Some(WrappedTokenError::MintingPaused)
    } else if s.processed.contains_key(source_tx) {
        Some(WrappedTokenError::AlreadyProcessed)
    } else if amount <= 0 {
        Some(WrappedTokenError::AmountNotPositive)
    } else if !s.tokens.contains_key(symbol) {
        Some(WrappedTokenError::TokenNotRegistered)
    } else if !s.tokens[symbol].is_active {
        Some(WrappedTokenError::TokenNotActive)
    } else {
        None
    }
}

/// A minting of `amount` of the token `symbol` for `recipient`.
pub open spec fn mint(
    s: Ledger,
    now: u64,
    relayer: Address,
    symbol: Seq<u8>,
    recipient: Address,
    amount: i128,
    source_tx: Seq<u8>,
) -> Step<Ledger, CallModel, Result<u64, WrappedTokenError>> {
    let opened = crate::host::opening(relayer);
    match mint_refusal(s, relayer, symbol, amount, source_tx) {
        Some(error) => Step { state: s, calls: opened, value: Err(error) },
        None => {
            let token = s.tokens[symbol];
            let minted = opened.push(
                HostCall::Outward {
                    request: OutwardModel::Mint {
                        token: token.stellar_token,
                        to: recipient,
                        amount,
                    },
                },
            );
            let grown = TokenModel {
                total_wrapped: (token.total_wrapped + amount) as i128,
                ..token
            };
            let counted = minted + crate::host::filing(
                KeyModel::WrappedToken(symbol),
                ValueModel::Token(grown),
            );
            let record_id = (s.last_record() + 1) as u64;
            let record = RecordModel {
                record_id,
                user: recipient,
                token: symbol,
                amount,
                source_tx,
                wrapped_at: now,
            };
            if token.total_wrapped + amount > i128::MAX {
                Step { state: s, calls: minted, value: Err(WrappedTokenError::TotalOverflow) }
            } else if s.last_record() == u64::MAX {
                Step { state: s, calls: counted, value: Err(WrappedTokenError::CounterOverflow) }
            } else {
                Step {
                    state: Ledger {
                        record_counter: Some(record_id),
                        tokens: s.tokens.insert(symbol, grown),
                        records: s.records.insert(record_id, record),
                        processed: s.processed.insert(source_tx, true),
                        ..s
                    },
                    calls: counted + crate::host::filing(
                        KeyModel::WrapRecord(record_id),
                        ValueModel::Record(record),
                    ) + seq![
                        HostCall::SetInstance {
                            key: KeyModel::WrapRecordCounter,
                            value: ValueModel::Counter(record_id),
                        },
                    ] + crate::host::filing(
                        KeyModel::ProcessedTx(source_tx),
                        ValueModel::Flag(true),
                    ) + seq![
                        HostCall::Outward {
                            request: OutwardModel::Publish(
                                EventModel::Minted { record_id, recipient, amount },
                            ),
                        },
                    ],
                    value: Ok(record_id),
                }
            }
        },
    }
}

/// The first half of a burning, up to the question for the user's balance.
pub open spec fn burn(
    s: Ledger,
    user: Address,
    symbol: Seq<u8>,
    amount: i128,
    target_address: Seq<u8>,
) -> Step<Ledger, CallModel, Result<PendingBurnModel, WrappedTokenError>> {
    let opened = crate::host::opening(user);
    if amount <= 0 {
        Step { state: s, calls: opened, value: Err(WrappedTokenError::AmountNotPositive) }
    } else if !s.tokens.contains_key(symbol) {
        Step { state: s, calls: opened, value: Err(WrappedTokenError::TokenNotRegistered) }
    } else {
        let wrapped = s.tokens[symbol];
        Step {
            state: s,
            calls: opened.push(
                HostCall::Outward {
                    request: OutwardModel::AskBalance { token: wrapped.stellar_token, of: user },
                },
            ),
            value: Ok(PendingBurnModel { user, symbol, amount, target_address, wrapped }),
        }
    }
}

/// The second half of a burning, once the user's balance is known.
pub open spec fn finish_burn(s: Ledger, burn: PendingBurnModel, current_balance: i128) -> Step<
    Ledger,
    CallModel,
    Result<(), WrappedTokenError>,
> {
    let none = Seq::<CallModel>::empty();
    let left = burn.wrapped.total_wrapped - burn.amount;
    if current_balance < burn.amount {
        Step { state: s, calls: none, value: Err(WrappedTokenError::InsufficientBalance) }
    } else if burn.amount > burn.wrapped.total_wrapped {
        Step { state: s, calls: none, value: Err(WrappedTokenError::ExceedsTotalWrapped) }
    } else if left > i128::MAX {
        Step { state: s, calls: none, value: Err(WrappedTokenError::TotalUnderflow) }
    } else {
        let shrunk = TokenModel { total_wrapped: left as i128, ..burn.wrapped };
        Step {
            state: Ledger { tokens: s.tokens.insert(burn.symbol, shrunk), ..s },
            calls: crate::host::filing(
                KeyModel::WrappedToken(burn.symbol),
                ValueModel::Token(shrunk),
            ).push(
                HostCall::Outward {
                    request: OutwardModel::Publish(
                        EventModel::Burned {
                            user: burn.user,
                            amount: burn.amount,
                            target_address: burn.target_address,
                        },
                    ),
                },
            ),
            value: Ok(()),
        }
    }
}

/// The naming of another relayer.
pub open spec fn set_relayer(s: Ledger, admin: Address, new_relayer: Address) -> Step<
    Ledger,
    CallModel,
    Result<(), WrappedTokenError>,
> {
    let opened = crate::host::opening(admin);
    match admin_refusal(s, admin) {
        Some(error) => Step { state: s, calls: opened, value: Err(error) },
        None => Step {
            state: Ledger { relayer: Some(new_relayer), ..s },
            calls: opened.push(
                HostCall::SetInstance {
                    key: KeyModel::RelayerAddress,
                    value: ValueModel::Address(new_relayer),
                },
            ),
            value: Ok(()),
        },
    }
}

/// The stopping of minting, and its resumption.
pub open spec fn set_minting_paused(s: Ledger, admin: Address, paused: bool) -> Step<
    Ledger,
    CallModel,
    Result<(), WrappedTokenError>,
> {
    let opened = crate::host::opening(admin);
    match admin_refusal(s, admin) {
        Some(error) => Step { state: s, calls: opened, value: Err(error) },
        None => Step {
            state: Ledger { minting_paused: Some(paused), ..s },
            calls: opened.push(
                HostCall::SetInstance {
                    key: KeyModel::MintingPaused,
                    value: ValueModel::Flag(paused),
                },
            ),
            value: Ok(()),
        },
    }
}

/// The requests of a call that only reads.
pub open spec fn reading() -> Seq<CallModel> {
    seq![crate::host::renewal()]
}

/// The token of that symbol.
pub open spec fn token(s: Ledger, symbol: Seq<u8>) -> Option<TokenModel> {
    if s.tokens.contains_key(symbol) {
        Some(s.tokens[symbol])
    } else {
        None
    }
}

/// The balance that is filed for a user; 0 where none is.
pub open spec fn user_balance(s: Ledger, symbol: Seq<u8>, user: Address) -> i128 {
    if s.user_balances.contains_key((symbol, user)) {
        s.user_balances[(symbol, user)]
    } else {
        0
    }
}

/// What the host reports of a failed call.
pub open spec fn message(error: WrappedTokenError) -> Seq<char> {
    match error {
        WrappedTokenError::AlreadyInitialized => "already initialized"@,
        WrappedTokenError::AdminMissing => "called `Option::unwrap()` on a `None` value"@,
        WrappedTokenError::RelayerMissing => "called `Option::unwrap()` on a `None` value"@,
        WrappedTokenError::Unauthorized => "unauthorized"@,
        WrappedTokenError::UnauthorizedRelayer => "unauthorized relayer"@,
        WrappedTokenError::MintingPaused => "minting paused"@,
        WrappedTokenError::AlreadyProcessed => "source transaction already processed"@,
        WrappedTokenError::AmountNotPositive => "amount must be positive"@,
        WrappedTokenError::TokenNotRegistered => "token not registered"@,
        WrappedTokenError::TokenNotActive => "token not active"@,
        WrappedTokenError::TotalOverflow => "total_wrapped overflow"@,
        WrappedTokenError::CounterOverflow => "attempt to add with overflow"@,
        WrappedTokenError::InsufficientBalance => "insufficient balance"@,
        WrappedTokenError::ExceedsTotalWrapped => "burn amount exceeds total wrapped supply"@,
        WrappedTokenError::TotalUnderflow => "total_wrapped underflow"@,
    }
}

} // verus!
