//! What holds of the wrapped token manager as a whole, over any run of calls.

use crate::address::Address;
use crate::host::{HostCall, Step};
use crate::wrapped_token::model;
use crate::wrapped_token::model::{
    CallModel, KeyModel, Ledger, OutwardModel, TokenModel, ValueModel,
};
use crate::wrapped_token::WrappedTokenError;
use vstd::prelude::*;

verus! {

/// A minting: what the relayer asks for.
pub struct Minting {
    pub now: u64,
    pub relayer: Address,
    pub symbol: Seq<u8>,
    pub recipient: Address,
    pub amount: i128,
    pub source_tx: Seq<u8>,
}

/// A burning: what the user asks for, and the balance that the token contract
/// reports.
pub struct Burning {
    pub user: Address,
    pub symbol: Seq<u8>,
    pub amount: i128,
    pub target_address: Seq<u8>,
    pub current_balance: i128,
}

/// A call that can change the ledger. A handover is what the shared admin
/// library makes of the administrator.
pub enum Action {
    Initialize { admin: Address, relayer: Address },
    Register { admin: Address, token: TokenModel },
    Mint(Minting),
    Burn(Burning),
    SetRelayer { admin: Address, new_relayer: Address },
    SetMintingPaused { admin: Address, paused: bool },
    Handover { admin: Address, pending_admin: Option<Address> },
}

/// What a minting comes to.
pub open spec fn minted(s: Ledger, m: Minting) -> Step<
    Ledger,
    CallModel,
    Result<u64, WrappedTokenError>,
> {
    model::mint(s, m.now, m.relayer, m.symbol, m.recipient, m.amount, m.source_tx)
}

/// What a burning comes to, from beginning to end.
pub open spec fn burned(s: Ledger, b: Burning) -> Step<
    Ledger,
    CallModel,
    Result<(), WrappedTokenError>,
> {
    let begun = model::burn(s, b.user, b.symbol, b.amount, b.target_address);
    match begun.value {
        Err(error) => Step { state: s, calls: begun.calls, value: Err(error) },
        Ok(pending) => {
            let finished = model::finish_burn(s, pending, b.current_balance);
            Step {
                state: finished.state,
                calls: begun.calls + finished.calls,
                value: finished.value,
            }
        },
    }
}

/// A token as it is registered: nothing of it is in circulation, and it can be
/// minted.
pub open spec fn brand_new(token: TokenModel) -> TokenModel {
    TokenModel { total_wrapped: 0, is_active: true, ..token }
}

/// What a registration comes to.
pub open spec fn registered(s: Ledger, admin: Address, token: TokenModel) -> Step<
    Ledger,
    CallModel,
    Result<(), WrappedTokenError>,
> {
    model::register(s, admin, brand_new(token))
}

/// The ledger after an action.
pub open spec fn after(s: Ledger, action: Action) -> Ledger {
    match action {
        Action::Initialize { admin, relayer } => model::initialize(s, admin, relayer).state,
        Action::Register { admin, token } => registered(s, admin, token).state,
        Action::Mint(m) => minted(s, m).state,
        Action::Burn(b) => burned(s, b).state,
        Action::SetRelayer { admin, new_relayer } => model::set_relayer(
            s,
            admin,
            new_relayer,
        ).state,
        Action::SetMintingPaused { admin, paused } => model::set_minting_paused(
            s,
            admin,
            paused,
        ).state,
        Action::Handover { admin, pending_admin } => Ledger {
            admin: Some(admin),
            pending_admin,
            ..s
        },
    }
}

/// The ledger after a run of actions.
pub open spec fn run(s: Ledger, actions: Seq<Action>) -> Ledger
    decreases actions.len(),
{
    if actions.len() == 0 {
        s
    } else {
        after(run(s, actions.drop_last()), actions.last())
    }
}

/// Whether a ledger is that of a contract that was set up: each token and each
/// record is filed under its own symbol or id, no token has less than nothing in
/// circulation, every id up to the latest is on file and no other, and the
/// transaction of each record is on file as processed.
pub open spec fn consistent(s: Ledger) -> bool {
    &&& s.admin is Some
    &&& forall|symbol: Seq<u8>| #[trigger]
        s.tokens.contains_key(symbol) ==> {
            &&& s.tokens[symbol].symbol == symbol
            &&& s.tokens[symbol].total_wrapped >= 0
            &&& s.tokens[symbol].is_active
        }
    &&& forall|id: u64| #[trigger]
        s.records.contains_key(id) <==> 1 <= id <= s.last_record()
    &&& forall|id: u64| #[trigger]
        s.records.contains_key(id) ==> {
            &&& s.records[id].record_id == id
            &&& s.records[id].amount > 0
            &&& s.processed.contains_key(s.records[id].source_tx)
        }
    &&& forall|id: u64, other: u64|
        s.records.contains_key(id) && s.records.contains_key(other) && id != other ==> (
        #[trigger] s.records[id]).source_tx != (#[trigger] s.records[other]).source_tx
}

/// A contract without tokens and records is consistent once it is set up.
pub proof fn law_setup_is_consistent(s: Ledger, admin: Address, relayer: Address)
    requires
        s.admin is None,
        s.tokens =~= Map::empty(),
        s.records =~= Map::empty(),
    ensures
        model::initialize(s, admin, relayer).value is Ok,
        consistent(model::initialize(s, admin, relayer).state),
{
}

proof fn lemma_action_keeps_consistency(s: Ledger, action: Action)
    requires
        consistent(s),
    ensures
        consistent(after(s, action)),
{
    let t = after(s, action);
    assert forall|symbol: Seq<u8>| #[trigger] t.tokens.contains_key(symbol) implies {
        &&& t.tokens[symbol].symbol == symbol
        &&& t.tokens[symbol].total_wrapped >= 0
        &&& t.tokens[symbol].is_active
    } by {
        if s.tokens.contains_key(symbol) {
            assert(s.tokens[symbol].total_wrapped >= 0);
        }
    }
    assert forall|id: u64| #[trigger]
        t.records.contains_key(id) <==> 1 <= id <= t.last_record() by {
        assert(s.records.contains_key(id) <==> 1 <= id <= s.last_record());
    }
    assert forall|id: u64| #[trigger] t.records.contains_key(id) implies {
        &&& t.records[id].record_id == id
        &&& t.records[id].amount > 0
        &&& t.processed.contains_key(t.records[id].source_tx)
    } by {
        if s.records.contains_key(id) {
            assert(s.records[id].record_id == id);
        }
    }
    assert forall|id: u64, other: u64|
        t.records.contains_key(id) && t.records.contains_key(other) && id != other implies (
    #[trigger] t.records[id]).source_tx != (#[trigger] t.records[other]).source_tx by {
        if s.records.contains_key(id) {
            assert(s.processed.contains_key(s.records[id].source_tx));
        }
        if s.records.contains_key(other) {
            assert(s.processed.contains_key(s.records[other].source_tx));
        }
    }
}

/// Every run of calls keeps a ledger consistent: no token ever has less than
/// nothing in circulation, and no transaction of another chain has two records.
pub proof fn law_consistency_is_kept(s: Ledger, actions: Seq<Action>)
    requires
        consistent(s),
    ensures
        consistent(run(s, actions)),
    decreases actions.len(),
{
    if actions.len() > 0 {
        law_consistency_is_kept(s, actions.drop_last());
        lemma_action_keeps_consistency(run(s, actions.drop_last()), actions.last());
    }
}

/// A contract that is set up cannot be set up again, whatever has been called
/// in between.
pub proof fn law_set_up_once(s: Ledger, actions: Seq<Action>, admin: Address, relayer: Address)
    requires
        s.admin is Some,
    ensures
        model::initialize(run(s, actions), admin, relayer).value == Err::<(), WrappedTokenError>(
            WrappedTokenError::AlreadyInitialized,
        ),
    decreases actions.len(),
{
    if actions.len() > 0 {
        law_set_up_once(s, actions.drop_last(), admin, relayer);
    }
}

/// A transaction of another chain that was processed stays on file, and nothing
/// is minted for it again: the relayer, while minting is not paused, is told that
/// it was processed already.
pub proof fn law_no_replay(s: Ledger, actions: Seq<Action>, m: Minting)
    requires
        s.processed.contains_key(m.source_tx),
    ensures
        run(s, actions).processed.contains_key(m.source_tx),
        minted(run(s, actions), m).value is Err,
        run(s, actions).relayer == Some(m.relayer) && run(s, actions).minting_paused != Some(true)
            ==> minted(run(s, actions), m).value == Err::<u64, WrappedTokenError>(
            WrappedTokenError::AlreadyProcessed,
        ),
        minted(run(s, actions), m).calls == crate::host::opening::<
            KeyModel,
            ValueModel,
            OutwardModel,
        >(m.relayer),
    decreases actions.len(),
{
    if actions.len() > 0 {
        law_no_replay(s, actions.drop_last(), m);
    }
}

/// A minting puts its transaction on file, where it was not before.
pub proof fn law_minting_marks_its_transaction(s: Ledger, m: Minting)
    requires
        minted(s, m).value is Ok,
    ensures
        !s.processed.contains_key(m.source_tx),
        minted(s, m).state.processed.contains_key(m.source_tx),
{
}

/// Only the relayer mints, a positive amount, of a token that is registered and
/// active, for a transaction that was not processed, while minting is not paused;
/// and such a minting succeeds, unless the total or the ids run out.
pub proof fn law_who_can_mint(s: Ledger, m: Minting)
    ensures
        minted(s, m).value is Ok <==> {
            &&& s.relayer == Some(m.relayer)
            &&& s.minting_paused != Some(true)
            &&& !s.processed.contains_key(m.source_tx)
            &&& m.amount > 0
            &&& s.tokens.contains_key(m.symbol)
            &&& s.tokens[m.symbol].is_active
            &&& s.tokens[m.symbol].total_wrapped + m.amount <= i128::MAX
            &&& s.record_counter != Some(u64::MAX)
        },
{
}

/// A user burns exactly a positive amount that they have, of a token that is
/// registered and of which as much is in circulation, whether or not minting is
/// paused.
pub proof fn law_who_can_burn(s: Ledger, b: Burning)
    ensures
        burned(s, b).value is Ok <==> {
            &&& s.tokens.contains_key(b.symbol)
            &&& 0 < b.amount <= b.current_balance
            &&& b.amount <= s.tokens[b.symbol].total_wrapped
        },
{
}

/// Pausing minting, naming another relayer or handing the contract over makes no
/// difference to a burning: it succeeds or fails as before, with the same
/// requests, and leaves the same tokens.
pub proof fn law_burning_looks_at_the_token_alone(
    s: Ledger,
    t: Ledger,
    b: Burning,
)
    requires
        s.tokens == t.tokens,
    ensures
        burned(s, b).value == burned(t, b).value,
        burned(s, b).calls == burned(t, b).calls,
        burned(s, b).state.tokens == burned(t, b).state.tokens,
{
}

/// Once another relayer is named, the former one mints no more.
pub proof fn law_former_relayers_are_not_heeded(
    s: Ledger,
    admin: Address,
    new_relayer: Address,
    m: Minting,
)
    requires
        model::set_relayer(s, admin, new_relayer).value is Ok,
        m.relayer != new_relayer,
    ensures
        minted(model::set_relayer(s, admin, new_relayer).state, m).value == Err::<
            u64,
            WrappedTokenError,
        >(WrappedTokenError::UnauthorizedRelayer),
{
}

/// While minting is paused, nothing is minted, and the relayer is told so; taking
/// the pause back brings the ledger back.
pub proof fn law_pausing_stops_minting(s: Ledger, admin: Address, m: Minting)
    requires
        model::set_minting_paused(s, admin, true).value is Ok,
    ensures
        minted(model::set_minting_paused(s, admin, true).state, m).value is Err,
        s.relayer == Some(m.relayer) ==> minted(
            model::set_minting_paused(s, admin, true).state,
            m,
        ).value == Err::<u64, WrappedTokenError>(WrappedTokenError::MintingPaused),
        s.minting_paused == Some(false) ==> model::set_minting_paused(
            model::set_minting_paused(s, admin, true).state,
            admin,
            false,
        ).state == s,
{
}

/// Whether a request mints tokens.
pub open spec fn mints(call: CallModel) -> bool {
    call matches HostCall::Outward { request: OutwardModel::Mint { .. } }
}

/// A minting has the token contract mint the amount for the recipient, once,
/// and adds it to what is in circulation.
pub proof fn law_minting_adds_up(s: Ledger, m: Minting)
    requires
        minted(s, m).value is Ok,
    ensures
        ({
            let step = minted(s, m);
            &&& step.calls[2] == minting_request(s.tokens[m.symbol].stellar_token, m)
            &&& forall|i: int| 0 <= i < step.calls.len() && i != 2 ==> !mints(#[trigger] step.calls[i])
            &&& step.state.tokens[m.symbol] == TokenModel {
                total_wrapped: (s.tokens[m.symbol].total_wrapped + m.amount) as i128,
                ..s.tokens[m.symbol]
            }
            &&& step.state.tokens[m.symbol].total_wrapped == s.tokens[m.symbol].total_wrapped
                + m.amount
        }),
{
}

/// The request to mint.
pub open spec fn minting_request(token: Address, m: Minting) -> CallModel {
    HostCall::Outward {
        request: OutwardModel::Mint { token, to: m.recipient, amount: m.amount },
    }
}

/// A burning takes a positive amount that the user has from what is in
/// circulation, and no more than there is.
pub proof fn law_burning_adds_up(s: Ledger, b: Burning)
    requires
        burned(s, b).value is Ok,
    ensures
        0 < b.amount <= b.current_balance,
        b.amount <= s.tokens[b.symbol].total_wrapped,
        s.tokens.contains_key(b.symbol),
        burned(s, b).state.tokens[b.symbol].total_wrapped == s.tokens[b.symbol].total_wrapped
            - b.amount,
{
}

/// A burning that was begun never fails for want of room in the total.
pub proof fn law_burning_does_not_underflow(s: Ledger, b: Burning)
    ensures
        burned(s, b).value != Err::<(), WrappedTokenError>(WrappedTokenError::TotalUnderflow),
{
}

/// Burning what was minted brings the tokens back to what they were.
pub proof fn law_burning_undoes_minting(s: Ledger, m: Minting, b: Burning)
    requires
        consistent(s),
        minted(s, m).value is Ok,
        b.symbol == m.symbol,
        b.amount == m.amount,
        b.amount <= b.current_balance,
    ensures
        burned(minted(s, m).state, b).value is Ok,
        burned(minted(s, m).state, b).state.tokens =~= s.tokens,
{
    assert(s.tokens[m.symbol].total_wrapped >= 0);
    let t = burned(minted(s, m).state, b).state;
    assert(t.tokens[m.symbol] == s.tokens[m.symbol]);
}

/// What a run of calls mints of a token, less what it burns.
pub open spec fn net_flow(s: Ledger, actions: Seq<Action>, symbol: Seq<u8>) -> int
    decreases actions.len(),
{
    if actions.len() == 0 {
        0
    } else {
        let before = run(s, actions.drop_last());
        let so_far = net_flow(s, actions.drop_last(), symbol);
        match actions.last() {
            Action::Mint(m) => if m.symbol == symbol && minted(before, m).value is Ok {
                so_far + m.amount
            } else {
                so_far
            },
            Action::Burn(b) => if b.symbol == symbol && burned(before, b).value is Ok {
                so_far - b.amount
            } else {
                so_far
            },
            _ => so_far,
        }
    }
}

/// Whether no action registers a token of that symbol.
pub open spec fn not_registered_again(actions: Seq<Action>, symbol: Seq<u8>) -> bool {
    forall|i: int|
        0 <= i < actions.len() ==> (#[trigger] actions[i] matches Action::Register { token, .. }
            ==> token.symbol != symbol)
}

/// What is on file as in circulation is what was minted less what was burned,
/// for as long as the token is not registered anew.
pub proof fn law_circulation_is_conserved(s: Ledger, actions: Seq<Action>, symbol: Seq<u8>)
    requires
        s.tokens.contains_key(symbol),
        not_registered_again(actions, symbol),
    ensures
        run(s, actions).tokens.contains_key(symbol),
        run(s, actions).tokens[symbol].total_wrapped == s.tokens[symbol].total_wrapped + net_flow(
            s,
            actions,
            symbol,
        ),
    decreases actions.len(),
{
    if actions.len() > 0 {
        let before = actions.drop_last();
        assert forall|i: int| 0 <= i < before.len() implies (#[trigger] before[i] matches Action::Register {
            token,
            ..
        } ==> token.symbol != symbol) by {
            assert(before[i] == actions[i]);
        }
        law_circulation_is_conserved(s, before, symbol);
        let last = actions[actions.len() - 1];
        assert(last matches Action::Register { token, .. } ==> token.symbol != symbol);
    }
}

/// Whether a run of calls registers a token of that symbol.
pub open spec fn was_registered(s: Ledger, actions: Seq<Action>, symbol: Seq<u8>) -> bool
    decreases actions.len(),
{
    if actions.len() == 0 {
        false
    } else {
        let before = run(s, actions.drop_last());
        ||| was_registered(s, actions.drop_last(), symbol)
        ||| actions.last() matches Action::Register { admin, token } && token.symbol == symbol
            && registered(before, admin, token).value is Ok
    }
}

/// What a run of calls has minted of a token, less what it has burned, since it
/// last registered the token.
pub open spec fn flow_since_registered(s: Ledger, actions: Seq<Action>, symbol: Seq<u8>) -> int
    decreases actions.len(),
{
    if actions.len() == 0 {
        0
    } else {
        let before = run(s, actions.drop_last());
        let so_far = flow_since_registered(s, actions.drop_last(), symbol);
        match actions.last() {
            Action::Register { admin, token } => if token.symbol == symbol && registered(
                before,
                admin,
                token,
            ).value is Ok {
                0
            } else {
                so_far
            },
            Action::Mint(m) => if m.symbol == symbol && minted(before, m).value is Ok {
                so_far + m.amount
            } else {
                so_far
            },
            Action::Burn(b) => if b.symbol == symbol && burned(before, b).value is Ok {
                so_far - b.amount
            } else {
                so_far
            },
            _ => so_far,
        }
    }
}

/// Where there were no tokens to begin with, a token is on file exactly where one
/// of its symbol was registered, and what is in circulation is what was minted
/// less what was burned since it was last registered.
pub proof fn law_circulation_since_registration(s: Ledger, actions: Seq<Action>, symbol: Seq<u8>)
    requires
        s.tokens =~= Map::empty(),
    ensures
        run(s, actions).tokens.contains_key(symbol) <==> was_registered(s, actions, symbol),
        was_registered(s, actions, symbol) ==> run(s, actions).tokens[symbol].total_wrapped
            == flow_since_registered(s, actions, symbol),
    decreases actions.len(),
{
    if actions.len() > 0 {
        law_circulation_since_registration(s, actions.drop_last(), symbol);
    }
}

/// A new record gets the next id, under which nothing stood.
pub proof fn law_new_record_takes_nothing_over(s: Ledger, m: Minting)
    requires
        consistent(s),
    ensures
        minted(s, m).value matches Ok(id) ==> id == s.last_record() + 1 && !s.records.contains_key(
            id,
        ),
{
}

/// No call removes or alters a record.
pub proof fn law_records_are_fixed(s: Ledger, actions: Seq<Action>, id: u64)
    requires
        consistent(s),
        s.records.contains_key(id),
    ensures
        run(s, actions).records.contains_key(id),
        run(s, actions).records[id] == s.records[id],
    decreases actions.len(),
{
    if actions.len() > 0 {
        law_records_are_fixed(s, actions.drop_last(), id);
        law_consistency_is_kept(s, actions.drop_last());
    }
}

/// No call touches a balance on file.
pub proof fn law_user_balances_are_fixed(s: Ledger, actions: Seq<Action>)
    ensures
        run(s, actions).user_balances == s.user_balances,
    decreases actions.len(),
{
    if actions.len() > 0 {
        law_user_balances_are_fixed(s, actions.drop_last());
    }
}

/// A minting or burning of one token leaves every other as it is.
pub proof fn law_other_tokens_are_untouched(s: Ledger, m: Minting, b: Burning, other: Seq<u8>)
    ensures
        other != m.symbol ==> model::token(minted(s, m).state, other) == model::token(s, other),
        other != b.symbol ==> model::token(burned(s, b).state, other) == model::token(s, other),
{
}

/// Only the administrator registers tokens, names relayers and pauses minting.
pub proof fn law_administration(
    s: Ledger,
    admin: Address,
    token: TokenModel,
    new_relayer: Address,
    paused: bool,
)
    ensures
        registered(s, admin, token).value is Ok <==> s.admin == Some(admin),
        model::set_relayer(s, admin, new_relayer).value is Ok <==> s.admin == Some(admin),
        model::set_minting_paused(s, admin, paused).value is Ok <==> s.admin == Some(admin),
{
}

/// A call that fails leaves the ledger as it was.
pub proof fn law_failure_changes_nothing(
    s: Ledger,
    caller: Address,
    token: TokenModel,
    other: Address,
    paused: bool,
    m: Minting,
    b: Burning,
)
    ensures
        model::initialize(s, caller, other).value is Err ==> model::initialize(
            s,
            caller,
            other,
        ).state == s,
        registered(s, caller, token).value is Err ==> registered(s, caller, token).state == s,
        minted(s, m).value is Err ==> minted(s, m).state == s,
        burned(s, b).value is Err ==> burned(s, b).state == s,
        model::set_relayer(s, caller, other).value is Err ==> model::set_relayer(
            s,
            caller,
            other,
        ).state == s,
        model::set_minting_paused(s, caller, paused).value is Err ==> model::set_minting_paused(
            s,
            caller,
            paused,
        ).state == s,
{
}

/// The ledger once the host has carried out a request.
pub open spec fn carried_out(s: Ledger, call: CallModel) -> Ledger {
    match call {
        HostCall::SetInstance { key: KeyModel::Admin, value: ValueModel::Address(admin) } =>
            Ledger { admin: Some(admin), ..s },
        HostCall::SetInstance {
            key: KeyModel::RelayerAddress,
            value: ValueModel::Address(relayer),
        } => Ledger { relayer: Some(relayer), ..s },
        HostCall::SetInstance { key: KeyModel::MintingPaused, value: ValueModel::Flag(paused) } =>
            Ledger { minting_paused: Some(paused), ..s },
        HostCall::SetInstance {
            key: KeyModel::WrapRecordCounter,
            value: ValueModel::Counter(counter),
        } => Ledger { record_counter: Some(counter), ..s },
        HostCall::SetPersistent {
            key: KeyModel::WrappedToken(symbol),
            value: ValueModel::Token(token),
        } => Ledger { tokens: s.tokens.insert(symbol, token), ..s },
        HostCall::SetPersistent {
            key: KeyModel::WrapRecord(id),
            value: ValueModel::Record(record),
        } => Ledger { records: s.records.insert(id, record), ..s },
        HostCall::SetPersistent {
            key: KeyModel::ProcessedTx(source_tx),
            value: ValueModel::Flag(flag),
        } => Ledger { processed: s.processed.insert(source_tx, flag), ..s },
        _ => s,
    }
}

/// What a request makes of a ledger.
pub open spec fn carrier() -> spec_fn(Ledger, CallModel) -> Ledger {
    |s: Ledger, call: CallModel| carried_out(s, call)
}

/// The ledger once the host has carried out some requests, one by one.
pub open spec fn replay(s: Ledger, calls: Seq<CallModel>) -> Ledger {
    crate::host::replay(s, carrier(), calls)
}

proof fn lemma_initialize_replays(s: Ledger, admin: Address, relayer: Address)
    ensures
        model::initialize(s, admin, relayer).value is Ok ==> replay(
            s,
            model::initialize(s, admin, relayer).calls,
        ) == model::initialize(s, admin, relayer).state,
{
    let step = model::initialize(s, admin, relayer);
    if step.value is Ok {
        crate::host::lemma_replay_opening(s, carrier(), admin);
        let c = step.calls;
        let c0 = crate::host::opening::<KeyModel, ValueModel, OutwardModel>(admin);
        let c1 = c0.push(c[2]);
        let c2 = c1.push(c[3]);
        let c3 = c2.push(c[4]);
        crate::host::lemma_replay_one(s, carrier(), c0, c[2]);
        crate::host::lemma_replay_one(s, carrier(), c1, c[3]);
        crate::host::lemma_replay_one(s, carrier(), c2, c[4]);
        crate::host::lemma_replay_one(s, carrier(), c3, c[5]);
        assert(c =~= c3.push(c[5]));
    }
}

proof fn lemma_mint_replays(s: Ledger, m: Minting)
    ensures
        minted(s, m).value is Ok ==> replay(s, minted(s, m).calls) == minted(s, m).state,
{
    let step = minted(s, m);
    if step.value is Ok {
        crate::host::lemma_replay_opening(s, carrier(), m.relayer);
        let id = step.value->Ok_0;
        let token = ValueModel::Token(step.state.tokens[m.symbol]);
        let record = ValueModel::Record(step.state.records[id]);
        let c = step.calls;
        let opened = crate::host::opening::<KeyModel, ValueModel, OutwardModel>(m.relayer);
        let c1 = opened.push(c[2]);
        let c2 = c1 + crate::host::filing(KeyModel::WrappedToken(m.symbol), token);
        let c3 = c2 + crate::host::filing(KeyModel::WrapRecord(id), record);
        let c4 = c3.push(c[7]);
        let c5 = c4 + crate::host::filing(
            KeyModel::ProcessedTx(m.source_tx),
            ValueModel::Flag(true),
        );
        crate::host::lemma_replay_one(s, carrier(), opened, c[2]);
        crate::host::lemma_replay_filing(s, carrier(), c1, KeyModel::WrappedToken(m.symbol), token);
        crate::host::lemma_replay_filing(s, carrier(), c2, KeyModel::WrapRecord(id), record);
        crate::host::lemma_replay_one(s, carrier(), c3, c[7]);
        crate::host::lemma_replay_filing(
            s,
            carrier(),
            c4,
            KeyModel::ProcessedTx(m.source_tx),
            ValueModel::Flag(true),
        );
        crate::host::lemma_replay_one(s, carrier(), c5, c[10]);
        assert(c =~= c5.push(c[10]));
    }
}

proof fn lemma_burn_replays(s: Ledger, b: Burning)
    ensures
        burned(s, b).value is Ok ==> replay(s, burned(s, b).calls) == burned(s, b).state,
{
    let step = burned(s, b);
    if step.value is Ok {
        crate::host::lemma_replay_opening(s, carrier(), b.user);
        let token = ValueModel::Token(step.state.tokens[b.symbol]);
        let c = step.calls;
        let opened = crate::host::opening::<KeyModel, ValueModel, OutwardModel>(b.user);
        let c1 = opened.push(c[2]);
        let c2 = c1 + crate::host::filing(KeyModel::WrappedToken(b.symbol), token);
        crate::host::lemma_replay_one(s, carrier(), opened, c[2]);
        crate::host::lemma_replay_filing(s, carrier(), c1, KeyModel::WrappedToken(b.symbol), token);
        crate::host::lemma_replay_one(s, carrier(), c2, c[5]);
        assert(c =~= c2.push(c[5]));
    }
}

/// What a call that succeeds asks the host to file is what the ledger then
/// holds.
pub proof fn law_requests_make_the_ledger(
    s: Ledger,
    caller: Address,
    token: TokenModel,
    other: Address,
    paused: bool,
    m: Minting,
    b: Burning,
)
    ensures
        model::initialize(s, caller, other).value is Ok ==> replay(
            s,
            model::initialize(s, caller, other).calls,
        ) == model::initialize(s, caller, other).state,
        registered(s, caller, token).value is Ok ==> replay(s, registered(s, caller, token).calls)
            == registered(s, caller, token).state,
        minted(s, m).value is Ok ==> replay(s, minted(s, m).calls) == minted(s, m).state,
        burned(s, b).value is Ok ==> replay(s, burned(s, b).calls) == burned(s, b).state,
        model::set_relayer(s, caller, other).value is Ok ==> replay(
            s,
            model::set_relayer(s, caller, other).calls,
        ) == model::set_relayer(s, caller, other).state,
        model::set_minting_paused(s, caller, paused).value is Ok ==> replay(
            s,
            model::set_minting_paused(s, caller, paused).calls,
        ) == model::set_minting_paused(s, caller, paused).state,
        replay(s, model::reading()) == s,
{
    lemma_initialize_replays(s, caller, other);
    lemma_mint_replays(s, m);
    lemma_burn_replays(s, b);
    crate::host::lemma_replay_opening(s, carrier(), caller);
    let opened = crate::host::opening::<KeyModel, ValueModel, OutwardModel>(caller);
    crate::host::lemma_replay_filing(
        s,
        carrier(),
        opened,
        KeyModel::WrappedToken(token.symbol),
        ValueModel::Token(brand_new(token)),
    );
    crate::host::lemma_replay_one(
        s,
        carrier(),
        opened,
        HostCall::SetInstance { key: KeyModel::RelayerAddress, value: ValueModel::Address(other) },
    );
    crate::host::lemma_replay_one(
        s,
        carrier(),
        opened,
        HostCall::SetInstance { key: KeyModel::MintingPaused, value: ValueModel::Flag(paused) },
    );
}

} // verus!
