//! What a contract asks of its host, and in what order.
//!
//! A call of a contract is a run of checks and of requests to the host. The
//! host carries the requests out one by one, and a failure anywhere undoes
//! everything since the call began: what was stored, moved and published. So a
//! call is told by three things: the requests it makes, the value that it
//! returns or the error that it fails with, and the ledger afterwards, which is
//! the old one where the call failed.

use crate::address::Address;
use vstd::prelude::*;

verus! {

/// The contract instance is renewed when it has fewer ledgers than this to
/// live.
pub const INSTANCE_LIFETIME_THRESHOLD: u32 = 17_280;

/// How many ledgers a renewed contract instance has to live.
pub const INSTANCE_BUMP_AMOUNT: u32 = 86_400;

/// A persistent entry is renewed when it has fewer ledgers than this to live.
pub const PERSISTENT_LIFETIME_THRESHOLD: u32 = 120_960;

/// How many ledgers a renewed persistent entry has to live.
pub const PERSISTENT_BUMP_AMOUNT: u32 = 1_051_200;

/// A request to the host, of a contract that files values of type `V` under
/// keys of type `K` and turns to the world outside with requests of type `X`.
#[derive(PartialEq, Eq, Debug)]
pub enum HostCall<K, V, X> {
    /// Renew the contract instance: where it has fewer than `threshold` ledgers
    /// to live, let it live `extend_to`.
    ExtendInstanceTtl { threshold: u32, extend_to: u32 },
    /// Fail unless `address` has authorized this call.
    RequireAuth { address: Address },
    /// File a value with the contract instance.
    SetInstance { key: K, value: V },
    /// File a value as a persistent entry.
    SetPersistent { key: K, value: V },
    /// Renew a persistent entry.
    ExtendPersistentTtl { key: K, threshold: u32, extend_to: u32 },
    /// Deal with another contract, or publish an event.
    Outward { request: X },
}

impl<K: View, V: View, X: View> View for HostCall<K, V, X> {
    type V = HostCall<K::V, V::V, X::V>;

    open spec fn view(&self) -> HostCall<K::V, V::V, X::V> {
        match *self {
            HostCall::ExtendInstanceTtl { threshold, extend_to } => HostCall::ExtendInstanceTtl {
                threshold,
                extend_to,
            },
            HostCall::RequireAuth { address } => HostCall::RequireAuth { address },
            HostCall::SetInstance { key, value } => HostCall::SetInstance {
                key: key@,
                value: value@,
            },
            HostCall::SetPersistent { key, value } => HostCall::SetPersistent {
                key: key@,
                value: value@,
            },
            HostCall::ExtendPersistentTtl { key, threshold, extend_to } =>
                HostCall::ExtendPersistentTtl { key: key@, threshold, extend_to },
            HostCall::Outward { request } => HostCall::Outward { request: request@ },
        }
    }
}

/// What the requests in a list are.
pub open spec fn trace<C: View>(calls: Seq<C>) -> Seq<C::V> {
    calls.map_values(|call: C| call@)
}

/// A call of a contract: its requests, in order, and the value that it returns.
#[derive(PartialEq, Eq, Debug)]
pub struct Outcome<C, T> {
    pub calls: Vec<C>,
    pub value: T,
}

impl<C: View, T> Outcome<C, T> {
    /// What the requests are.
    pub open spec fn trace(&self) -> Seq<C::V> {
        trace(self.calls@)
    }
}

/// What a call of a contract comes to: the ledger after it, its requests and
/// its value.
pub struct Step<S, C, T> {
    pub state: S,
    pub calls: Seq<C>,
    pub value: T,
}

/// What an entry of a ledger is filed under.
pub trait Label: View + Sized {
    /// The same label once more.
    fn again(&self) -> (label: Self)
        ensures
            label@ == self@,
    ;
}

/// The renewal of the contract instance.
pub open spec fn renewal<K, V, X>() -> HostCall<K, V, X> {
    HostCall::ExtendInstanceTtl {
        threshold: INSTANCE_LIFETIME_THRESHOLD,
        extend_to: INSTANCE_BUMP_AMOUNT,
    }
}

/// How most calls open: the instance is renewed and the caller authorizes.
pub open spec fn opening<K, V, X>(caller: Address) -> Seq<HostCall<K, V, X>> {
    seq![renewal(), HostCall::RequireAuth { address: caller }]
}

/// The renewal of a persistent entry.
pub open spec fn entry_renewal<K, V, X>(key: K) -> HostCall<K, V, X> {
    HostCall::ExtendPersistentTtl {
        key,
        threshold: PERSISTENT_LIFETIME_THRESHOLD,
        extend_to: PERSISTENT_BUMP_AMOUNT,
    }
}

/// How an entry is filed to last: set, then renewed.
pub open spec fn filing<K, V, X>(key: K, value: V) -> Seq<HostCall<K, V, X>> {
    seq![HostCall::SetPersistent { key, value }, entry_renewal(key)]
}

/// The ledger once the host has carried out some requests, one by one, where
/// `carry_out` says what one of them makes of a ledger.
pub open spec fn replay<S, C>(s: S, carry_out: spec_fn(S, C) -> S, calls: Seq<C>) -> S {
    calls.fold_left(s, carry_out)
}

/// One more request is carried out after the others.
pub proof fn lemma_replay_one<S, C>(s: S, carry_out: spec_fn(S, C) -> S, calls: Seq<C>, call: C)
    ensures
        replay(s, carry_out, calls.push(call)) == carry_out(replay(s, carry_out, calls), call),
{
    assert(calls.push(call).drop_last() =~= calls);
}

/// The opening of a call files nothing.
pub proof fn lemma_replay_opening<S, K, V, X>(
    s: S,
    carry_out: spec_fn(S, HostCall<K, V, X>) -> S,
    caller: Address,
)
    requires
        carry_out(s, renewal()) == s,
        carry_out(s, HostCall::RequireAuth { address: caller }) == s,
    ensures
        replay(s, carry_out, seq![renewal()]) == s,
        replay(s, carry_out, opening(caller)) == s,
{
    let none = Seq::<HostCall<K, V, X>>::empty();
    let renewed = none.push(renewal());
    let authorized = HostCall::RequireAuth { address: caller };
    lemma_replay_one(s, carry_out, none, renewal());
    lemma_replay_one(s, carry_out, renewed, authorized);
    assert(seq![renewal()] =~= renewed);
    assert(opening(caller) =~= renewed.push(authorized));
}

/// The filing of an entry sets it, and no more.
pub proof fn lemma_replay_filing<S, K, V, X>(
    s: S,
    carry_out: spec_fn(S, HostCall<K, V, X>) -> S,
    calls: Seq<HostCall<K, V, X>>,
    key: K,
    value: V,
)
    requires
        forall|t: S| #[trigger] carry_out(t, entry_renewal(key)) == t,
    ensures
        replay(s, carry_out, calls + filing(key, value)) == carry_out(
            replay(s, carry_out, calls),
            HostCall::SetPersistent { key, value },
        ),
{
    let set = HostCall::SetPersistent { key, value };
    lemma_replay_one(s, carry_out, calls, set);
    lemma_replay_one(s, carry_out, calls.push(set), entry_renewal(key));
    assert(calls + filing(key, value) =~= calls.push(set).push(entry_renewal(key)));
}

/// Makes a request.
pub fn ask<C: View>(calls: &mut Vec<C>, call: C)
    ensures
        trace(final(calls)@) == trace(old(calls)@).push(call@),
{
    calls.push(call);
    assert(trace(calls@) =~= trace(old(calls)@).push(call@));
}

/// Opens a call that anyone can make: the instance is renewed.
pub fn begin<K: View, V: View, X: View>() -> (calls: Vec<HostCall<K, V, X>>)
    ensures
        trace(calls@) == seq![renewal::<K::V, V::V, X::V>()],
{
    let mut calls: Vec<HostCall<K, V, X>> = Vec::new();
    calls.push(
        HostCall::ExtendInstanceTtl {
            threshold: INSTANCE_LIFETIME_THRESHOLD,
            extend_to: INSTANCE_BUMP_AMOUNT,
        },
    );
    assert(trace(calls@) =~= seq![renewal::<K::V, V::V, X::V>()]);
    calls
}

/// Opens a call that `caller` has to authorize.
pub fn begin_as<K: View, V: View, X: View>(caller: Address) -> (calls: Vec<HostCall<K, V, X>>)
    ensures
        trace(calls@) == opening::<K::V, V::V, X::V>(caller),
{
    let mut calls = begin();
    ask(&mut calls, HostCall::RequireAuth { address: caller });
    assert(trace(calls@) =~= opening::<K::V, V::V, X::V>(caller));
    calls
}

/// Files a persistent entry to last.
pub fn file<K: Label, V: View, X: View>(calls: &mut Vec<HostCall<K, V, X>>, key: K, value: V)
    ensures
        trace(final(calls)@) == trace(old(calls)@) + filing::<K::V, V::V, X::V>(key@, value@),
{
    let again = key.again();
    ask(calls, HostCall::SetPersistent { key, value });
    ask(
        calls,
        HostCall::ExtendPersistentTtl {
            key: again,
            threshold: PERSISTENT_LIFETIME_THRESHOLD,
            extend_to: PERSISTENT_BUMP_AMOUNT,
        },
    );
    assert(trace(calls@) =~= trace(old(calls)@) + filing::<K::V, V::V, X::V>(key@, value@));
}

} // verus!
