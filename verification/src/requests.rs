//! The requests to the host, each spelt out, for the laws that say what a call
//! asks for.

use crate::address::Address;
use crate::host::HostCall;
use vstd::prelude::*;

verus! {

/// The contract instance is kept alive: for 86,400 ledgers, where it has fewer
/// than 17,280 left.
pub open spec fn instance_kept_alive<K, V, X>() -> HostCall<K, V, X> {
    HostCall::ExtendInstanceTtl { threshold: 17_280, extend_to: 86_400 }
}

/// An entry is kept alive: for 1,051,200 ledgers, where it has fewer than
/// 120,960 left.
pub open spec fn entry_kept_alive<K, V, X>(key: K) -> HostCall<K, V, X> {
    HostCall::ExtendPersistentTtl { key, threshold: 120_960, extend_to: 1_051_200 }
}

/// `address` has to authorize the call.
pub open spec fn authorization<K, V, X>(address: Address) -> HostCall<K, V, X> {
    HostCall::RequireAuth { address }
}

/// A value is filed with the contract instance.
pub open spec fn instance_filed<K, V, X>(key: K, value: V) -> HostCall<K, V, X> {
    HostCall::SetInstance { key, value }
}

/// A value is filed as an entry of its own.
pub open spec fn entry_filed<K, V, X>(key: K, value: V) -> HostCall<K, V, X> {
    HostCall::SetPersistent { key, value }
}

/// Another contract is dealt with, or an event published.
pub open spec fn sent<K, V, X>(request: X) -> HostCall<K, V, X> {
    HostCall::Outward { request }
}

/// A list of requests shows each of them, in order.
pub proof fn law_trace_shows_each_request<C: View>(calls: Seq<C>)
    ensures
        crate::host::trace(calls).len() == calls.len(),
        forall|i: int|
            0 <= i < calls.len() ==> #[trigger] crate::host::trace(calls)[i] == calls[i]@,
{
}

/// What is shown of a request is all of it.
pub proof fn law_request_is_shown_whole<K: View, V: View, X: View>(call: HostCall<K, V, X>)
    ensures
        match call {
            HostCall::ExtendInstanceTtl { threshold, extend_to } => {
                &&& call@ is ExtendInstanceTtl
                &&& call@->ExtendInstanceTtl_threshold == threshold
                &&& call@->ExtendInstanceTtl_extend_to == extend_to
            },
            HostCall::RequireAuth { address } => call@ == authorization::<K::V, V::V, X::V>(
                address,
            ),
            HostCall::SetInstance { key, value } => call@ == instance_filed::<K::V, V::V, X::V>(
                key@,
                value@,
            ),
            HostCall::SetPersistent { key, value } => call@ == entry_filed::<K::V, V::V, X::V>(
                key@,
                value@,
            ),
            HostCall::ExtendPersistentTtl { key, threshold, extend_to } => {
                &&& call@ is ExtendPersistentTtl
                &&& call@->ExtendPersistentTtl_key == key@
                &&& call@->ExtendPersistentTtl_threshold == threshold
                &&& call@->ExtendPersistentTtl_extend_to == extend_to
            },
            HostCall::Outward { request } => call@ == sent::<K::V, V::V, X::V>(request@),
        },
{
}

} // verus!
