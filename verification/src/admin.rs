//! The handing over of a contract to another administrator.
//!
//! The rules of the handover are those of the shared admin library; a contract
//! says under which keys its administrator and the proposed one are filed.

use crate::address::Address;
use vstd::prelude::*;

verus! {

/// A request to the shared admin library, of a contract that files under keys
/// of type `K`.
#[derive(PartialEq, Eq, Debug)]
pub enum AdminRequest<K> {
    /// `current_admin` proposes `new_admin`.
    Propose { admin_key: K, pending_key: K, current_admin: Address, new_admin: Address },
    /// `new_admin` takes over.
    Accept { admin_key: K, pending_key: K, new_admin: Address },
}

} // verus!
