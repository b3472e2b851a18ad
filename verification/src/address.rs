//! The identities that a contract deals with.

use vstd::prelude::*;

verus! {

/// The length of an account key and of a contract id.
pub const ID_BYTES: usize = 32;

/// A Stellar address: an account, named by its ed25519 key, or a contract,
/// named by its id.
#[derive(Clone, Copy, Debug)]
pub enum Address {
    Account([u8; 32]),
    Contract([u8; 32]),
}

/// Whether two arrays hold the same bytes.
pub fn same_id(a: &[u8; 32], b: &[u8; 32]) -> (same: bool)
    ensures
        same == (*a == *b),
{
    let mut i: usize = 0;
    while i < ID_BYTES
        invariant
            i <= ID_BYTES,
            forall|j: int| 0 <= j < i ==> a@[j] == b@[j],
        decreases ID_BYTES - i,
    {
        if a[i] != b[i] {
            return false;
        }
        i += 1;
    }
    assert(*a =~= *b);
    true
}

impl PartialEq for Address {
    fn eq(&self, other: &Self) -> (same: bool) {
        match (self, other) {
            (Address::Account(a), Address::Account(b)) => same_id(a, b),
            (Address::Contract(a), Address::Contract(b)) => same_id(a, b),
            _ => false,
        }
    }
}

impl vstd::std_specs::cmp::PartialEqSpecImpl for Address {
    open spec fn obeys_eq_spec() -> bool {
        true
    }

    open spec fn eq_spec(&self, other: &Self) -> bool {
        *self == *other
    }
}

impl Eq for Address {

}

} // verus!
