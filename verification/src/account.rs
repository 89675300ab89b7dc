//! Account identifiers.

use vstd::prelude::*;

verus! {

/// An opaque account identifier of twenty bytes. Two identifiers name the
/// same account exactly when their bytes agree; nothing else is ever read
/// from one.
#[derive(Clone, Copy, Debug, Eq)]
pub struct AccountId {
    pub bytes: [u8; 20],
}

/// The pair under which an allowance is kept: the account that owns the
/// funds and the account allowed to move them.
#[derive(Clone, Copy, Debug)]
pub struct Grant {
    pub owner: AccountId,
    pub spender: AccountId,
}

impl PartialEq for AccountId {
    fn eq(&self, other: &AccountId) -> (r: bool) {
        let mut i: usize = 0;
        while i < 20
            invariant
                i <= 20,
                forall|j: int| 0 <= j < i ==> self.bytes[j] == other.bytes[j],
            decreases 20 - i,
        {
            if self.bytes[i] != other.bytes[i] {
                return false;
            }
            i += 1;
        }
        proof {
            assert(self.bytes =~= other.bytes);
        }
        true
    }
}

impl vstd::std_specs::cmp::PartialEqSpecImpl for AccountId {
    open spec fn obeys_eq_spec() -> bool {
        true
    }

    open spec fn eq_spec(&self, other: &AccountId) -> bool {
        *self == *other
    }
}

impl AccountId {
    /// The identifier made of the first twenty bytes of a longer,
    /// thirty-two byte account name.
    pub fn from_long(long: &[u8; 32]) -> (id: AccountId)
        ensures
            id.bytes@ == long@.subrange(0, 20),
    {
        let mut bytes: [u8; 20] = [0u8; 20];
        let mut i: usize = 0;
        while i < 20
            invariant
                i <= 20,
                forall|j: int| 0 <= j < i ==> bytes[j] == long[j],
            decreases 20 - i,
        {
            bytes[i] = long[i];
            i += 1;
        }
        proof {
            assert(bytes@ =~= long@.subrange(0, 20));
        }
        AccountId { bytes }
    }
}

} // verus!
