//! Ledger addresses.

use vstd::prelude::*;

verus! {

/// A 32-byte ledger address: an account, a program or a signer.
#[derive(Clone, Copy, Debug)]
pub struct Pubkey {
    pub bytes: [u8; 32],
}

impl Pubkey {
    /// The address made of the given bytes.
    pub fn new_from_array(bytes: [u8; 32]) -> (key: Pubkey)
        ensures
            key.bytes == bytes,
    {
        Pubkey { bytes }
    }
}

impl PartialEq for Pubkey {
    fn eq(&self, other: &Self) -> (r: bool) {
        let mut i: usize = 0;
        while i < 32
            invariant
                i <= 32,
                forall|j: int| 0 <= j < i ==> self.bytes[j] == other.bytes[j],
            decreases 32 - i,
        {
            if self.bytes[i] != other.bytes[i] {
                return false;
            }
            i += 1;
        }
        assert(self.bytes@ =~= other.bytes@);
        assert(self.bytes == other.bytes);
        true
    }
}

impl Eq for Pubkey {}

impl vstd::std_specs::cmp::PartialEqSpecImpl for Pubkey {
    open spec fn obeys_eq_spec() -> bool {
        true
    }

    open spec fn eq_spec(&self, other: &Self) -> bool {
        *self == *other
    }
}

/// Whether an optional address is present and is `key`.
pub fn is_some_key(candidate: &Option<Pubkey>, key: &Pubkey) -> (r: bool)
    ensures
        r == (*candidate == Some(*key)),
{
    match candidate {
        Some(k) => *k == *key,
        None => false,
    }
}

} // verus!
