//! Principal identities: 32-byte public keys, compared byte for byte.

use vstd::prelude::*;

verus! {

broadcast use vstd::array::group_array_axioms;

/// The number of bytes in a public key.
pub const PUBKEY_BYTES: usize = 32;

/// The identity of a principal. Authorization never interprets a key; it only
/// compares keys for equality.
#[derive(Clone, Copy, Debug)]
pub struct Pubkey {
    pub bytes: [u8; 32],
}

impl PartialEq for Pubkey {
    fn eq(&self, other: &Pubkey) -> (r: bool) {
        let mut i: usize = 0;
        while i < PUBKEY_BYTES
            invariant
                0 <= i <= PUBKEY_BYTES,
                forall|j: int| 0 <= j < i ==> self.bytes@[j] == other.bytes@[j],
            decreases PUBKEY_BYTES - i,
        {
            if self.bytes[i] != other.bytes[i] {
                assert(self.bytes@[i as int] != other.bytes@[i as int]);
                return false;
            }
            i += 1;
        }
        proof {
            assert(self.bytes =~= other.bytes);
        }
        true
    }
}

impl vstd::std_specs::cmp::PartialEqSpecImpl for Pubkey {
    open spec fn obeys_eq_spec() -> bool {
        true
    }

    open spec fn eq_spec(&self, other: &Pubkey) -> bool {
        *self == *other
    }
}

} // verus!
