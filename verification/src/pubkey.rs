//! Identities: thirty-two byte public keys.

use vstd::prelude::*;

verus! {

/// An identity on the ledger: the address of an account, or the key of a signer.
///
/// Two keys are the same identity exactly when their bytes agree, so the
/// struct itself is the mathematical value that contracts speak of.
#[derive(Clone, Copy, Debug, Eq, Hash)]
pub struct Pubkey {
    pub bytes: [u8; 32],
}

impl PartialEq for Pubkey {
    fn eq(&self, other: &Pubkey) -> (r: bool) {
        let mut i: usize = 0;
        while i < 32
            invariant
                i <= 32,
                forall|j: int| 0 <= j < i ==> self.bytes[j] == other.bytes[j],
            decreases 32 - i,
        {
            if self.bytes[i] != other.bytes[i] {
                return false;
            }
            i += 1;
        }
        assert(self.bytes =~= other.bytes);
        true
    }
}

impl vstd::std_specs::cmp::PartialEqSpecImpl for Pubkey {
    open spec fn obeys_eq_spec() -> bool {
        true
    }

    open spec fn eq_spec(&self, other: &Pubkey) -> bool {
        *self == *other
    }
}

impl Pubkey {
    /// Whether this is the null identity: the key whose bytes are all zero.
    pub open spec fn is_null(&self) -> bool {
        forall|i: int| 0 <= i < 32 ==> self.bytes[i] == 0u8
    }

    /// The key that holds exactly `bytes`.
    pub fn new_from_array(bytes: [u8; 32]) -> (key: Pubkey)
        ensures
            key.bytes == bytes,
    {
        Pubkey { bytes }
    }

    /// The bytes of the key.
    pub fn to_bytes(&self) -> (bytes: [u8; 32])
        ensures
            bytes == self.bytes,
    {
        self.bytes
    }

    /// Tells whether this is the null identity.
    pub fn is_default(&self) -> (r: bool)
        ensures
            r == self.is_null(),
    {
        let null = Pubkey::default();
        let r = *self == null;
        proof {
            if self.is_null() {
                assert(self.bytes =~= null.bytes);
            }
        }
        r
    }
}

impl Default for Pubkey {
    fn default() -> (key: Pubkey)
        ensures
            key.is_null(),
    {
        Pubkey { bytes: [0u8; 32] }
    }
}

} // verus!
