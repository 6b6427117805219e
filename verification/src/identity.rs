//! Identities of callers, assets and stored records.

use vstd::prelude::*;

verus! {

/// A 32-byte identity: a caller, an asset, or the key of a stored record.
#[derive(Clone, Copy, Debug, PartialEq, Eq)]
pub struct Pubkey {
    pub bytes: [u8; 32],
}

impl Pubkey {
    /// Whether this is the all-zero identity, which marks a record that was
    /// never written.
    pub open spec fn is_zero(self) -> bool {
        forall|i: int| 0 <= i < 32 ==> self.bytes[i] == 0u8
    }

    pub fn new(bytes: [u8; 32]) -> (key: Pubkey)
        ensures
            key.bytes == bytes,
    {
        Pubkey { bytes }
    }

    /// Byte-wise comparison of two identities.
    pub fn same(&self, other: &Pubkey) -> (b: bool)
        ensures
            b == (*self == *other),
    {
        let mut i: usize = 0;
        while i < 32
            invariant
                i <= 32,
                forall|j: int| 0 <= j < i ==> self.bytes[j] == other.bytes[j],
            decreases 32 - i,
        {
            if self.bytes[i] != other.bytes[i] {
                return false;
            }
            i += 1;
        }
        assert(self.bytes =~= other.bytes);
        true
    }

    /// Whether every byte is zero.
    pub fn is_default(&self) -> (b: bool)
        ensures
            b == self.is_zero(),
    {
        let mut i: usize = 0;
        while i < 32
            invariant
                i <= 32,
                forall|j: int| 0 <= j < i ==> self.bytes[j] == 0u8,
            decreases 32 - i,
        {
            if self.bytes[i] != 0 {
                return false;
            }
            i += 1;
        }
        true
    }
}

impl Default for Pubkey {
    fn default() -> (key: Pubkey)
        ensures
            key.is_zero(),
    {
        Pubkey { bytes: [0u8; 32] }
    }
}

} // verus!
