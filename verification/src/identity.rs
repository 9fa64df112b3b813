//! Identities on the ledger.

use vstd::prelude::*;

verus! {

/// A 256-bit identity on the ledger: a participant, a token account, a mint.
#[derive(Clone, Copy, Debug, Eq)]
pub struct Identity {
    /// The identity's 32 bytes.
    pub bytes: [u8; 32],
}

impl PartialEq for Identity {
    /// Two identities are equal when all their bytes are.
    fn eq(&self, other: &Identity) -> (r: bool) {
        let mut i: usize = 0;
        while i < 32
            invariant
                i <= 32,
                forall|j: int| 0 <= j < i ==> self.bytes@[j] == other.bytes@[j],
            decreases 32 - i,
        {
            if self.bytes[i] != other.bytes[i] {
                return false;
            }
            i += 1;
        }
        proof {
            assert(self.bytes@ =~= other.bytes@);
            assert(self.bytes == other.bytes);
        }
        true
    }
}

impl vstd::std_specs::cmp::PartialEqSpecImpl for Identity {
    open spec fn obeys_eq_spec() -> bool {
        true
    }

    open spec fn eq_spec(&self, other: &Identity) -> bool {
        *self == *other
    }
}

impl Identity {
    /// Whether this is the identity that stands for "nobody": all bytes
    /// zero. A farm whose owner is nobody has not been created yet.
    pub open spec fn is_nobody(&self) -> bool {
        forall|i: int| 0 <= i < 32 ==> self.bytes@[i] == 0
    }

    /// Tells whether this identity is nobody.
    pub fn is_default(&self) -> (r: bool)
        ensures
            r == self.is_nobody(),
    {
        let mut i: usize = 0;
        while i < 32
            invariant
                i <= 32,
                forall|j: int| 0 <= j < i ==> self.bytes@[j] == 0,
            decreases 32 - i,
        {
            if self.bytes[i] != 0 {
                return false;
            }
            i += 1;
        }
        true
    }
}

impl Default for Identity {
    /// The identity of nobody.
    fn default() -> (id: Identity)
        ensures
            id.is_nobody(),
    {
        Identity { bytes: [0u8; 32] }
    }
}

} // verus!
