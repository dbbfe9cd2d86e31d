//! Identities and signer assertions.

use vstd::prelude::*;
use vstd::std_specs::cmp::PartialEqSpecImpl;

verus! {

/// A 32-byte identity: a participant, a record's address, or a program.
#[derive(Clone, Copy, Debug)]
pub struct Identity {
    pub bytes: [u8; 32],
}

impl PartialEq for Identity {
    fn eq(&self, other: &Identity) -> (r: bool) {
        let mut i: usize = 0;
        while i < 32
            invariant
                i <= 32,
                forall|j: int| 0 <= j < i ==> self.bytes[j] == other.bytes[j],
            decreases 32 - i,
        {
            if self.bytes[i] != other.bytes[i] {
                return false;
            }
            i += 1;
        }
        proof {
            assert(self.bytes =~= other.bytes);
        }
        true
    }
}

impl Eq for Identity {

}

impl PartialEqSpecImpl for Identity {
    open spec fn obeys_eq_spec() -> bool {
        true
    }

    open spec fn eq_spec(&self, other: &Identity) -> bool {
        *self == *other
    }
}

/// The claim that an identity authorized the present call. Whether the
/// signature behind it is good is the host's business; the flag is its answer.
#[derive(Clone, Copy, Debug, PartialEq, Eq)]
pub struct Signer {
    pub identity: Identity,
    pub is_signer: bool,
}

impl Signer {
    /// Whether `identity` has authorized the call through this assertion.
    pub open spec fn authenticates(self, identity: Identity) -> bool {
        self.is_signer && self.identity == identity
    }

    /// Whether `identity` has authorized the call through this assertion.
    pub fn is_authenticated_as(&self, identity: &Identity) -> (r: bool)
        ensures
            r == self.authenticates(*identity),
    {
        self.is_signer && self.identity == *identity
    }
}

} // verus!
