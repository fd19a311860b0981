//! Worker addresses.
use vstd::prelude::*;

verus! {

/// An actor address in the ID form, as a worker key is named. It need not
/// belong to the ledger's own account space.
#[derive(Clone, Copy, Debug, PartialEq, Eq, Structural)]
pub struct Address {
    id: u64,
}

impl Address {
    /// The address of the actor with the given id.
    pub fn new_id(id: u64) -> (r: Address)
        ensures
            r.id() == id,
    {
        Address { id }
    }

    pub closed spec fn id(self) -> u64 {
        self.id
    }

    /// The actor id that the address names.
    pub fn actor_id(&self) -> (r: u64)
        ensures
            r == self.id(),
    {
        self.id
    }
}

/// The actor id determines the address: two addresses with the same id are
/// equal.
pub proof fn lemma_id_determines_address(a: Address, b: Address)
    ensures
        a.id() == b.id() ==> a == b,
{
}

} // verus!
