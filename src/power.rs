//! The power table: the storage claimed by each miner.
use vstd::prelude::*;

use crate::address::Address;
use crate::common::{AccountId, Claim, MinerAccountId, PeerId, Power, StoragePower};
use crate::registered_proof::RegisteredPoStProof;
use crate::store::AccountMap;

verus! {

/// What went wrong in the power table.
#[derive(Clone, Copy, Debug, PartialEq, Eq, Structural)]
pub enum Error {
    Unknown,
}

/// The state of the power table: the claim of each miner, the number of
/// miners registered, and the total raw power declared.
pub struct PowerState {
    pub claims: Map<MinerAccountId, Claim<StoragePower>>,
    pub miner_count: Option<u64>,
    pub total_raw_bytes_power: Option<u64>,
}

/// The power table.
pub struct Pallet {
    claims: AccountMap<Claim<StoragePower>>,
    miner_count: Option<u64>,
    total_raw_bytes_power: Option<u64>,
}

impl View for Pallet {
    type V = PowerState;

    closed spec fn view(&self) -> PowerState {
        PowerState {
            claims: self.claims@,
            miner_count: self.miner_count,
            total_raw_bytes_power: self.total_raw_bytes_power,
        }
    }
}

/// Whether a claim is the empty one that a new miner starts with.
pub open spec fn is_empty_claim(c: Claim<StoragePower>) -> bool {
    c.spec_raw_bytes_power() == 0 && c.spec_quality_adjusted_power() == 0
}

impl Pallet {
    /// A power table with no miners.
    pub fn new() -> (r: Pallet)
        ensures
            r@ == (PowerState {
                claims: Map::empty(),
                miner_count: None,
                total_raw_bytes_power: None,
            }),
    {
        Pallet { claims: AccountMap::new(), miner_count: None, total_raw_bytes_power: None }
    }

    /// The claim of `miner`, if it has one.
    pub fn claims(&self, miner: MinerAccountId) -> (r: Option<Claim<StoragePower>>)
        ensures
            r == self@.claims.get(miner),
    {
        match self.claims.get(&miner) {
            Some(c) => Some(*c),
            None => None,
        }
    }

    /// The number of miners registered, if any ever was.
    pub fn miner_count(&self) -> (r: Option<u64>)
        ensures
            r == self@.miner_count,
    {
        self.miner_count
    }

    /// The total raw power declared, if any was.
    pub fn total_raw_bytes_power(&self) -> (r: Option<u64>)
        ensures
            r == self@.total_raw_bytes_power,
    {
        self.total_raw_bytes_power
    }
}

impl Power for Pallet {
    /// The table takes on any miner while its count is below the maximum.
    open spec fn grants(
        &self,
        miner: MinerAccountId,
        owner: AccountId,
        worker: Address,
        window_post_proof_type: RegisteredPoStProof,
        peer: Seq<u8>,
        multiaddrs: Seq<Vec<u8>>,
    ) -> bool {
        match self@.miner_count {
            Some(c) => c < u64::MAX,
            None => true,
        }
    }

    /// Gives a new miner an empty claim, and counts it; declines when the
    /// count is at its maximum.
    fn create_miner(
        &mut self,
        miner: MinerAccountId,
        _owner: AccountId,
        _worker: Address,
        _window_post_proof_type: RegisteredPoStProof,
        _peer: PeerId,
        _multiaddrs: Vec<Vec<u8>>,
    ) -> (r: Option<Claim<StoragePower>>)
        ensures
            ({
                let count = match old(self)@.miner_count {
                    Some(c) => c as int,
                    None => 0,
                };
                &&& count == u64::MAX ==> r is None && final(self)@ == old(self)@
                &&& count < u64::MAX ==> {
                    &&& r matches Some(c) && is_empty_claim(c)
                    &&& final(self)@ == (PowerState {
                        claims: old(self)@.claims.insert(miner, r->Some_0),
                        miner_count: Some((count + 1) as u64),
                        ..old(self)@
                    })
                }
            }),
    {
        let miner_count = match self.miner_count {
            Some(c) => c,
            None => 0,
        };
        match miner_count.checked_add(1) {
            Some(new_miner_count) => {
                let claim: Claim<StoragePower> = Claim::new(0, 0);
                self.claims.insert(miner, claim);
                self.miner_count = Some(new_miner_count);
                Some(claim)
            },
            None => None,
        }
    }
}

} // verus!
