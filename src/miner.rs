//! The miner registry: creation of miners under sequential ids, and the
//! authorization state machine over each miner's owner, worker and
//! controllers.
use vstd::prelude::*;

use crate::address::Address;
use crate::common::{
    lemma_miner_account_injective, miner_account, AccountId, AccountIdConversion, BlockNumber,
    Claim, MinerAccountId, MinerId, PeerId, Power, StoragePower,
};
use crate::registered_proof::RegisteredPoStProof;
use crate::store::AccountMap;

verus! {

/// A worker change that takes effect at a given time.
#[derive(Clone, Copy, Debug, PartialEq, Eq, Structural)]
pub struct WorkerKeyChange {
    /// The worker to change to.
    pub new_worker: Address,
    /// The time from which the change can be confirmed.
    pub effective_at: BlockNumber,
}

/// What a worker change request does to the controllers.
#[derive(Clone, Debug, PartialEq, Eq)]
pub enum MinerControllers {
    /// Replace the controllers with these accounts.
    Override(Vec<AccountId>),
    /// Keep the controllers.
    NoChange,
}

/// The mathematical value of a [`MinerControllers`].
pub enum ControllersUpdate {
    Override(Seq<AccountId>),
    NoChange,
}

impl View for MinerControllers {
    type V = ControllersUpdate;

    open spec fn view(&self) -> ControllersUpdate {
        match self {
            MinerControllers::Override(c) => ControllersUpdate::Override(c@),
            MinerControllers::NoChange => ControllersUpdate::NoChange,
        }
    }
}

/// Miner information kept by the registry.
#[derive(Clone, Debug, PartialEq, Eq)]
pub struct MinerInfo {
    /// Owner of this miner.
    pub owner: AccountId,
    /// Worker of this miner, which signs messages on its behalf. It can be
    /// changed by the owner and can lie outside the ledger's own accounts.
    pub worker: Address,
    /// Other accounts that may change the peer id of the miner.
    pub controllers: Vec<AccountId>,
    /// The miner's libp2p peer id.
    pub peer_id: PeerId,
    /// The worker change to apply once its time has come.
    pub pending_worker: Option<WorkerKeyChange>,
    /// The owner to change to once it confirms.
    pub pending_owner: Option<AccountId>,
}

/// The mathematical value of a [`MinerInfo`].
pub struct MinerRecord {
    pub owner: AccountId,
    pub worker: Address,
    pub controllers: Seq<AccountId>,
    pub peer_id: Seq<u8>,
    pub pending_worker: Option<WorkerKeyChange>,
    pub pending_owner: Option<AccountId>,
}

impl View for MinerInfo {
    type V = MinerRecord;

    open spec fn view(&self) -> MinerRecord {
        MinerRecord {
            owner: self.owner,
            worker: self.worker,
            controllers: self.controllers@,
            peer_id: self.peer_id@,
            pending_worker: self.pending_worker,
            pending_owner: self.pending_owner,
        }
    }
}

/// The role that a change asks of its caller.
#[derive(Clone, Copy, Debug, PartialEq, Eq, Structural)]
pub enum Role {
    /// The owner alone.
    Owner,
    /// The owner or one of the controllers.
    WorkerOrController,
}

/// Whether `caller` holds `role` on the miner `info`.
pub open spec fn authorized(info: MinerRecord, caller: AccountId, role: Role) -> bool {
    match role {
        Role::Owner => caller == info.owner,
        Role::WorkerOrController => caller == info.owner || info.controllers.contains(caller),
    }
}

impl MinerInfo {
    /// Whether `caller` holds `role` on this miner.
    pub fn authorize(&self, caller: AccountId, role: Role) -> (r: bool)
        ensures
            r == authorized(self@, caller, role),
    {
        if caller == self.owner {
            return true;
        }
        match role {
            Role::Owner => false,
            Role::WorkerOrController => {
                let mut i: usize = 0;
                while i < self.controllers.len()
                    invariant
                        role == Role::WorkerOrController,
                        caller != self.owner,
                        i <= self.controllers@.len(),
                        forall|j: int| 0 <= j < i ==> self.controllers@[j] != caller,
                    decreases self.controllers@.len() - i,
                {
                    if self.controllers[i] == caller {
                        assert(self.controllers@[i as int] == caller);
                        return true;
                    }
                    i += 1;
                }
                false
            },
        }
    }
}

/// What went wrong with a request.
#[derive(Clone, Copy, Debug, PartialEq, Eq, Structural)]
pub enum Error {
    /// The miner id counter is exhausted.
    Overflow,
    /// The power table declined the new miner.
    ClaimsNotSet,
    /// No miner has that account.
    NoSuchMiner,
    /// The caller lacks the role that the change asks for.
    InvalidSigner,
    /// No worker change is pending.
    NoRequest,
    /// The worker change is not yet due, or the owner asked to transfer the
    /// miner to itself.
    IneffectiveRequest,
}

/// What the registry records of each change it makes.
#[derive(Clone, Debug, PartialEq, Eq)]
pub enum Event {
    /// A miner was created for this owner.
    MinerCreated { miner_account_id: AccountId },
    /// A worker change was requested.
    WorkerChangeRequested {
        miner_account_id: MinerAccountId,
        new_worker: Address,
        new_controllers: MinerControllers,
    },
    /// The peer id was changed.
    PeerIdChanged { miner_account_id: MinerAccountId, new_peer_id: PeerId },
    /// The worker was changed.
    WorkerChanged { miner_account_id: MinerAccountId, new_worker: Address },
    /// A new owner was proposed, or the proposal withdrawn.
    OwnerChangeRequested { miner_account_id: MinerAccountId, new_owner: AccountId },
    /// The proposed owner confirmed and now owns the miner.
    OwnerChanged { miner_account_id: MinerAccountId, new_owner: AccountId },
    /// An event on request, for checking that events are recorded.
    TestEvent { emiter: AccountId },
}

/// The mathematical value of an [`Event`].
pub enum EventRecord {
    MinerCreated { miner_account_id: AccountId },
    WorkerChangeRequested {
        miner_account_id: MinerAccountId,
        new_worker: Address,
        new_controllers: ControllersUpdate,
    },
    PeerIdChanged { miner_account_id: MinerAccountId, new_peer_id: Seq<u8> },
    WorkerChanged { miner_account_id: MinerAccountId, new_worker: Address },
    OwnerChangeRequested { miner_account_id: MinerAccountId, new_owner: AccountId },
    OwnerChanged { miner_account_id: MinerAccountId, new_owner: AccountId },
    TestEvent { emiter: AccountId },
}

impl View for Event {
    type V = EventRecord;

    open spec fn view(&self) -> EventRecord {
        match self {
            Event::MinerCreated { miner_account_id } => EventRecord::MinerCreated {
                miner_account_id: *miner_account_id,
            },
            Event::WorkerChangeRequested { miner_account_id, new_worker, new_controllers } =>
                EventRecord::WorkerChangeRequested {
                miner_account_id: *miner_account_id,
                new_worker: *new_worker,
                new_controllers: new_controllers@,
            },
            Event::PeerIdChanged { miner_account_id, new_peer_id } => EventRecord::PeerIdChanged {
                miner_account_id: *miner_account_id,
                new_peer_id: new_peer_id@,
            },
            Event::WorkerChanged { miner_account_id, new_worker } => EventRecord::WorkerChanged {
                miner_account_id: *miner_account_id,
                new_worker: *new_worker,
            },
            Event::OwnerChangeRequested { miner_account_id, new_owner } =>
                EventRecord::OwnerChangeRequested {
                miner_account_id: *miner_account_id,
                new_owner: *new_owner,
            },
            Event::OwnerChanged { miner_account_id, new_owner } => EventRecord::OwnerChanged {
                miner_account_id: *miner_account_id,
                new_owner: *new_owner,
            },
            Event::TestEvent { emiter } => EventRecord::TestEvent { emiter: *emiter },
        }
    }
}

/// The state of the registry: the miners by account, the last id given
/// out, the events so far, and the configured delay of worker changes.
pub struct RegistryState {
    pub miners: Map<MinerAccountId, MinerRecord>,
    pub miner_index: Option<u32>,
    pub events: Seq<EventRecord>,
    pub block_delay: BlockNumber,
}

/// The id that the next creation gives out.
pub open spec fn next_index(index: Option<u32>) -> int {
    match index {
        Some(i) => i + 1,
        None => 1,
    }
}

/// A new miner's record: no controllers and nothing pending.
pub open spec fn new_record(owner: AccountId, worker: Address, peer_id: Seq<u8>) -> MinerRecord {
    MinerRecord {
        owner,
        worker,
        controllers: Seq::empty(),
        peer_id,
        pending_worker: None,
        pending_owner: None,
    }
}

/// Creation of a miner, where `claim_granted` is the power table's answer.
pub open spec fn create_transition(
    s: RegistryState,
    owner: AccountId,
    worker: Address,
    peer_id: Seq<u8>,
    claim_granted: bool,
) -> (RegistryState, Result<MinerAccountId, Error>) {
    if next_index(s.miner_index) > u32::MAX {
        (s, Err(Error::Overflow))
    } else if !claim_granted {
        (s, Err(Error::ClaimsNotSet))
    } else {
        let id = next_index(s.miner_index) as u32;
        let miner = miner_account(id);
        (
            RegistryState {
                miners: s.miners.insert(miner, new_record(owner, worker, peer_id)),
                miner_index: Some(id),
                events: s.events.push(EventRecord::MinerCreated { miner_account_id: owner }),
                ..s
            },
            Ok(miner),
        )
    }
}

/// The record after its owner asks for `new_worker`: the controllers are
/// replaced if the request says so; a different worker is scheduled for
/// `effective_at`, and the current one cancels whatever was scheduled.
pub open spec fn request_worker_change(
    info: MinerRecord,
    new_worker: Address,
    update: ControllersUpdate,
    effective_at: BlockNumber,
) -> MinerRecord {
    MinerRecord {
        controllers: match update {
            ControllersUpdate::Override(c) => c,
            ControllersUpdate::NoChange => info.controllers,
        },
        pending_worker: if info.worker != new_worker {
            Some(WorkerKeyChange { new_worker, effective_at })
        } else {
            None
        },
        ..info
    }
}

/// A worker change request by `who` at time `now`.
pub open spec fn change_worker_transition(
    s: RegistryState,
    who: AccountId,
    miner: MinerAccountId,
    new_worker: Address,
    update: ControllersUpdate,
    now: BlockNumber,
) -> (RegistryState, Result<(), Error>) {
    if !s.miners.contains_key(miner) {
        (s, Err(Error::NoSuchMiner))
    } else if !authorized(s.miners[miner], who, Role::Owner) {
        (s, Err(Error::InvalidSigner))
    } else {
        let effective_at = (now + s.block_delay) as BlockNumber;
        (
            RegistryState {
                miners: s.miners.insert(
                    miner,
                    request_worker_change(s.miners[miner], new_worker, update, effective_at),
                ),
                events: s.events.push(
                    EventRecord::WorkerChangeRequested {
                        miner_account_id: miner,
                        new_worker,
                        new_controllers: update,
                    },
                ),
                ..s
            },
            Ok(()),
        )
    }
}

/// A peer id change by `who`.
pub open spec fn change_peer_id_transition(
    s: RegistryState,
    who: AccountId,
    miner: MinerAccountId,
    new_peer_id: Seq<u8>,
) -> (RegistryState, Result<(), Error>) {
    if !s.miners.contains_key(miner) {
        (s, Err(Error::NoSuchMiner))
    } else if !authorized(s.miners[miner], who, Role::WorkerOrController) {
        (s, Err(Error::InvalidSigner))
    } else {
        (
            RegistryState {
                miners: s.miners.insert(miner, MinerRecord { peer_id: new_peer_id, ..s.miners[miner] }),
                events: s.events.push(
                    EventRecord::PeerIdChanged { miner_account_id: miner, new_peer_id },
                ),
                ..s
            },
            Ok(()),
        )
    }
}

/// A confirmation of the pending worker change at time `now`, by anyone.
pub open spec fn confirm_worker_transition(
    s: RegistryState,
    miner: MinerAccountId,
    now: BlockNumber,
) -> (RegistryState, Result<(), Error>) {
    if !s.miners.contains_key(miner) {
        (s, Err(Error::NoSuchMiner))
    } else {
        match s.miners[miner].pending_worker {
            None => (s, Err(Error::NoRequest)),
            Some(change) => if now < change.effective_at {
                (s, Err(Error::IneffectiveRequest))
            } else {
                (
                    RegistryState {
                        miners: s.miners.insert(
                            miner,
                            MinerRecord {
                                worker: change.new_worker,
                                pending_worker: None,
                                ..s.miners[miner]
                            },
                        ),
                        events: s.events.push(
                            EventRecord::WorkerChanged {
                                miner_account_id: miner,
                                new_worker: change.new_worker,
                            },
                        ),
                        ..s
                    },
                    Ok(()),
                )
            },
        }
    }
}

/// The ownership handshake, as a table whose first matching row wins:
/// the proposed owner confirms by naming itself; the owner withdraws a
/// proposal by naming itself, or proposes (anew) any other account; the
/// owner naming itself with nothing proposed is refused; anyone else is
/// refused.
pub open spec fn transfer_ownership(info: MinerRecord, signer: AccountId, target: AccountId) -> Result<
    MinerRecord,
    Error,
> {
    match info.pending_owner {
        Some(p) => if signer == p && target == p {
            Ok(MinerRecord { owner: signer, pending_owner: None, ..info })
        } else if signer == info.owner && target == info.owner {
            Ok(MinerRecord { pending_owner: None, ..info })
        } else if signer == info.owner {
            Ok(MinerRecord { pending_owner: Some(target), ..info })
        } else {
            Err(Error::InvalidSigner)
        },
        None => if signer == info.owner && target == info.owner {
            Err(Error::IneffectiveRequest)
        } else if signer == info.owner {
            Ok(MinerRecord { pending_owner: Some(target), ..info })
        } else {
            Err(Error::InvalidSigner)
        },
    }
}

/// The event of a successful ownership request: a confirmation reports the
/// new owner, every other step reports the account named.
pub open spec fn ownership_event(
    info: MinerRecord,
    miner: MinerAccountId,
    signer: AccountId,
    target: AccountId,
) -> EventRecord {
    if info.pending_owner == Some(signer) && target == signer {
        EventRecord::OwnerChanged { miner_account_id: miner, new_owner: target }
    } else {
        EventRecord::OwnerChangeRequested { miner_account_id: miner, new_owner: target }
    }
}

/// An ownership request by `signer` that names `target`.
pub open spec fn change_owner_transition(
    s: RegistryState,
    signer: AccountId,
    miner: MinerAccountId,
    target: AccountId,
) -> (RegistryState, Result<(), Error>) {
    if !s.miners.contains_key(miner) {
        (s, Err(Error::NoSuchMiner))
    } else {
        match transfer_ownership(s.miners[miner], signer, target) {
            Ok(info) => (
                RegistryState {
                    miners: s.miners.insert(miner, info),
                    events: s.events.push(ownership_event(s.miners[miner], miner, signer, target)),
                    ..s
                },
                Ok(()),
            ),
            Err(e) => (s, Err(e)),
        }
    }
}

/// The state after a run of creations, each of whose claims was granted,
/// the last request applied last.
pub open spec fn run_creations(s: RegistryState, reqs: Seq<(AccountId, Address, Seq<u8>)>) -> RegistryState
    decreases reqs.len(),
{
    if reqs.len() == 0 {
        s
    } else {
        let last = reqs.last();
        create_transition(run_creations(s, reqs.drop_last()), last.0, last.1, last.2, true).0
    }
}

/// A creation that succeeds gives out the id after the last one, which is
/// larger than every id given out before.
pub proof fn lemma_creation_takes_next_id(
    s: RegistryState,
    owner: AccountId,
    worker: Address,
    peer_id: Seq<u8>,
    claim_granted: bool,
)
    ensures
        ({
            let (s2, r) = create_transition(s, owner, worker, peer_id, claim_granted);
            r is Ok ==> {
                &&& s2.miner_index == Some(next_index(s.miner_index) as u32)
                &&& r == Ok::<MinerAccountId, Error>(
                    miner_account(next_index(s.miner_index) as u32),
                )
                &&& s.miner_index matches Some(i) ==> i < next_index(s.miner_index)
            }
        }),
{
}

/// The accounts of the miners with ids 1 to `n`.
pub open spec fn created_accounts(n: nat) -> Set<MinerAccountId> {
    Set::new(|a: MinerAccountId| exists|i: int| 1 <= i <= n && a == #[trigger] miner_account(i as u32))
}

/// Creations in a fresh registry give out ids from 1 on, one after the
/// other: after n accepted creations the counter stands at n, the n-th of
/// them made the miner whose account is derived from n, and the registry
/// holds exactly the n miners with ids 1 to n.
pub proof fn lemma_sequential_ids(s: RegistryState, reqs: Seq<(AccountId, Address, Seq<u8>)>)
    requires
        s.miner_index is None,
        s.miners == Map::<MinerAccountId, MinerRecord>::empty(),
        reqs.len() <= u32::MAX,
    ensures
        reqs.len() == 0 ==> run_creations(s, reqs).miner_index is None,
        reqs.len() > 0 ==> ({
            let before = run_creations(s, reqs.drop_last());
            let last = reqs.last();
            &&& run_creations(s, reqs).miner_index == Some(reqs.len() as u32)
            &&& create_transition(before, last.0, last.1, last.2, true).1 == Ok::<
                MinerAccountId,
                Error,
            >(miner_account(reqs.len() as u32))
        }),
        run_creations(s, reqs).miners.dom() == created_accounts(reqs.len()),
        run_creations(s, reqs).miners.dom().finite(),
        run_creations(s, reqs).miners.dom().len() == reqs.len(),
    decreases reqs.len(),
{
    let n = reqs.len();
    if n == 0 {
        assert(run_creations(s, reqs).miners.dom() =~= created_accounts(0));
    } else {
        lemma_sequential_ids(s, reqs.drop_last());
        let before = run_creations(s, reqs.drop_last()).miners.dom();
        let m = miner_account(n as u32);
        assert(!before.contains(m)) by {
            if before.contains(m) {
                let i = choose|i: int| 1 <= i <= n - 1 && m == #[trigger] miner_account(i as u32);
                lemma_miner_account_injective(i as u32, n as u32);
            }
        }
        assert(run_creations(s, reqs).miners.dom() =~= before.insert(m));
        assert(created_accounts(n) =~= created_accounts((n - 1) as nat).insert(m)) by {
            assert forall|a: MinerAccountId| created_accounts(n).contains(a) implies created_accounts(
                (n - 1) as nat,
            ).insert(m).contains(a) by {
                let i = choose|i: int| 1 <= i <= n && a == #[trigger] miner_account(i as u32);
                if i < n {
                    assert(created_accounts((n - 1) as nat).contains(a));
                }
            }
        }
    }
}

/// A creation that succeeds in a registry whose miners all have ids given
/// out so far adds a new miner and leaves every other record as it was.
pub proof fn lemma_creation_adds_new_miner(
    s: RegistryState,
    owner: AccountId,
    worker: Address,
    peer_id: Seq<u8>,
    claim_granted: bool,
)
    requires
        forall|a: MinerAccountId| #[trigger]
            s.miners.contains_key(a) ==> created_accounts((next_index(s.miner_index) - 1) as nat).contains(
                a,
            ),
    ensures
        ({
            let (s2, r) = create_transition(s, owner, worker, peer_id, claim_granted);
            r matches Ok(m) ==> {
                &&& !s.miners.contains_key(m)
                &&& s2.miners == s.miners.insert(m, new_record(owner, worker, peer_id))
            }
        }),
{
    let (s2, r) = create_transition(s, owner, worker, peer_id, claim_granted);
    if let Ok(m) = r {
        let n = next_index(s.miner_index);
        if s.miners.contains_key(m) {
            assert(created_accounts((n - 1) as nat).contains(m));
            let i = choose|i: int| 1 <= i <= n - 1 && m == #[trigger] miner_account(i as u32);
            lemma_miner_account_injective(i as u32, n as u32);
        }
    }
}

/// Asking twice in a row for the current worker, with the same controller
/// update, succeeds both times, leaves no change pending, and the second
/// request leaves the miners as the first left them.
pub proof fn lemma_worker_cancel_idempotent(
    s: RegistryState,
    miner: MinerAccountId,
    update: ControllersUpdate,
    now: BlockNumber,
)
    requires
        s.miners.contains_key(miner),
    ensures
        ({
            let owner = s.miners[miner].owner;
            let worker = s.miners[miner].worker;
            let (s1, r1) = change_worker_transition(s, owner, miner, worker, update, now);
            let (s2, r2) = change_worker_transition(s1, owner, miner, worker, update, now);
            &&& r1 is Ok
            &&& r2 is Ok
            &&& s1.miners[miner].pending_worker is None
            &&& s2.miners == s1.miners
        }),
{
    let owner = s.miners[miner].owner;
    let worker = s.miners[miner].worker;
    let (s1, r1) = change_worker_transition(s, owner, miner, worker, update, now);
    let (s2, r2) = change_worker_transition(s1, owner, miner, worker, update, now);
    assert(s2.miners =~= s1.miners);
}

/// An owner's worker request for the current worker leaves no change
/// pending, cancelling any; one for another worker schedules it for the
/// request time plus the delay.
pub proof fn lemma_worker_request_schedule(
    s: RegistryState,
    miner: MinerAccountId,
    new_worker: Address,
    update: ControllersUpdate,
    now: BlockNumber,
)
    requires
        s.miners.contains_key(miner),
        new_worker != s.miners[miner].worker ==> now + s.block_delay <= u64::MAX,
    ensures
        ({
            let owner = s.miners[miner].owner;
            let (s2, r) = change_worker_transition(s, owner, miner, new_worker, update, now);
            &&& r is Ok
            &&& new_worker == s.miners[miner].worker ==> s2.miners[miner].pending_worker is None
            &&& new_worker != s.miners[miner].worker ==> s2.miners[miner].pending_worker == Some(
                WorkerKeyChange { new_worker, effective_at: (now + s.block_delay) as BlockNumber },
            )
            &&& s2.miners[miner].worker == s.miners[miner].worker
        }),
{
}

/// A confirmation before the pending change is due fails and changes
/// nothing; from the due time on it makes the new worker current and leaves
/// nothing pending.
pub proof fn lemma_confirm_due(s: RegistryState, miner: MinerAccountId, now: BlockNumber)
    requires
        s.miners.contains_key(miner),
        s.miners[miner].pending_worker is Some,
    ensures
        ({
            let change = s.miners[miner].pending_worker->Some_0;
            let (s2, r) = confirm_worker_transition(s, miner, now);
            &&& now < change.effective_at ==> s2 == s && r == Err::<(), Error>(
                Error::IneffectiveRequest,
            )
            &&& now >= change.effective_at ==> {
                &&& r is Ok
                &&& s2.miners[miner].worker == change.new_worker
                &&& s2.miners[miner].pending_worker is None
            }
        }),
{
}

/// The owner proposing another account, and that account then confirming
/// by naming itself, hands the miner over and leaves nothing proposed.
pub proof fn lemma_ownership_handshake(s: RegistryState, miner: MinerAccountId, candidate: AccountId)
    requires
        s.miners.contains_key(miner),
        candidate != s.miners[miner].owner,
    ensures
        ({
            let owner = s.miners[miner].owner;
            let (s1, r1) = change_owner_transition(s, owner, miner, candidate);
            let (s2, r2) = change_owner_transition(s1, candidate, miner, candidate);
            &&& r1 is Ok
            &&& s1.miners[miner].pending_owner == Some(candidate)
            &&& r2 is Ok
            &&& s2.miners[miner].owner == candidate
            &&& s2.miners[miner].pending_owner is None
        }),
{
}

/// With nothing proposed, the owner naming itself is refused and changes
/// nothing.
pub proof fn lemma_self_transfer_refused(s: RegistryState, miner: MinerAccountId)
    requires
        s.miners.contains_key(miner),
        s.miners[miner].pending_owner is None,
    ensures
        change_owner_transition(s, s.miners[miner].owner, miner, s.miners[miner].owner) == (
        s,
        Err::<(), Error>(Error::IneffectiveRequest),
        ),
{
}

/// An account that is neither the owner nor the proposed owner is refused
/// whatever it names, and changes nothing.
pub proof fn lemma_stranger_refused(
    s: RegistryState,
    signer: AccountId,
    miner: MinerAccountId,
    target: AccountId,
)
    requires
        s.miners.contains_key(miner),
        signer != s.miners[miner].owner,
        s.miners[miner].pending_owner != Some(signer),
    ensures
        change_owner_transition(s, signer, miner, target) == (s, Err::<(), Error>(Error::InvalidSigner)),
{
}

/// No ownership step leaves a miner's owner proposed to itself: after any
/// step that succeeds, the proposed owner, if any, differs from the owner.
pub proof fn lemma_proposal_differs_from_owner(
    s: RegistryState,
    signer: AccountId,
    miner: MinerAccountId,
    target: AccountId,
)
    requires
        s.miners.contains_key(miner),
    ensures
        ({
            let (s2, r) = change_owner_transition(s, signer, miner, target);
            r is Ok ==> s2.miners[miner].pending_owner != Some(s2.miners[miner].owner)
        }),
{
}

/// Every request either fails and leaves the registry as it was, or
/// succeeds and records exactly one event.
pub proof fn lemma_atomic_requests(
    s: RegistryState,
    who: AccountId,
    miner: MinerAccountId,
    new_worker: Address,
    update: ControllersUpdate,
    new_peer_id: Seq<u8>,
    target: AccountId,
    now: BlockNumber,
)
    ensures
        ({
            let (s2, r) = change_worker_transition(s, who, miner, new_worker, update, now);
            &&& r is Err ==> s2 == s
            &&& r is Ok ==> s2.events.len() == s.events.len() + 1
        }),
        ({
            let (s2, r) = change_peer_id_transition(s, who, miner, new_peer_id);
            &&& r is Err ==> s2 == s
            &&& r is Ok ==> s2.events.len() == s.events.len() + 1
        }),
        ({
            let (s2, r) = confirm_worker_transition(s, miner, now);
            &&& r is Err ==> s2 == s
            &&& r is Ok ==> s2.events.len() == s.events.len() + 1
        }),
        ({
            let (s2, r) = change_owner_transition(s, who, miner, target);
            &&& r is Err ==> s2 == s
            &&& r is Ok ==> s2.events.len() == s.events.len() + 1
        }),
        ({
            let (s2, r) = create_transition(s, who, new_worker, new_peer_id, true);
            &&& r is Err ==> s2 == s
            &&& r is Ok ==> s2.events.len() == s.events.len() + 1
        }),
{
}

/// The registry, with its store passed to each operation explicitly.
pub struct Pallet {
    miners: AccountMap<MinerInfo>,
    miner_index: Option<u32>,
    events: Vec<Event>,
    block_delay: BlockNumber,
}

impl View for Pallet {
    type V = RegistryState;

    closed spec fn view(&self) -> RegistryState {
        RegistryState {
            miners: self.miners@.map_values(|i: MinerInfo| i@),
            miner_index: self.miner_index,
            events: self.events@.map_values(|e: Event| e@),
            block_delay: self.block_delay,
        }
    }
}

impl Pallet {
    /// An empty registry whose worker changes take `block_delay` to come due.
    pub fn new(block_delay: BlockNumber) -> (r: Pallet)
        ensures
            r@ == (RegistryState {
                miners: Map::empty(),
                miner_index: None,
                events: Seq::empty(),
                block_delay,
            }),
    {
        let r = Pallet { miners: AccountMap::new(), miner_index: None, events: Vec::new(), block_delay };
        assert(r@.miners =~= Map::empty());
        assert(r@.events =~= Seq::empty());
        r
    }

    /// The miner with account `miner`, if any.
    pub fn miners(&self, miner: MinerAccountId) -> (r: Option<&MinerInfo>)
        ensures
            match r {
                Some(info) => self@.miners.contains_key(miner) && self@.miners[miner] == info@,
                None => !self@.miners.contains_key(miner),
            },
    {
        self.miners.get(&miner)
    }

    /// The last miner id given out, if any.
    pub fn miner_index(&self) -> (r: Option<u32>)
        ensures
            r == self@.miner_index,
    {
        self.miner_index
    }

    /// The delay between a worker change request and the time it comes due.
    pub fn block_delay(&self) -> (r: BlockNumber)
        ensures
            r == self@.block_delay,
    {
        self.block_delay
    }

    /// The events recorded so far, oldest first.
    pub fn events(&self) -> (r: &Vec<Event>)
        ensures
            r@.map_values(|e: Event| e@) == self@.events,
    {
        &self.events
    }

    /// The number of events recorded so far.
    pub fn event_count(&self) -> (r: usize)
        ensures
            r == self@.events.len(),
    {
        self.events.len()
    }

    proof fn lemma_view_insert(&self, old_self: Pallet, miner: MinerAccountId, info: MinerInfo)
        requires
            self.miners@ == old_self.miners@.insert(miner, info),
        ensures
            self@.miners == old_self@.miners.insert(miner, info@),
    {
        assert(self@.miners =~= old_self@.miners.insert(miner, info@));
    }

    proof fn lemma_view_push(&self, old_self: Pallet, e: Event)
        requires
            self.events@ == old_self.events@.push(e),
        ensures
            self@.events == old_self@.events.push(e@),
    {
        assert(self@.events =~= old_self@.events.push(e@));
    }

    /// Takes the record of `miner` out of the store, to be put back.
    fn take_miner(&mut self, miner: MinerAccountId) -> (r: Option<MinerInfo>)
        ensures
            final(self).miner_index == old(self).miner_index,
            final(self).events == old(self).events,
            final(self).block_delay == old(self).block_delay,
            final(self).miners@ == old(self).miners@.remove(miner),
            match r {
                Some(info) => old(self).miners@.contains_key(miner) && old(self).miners@[miner]
                    == info,
                None => !old(self).miners@.contains_key(miner) && final(self)@ == old(self)@,
            },
    {
        let r = self.miners.remove(&miner);
        proof {
            if r is None {
                assert(self.miners@ =~= old(self).miners@);
            }
        }
        r
    }

    /// Creates a miner for `owner` under the next id, once the power table
    /// `power` takes it on. Unless the counter is full, the power table is
    /// asked for the new miner's account, the owner, the worker, the 64 GiB
    /// window proof type, the peer id and no multiaddrs, and the outcome
    /// follows its answer.
    pub fn create<P: Power>(
        &mut self,
        power: &mut P,
        owner: AccountId,
        worker: Address,
        peer_id: PeerId,
    ) -> (r: Result<MinerAccountId, Error>)
        ensures
            (final(self)@, r) == create_transition(
                old(self)@,
                owner,
                worker,
                peer_id@,
                old(power).grants(
                    miner_account(next_index(old(self)@.miner_index) as u32),
                    owner,
                    worker,
                    RegisteredPoStProof::StackedDRGWindow64GiBV1P1,
                    peer_id@,
                    Seq::empty(),
                ),
            ),
            r == Err::<MinerAccountId, Error>(Error::Overflow) ==> *final(power) == *old(power),
    {
        let miner_index = match self.miner_index {
            Some(i) => i,
            None => 0,
        };
        let miner_index = match miner_index.checked_add(1) {
            Some(i) => i,
            None => {
                return Err(Error::Overflow);
            },
        };
        let miner: MinerAccountId = MinerId(miner_index).into_account();
        let peer = peer_id.clone();
        assert(peer@ =~= peer_id@);
        let multiaddrs: Vec<Vec<u8>> = Vec::new();
        assert(multiaddrs@ =~= Seq::<Vec<u8>>::empty());
        let claim = power.create_miner(
            miner,
            owner,
            worker,
            RegisteredPoStProof::StackedDRGWindow64GiBV1P1,
            peer,
            multiaddrs,
        );
        self.create_with_claim(owner, worker, peer_id, claim)
    }

    /// Creates a miner for `owner` under the next id, given the power
    /// table's answer `claim` to the request for it.
    pub fn create_with_claim(
        &mut self,
        owner: AccountId,
        worker: Address,
        peer_id: PeerId,
        claim: Option<Claim<StoragePower>>,
    ) -> (r: Result<MinerAccountId, Error>)
        ensures
            (final(self)@, r) == create_transition(old(self)@, owner, worker, peer_id@, claim is Some),
    {
        let miner_index = match self.miner_index {
            Some(i) => i,
            None => 0,
        };
        let miner_index = match miner_index.checked_add(1) {
            Some(i) => i,
            None => {
                return Err(Error::Overflow);
            },
        };
        if claim.is_none() {
            return Err(Error::ClaimsNotSet);
        }
        let miner: MinerAccountId = MinerId(miner_index).into_account();
        let info = MinerInfo {
            owner,
            worker,
            controllers: Vec::new(),
            peer_id,
            pending_worker: None,
            pending_owner: None,
        };
        let ghost old_self = *self;
        self.miner_index = Some(miner_index);
        self.miners.insert(miner, info);
        let event = Event::MinerCreated { miner_account_id: owner };
        self.events.push(event);
        proof {
            self.lemma_view_insert(old_self, miner, info);
            self.lemma_view_push(old_self, event);
            assert(info@ == new_record(owner, worker, peer_id@));
        }
        Ok(miner)
    }

    /// The owner of `miner` asks for `new_worker`, to take effect `block_delay`
    /// after `now`, and may replace the controllers.
    pub fn change_worker_address(
        &mut self,
        who: AccountId,
        miner: MinerAccountId,
        new_worker: Address,
        new_controllers: MinerControllers,
        now: BlockNumber,
    ) -> (r: Result<(), Error>)
        requires
            old(self)@.miners.contains_key(miner) && authorized(
                old(self)@.miners[miner],
                who,
                Role::Owner,
            ) && old(self)@.miners[miner].worker != new_worker ==> now + old(self)@.block_delay
                <= u64::MAX,
        ensures
            (final(self)@, r) == change_worker_transition(
                old(self)@,
                who,
                miner,
                new_worker,
                new_controllers@,
                now,
            ),
    {
        let mut miner_info = match self.take_miner(miner) {
            Some(info) => info,
            None => {
                return Err(Error::NoSuchMiner);
            },
        };
        let ghost old_info = miner_info;
        if !miner_info.authorize(who, Role::Owner) {
            self.miners.insert(miner, miner_info);
            assert(self.miners@ =~= old(self).miners@);
            return Err(Error::InvalidSigner);
        }
        // Unlike committing the existing set, an override replaces the
        // controllers; no change keeps them.
        if let MinerControllers::Override(controllers) = &new_controllers {
            miner_info.controllers = controllers.clone();
            assert(miner_info.controllers@ =~= controllers@);
        }
        if miner_info.worker != new_worker {
            miner_info.pending_worker = Some(
                WorkerKeyChange { new_worker, effective_at: now + self.block_delay },
            );
        } else {
            miner_info.pending_worker = None;
        }
        let ghost before = *self;
        self.miners.insert(miner, miner_info);
        let event = Event::WorkerChangeRequested {
            miner_account_id: miner,
            new_worker,
            new_controllers,
        };
        self.events.push(event);
        proof {
            assert(self.miners@ == old(self).miners@.insert(miner, miner_info));
            self.lemma_view_insert(*old(self), miner, miner_info);
            self.lemma_view_push(before, event);
            assert(miner_info@ == request_worker_change(
                old_info@,
                new_worker,
                new_controllers@,
                (now + old(self)@.block_delay) as BlockNumber,
            ));
        }
        Ok(())
    }

    /// The owner or a controller of `miner` sets its peer id.
    pub fn change_peer_id(&mut self, who: AccountId, miner: MinerAccountId, new_peer_id: PeerId) -> (r:
        Result<(), Error>)
        ensures
            (final(self)@, r) == change_peer_id_transition(old(self)@, who, miner, new_peer_id@),
    {
        let mut miner_info = match self.take_miner(miner) {
            Some(info) => info,
            None => {
                return Err(Error::NoSuchMiner);
            },
        };
        if !miner_info.authorize(who, Role::WorkerOrController) {
            self.miners.insert(miner, miner_info);
            assert(self.miners@ =~= old(self).miners@);
            return Err(Error::InvalidSigner);
        }
        let ghost old_info = miner_info;
        miner_info.peer_id = new_peer_id.clone();
        assert(miner_info.peer_id@ =~= new_peer_id@);
        let ghost before = *self;
        self.miners.insert(miner, miner_info);
        let event = Event::PeerIdChanged { miner_account_id: miner, new_peer_id };
        self.events.push(event);
        proof {
            assert(self.miners@ == old(self).miners@.insert(miner, miner_info));
            self.lemma_view_insert(*old(self), miner, miner_info);
            self.lemma_view_push(before, event);
            assert(miner_info@ == MinerRecord { peer_id: new_peer_id@, ..old_info@ });
        }
        Ok(())
    }

    /// Applies the pending worker change of `miner` once it is due at `now`.
    /// Anyone may ask.
    pub fn confirm_update_worker_key(&mut self, miner: MinerAccountId, now: BlockNumber) -> (r:
        Result<(), Error>)
        ensures
            (final(self)@, r) == confirm_worker_transition(old(self)@, miner, now),
    {
        let mut miner_info = match self.take_miner(miner) {
            Some(info) => info,
            None => {
                return Err(Error::NoSuchMiner);
            },
        };
        let ghost old_info = miner_info;
        let key_change = match miner_info.pending_worker {
            Some(key_change) => key_change,
            None => {
                self.miners.insert(miner, miner_info);
                assert(self.miners@ =~= old(self).miners@);
                return Err(Error::NoRequest);
            },
        };
        // The change can only be made from its effective time on.
        if now < key_change.effective_at {
            self.miners.insert(miner, miner_info);
            assert(self.miners@ =~= old(self).miners@);
            return Err(Error::IneffectiveRequest);
        }
        let new_worker = key_change.new_worker;
        miner_info.worker = new_worker;
        miner_info.pending_worker = None;
        let ghost before = *self;
        self.miners.insert(miner, miner_info);
        let event = Event::WorkerChanged { miner_account_id: miner, new_worker };
        self.events.push(event);
        proof {
            assert(self.miners@ == old(self).miners@.insert(miner, miner_info));
            self.lemma_view_insert(*old(self), miner, miner_info);
            self.lemma_view_push(before, event);
            assert(miner_info@ == MinerRecord {
                worker: new_worker,
                pending_worker: None,
                ..old_info@
            });
        }
        Ok(())
    }

    /// One step of the ownership handshake: `signer` names `new_owner`.
    pub fn change_owner_address(
        &mut self,
        signer: AccountId,
        miner: MinerAccountId,
        new_owner: AccountId,
    ) -> (r: Result<(), Error>)
        ensures
            (final(self)@, r) == change_owner_transition(old(self)@, signer, miner, new_owner),
    {
        let mut miner_info = match self.take_miner(miner) {
            Some(info) => info,
            None => {
                return Err(Error::NoSuchMiner);
            },
        };
        let ghost old_info = miner_info;
        let is_current_owner = signer == miner_info.owner;
        let is_proposed_owner = match miner_info.pending_owner {
            Some(p) => p == signer,
            None => false,
        };
        let event = if is_proposed_owner && new_owner == signer {
            // The proposed owner confirms.
            miner_info.owner = signer;
            miner_info.pending_owner = None;
            Event::OwnerChanged { miner_account_id: miner, new_owner }
        } else if miner_info.pending_owner.is_some() && is_current_owner && new_owner == signer {
            // The owner withdraws the proposal.
            miner_info.pending_owner = None;
            Event::OwnerChangeRequested { miner_account_id: miner, new_owner }
        } else if miner_info.pending_owner.is_some() && is_current_owner {
            // The owner proposes another account in place of the one proposed.
            miner_info.pending_owner = Some(new_owner);
            Event::OwnerChangeRequested { miner_account_id: miner, new_owner }
        } else if is_current_owner && new_owner == signer {
            // The owner asked to transfer the miner to itself.
            self.miners.insert(miner, miner_info);
            assert(self.miners@ =~= old(self).miners@);
            return Err(Error::IneffectiveRequest);
        } else if is_current_owner {
            // The owner proposes a new owner.
            miner_info.pending_owner = Some(new_owner);
            Event::OwnerChangeRequested { miner_account_id: miner, new_owner }
        } else {
            // Neither the owner, nor the proposed owner naming itself.
            assert(!is_current_owner && !(is_proposed_owner && new_owner == signer));
            self.miners.insert(miner, miner_info);
            assert(self.miners@ =~= old(self).miners@);
            return Err(Error::InvalidSigner);
        };
        let ghost before = *self;
        self.miners.insert(miner, miner_info);
        self.events.push(event);
        proof {
            assert(self.miners@ == old(self).miners@.insert(miner, miner_info));
            self.lemma_view_insert(*old(self), miner, miner_info);
            self.lemma_view_push(before, event);
            assert(transfer_ownership(old_info@, signer, new_owner) == Ok::<MinerRecord, Error>(
                miner_info@,
            ));
        }
        Ok(())
    }

    /// Records a test event for `who`.
    pub fn check_events(&mut self, who: AccountId) -> (r: Result<(), Error>)
        ensures
            r is Ok,
            final(self)@ == (RegistryState {
                events: old(self)@.events.push(EventRecord::TestEvent { emiter: who }),
                ..old(self)@
            }),
    {
        let ghost before = *self;
        let event = Event::TestEvent { emiter: who };
        self.events.push(event);
        proof {
            self.lemma_view_push(before, event);
        }
        Ok(())
    }
}

} // verus!
