use pns_pallets::address::Address;
use pns_pallets::common::{AccountIdConversion, Claim, MinerId};
use pns_pallets::miner::{Error, Event, MinerControllers, Pallet, Role};
use pns_pallets::power;

const PEERID_BYTE: u8 = 9;
const FIRST_MINER_ADDR: u64 = 1590839634285;
const BLOCK_DELAY: u64 = 5;

fn first_miner_addr() -> [u8; 32] {
    MinerId(1).into_account()
}

fn worker() -> Address {
    Address::new_id(1)
}

struct TestExt {
    miners: Pallet,
    power: power::Pallet,
}

fn new_test_ext() -> TestExt {
    TestExt { miners: Pallet::new(BLOCK_DELAY), power: power::Pallet::new() }
}

fn create_miner_for(ext: &mut TestExt, owner: u64) -> Result<[u8; 32], Error> {
    ext.miners.create(&mut ext.power, owner, worker(), vec![PEERID_BYTE])
}

#[test]
fn create_miner_first_miner_addr_is_correct() {
    let new_miner_addr: u64 = MinerId(1).into_account();
    assert_eq!(new_miner_addr, FIRST_MINER_ADDR);
    // the 32-byte account that keys the registry starts with the same eight bytes
    let key = first_miner_addr();
    assert_eq!(u64::from_le_bytes(key[..8].try_into().unwrap()), FIRST_MINER_ADDR);
}

#[test]
fn create_miner() {
    let mut ext = new_test_ext();
    let owner: u64 = 0;
    let worker = worker();
    let peer_id = vec![1, 32];
    let expected_miner_index = 1;

    assert!(ext.miners.create(&mut ext.power, owner, worker, peer_id.clone()).is_ok());

    let miner_index = ext.miners.miner_index();
    let new_miner_addr: [u8; 32] = MinerId(miner_index.unwrap()).into_account();
    let new_miner_info = ext.miners.miners(new_miner_addr).unwrap();

    assert_eq!(ext.miners.miner_index(), Some(expected_miner_index));
    assert_eq!(new_miner_info.owner, owner);
    assert_eq!(new_miner_info.worker, worker);
    assert_eq!(new_miner_info.peer_id, peer_id);
    assert_eq!(new_miner_info.controllers.len(), 0);
    assert_eq!(ext.miners.event_count(), 1);
}

#[test]
fn change_worker_address_works_with_valid_signer_and_new_worker() {
    let mut ext = new_test_ext();
    let owner: u64 = 123;
    assert!(create_miner_for(&mut ext, owner).is_ok());

    let block = 1;

    let new_worker: Address = Address::new_id(111);
    let new_controllers = MinerControllers::Override(vec![1, 2, 3]);
    assert_eq!(
        ext.miners.change_worker_address(owner, first_miner_addr(), new_worker, new_controllers.clone(), block),
        Ok(())
    );

    let miner_key_change = ext.miners.miners(first_miner_addr()).unwrap().pending_worker.unwrap();

    assert_eq!(miner_key_change.new_worker, new_worker);
    assert_eq!(miner_key_change.effective_at, block + ext.miners.block_delay());
}

#[test]
fn change_worker_address_clears_pending_worker_with_valid_signer_and_old_worker() {
    let mut ext = new_test_ext();
    let owner: u64 = 123;
    assert!(create_miner_for(&mut ext, owner).is_ok());

    let new_worker: Address = Address::new_id(111);
    assert_eq!(
        ext.miners.change_worker_address(owner, first_miner_addr(), new_worker, MinerControllers::NoChange, 0),
        Ok(())
    );

    assert_eq!(
        ext.miners.change_worker_address(owner, first_miner_addr(), worker(), MinerControllers::NoChange, 0),
        Ok(())
    );

    assert!(ext.miners.miners(first_miner_addr()).unwrap().pending_worker.is_none());
}

#[test]
fn change_worker_address_keeps_old_controller_without_override() {
    let mut ext = new_test_ext();
    let owner: u64 = 123;
    assert!(create_miner_for(&mut ext, owner).is_ok());

    let new_worker: Address = Address::new_id(111);
    let new_controllers = vec![1, 2, 3];
    assert_eq!(
        ext.miners.change_worker_address(
            owner,
            first_miner_addr(),
            new_worker,
            MinerControllers::Override(new_controllers.clone()),
            0
        ),
        Ok(())
    );

    assert_eq!(
        ext.miners.change_worker_address(owner, first_miner_addr(), worker(), MinerControllers::NoChange, 0),
        Ok(())
    );

    assert_eq!(ext.miners.miners(first_miner_addr()).unwrap().controllers, new_controllers);
}

#[test]
fn change_worker_address_rejects_invalid_signer() {
    let mut ext = new_test_ext();
    let owner: u64 = 123;
    assert!(create_miner_for(&mut ext, owner).is_ok());
    let events_before = ext.miners.event_count();
    let before = ext.miners.miners(first_miner_addr()).unwrap().clone();

    let invalid_signer: u64 = 456;
    assert_eq!(
        ext.miners.change_worker_address(
            invalid_signer,
            first_miner_addr(),
            worker(),
            MinerControllers::NoChange,
            1
        ),
        Err(Error::InvalidSigner)
    );
    assert_eq!(ext.miners.miners(first_miner_addr()).unwrap(), &before);
    assert_eq!(ext.miners.event_count(), events_before);
}

#[test]
fn confirm_update_worker_accepts_effective_request_with_valid_signature() {
    let mut ext = new_test_ext();
    let owner: u64 = 123;
    assert!(create_miner_for(&mut ext, owner).is_ok());

    let new_worker: Address = Address::new_id(111);
    assert_eq!(
        ext.miners.change_worker_address(owner, first_miner_addr(), new_worker, MinerControllers::NoChange, 1),
        Ok(())
    );

    assert_eq!(ext.miners.confirm_update_worker_key(first_miner_addr(), 10), Ok(()));

    let new_miner_info = ext.miners.miners(first_miner_addr()).unwrap();

    assert_eq!(new_miner_info.worker, new_worker);
    assert!(new_miner_info.pending_worker.is_none());
}

#[test]
fn confirm_update_worker_key_rejects_trigger_before_effective_at() {
    let mut ext = new_test_ext();
    let owner: u64 = 123;
    assert!(create_miner_for(&mut ext, owner).is_ok());

    let new_worker: Address = Address::new_id(111);
    assert_eq!(
        ext.miners.change_worker_address(owner, first_miner_addr(), new_worker, MinerControllers::NoChange, 1),
        Ok(())
    );
    let before = ext.miners.miners(first_miner_addr()).unwrap().clone();

    assert_eq!(
        ext.miners.confirm_update_worker_key(first_miner_addr(), ext.miners.block_delay()),
        Err(Error::IneffectiveRequest)
    );
    assert_eq!(ext.miners.miners(first_miner_addr()).unwrap(), &before);
    assert_eq!(ext.miners.event_count(), 2);
}

#[test]
fn change_worker_address_rejects_trigger_without_request() {
    let mut ext = new_test_ext();
    let owner: u64 = 123;
    assert!(create_miner_for(&mut ext, owner).is_ok());
    let before = ext.miners.miners(first_miner_addr()).unwrap().clone();

    assert_eq!(ext.miners.confirm_update_worker_key(first_miner_addr(), 0), Err(Error::NoRequest));
    assert_eq!(ext.miners.miners(first_miner_addr()).unwrap(), &before);
    assert_eq!(ext.miners.event_count(), 1);
}

#[test]
fn change_owner_address_creates_proposal_with_valid_signer() {
    let mut ext = new_test_ext();
    let owner: u64 = 123;
    let new_owner: u64 = 234;
    assert!(create_miner_for(&mut ext, owner).is_ok());

    assert_eq!(ext.miners.change_owner_address(owner, first_miner_addr(), new_owner), Ok(()));

    assert_eq!(ext.miners.miners(first_miner_addr()).unwrap().pending_owner, Some(new_owner));
}

#[test]
fn change_owner_address_rejects_proposal_with_owner_account() {
    let mut ext = new_test_ext();
    let owner: u64 = 123;
    assert!(create_miner_for(&mut ext, owner).is_ok());
    let before = ext.miners.miners(first_miner_addr()).unwrap().clone();

    assert_eq!(
        ext.miners.change_owner_address(owner, first_miner_addr(), owner),
        Err(Error::IneffectiveRequest)
    );
    assert_eq!(ext.miners.miners(first_miner_addr()).unwrap(), &before);
    assert_eq!(ext.miners.event_count(), 1);
}

#[test]
fn change_owner_address_rejects_invalid_signer() {
    let mut ext = new_test_ext();
    let owner: u64 = 123;
    let new_owner: u64 = 234;
    let random_account: u64 = 789;
    assert!(create_miner_for(&mut ext, owner).is_ok());
    let before = ext.miners.miners(first_miner_addr()).unwrap().clone();

    assert_eq!(
        ext.miners.change_owner_address(random_account, first_miner_addr(), new_owner),
        Err(Error::InvalidSigner)
    );
    assert_eq!(ext.miners.miners(first_miner_addr()).unwrap(), &before);
    assert_eq!(ext.miners.event_count(), 1);
}

#[test]
fn change_owner_address_confirms_new_owner_with_valid_signer_and_proposal() {
    let mut ext = new_test_ext();
    let owner: u64 = 123;
    let new_owner: u64 = 234;
    assert!(create_miner_for(&mut ext, owner).is_ok());

    assert_eq!(ext.miners.change_owner_address(owner, first_miner_addr(), new_owner), Ok(()));

    assert_eq!(ext.miners.change_owner_address(new_owner, first_miner_addr(), new_owner), Ok(()));

    assert_eq!(ext.miners.miners(first_miner_addr()).unwrap().owner, new_owner);
    assert_eq!(ext.miners.miners(first_miner_addr()).unwrap().pending_owner, None);
}

#[test]
fn change_owner_address_revokes_existing_proposal_with_valid_signer() {
    let mut ext = new_test_ext();
    let owner: u64 = 123;
    let new_owner: u64 = 234;
    assert!(create_miner_for(&mut ext, owner).is_ok());

    assert_eq!(ext.miners.change_owner_address(owner, first_miner_addr(), new_owner), Ok(()));

    assert_eq!(ext.miners.change_owner_address(owner, first_miner_addr(), new_owner), Ok(()));

    assert_eq!(ext.miners.miners(first_miner_addr()).unwrap().pending_owner, Some(new_owner));

    assert_eq!(ext.miners.change_owner_address(owner, first_miner_addr(), owner), Ok(()));

    assert_eq!(ext.miners.miners(first_miner_addr()).unwrap().owner, owner);
    assert_eq!(ext.miners.miners(first_miner_addr()).unwrap().pending_owner, None);
}

#[test]
fn change_peer_id_works_with_valid_owner() {
    let mut ext = new_test_ext();
    let owner: u64 = 123;
    let new_peer_id = vec![88];
    assert!(create_miner_for(&mut ext, owner).is_ok());

    assert_eq!(ext.miners.change_peer_id(owner, first_miner_addr(), new_peer_id.clone()), Ok(()));

    let peer_id = ext.miners.miners(first_miner_addr()).unwrap().peer_id.clone();

    assert_eq!(peer_id, new_peer_id)
}

#[test]
fn change_peer_id_works_with_valid_controller() {
    let mut ext = new_test_ext();
    let owner: u64 = 123;
    let new_peer_id = vec![88];
    let new_controllers = vec![1, 2, 3];
    assert!(create_miner_for(&mut ext, owner).is_ok());

    assert_eq!(
        ext.miners.change_worker_address(
            owner,
            first_miner_addr(),
            worker(),
            MinerControllers::Override(new_controllers.clone()),
            0
        ),
        Ok(())
    );

    assert_eq!(
        ext.miners.change_peer_id(new_controllers[0], first_miner_addr(), new_peer_id.clone()),
        Ok(())
    );

    let peer_id = ext.miners.miners(first_miner_addr()).unwrap().peer_id.clone();

    assert_eq!(peer_id, new_peer_id)
}

#[test]
fn change_peer_id_rejects_invalid_signer() {
    let mut ext = new_test_ext();
    let owner: u64 = 123;
    // This signer is not the owner, worker or a controller of the miner
    let invalid_signer: u64 = 234;
    let new_peer_id = vec![88];

    assert!(create_miner_for(&mut ext, owner).is_ok());
    let before = ext.miners.miners(first_miner_addr()).unwrap().clone();
    assert_eq!(
        ext.miners.change_peer_id(invalid_signer, first_miner_addr(), new_peer_id),
        Err(Error::InvalidSigner)
    );
    assert_eq!(ext.miners.miners(first_miner_addr()).unwrap(), &before);
    assert_eq!(ext.miners.event_count(), 1);
}

// Scenarios and edge cases beyond the pallet's own suite.

#[test]
fn worker_rotation_comes_due_after_the_delay() {
    let mut ext = new_test_ext();
    let w0 = Address::new_id(7);
    let w1 = Address::new_id(8);
    assert_eq!(ext.miners.create(&mut ext.power, 123, w0, vec![9]), Ok(first_miner_addr()));
    assert_eq!(
        ext.miners.change_worker_address(123, first_miner_addr(), w1, MinerControllers::NoChange, 1),
        Ok(())
    );
    assert_eq!(
        ext.miners.confirm_update_worker_key(first_miner_addr(), BLOCK_DELAY),
        Err(Error::IneffectiveRequest)
    );
    assert_eq!(ext.miners.miners(first_miner_addr()).unwrap().worker, w0);
    assert_eq!(ext.miners.confirm_update_worker_key(first_miner_addr(), BLOCK_DELAY + 1), Ok(()));
    let info = ext.miners.miners(first_miner_addr()).unwrap();
    assert_eq!(info.worker, w1);
    assert!(info.pending_worker.is_none());
    assert_eq!(
        ext.miners.events().last(),
        Some(&Event::WorkerChanged { miner_account_id: first_miner_addr(), new_worker: w1 })
    );
}

#[test]
fn ownership_override_and_cancel_paths() {
    let mut ext = new_test_ext();
    let owner: u64 = 123;
    assert!(create_miner_for(&mut ext, owner).is_ok());

    assert_eq!(ext.miners.change_owner_address(owner, first_miner_addr(), 234), Ok(()));
    assert_eq!(ext.miners.change_owner_address(owner, first_miner_addr(), 234), Ok(()));
    assert_eq!(ext.miners.miners(first_miner_addr()).unwrap().pending_owner, Some(234));
    assert_eq!(ext.miners.change_owner_address(owner, first_miner_addr(), 345), Ok(()));
    assert_eq!(ext.miners.miners(first_miner_addr()).unwrap().pending_owner, Some(345));
    assert_eq!(ext.miners.change_owner_address(owner, first_miner_addr(), owner), Ok(()));
    assert_eq!(ext.miners.miners(first_miner_addr()).unwrap().pending_owner, None);
    assert_eq!(ext.miners.miners(first_miner_addr()).unwrap().owner, owner);
    // the cancellation reports the account named, which is the owner
    assert_eq!(
        ext.miners.events().last(),
        Some(&Event::OwnerChangeRequested { miner_account_id: first_miner_addr(), new_owner: owner })
    );
    // the withdrawn candidate can no longer confirm
    assert_eq!(
        ext.miners.change_owner_address(345, first_miner_addr(), 345),
        Err(Error::InvalidSigner)
    );
}

#[test]
fn proposed_owner_naming_another_account_is_refused() {
    let mut ext = new_test_ext();
    assert!(create_miner_for(&mut ext, 123).is_ok());
    assert_eq!(ext.miners.change_owner_address(123, first_miner_addr(), 234), Ok(()));
    assert_eq!(
        ext.miners.change_owner_address(234, first_miner_addr(), 999),
        Err(Error::InvalidSigner)
    );
    assert_eq!(ext.miners.miners(first_miner_addr()).unwrap().pending_owner, Some(234));
    assert_eq!(ext.miners.change_owner_address(234, first_miner_addr(), 234), Ok(()));
    assert_eq!(
        ext.miners.events().last(),
        Some(&Event::OwnerChanged { miner_account_id: first_miner_addr(), new_owner: 234 })
    );
}

#[test]
fn operations_on_unknown_miner_fail() {
    let mut ext = new_test_ext();
    assert_eq!(
        ext.miners.change_worker_address(1, [42; 32], worker(), MinerControllers::NoChange, 0),
        Err(Error::NoSuchMiner)
    );
    assert_eq!(ext.miners.change_peer_id(1, [42; 32], vec![1]), Err(Error::NoSuchMiner));
    assert_eq!(ext.miners.confirm_update_worker_key([42; 32], 0), Err(Error::NoSuchMiner));
    assert_eq!(ext.miners.change_owner_address(1, [42; 32], 2), Err(Error::NoSuchMiner));
    assert_eq!(ext.miners.event_count(), 0);
}

#[test]
fn sequential_creations_take_sequential_ids() {
    let mut ext = new_test_ext();
    for n in 1..=5u32 {
        let expected: [u8; 32] = MinerId(n).into_account();
        assert_eq!(create_miner_for(&mut ext, 100 + n as u64), Ok(expected));
        assert_eq!(ext.miners.miner_index(), Some(n));
        assert_eq!(ext.miners.miners(expected).unwrap().owner, 100 + n as u64);
    }
    assert_eq!(ext.power.miner_count(), Some(5));
    assert_eq!(ext.power.claims(first_miner_addr()), Some(Claim::new(0, 0)));
}

#[test]
fn new_miner_has_nothing_pending() {
    let mut ext = new_test_ext();
    let miner = create_miner_for(&mut ext, 123).unwrap();
    let info = ext.miners.miners(miner).unwrap();
    assert_eq!(info.owner, 123);
    assert_eq!(info.worker, worker());
    assert!(info.controllers.is_empty());
    assert_eq!(info.peer_id, vec![PEERID_BYTE]);
    assert!(info.pending_worker.is_none());
    assert!(info.pending_owner.is_none());
    assert_eq!(ext.miners.events(), &vec![Event::MinerCreated { miner_account_id: 123 }]);
}

#[test]
fn declined_claim_creates_nothing() {
    let mut registry = Pallet::new(BLOCK_DELAY);
    assert_eq!(registry.create_with_claim(1, worker(), vec![], None), Err(Error::ClaimsNotSet));
    assert_eq!(registry.miner_index(), None);
    assert_eq!(registry.event_count(), 0);
    assert_eq!(
        registry.create_with_claim(1, worker(), vec![], Some(Claim::new(0, 0))),
        Ok(first_miner_addr())
    );
    assert_eq!(registry.miner_index(), Some(1));
}

#[test]
fn empty_override_clears_controllers() {
    let mut ext = new_test_ext();
    assert!(create_miner_for(&mut ext, 123).is_ok());
    assert_eq!(
        ext.miners.change_worker_address(123, first_miner_addr(), worker(), MinerControllers::Override(vec![5]), 0),
        Ok(())
    );
    assert_eq!(ext.miners.change_peer_id(5, first_miner_addr(), vec![1]), Ok(()));
    assert_eq!(
        ext.miners.change_worker_address(123, first_miner_addr(), worker(), MinerControllers::Override(vec![]), 0),
        Ok(())
    );
    assert!(ext.miners.miners(first_miner_addr()).unwrap().controllers.is_empty());
    assert_eq!(ext.miners.change_peer_id(5, first_miner_addr(), vec![2]), Err(Error::InvalidSigner));
    // a controller may not request worker changes
    assert_eq!(
        ext.miners.change_worker_address(5, first_miner_addr(), worker(), MinerControllers::NoChange, 0),
        Err(Error::InvalidSigner)
    );
}

#[test]
fn authorization_by_role() {
    let mut ext = new_test_ext();
    assert!(create_miner_for(&mut ext, 123).is_ok());
    assert_eq!(
        ext.miners.change_worker_address(123, first_miner_addr(), worker(), MinerControllers::Override(vec![7]), 0),
        Ok(())
    );
    let info = ext.miners.miners(first_miner_addr()).unwrap();
    assert!(info.authorize(123, Role::Owner));
    assert!(!info.authorize(7, Role::Owner));
    assert!(info.authorize(7, Role::WorkerOrController));
    assert!(info.authorize(123, Role::WorkerOrController));
    assert!(!info.authorize(8, Role::WorkerOrController));
}

#[test]
fn check_events_records_the_caller() {
    let mut registry = Pallet::new(BLOCK_DELAY);
    assert_eq!(registry.check_events(42), Ok(()));
    assert_eq!(registry.events(), &vec![Event::TestEvent { emiter: 42 }]);
}

#[test]
fn cancel_needs_no_room_for_the_delay() {
    let mut ext = new_test_ext();
    assert!(create_miner_for(&mut ext, 123).is_ok());
    assert_eq!(
        ext.miners.change_worker_address(123, first_miner_addr(), worker(), MinerControllers::NoChange, u64::MAX),
        Ok(())
    );
    assert!(ext.miners.miners(first_miner_addr()).unwrap().pending_worker.is_none());
}

#[test]
fn successive_miners_get_separate_records() {
    let mut ext = new_test_ext();
    let second: [u8; 32] = MinerId(2).into_account();
    assert!(create_miner_for(&mut ext, 123).is_ok());
    assert_eq!(create_miner_for(&mut ext, 456), Ok(second));
    assert_ne!(first_miner_addr(), second);
    assert_eq!(ext.miners.miners(first_miner_addr()).unwrap().owner, 123);
    assert_eq!(ext.miners.miners(second).unwrap().owner, 456);
}
