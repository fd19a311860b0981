use std::sync::Arc;

use pns_pallets::address::Address;
use pns_pallets::common::{AccountIdConversion, Claim, MinerId, Power};
use pns_pallets::pns;
use pns_pallets::power;
use pns_pallets::registered_proof::{RegisteredPoStProof, SectorSize};
use pns_pallets::rpc::PnsPallet;

fn account32(id: u32) -> [u8; 32] {
    MinerId(id).into_account()
}

#[test]
fn miner_account_of_32_bytes_is_tag_id_and_zeros() {
    let a = account32(0x0403_0201);
    let mut expected = [0u8; 32];
    expected[..5].copy_from_slice(b"miner");
    expected[5..9].copy_from_slice(&[1, 2, 3, 4]);
    assert_eq!(a, expected);
}

#[test]
fn miner_account_of_32_bytes_round_trips() {
    for id in [1u32, 2, 255, 256, 65_536, 16_777_216, u32::MAX] {
        assert_eq!(MinerId::try_from_account(&account32(id)), Some(MinerId(id)));
    }
}

#[test]
fn distinct_ids_get_distinct_accounts() {
    assert_ne!(account32(1), account32(2));
    assert_ne!(account32(1), account32(1 + (1 << 24)));
}

#[test]
fn account_with_other_tag_is_not_a_miner() {
    let mut a = account32(5);
    a[0] = b'M';
    assert_eq!(MinerId::try_from_account(&a), None);
    assert_eq!(MinerId::try_from_account(&[0u8; 32]), None);
}

#[test]
fn account_with_trailing_bytes_is_not_a_miner() {
    let mut a = account32(5);
    a[31] = 1;
    assert_eq!(MinerId::try_from_account(&a), None);
    let mut b = account32(5);
    b[9] = 7;
    assert_eq!(MinerId::try_from_account(&b), None);
}

#[test]
fn eight_byte_account_of_first_miner() {
    let first: u64 = MinerId(1).into_account();
    assert_eq!(first, 1590839634285);
    assert_eq!(<MinerId as AccountIdConversion<u64>>::try_from_account(&first), None);
}

#[test]
fn sector_sizes_of_proof_types() {
    assert_eq!(RegisteredPoStProof::StackedDRGWindow2KiBV1P1.sector_size(), Ok(SectorSize::_2KiB));
    assert_eq!(RegisteredPoStProof::StackedDRGWinning8MiBV1.sector_size(), Ok(SectorSize::_8MiB));
    assert_eq!(RegisteredPoStProof::StackedDRGWindow512MiBV1.sector_size(), Ok(SectorSize::_512MiB));
    assert_eq!(RegisteredPoStProof::StackedDRGWindow32GiBV1P1.sector_size(), Ok(SectorSize::_32GiB));
    assert_eq!(RegisteredPoStProof::StackedDRGWindow64GiBV1P1.sector_size(), Ok(SectorSize::_64GiB));
    assert_eq!(SectorSize::_2KiB.bytes(), 2048);
    assert_eq!(SectorSize::_64GiB.bytes(), 68_719_476_736);
}

#[test]
fn invalid_proof_type_is_reported() {
    let p = RegisteredPoStProof::Invalid(-3);
    assert_eq!(p.sector_size(), Err("unsupported proof type: -3".to_string()));
    assert_eq!(p.proof_size(), Err("unsupported proof type: -3".to_string()));
    assert_eq!(
        RegisteredPoStProof::Invalid(1234).window_post_partitions_sector(),
        Err("unsupported proof type: 1234".to_string())
    );
}

#[test]
fn proof_and_partition_sizes() {
    assert_eq!(RegisteredPoStProof::StackedDRGWinning2KiBV1.proof_size(), Ok(192));
    assert_eq!(RegisteredPoStProof::StackedDRGWindow64GiBV1.window_post_partitions_sector(), Ok(2300));
    assert_eq!(RegisteredPoStProof::StackedDRGWinning32GiBV1.window_post_partitions_sector(), Ok(2349));
    assert_eq!(RegisteredPoStProof::StackedDRGWindow512MiBV1P1.window_post_partitions_sector(), Ok(2));
}

#[test]
fn power_table_gives_new_miners_empty_claims() {
    let mut table = power::Pallet::new();
    let claim = table.create_miner(
        account32(7),
        7,
        Address::new_id(1),
        RegisteredPoStProof::StackedDRGWindow64GiBV1P1,
        vec![1],
        vec![],
    );
    assert_eq!(claim, Some(Claim::new(0, 0)));
    assert_eq!(table.claims(account32(7)), Some(Claim::new(0, 0)));
    assert_eq!(table.claims(account32(8)), None);
    assert_eq!(table.miner_count(), Some(1));
    assert_eq!(table.total_raw_bytes_power(), None);
}

#[test]
fn claim_accessors() {
    let c = Claim::new(5u64, 9u64);
    assert_eq!(c.raw_bytes_power(), 5);
    assert_eq!(c.quality_adjusted_power(), 9);
}

#[test]
fn file_pallet_records_callers() {
    let mut files = pns::Pallet::new();
    assert_eq!(files.store_file(1), Ok(()));
    assert_eq!(files.retrieve_file(2), Ok(()));
    assert_eq!(
        files.events(),
        &vec![pns::Event::SomethingExecuted { who: 1 }, pns::Event::SomethingExecuted { who: 2 }]
    );
}

#[test]
fn query_handle_keeps_its_client() {
    let client = Arc::new(17u32);
    let handle: PnsPallet<u32, ()> = PnsPallet::new(client.clone());
    assert!(Arc::ptr_eq(handle.client(), &client));
    assert_eq!(Address::new_id(3).actor_id(), 3);
}
