use anchor_lang::prelude::Pubkey;
use vault_staking::address::{vault_seeds, vault_seed};
use vault_staking::{derive_vault_address, initialize, Address, Vault};

fn program_id() -> Address {
    Address::new([3u8; 32])
}

#[test]
fn vault_seed_is_domain_tag() {
    assert_eq!(vault_seed(), b"vault".to_vec());
}

#[test]
fn seeds_are_tag_then_owner() {
    let owner = Address::new([5u8; 32]);
    let seeds = vault_seeds(&owner);
    assert_eq!(seeds.len(), 2);
    assert_eq!(seeds[0], b"vault".to_vec());
    assert_eq!(seeds[1], vec![5u8; 32]);
}

#[test]
fn derived_address_matches_find_program_address() {
    let owner = Address::new([5u8; 32]);
    let (address, bump) = derive_vault_address(&owner, &program_id()).unwrap();
    let (expected, expected_bump) = Pubkey::find_program_address(
        &[b"vault", &[5u8; 32]],
        &Pubkey::new_from_array([3u8; 32]),
    );
    assert_eq!(address.bytes, expected.to_bytes());
    assert_eq!(bump, expected_bump);
    assert_ne!(address, owner);
    assert_ne!(address, program_id());
}

#[test]
fn derivation_is_deterministic_and_per_owner() {
    let a = Address::new([1u8; 32]);
    let b = Address::new([2u8; 32]);
    let first = derive_vault_address(&a, &program_id()).unwrap();
    let again = derive_vault_address(&a, &program_id()).unwrap();
    let other = derive_vault_address(&b, &program_id()).unwrap();
    assert_eq!(first.0, again.0);
    assert_eq!(first.1, again.1);
    assert_ne!(first.0, other.0);
}

#[test]
fn signer_seeds_rederive_the_address() {
    let owner = Address::new([8u8; 32]);
    let (address, bump) = derive_vault_address(&owner, &program_id()).unwrap();
    let mut slot: Option<Vault> = None;
    initialize(&mut slot, &owner, bump).unwrap();
    let seeds = slot.unwrap().signer_seeds();
    assert_eq!(seeds, vec![b"vault".to_vec(), vec![8u8; 32], vec![bump]]);
    let refs: Vec<&[u8]> = seeds.iter().map(|s| s.as_slice()).collect();
    let rederived =
        Pubkey::create_program_address(&refs, &Pubkey::new_from_array([3u8; 32])).unwrap();
    assert_eq!(rederived.to_bytes(), address.bytes);
}
