//! Address parsing, derivation and context constants, cross-checked
//! against the reference implementations.

use klend_client::address::{parse_address, Address};
use klend_client::context::ClientContext;
use klend_client::errors::ClientError;
use klend_client::pda::{derive_address, is_signing_key_address};
use klend_client::token::derive_token_account;
use solana_pubkey::Pubkey;
use std::str::FromStr;

fn addr(fill: u8) -> Address {
    Address { bytes: vec![fill; 32] }
}

fn ctx() -> ClientContext {
    ClientContext::new(addr(1)).expect("context addresses decode")
}

#[test]
fn derivation_is_deterministic() {
    let program = addr(3);
    let seeds = vec![b"lma".to_vec(), vec![9u8; 32]];
    let (a, a_bump) = derive_address(&program, &seeds).unwrap();
    let (b, b_bump) = derive_address(&program, &seeds).unwrap();
    assert_eq!(a.bytes, b.bytes);
    assert_eq!(a_bump, b_bump);
}

#[test]
fn the_curve_check_accepts_a_known_curve_point() {
    // The compressed form of the standard ed25519 base point.
    let mut bytes = vec![0x66u8; 32];
    bytes[0] = 0x58;
    let base_point = Address { bytes };
    assert!(is_signing_key_address(&base_point));
    let base_pk = Pubkey::try_from(base_point.bytes.as_slice()).unwrap();
    assert!(base_pk.is_on_curve());
}

#[test]
fn derived_addresses_are_never_signing_key_addresses() {
    for fill in 0u8..16 {
        let program = addr(fill.wrapping_add(1));
        let seeds = vec![vec![fill; 5], b"vault".to_vec()];
        let (derived, _bump) = derive_address(&program, &seeds).unwrap();
        assert!(!is_signing_key_address(&derived));
    }
}

#[test]
fn derivation_matches_reference_implementation() {
    let program_bytes = [11u8; 32];
    let program = Address { bytes: program_bytes.to_vec() };
    let seeds = vec![b"lma".to_vec(), vec![7u8; 32]];
    let (derived, bump) = derive_address(&program, &seeds).unwrap();
    let pk = Pubkey::from(program_bytes);
    let (expected, expected_bump) = Pubkey::find_program_address(&[b"lma", &[7u8; 32]], &pk);
    assert_eq!(derived.bytes, expected.to_bytes().to_vec());
    assert_eq!(bump, expected_bump);
}

#[test]
fn overlong_seed_is_rejected() {
    let program = addr(3);
    let seeds = vec![vec![1u8; 33]];
    assert_eq!(derive_address(&program, &seeds), Err(ClientError::SeedTooLong));
}

#[test]
fn too_many_seeds_are_rejected() {
    let program = addr(3);
    let seeds = vec![vec![1u8; 4]; 16];
    assert_eq!(derive_address(&program, &seeds), Err(ClientError::SeedTooLong));
}

#[test]
fn parse_address_decodes_base58() {
    let zero = parse_address("11111111111111111111111111111111").unwrap();
    assert_eq!(zero.bytes, vec![0u8; 32]);
    let spl = parse_address("TokenkegQfeZyiNwAJbNbGKPFXCWuBvf9Ss623VQ5DA").unwrap();
    assert_eq!(spl.bytes, spl_token::id().to_bytes().to_vec());
}

#[test]
fn parse_address_rejects_invalid_strings() {
    assert_eq!(parse_address("not base58 !!!"), Err(ClientError::InvalidArgument));
    assert_eq!(parse_address("abc"), Err(ClientError::InvalidArgument));
}

#[test]
fn context_holds_the_documented_program_addresses() {
    let c = ctx();
    assert_eq!(c.payer.bytes, vec![1u8; 32]);
    assert_eq!(
        c.program_id.bytes,
        bs58::decode("KLend2g3cP87fffoy8q1mQqGKjrxjC8boSyAYavgmjD").into_vec().unwrap()
    );
    assert_eq!(c.token_program.bytes, spl_token::id().to_bytes().to_vec());
    assert_eq!(
        c.ata_program.bytes,
        spl_associated_token_account::id().to_bytes().to_vec()
    );
    assert_eq!(
        c.system_program.bytes,
        solana_sdk_ids::system_program::ID.to_bytes().to_vec()
    );
    assert_eq!(c.rent_sysvar.bytes, solana_sdk_ids::sysvar::rent::ID.to_bytes().to_vec());
    assert_eq!(
        c.instructions_sysvar.bytes,
        solana_sdk_ids::sysvar::instructions::ID.to_bytes().to_vec()
    );
    assert_eq!(
        c.compute_budget_program.bytes,
        solana_sdk_ids::compute_budget::ID.to_bytes().to_vec()
    );
    assert_eq!(
        c.token_2022_program.bytes,
        bs58::decode("TokenzQdBNbLqP5VEhdkAS6EPFLC1PHnBqCXEpPxuEb").into_vec().unwrap()
    );
}

#[test]
fn token_account_derivation_matches_reference_implementation() {
    let c = ctx();
    let wallet = addr(5);
    let mint = addr(6);
    let (derived, _bump) = derive_token_account(&c, &wallet, &mint).unwrap();
    let expected = spl_associated_token_account::get_associated_token_address(
        &Pubkey::from([5u8; 32]),
        &Pubkey::from([6u8; 32]),
    );
    assert_eq!(derived.bytes, expected.to_bytes().to_vec());
}

#[test]
fn address_equality_and_zero_check() {
    let a = addr(4);
    let b = addr(4);
    let c = addr(5);
    assert!(a.eq_address(&b));
    assert!(!a.eq_address(&c));
    assert!(Address::zero().is_zero());
    assert!(!a.is_zero());
    assert_eq!(Address::from_bytes(vec![2u8; 31]), Err(ClientError::InvalidArgument));
    assert_eq!(Address::from_bytes(vec![2u8; 32]).unwrap().bytes, vec![2u8; 32]);
    let _ = Pubkey::from_str("11111111111111111111111111111111").unwrap();
}
