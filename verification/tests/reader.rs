//! Decoding synthetic account bytes into snapshots.

use klend_client::errors::ClientError;
use klend_client::reader::{read_lending_market, read_obligation, read_reserve};
use sha2::Digest;

fn discriminator(name: &[u8]) -> Vec<u8> {
    let mut hasher = sha2::Sha256::new();
    hasher.update(b"account:");
    hasher.update(name);
    hasher.finalize()[..8].to_vec()
}

fn plant(bytes: &mut [u8], at: usize, fill: u8) {
    for b in bytes[at..at + 32].iter_mut() {
        *b = fill;
    }
}

fn reserve_bytes() -> Vec<u8> {
    let mut bytes = vec![0u8; 8624];
    bytes[..8].copy_from_slice(&discriminator(b"Reserve"));
    plant(&mut bytes, 32, 10);
    plant(&mut bytes, 128, 11);
    plant(&mut bytes, 160, 12);
    plant(&mut bytes, 192, 13);
    plant(&mut bytes, 2560, 14);
    plant(&mut bytes, 2600, 15);
    plant(&mut bytes, 5112, 19);
    plant(&mut bytes, 5160, 17);
    plant(&mut bytes, 5192, 18);
    plant(&mut bytes, 5224, 16);
    bytes
}

#[test]
fn reserve_fields_decode_from_their_offsets() {
    let snapshot = read_reserve(Some(reserve_bytes())).unwrap();
    assert_eq!(snapshot.lending_market.bytes, vec![10u8; 32]);
    assert_eq!(snapshot.liquidity_mint.bytes, vec![11u8; 32]);
    assert_eq!(snapshot.liquidity_supply_vault.bytes, vec![12u8; 32]);
    assert_eq!(snapshot.liquidity_fee_vault.bytes, vec![13u8; 32]);
    assert_eq!(snapshot.collateral_mint.bytes, vec![14u8; 32]);
    assert_eq!(snapshot.collateral_supply_vault.bytes, vec![15u8; 32]);
    assert_eq!(snapshot.pyth_oracle.bytes, vec![16u8; 32]);
    assert_eq!(snapshot.switchboard_price_oracle.bytes, vec![17u8; 32]);
    assert_eq!(snapshot.switchboard_twap_oracle.bytes, vec![18u8; 32]);
    assert_eq!(snapshot.scope_prices.bytes, vec![19u8; 32]);
}

#[test]
fn missing_account_is_not_found() {
    assert!(matches!(read_reserve(None), Err(ClientError::AccountNotFound)));
    assert!(matches!(read_obligation(None), Err(ClientError::AccountNotFound)));
    assert!(matches!(read_lending_market(None), Err(ClientError::AccountNotFound)));
}

#[test]
fn wrong_length_is_a_decode_error() {
    let mut bytes = reserve_bytes();
    bytes.pop();
    assert!(matches!(read_reserve(Some(bytes)), Err(ClientError::DecodeError)));
}

#[test]
fn wrong_discriminator_is_a_decode_error() {
    let mut bytes = reserve_bytes();
    bytes[..8].copy_from_slice(&discriminator(b"Obligation"));
    assert!(matches!(read_reserve(Some(bytes)), Err(ClientError::DecodeError)));
}

#[test]
fn obligation_slots_decode_in_order() {
    let mut bytes = vec![0u8; 3344];
    bytes[..8].copy_from_slice(&discriminator(b"Obligation"));
    plant(&mut bytes, 32, 10);
    plant(&mut bytes, 64, 1);
    plant(&mut bytes, 96, 40);
    plant(&mut bytes, 96 + 136, 41);
    plant(&mut bytes, 1208, 42);
    plant(&mut bytes, 2288, 7);
    let snapshot = read_obligation(Some(bytes)).unwrap();
    assert_eq!(snapshot.lending_market.bytes, vec![10u8; 32]);
    assert_eq!(snapshot.owner.bytes, vec![1u8; 32]);
    assert_eq!(snapshot.deposits.len(), 8);
    assert_eq!(snapshot.borrows.len(), 5);
    assert_eq!(snapshot.deposits[0].bytes, vec![40u8; 32]);
    assert_eq!(snapshot.deposits[1].bytes, vec![41u8; 32]);
    assert_eq!(snapshot.deposits[2].bytes, vec![0u8; 32]);
    assert_eq!(snapshot.borrows[0].bytes, vec![42u8; 32]);
    assert_eq!(snapshot.referrer.bytes, vec![7u8; 32]);
}

#[test]
fn lending_market_decodes_owner_and_quote_currency() {
    let mut bytes = vec![0u8; 4664];
    bytes[..8].copy_from_slice(&discriminator(b"LendingMarket"));
    plant(&mut bytes, 24, 9);
    bytes[88] = b'U';
    bytes[89] = b'S';
    bytes[90] = b'D';
    let snapshot = read_lending_market(Some(bytes)).unwrap();
    assert_eq!(snapshot.owner.bytes, vec![9u8; 32]);
    assert_eq!(&snapshot.quote_currency[..3], b"USD");
    assert_eq!(snapshot.quote_currency.len(), 32);
}
