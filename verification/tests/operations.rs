//! The per-operation builders: account order, flags, optional slots and
//! trailing lists, cross-checked against the reference derivations.

use klend_client::address::Address;
use klend_client::codec::{LtvMaxWithdrawalCheck, MaxReservesAsCollateralCheck};
use klend_client::context::ClientContext;
use klend_client::errors::ClientError;
use klend_client::snapshots::{ObligationSnapshot, ReserveSnapshot};
use klend_client::token::get_or_create_ata_ix;
use sha2::Digest;
use solana_pubkey::Pubkey;

fn addr(fill: u8) -> Address {
    Address { bytes: vec![fill; 32] }
}

fn zero() -> Address {
    Address { bytes: vec![0u8; 32] }
}

fn ctx() -> ClientContext {
    ClientContext::new(addr(1)).expect("context addresses decode")
}

fn reserve_snapshot() -> ReserveSnapshot {
    ReserveSnapshot {
        lending_market: addr(10),
        liquidity_mint: addr(11),
        liquidity_supply_vault: addr(12),
        liquidity_fee_vault: addr(13),
        collateral_mint: addr(14),
        collateral_supply_vault: addr(15),
        pyth_oracle: addr(16),
        switchboard_price_oracle: addr(17),
        switchboard_twap_oracle: addr(18),
        scope_prices: addr(19),
    }
}

fn position_snapshot(deposits: Vec<Address>, borrows: Vec<Address>) -> ObligationSnapshot {
    ObligationSnapshot {
        lending_market: addr(10),
        owner: addr(1),
        deposits,
        borrows,
        referrer: zero(),
    }
}

fn market_authority(c: &ClientContext, market: &Address) -> Vec<u8> {
    let program = Pubkey::try_from(c.program_id.bytes.as_slice()).unwrap();
    let (authority, _) =
        Pubkey::find_program_address(&[b"lma", market.bytes.as_slice()], &program);
    authority.to_bytes().to_vec()
}

fn ata(wallet: &Address, mint: &Address) -> Vec<u8> {
    let w = Pubkey::try_from(wallet.bytes.as_slice()).unwrap();
    let m = Pubkey::try_from(mint.bytes.as_slice()).unwrap();
    spl_associated_token_account::get_associated_token_address(&w, &m).to_bytes().to_vec()
}

fn sha256_prefix(preimage: &[u8]) -> Vec<u8> {
    let mut hasher = sha2::Sha256::new();
    hasher.update(preimage);
    hasher.finalize()[..8].to_vec()
}

#[test]
fn borrow_assembles_the_documented_schema() {
    let c = ctx();
    let reserve = reserve_snapshot();
    let position = position_snapshot(vec![], vec![]);
    let ix = c
        .borrow_obligation_liquidity(&addr(30), &position, &addr(31), &reserve, &None, 1234)
        .unwrap();
    assert_eq!(ix.program.bytes, c.program_id.bytes);
    assert_eq!(ix.accounts.len(), 11);
    assert_eq!(ix.accounts[0].address.bytes, c.payer.bytes);
    assert!(ix.accounts[0].is_signer && !ix.accounts[0].is_writable);
    assert_eq!(ix.accounts[1].address.bytes, addr(30).bytes);
    assert!(!ix.accounts[1].is_signer && ix.accounts[1].is_writable);
    assert_eq!(ix.accounts[2].address.bytes, addr(10).bytes);
    assert_eq!(ix.accounts[3].address.bytes, market_authority(&c, &addr(10)));
    assert_eq!(ix.accounts[4].address.bytes, addr(31).bytes);
    assert_eq!(ix.accounts[5].address.bytes, addr(11).bytes);
    assert_eq!(ix.accounts[6].address.bytes, addr(12).bytes);
    assert_eq!(ix.accounts[7].address.bytes, addr(13).bytes);
    assert_eq!(ix.accounts[8].address.bytes, ata(&c.payer, &reserve.liquidity_mint));
    assert_eq!(ix.accounts[9].address.bytes, c.token_2022_program.bytes);
    assert_eq!(ix.accounts[10].address.bytes, c.instructions_sysvar.bytes);
    assert_eq!(ix.payload[..8], sha256_prefix(b"global:borrow_obligation_liquidity")[..]);
    assert_eq!(ix.payload[8..], 1234u64.to_le_bytes());
}

#[test]
fn borrow_includes_a_present_referrer_slot() {
    let c = ctx();
    let reserve = reserve_snapshot();
    let position = position_snapshot(vec![], vec![]);
    let referrer = Some(addr(77));
    let ix = c
        .borrow_obligation_liquidity(&addr(30), &position, &addr(31), &reserve, &referrer, 1)
        .unwrap();
    assert_eq!(ix.accounts.len(), 12);
    assert_eq!(ix.accounts[9].address.bytes, addr(77).bytes);
    assert!(!ix.accounts[9].is_signer && ix.accounts[9].is_writable);
}

#[test]
fn borrow_requires_the_snapshot_fields_it_uses() {
    let c = ctx();
    let mut reserve = reserve_snapshot();
    reserve.liquidity_mint = zero();
    let position = position_snapshot(vec![], vec![]);
    let r = c.borrow_obligation_liquidity(&addr(30), &position, &addr(31), &reserve, &None, 1);
    assert!(matches!(r, Err(ClientError::MissingDependency)));
}

#[test]
fn refresh_obligation_appends_deposits_then_borrows() {
    let c = ctx();
    let a = addr(40);
    let b = addr(41);
    let borrowed = addr(42);
    let position = position_snapshot(vec![a, b], vec![borrowed]);
    let ix = c
        .refresh_obligation(
            &addr(30),
            &position,
            &Vec::new(),
            MaxReservesAsCollateralCheck::Perform,
        )
        .unwrap();
    assert_eq!(ix.accounts.len(), 5);
    assert_eq!(ix.accounts[0].address.bytes, addr(30).bytes);
    assert!(ix.accounts[0].is_writable);
    assert_eq!(ix.accounts[1].address.bytes, addr(10).bytes);
    assert_eq!(ix.accounts[2].address.bytes, addr(40).bytes);
    assert_eq!(ix.accounts[3].address.bytes, addr(41).bytes);
    assert_eq!(ix.accounts[4].address.bytes, addr(42).bytes);
    for trailing in &ix.accounts[2..] {
        assert!(!trailing.is_signer && !trailing.is_writable);
    }
    assert_eq!(ix.payload[..8], sha256_prefix(b"global:refresh_obligation")[..]);
    assert_eq!(ix.payload[8..], [0u8]);
}

#[test]
fn refresh_obligation_skips_zero_slots() {
    let c = ctx();
    let position = position_snapshot(vec![addr(40), zero(), addr(41)], vec![zero()]);
    let ix = c
        .refresh_obligation(
            &addr(30),
            &position,
            &Vec::new(),
            MaxReservesAsCollateralCheck::Perform,
        )
        .unwrap();
    assert_eq!(ix.accounts.len(), 4);
    assert_eq!(ix.accounts[2].address.bytes, addr(40).bytes);
    assert_eq!(ix.accounts[3].address.bytes, addr(41).bytes);
}

#[test]
fn refresh_reserve_omits_unset_oracles() {
    let c = ctx();
    let mut reserve = reserve_snapshot();
    reserve.pyth_oracle = zero();
    reserve.switchboard_twap_oracle = zero();
    reserve.scope_prices = zero();
    let ix = c.refresh_reserve(&addr(20), &reserve).unwrap();
    assert_eq!(ix.accounts.len(), 3);
    assert_eq!(ix.accounts[0].address.bytes, addr(20).bytes);
    assert_eq!(ix.accounts[1].address.bytes, addr(10).bytes);
    assert_eq!(ix.accounts[2].address.bytes, addr(17).bytes);
    assert!(!ix.accounts[2].is_signer && !ix.accounts[2].is_writable);
}

#[test]
fn refresh_reserve_includes_configured_oracles_in_order() {
    let c = ctx();
    let reserve = reserve_snapshot();
    let ix = c.refresh_reserve(&addr(20), &reserve).unwrap();
    assert_eq!(ix.accounts.len(), 6);
    assert_eq!(ix.accounts[2].address.bytes, addr(16).bytes);
    assert_eq!(ix.accounts[3].address.bytes, addr(17).bytes);
    assert_eq!(ix.accounts[4].address.bytes, addr(18).bytes);
    assert_eq!(ix.accounts[5].address.bytes, addr(19).bytes);
}

#[test]
fn liquidate_appends_only_non_zero_deposit_reserves() {
    let c = ctx();
    let repay = reserve_snapshot();
    let mut withdraw = reserve_snapshot();
    withdraw.liquidity_mint = addr(50);
    withdraw.collateral_mint = addr(51);
    let position = position_snapshot(vec![addr(60), zero(), addr(61)], vec![]);
    let ix = c
        .liquidate_obligation_and_redeem_reserve_collateral(
            &addr(30),
            &position,
            &addr(31),
            &repay,
            &addr(32),
            &withdraw,
            1000,
            900,
            0,
        )
        .unwrap();
    assert_eq!(ix.accounts.len(), 22);
    assert_eq!(ix.accounts[20].address.bytes, addr(60).bytes);
    assert_eq!(ix.accounts[21].address.bytes, addr(61).bytes);
    assert_eq!(ix.payload.len(), 32);
    assert_eq!(ix.payload[8..16], 1000u64.to_le_bytes());
    assert_eq!(ix.payload[16..24], 900u64.to_le_bytes());
    assert_eq!(ix.payload[24..32], 0u64.to_le_bytes());
}

#[test]
fn withdraw_carries_the_check_tag() {
    let c = ctx();
    let reserve = reserve_snapshot();
    let position = position_snapshot(vec![], vec![]);
    let ix = c
        .withdraw_obligation_collateral(
            &addr(30),
            &position,
            &addr(31),
            &reserve,
            77,
            LtvMaxWithdrawalCheck::Perform,
        )
        .unwrap();
    assert_eq!(ix.accounts.len(), 9);
    assert_eq!(ix.payload.len(), 17);
    assert_eq!(ix.payload[8..16], 77u64.to_le_bytes());
    assert_eq!(ix.payload[16], 0);
}

#[test]
fn deposit_reserve_liquidity_resolves_both_token_accounts() {
    let c = ctx();
    let reserve = reserve_snapshot();
    let ix = c.deposit_reserve_liquidity(&addr(20), &reserve, 5).unwrap();
    assert_eq!(ix.accounts.len(), 12);
    assert_eq!(ix.accounts[7].address.bytes, ata(&c.payer, &reserve.liquidity_mint));
    assert_eq!(ix.accounts[8].address.bytes, ata(&c.payer, &reserve.collateral_mint));
}

#[test]
fn init_lending_market_rejects_short_quote_currency() {
    let c = ctx();
    let r = c.init_lending_market(&addr(30), &vec![1u8; 16]);
    assert!(matches!(r, Err(ClientError::InvalidArgument)));
}

#[test]
fn init_lending_market_embeds_the_quote_currency() {
    let c = ctx();
    let quote = vec![9u8; 32];
    let ix = c.init_lending_market(&addr(30), &quote).unwrap();
    assert_eq!(ix.accounts.len(), 5);
    assert!(ix.accounts[1].is_signer && ix.accounts[1].is_writable);
    assert_eq!(ix.payload[8..], quote[..]);
}

#[test]
fn init_obligation_derives_the_position_address() {
    let c = ctx();
    let ix = c.init_obligation(&addr(10), &addr(1), 0, 3, &zero(), &zero()).unwrap();
    let program = Pubkey::try_from(c.program_id.bytes.as_slice()).unwrap();
    let (expected, _) = Pubkey::find_program_address(
        &[&[0u8], &[3u8], &[1u8; 32], &[10u8; 32], &[0u8; 32], &[0u8; 32]],
        &program,
    );
    assert_eq!(ix.accounts[2].address.bytes, expected.to_bytes().to_vec());
    assert_eq!(ix.payload[8..], [0u8, 3u8]);
}

#[test]
fn init_reserve_derives_the_reserve_accounts() {
    let c = ctx();
    let ix = c.init_reserve(&addr(10), &addr(33), &addr(11)).unwrap();
    assert_eq!(ix.accounts.len(), 14);
    let program = Pubkey::try_from(c.program_id.bytes.as_slice()).unwrap();
    let (liq_supply, _) = Pubkey::find_program_address(
        &[b"reserve_liq_supply", &[10u8; 32], &[11u8; 32]],
        &program,
    );
    let (fee_receiver, _) =
        Pubkey::find_program_address(&[b"fee_receiver", &[10u8; 32], &[11u8; 32]], &program);
    assert_eq!(ix.accounts[5].address.bytes, liq_supply.to_bytes().to_vec());
    assert_eq!(ix.accounts[6].address.bytes, fee_receiver.to_bytes().to_vec());
    assert!(ix.accounts[3].is_signer && ix.accounts[3].is_writable);
    assert_eq!(ix.payload.len(), 8);
}

#[test]
fn init_user_metadata_omits_an_absent_referrer() {
    let c = ctx();
    let without = c.init_user_metadata(&addr(1), &addr(2), &None).unwrap();
    assert_eq!(without.accounts.len(), 5);
    let with = c.init_user_metadata(&addr(1), &addr(2), &Some(addr(3))).unwrap();
    assert_eq!(with.accounts.len(), 6);
    assert_eq!(with.accounts[3].address.bytes, addr(3).bytes);
    assert_eq!(with.payload[8..], [2u8; 32]);
}

#[test]
fn ata_helper_matches_the_reference_builder() {
    let c = ctx();
    let wallet = addr(5);
    let mint = addr(6);
    let (account, ix) = get_or_create_ata_ix(&c, &wallet, &mint).unwrap();
    assert_eq!(account.bytes, ata(&wallet, &mint));
    let ix = ix.expect("creation request prepared");
    let reference = spl_associated_token_account::instruction::create_associated_token_account(
        &Pubkey::from([1u8; 32]),
        &Pubkey::from([5u8; 32]),
        &Pubkey::from([6u8; 32]),
        &spl_token::id(),
    );
    assert_eq!(ix.program.bytes, reference.program_id.to_bytes().to_vec());
    assert_eq!(ix.payload, reference.data);
    assert_eq!(ix.accounts.len(), reference.accounts.len());
    for (ours, theirs) in ix.accounts.iter().zip(reference.accounts.iter()) {
        assert_eq!(ours.address.bytes, theirs.pubkey.to_bytes().to_vec());
        assert_eq!(ours.is_signer, theirs.is_signer);
        assert_eq!(ours.is_writable, theirs.is_writable);
    }
}

#[test]
fn repay_and_redeem_schemas_have_the_documented_sizes() {
    let c = ctx();
    let reserve = reserve_snapshot();
    let position = position_snapshot(vec![], vec![]);
    let repay = c
        .repay_obligation_liquidity(&addr(30), &position, &addr(31), &reserve, 9)
        .unwrap();
    assert_eq!(repay.accounts.len(), 8);
    let redeem = c.redeem_reserve_collateral(&addr(20), &reserve, 9).unwrap();
    assert_eq!(redeem.accounts.len(), 12);
    let fees = c.redeem_fees(&addr(20), &reserve).unwrap();
    assert_eq!(fees.accounts.len(), 7);
    assert_eq!(fees.payload[..], sha256_prefix(b"global:redeem_fees")[..]);
    let combined = c
        .withdraw_obligation_collateral_and_redeem_reserve_collateral(
            &addr(30),
            &position,
            &addr(31),
            &reserve,
            5,
            LtvMaxWithdrawalCheck::Skip,
        )
        .unwrap();
    assert_eq!(combined.accounts.len(), 13);
    assert_eq!(combined.payload[16], 1);
    let both = c
        .deposit_reserve_liquidity_and_obligation_collateral(
            &addr(30),
            &position,
            &addr(20),
            &reserve,
            &None,
            5,
        )
        .unwrap();
    assert_eq!(both.accounts.len(), 13);
    let pledge = c
        .deposit_obligation_collateral(&addr(30), &position, &addr(31), &reserve, 5)
        .unwrap();
    assert_eq!(pledge.accounts.len(), 8);
}
