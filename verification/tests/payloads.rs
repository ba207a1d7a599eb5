//! Payload encodings: discriminators against an independent digest, the
//! round trips, and the compute budget requests.

use klend_client::codec::{
    decode_bytes32_arg, decode_no_args, decode_u64_arg, decode_u64_tag_args, decode_u64x3_args,
    decode_u8x2_args, encode_bytes32_arg, encode_no_args, encode_u64_arg, encode_u64_tag_args,
    encode_u64x3_args, encode_u8x2_args,
};
use klend_client::address::Address;
use klend_client::context::ClientContext;
use klend_client::digest::{account_discriminator, op_discriminator};
use klend_client::errors::ClientError;
use klend_client::fees::{create_compute_budget_ix, estimate_transaction_fee};
use anchor_lang::Discriminator;
use anchor_lang::InstructionData;
use sha2::Digest;

fn addr(fill: u8) -> Address {
    Address { bytes: vec![fill; 32] }
}

fn ctx() -> ClientContext {
    ClientContext::new(addr(1)).expect("context addresses decode")
}

fn sha256_prefix(preimage: &[u8]) -> Vec<u8> {
    let mut hasher = sha2::Sha256::new();
    hasher.update(preimage);
    hasher.finalize()[..8].to_vec()
}

#[test]
fn op_discriminators_match_independent_digest() {
    assert_eq!(
        op_discriminator("borrow_obligation_liquidity"),
        sha256_prefix(b"global:borrow_obligation_liquidity")
    );
    assert_eq!(op_discriminator("refresh_reserve"), sha256_prefix(b"global:refresh_reserve"));
    assert_eq!(op_discriminator("init_reserve"), sha256_prefix(b"global:init_reserve"));
}

#[test]
fn account_discriminators_match_independent_digest() {
    assert_eq!(account_discriminator("Reserve"), sha256_prefix(b"account:Reserve"));
    assert_eq!(account_discriminator("Obligation"), sha256_prefix(b"account:Obligation"));
    assert_eq!(account_discriminator("LendingMarket"), sha256_prefix(b"account:LendingMarket"));
}

#[test]
fn amount_payload_round_trips_at_boundaries() {
    let disc = op_discriminator("repay_obligation_liquidity");
    for amount in [0u64, 1, 7_777_777, u64::MAX] {
        let payload = encode_u64_arg(&disc, amount);
        assert_eq!(payload.len(), 16);
        assert_eq!(payload[..8], disc[..]);
        assert_eq!(payload[8..], amount.to_le_bytes());
        assert_eq!(decode_u64_arg(&disc, &payload), Ok(amount));
    }
}

#[test]
fn tagged_amount_payload_round_trips() {
    let disc = op_discriminator("withdraw_obligation_collateral");
    for (amount, tag) in [(0u64, 0u8), (u64::MAX, 1u8), (42, 0)] {
        let payload = encode_u64_tag_args(&disc, amount, tag);
        assert_eq!(payload.len(), 17);
        assert_eq!(decode_u64_tag_args(&disc, &payload), Ok((amount, tag)));
    }
}

#[test]
fn triple_amount_payload_round_trips() {
    let disc = op_discriminator("liquidate_obligation_and_redeem_reserve_collateral");
    let payload = encode_u64x3_args(&disc, u64::MAX, 0, 55);
    assert_eq!(payload.len(), 32);
    assert_eq!(decode_u64x3_args(&disc, &payload), Ok((u64::MAX, 0, 55)));
}

#[test]
fn byte_pair_payload_round_trips() {
    let disc = op_discriminator("init_obligation");
    let payload = encode_u8x2_args(&disc, 0, 255);
    assert_eq!(payload.len(), 10);
    assert_eq!(decode_u8x2_args(&disc, &payload), Ok((0, 255)));
}

#[test]
fn raw_bytes_payload_round_trips() {
    let disc = op_discriminator("init_lending_market");
    let quote = vec![0xabu8; 32];
    let payload = encode_bytes32_arg(&disc, &quote);
    assert_eq!(payload.len(), 40);
    assert_eq!(decode_bytes32_arg(&disc, &payload), Ok(quote));
}

#[test]
fn empty_payload_round_trips() {
    let disc = op_discriminator("redeem_fees");
    let payload = encode_no_args(&disc);
    assert_eq!(payload, disc);
    assert_eq!(decode_no_args(&disc, &payload), Ok(()));
}

#[test]
fn decoders_reject_foreign_payloads() {
    let disc = op_discriminator("repay_obligation_liquidity");
    let other = op_discriminator("borrow_obligation_liquidity");
    let payload = encode_u64_arg(&other, 5);
    assert_eq!(decode_u64_arg(&disc, &payload), Err(ClientError::DecodeError));
    let short = encode_no_args(&disc);
    assert_eq!(decode_u64_arg(&disc, &short), Err(ClientError::DecodeError));
    assert_eq!(decode_no_args(&disc, &payload), Err(ClientError::DecodeError));
}

#[test]
fn discriminators_match_the_generated_program_crate() {
    assert_eq!(
        op_discriminator("init_lending_market")[..],
        klend::instruction::InitLendingMarket::DISCRIMINATOR[..]
    );
    assert_eq!(
        op_discriminator("borrow_obligation_liquidity")[..],
        klend::instruction::BorrowObligationLiquidity::DISCRIMINATOR[..]
    );
    assert_eq!(
        op_discriminator("refresh_obligation")[..],
        klend::instruction::RefreshObligation::DISCRIMINATOR[..]
    );
    assert_eq!(
        op_discriminator("liquidate_obligation_and_redeem_reserve_collateral")[..],
        klend::instruction::LiquidateObligationAndRedeemReserveCollateral::DISCRIMINATOR[..]
    );
}

#[test]
fn amount_payload_matches_the_generated_encoding() {
    let disc = op_discriminator("repay_obligation_liquidity");
    let payload = encode_u64_arg(&disc, 12345);
    let reference =
        klend::instruction::RepayObligationLiquidity { _liquidity_amount: 12345 }.data();
    assert_eq!(payload, reference);
}

#[test]
fn estimate_with_default_price() {
    assert_eq!(estimate_transaction_fee(1, None), 5000 + 200000 * 1000);
}

#[test]
fn estimate_with_explicit_price() {
    assert_eq!(estimate_transaction_fee(2, Some(500)), 100_010_000);
}

#[test]
fn compute_budget_requests_hold_the_documented_bytes() {
    let c = ctx();
    let ixs = create_compute_budget_ix(&c, 400_000, 50);
    assert_eq!(ixs.len(), 2);
    assert_eq!(ixs[0].program.bytes, c.compute_budget_program.bytes);
    assert!(ixs[0].accounts.is_empty());
    let mut limit_bytes = vec![2u8];
    limit_bytes.extend_from_slice(&400_000u32.to_le_bytes());
    assert_eq!(ixs[0].payload, limit_bytes);
    let mut price_bytes = vec![3u8];
    price_bytes.extend_from_slice(&50u64.to_le_bytes());
    assert_eq!(ixs[1].payload, price_bytes);
}

#[test]
fn compute_budget_requests_skip_zero_arguments() {
    let c = ctx();
    assert_eq!(create_compute_budget_ix(&c, 0, 0).len(), 0);
    let only_limit = create_compute_budget_ix(&c, 1, 0);
    assert_eq!(only_limit.len(), 1);
    assert_eq!(only_limit[0].payload[0], 2);
    let only_price = create_compute_budget_ix(&c, 0, 1);
    assert_eq!(only_price.len(), 1);
    assert_eq!(only_price[0].payload[0], 3);
}
