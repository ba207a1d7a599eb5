//! Wrapping instructions into a transaction with its signer set.

use klend_client::address::Address;
use klend_client::context::ClientContext;
use klend_client::fees::estimate_transaction_fee;
use klend_client::snapshots::{ObligationSnapshot, ReserveSnapshot};
use klend_client::transaction::Transaction;

fn addr(fill: u8) -> Address {
    Address { bytes: vec![fill; 32] }
}

fn ctx() -> ClientContext {
    ClientContext::new(addr(1)).expect("context addresses decode")
}

fn reserve_snapshot() -> ReserveSnapshot {
    ReserveSnapshot {
        lending_market: addr(10),
        liquidity_mint: addr(11),
        liquidity_supply_vault: addr(12),
        liquidity_fee_vault: addr(13),
        collateral_mint: addr(14),
        collateral_supply_vault: addr(15),
        pyth_oracle: addr(16),
        switchboard_price_oracle: addr(17),
        switchboard_twap_oracle: addr(18),
        scope_prices: addr(19),
    }
}

#[test]
fn the_signer_set_is_distinct_and_complete() {
    let c = ctx();
    let market = addr(33);
    let create = c.init_lending_market(&market, &vec![0u8; 32]).unwrap();
    let position = ObligationSnapshot {
        lending_market: addr(10),
        owner: addr(1),
        deposits: vec![],
        borrows: vec![],
        referrer: Address::zero(),
    };
    let borrow = c
        .borrow_obligation_liquidity(&addr(30), &position, &addr(31), &reserve_snapshot(), &None, 5)
        .unwrap();
    let tx = Transaction::assemble(&c, vec![create, borrow], vec![7u8; 32]);
    assert_eq!(tx.fee_payer.bytes, vec![1u8; 32]);
    assert_eq!(tx.recent_anchor, vec![7u8; 32]);
    // The payer signs both instructions but appears once; the fresh
    // market key signs the creation.
    assert_eq!(tx.signers.len(), 2);
    assert_eq!(tx.signers[0].bytes, vec![1u8; 32]);
    assert_eq!(tx.signers[1].bytes, vec![33u8; 32]);
    assert_eq!(tx.signature_count(), 2);
    assert_eq!(estimate_transaction_fee(tx.signature_count(), Some(500)), 100_010_000);
}

#[test]
fn an_empty_transaction_still_needs_the_fee_payer() {
    let c = ctx();
    let tx = Transaction::assemble(&c, Vec::new(), vec![0u8; 32]);
    assert_eq!(tx.signers.len(), 1);
    assert_eq!(tx.signers[0].bytes, c.payer.bytes);
}
