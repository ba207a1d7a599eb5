//! Snapshots of remote account state.
//!
//! A snapshot holds, as plain values, exactly the fields that account
//! resolution reads. Snapshots are fetched on demand, consumed immediately
//! and discarded: nothing caches them across operations.

use vstd::prelude::*;

use crate::address::Address;

verus! {

/// The fields of a reserve account that resolution reads.
pub struct ReserveSnapshot {
    pub lending_market: Address,
    pub liquidity_mint: Address,
    pub liquidity_supply_vault: Address,
    pub liquidity_fee_vault: Address,
    pub collateral_mint: Address,
    pub collateral_supply_vault: Address,
    pub pyth_oracle: Address,
    pub switchboard_price_oracle: Address,
    pub switchboard_twap_oracle: Address,
    pub scope_prices: Address,
}

/// The mathematical value of a `ReserveSnapshot`.
#[verifier::ext_equal]
pub ghost struct ReserveSnapV {
    pub lending_market: Seq<u8>,
    pub liquidity_mint: Seq<u8>,
    pub liquidity_supply_vault: Seq<u8>,
    pub liquidity_fee_vault: Seq<u8>,
    pub collateral_mint: Seq<u8>,
    pub collateral_supply_vault: Seq<u8>,
    pub pyth_oracle: Seq<u8>,
    pub switchboard_price_oracle: Seq<u8>,
    pub switchboard_twap_oracle: Seq<u8>,
    pub scope_prices: Seq<u8>,
}

impl View for ReserveSnapshot {
    type V = ReserveSnapV;

    open spec fn view(&self) -> ReserveSnapV {
        ReserveSnapV {
            lending_market: self.lending_market@,
            liquidity_mint: self.liquidity_mint@,
            liquidity_supply_vault: self.liquidity_supply_vault@,
            liquidity_fee_vault: self.liquidity_fee_vault@,
            collateral_mint: self.collateral_mint@,
            collateral_supply_vault: self.collateral_supply_vault@,
            pyth_oracle: self.pyth_oracle@,
            switchboard_price_oracle: self.switchboard_price_oracle@,
            switchboard_twap_oracle: self.switchboard_twap_oracle@,
            scope_prices: self.scope_prices@,
        }
    }
}

impl ReserveSnapshot {
    pub open spec fn wf(&self) -> bool {
        &&& self.lending_market.wf()
        &&& self.liquidity_mint.wf()
        &&& self.liquidity_supply_vault.wf()
        &&& self.liquidity_fee_vault.wf()
        &&& self.collateral_mint.wf()
        &&& self.collateral_supply_vault.wf()
        &&& self.pyth_oracle.wf()
        &&& self.switchboard_price_oracle.wf()
        &&& self.switchboard_twap_oracle.wf()
        &&& self.scope_prices.wf()
    }
}

/// The fields of a position account that resolution reads: its market, its
/// owner, and the reserve of every deposit and borrow slot (zero where the
/// slot is unused).
pub struct ObligationSnapshot {
    pub lending_market: Address,
    pub owner: Address,
    pub deposits: Vec<Address>,
    pub borrows: Vec<Address>,
    pub referrer: Address,
}

/// The mathematical value of an `ObligationSnapshot`.
#[verifier::ext_equal]
pub ghost struct ObligationSnapV {
    pub lending_market: Seq<u8>,
    pub owner: Seq<u8>,
    pub deposits: Seq<Seq<u8>>,
    pub borrows: Seq<Seq<u8>>,
    pub referrer: Seq<u8>,
}

impl View for ObligationSnapshot {
    type V = ObligationSnapV;

    open spec fn view(&self) -> ObligationSnapV {
        ObligationSnapV {
            lending_market: self.lending_market@,
            owner: self.owner@,
            deposits: self.deposits.deep_view(),
            borrows: self.borrows.deep_view(),
            referrer: self.referrer@,
        }
    }
}

impl ObligationSnapshot {
    pub open spec fn wf(&self) -> bool {
        &&& self.lending_market.wf()
        &&& self.owner.wf()
        &&& (forall|i: int| 0 <= i < self.deposits@.len() ==> #[trigger] self.deposits@[i].wf())
        &&& (forall|i: int| 0 <= i < self.borrows@.len() ==> #[trigger] self.borrows@[i].wf())
        &&& self.referrer.wf()
    }
}

/// The fields of a lending market account that resolution reads.
pub struct LendingMarketSnapshot {
    pub owner: Address,
    pub quote_currency: Vec<u8>,
}

/// The mathematical value of a `LendingMarketSnapshot`.
#[verifier::ext_equal]
pub ghost struct LendingMarketSnapV {
    pub owner: Seq<u8>,
    pub quote_currency: Seq<u8>,
}

impl View for LendingMarketSnapshot {
    type V = LendingMarketSnapV;

    open spec fn view(&self) -> LendingMarketSnapV {
        LendingMarketSnapV { owner: self.owner@, quote_currency: self.quote_currency@ }
    }
}

impl LendingMarketSnapshot {
    pub open spec fn wf(&self) -> bool {
        self.owner.wf() && self.quote_currency@.len() == 32
    }
}

} // verus!
