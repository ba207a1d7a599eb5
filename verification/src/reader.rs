//! Decoding fetched account bytes into snapshots.
//!
//! The transport hands each fetch over as `Some(bytes)` or `None` (the
//! account does not exist). A decoder checks the account kind's 8-byte
//! discriminator and the exact account length, and reads the snapshot
//! fields at their fixed offsets in the zero-copy layout; any mismatch is
//! a `DecodeError`, the version-incompatibility signal.

use vstd::prelude::*;
use vstd::string::*;

use crate::address::Address;
use crate::address::lemma_deep_view_push;
use crate::codec::has_prefix;
use crate::digest::account_discriminator;
use crate::digest::account_discriminator_of;
use crate::errors::ClientError;
use crate::snapshots::LendingMarketSnapV;
use crate::snapshots::LendingMarketSnapshot;
use crate::snapshots::ObligationSnapV;
use crate::snapshots::ObligationSnapshot;
use crate::snapshots::ReserveSnapV;
use crate::snapshots::ReserveSnapshot;

verus! {

/// The exact length of a reserve account.
pub const RESERVE_ACCOUNT_LEN: usize = 8624;

/// The exact length of a position account.
pub const OBLIGATION_ACCOUNT_LEN: usize = 3344;

/// The exact length of a lending market account.
pub const LENDING_MARKET_ACCOUNT_LEN: usize = 4664;

/// The deposit slots of a position account.
pub const OBLIGATION_DEPOSIT_SLOTS: usize = 8;

/// The borrow slots of a position account.
pub const OBLIGATION_BORROW_SLOTS: usize = 5;

/// The 32 bytes of `data` that start at `at`.
pub open spec fn field_at(data: Seq<u8>, at: int) -> Seq<u8> {
    data.subrange(at, at + 32)
}

/// Reads the 32 bytes at `at` as an address.
fn read_address_at(data: &Vec<u8>, at: usize) -> (r: Address)
    requires
        at + 32 <= data@.len(),
    ensures
        r@ == field_at(data@, at as int),
        r.wf(),
{
    let len = data.len();
    let mut bytes: Vec<u8> = Vec::new();
    for i in 0..32usize
        invariant
            len == data@.len(),
            at + 32 <= len,
            bytes@ == data@.subrange(at as int, at as int + i),
    {
        bytes.push(data[at + i]);
        proof {
            assert(bytes@ =~= data@.subrange(at as int, at as int + i + 1));
        }
    }
    Address { bytes }
}

/// What reading a fetched reserve account yields.
pub open spec fn read_reserve_spec(data: Option<Seq<u8>>) -> Result<ReserveSnapV, ClientError> {
    match data {
        Option::None => Err(ClientError::AccountNotFound),
        Option::Some(b) => {
            if b.len() == 8624 && b.take(8) == account_discriminator_of("Reserve".spec_bytes()) {
                Ok(
                    ReserveSnapV {
                        lending_market: field_at(b, 32),
                        liquidity_mint: field_at(b, 128),
                        liquidity_supply_vault: field_at(b, 160),
                        liquidity_fee_vault: field_at(b, 192),
                        collateral_mint: field_at(b, 2560),
                        collateral_supply_vault: field_at(b, 2600),
                        scope_prices: field_at(b, 5112),
                        switchboard_price_oracle: field_at(b, 5160),
                        switchboard_twap_oracle: field_at(b, 5192),
                        pyth_oracle: field_at(b, 5224),
                    },
                )
            } else {
                Err(ClientError::DecodeError)
            }
        },
    }
}

/// Decodes a fetched reserve account into its snapshot.
pub fn read_reserve(data: Option<Vec<u8>>) -> (r: Result<ReserveSnapshot, ClientError>)
    ensures
        (r matches Ok(s) ==> read_reserve_spec(data.deep_view()) == Ok::<
            ReserveSnapV,
            ClientError,
        >(s@) && s.wf()),
        (r matches Err(e) ==> read_reserve_spec(data.deep_view()) == Err::<
            ReserveSnapV,
            ClientError,
        >(e)),
{
    let ghost dv = data.deep_view();
    let bytes = match data {
        Some(b) => b,
        None => {
            return Err(ClientError::AccountNotFound);
        },
    };
    proof {
        assert(bytes.deep_view() =~= bytes@);
        assert(dv == Some(bytes@));
    }
    if bytes.len() != RESERVE_ACCOUNT_LEN {
        return Err(ClientError::DecodeError);
    }
    let disc = account_discriminator("Reserve");
    if !has_prefix(&bytes, &disc) {
        return Err(ClientError::DecodeError);
    }
    Ok(
        ReserveSnapshot {
            lending_market: read_address_at(&bytes, 32),
            liquidity_mint: read_address_at(&bytes, 128),
            liquidity_supply_vault: read_address_at(&bytes, 160),
            liquidity_fee_vault: read_address_at(&bytes, 192),
            collateral_mint: read_address_at(&bytes, 2560),
            collateral_supply_vault: read_address_at(&bytes, 2600),
            scope_prices: read_address_at(&bytes, 5112),
            switchboard_price_oracle: read_address_at(&bytes, 5160),
            switchboard_twap_oracle: read_address_at(&bytes, 5192),
            pyth_oracle: read_address_at(&bytes, 5224),
        },
    )
}

/// The deposit-reserve addresses of the position's fixed slot array.
pub open spec fn deposit_slots_spec(b: Seq<u8>) -> Seq<Seq<u8>> {
    Seq::new(8, |i: int| field_at(b, 96 + 136 * i))
}

/// The borrow-reserve addresses of the position's fixed slot array.
pub open spec fn borrow_slots_spec(b: Seq<u8>) -> Seq<Seq<u8>> {
    Seq::new(5, |i: int| field_at(b, 1208 + 200 * i))
}

/// What reading a fetched position account yields.
pub open spec fn read_obligation_spec(data: Option<Seq<u8>>) -> Result<
    ObligationSnapV,
    ClientError,
> {
    match data {
        Option::None => Err(ClientError::AccountNotFound),
        Option::Some(b) => {
            if b.len() == 3344 && b.take(8) == account_discriminator_of(
                "Obligation".spec_bytes(),
            ) {
                Ok(
                    ObligationSnapV {
                        lending_market: field_at(b, 32),
                        owner: field_at(b, 64),
                        deposits: deposit_slots_spec(b),
                        borrows: borrow_slots_spec(b),
                        referrer: field_at(b, 2288),
                    },
                )
            } else {
                Err(ClientError::DecodeError)
            }
        },
    }
}

/// Decodes a fetched position account into its snapshot. Unused slots keep
/// their zero address; resolution skips them.
pub fn read_obligation(data: Option<Vec<u8>>) -> (r: Result<ObligationSnapshot, ClientError>)
    ensures
        (r matches Ok(s) ==> read_obligation_spec(data.deep_view()) == Ok::<
            ObligationSnapV,
            ClientError,
        >(s@) && s.wf()),
        (r matches Err(e) ==> read_obligation_spec(data.deep_view()) == Err::<
            ObligationSnapV,
            ClientError,
        >(e)),
{
    let ghost dv = data.deep_view();
    let bytes = match data {
        Some(b) => b,
        None => {
            return Err(ClientError::AccountNotFound);
        },
    };
    proof {
        assert(bytes.deep_view() =~= bytes@);
        assert(dv == Some(bytes@));
    }
    if bytes.len() != OBLIGATION_ACCOUNT_LEN {
        return Err(ClientError::DecodeError);
    }
    let disc = account_discriminator("Obligation");
    if !has_prefix(&bytes, &disc) {
        return Err(ClientError::DecodeError);
    }
    let mut deposits: Vec<Address> = Vec::new();
    for i in 0..OBLIGATION_DEPOSIT_SLOTS
        invariant
            bytes@.len() == 3344,
            deposits.deep_view() == deposit_slots_spec(bytes@).take(i as int),
            forall|j: int| 0 <= j < deposits@.len() ==> #[trigger] deposits@[j].wf(),
    {
        let a = read_address_at(&bytes, 96 + 136 * i);
        let ghost prev = deposits;
        deposits.push(a);
        proof {
            lemma_deep_view_push(prev, deposits, a);
            assert(deposits.deep_view() =~= deposit_slots_spec(bytes@).take(i + 1));
        }
    }
    let mut borrows: Vec<Address> = Vec::new();
    for i in 0..OBLIGATION_BORROW_SLOTS
        invariant
            bytes@.len() == 3344,
            borrows.deep_view() == borrow_slots_spec(bytes@).take(i as int),
            forall|j: int| 0 <= j < borrows@.len() ==> #[trigger] borrows@[j].wf(),
    {
        let a = read_address_at(&bytes, 1208 + 200 * i);
        let ghost prev = borrows;
        borrows.push(a);
        proof {
            lemma_deep_view_push(prev, borrows, a);
            assert(borrows.deep_view() =~= borrow_slots_spec(bytes@).take(i + 1));
        }
    }
    proof {
        assert(deposits.deep_view() =~= deposit_slots_spec(bytes@));
        assert(borrows.deep_view() =~= borrow_slots_spec(bytes@));
    }
    Ok(
        ObligationSnapshot {
            lending_market: read_address_at(&bytes, 32),
            owner: read_address_at(&bytes, 64),
            deposits,
            borrows,
            referrer: read_address_at(&bytes, 2288),
        },
    )
}

/// What reading a fetched lending market account yields.
pub open spec fn read_lending_market_spec(data: Option<Seq<u8>>) -> Result<
    LendingMarketSnapV,
    ClientError,
> {
    match data {
        Option::None => Err(ClientError::AccountNotFound),
        Option::Some(b) => {
            if b.len() == 4664 && b.take(8) == account_discriminator_of(
                "LendingMarket".spec_bytes(),
            ) {
                Ok(
                    LendingMarketSnapV {
                        owner: field_at(b, 24),
                        quote_currency: b.subrange(88, 120),
                    },
                )
            } else {
                Err(ClientError::DecodeError)
            }
        },
    }
}

/// Decodes a fetched lending market account into its snapshot.
pub fn read_lending_market(data: Option<Vec<u8>>) -> (r: Result<
    LendingMarketSnapshot,
    ClientError,
>)
    ensures
        (r matches Ok(s) ==> read_lending_market_spec(data.deep_view()) == Ok::<
            LendingMarketSnapV,
            ClientError,
        >(s@) && s.wf()),
        (r matches Err(e) ==> read_lending_market_spec(data.deep_view()) == Err::<
            LendingMarketSnapV,
            ClientError,
        >(e)),
{
    let ghost dv = data.deep_view();
    let bytes = match data {
        Some(b) => b,
        None => {
            return Err(ClientError::AccountNotFound);
        },
    };
    proof {
        assert(bytes.deep_view() =~= bytes@);
        assert(dv == Some(bytes@));
    }
    if bytes.len() != LENDING_MARKET_ACCOUNT_LEN {
        return Err(ClientError::DecodeError);
    }
    let disc = account_discriminator("LendingMarket");
    if !has_prefix(&bytes, &disc) {
        return Err(ClientError::DecodeError);
    }
    let owner = read_address_at(&bytes, 24);
    let quote = read_address_at(&bytes, 88);
    Ok(LendingMarketSnapshot { owner, quote_currency: quote.bytes })
}

} // verus!
