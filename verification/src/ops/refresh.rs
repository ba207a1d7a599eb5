//! Refreshing reserve prices and position valuations.

use vstd::prelude::*;
use vstd::string::*;

use crate::address::Address;
use crate::address::zero_address;
use crate::codec::MaxReservesAsCollateralCheck;
use crate::codec::encode_no_args;
use crate::codec::reserves_check_tag;
use crate::context::ClientContext;
use crate::context::CtxV;
use crate::digest::discriminator_of;
use crate::digest::op_discriminator;
use crate::errors::ClientError;
use crate::instruction::AccountRef;
use crate::instruction::AccountRefV;
use crate::instruction::Instruction;
use crate::instruction::InstructionV;
use crate::instruction::acct;
use crate::instruction::accounts_view;
use crate::instruction::push_account;
use crate::resolve::remaining_accounts;
use crate::resolve::remaining_accounts_spec;
use crate::snapshots::ObligationSnapV;
use crate::snapshots::ObligationSnapshot;
use crate::snapshots::ReserveSnapV;
use crate::snapshots::ReserveSnapshot;

verus! {

/// An optional oracle slot: included read-only when the snapshot field is
/// set, omitted from the list entirely when it holds the zero address.
pub open spec fn oracle_slot(address: Seq<u8>) -> Seq<AccountRefV> {
    if address == zero_address() {
        Seq::empty()
    } else {
        seq![acct(address, false, false)]
    }
}

/// What `refresh_reserve` assembles: the fixed head, then the configured
/// price oracles in the fixed order.
pub open spec fn refresh_reserve_spec(
    ctx: CtxV,
    reserve_address: Seq<u8>,
    reserve: ReserveSnapV,
) -> Result<InstructionV, ClientError> {
    if reserve.lending_market == zero_address() {
        Err(ClientError::MissingDependency)
    } else {
        Ok(
            InstructionV {
                program: ctx.program_id,
                accounts: seq![
                    (acct(reserve_address, false, true)),
                    (acct(reserve.lending_market, false, false)),
                ] + oracle_slot(reserve.pyth_oracle) + oracle_slot(reserve.switchboard_price_oracle)
                    + oracle_slot(reserve.switchboard_twap_oracle) + oracle_slot(
                    reserve.scope_prices,
                ),
                payload: discriminator_of("refresh_reserve".spec_bytes()),
            },
        )
    }
}

/// What `refresh_obligation` assembles: the fixed head, then one read-only
/// unsigned entry per deposit reserve, borrow reserve and referrer token
/// state of the position, zero entries skipped.
pub open spec fn refresh_obligation_spec(
    ctx: CtxV,
    obligation: Seq<u8>,
    position: ObligationSnapV,
    referrer_states: Seq<Seq<u8>>,
    check: MaxReservesAsCollateralCheck,
) -> Result<InstructionV, ClientError> {
    if position.lending_market == zero_address() {
        Err(ClientError::MissingDependency)
    } else {
        Ok(
            InstructionV {
                program: ctx.program_id,
                accounts: seq![
                    (acct(obligation, false, true)),
                    (acct(position.lending_market, false, false)),
                ] + remaining_accounts_spec(position.deposits, position.borrows, referrer_states),
                payload: discriminator_of("refresh_obligation".spec_bytes()) + seq![
                    reserves_check_tag(check),
                ],
            },
        )
    }
}

impl ClientContext {
    /// Resolves and builds the reserve refresh, appending only the price
    /// oracles the reserve is configured with.
    pub fn refresh_reserve(&self, reserve_address: &Address, reserve: &ReserveSnapshot) -> (r:
        Result<Instruction, ClientError>)
        requires
            self.wf(),
            reserve_address.wf(),
            reserve.wf(),
        ensures
            (r matches Ok(ix) ==> refresh_reserve_spec(self@, reserve_address@, reserve@) == Ok::<
                InstructionV,
                ClientError,
            >(ix@) && ix.wf()),
            (r matches Err(e) ==> refresh_reserve_spec(self@, reserve_address@, reserve@) == Err::<
                InstructionV,
                ClientError,
            >(e)),
    {
        if reserve.lending_market.is_zero() {
            return Err(ClientError::MissingDependency);
        }
        let mut accounts: Vec<AccountRef> = Vec::new();
        push_account(&mut accounts, reserve_address.dup(), false, true);
        push_account(&mut accounts, reserve.lending_market.dup(), false, false);
        if !reserve.pyth_oracle.is_zero() {
            push_account(&mut accounts, reserve.pyth_oracle.dup(), false, false);
        }
        if !reserve.switchboard_price_oracle.is_zero() {
            push_account(&mut accounts, reserve.switchboard_price_oracle.dup(), false, false);
        }
        if !reserve.switchboard_twap_oracle.is_zero() {
            push_account(&mut accounts, reserve.switchboard_twap_oracle.dup(), false, false);
        }
        if !reserve.scope_prices.is_zero() {
            push_account(&mut accounts, reserve.scope_prices.dup(), false, false);
        }
        let disc = op_discriminator("refresh_reserve");
        let payload = encode_no_args(&disc);
        let ix = Instruction { program: self.program_id.dup(), accounts, payload };
        proof {
            let spec_ix = refresh_reserve_spec(self@, reserve_address@, reserve@);
            assert(spec_ix matches Ok(v) && ix@.accounts =~= v.accounts);
            assert(spec_ix matches Ok(v) && ix@ =~= v);
        }
        Ok(ix)
    }

    /// Resolves and builds the position refresh, appending the position's
    /// deposit reserves, then its borrow reserves, then the given referrer
    /// token states.
    pub fn refresh_obligation(
        &self,
        obligation: &Address,
        position: &ObligationSnapshot,
        referrer_states: &Vec<Address>,
        check: MaxReservesAsCollateralCheck,
    ) -> (r: Result<Instruction, ClientError>)
        requires
            self.wf(),
            obligation.wf(),
            position.wf(),
            forall|i: int| 0 <= i < referrer_states@.len() ==> (#[trigger] referrer_states@[i]).wf(),
        ensures
            (r matches Ok(ix) ==> refresh_obligation_spec(
                self@,
                obligation@,
                position@,
                referrer_states.deep_view(),
                check,
            ) == Ok::<InstructionV, ClientError>(ix@) && ix.wf()),
            (r matches Err(e) ==> refresh_obligation_spec(
                self@,
                obligation@,
                position@,
                referrer_states.deep_view(),
                check,
            ) == Err::<InstructionV, ClientError>(e)),
    {
        if position.lending_market.is_zero() {
            return Err(ClientError::MissingDependency);
        }
        let mut accounts: Vec<AccountRef> = Vec::new();
        push_account(&mut accounts, obligation.dup(), false, true);
        push_account(&mut accounts, position.lending_market.dup(), false, false);
        let trailing = remaining_accounts(&position.deposits, &position.borrows, referrer_states);
        let ghost head = accounts_view(accounts@);
        let n = trailing.len();
        for i in 0..n
            invariant
                n == trailing@.len(),
                accounts_view(accounts@) == head + accounts_view(trailing@).take(i as int),
                forall|j: int| 0 <= j < trailing@.len() ==> (#[trigger] trailing@[j]).wf(),
                forall|j: int| 0 <= j < accounts@.len() ==> (#[trigger] accounts@[j]).wf(),
        {
            push_account(
                &mut accounts,
                trailing[i].address.dup(),
                trailing[i].is_signer,
                trailing[i].is_writable,
            );
            proof {
                assert(accounts_view(trailing@)[i as int] == trailing@[i as int]@);
                assert(accounts_view(accounts@) =~= head + accounts_view(trailing@).take(i + 1));
            }
        }
        proof {
            assert(accounts_view(trailing@).take(n as int) =~= accounts_view(trailing@));
        }
        let disc = op_discriminator("refresh_obligation");
        let mut payload = encode_no_args(&disc);
        payload.push(reserves_check_byte(check));
        let ix = Instruction { program: self.program_id.dup(), accounts, payload };
        proof {
            let spec_ix = refresh_obligation_spec(
                self@,
                obligation@,
                position@,
                referrer_states.deep_view(),
                check,
            );
            assert(spec_ix matches Ok(v) && ix@.payload =~= v.payload);
            assert(spec_ix matches Ok(v) && ix@.accounts =~= v.accounts);
            assert(spec_ix matches Ok(v) && ix@ =~= v);
        }
        Ok(ix)
    }
}

/// The wire byte of the collateral-reserve count check.
pub fn reserves_check_byte(check: MaxReservesAsCollateralCheck) -> (r: u8)
    ensures
        r == reserves_check_tag(check),
{
    match check {
        MaxReservesAsCollateralCheck::Perform => 0,
        MaxReservesAsCollateralCheck::Skip => 1,
    }
}

} // verus!
