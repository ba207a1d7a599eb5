//! Borrowing liquidity against a position.

use vstd::prelude::*;
use vstd::string::*;

use crate::address::Address;
use crate::address::zero_address;
use crate::codec::encode_u64_arg;
use crate::codec::le64;
use crate::context::ClientContext;
use crate::context::CtxV;
use crate::digest::discriminator_of;
use crate::digest::op_discriminator;
use crate::errors::ClientError;
use crate::instruction::AccountRef;
use crate::instruction::Instruction;
use crate::instruction::InstructionV;
use crate::instruction::acct;
use crate::instruction::push_account;
use crate::ops::common::derive_market_authority;
use crate::ops::common::market_authority_spec;
use crate::ops::common::optional_account;
use crate::ops::common::push_optional;
use crate::snapshots::ObligationSnapV;
use crate::snapshots::ObligationSnapshot;
use crate::snapshots::ReserveSnapV;
use crate::snapshots::ReserveSnapshot;
use crate::token::derive_token_account;
use crate::token::token_account_spec;

verus! {

/// What `borrow_obligation_liquidity` assembles.
pub open spec fn borrow_obligation_liquidity_spec(
    ctx: CtxV,
    obligation: Seq<u8>,
    position: ObligationSnapV,
    borrow_reserve: Seq<u8>,
    reserve: ReserveSnapV,
    referrer_token_state: Option<Seq<u8>>,
    liquidity_amount: u64,
) -> Result<InstructionV, ClientError> {
    if position.lending_market == zero_address() || reserve.liquidity_mint == zero_address()
        || reserve.liquidity_supply_vault == zero_address() || reserve.liquidity_fee_vault
        == zero_address() {
        Err(ClientError::MissingDependency)
    } else {
        match market_authority_spec(ctx, position.lending_market) {
            Err(e) => Err(e),
            Ok(authority) => match token_account_spec(ctx, ctx.payer, reserve.liquidity_mint) {
                Err(e) => Err(e),
                Ok(destination) => Ok(
                    InstructionV {
                        program: ctx.program_id,
                        accounts: seq![
                            (acct(ctx.payer, true, false)),
                            (acct(obligation, false, true)),
                            (acct(position.lending_market, false, false)),
                            (acct(authority.0, false, false)),
                            (acct(borrow_reserve, false, true)),
                            (acct(reserve.liquidity_mint, false, false)),
                            (acct(reserve.liquidity_supply_vault, false, true)),
                            (acct(reserve.liquidity_fee_vault, false, true)),
                            (acct(destination.0, false, true)),
                        ] + optional_account(referrer_token_state, true) + seq![
                            (acct(ctx.token_2022_program, false, false)),
                            (acct(ctx.instructions_sysvar, false, false)),
                        ],
                        payload: discriminator_of("borrow_obligation_liquidity".spec_bytes())
                            + le64(liquidity_amount),
                    },
                ),
            },
        }
    }
}

impl ClientContext {
    /// Resolves and builds the borrow operation: `liquidity_amount` is
    /// drawn from `borrow_reserve` into the owner's token account.
    pub fn borrow_obligation_liquidity(
        &self,
        obligation: &Address,
        position: &ObligationSnapshot,
        borrow_reserve: &Address,
        reserve: &ReserveSnapshot,
        referrer_token_state: &Option<Address>,
        liquidity_amount: u64,
    ) -> (r: Result<Instruction, ClientError>)
        requires
            self.wf(),
            obligation.wf(),
            position.wf(),
            borrow_reserve.wf(),
            reserve.wf(),
            (referrer_token_state matches Some(a) ==> a.wf()),
        ensures
            (r matches Ok(ix) ==> borrow_obligation_liquidity_spec(
                self@,
                obligation@,
                position@,
                borrow_reserve@,
                reserve@,
                referrer_token_state.deep_view(),
                liquidity_amount,
            ) == Ok::<InstructionV, ClientError>(ix@) && ix.wf()),
            (r matches Err(e) ==> borrow_obligation_liquidity_spec(
                self@,
                obligation@,
                position@,
                borrow_reserve@,
                reserve@,
                referrer_token_state.deep_view(),
                liquidity_amount,
            ) == Err::<InstructionV, ClientError>(e)),
    {
        if position.lending_market.is_zero() || reserve.liquidity_mint.is_zero()
            || reserve.liquidity_supply_vault.is_zero() || reserve.liquidity_fee_vault.is_zero() {
            return Err(ClientError::MissingDependency);
        }
        let (authority, _authority_bump) = match derive_market_authority(
            self,
            &position.lending_market,
        ) {
            Ok(p) => p,
            Err(e) => {
                return Err(e);
            },
        };
        let (destination, _destination_bump) = match derive_token_account(
            self,
            &self.payer,
            &reserve.liquidity_mint,
        ) {
            Ok(p) => p,
            Err(e) => {
                return Err(e);
            },
        };
        let mut accounts: Vec<AccountRef> = Vec::new();
        push_account(&mut accounts, self.payer.dup(), true, false);
        push_account(&mut accounts, obligation.dup(), false, true);
        push_account(&mut accounts, position.lending_market.dup(), false, false);
        push_account(&mut accounts, authority, false, false);
        push_account(&mut accounts, borrow_reserve.dup(), false, true);
        push_account(&mut accounts, reserve.liquidity_mint.dup(), false, false);
        push_account(&mut accounts, reserve.liquidity_supply_vault.dup(), false, true);
        push_account(&mut accounts, reserve.liquidity_fee_vault.dup(), false, true);
        push_account(&mut accounts, destination, false, true);
        push_optional(&mut accounts, referrer_token_state, true);
        push_account(&mut accounts, self.token_2022_program.dup(), false, false);
        push_account(&mut accounts, self.instructions_sysvar.dup(), false, false);
        let disc = op_discriminator("borrow_obligation_liquidity");
        let payload = encode_u64_arg(&disc, liquidity_amount);
        let ix = Instruction { program: self.program_id.dup(), accounts, payload };
        proof {
            let spec_ix = borrow_obligation_liquidity_spec(
                self@,
                obligation@,
                position@,
                borrow_reserve@,
                reserve@,
                referrer_token_state.deep_view(),
                liquidity_amount,
            );
            assert(spec_ix matches Ok(v) && ix@.accounts =~= v.accounts);
            assert(spec_ix matches Ok(v) && ix@ =~= v);
        }
        Ok(ix)
    }
}

} // verus!
