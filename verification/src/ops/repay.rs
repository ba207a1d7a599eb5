//! Repaying borrowed liquidity.

use vstd::prelude::*;
use vstd::string::*;

use crate::address::Address;
use crate::address::zero_address;
use crate::codec::encode_u64_arg;
use crate::codec::le64;
use crate::context::ClientContext;
use crate::context::CtxV;
use crate::digest::discriminator_of;
use crate::digest::op_discriminator;
use crate::errors::ClientError;
use crate::instruction::AccountRef;
use crate::instruction::Instruction;
use crate::instruction::InstructionV;
use crate::instruction::acct;
use crate::instruction::push_account;
use crate::snapshots::ObligationSnapV;
use crate::snapshots::ObligationSnapshot;
use crate::snapshots::ReserveSnapV;
use crate::snapshots::ReserveSnapshot;
use crate::token::derive_token_account;
use crate::token::token_account_spec;

verus! {

/// What `repay_obligation_liquidity` assembles.
pub open spec fn repay_obligation_liquidity_spec(
    ctx: CtxV,
    obligation: Seq<u8>,
    position: ObligationSnapV,
    repay_reserve: Seq<u8>,
    reserve: ReserveSnapV,
    liquidity_amount: u64,
) -> Result<InstructionV, ClientError> {
    if position.lending_market == zero_address() || reserve.liquidity_mint == zero_address()
        || reserve.liquidity_supply_vault == zero_address() {
        Err(ClientError::MissingDependency)
    } else {
        match token_account_spec(ctx, ctx.payer, reserve.liquidity_mint) {
            Err(e) => Err(e),
            Ok(source) => Ok(
                InstructionV {
                    program: ctx.program_id,
                    accounts: seq![
                        (acct(ctx.payer, true, false)),
                        (acct(obligation, false, true)),
                        (acct(position.lending_market, false, false)),
                        (acct(repay_reserve, false, true)),
                        (acct(source.0, false, true)),
                        (acct(reserve.liquidity_supply_vault, false, true)),
                        (acct(ctx.token_2022_program, false, false)),
                        (acct(ctx.instructions_sysvar, false, false)),
                    ],
                    payload: discriminator_of("repay_obligation_liquidity".spec_bytes()) + le64(
                        liquidity_amount,
                    ),
                },
            ),
        }
    }
}

impl ClientContext {
    /// Resolves and builds the repayment: `liquidity_amount` moves from
    /// the owner's token account back into the reserve's supply vault.
    pub fn repay_obligation_liquidity(
        &self,
        obligation: &Address,
        position: &ObligationSnapshot,
        repay_reserve: &Address,
        reserve: &ReserveSnapshot,
        liquidity_amount: u64,
    ) -> (r: Result<Instruction, ClientError>)
        requires
            self.wf(),
            obligation.wf(),
            position.wf(),
            repay_reserve.wf(),
            reserve.wf(),
        ensures
            (r matches Ok(ix) ==> repay_obligation_liquidity_spec(
                self@,
                obligation@,
                position@,
                repay_reserve@,
                reserve@,
                liquidity_amount,
            ) == Ok::<InstructionV, ClientError>(ix@) && ix.wf()),
            (r matches Err(e) ==> repay_obligation_liquidity_spec(
                self@,
                obligation@,
                position@,
                repay_reserve@,
                reserve@,
                liquidity_amount,
            ) == Err::<InstructionV, ClientError>(e)),
    {
        if position.lending_market.is_zero() || reserve.liquidity_mint.is_zero()
            || reserve.liquidity_supply_vault.is_zero() {
            return Err(ClientError::MissingDependency);
        }
        let (source, _source_bump) = match derive_token_account(
            self,
            &self.payer,
            &reserve.liquidity_mint,
        ) {
            Ok(p) => p,
            Err(e) => {
                return Err(e);
            },
        };
        let mut accounts: Vec<AccountRef> = Vec::new();
        push_account(&mut accounts, self.payer.dup(), true, false);
        push_account(&mut accounts, obligation.dup(), false, true);
        push_account(&mut accounts, position.lending_market.dup(), false, false);
        push_account(&mut accounts, repay_reserve.dup(), false, true);
        push_account(&mut accounts, source, false, true);
        push_account(&mut accounts, reserve.liquidity_supply_vault.dup(), false, true);
        push_account(&mut accounts, self.token_2022_program.dup(), false, false);
        push_account(&mut accounts, self.instructions_sysvar.dup(), false, false);
        let disc = op_discriminator("repay_obligation_liquidity");
        let payload = encode_u64_arg(&disc, liquidity_amount);
        let ix = Instruction { program: self.program_id.dup(), accounts, payload };
        proof {
            let spec_ix = repay_obligation_liquidity_spec(
                self@,
                obligation@,
                position@,
                repay_reserve@,
                reserve@,
                liquidity_amount,
            );
            assert(spec_ix matches Ok(v) && ix@.accounts =~= v.accounts);
            assert(spec_ix matches Ok(v) && ix@ =~= v);
        }
        Ok(ix)
    }
}

} // verus!
