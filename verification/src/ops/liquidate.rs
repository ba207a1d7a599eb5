//! Liquidating an unhealthy position.

use vstd::prelude::*;
use vstd::string::*;

use crate::address::Address;
use crate::address::zero_address;
use crate::codec::encode_u64x3_args;
use crate::codec::le64;
use crate::context::ClientContext;
use crate::context::CtxV;
use crate::digest::discriminator_of;
use crate::digest::op_discriminator;
use crate::errors::ClientError;
use crate::instruction::AccountRef;
use crate::instruction::Instruction;
use crate::instruction::InstructionV;
use crate::instruction::acct;
use crate::instruction::push_account;
use crate::ops::common::derive_market_authority;
use crate::ops::common::market_authority_spec;
use crate::resolve::append_non_zero;
use crate::resolve::non_zero_accounts;
use crate::snapshots::ObligationSnapV;
use crate::snapshots::ObligationSnapshot;
use crate::snapshots::ReserveSnapV;
use crate::snapshots::ReserveSnapshot;
use crate::token::derive_token_account;
use crate::token::token_account_spec;

verus! {

/// What `liquidate_obligation_and_redeem_reserve_collateral` assembles:
/// the fixed head, then one read-only unsigned entry per deposit reserve
/// of the position, zero slots skipped.
pub open spec fn liquidate_spec(
    ctx: CtxV,
    obligation: Seq<u8>,
    position: ObligationSnapV,
    repay_reserve: Seq<u8>,
    repay: ReserveSnapV,
    withdraw_reserve: Seq<u8>,
    withdraw: ReserveSnapV,
    liquidity_amount: u64,
    min_acceptable_received_liquidity_amount: u64,
    max_allowed_ltv_override_percent: u64,
) -> Result<InstructionV, ClientError> {
    if position.lending_market == zero_address() || repay.liquidity_mint == zero_address()
        || repay.liquidity_supply_vault == zero_address() || withdraw.liquidity_mint
        == zero_address() || withdraw.collateral_mint == zero_address()
        || withdraw.collateral_supply_vault == zero_address() || withdraw.liquidity_supply_vault
        == zero_address() || withdraw.liquidity_fee_vault == zero_address() {
        Err(ClientError::MissingDependency)
    } else {
        match market_authority_spec(ctx, position.lending_market) {
            Err(e) => Err(e),
            Ok(authority) => match token_account_spec(ctx, ctx.payer, repay.liquidity_mint) {
                Err(e) => Err(e),
                Ok(source) => match token_account_spec(ctx, ctx.payer, withdraw.collateral_mint) {
                    Err(e) => Err(e),
                    Ok(coll_destination) => match token_account_spec(
                        ctx,
                        ctx.payer,
                        withdraw.liquidity_mint,
                    ) {
                        Err(e) => Err(e),
                        Ok(liq_destination) => Ok(
                            InstructionV {
                                program: ctx.program_id,
                                accounts: seq![
                                    (acct(ctx.payer, true, false)),
                                    (acct(obligation, false, true)),
                                    (acct(position.lending_market, false, false)),
                                    (acct(authority.0, false, false)),
                                    (acct(repay_reserve, false, true)),
                                    (acct(repay.liquidity_mint, false, false)),
                                    (acct(repay.liquidity_supply_vault, false, true)),
                                    (acct(withdraw_reserve, false, true)),
                                    (acct(withdraw.liquidity_mint, false, false)),
                                    (acct(withdraw.collateral_mint, false, true)),
                                    (acct(withdraw.collateral_supply_vault, false, true)),
                                    (acct(withdraw.liquidity_supply_vault, false, true)),
                                    (acct(withdraw.liquidity_fee_vault, false, true)),
                                    (acct(source.0, false, true)),
                                    (acct(coll_destination.0, false, true)),
                                    (acct(liq_destination.0, false, true)),
                                    (acct(ctx.token_program, false, false)),
                                    (acct(ctx.token_2022_program, false, false)),
                                    (acct(ctx.token_2022_program, false, false)),
                                    (acct(ctx.instructions_sysvar, false, false)),
                                ] + non_zero_accounts(position.deposits),
                                payload: discriminator_of(
                                    "liquidate_obligation_and_redeem_reserve_collateral".spec_bytes(),
                                ) + le64(liquidity_amount) + le64(
                                    min_acceptable_received_liquidity_amount,
                                ) + le64(max_allowed_ltv_override_percent),
                            },
                        ),
                    },
                },
            },
        }
    }
}

impl ClientContext {
    /// Resolves and builds the liquidation: repay up to
    /// `liquidity_amount` of the position's debt and redeem the seized
    /// collateral, appending the position's deposit reserves as the
    /// trailing account list.
    pub fn liquidate_obligation_and_redeem_reserve_collateral(
        &self,
        obligation: &Address,
        position: &ObligationSnapshot,
        repay_reserve: &Address,
        repay: &ReserveSnapshot,
        withdraw_reserve: &Address,
        withdraw: &ReserveSnapshot,
        liquidity_amount: u64,
        min_acceptable_received_liquidity_amount: u64,
        max_allowed_ltv_override_percent: u64,
    ) -> (r: Result<Instruction, ClientError>)
        requires
            self.wf(),
            obligation.wf(),
            position.wf(),
            repay_reserve.wf(),
            repay.wf(),
            withdraw_reserve.wf(),
            withdraw.wf(),
        ensures
            (r matches Ok(ix) ==> liquidate_spec(
                self@,
                obligation@,
                position@,
                repay_reserve@,
                repay@,
                withdraw_reserve@,
                withdraw@,
                liquidity_amount,
                min_acceptable_received_liquidity_amount,
                max_allowed_ltv_override_percent,
            ) == Ok::<InstructionV, ClientError>(ix@) && ix.wf()),
            (r matches Err(e) ==> liquidate_spec(
                self@,
                obligation@,
                position@,
                repay_reserve@,
                repay@,
                withdraw_reserve@,
                withdraw@,
                liquidity_amount,
                min_acceptable_received_liquidity_amount,
                max_allowed_ltv_override_percent,
            ) == Err::<InstructionV, ClientError>(e)),
    {
        if position.lending_market.is_zero() || repay.liquidity_mint.is_zero()
            || repay.liquidity_supply_vault.is_zero() || withdraw.liquidity_mint.is_zero()
            || withdraw.collateral_mint.is_zero() || withdraw.collateral_supply_vault.is_zero()
            || withdraw.liquidity_supply_vault.is_zero() || withdraw.liquidity_fee_vault.is_zero() {
            return Err(ClientError::MissingDependency);
        }
        let (authority, _authority_bump) = match derive_market_authority(
            self,
            &position.lending_market,
        ) {
            Ok(p) => p,
            Err(e) => {
                return Err(e);
            },
        };
        let (source, _source_bump) = match derive_token_account(
            self,
            &self.payer,
            &repay.liquidity_mint,
        ) {
            Ok(p) => p,
            Err(e) => {
                return Err(e);
            },
        };
        let (coll_destination, _coll_bump) = match derive_token_account(
            self,
            &self.payer,
            &withdraw.collateral_mint,
        ) {
            Ok(p) => p,
            Err(e) => {
                return Err(e);
            },
        };
        let (liq_destination, _liq_bump) = match derive_token_account(
            self,
            &self.payer,
            &withdraw.liquidity_mint,
        ) {
            Ok(p) => p,
            Err(e) => {
                return Err(e);
            },
        };
        let mut accounts: Vec<AccountRef> = Vec::new();
        push_account(&mut accounts, self.payer.dup(), true, false);
        push_account(&mut accounts, obligation.dup(), false, true);
        push_account(&mut accounts, position.lending_market.dup(), false, false);
        push_account(&mut accounts, authority, false, false);
        push_account(&mut accounts, repay_reserve.dup(), false, true);
        push_account(&mut accounts, repay.liquidity_mint.dup(), false, false);
        push_account(&mut accounts, repay.liquidity_supply_vault.dup(), false, true);
        push_account(&mut accounts, withdraw_reserve.dup(), false, true);
        push_account(&mut accounts, withdraw.liquidity_mint.dup(), false, false);
        push_account(&mut accounts, withdraw.collateral_mint.dup(), false, true);
        push_account(&mut accounts, withdraw.collateral_supply_vault.dup(), false, true);
        push_account(&mut accounts, withdraw.liquidity_supply_vault.dup(), false, true);
        push_account(&mut accounts, withdraw.liquidity_fee_vault.dup(), false, true);
        push_account(&mut accounts, source, false, true);
        push_account(&mut accounts, coll_destination, false, true);
        push_account(&mut accounts, liq_destination, false, true);
        push_account(&mut accounts, self.token_program.dup(), false, false);
        push_account(&mut accounts, self.token_2022_program.dup(), false, false);
        push_account(&mut accounts, self.token_2022_program.dup(), false, false);
        push_account(&mut accounts, self.instructions_sysvar.dup(), false, false);
        append_non_zero(&mut accounts, &position.deposits);
        let disc = op_discriminator("liquidate_obligation_and_redeem_reserve_collateral");
        let payload = encode_u64x3_args(
            &disc,
            liquidity_amount,
            min_acceptable_received_liquidity_amount,
            max_allowed_ltv_override_percent,
        );
        let ix = Instruction { program: self.program_id.dup(), accounts, payload };
        proof {
            let spec_ix = liquidate_spec(
                self@,
                obligation@,
                position@,
                repay_reserve@,
                repay@,
                withdraw_reserve@,
                withdraw@,
                liquidity_amount,
                min_acceptable_received_liquidity_amount,
                max_allowed_ltv_override_percent,
            );
            assert(spec_ix matches Ok(v) && ix@.accounts =~= v.accounts);
            assert(spec_ix matches Ok(v) && ix@ =~= v);
        }
        Ok(ix)
    }
}

} // verus!
