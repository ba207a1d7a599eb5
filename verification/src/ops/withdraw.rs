//! Withdrawing pledged collateral.

use vstd::prelude::*;
use vstd::string::*;

use crate::address::Address;
use crate::address::zero_address;
use crate::codec::LtvMaxWithdrawalCheck;
use crate::codec::encode_u64_tag_args;
use crate::codec::le64;
use crate::codec::ltv_check_tag;
use crate::context::ClientContext;
use crate::context::CtxV;
use crate::digest::discriminator_of;
use crate::digest::op_discriminator;
use crate::errors::ClientError;
use crate::instruction::AccountRef;
use crate::instruction::Instruction;
use crate::instruction::InstructionV;
use crate::instruction::acct;
use crate::instruction::push_account;
use crate::ops::common::derive_market_authority;
use crate::ops::common::market_authority_spec;
use crate::snapshots::ObligationSnapV;
use crate::snapshots::ObligationSnapshot;
use crate::snapshots::ReserveSnapV;
use crate::snapshots::ReserveSnapshot;
use crate::token::derive_token_account;
use crate::token::token_account_spec;

verus! {

/// What `withdraw_obligation_collateral` assembles.
pub open spec fn withdraw_obligation_collateral_spec(
    ctx: CtxV,
    obligation: Seq<u8>,
    position: ObligationSnapV,
    withdraw_reserve: Seq<u8>,
    reserve: ReserveSnapV,
    collateral_amount: u64,
    check: LtvMaxWithdrawalCheck,
) -> Result<InstructionV, ClientError> {
    if position.lending_market == zero_address() || reserve.collateral_mint == zero_address()
        || reserve.collateral_supply_vault == zero_address() {
        Err(ClientError::MissingDependency)
    } else {
        match market_authority_spec(ctx, position.lending_market) {
            Err(e) => Err(e),
            Ok(authority) => match token_account_spec(ctx, ctx.payer, reserve.collateral_mint) {
                Err(e) => Err(e),
                Ok(destination) => Ok(
                    InstructionV {
                        program: ctx.program_id,
                        accounts: seq![
                            (acct(ctx.payer, true, false)),
                            (acct(obligation, false, true)),
                            (acct(position.lending_market, false, false)),
                            (acct(authority.0, false, false)),
                            (acct(withdraw_reserve, false, false)),
                            (acct(reserve.collateral_supply_vault, false, true)),
                            (acct(destination.0, false, true)),
                            (acct(ctx.token_program, false, false)),
                            (acct(ctx.instructions_sysvar, false, false)),
                        ],
                        payload: discriminator_of("withdraw_obligation_collateral".spec_bytes())
                            + le64(collateral_amount) + seq![ltv_check_tag(check)],
                    },
                ),
            },
        }
    }
}

/// What `withdraw_obligation_collateral_and_redeem_reserve_collateral`
/// assembles.
pub open spec fn withdraw_and_redeem_spec(
    ctx: CtxV,
    obligation: Seq<u8>,
    position: ObligationSnapV,
    withdraw_reserve: Seq<u8>,
    reserve: ReserveSnapV,
    collateral_amount: u64,
    check: LtvMaxWithdrawalCheck,
) -> Result<InstructionV, ClientError> {
    if position.lending_market == zero_address() || reserve.collateral_mint == zero_address()
        || reserve.liquidity_mint == zero_address() || reserve.collateral_supply_vault
        == zero_address() || reserve.liquidity_supply_vault == zero_address() {
        Err(ClientError::MissingDependency)
    } else {
        match market_authority_spec(ctx, position.lending_market) {
            Err(e) => Err(e),
            Ok(authority) => match token_account_spec(ctx, ctx.payer, reserve.collateral_mint) {
                Err(e) => Err(e),
                Ok(coll_destination) => match token_account_spec(
                    ctx,
                    ctx.payer,
                    reserve.liquidity_mint,
                ) {
                    Err(e) => Err(e),
                    Ok(liq_destination) => Ok(
                        InstructionV {
                            program: ctx.program_id,
                            accounts: seq![
                                (acct(ctx.payer, true, false)),
                                (acct(obligation, false, true)),
                                (acct(position.lending_market, false, false)),
                                (acct(authority.0, false, false)),
                                (acct(withdraw_reserve, false, true)),
                                (acct(reserve.collateral_mint, false, true)),
                                (acct(reserve.collateral_supply_vault, false, true)),
                                (acct(reserve.liquidity_supply_vault, false, true)),
                                (acct(coll_destination.0, false, true)),
                                (acct(liq_destination.0, false, true)),
                                (acct(ctx.token_program, false, false)),
                                (acct(ctx.token_2022_program, false, false)),
                                (acct(ctx.instructions_sysvar, false, false)),
                            ],
                            payload: discriminator_of(
                                "withdraw_obligation_collateral_and_redeem_reserve_collateral".spec_bytes(),
                            ) + le64(collateral_amount) + seq![ltv_check_tag(check)],
                        },
                    ),
                },
            },
        }
    }
}

impl ClientContext {
    /// Resolves and builds the collateral withdrawal from a position.
    pub fn withdraw_obligation_collateral(
        &self,
        obligation: &Address,
        position: &ObligationSnapshot,
        withdraw_reserve: &Address,
        reserve: &ReserveSnapshot,
        collateral_amount: u64,
        check: LtvMaxWithdrawalCheck,
    ) -> (r: Result<Instruction, ClientError>)
        requires
            self.wf(),
            obligation.wf(),
            position.wf(),
            withdraw_reserve.wf(),
            reserve.wf(),
        ensures
            (r matches Ok(ix) ==> withdraw_obligation_collateral_spec(
                self@,
                obligation@,
                position@,
                withdraw_reserve@,
                reserve@,
                collateral_amount,
                check,
            ) == Ok::<InstructionV, ClientError>(ix@) && ix.wf()),
            (r matches Err(e) ==> withdraw_obligation_collateral_spec(
                self@,
                obligation@,
                position@,
                withdraw_reserve@,
                reserve@,
                collateral_amount,
                check,
            ) == Err::<InstructionV, ClientError>(e)),
    {
        if position.lending_market.is_zero() || reserve.collateral_mint.is_zero()
            || reserve.collateral_supply_vault.is_zero() {
            return Err(ClientError::MissingDependency);
        }
        let (authority, _authority_bump) = match derive_market_authority(
            self,
            &position.lending_market,
        ) {
            Ok(p) => p,
            Err(e) => {
                return Err(e);
            },
        };
        let (destination, _destination_bump) = match derive_token_account(
            self,
            &self.payer,
            &reserve.collateral_mint,
        ) {
            Ok(p) => p,
            Err(e) => {
                return Err(e);
            },
        };
        let mut accounts: Vec<AccountRef> = Vec::new();
        push_account(&mut accounts, self.payer.dup(), true, false);
        push_account(&mut accounts, obligation.dup(), false, true);
        push_account(&mut accounts, position.lending_market.dup(), false, false);
        push_account(&mut accounts, authority, false, false);
        push_account(&mut accounts, withdraw_reserve.dup(), false, false);
        push_account(&mut accounts, reserve.collateral_supply_vault.dup(), false, true);
        push_account(&mut accounts, destination, false, true);
        push_account(&mut accounts, self.token_program.dup(), false, false);
        push_account(&mut accounts, self.instructions_sysvar.dup(), false, false);
        let disc = op_discriminator("withdraw_obligation_collateral");
        let payload = encode_u64_tag_args(&disc, collateral_amount, ltv_check_byte(check));
        let ix = Instruction { program: self.program_id.dup(), accounts, payload };
        proof {
            let spec_ix = withdraw_obligation_collateral_spec(
                self@,
                obligation@,
                position@,
                withdraw_reserve@,
                reserve@,
                collateral_amount,
                check,
            );
            assert(spec_ix matches Ok(v) && ix@.accounts =~= v.accounts);
            assert(spec_ix matches Ok(v) && ix@ =~= v);
        }
        Ok(ix)
    }

    /// Resolves and builds the combined operation: withdraw collateral and
    /// immediately redeem it into liquidity.
    pub fn withdraw_obligation_collateral_and_redeem_reserve_collateral(
        &self,
        obligation: &Address,
        position: &ObligationSnapshot,
        withdraw_reserve: &Address,
        reserve: &ReserveSnapshot,
        collateral_amount: u64,
        check: LtvMaxWithdrawalCheck,
    ) -> (r: Result<Instruction, ClientError>)
        requires
            self.wf(),
            obligation.wf(),
            position.wf(),
            withdraw_reserve.wf(),
            reserve.wf(),
        ensures
            (r matches Ok(ix) ==> withdraw_and_redeem_spec(
                self@,
                obligation@,
                position@,
                withdraw_reserve@,
                reserve@,
                collateral_amount,
                check,
            ) == Ok::<InstructionV, ClientError>(ix@) && ix.wf()),
            (r matches Err(e) ==> withdraw_and_redeem_spec(
                self@,
                obligation@,
                position@,
                withdraw_reserve@,
                reserve@,
                collateral_amount,
                check,
            ) == Err::<InstructionV, ClientError>(e)),
    {
        if position.lending_market.is_zero() || reserve.collateral_mint.is_zero()
            || reserve.liquidity_mint.is_zero() || reserve.collateral_supply_vault.is_zero()
            || reserve.liquidity_supply_vault.is_zero() {
            return Err(ClientError::MissingDependency);
        }
        let (authority, _authority_bump) = match derive_market_authority(
            self,
            &position.lending_market,
        ) {
            Ok(p) => p,
            Err(e) => {
                return Err(e);
            },
        };
        let (coll_destination, _coll_bump) = match derive_token_account(
            self,
            &self.payer,
            &reserve.collateral_mint,
        ) {
            Ok(p) => p,
            Err(e) => {
                return Err(e);
            },
        };
        let (liq_destination, _liq_bump) = match derive_token_account(
            self,
            &self.payer,
            &reserve.liquidity_mint,
        ) {
            Ok(p) => p,
            Err(e) => {
                return Err(e);
            },
        };
        let mut accounts: Vec<AccountRef> = Vec::new();
        push_account(&mut accounts, self.payer.dup(), true, false);
        push_account(&mut accounts, obligation.dup(), false, true);
        push_account(&mut accounts, position.lending_market.dup(), false, false);
        push_account(&mut accounts, authority, false, false);
        push_account(&mut accounts, withdraw_reserve.dup(), false, true);
        push_account(&mut accounts, reserve.collateral_mint.dup(), false, true);
        push_account(&mut accounts, reserve.collateral_supply_vault.dup(), false, true);
        push_account(&mut accounts, reserve.liquidity_supply_vault.dup(), false, true);
        push_account(&mut accounts, coll_destination, false, true);
        push_account(&mut accounts, liq_destination, false, true);
        push_account(&mut accounts, self.token_program.dup(), false, false);
        push_account(&mut accounts, self.token_2022_program.dup(), false, false);
        push_account(&mut accounts, self.instructions_sysvar.dup(), false, false);
        let disc = op_discriminator(
            "withdraw_obligation_collateral_and_redeem_reserve_collateral",
        );
        let payload = encode_u64_tag_args(&disc, collateral_amount, ltv_check_byte(check));
        let ix = Instruction { program: self.program_id.dup(), accounts, payload };
        proof {
            let spec_ix = withdraw_and_redeem_spec(
                self@,
                obligation@,
                position@,
                withdraw_reserve@,
                reserve@,
                collateral_amount,
                check,
            );
            assert(spec_ix matches Ok(v) && ix@.accounts =~= v.accounts);
            assert(spec_ix matches Ok(v) && ix@ =~= v);
        }
        Ok(ix)
    }
}

/// The wire byte of the withdrawal check.
pub fn ltv_check_byte(check: LtvMaxWithdrawalCheck) -> (r: u8)
    ensures
        r == ltv_check_tag(check),
{
    match check {
        LtvMaxWithdrawalCheck::Perform => 0,
        LtvMaxWithdrawalCheck::Skip => 1,
    }
}

} // verus!
