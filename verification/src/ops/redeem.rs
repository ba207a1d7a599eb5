//! Redeeming collateral and collecting protocol fees.

use vstd::prelude::*;
use vstd::string::*;

use crate::address::Address;
use crate::address::zero_address;
use crate::codec::encode_no_args;
use crate::codec::encode_u64_arg;
use crate::codec::le64;
use crate::context::ClientContext;
use crate::context::CtxV;
use crate::digest::discriminator_of;
use crate::digest::op_discriminator;
use crate::errors::ClientError;
use crate::instruction::AccountRef;
use crate::instruction::Instruction;
use crate::instruction::InstructionV;
use crate::instruction::acct;
use crate::instruction::push_account;
use crate::ops::common::derive_market_authority;
use crate::ops::common::market_authority_spec;
use crate::snapshots::ReserveSnapV;
use crate::snapshots::ReserveSnapshot;
use crate::token::derive_token_account;
use crate::token::token_account_spec;

verus! {

/// What `redeem_reserve_collateral` assembles.
pub open spec fn redeem_reserve_collateral_spec(
    ctx: CtxV,
    reserve_address: Seq<u8>,
    reserve: ReserveSnapV,
    collateral_amount: u64,
) -> Result<InstructionV, ClientError> {
    if reserve.lending_market == zero_address() || reserve.liquidity_mint == zero_address()
        || reserve.collateral_mint == zero_address() || reserve.liquidity_supply_vault
        == zero_address() {
        Err(ClientError::MissingDependency)
    } else {
        match market_authority_spec(ctx, reserve.lending_market) {
            Err(e) => Err(e),
            Ok(authority) => match token_account_spec(ctx, ctx.payer, reserve.collateral_mint) {
                Err(e) => Err(e),
                Ok(source) => match token_account_spec(ctx, ctx.payer, reserve.liquidity_mint) {
                    Err(e) => Err(e),
                    Ok(destination) => Ok(
                        InstructionV {
                            program: ctx.program_id,
                            accounts: seq![
                                (acct(ctx.payer, true, false)),
                                (acct(reserve.lending_market, false, false)),
                                (acct(reserve_address, false, true)),
                                (acct(authority.0, false, false)),
                                (acct(reserve.liquidity_mint, false, false)),
                                (acct(reserve.collateral_mint, false, true)),
                                (acct(reserve.liquidity_supply_vault, false, true)),
                                (acct(source.0, false, true)),
                                (acct(destination.0, false, true)),
                                (acct(ctx.token_program, false, false)),
                                (acct(ctx.token_2022_program, false, false)),
                                (acct(ctx.instructions_sysvar, false, false)),
                            ],
                            payload: discriminator_of("redeem_reserve_collateral".spec_bytes())
                                + le64(collateral_amount),
                        },
                    ),
                },
            },
        }
    }
}

/// What `redeem_fees` assembles.
pub open spec fn redeem_fees_spec(
    ctx: CtxV,
    reserve_address: Seq<u8>,
    reserve: ReserveSnapV,
) -> Result<InstructionV, ClientError> {
    if reserve.lending_market == zero_address() || reserve.liquidity_mint == zero_address()
        || reserve.liquidity_fee_vault == zero_address() || reserve.liquidity_supply_vault
        == zero_address() {
        Err(ClientError::MissingDependency)
    } else {
        match market_authority_spec(ctx, reserve.lending_market) {
            Err(e) => Err(e),
            Ok(authority) => Ok(
                InstructionV {
                    program: ctx.program_id,
                    accounts: seq![
                        (acct(reserve_address, false, true)),
                        (acct(reserve.liquidity_mint, false, false)),
                        (acct(reserve.liquidity_fee_vault, false, true)),
                        (acct(reserve.liquidity_supply_vault, false, true)),
                        (acct(reserve.lending_market, false, false)),
                        (acct(authority.0, false, false)),
                        (acct(ctx.token_2022_program, false, false)),
                    ],
                    payload: discriminator_of("redeem_fees".spec_bytes()),
                },
            ),
        }
    }
}

impl ClientContext {
    /// Resolves and builds the collateral redemption: `collateral_amount`
    /// burns into liquidity paid to the owner's token account.
    pub fn redeem_reserve_collateral(
        &self,
        reserve_address: &Address,
        reserve: &ReserveSnapshot,
        collateral_amount: u64,
    ) -> (r: Result<Instruction, ClientError>)
        requires
            self.wf(),
            reserve_address.wf(),
            reserve.wf(),
        ensures
            (r matches Ok(ix) ==> redeem_reserve_collateral_spec(
                self@,
                reserve_address@,
                reserve@,
                collateral_amount,
            ) == Ok::<InstructionV, ClientError>(ix@) && ix.wf()),
            (r matches Err(e) ==> redeem_reserve_collateral_spec(
                self@,
                reserve_address@,
                reserve@,
                collateral_amount,
            ) == Err::<InstructionV, ClientError>(e)),
    {
        if reserve.lending_market.is_zero() || reserve.liquidity_mint.is_zero()
            || reserve.collateral_mint.is_zero() || reserve.liquidity_supply_vault.is_zero() {
            return Err(ClientError::MissingDependency);
        }
        let (authority, _authority_bump) = match derive_market_authority(
            self,
            &reserve.lending_market,
        ) {
            Ok(p) => p,
            Err(e) => {
                return Err(e);
            },
        };
        let (source, _source_bump) = match derive_token_account(
            self,
            &self.payer,
            &reserve.collateral_mint,
        ) {
            Ok(p) => p,
            Err(e) => {
                return Err(e);
            },
        };
        let (destination, _destination_bump) = match derive_token_account(
            self,
            &self.payer,
            &reserve.liquidity_mint,
        ) {
            Ok(p) => p,
            Err(e) => {
                return Err(e);
            },
        };
        let mut accounts: Vec<AccountRef> = Vec::new();
        push_account(&mut accounts, self.payer.dup(), true, false);
        push_account(&mut accounts, reserve.lending_market.dup(), false, false);
        push_account(&mut accounts, reserve_address.dup(), false, true);
        push_account(&mut accounts, authority, false, false);
        push_account(&mut accounts, reserve.liquidity_mint.dup(), false, false);
        push_account(&mut accounts, reserve.collateral_mint.dup(), false, true);
        push_account(&mut accounts, reserve.liquidity_supply_vault.dup(), false, true);
        push_account(&mut accounts, source, false, true);
        push_account(&mut accounts, destination, false, true);
        push_account(&mut accounts, self.token_program.dup(), false, false);
        push_account(&mut accounts, self.token_2022_program.dup(), false, false);
        push_account(&mut accounts, self.instructions_sysvar.dup(), false, false);
        let disc = op_discriminator("redeem_reserve_collateral");
        let payload = encode_u64_arg(&disc, collateral_amount);
        let ix = Instruction { program: self.program_id.dup(), accounts, payload };
        proof {
            let spec_ix = redeem_reserve_collateral_spec(
                self@,
                reserve_address@,
                reserve@,
                collateral_amount,
            );
            assert(spec_ix matches Ok(v) && ix@.accounts =~= v.accounts);
            assert(spec_ix matches Ok(v) && ix@ =~= v);
        }
        Ok(ix)
    }

    /// Resolves and builds the fee collection for a reserve.
    pub fn redeem_fees(&self, reserve_address: &Address, reserve: &ReserveSnapshot) -> (r: Result<
        Instruction,
        ClientError,
    >)
        requires
            self.wf(),
            reserve_address.wf(),
            reserve.wf(),
        ensures
            (r matches Ok(ix) ==> redeem_fees_spec(self@, reserve_address@, reserve@) == Ok::<
                InstructionV,
                ClientError,
            >(ix@) && ix.wf()),
            (r matches Err(e) ==> redeem_fees_spec(self@, reserve_address@, reserve@) == Err::<
                InstructionV,
                ClientError,
            >(e)),
    {
        if reserve.lending_market.is_zero() || reserve.liquidity_mint.is_zero()
            || reserve.liquidity_fee_vault.is_zero() || reserve.liquidity_supply_vault.is_zero() {
            return Err(ClientError::MissingDependency);
        }
        let (authority, _authority_bump) = match derive_market_authority(
            self,
            &reserve.lending_market,
        ) {
            Ok(p) => p,
            Err(e) => {
                return Err(e);
            },
        };
        let mut accounts: Vec<AccountRef> = Vec::new();
        push_account(&mut accounts, reserve_address.dup(), false, true);
        push_account(&mut accounts, reserve.liquidity_mint.dup(), false, false);
        push_account(&mut accounts, reserve.liquidity_fee_vault.dup(), false, true);
        push_account(&mut accounts, reserve.liquidity_supply_vault.dup(), false, true);
        push_account(&mut accounts, reserve.lending_market.dup(), false, false);
        push_account(&mut accounts, authority, false, false);
        push_account(&mut accounts, self.token_2022_program.dup(), false, false);
        let disc = op_discriminator("redeem_fees");
        let payload = encode_no_args(&disc);
        let ix = Instruction { program: self.program_id.dup(), accounts, payload };
        proof {
            let spec_ix = redeem_fees_spec(self@, reserve_address@, reserve@);
            assert(spec_ix matches Ok(v) && ix@.accounts =~= v.accounts);
            assert(spec_ix matches Ok(v) && ix@ =~= v);
        }
        Ok(ix)
    }
}

} // verus!
