//! Depositing liquidity and collateral.

use vstd::prelude::*;
use vstd::string::*;

use crate::address::Address;
use crate::address::zero_address;
use crate::codec::encode_u64_arg;
use crate::codec::le64;
use crate::context::ClientContext;
use crate::context::CtxV;
use crate::digest::discriminator_of;
use crate::digest::op_discriminator;
use crate::errors::ClientError;
use crate::instruction::AccountRef;
use crate::instruction::Instruction;
use crate::instruction::InstructionV;
use crate::instruction::acct;
use crate::instruction::push_account;
use crate::ops::common::derive_market_authority;
use crate::ops::common::market_authority_spec;
use crate::ops::common::optional_account;
use crate::ops::common::push_optional;
use crate::snapshots::ObligationSnapV;
use crate::snapshots::ObligationSnapshot;
use crate::snapshots::ReserveSnapV;
use crate::snapshots::ReserveSnapshot;
use crate::token::derive_token_account;
use crate::token::token_account_spec;

verus! {

/// What `deposit_reserve_liquidity` assembles.
pub open spec fn deposit_reserve_liquidity_spec(
    ctx: CtxV,
    reserve_address: Seq<u8>,
    reserve: ReserveSnapV,
    liquidity_amount: u64,
) -> Result<InstructionV, ClientError> {
    if reserve.lending_market == zero_address() || reserve.liquidity_mint == zero_address()
        || reserve.liquidity_supply_vault == zero_address() || reserve.collateral_mint
        == zero_address() {
        Err(ClientError::MissingDependency)
    } else {
        match market_authority_spec(ctx, reserve.lending_market) {
            Err(e) => Err(e),
            Ok(authority) => match token_account_spec(ctx, ctx.payer, reserve.liquidity_mint) {
                Err(e) => Err(e),
                Ok(source) => match token_account_spec(ctx, ctx.payer, reserve.collateral_mint) {
                    Err(e) => Err(e),
                    Ok(destination) => Ok(
                        InstructionV {
                            program: ctx.program_id,
                            accounts: seq![
                                (acct(ctx.payer, true, false)),
                                (acct(reserve_address, false, true)),
                                (acct(reserve.lending_market, false, false)),
                                (acct(authority.0, false, false)),
                                (acct(reserve.liquidity_mint, false, false)),
                                (acct(reserve.liquidity_supply_vault, false, true)),
                                (acct(reserve.collateral_mint, false, true)),
                                (acct(source.0, false, true)),
                                (acct(destination.0, false, true)),
                                (acct(ctx.token_program, false, false)),
                                (acct(ctx.token_2022_program, false, false)),
                                (acct(ctx.instructions_sysvar, false, false)),
                            ],
                            payload: discriminator_of("deposit_reserve_liquidity".spec_bytes())
                                + le64(liquidity_amount),
                        },
                    ),
                },
            },
        }
    }
}

/// What `deposit_obligation_collateral` assembles.
pub open spec fn deposit_obligation_collateral_spec(
    ctx: CtxV,
    obligation: Seq<u8>,
    position: ObligationSnapV,
    deposit_reserve: Seq<u8>,
    reserve: ReserveSnapV,
    collateral_amount: u64,
) -> Result<InstructionV, ClientError> {
    if position.lending_market == zero_address() || reserve.collateral_mint == zero_address()
        || reserve.collateral_supply_vault == zero_address() {
        Err(ClientError::MissingDependency)
    } else {
        match token_account_spec(ctx, ctx.payer, reserve.collateral_mint) {
            Err(e) => Err(e),
            Ok(source) => Ok(
                InstructionV {
                    program: ctx.program_id,
                    accounts: seq![
                        (acct(ctx.payer, true, false)),
                        (acct(obligation, false, true)),
                        (acct(position.lending_market, false, false)),
                        (acct(deposit_reserve, false, true)),
                        (acct(reserve.collateral_supply_vault, false, true)),
                        (acct(source.0, false, true)),
                        (acct(ctx.token_program, false, false)),
                        (acct(ctx.instructions_sysvar, false, false)),
                    ],
                    payload: discriminator_of("deposit_obligation_collateral".spec_bytes())
                        + le64(collateral_amount),
                },
            ),
        }
    }
}

/// What `deposit_reserve_liquidity_and_obligation_collateral` assembles.
pub open spec fn deposit_reserve_liquidity_and_obligation_collateral_spec(
    ctx: CtxV,
    obligation: Seq<u8>,
    position: ObligationSnapV,
    reserve_address: Seq<u8>,
    reserve: ReserveSnapV,
    placeholder_destination_collateral: Option<Seq<u8>>,
    liquidity_amount: u64,
) -> Result<InstructionV, ClientError> {
    if position.lending_market == zero_address() || reserve.liquidity_mint == zero_address()
        || reserve.liquidity_supply_vault == zero_address() || reserve.collateral_mint
        == zero_address() || reserve.collateral_supply_vault == zero_address() {
        Err(ClientError::MissingDependency)
    } else {
        match market_authority_spec(ctx, position.lending_market) {
            Err(e) => Err(e),
            Ok(authority) => match token_account_spec(ctx, ctx.payer, reserve.liquidity_mint) {
                Err(e) => Err(e),
                Ok(source) => Ok(
                    InstructionV {
                        program: ctx.program_id,
                        accounts: seq![
                            (acct(ctx.payer, true, true)),
                            (acct(obligation, false, true)),
                            (acct(position.lending_market, false, false)),
                            (acct(authority.0, false, false)),
                            (acct(reserve_address, false, true)),
                            (acct(reserve.liquidity_mint, false, false)),
                            (acct(reserve.liquidity_supply_vault, false, true)),
                            (acct(reserve.collateral_mint, false, true)),
                            (acct(reserve.collateral_supply_vault, false, true)),
                            (acct(source.0, false, true)),
                        ] + optional_account(placeholder_destination_collateral, true) + seq![
                            (acct(ctx.token_program, false, false)),
                            (acct(ctx.token_2022_program, false, false)),
                            (acct(ctx.instructions_sysvar, false, false)),
                        ],
                        payload: discriminator_of(
                            "deposit_reserve_liquidity_and_obligation_collateral".spec_bytes(),
                        ) + le64(liquidity_amount),
                    },
                ),
            },
        }
    }
}

impl ClientContext {
    /// Resolves and builds the plain liquidity deposit: `liquidity_amount`
    /// moves into the reserve's supply vault and collateral is minted to
    /// the owner's token account.
    pub fn deposit_reserve_liquidity(
        &self,
        reserve_address: &Address,
        reserve: &ReserveSnapshot,
        liquidity_amount: u64,
    ) -> (r: Result<Instruction, ClientError>)
        requires
            self.wf(),
            reserve_address.wf(),
            reserve.wf(),
        ensures
            (r matches Ok(ix) ==> deposit_reserve_liquidity_spec(
                self@,
                reserve_address@,
                reserve@,
                liquidity_amount,
            ) == Ok::<InstructionV, ClientError>(ix@) && ix.wf()),
            (r matches Err(e) ==> deposit_reserve_liquidity_spec(
                self@,
                reserve_address@,
                reserve@,
                liquidity_amount,
            ) == Err::<InstructionV, ClientError>(e)),
    {
        if reserve.lending_market.is_zero() || reserve.liquidity_mint.is_zero()
            || reserve.liquidity_supply_vault.is_zero() || reserve.collateral_mint.is_zero() {
            return Err(ClientError::MissingDependency);
        }
        let (authority, _authority_bump) = match derive_market_authority(
            self,
            &reserve.lending_market,
        ) {
            Ok(p) => p,
            Err(e) => {
                return Err(e);
            },
        };
        let (source, _source_bump) = match derive_token_account(
            self,
            &self.payer,
            &reserve.liquidity_mint,
        ) {
            Ok(p) => p,
            Err(e) => {
                return Err(e);
            },
        };
        let (destination, _destination_bump) = match derive_token_account(
            self,
            &self.payer,
            &reserve.collateral_mint,
        ) {
            Ok(p) => p,
            Err(e) => {
                return Err(e);
            },
        };
        let mut accounts: Vec<AccountRef> = Vec::new();
        push_account(&mut accounts, self.payer.dup(), true, false);
        push_account(&mut accounts, reserve_address.dup(), false, true);
        push_account(&mut accounts, reserve.lending_market.dup(), false, false);
        push_account(&mut accounts, authority, false, false);
        push_account(&mut accounts, reserve.liquidity_mint.dup(), false, false);
        push_account(&mut accounts, reserve.liquidity_supply_vault.dup(), false, true);
        push_account(&mut accounts, reserve.collateral_mint.dup(), false, true);
        push_account(&mut accounts, source, false, true);
        push_account(&mut accounts, destination, false, true);
        push_account(&mut accounts, self.token_program.dup(), false, false);
        push_account(&mut accounts, self.token_2022_program.dup(), false, false);
        push_account(&mut accounts, self.instructions_sysvar.dup(), false, false);
        let disc = op_discriminator("deposit_reserve_liquidity");
        let payload = encode_u64_arg(&disc, liquidity_amount);
        let ix = Instruction { program: self.program_id.dup(), accounts, payload };
        proof {
            let spec_ix = deposit_reserve_liquidity_spec(
                self@,
                reserve_address@,
                reserve@,
                liquidity_amount,
            );
            assert(spec_ix matches Ok(v) && ix@.accounts =~= v.accounts);
            assert(spec_ix matches Ok(v) && ix@ =~= v);
        }
        Ok(ix)
    }

    /// Resolves and builds the collateral deposit into a position.
    pub fn deposit_obligation_collateral(
        &self,
        obligation: &Address,
        position: &ObligationSnapshot,
        deposit_reserve: &Address,
        reserve: &ReserveSnapshot,
        collateral_amount: u64,
    ) -> (r: Result<Instruction, ClientError>)
        requires
            self.wf(),
            obligation.wf(),
            position.wf(),
            deposit_reserve.wf(),
            reserve.wf(),
        ensures
            (r matches Ok(ix) ==> deposit_obligation_collateral_spec(
                self@,
                obligation@,
                position@,
                deposit_reserve@,
                reserve@,
                collateral_amount,
            ) == Ok::<InstructionV, ClientError>(ix@) && ix.wf()),
            (r matches Err(e) ==> deposit_obligation_collateral_spec(
                self@,
                obligation@,
                position@,
                deposit_reserve@,
                reserve@,
                collateral_amount,
            ) == Err::<InstructionV, ClientError>(e)),
    {
        if position.lending_market.is_zero() || reserve.collateral_mint.is_zero()
            || reserve.collateral_supply_vault.is_zero() {
            return Err(ClientError::MissingDependency);
        }
        let (source, _source_bump) = match derive_token_account(
            self,
            &self.payer,
            &reserve.collateral_mint,
        ) {
            Ok(p) => p,
            Err(e) => {
                return Err(e);
            },
        };
        let mut accounts: Vec<AccountRef> = Vec::new();
        push_account(&mut accounts, self.payer.dup(), true, false);
        push_account(&mut accounts, obligation.dup(), false, true);
        push_account(&mut accounts, position.lending_market.dup(), false, false);
        push_account(&mut accounts, deposit_reserve.dup(), false, true);
        push_account(&mut accounts, reserve.collateral_supply_vault.dup(), false, true);
        push_account(&mut accounts, source, false, true);
        push_account(&mut accounts, self.token_program.dup(), false, false);
        push_account(&mut accounts, self.instructions_sysvar.dup(), false, false);
        let disc = op_discriminator("deposit_obligation_collateral");
        let payload = encode_u64_arg(&disc, collateral_amount);
        let ix = Instruction { program: self.program_id.dup(), accounts, payload };
        proof {
            let spec_ix = deposit_obligation_collateral_spec(
                self@,
                obligation@,
                position@,
                deposit_reserve@,
                reserve@,
                collateral_amount,
            );
            assert(spec_ix matches Ok(v) && ix@.accounts =~= v.accounts);
            assert(spec_ix matches Ok(v) && ix@ =~= v);
        }
        Ok(ix)
    }

    /// Resolves and builds the combined operation: deposit liquidity and
    /// immediately pledge the minted collateral to the position.
    pub fn deposit_reserve_liquidity_and_obligation_collateral(
        &self,
        obligation: &Address,
        position: &ObligationSnapshot,
        reserve_address: &Address,
        reserve: &ReserveSnapshot,
        placeholder_destination_collateral: &Option<Address>,
        liquidity_amount: u64,
    ) -> (r: Result<Instruction, ClientError>)
        requires
            self.wf(),
            obligation.wf(),
            position.wf(),
            reserve_address.wf(),
            reserve.wf(),
            (placeholder_destination_collateral matches Some(a) ==> a.wf()),
        ensures
            (r matches Ok(ix) ==> deposit_reserve_liquidity_and_obligation_collateral_spec(
                self@,
                obligation@,
                position@,
                reserve_address@,
                reserve@,
                placeholder_destination_collateral.deep_view(),
                liquidity_amount,
            ) == Ok::<InstructionV, ClientError>(ix@) && ix.wf()),
            (r matches Err(e) ==> deposit_reserve_liquidity_and_obligation_collateral_spec(
                self@,
                obligation@,
                position@,
                reserve_address@,
                reserve@,
                placeholder_destination_collateral.deep_view(),
                liquidity_amount,
            ) == Err::<InstructionV, ClientError>(e)),
    {
        if position.lending_market.is_zero() || reserve.liquidity_mint.is_zero()
            || reserve.liquidity_supply_vault.is_zero() || reserve.collateral_mint.is_zero()
            || reserve.collateral_supply_vault.is_zero() {
            return Err(ClientError::MissingDependency);
        }
        let (authority, _authority_bump) = match derive_market_authority(
            self,
            &position.lending_market,
        ) {
            Ok(p) => p,
            Err(e) => {
                return Err(e);
            },
        };
        let (source, _source_bump) = match derive_token_account(
            self,
            &self.payer,
            &reserve.liquidity_mint,
        ) {
            Ok(p) => p,
            Err(e) => {
                return Err(e);
            },
        };
        let mut accounts: Vec<AccountRef> = Vec::new();
        push_account(&mut accounts, self.payer.dup(), true, true);
        push_account(&mut accounts, obligation.dup(), false, true);
        push_account(&mut accounts, position.lending_market.dup(), false, false);
        push_account(&mut accounts, authority, false, false);
        push_account(&mut accounts, reserve_address.dup(), false, true);
        push_account(&mut accounts, reserve.liquidity_mint.dup(), false, false);
        push_account(&mut accounts, reserve.liquidity_supply_vault.dup(), false, true);
        push_account(&mut accounts, reserve.collateral_mint.dup(), false, true);
        push_account(&mut accounts, reserve.collateral_supply_vault.dup(), false, true);
        push_account(&mut accounts, source, false, true);
        push_optional(&mut accounts, placeholder_destination_collateral, true);
        push_account(&mut accounts, self.token_program.dup(), false, false);
        push_account(&mut accounts, self.token_2022_program.dup(), false, false);
        push_account(&mut accounts, self.instructions_sysvar.dup(), false, false);
        let disc = op_discriminator("deposit_reserve_liquidity_and_obligation_collateral");
        let payload = encode_u64_arg(&disc, liquidity_amount);
        let ix = Instruction { program: self.program_id.dup(), accounts, payload };
        proof {
            let spec_ix = deposit_reserve_liquidity_and_obligation_collateral_spec(
                self@,
                obligation@,
                position@,
                reserve_address@,
                reserve@,
                placeholder_destination_collateral.deep_view(),
                liquidity_amount,
            );
            assert(spec_ix matches Ok(v) && ix@.accounts =~= v.accounts);
            assert(spec_ix matches Ok(v) && ix@ =~= v);
        }
        Ok(ix)
    }
}

} // verus!
