//! Creating markets, reserves, positions and user metadata.

use vstd::prelude::*;
use vstd::string::*;

use crate::address::Address;
use crate::address::copy_bytes;
use crate::codec::encode_bytes32_arg;
use crate::codec::encode_no_args;
use crate::codec::encode_u8x2_args;
use crate::context::ClientContext;
use crate::context::CtxV;
use crate::digest::discriminator_of;
use crate::digest::op_discriminator;
use crate::errors::ClientError;
use crate::instruction::AccountRef;
use crate::instruction::Instruction;
use crate::instruction::InstructionV;
use crate::instruction::acct;
use crate::instruction::push_account;
use crate::ops::common::derive_market_authority;
use crate::ops::common::derive_tagged2;
use crate::ops::common::derive_user_metadata;
use crate::ops::common::market_authority_spec;
use crate::ops::common::optional_account;
use crate::ops::common::push_optional;
use crate::ops::common::tagged2_spec;
use crate::ops::common::user_metadata_spec;
use crate::pda::derive_address;
use crate::pda::derive_spec;
use crate::token::derive_token_account;
use crate::token::token_account_spec;

verus! {

/// What `init_lending_market` assembles.
pub open spec fn init_lending_market_spec(
    ctx: CtxV,
    lending_market: Seq<u8>,
    quote_currency: Seq<u8>,
) -> Result<InstructionV, ClientError> {
    if quote_currency.len() != 32 {
        Err(ClientError::InvalidArgument)
    } else {
        match market_authority_spec(ctx, lending_market) {
            Err(e) => Err(e),
            Ok(authority) => Ok(
                InstructionV {
                    program: ctx.program_id,
                    accounts: seq![
                        (acct(ctx.payer, true, true)),
                        (acct(lending_market, true, true)),
                        (acct(authority.0, false, false)),
                        (acct(ctx.system_program, false, false)),
                        (acct(ctx.rent_sysvar, false, false)),
                    ],
                    payload: discriminator_of("init_lending_market".spec_bytes())
                        + quote_currency,
                },
            ),
        }
    }
}

/// What `init_user_metadata` assembles.
pub open spec fn init_user_metadata_spec(
    ctx: CtxV,
    owner: Seq<u8>,
    user_lookup_table: Seq<u8>,
    referrer_user_metadata: Option<Seq<u8>>,
) -> Result<InstructionV, ClientError> {
    match user_metadata_spec(ctx, owner) {
        Err(e) => Err(e),
        Ok(metadata) => Ok(
            InstructionV {
                program: ctx.program_id,
                accounts: seq![
                    (acct(owner, true, false)),
                    (acct(ctx.payer, true, true)),
                    (acct(metadata.0, false, true)),
                ] + optional_account(referrer_user_metadata, false) + seq![
                    (acct(ctx.rent_sysvar, false, false)),
                    (acct(ctx.system_program, false, false)),
                ],
                payload: discriminator_of("init_user_metadata".spec_bytes()) + user_lookup_table,
            },
        ),
    }
}

/// The seeds of a position account: its tag and id bytes, then the owner,
/// the market, and the two seed accounts.
pub open spec fn obligation_address_spec(
    ctx: CtxV,
    tag: u8,
    id: u8,
    owner: Seq<u8>,
    lending_market: Seq<u8>,
    seed1: Seq<u8>,
    seed2: Seq<u8>,
) -> Result<(Seq<u8>, u8), ClientError> {
    derive_spec(ctx.program_id, seq![seq![tag], seq![id], owner, lending_market, seed1, seed2])
}

/// What `init_obligation` assembles.
pub open spec fn init_obligation_spec(
    ctx: CtxV,
    lending_market: Seq<u8>,
    owner: Seq<u8>,
    tag: u8,
    id: u8,
    seed1: Seq<u8>,
    seed2: Seq<u8>,
) -> Result<InstructionV, ClientError> {
    match user_metadata_spec(ctx, owner) {
        Err(e) => Err(e),
        Ok(metadata) => match obligation_address_spec(
            ctx,
            tag,
            id,
            owner,
            lending_market,
            seed1,
            seed2,
        ) {
            Err(e) => Err(e),
            Ok(obligation) => Ok(
                InstructionV {
                    program: ctx.program_id,
                    accounts: seq![
                        (acct(owner, true, false)),
                        (acct(ctx.payer, true, true)),
                        (acct(obligation.0, false, true)),
                        (acct(lending_market, false, false)),
                        (acct(seed1, false, false)),
                        (acct(seed2, false, false)),
                        (acct(metadata.0, false, false)),
                        (acct(ctx.rent_sysvar, false, false)),
                        (acct(ctx.system_program, false, false)),
                    ],
                    payload: discriminator_of("init_obligation".spec_bytes()) + seq![tag, id],
                },
            ),
        },
    }
}

/// What `init_reserve` assembles.
pub open spec fn init_reserve_spec(
    ctx: CtxV,
    lending_market: Seq<u8>,
    reserve: Seq<u8>,
    liquidity_mint: Seq<u8>,
) -> Result<InstructionV, ClientError> {
    match market_authority_spec(ctx, lending_market) {
        Err(e) => Err(e),
        Ok(authority) => match tagged2_spec(
            ctx.program_id,
            "reserve_liq_supply"@,
            lending_market,
            liquidity_mint,
        ) {
            Err(e) => Err(e),
            Ok(liq_supply) => match tagged2_spec(
                ctx.program_id,
                "fee_receiver"@,
                lending_market,
                liquidity_mint,
            ) {
                Err(e) => Err(e),
                Ok(fee_receiver) => match tagged2_spec(
                    ctx.program_id,
                    "reserve_coll_mint"@,
                    lending_market,
                    liquidity_mint,
                ) {
                    Err(e) => Err(e),
                    Ok(coll_mint) => match tagged2_spec(
                        ctx.program_id,
                        "reserve_coll_supply"@,
                        lending_market,
                        liquidity_mint,
                    ) {
                        Err(e) => Err(e),
                        Ok(coll_supply) => match token_account_spec(
                            ctx,
                            ctx.payer,
                            liquidity_mint,
                        ) {
                            Err(e) => Err(e),
                            Ok(source) => Ok(
                                InstructionV {
                                    program: ctx.program_id,
                                    accounts: seq![
                                        (acct(ctx.payer, true, true)),
                                        (acct(lending_market, false, false)),
                                        (acct(authority.0, false, false)),
                                        (acct(reserve, true, true)),
                                        (acct(liquidity_mint, false, false)),
                                        (acct(liq_supply.0, false, true)),
                                        (acct(fee_receiver.0, false, true)),
                                        (acct(coll_mint.0, false, true)),
                                        (acct(coll_supply.0, false, true)),
                                        (acct(source.0, false, true)),
                                        (acct(ctx.rent_sysvar, false, false)),
                                        (acct(ctx.token_2022_program, false, false)),
                                        (acct(ctx.token_program, false, false)),
                                        (acct(ctx.system_program, false, false)),
                                    ],
                                    payload: discriminator_of("init_reserve".spec_bytes()),
                                },
                            ),
                        },
                    },
                },
            },
        },
    }
}

impl ClientContext {
    /// Resolves and builds the market creation. `lending_market` is the
    /// address of a fresh signing key supplied by the caller; the quote
    /// currency must be exactly 32 bytes.
    pub fn init_lending_market(
        &self,
        lending_market: &Address,
        quote_currency: &Vec<u8>,
    ) -> (r: Result<Instruction, ClientError>)
        requires
            self.wf(),
            lending_market.wf(),
        ensures
            (r matches Ok(ix) ==> init_lending_market_spec(
                self@,
                lending_market@,
                quote_currency@,
            ) == Ok::<InstructionV, ClientError>(ix@) && ix.wf()),
            (r matches Err(e) ==> init_lending_market_spec(
                self@,
                lending_market@,
                quote_currency@,
            ) == Err::<InstructionV, ClientError>(e)),
    {
        if quote_currency.len() != 32 {
            return Err(ClientError::InvalidArgument);
        }
        let (authority, _authority_bump) = match derive_market_authority(self, lending_market) {
            Ok(p) => p,
            Err(e) => {
                return Err(e);
            },
        };
        let mut accounts: Vec<AccountRef> = Vec::new();
        push_account(&mut accounts, self.payer.dup(), true, true);
        push_account(&mut accounts, lending_market.dup(), true, true);
        push_account(&mut accounts, authority, false, false);
        push_account(&mut accounts, self.system_program.dup(), false, false);
        push_account(&mut accounts, self.rent_sysvar.dup(), false, false);
        let disc = op_discriminator("init_lending_market");
        let payload = encode_bytes32_arg(&disc, quote_currency);
        let ix = Instruction { program: self.program_id.dup(), accounts, payload };
        proof {
            let spec_ix = init_lending_market_spec(self@, lending_market@, quote_currency@);
            assert(spec_ix matches Ok(v) && ix@.accounts =~= v.accounts);
            assert(spec_ix matches Ok(v) && ix@ =~= v);
        }
        Ok(ix)
    }

    /// Resolves and builds the user metadata creation for `owner`.
    pub fn init_user_metadata(
        &self,
        owner: &Address,
        user_lookup_table: &Address,
        referrer_user_metadata: &Option<Address>,
    ) -> (r: Result<Instruction, ClientError>)
        requires
            self.wf(),
            owner.wf(),
            user_lookup_table.wf(),
            (referrer_user_metadata matches Some(a) ==> a.wf()),
        ensures
            (r matches Ok(ix) ==> init_user_metadata_spec(
                self@,
                owner@,
                user_lookup_table@,
                referrer_user_metadata.deep_view(),
            ) == Ok::<InstructionV, ClientError>(ix@) && ix.wf()),
            (r matches Err(e) ==> init_user_metadata_spec(
                self@,
                owner@,
                user_lookup_table@,
                referrer_user_metadata.deep_view(),
            ) == Err::<InstructionV, ClientError>(e)),
    {
        let (metadata, _metadata_bump) = match derive_user_metadata(self, owner) {
            Ok(p) => p,
            Err(e) => {
                return Err(e);
            },
        };
        let mut accounts: Vec<AccountRef> = Vec::new();
        push_account(&mut accounts, owner.dup(), true, false);
        push_account(&mut accounts, self.payer.dup(), true, true);
        push_account(&mut accounts, metadata, false, true);
        push_optional(&mut accounts, referrer_user_metadata, false);
        push_account(&mut accounts, self.rent_sysvar.dup(), false, false);
        push_account(&mut accounts, self.system_program.dup(), false, false);
        let disc = op_discriminator("init_user_metadata");
        let payload = encode_bytes32_arg(&disc, &user_lookup_table.bytes);
        let ix = Instruction { program: self.program_id.dup(), accounts, payload };
        proof {
            let spec_ix = init_user_metadata_spec(
                self@,
                owner@,
                user_lookup_table@,
                referrer_user_metadata.deep_view(),
            );
            assert(spec_ix matches Ok(v) && ix@.accounts =~= v.accounts);
            assert(spec_ix matches Ok(v) && ix@ =~= v);
        }
        Ok(ix)
    }

    /// Resolves and builds the position creation, deriving the position
    /// address from its tag, id, owner, market and seed accounts.
    pub fn init_obligation(
        &self,
        lending_market: &Address,
        obligation_owner: &Address,
        tag: u8,
        id: u8,
        seed1_account: &Address,
        seed2_account: &Address,
    ) -> (r: Result<Instruction, ClientError>)
        requires
            self.wf(),
            lending_market.wf(),
            obligation_owner.wf(),
            seed1_account.wf(),
            seed2_account.wf(),
        ensures
            (r matches Ok(ix) ==> init_obligation_spec(
                self@,
                lending_market@,
                obligation_owner@,
                tag,
                id,
                seed1_account@,
                seed2_account@,
            ) == Ok::<InstructionV, ClientError>(ix@) && ix.wf()),
            (r matches Err(e) ==> init_obligation_spec(
                self@,
                lending_market@,
                obligation_owner@,
                tag,
                id,
                seed1_account@,
                seed2_account@,
            ) == Err::<InstructionV, ClientError>(e)),
    {
        let (metadata, _metadata_bump) = match derive_user_metadata(self, obligation_owner) {
            Ok(p) => p,
            Err(e) => {
                return Err(e);
            },
        };
        let mut seeds: Vec<Vec<u8>> = Vec::new();
        let mut tag_seed: Vec<u8> = Vec::new();
        tag_seed.push(tag);
        let mut id_seed: Vec<u8> = Vec::new();
        id_seed.push(id);
        seeds.push(tag_seed);
        seeds.push(id_seed);
        seeds.push(copy_bytes(&obligation_owner.bytes));
        seeds.push(copy_bytes(&lending_market.bytes));
        seeds.push(copy_bytes(&seed1_account.bytes));
        seeds.push(copy_bytes(&seed2_account.bytes));
        proof {
            assert(seeds.deep_view() =~~= seq![
                seq![tag],
                seq![id],
                obligation_owner@,
                lending_market@,
                seed1_account@,
                seed2_account@,
            ]);
        }
        let (obligation, _obligation_bump) = match derive_address(&self.program_id, &seeds) {
            Ok(p) => p,
            Err(e) => {
                return Err(e);
            },
        };
        let mut accounts: Vec<AccountRef> = Vec::new();
        push_account(&mut accounts, obligation_owner.dup(), true, false);
        push_account(&mut accounts, self.payer.dup(), true, true);
        push_account(&mut accounts, obligation, false, true);
        push_account(&mut accounts, lending_market.dup(), false, false);
        push_account(&mut accounts, seed1_account.dup(), false, false);
        push_account(&mut accounts, seed2_account.dup(), false, false);
        push_account(&mut accounts, metadata, false, false);
        push_account(&mut accounts, self.rent_sysvar.dup(), false, false);
        push_account(&mut accounts, self.system_program.dup(), false, false);
        let disc = op_discriminator("init_obligation");
        let payload = encode_u8x2_args(&disc, tag, id);
        let ix = Instruction { program: self.program_id.dup(), accounts, payload };
        proof {
            let spec_ix = init_obligation_spec(
                self@,
                lending_market@,
                obligation_owner@,
                tag,
                id,
                seed1_account@,
                seed2_account@,
            );
            assert(spec_ix matches Ok(v) && ix@.accounts =~= v.accounts);
            assert(spec_ix matches Ok(v) && ix@ =~= v);
        }
        Ok(ix)
    }

    /// Resolves and builds the reserve creation for a liquidity mint.
    /// `reserve` is the address of a fresh signing key supplied by the
    /// caller; the vaults, fee receiver and collateral mint are derived
    /// from their documented seed schemes.
    pub fn init_reserve(
        &self,
        lending_market: &Address,
        reserve: &Address,
        reserve_liquidity_mint: &Address,
    ) -> (r: Result<Instruction, ClientError>)
        requires
            self.wf(),
            lending_market.wf(),
            reserve.wf(),
            reserve_liquidity_mint.wf(),
        ensures
            (r matches Ok(ix) ==> init_reserve_spec(
                self@,
                lending_market@,
                reserve@,
                reserve_liquidity_mint@,
            ) == Ok::<InstructionV, ClientError>(ix@) && ix.wf()),
            (r matches Err(e) ==> init_reserve_spec(
                self@,
                lending_market@,
                reserve@,
                reserve_liquidity_mint@,
            ) == Err::<InstructionV, ClientError>(e)),
    {
        let (authority, _authority_bump) = match derive_market_authority(self, lending_market) {
            Ok(p) => p,
            Err(e) => {
                return Err(e);
            },
        };
        let (liq_supply, _liq_supply_bump) = match derive_tagged2(
            &self.program_id,
            "reserve_liq_supply",
            lending_market,
            reserve_liquidity_mint,
        ) {
            Ok(p) => p,
            Err(e) => {
                return Err(e);
            },
        };
        let (fee_receiver, _fee_bump) = match derive_tagged2(
            &self.program_id,
            "fee_receiver",
            lending_market,
            reserve_liquidity_mint,
        ) {
            Ok(p) => p,
            Err(e) => {
                return Err(e);
            },
        };
        let (coll_mint, _coll_mint_bump) = match derive_tagged2(
            &self.program_id,
            "reserve_coll_mint",
            lending_market,
            reserve_liquidity_mint,
        ) {
            Ok(p) => p,
            Err(e) => {
                return Err(e);
            },
        };
        let (coll_supply, _coll_supply_bump) = match derive_tagged2(
            &self.program_id,
            "reserve_coll_supply",
            lending_market,
            reserve_liquidity_mint,
        ) {
            Ok(p) => p,
            Err(e) => {
                return Err(e);
            },
        };
        let (source, _source_bump) = match derive_token_account(
            self,
            &self.payer,
            reserve_liquidity_mint,
        ) {
            Ok(p) => p,
            Err(e) => {
                return Err(e);
            },
        };
        let mut accounts: Vec<AccountRef> = Vec::new();
        push_account(&mut accounts, self.payer.dup(), true, true);
        push_account(&mut accounts, lending_market.dup(), false, false);
        push_account(&mut accounts, authority, false, false);
        push_account(&mut accounts, reserve.dup(), true, true);
        push_account(&mut accounts, reserve_liquidity_mint.dup(), false, false);
        push_account(&mut accounts, liq_supply, false, true);
        push_account(&mut accounts, fee_receiver, false, true);
        push_account(&mut accounts, coll_mint, false, true);
        push_account(&mut accounts, coll_supply, false, true);
        push_account(&mut accounts, source, false, true);
        push_account(&mut accounts, self.rent_sysvar.dup(), false, false);
        push_account(&mut accounts, self.token_2022_program.dup(), false, false);
        push_account(&mut accounts, self.token_program.dup(), false, false);
        push_account(&mut accounts, self.system_program.dup(), false, false);
        let disc = op_discriminator("init_reserve");
        let payload = encode_no_args(&disc);
        let ix = Instruction { program: self.program_id.dup(), accounts, payload };
        proof {
            let spec_ix = init_reserve_spec(
                self@,
                lending_market@,
                reserve@,
                reserve_liquidity_mint@,
            );
            assert(spec_ix matches Ok(v) && ix@.accounts =~= v.accounts);
            assert(spec_ix matches Ok(v) && ix@ =~= v);
        }
        Ok(ix)
    }
}

} // verus!
