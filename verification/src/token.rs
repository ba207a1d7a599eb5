//! The caller's token-holding accounts.
//!
//! A wallet's token account for a mint is a deterministic derivation from
//! `(wallet, token program, mint)` under the associated-token program. The
//! account is assumed to exist; creating it is an explicit separate step
//! that `get_or_create_ata_ix` prepares and the caller submits.

use vstd::prelude::*;

use crate::address::Address;
use crate::address::copy_bytes;
use crate::context::ClientContext;
use crate::context::CtxV;
use crate::errors::ClientError;
use crate::instruction::AccountRef;
use crate::instruction::Instruction;
use crate::instruction::InstructionV;
use crate::instruction::acct;
use crate::instruction::push_account;
use crate::pda::derive_spec;
use crate::pda::derive_address;

verus! {

/// The token account of `wallet` for `mint`: the derivation from the
/// documented seed scheme under the associated-token program.
pub open spec fn token_account_spec(ctx: CtxV, wallet: Seq<u8>, mint: Seq<u8>) -> Result<
    (Seq<u8>, u8),
    ClientError,
> {
    derive_spec(ctx.ata_program, seq![wallet, ctx.token_program, mint])
}

/// Derives the token-holding account of `wallet` for `mint`.
pub fn derive_token_account(ctx: &ClientContext, wallet: &Address, mint: &Address) -> (r: Result<
    (Address, u8),
    ClientError,
>)
    requires
        ctx.wf(),
        wallet.wf(),
        mint.wf(),
    ensures
        (r matches Ok(p) ==> token_account_spec(ctx@, wallet@, mint@)
            == Ok::<(Seq<u8>, u8), ClientError>((p.0@, p.1)) && p.0.wf()),
        (r matches Err(e) ==> token_account_spec(ctx@, wallet@, mint@)
            == Err::<(Seq<u8>, u8), ClientError>(e)),
{
    let mut seeds: Vec<Vec<u8>> = Vec::new();
    seeds.push(copy_bytes(&wallet.bytes));
    seeds.push(copy_bytes(&ctx.token_program.bytes));
    seeds.push(copy_bytes(&mint.bytes));
    proof {
        assert(seeds.deep_view() =~~= seq![wallet@, ctx@.token_program, mint@]);
    }
    derive_address(&ctx.ata_program, &seeds)
}

/// What `create_token_account_ix` assembles: the account-creation request
/// of the associated-token program, funded by the context's payer.
pub open spec fn create_token_account_ix_spec(
    ctx: CtxV,
    wallet: Seq<u8>,
    mint: Seq<u8>,
    token_account: Seq<u8>,
) -> InstructionV {
    InstructionV {
        program: ctx.ata_program,
        accounts: seq![
            (acct(ctx.payer, true, true)),
            (acct(token_account, false, true)),
            (acct(wallet, false, false)),
            (acct(mint, false, false)),
            (acct(ctx.system_program, false, false)),
            (acct(ctx.token_program, false, false)),
        ],
        payload: seq![0u8],
    }
}

/// Resolves the token account of `wallet` for `mint` and prepares the
/// request that would create it. The account is not inspected: creation is
/// left to the caller, never injected silently.
pub fn get_or_create_ata_ix(ctx: &ClientContext, wallet: &Address, mint: &Address) -> (r: Result<
    (Address, Option<Instruction>),
    ClientError,
>)
    requires
        ctx.wf(),
        wallet.wf(),
        mint.wf(),
    ensures
        (r matches Ok(p) ==> {
            &&& token_account_spec(ctx@, wallet@, mint@) matches Ok(q) && q.0 == p.0@
            &&& p.0.wf()
            &&& p.1 matches Some(ix) && ix@ == create_token_account_ix_spec(
                ctx@,
                wallet@,
                mint@,
                p.0@,
            ) && ix.wf()
        }),
        (r matches Err(e) ==> token_account_spec(ctx@, wallet@, mint@)
            == Err::<(Seq<u8>, u8), ClientError>(e)),
{
    let (token_account, _bump) = match derive_token_account(ctx, wallet, mint) {
        Ok(p) => p,
        Err(e) => {
            return Err(e);
        },
    };
    let mut accounts: Vec<AccountRef> = Vec::new();
    push_account(&mut accounts, ctx.payer.dup(), true, true);
    push_account(&mut accounts, token_account.dup(), false, true);
    push_account(&mut accounts, wallet.dup(), false, false);
    push_account(&mut accounts, mint.dup(), false, false);
    push_account(&mut accounts, ctx.system_program.dup(), false, false);
    push_account(&mut accounts, ctx.token_program.dup(), false, false);
    let mut payload: Vec<u8> = Vec::new();
    payload.push(0u8);
    let ix = Instruction { program: ctx.ata_program.dup(), accounts, payload };
    proof {
        assert(ix@.accounts =~= create_token_account_ix_spec(
            ctx@,
            wallet@,
            mint@,
            token_account@,
        ).accounts);
        assert(ix@.payload =~= seq![0u8]);
        assert(ix@ =~= create_token_account_ix_spec(ctx@, wallet@, mint@, token_account@));
    }
    Ok((token_account, Some(ix)))
}

} // verus!
