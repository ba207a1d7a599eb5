//! Shared derivations and helpers of the operation builders.

use vstd::prelude::*;
use vstd::string::*;

use crate::address::Address;
use crate::address::copy_bytes;
use crate::context::ClientContext;
use crate::context::CtxV;
use crate::errors::ClientError;
use crate::instruction::AccountRef;
use crate::instruction::AccountRefV;
use crate::instruction::acct;
use crate::instruction::accounts_view;
use crate::instruction::push_account;
use crate::pda::derive_address;
use crate::pda::derive_spec;

verus! {

/// The derivation for a constant tag seed followed by one key.
pub open spec fn tagged1_spec(program: Seq<u8>, tag: Seq<char>, a: Seq<u8>) -> Result<
    (Seq<u8>, u8),
    ClientError,
> {
    derive_spec(program, seq![spec_bytes_of(tag), a])
}

/// The derivation for a constant tag seed followed by two keys.
pub open spec fn tagged2_spec(program: Seq<u8>, tag: Seq<char>, a: Seq<u8>, b: Seq<u8>) -> Result<
    (Seq<u8>, u8),
    ClientError,
> {
    derive_spec(program, seq![spec_bytes_of(tag), a, b])
}

/// The UTF-8 bytes of a tag, as the seed carries them.
pub open spec fn spec_bytes_of(tag: Seq<char>) -> Seq<u8> {
    vstd::utf8::encode_utf8(tag)
}

/// Derives the address for a tag seed and one key.
pub fn derive_tagged1(program: &Address, tag: &str, a: &Address) -> (r: Result<
    (Address, u8),
    ClientError,
>)
    requires
        program.wf(),
        a.wf(),
    ensures
        (r matches Ok(p) ==> tagged1_spec(program@, tag@, a@) == Ok::<(Seq<u8>, u8), ClientError>(
            (p.0@, p.1),
        ) && p.0.wf()),
        (r matches Err(e) ==> tagged1_spec(program@, tag@, a@) == Err::<(Seq<u8>, u8), ClientError>(
            e,
        )),
{
    let mut seeds: Vec<Vec<u8>> = Vec::new();
    seeds.push(tag.as_bytes_vec());
    seeds.push(copy_bytes(&a.bytes));
    proof {
        assert(seeds.deep_view() =~~= seq![spec_bytes_of(tag@), a@]);
    }
    derive_address(program, &seeds)
}

/// Derives the address for a tag seed and two keys.
pub fn derive_tagged2(program: &Address, tag: &str, a: &Address, b: &Address) -> (r: Result<
    (Address, u8),
    ClientError,
>)
    requires
        program.wf(),
        a.wf(),
        b.wf(),
    ensures
        (r matches Ok(p) ==> tagged2_spec(program@, tag@, a@, b@) == Ok::<
            (Seq<u8>, u8),
            ClientError,
        >((p.0@, p.1)) && p.0.wf()),
        (r matches Err(e) ==> tagged2_spec(program@, tag@, a@, b@) == Err::<
            (Seq<u8>, u8),
            ClientError,
        >(e)),
{
    let mut seeds: Vec<Vec<u8>> = Vec::new();
    seeds.push(tag.as_bytes_vec());
    seeds.push(copy_bytes(&a.bytes));
    seeds.push(copy_bytes(&b.bytes));
    proof {
        assert(seeds.deep_view() =~~= seq![spec_bytes_of(tag@), a@, b@]);
    }
    derive_address(program, &seeds)
}

/// The authority of a lending market.
pub open spec fn market_authority_spec(ctx: CtxV, market: Seq<u8>) -> Result<
    (Seq<u8>, u8),
    ClientError,
> {
    tagged1_spec(ctx.program_id, "lma"@, market)
}

/// Derives the authority of a lending market.
pub fn derive_market_authority(ctx: &ClientContext, market: &Address) -> (r: Result<
    (Address, u8),
    ClientError,
>)
    requires
        ctx.wf(),
        market.wf(),
    ensures
        (r matches Ok(p) ==> market_authority_spec(ctx@, market@) == Ok::<
            (Seq<u8>, u8),
            ClientError,
        >((p.0@, p.1)) && p.0.wf()),
        (r matches Err(e) ==> market_authority_spec(ctx@, market@) == Err::<
            (Seq<u8>, u8),
            ClientError,
        >(e)),
{
    derive_tagged1(&ctx.program_id, "lma", market)
}

/// The metadata account of a user.
pub open spec fn user_metadata_spec(ctx: CtxV, owner: Seq<u8>) -> Result<
    (Seq<u8>, u8),
    ClientError,
> {
    tagged1_spec(ctx.program_id, "user_meta"@, owner)
}

/// Derives the metadata account of a user.
pub fn derive_user_metadata(ctx: &ClientContext, owner: &Address) -> (r: Result<
    (Address, u8),
    ClientError,
>)
    requires
        ctx.wf(),
        owner.wf(),
    ensures
        (r matches Ok(p) ==> user_metadata_spec(ctx@, owner@) == Ok::<
            (Seq<u8>, u8),
            ClientError,
        >((p.0@, p.1)) && p.0.wf()),
        (r matches Err(e) ==> user_metadata_spec(ctx@, owner@) == Err::<
            (Seq<u8>, u8),
            ClientError,
        >(e)),
{
    derive_tagged1(&ctx.program_id, "user_meta", owner)
}

/// An optional slot: present addresses occupy one entry, absent slots are
/// omitted from the list entirely.
pub open spec fn optional_account(slot: Option<Seq<u8>>, is_writable: bool) -> Seq<AccountRefV> {
    match slot {
        Option::None => Seq::empty(),
        Option::Some(a) => seq![acct(a, false, is_writable)],
    }
}

/// Appends an optional slot to an account list.
pub fn push_optional(accounts: &mut Vec<AccountRef>, slot: &Option<Address>, is_writable: bool)
    requires
        (slot matches Some(a) ==> a.wf()),
    ensures
        accounts_view(final(accounts)@) == accounts_view(old(accounts)@) + optional_account(
            slot.deep_view(),
            is_writable,
        ),
        forall|i: int|
            0 <= i < old(accounts)@.len() ==> final(accounts)@[i] == old(accounts)@[i],
        forall|i: int|
            #![trigger final(accounts)@[i]]
            old(accounts)@.len() <= i < final(accounts)@.len() ==> final(accounts)@[i].wf(),
{
    match slot {
        Some(a) => {
            push_account(accounts, a.dup(), false, is_writable);
            proof {
                assert(accounts_view(accounts@) =~= accounts_view(old(accounts)@)
                    + optional_account(slot.deep_view(), is_writable));
            }
        },
        None => {
            proof {
                assert(accounts_view(accounts@) =~= accounts_view(old(accounts)@)
                    + optional_account(slot.deep_view(), is_writable));
            }
        },
    }
}

} // verus!
