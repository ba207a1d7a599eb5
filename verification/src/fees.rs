//! Fee estimation and compute budget requests.

use vstd::prelude::*;
use vstd::bytes::spec_u32_to_le_bytes;
use vstd::bytes::u32_to_le_bytes;
use vstd::bytes::u64_to_le_bytes;

use crate::codec::append_bytes;
use crate::codec::le64;
use crate::context::ClientContext;
use crate::context::CtxV;
use crate::instruction::AccountRef;
use crate::instruction::Instruction;
use crate::instruction::InstructionV;

verus! {

/// The flat cost of one signature, in base fee units.
pub const DEFAULT_SIGNATURE_FEE: u64 = 5000;

/// The compute-unit budget assumed for one transaction.
pub const DEFAULT_COMPUTE_UNIT_LIMIT: u64 = 200000;

/// The price per compute unit assumed when the caller gives none.
pub const DEFAULT_COMPUTE_UNIT_PRICE: u64 = 1000;

/// The estimate: signatures at the flat rate, plus the default
/// compute-unit budget at the given (or default) price. An estimate for
/// client-side budgeting only; the remote environment is the fee
/// authority.
pub open spec fn estimate_spec(num_signatures: usize, compute_unit_price: Option<u64>) -> int {
    num_signatures * 5000 + 200000 * (match compute_unit_price {
        Option::Some(p) => p as int,
        Option::None => 1000,
    })
}

/// Estimates the total cost of a transaction with `num_signatures`
/// signatures at the given compute-unit price.
pub fn estimate_transaction_fee(num_signatures: usize, compute_unit_price: Option<u64>) -> (r:
    u64)
    requires
        estimate_spec(num_signatures, compute_unit_price) <= u64::MAX,
    ensures
        r == estimate_spec(num_signatures, compute_unit_price),
{
    let signature_fee = (num_signatures as u64) * DEFAULT_SIGNATURE_FEE;
    let unit_price = match compute_unit_price {
        Some(p) => p,
        None => DEFAULT_COMPUTE_UNIT_PRICE,
    };
    let compute_budget_fee = DEFAULT_COMPUTE_UNIT_LIMIT * unit_price;
    signature_fee + compute_budget_fee
}

/// What the compute-unit limit request looks like: the budget program,
/// no accounts, payload tag 2 and the limit in little-endian form.
pub open spec fn set_compute_unit_limit_spec(ctx: CtxV, limit: u32) -> InstructionV {
    InstructionV {
        program: ctx.compute_budget_program,
        accounts: Seq::empty(),
        payload: seq![2u8] + spec_u32_to_le_bytes(limit),
    }
}

/// What the compute-unit price request looks like: the budget program,
/// no accounts, payload tag 3 and the price in little-endian form.
pub open spec fn set_compute_unit_price_spec(ctx: CtxV, price: u64) -> InstructionV {
    InstructionV {
        program: ctx.compute_budget_program,
        accounts: Seq::empty(),
        payload: seq![3u8] + le64(price),
    }
}

/// What `create_compute_budget_ix` returns: a limit request where the
/// limit is positive, then a price request where the price is positive.
pub open spec fn compute_budget_ixs_spec(ctx: CtxV, limit: u32, price: u64) -> Seq<InstructionV> {
    (if limit > 0 {
        seq![set_compute_unit_limit_spec(ctx, limit)]
    } else {
        Seq::empty()
    }) + (if price > 0 {
        seq![set_compute_unit_price_spec(ctx, price)]
    } else {
        Seq::empty()
    })
}

/// Builds the compute budget requests for a transaction: one to raise the
/// compute-unit limit and one to set the compute-unit price, each only
/// where its argument is positive.
pub fn create_compute_budget_ix(
    ctx: &ClientContext,
    compute_unit_limit: u32,
    compute_unit_price: u64,
) -> (r: Vec<Instruction>)
    requires
        ctx.wf(),
    ensures
        r@.map_values(|ix: Instruction| ix@) == compute_budget_ixs_spec(
            ctx@,
            compute_unit_limit,
            compute_unit_price,
        ),
        forall|i: int| 0 <= i < r@.len() ==> (#[trigger] r@[i]).wf(),
{
    let mut ixs: Vec<Instruction> = Vec::new();
    let ghost limit_part = (if compute_unit_limit > 0 {
        seq![set_compute_unit_limit_spec(ctx@, compute_unit_limit)]
    } else {
        Seq::<InstructionV>::empty()
    });
    if compute_unit_limit > 0 {
        let mut payload: Vec<u8> = Vec::new();
        payload.push(2u8);
        let limit_bytes = u32_to_le_bytes(compute_unit_limit);
        append_bytes(&mut payload, &limit_bytes);
        proof {
            assert(payload@ =~= seq![2u8] + spec_u32_to_le_bytes(compute_unit_limit));
        }
        let accounts: Vec<AccountRef> = Vec::new();
        let ix = Instruction { program: ctx.compute_budget_program.dup(), accounts, payload };
        proof {
            assert(ix@.accounts =~= Seq::<crate::instruction::AccountRefV>::empty());
            assert(ix@ =~= set_compute_unit_limit_spec(ctx@, compute_unit_limit));
        }
        ixs.push(ix);
    }
    proof {
        assert(ixs@.map_values(|ix: Instruction| ix@) =~= limit_part);
    }
    if compute_unit_price > 0 {
        let mut payload: Vec<u8> = Vec::new();
        payload.push(3u8);
        let price_bytes = u64_to_le_bytes(compute_unit_price);
        append_bytes(&mut payload, &price_bytes);
        proof {
            assert(payload@ =~= seq![3u8] + le64(compute_unit_price));
        }
        let accounts: Vec<AccountRef> = Vec::new();
        let ix = Instruction { program: ctx.compute_budget_program.dup(), accounts, payload };
        proof {
            assert(ix@.accounts =~= Seq::<crate::instruction::AccountRefV>::empty());
            assert(ix@ =~= set_compute_unit_price_spec(ctx@, compute_unit_price));
        }
        ixs.push(ix);
    }
    proof {
        assert(ixs@.map_values(|ix: Instruction| ix@) =~= compute_budget_ixs_spec(
            ctx@,
            compute_unit_limit,
            compute_unit_price,
        ));
    }
    ixs
}

} // verus!
