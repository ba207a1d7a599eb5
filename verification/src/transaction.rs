//! Assembling instructions into a transaction.
//!
//! A transaction carries its instructions in submission order, the fee
//! payer, the freshness token read from the ledger, and the distinct set
//! of addresses whose signatures it needs: the fee payer plus every
//! account reference any instruction marks as a signer.

use vstd::prelude::*;

use crate::address::Address;
use crate::address::lemma_deep_view_push;
use crate::context::ClientContext;
use crate::instruction::Instruction;
use crate::instruction::InstructionV;

verus! {

/// Whether `a` must sign a transaction with these instructions and this
/// fee payer.
pub open spec fn is_required_signer(
    instructions: Seq<InstructionV>,
    payer: Seq<u8>,
    a: Seq<u8>,
) -> bool {
    a == payer || (exists|i: int, j: int|
        0 <= i < instructions.len() && 0 <= j < instructions[i].accounts.len()
            && (#[trigger] instructions[i].accounts[j]).is_signer
            && instructions[i].accounts[j].address == a)
}

/// The values of a whole instruction list.
pub open spec fn instructions_view(instructions: Seq<Instruction>) -> Seq<InstructionV> {
    instructions.map_values(|ix: Instruction| ix@)
}

/// An assembled transaction.
pub struct Transaction {
    pub instructions: Vec<Instruction>,
    pub fee_payer: Address,
    pub recent_anchor: Vec<u8>,
    pub signers: Vec<Address>,
}

impl Transaction {
    pub open spec fn wf(&self) -> bool {
        &&& self.fee_payer.wf()
        &&& self.recent_anchor@.len() == 32
        &&& (forall|i: int| 0 <= i < self.instructions@.len() ==> (#[trigger] self.instructions@[i]).wf())
        &&& (forall|i: int| 0 <= i < self.signers@.len() ==> (#[trigger] self.signers@[i]).wf())
    }

    /// The signer set is exactly the required signers, without
    /// duplicates.
    pub open spec fn signers_exact(&self) -> bool {
        &&& (forall|i: int, j: int|
            0 <= i < j < self.signers@.len() ==> self.signers@[i]@ != self.signers@[j]@)
        &&& (forall|i: int|
            0 <= i < self.signers@.len() ==> is_required_signer(
                instructions_view(self.instructions@),
                self.fee_payer@,
                #[trigger] self.signers@[i]@,
            ))
        &&& (forall|a: Seq<u8>|
            is_required_signer(instructions_view(self.instructions@), self.fee_payer@, a)
                ==> self.signers.deep_view().contains(a))
    }
}

/// Whether the list holds an address with these bytes.
pub fn contains_address(list: &Vec<Address>, a: &Address) -> (r: bool)
    ensures
        r == list.deep_view().contains(a@),
{
    let n = list.len();
    for i in 0..n
        invariant
            n == list@.len(),
            forall|j: int| 0 <= j < i ==> list.deep_view()[j] != a@,
    {
        if list[i].eq_address(a) {
            proof {
                assert(list.deep_view()[i as int] == a@);
            }
            return true;
        }
    }
    false
}

/// Appends `a` unless an address with the same bytes is already present.
fn push_unique(out: &mut Vec<Address>, a: Address)
    requires
        a.wf(),
    ensures
        final(out).deep_view().contains(a@),
        forall|x: Seq<u8>| old(out).deep_view().contains(x) ==> final(out).deep_view().contains(x),
        forall|i: int|
            0 <= i < final(out)@.len() ==> old(out).deep_view().contains(
                #[trigger] final(out)@[i]@,
            ) || final(out)@[i]@ == a@,
        (forall|i: int, j: int| 0 <= i < j < old(out)@.len() ==> old(out)@[i]@ != old(out)@[j]@)
            ==> (forall|i: int, j: int|
            0 <= i < j < final(out)@.len() ==> final(out)@[i]@ != final(out)@[j]@),
        (forall|i: int| 0 <= i < old(out)@.len() ==> (#[trigger] old(out)@[i]).wf()) ==> (forall|
            i: int,
        |
            0 <= i < final(out)@.len() ==> (#[trigger] final(out)@[i]).wf()),
{
    if !contains_address(out, &a) {
        let ghost prev = *out;
        let ghost av = a@;
        out.push(a);
        proof {
            lemma_deep_view_push(prev, *out, out@[out@.len() - 1]);
            assert(out.deep_view()[out@.len() - 1] == av);
            assert forall|x: Seq<u8>| prev.deep_view().contains(x) implies out.deep_view().contains(
                x,
            ) by {
                let k = choose|k: int| 0 <= k < prev.deep_view().len() && prev.deep_view()[k] == x;
                assert(out.deep_view()[k] == x);
            }
            assert forall|k: int| 0 <= k < prev@.len() implies prev@[k]@ != av by {
                assert(prev.deep_view()[k] == prev@[k]@);
            }
            assert forall|k: int| 0 <= k < out@.len() implies prev.deep_view().contains(out@[k]@)
                || out@[k]@ == av by {
                if k < prev@.len() {
                    assert(out@[k] == prev@[k]);
                    assert(prev.deep_view()[k] == prev@[k]@);
                }
            }
            if (forall|i: int, j: int| 0 <= i < j < prev@.len() ==> prev@[i]@ != prev@[j]@) {
                assert forall|i: int, j: int| 0 <= i < j < out@.len() implies out@[i]@
                    != out@[j]@ by {
                    if j < prev@.len() {
                        assert(out@[i] == prev@[i] && out@[j] == prev@[j]);
                    } else {
                        assert(out@[j]@ == av);
                        assert(out@[i] == prev@[i]);
                    }
                }
            }
        }
    } else {
        proof {
            assert(out.deep_view().contains(a@));
            assert forall|k: int| 0 <= k < out@.len() implies out.deep_view().contains(
                out@[k]@,
            ) by {
                assert(out.deep_view()[k] == out@[k]@);
            }
        }
    }
}

/// Collects the distinct required signers of the instructions: the fee
/// payer first, then every signer-marked account reference, each address
/// once.
pub fn required_signers(payer: &Address, instructions: &Vec<Instruction>) -> (r: Vec<Address>)
    requires
        payer.wf(),
        forall|i: int| 0 <= i < instructions@.len() ==> (#[trigger] instructions@[i]).wf(),
    ensures
        r@.len() >= 1,
        forall|i: int, j: int| 0 <= i < j < r@.len() ==> r@[i]@ != r@[j]@,
        forall|i: int|
            0 <= i < r@.len() ==> is_required_signer(
                instructions_view(instructions@),
                payer@,
                #[trigger] r@[i]@,
            ),
        forall|a: Seq<u8>|
            is_required_signer(instructions_view(instructions@), payer@, a)
                ==> r.deep_view().contains(a),
        forall|i: int| 0 <= i < r@.len() ==> (#[trigger] r@[i]).wf(),
{
    let ghost all = instructions_view(instructions@);
    let mut out: Vec<Address> = Vec::new();
    push_unique(&mut out, payer.dup());
    let n = instructions.len();
    for i in 0..n
        invariant
            n == instructions@.len(),
            all == instructions_view(instructions@),
            forall|k: int| 0 <= k < instructions@.len() ==> (#[trigger] instructions@[k]).wf(),
            payer.wf(),
            out@.len() >= 1,
            out.deep_view().contains(payer@),
            forall|k: int, l: int| 0 <= k < l < out@.len() ==> out@[k]@ != out@[l]@,
            forall|k: int|
                0 <= k < out@.len() ==> is_required_signer(all, payer@, #[trigger] out@[k]@),
            forall|k: int| 0 <= k < out@.len() ==> (#[trigger] out@[k]).wf(),
            forall|i2: int, j2: int|
                0 <= i2 < i && 0 <= j2 < all[i2].accounts.len() && (#[trigger] all[i2].accounts[j2]).is_signer
                    ==> out.deep_view().contains(all[i2].accounts[j2].address),
    {
        let m = instructions[i].accounts.len();
        for j in 0..m
            invariant
                n == instructions@.len(),
                i < n,
                m == instructions@[i as int].accounts@.len(),
                all == instructions_view(instructions@),
                forall|k: int| 0 <= k < instructions@.len() ==> (#[trigger] instructions@[k]).wf(),
                payer.wf(),
                out@.len() >= 1,
                out.deep_view().contains(payer@),
                forall|k: int, l: int| 0 <= k < l < out@.len() ==> out@[k]@ != out@[l]@,
                forall|k: int|
                    0 <= k < out@.len() ==> is_required_signer(all, payer@, #[trigger] out@[k]@),
                forall|k: int| 0 <= k < out@.len() ==> (#[trigger] out@[k]).wf(),
                forall|i2: int, j2: int|
                    0 <= i2 < i && 0 <= j2 < all[i2].accounts.len() && (#[trigger] all[i2].accounts[j2]).is_signer
                        ==> out.deep_view().contains(all[i2].accounts[j2].address),
                forall|j2: int|
                    0 <= j2 < j && (#[trigger] all[i as int].accounts[j2]).is_signer
                        ==> out.deep_view().contains(all[i as int].accounts[j2].address),
        {
            proof {
                assert(all[i as int] == instructions@[i as int]@);
                assert(all[i as int].accounts[j as int]
                    == instructions@[i as int].accounts@[j as int]@);
            }
            if instructions[i].accounts[j].is_signer {
                let ghost candidate = all[i as int].accounts[j as int].address;
                proof {
                    assert(is_required_signer(all, payer@, candidate));
                    assert(instructions@[i as int].wf());
                    assert(instructions@[i as int].accounts@[j as int].wf());
                }
                push_unique(&mut out, instructions[i].accounts[j].address.dup());
            }
        }
    }
    proof {
        assert forall|a: Seq<u8>| is_required_signer(all, payer@, a) implies out.deep_view()
            .contains(a) by {
            if a == payer@ {
            } else {
                let (i, j) = choose|i: int, j: int|
                    0 <= i < all.len() && 0 <= j < all[i].accounts.len()
                        && (#[trigger] all[i].accounts[j]).is_signer && all[i].accounts[j].address
                        == a;
                assert(out.deep_view().contains(all[i].accounts[j].address));
            }
        }
    }
    out
}

impl Transaction {
    /// Wraps instructions, the context's payer and a freshness token into
    /// a transaction whose signer set is exactly the required one.
    pub fn assemble(
        ctx: &ClientContext,
        instructions: Vec<Instruction>,
        recent_anchor: Vec<u8>,
    ) -> (r: Transaction)
        requires
            ctx.wf(),
            recent_anchor@.len() == 32,
            forall|i: int| 0 <= i < instructions@.len() ==> (#[trigger] instructions@[i]).wf(),
        ensures
            r.wf(),
            r.signers_exact(),
            r.instructions@ == instructions@,
            r.fee_payer@ == ctx@.payer,
            r.recent_anchor@ == recent_anchor@,
            r.signers@.len() >= 1,
    {
        let fee_payer = ctx.payer.dup();
        let signers = required_signers(&fee_payer, &instructions);
        Transaction { instructions, fee_payer, recent_anchor, signers }
    }

    /// How many signatures the transaction carries.
    pub fn signature_count(&self) -> (r: usize)
        ensures
            r == self.signers@.len(),
    {
        self.signers.len()
    }
}

} // verus!
