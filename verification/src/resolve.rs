//! Variable-length trailing account lists.
//!
//! The refresh and liquidation operations append one read-only, unsigned
//! account reference per relevant reserve or referrer state found in the
//! position snapshot, in the exact order: deposit reserves first, then
//! borrow reserves, then referrer token states. Entries holding the zero
//! address are skipped, never padded.

use vstd::prelude::*;

use crate::address::Address;
use crate::address::zero_address;
use crate::instruction::AccountRef;
use crate::instruction::AccountRefV;
use crate::instruction::acct;
use crate::instruction::accounts_view;
use crate::instruction::push_account;

verus! {

/// The read-only, unsigned references of the non-zero addresses of
/// `list`, in order.
pub open spec fn non_zero_accounts(list: Seq<Seq<u8>>) -> Seq<AccountRefV>
    decreases list.len(),
{
    if list.len() == 0 {
        Seq::empty()
    } else if list.last() == zero_address() {
        non_zero_accounts(list.drop_last())
    } else {
        non_zero_accounts(list.drop_last()).push(acct(list.last(), false, false))
    }
}

/// The trailing account list: deposit reserves, then borrow reserves,
/// then referrer token states, zero entries skipped.
pub open spec fn remaining_accounts_spec(
    deposits: Seq<Seq<u8>>,
    borrows: Seq<Seq<u8>>,
    referrers: Seq<Seq<u8>>,
) -> Seq<AccountRefV> {
    non_zero_accounts(deposits + borrows + referrers)
}

/// Every trailing entry is read-only, unsigned, and holds a non-zero
/// address from the input list.
pub proof fn lemma_trailing_entries_are_readonly(list: Seq<Seq<u8>>)
    ensures
        forall|i: int|
            #![trigger non_zero_accounts(list)[i]]
            0 <= i < non_zero_accounts(list).len() ==> {
                &&& !non_zero_accounts(list)[i].is_signer
                &&& !non_zero_accounts(list)[i].is_writable
                &&& non_zero_accounts(list)[i].address != zero_address()
                &&& list.contains(non_zero_accounts(list)[i].address)
            },
    decreases list.len(),
{
    if list.len() > 0 {
        lemma_trailing_entries_are_readonly(list.drop_last());
        let sub = non_zero_accounts(list.drop_last());
        let whole = non_zero_accounts(list);
        assert forall|i: int| 0 <= i < whole.len() implies {
            &&& !whole[i].is_signer
            &&& !whole[i].is_writable
            &&& whole[i].address != zero_address()
            &&& list.contains(whole[i].address)
        } by {
            if i < sub.len() {
                assert(whole[i] == sub[i]);
                let j = choose|j: int|
                    0 <= j < list.drop_last().len() && list.drop_last()[j] == sub[i].address;
                assert(list[j] == sub[i].address);
                assert(list.contains(sub[i].address));
            } else {
                assert(list.last() != zero_address());
                assert(whole[i] == acct(list.last(), false, false));
                assert(list[list.len() - 1] == list.last());
                assert(list.contains(list.last()));
            }
        }
    }
}

/// Concatenating two lists concatenates their trailing accounts.
pub proof fn lemma_non_zero_accounts_concat(a: Seq<Seq<u8>>, b: Seq<Seq<u8>>)
    ensures
        non_zero_accounts(a + b) == non_zero_accounts(a) + non_zero_accounts(b),
    decreases b.len(),
{
    if b.len() == 0 {
        assert(a + b =~= a);
        assert(non_zero_accounts(b) =~= Seq::<AccountRefV>::empty());
        assert(non_zero_accounts(a) + Seq::<AccountRefV>::empty() =~= non_zero_accounts(a));
    } else {
        lemma_non_zero_accounts_concat(a, b.drop_last());
        assert((a + b).drop_last() =~= a + b.drop_last());
        assert((a + b).last() == b.last());
        if b.last() == zero_address() {
        } else {
            assert(non_zero_accounts(a) + non_zero_accounts(b) =~= (non_zero_accounts(a)
                + non_zero_accounts(b.drop_last())).push(acct(b.last(), false, false)));
        }
    }
}

/// Appends the non-zero entries of `list`, each read-only and unsigned.
pub fn append_non_zero(accounts: &mut Vec<AccountRef>, list: &Vec<Address>)
    requires
        forall|i: int| 0 <= i < list@.len() ==> (#[trigger] list@[i]).wf(),
    ensures
        accounts_view(final(accounts)@) == accounts_view(old(accounts)@) + non_zero_accounts(
            list.deep_view(),
        ),
        forall|i: int|
            0 <= i < old(accounts)@.len() ==> final(accounts)@[i] == old(accounts)@[i],
        forall|i: int|
            #![trigger final(accounts)@[i]]
            old(accounts)@.len() <= i < final(accounts)@.len() ==> final(accounts)@[i].wf(),
{
    let ghost listv = list.deep_view();
    let n = list.len();
    proof {
        assert(listv.len() == n);
        assert(non_zero_accounts(listv.take(0)) =~= Seq::<AccountRefV>::empty());
        assert(accounts_view(accounts@) =~= accounts_view(accounts@) + non_zero_accounts(
            listv.take(0),
        ));
    }
    for i in 0..n
        invariant
            n == list@.len(),
            listv == list.deep_view(),
            forall|j: int| 0 <= j < list@.len() ==> (#[trigger] list@[j]).wf(),
            accounts_view(accounts@) == accounts_view(old(accounts)@) + non_zero_accounts(
                listv.take(i as int),
            ),
            forall|j: int| 0 <= j < old(accounts)@.len() ==> accounts@[j] == old(accounts)@[j],
            forall|j: int|
                old(accounts)@.len() <= j < accounts@.len() ==> (#[trigger] accounts@[j]).wf(),
    {
        proof {
            assert(listv.take(i + 1).drop_last() =~= listv.take(i as int));
            assert(listv.take(i + 1).last() == list@[i as int]@);
        }
        if !list[i].is_zero() {
            push_account(accounts, list[i].dup(), false, false);
            proof {
                assert(accounts_view(accounts@) =~= accounts_view(old(accounts)@)
                    + non_zero_accounts(listv.take(i + 1)));
            }
        } else {
            proof {
                assert(non_zero_accounts(listv.take(i + 1)) == non_zero_accounts(
                    listv.take(i as int),
                ));
            }
        }
    }
    proof {
        assert(listv.take(n as int) =~= listv);
    }
}

/// Builds the trailing account list from the position's deposit reserves,
/// borrow reserves and referrer token states.
pub fn remaining_accounts(
    deposits: &Vec<Address>,
    borrows: &Vec<Address>,
    referrers: &Vec<Address>,
) -> (r: Vec<AccountRef>)
    requires
        forall|i: int| 0 <= i < deposits@.len() ==> (#[trigger] deposits@[i]).wf(),
        forall|i: int| 0 <= i < borrows@.len() ==> (#[trigger] borrows@[i]).wf(),
        forall|i: int| 0 <= i < referrers@.len() ==> (#[trigger] referrers@[i]).wf(),
    ensures
        accounts_view(r@) == remaining_accounts_spec(
            deposits.deep_view(),
            borrows.deep_view(),
            referrers.deep_view(),
        ),
        forall|i: int| 0 <= i < r@.len() ==> (#[trigger] r@[i]).wf(),
{
    let mut accounts: Vec<AccountRef> = Vec::new();
    append_non_zero(&mut accounts, deposits);
    append_non_zero(&mut accounts, borrows);
    append_non_zero(&mut accounts, referrers);
    proof {
        lemma_non_zero_accounts_concat(deposits.deep_view(), borrows.deep_view());
        lemma_non_zero_accounts_concat(
            deposits.deep_view() + borrows.deep_view(),
            referrers.deep_view(),
        );
        assert(accounts_view(accounts@) =~= remaining_accounts_spec(
            deposits.deep_view(),
            borrows.deep_view(),
            referrers.deep_view(),
        ));
    }
    accounts
}

} // verus!
