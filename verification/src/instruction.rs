//! Account references and assembled instructions.
//!
//! An instruction names its target program, an ordered list of account
//! references, and an opaque payload (discriminator plus serialized
//! arguments). The order and flags of the account list must match the
//! remote program's schema exactly.

use vstd::prelude::*;

use crate::address::Address;

verus! {

/// One slot of an instruction's account list.
pub struct AccountRef {
    pub address: Address,
    pub is_signer: bool,
    pub is_writable: bool,
}

/// The mathematical value of an `AccountRef`.
#[verifier::ext_equal]
pub ghost struct AccountRefV {
    pub address: Seq<u8>,
    pub is_signer: bool,
    pub is_writable: bool,
}

impl View for AccountRef {
    type V = AccountRefV;

    open spec fn view(&self) -> AccountRefV {
        AccountRefV { address: self.address@, is_signer: self.is_signer, is_writable: self.is_writable }
    }
}

/// Shorthand for one account list entry in contracts.
pub open spec fn acct(address: Seq<u8>, is_signer: bool, is_writable: bool) -> AccountRefV {
    AccountRefV { address, is_signer, is_writable }
}

/// The values of a whole account list.
pub open spec fn accounts_view(accounts: Seq<AccountRef>) -> Seq<AccountRefV> {
    accounts.map_values(|a: AccountRef| a@)
}

impl AccountRef {
    pub open spec fn wf(&self) -> bool {
        self.address.wf()
    }
}

/// Appends one entry to an account list.
pub fn push_account(
    accounts: &mut Vec<AccountRef>,
    address: Address,
    is_signer: bool,
    is_writable: bool,
)
    ensures
        accounts_view(final(accounts)@) == accounts_view(old(accounts)@).push(
            acct(address@, is_signer, is_writable),
        ),
        final(accounts)@ == old(accounts)@.push(
            (AccountRef { address, is_signer, is_writable }),
        ),
        final(accounts)@.len() == old(accounts)@.len() + 1,
{
    let ghost a_view = address@;
    accounts.push(AccountRef { address, is_signer, is_writable });
    proof {
        assert(accounts_view(accounts@) =~= accounts_view(old(accounts)@).push(
            acct(a_view, is_signer, is_writable),
        ));
    }
}

/// An assembled instruction.
pub struct Instruction {
    pub program: Address,
    pub accounts: Vec<AccountRef>,
    pub payload: Vec<u8>,
}

/// The mathematical value of an `Instruction`.
#[verifier::ext_equal]
pub ghost struct InstructionV {
    pub program: Seq<u8>,
    pub accounts: Seq<AccountRefV>,
    pub payload: Seq<u8>,
}

impl View for Instruction {
    type V = InstructionV;

    open spec fn view(&self) -> InstructionV {
        InstructionV {
            program: self.program@,
            accounts: accounts_view(self.accounts@),
            payload: self.payload@,
        }
    }
}

impl Instruction {
    pub open spec fn wf(&self) -> bool {
        self.program.wf() && (forall|i: int|
            0 <= i < self.accounts@.len() ==> #[trigger] self.accounts@[i].wf())
    }
}

} // verus!
