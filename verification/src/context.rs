//! The immutable client context passed to every operation.
//!
//! It carries the payer address plus the fixed addresses of the lending
//! program and of the auxiliary programs and sysvars that the account
//! schemas reference. Each fixed address is the base58 decoding of its
//! well-known string form.

use vstd::prelude::*;

use crate::address::Address;
use crate::address::base58_decode;
use crate::address::parse_address;

verus! {

/// The mathematical value of a `ClientContext`.
#[verifier::ext_equal]
pub ghost struct CtxV {
    pub program_id: Seq<u8>,
    pub payer: Seq<u8>,
    pub token_program: Seq<u8>,
    pub token_2022_program: Seq<u8>,
    pub ata_program: Seq<u8>,
    pub system_program: Seq<u8>,
    pub rent_sysvar: Seq<u8>,
    pub instructions_sysvar: Seq<u8>,
    pub compute_budget_program: Seq<u8>,
}

/// The read-only handle that every operation receives: the payer and the
/// protocol's fixed addresses. It holds no mutable state.
pub struct ClientContext {
    pub program_id: Address,
    pub payer: Address,
    pub token_program: Address,
    pub token_2022_program: Address,
    pub ata_program: Address,
    pub system_program: Address,
    pub rent_sysvar: Address,
    pub instructions_sysvar: Address,
    pub compute_budget_program: Address,
}

impl View for ClientContext {
    type V = CtxV;

    open spec fn view(&self) -> CtxV {
        CtxV {
            program_id: self.program_id@,
            payer: self.payer@,
            token_program: self.token_program@,
            token_2022_program: self.token_2022_program@,
            ata_program: self.ata_program@,
            system_program: self.system_program@,
            rent_sysvar: self.rent_sysvar@,
            instructions_sysvar: self.instructions_sysvar@,
            compute_budget_program: self.compute_budget_program@,
        }
    }
}

impl ClientContext {
    pub open spec fn wf(&self) -> bool {
        &&& self.program_id.wf()
        &&& self.payer.wf()
        &&& self.token_program.wf()
        &&& self.token_2022_program.wf()
        &&& self.ata_program.wf()
        &&& self.system_program.wf()
        &&& self.rent_sysvar.wf()
        &&& self.instructions_sysvar.wf()
        &&& self.compute_budget_program.wf()
    }

    /// Builds the context for the given payer, decoding every fixed
    /// address from its well-known base58 form. `None` only where one of
    /// those decodings fails.
    pub fn new(payer: Address) -> (r: Option<ClientContext>)
        requires
            payer.wf(),
        ensures
            (r matches Some(c) ==> {
                &&& c.wf()
                &&& c@.payer == payer@
                &&& Some(c@.program_id) == base58_decode(
                    "KLend2g3cP87fffoy8q1mQqGKjrxjC8boSyAYavgmjD"@,
                )
                &&& Some(c@.token_program) == base58_decode(
                    "TokenkegQfeZyiNwAJbNbGKPFXCWuBvf9Ss623VQ5DA"@,
                )
                &&& Some(c@.token_2022_program) == base58_decode(
                    "TokenzQdBNbLqP5VEhdkAS6EPFLC1PHnBqCXEpPxuEb"@,
                )
                &&& Some(c@.ata_program) == base58_decode(
                    "ATokenGPvbdGVxr1b2hvZbsiqW5xWH25efTNsLJA8knL"@,
                )
                &&& Some(c@.system_program) == base58_decode(
                    "11111111111111111111111111111111"@,
                )
                &&& Some(c@.rent_sysvar) == base58_decode(
                    "SysvarRent111111111111111111111111111111111"@,
                )
                &&& Some(c@.instructions_sysvar) == base58_decode(
                    "Sysvar1nstructions1111111111111111111111111"@,
                )
                &&& Some(c@.compute_budget_program) == base58_decode(
                    "ComputeBudget111111111111111111111111111111"@,
                )
            }),
            (r is None ==> {
                ||| base58_decode("KLend2g3cP87fffoy8q1mQqGKjrxjC8boSyAYavgmjD"@) is None
                ||| base58_decode("TokenkegQfeZyiNwAJbNbGKPFXCWuBvf9Ss623VQ5DA"@) is None
                ||| base58_decode("TokenzQdBNbLqP5VEhdkAS6EPFLC1PHnBqCXEpPxuEb"@) is None
                ||| base58_decode("ATokenGPvbdGVxr1b2hvZbsiqW5xWH25efTNsLJA8knL"@) is None
                ||| base58_decode("11111111111111111111111111111111"@) is None
                ||| base58_decode("SysvarRent111111111111111111111111111111111"@) is None
                ||| base58_decode("Sysvar1nstructions1111111111111111111111111"@) is None
                ||| base58_decode("ComputeBudget111111111111111111111111111111"@) is None
            }),
    {
        let program_id = match parse_address("KLend2g3cP87fffoy8q1mQqGKjrxjC8boSyAYavgmjD") {
            Ok(a) => a,
            Err(_) => {
                return None;
            },
        };
        let token_program = match parse_address("TokenkegQfeZyiNwAJbNbGKPFXCWuBvf9Ss623VQ5DA") {
            Ok(a) => a,
            Err(_) => {
                return None;
            },
        };
        let token_2022_program = match parse_address(
            "TokenzQdBNbLqP5VEhdkAS6EPFLC1PHnBqCXEpPxuEb",
        ) {
            Ok(a) => a,
            Err(_) => {
                return None;
            },
        };
        let ata_program = match parse_address("ATokenGPvbdGVxr1b2hvZbsiqW5xWH25efTNsLJA8knL") {
            Ok(a) => a,
            Err(_) => {
                return None;
            },
        };
        let system_program = match parse_address("11111111111111111111111111111111") {
            Ok(a) => a,
            Err(_) => {
                return None;
            },
        };
        let rent_sysvar = match parse_address("SysvarRent111111111111111111111111111111111") {
            Ok(a) => a,
            Err(_) => {
                return None;
            },
        };
        let instructions_sysvar = match parse_address(
            "Sysvar1nstructions1111111111111111111111111",
        ) {
            Ok(a) => a,
            Err(_) => {
                return None;
            },
        };
        let compute_budget_program = match parse_address(
            "ComputeBudget111111111111111111111111111111",
        ) {
            Ok(a) => a,
            Err(_) => {
                return None;
            },
        };
        Some(
            ClientContext {
                program_id,
                payer,
                token_program,
                token_2022_program,
                ata_program,
                system_program,
                rent_sysvar,
                instructions_sysvar,
                compute_budget_program,
            },
        )
    }
}

} // verus!
