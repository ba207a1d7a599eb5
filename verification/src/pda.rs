//! Deterministic derivation of protocol-owned addresses from seeds.
//!
//! A derived address is the hash of `(seeds ++ [bump] ++ program id)` for the
//! largest bump byte (searched downward from 255) whose hash is not a valid
//! signing-key address. Derivation is a pure function of the program id and
//! the seed list, and what it returns is never on the signing curve.

use vstd::prelude::*;

use crate::address::Address;
use crate::address::copy_bytes;
use crate::address::lemma_deep_view_push;
use crate::errors::ClientError;

verus! {

/// The longest seed the protocol accepts.
pub const MAX_SEED_LEN: usize = 32;

/// The most caller seeds a derivation accepts; one more slot is taken by
/// the bump byte.
pub const MAX_SEEDS: usize = 15;

/// What `Pubkey::create_program_address` returns for an in-range seed list:
/// `Some(hash)` where the derivation hash is off the signing curve, `None`
/// where it lands on the curve and the call fails.
pub uninterp spec fn pda_candidate(seeds: Seq<Seq<u8>>, program: Seq<u8>) -> Option<Seq<u8>>;

/// Whether 32 bytes form a valid curve point, i.e. could be the address of
/// a signing key, as `Pubkey::is_on_curve` decides it.
pub uninterp spec fn on_signing_curve(address: Seq<u8>) -> bool;

/// Relies on `solana_pubkey::Pubkey::create_program_address`: hashes the
/// seeds with the program id; fails exactly when the hash is a valid curve
/// point, and a returned address is never one.
#[verifier::external_body]
fn candidate_address(seeds: &Vec<Vec<u8>>, program: &Address) -> (r: Option<Address>)
    requires
        seeds.deep_view().len() <= 16,
        forall|i: int| 0 <= i < seeds.deep_view().len() ==> seeds.deep_view()[i].len() <= 32,
        program.wf(),
    ensures
        (r matches Some(a) ==> pda_candidate(seeds.deep_view(), program@) == Some(a@)
            && a@.len() == 32 && !on_signing_curve(a@)),
        (r is None ==> pda_candidate(seeds.deep_view(), program@) is None),
{
    let slices: Vec<&[u8]> = seeds.iter().map(|s| s.as_slice()).collect();
    let pk = solana_pubkey::Pubkey::try_from(program.bytes.as_slice()).unwrap();
    match solana_pubkey::Pubkey::create_program_address(&slices, &pk) {
        Ok(a) => Some(Address { bytes: a.to_bytes().to_vec() }),
        Err(_) => None,
    }
}

/// Relies on `solana_pubkey::Pubkey::is_on_curve`: whether the bytes form a
/// valid curve point.
#[verifier::external_body]
fn on_curve_check(address: &Address) -> (r: bool)
    requires
        address.wf(),
    ensures
        r == on_signing_curve(address@),
{
    let pk = solana_pubkey::Pubkey::try_from(address.bytes.as_slice()).unwrap();
    pk.is_on_curve()
}

/// Whether an address is a valid signing-key address.
pub fn is_signing_key_address(address: &Address) -> (r: bool)
    requires
        address.wf(),
    ensures
        r == on_signing_curve(address@),
{
    on_curve_check(address)
}

/// The bump search, from `bump` downward: the first candidate off the
/// signing curve wins; exhausting every bump fails.
pub open spec fn bump_search(seeds: Seq<Seq<u8>>, program: Seq<u8>, bump: int) -> Result<
    (Seq<u8>, u8),
    ClientError,
>
    decreases bump + 1,
{
    if bump < 0 {
        Err(ClientError::NoValidBumpFound)
    } else {
        match pda_candidate(seeds.push(seq![bump as u8]), program) {
            Some(a) => Ok((a, bump as u8)),
            None => bump_search(seeds, program, bump - 1),
        }
    }
}

/// What `derive_address` returns: seed-length rejection first, then the
/// bump search from 255 downward.
pub open spec fn derive_spec(program: Seq<u8>, seeds: Seq<Seq<u8>>) -> Result<
    (Seq<u8>, u8),
    ClientError,
> {
    if seeds.len() > 15 || (exists|i: int| 0 <= i < seeds.len() && seeds[i].len() > 32) {
        Err(ClientError::SeedTooLong)
    } else {
        bump_search(seeds, program, 255)
    }
}

/// Derives the protocol-owned address for `seeds` under `program`.
///
/// The result is a pure function of the inputs; a returned address is never
/// a valid signing-key address. A seed list with more than 15 entries or
/// with an entry over 32 bytes is rejected with `SeedTooLong`; exhausting
/// all 256 bump values fails with `NoValidBumpFound`.
pub fn derive_address(program: &Address, seeds: &Vec<Vec<u8>>) -> (r: Result<
    (Address, u8),
    ClientError,
>)
    requires
        program.wf(),
    ensures
        (r matches Ok(p) ==> derive_spec(program@, seeds.deep_view())
            == Ok::<(Seq<u8>, u8), ClientError>((p.0@, p.1)) && p.0.wf()
            && !on_signing_curve(p.0@)),
        (r matches Err(e) ==> derive_spec(program@, seeds.deep_view())
            == Err::<(Seq<u8>, u8), ClientError>(e)),
{
    let ghost seedsv: Seq<Seq<u8>> = seeds.deep_view();
    let n = seeds.len();
    proof {
        assert(seedsv.len() == n);
    }
    if n > MAX_SEEDS {
        return Err(ClientError::SeedTooLong);
    }
    for i in 0..n
        invariant
            n == seedsv.len(),
            n == seeds@.len(),
            seedsv == seeds.deep_view(),
            forall|j: int| 0 <= j < i ==> seedsv[j].len() <= 32,
    {
        proof {
            assert(seeds@[i as int]@ == seedsv[i as int]);
        }
        if seeds[i].len() > MAX_SEED_LEN {
            return Err(ClientError::SeedTooLong);
        }
    }
    let mut bump: u8 = 255;
    loop
        invariant
            program.wf(),
            seedsv == seeds.deep_view(),
            seedsv.len() == seeds@.len(),
            seedsv.len() <= 15,
            forall|j: int| 0 <= j < seedsv.len() ==> seedsv[j].len() <= 32,
            bump_search(seedsv, program@, 255) == bump_search(seedsv, program@, bump as int),
        decreases bump as int,
    {
        let mut with_bump: Vec<Vec<u8>> = Vec::new();
        let m = seeds.len();
        for i in 0..m
            invariant
                m == seeds@.len(),
                seedsv == seeds.deep_view(),
                with_bump.deep_view() == seedsv.take(i as int),
        {
            let copied = copy_bytes(&seeds[i]);
            proof {
                assert(seeds@[i as int].deep_view() == seedsv[i as int]);
                assert(seeds@[i as int].deep_view() =~= seeds@[i as int]@);
                assert(copied@ =~= seedsv[i as int]);
            }
            let ghost prev = with_bump;
            with_bump.push(copied);
            proof {
                lemma_deep_view_push(prev, with_bump, copied);
                assert(copied.deep_view() =~= copied@);
                assert(with_bump.deep_view() =~= seedsv.take(i + 1));
            }
        }
        proof {
            assert(with_bump.deep_view() =~= seedsv);
        }
        let mut bump_seed: Vec<u8> = Vec::new();
        bump_seed.push(bump);
        proof {
            assert(bump_seed@ =~= seq![bump]);
        }
        let ghost prev = with_bump;
        with_bump.push(bump_seed);
        proof {
            lemma_deep_view_push(prev, with_bump, bump_seed);
            assert(bump_seed.deep_view() =~= bump_seed@);
            assert(with_bump.deep_view() =~= seedsv.push(seq![bump]));
        }
        match candidate_address(&with_bump, program) {
            Some(address) => {
                proof {
                    assert(bump_search(seedsv, program@, bump as int)
                        == Ok::<(Seq<u8>, u8), ClientError>((address@, bump)));
                }
                return Ok((address, bump));
            },
            None => {
                proof {
                    assert(pda_candidate(seedsv.push(seq![bump]), program@) is None);
                    assert(bump_search(seedsv, program@, bump as int)
                        == bump_search(seedsv, program@, bump as int - 1));
                }
                if bump == 0 {
                    proof {
                        assert(bump_search(seedsv, program@, -1)
                            == Err::<(Seq<u8>, u8), ClientError>(ClientError::NoValidBumpFound));
                    }
                    return Err(ClientError::NoValidBumpFound);
                }
                bump = bump - 1;
            },
        }
    }
}

/// Derivation is deterministic: two results of the derivation for the same
/// program id and seed list are identical.
pub proof fn lemma_derive_deterministic(
    program: Seq<u8>,
    seeds: Seq<Seq<u8>>,
    r1: Result<(Seq<u8>, u8), ClientError>,
    r2: Result<(Seq<u8>, u8), ClientError>,
)
    requires
        r1 == derive_spec(program, seeds),
        r2 == derive_spec(program, seeds),
    ensures
        r1 == r2,
{
}

} // verus!
