//! SHA-256 digests and the 8-byte discriminators derived from them.
//!
//! The remote program identifies each operation by the first 8 bytes of
//! `sha256("global:" ++ name)`, and each account kind by the first 8 bytes
//! of `sha256("account:" ++ name)`.

use vstd::prelude::*;
use vstd::string::*;

verus! {

/// What `solana_sha256_hasher::hash` returns: the SHA-256 digest of the
/// input, a function of the bytes alone.
pub uninterp spec fn sha256_of(data: Seq<u8>) -> Seq<u8>;

/// Relies on `solana_sha256_hasher::hash`: the 32-byte SHA-256 digest of
/// the input bytes.
#[verifier::external_body]
fn sha256(data: &Vec<u8>) -> (r: Vec<u8>)
    ensures
        r@ == sha256_of(data@),
        r@.len() == 32,
{
    solana_sha256_hasher::hash(data.as_slice()).to_bytes().to_vec()
}

/// The discriminator of the operation named `name`.
pub open spec fn discriminator_of(name: Seq<u8>) -> Seq<u8> {
    sha256_of("global:".spec_bytes() + name).take(8)
}

/// The discriminator of the account kind named `name`.
pub open spec fn account_discriminator_of(name: Seq<u8>) -> Seq<u8> {
    sha256_of("account:".spec_bytes() + name).take(8)
}

/// First 8 bytes of the digest of `prefix ++ name`.
fn tagged_discriminator(prefix: &str, name: &str) -> (r: Vec<u8>)
    ensures
        r@ == sha256_of(prefix.spec_bytes() + name.spec_bytes()).take(8),
        r@.len() == 8,
{
    let mut preimage: Vec<u8> = prefix.as_bytes_vec();
    let name_bytes: Vec<u8> = name.as_bytes_vec();
    let n = name_bytes.len();
    for i in 0..n
        invariant
            n == name_bytes@.len(),
            preimage@ == prefix.spec_bytes() + name_bytes@.take(i as int),
    {
        preimage.push(name_bytes[i]);
        proof {
            assert(preimage@ =~= prefix.spec_bytes() + name_bytes@.take(i + 1));
        }
    }
    proof {
        assert(preimage@ =~= prefix.spec_bytes() + name.spec_bytes());
    }
    let digest = sha256(&preimage);
    let mut disc: Vec<u8> = Vec::new();
    for i in 0..8usize
        invariant
            digest@ == sha256_of(prefix.spec_bytes() + name.spec_bytes()),
            digest@.len() == 32,
            disc@ == digest@.take(i as int),
    {
        disc.push(digest[i]);
        proof {
            assert(disc@ =~= digest@.take(i + 1));
        }
    }
    disc
}

/// The 8-byte discriminator of the operation named `name`.
pub fn op_discriminator(name: &str) -> (r: Vec<u8>)
    ensures
        r@ == discriminator_of(name.spec_bytes()),
        r@.len() == 8,
{
    tagged_discriminator("global:", name)
}

/// The 8-byte discriminator of the account kind named `name`.
pub fn account_discriminator(name: &str) -> (r: Vec<u8>)
    ensures
        r@ == account_discriminator_of(name.spec_bytes()),
        r@.len() == 8,
{
    tagged_discriminator("account:", name)
}

} // verus!
