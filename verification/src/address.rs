//! 32-byte ledger addresses and base58 parsing.

use vstd::prelude::*;

use crate::errors::ClientError;
use std::str::FromStr;

verus! {

/// What `Pubkey::from_str` decodes a base58 string to: `None` where the
/// string is not the base58 form of exactly 32 bytes.
pub uninterp spec fn base58_decode(s: Seq<char>) -> Option<Seq<u8>>;

/// A 32-byte account address of the remote ledger.
///
/// Key-pair addresses and derived addresses share this representation; the
/// derivation functions in `pda` guarantee that what they return is never a
/// valid signing-key address.
#[derive(Debug, PartialEq, Eq, Hash)]
pub struct Address {
    pub bytes: Vec<u8>,
}

impl View for Address {
    type V = Seq<u8>;

    open spec fn view(&self) -> Seq<u8> {
        self.bytes@
    }
}

impl DeepView for Address {
    type V = Seq<u8>;

    open spec fn deep_view(&self) -> Seq<u8> {
        self.bytes@
    }
}

/// The all-zero address, used by the remote protocol as "slot not set".
pub open spec fn zero_address() -> Seq<u8> {
    Seq::new(32, |i: int| 0u8)
}

impl Address {
    /// A well-formed address holds exactly 32 bytes.
    pub open spec fn wf(&self) -> bool {
        self@.len() == 32
    }

    /// Wraps exactly 32 bytes; anything else is a caller error.
    pub fn from_bytes(bytes: Vec<u8>) -> (r: Result<Address, ClientError>)
        ensures
            bytes@.len() == 32 ==> (r matches Ok(a) && a@ == bytes@),
            bytes@.len() != 32 ==> r == Err::<Address, ClientError>(ClientError::InvalidArgument),
            r matches Ok(a) ==> a.wf(),
    {
        if bytes.len() == 32 {
            Ok(Address { bytes })
        } else {
            Err(ClientError::InvalidArgument)
        }
    }

    /// The protocol's zero address.
    pub fn zero() -> (r: Address)
        ensures
            r@ == zero_address(),
            r.wf(),
    {
        let mut bytes: Vec<u8> = Vec::new();
        for i in 0..32usize
            invariant
                bytes@.len() == i,
                forall|j: int| 0 <= j < i ==> bytes@[j] == 0u8,
        {
            bytes.push(0u8);
        }
        proof {
            assert(bytes@ =~= zero_address());
        }
        Address { bytes }
    }

    /// Byte-for-byte equality.
    pub fn eq_address(&self, other: &Address) -> (r: bool)
        ensures
            r == (self@ == other@),
    {
        let r = self.bytes == other.bytes;
        proof {
            if r {
                assert(self@ =~= other@);
            } else {
                if self@ == other@ {
                    assert(self.bytes@.len() == other.bytes@.len());
                    assert(forall|i: int|
                        0 <= i < self.bytes@.len() ==> self.bytes@[i] == other.bytes@[i]);
                }
            }
        }
        r
    }

    /// Whether this is the zero address.
    pub fn is_zero(&self) -> (r: bool)
        ensures
            r == (self@ == zero_address()),
    {
        let zero = Address::zero();
        self.eq_address(&zero)
    }

    /// A copy with the same bytes.
    pub fn dup(&self) -> (r: Address)
        ensures
            r@ == self@,
    {
        let mut bytes: Vec<u8> = Vec::new();
        let n = self.bytes.len();
        for i in 0..n
            invariant
                n == self.bytes@.len(),
                bytes@ == self.bytes@.take(i as int),
        {
            bytes.push(self.bytes[i]);
        }
        proof {
            assert(bytes@ =~= self.bytes@);
        }
        Address { bytes }
    }
}

impl Clone for Address {
    fn clone(&self) -> (r: Address)
        ensures
            r@ == self@,
    {
        self.dup()
    }
}

/// Appending to a vector appends to its deep view.
pub proof fn lemma_deep_view_push<T: DeepView>(prev: Vec<T>, cur: Vec<T>, x: T)
    requires
        cur@ == prev@.push(x),
    ensures
        cur.deep_view() == prev.deep_view().push(x.deep_view()),
{
    assert forall|j: int| 0 <= j < cur@.len() implies cur.deep_view()[j] == prev.deep_view().push(
        x.deep_view(),
    )[j] by {
        if j < prev@.len() {
            assert(cur@[j] == prev@[j]);
        } else {
            assert(cur@[j] == x);
        }
    }
    assert(cur.deep_view() =~= prev.deep_view().push(x.deep_view()));
}

/// A copy of a byte vector.
pub fn copy_bytes(v: &Vec<u8>) -> (r: Vec<u8>)
    ensures
        r@ == v@,
{
    let mut out: Vec<u8> = Vec::new();
    let n = v.len();
    for i in 0..n
        invariant
            n == v@.len(),
            out@ == v@.take(i as int),
    {
        out.push(v[i]);
        proof {
            assert(out@ =~= v@.take(i + 1));
        }
    }
    proof {
        assert(out@ =~= v@);
    }
    out
}

/// Relies on `solana_pubkey::Pubkey::from_str`: decodes a base58 string to
/// the 32 bytes it denotes, or fails.
#[verifier::external_body]
fn base58_to_bytes(s: &str) -> (r: Option<Vec<u8>>)
    ensures
        (r matches Some(v) ==> base58_decode(s@) == Some(v@) && v@.len() == 32),
        (r is None ==> base58_decode(s@) is None),
{
    match solana_pubkey::Pubkey::from_str(s) {
        Ok(pk) => Some(pk.to_bytes().to_vec()),
        Err(_) => None,
    }
}

/// Parses a base58 address string.
pub fn parse_address(s: &str) -> (r: Result<Address, ClientError>)
    ensures
        (r matches Ok(a) ==> base58_decode(s@) == Some(a@) && a.wf()),
        (r matches Err(e) ==> e == ClientError::InvalidArgument && base58_decode(s@) is None),
{
    match base58_to_bytes(s) {
        Some(bytes) => Ok(Address { bytes }),
        None => Err(ClientError::InvalidArgument),
    }
}

} // verus!
