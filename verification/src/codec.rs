//! Argument encodings of the instruction payloads.
//!
//! A payload is the operation's 8-byte discriminator followed by its
//! arguments in little-endian fixed-width form. Encoding never clamps or
//! truncates; each decoder accepts exactly the payloads its encoder
//! produces and fails with `DecodeError` on anything else.

use vstd::prelude::*;
use vstd::bytes::lemma_auto_spec_u64_to_from_le_bytes;
use vstd::bytes::spec_u64_from_le_bytes;
use vstd::bytes::spec_u64_to_le_bytes;
use vstd::bytes::u64_from_le_bytes;
use vstd::bytes::u64_to_le_bytes;

use crate::address::copy_bytes;
use crate::errors::ClientError;

verus! {

/// Little-endian bytes of a 64-bit amount.
pub open spec fn le64(x: u64) -> Seq<u8> {
    spec_u64_to_le_bytes(x)
}

/// Whether the remote program performs the loan-to-value ceiling check on
/// a withdrawal.
#[derive(Clone, Copy, Debug, PartialEq, Eq, Structural)]
pub enum LtvMaxWithdrawalCheck {
    Perform,
    Skip,
}

/// The wire byte of a `LtvMaxWithdrawalCheck`.
pub open spec fn ltv_check_tag(c: LtvMaxWithdrawalCheck) -> u8 {
    match c {
        LtvMaxWithdrawalCheck::Perform => 0,
        LtvMaxWithdrawalCheck::Skip => 1,
    }
}

/// Whether the remote program checks the collateral-reserve count while
/// refreshing a position.
#[derive(Clone, Copy, Debug, PartialEq, Eq, Structural)]
pub enum MaxReservesAsCollateralCheck {
    Perform,
    Skip,
}

/// The wire byte of a `MaxReservesAsCollateralCheck`.
pub open spec fn reserves_check_tag(c: MaxReservesAsCollateralCheck) -> u8 {
    match c {
        MaxReservesAsCollateralCheck::Perform => 0,
        MaxReservesAsCollateralCheck::Skip => 1,
    }
}

/// Appends `more` to `out`.
pub fn append_bytes(out: &mut Vec<u8>, more: &Vec<u8>)
    ensures
        final(out)@ == old(out)@ + more@,
{
    let n = more.len();
    for i in 0..n
        invariant
            n == more@.len(),
            out@ == old(out)@ + more@.take(i as int),
    {
        out.push(more[i]);
        proof {
            assert(out@ =~= old(out)@ + more@.take(i + 1));
        }
    }
    proof {
        assert(out@ =~= old(out)@ + more@);
    }
}

/// Whether `payload` starts with `prefix`.
pub fn has_prefix(payload: &Vec<u8>, prefix: &Vec<u8>) -> (r: bool)
    requires
        prefix@.len() <= payload@.len(),
    ensures
        r == (payload@.take(prefix@.len() as int) == prefix@),
{
    let n = prefix.len();
    for i in 0..n
        invariant
            n == prefix@.len(),
            n <= payload@.len(),
            forall|j: int| 0 <= j < i ==> payload@[j] == prefix@[j],
    {
        if payload[i] != prefix[i] {
            proof {
                assert(payload@.take(n as int)[i as int] != prefix@[i as int]);
            }
            return false;
        }
    }
    proof {
        assert(payload@.take(n as int) =~= prefix@);
    }
    true
}

/// Reads the 8 bytes of `payload` that start at `from` as an amount.
fn read_u64_at(payload: &Vec<u8>, from: usize) -> (r: u64)
    requires
        from + 8 <= payload@.len(),
    ensures
        r == spec_u64_from_le_bytes(payload@.subrange(from as int, from as int + 8)),
{
    let len = payload.len();
    let mut window: Vec<u8> = Vec::new();
    for i in 0..8usize
        invariant
            len == payload@.len(),
            from + 8 <= len,
            window@ == payload@.subrange(from as int, from as int + i),
    {
        window.push(payload[from + i]);
        proof {
            assert(window@ =~= payload@.subrange(from as int, from as int + i + 1));
        }
    }
    u64_from_le_bytes(window.as_slice())
}

/// The payload of an operation without arguments.
pub fn encode_no_args(disc: &Vec<u8>) -> (r: Vec<u8>)
    ensures
        r@ == disc@,
{
    copy_bytes(disc)
}

/// What decoding an argument-free payload yields.
pub open spec fn decode_no_args_spec(disc: Seq<u8>, payload: Seq<u8>) -> Result<(), ClientError> {
    if payload == disc {
        Ok(())
    } else {
        Err(ClientError::DecodeError)
    }
}

/// Decodes an argument-free payload.
pub fn decode_no_args(disc: &Vec<u8>, payload: &Vec<u8>) -> (r: Result<(), ClientError>)
    requires
        disc@.len() == 8,
    ensures
        r == decode_no_args_spec(disc@, payload@),
{
    if payload.len() != 8 {
        return Err(ClientError::DecodeError);
    }
    if !has_prefix(payload, disc) {
        proof {
            assert(payload@.take(8) =~= payload@);
        }
        return Err(ClientError::DecodeError);
    }
    proof {
        assert(payload@.take(8) =~= payload@);
    }
    Ok(())
}

/// The payload of an operation with one amount argument.
pub fn encode_u64_arg(disc: &Vec<u8>, x: u64) -> (r: Vec<u8>)
    ensures
        r@ == disc@ + le64(x),
{
    let mut out = copy_bytes(disc);
    let bytes = u64_to_le_bytes(x);
    append_bytes(&mut out, &bytes);
    out
}

/// What decoding a one-amount payload yields.
pub open spec fn decode_u64_spec(disc: Seq<u8>, payload: Seq<u8>) -> Result<u64, ClientError> {
    if payload.len() == 16 && payload.take(8) == disc {
        Ok(spec_u64_from_le_bytes(payload.skip(8)))
    } else {
        Err(ClientError::DecodeError)
    }
}

/// Decodes a one-amount payload.
pub fn decode_u64_arg(disc: &Vec<u8>, payload: &Vec<u8>) -> (r: Result<u64, ClientError>)
    requires
        disc@.len() == 8,
    ensures
        r == decode_u64_spec(disc@, payload@),
{
    if payload.len() != 16 {
        return Err(ClientError::DecodeError);
    }
    if !has_prefix(payload, disc) {
        return Err(ClientError::DecodeError);
    }
    let x = read_u64_at(payload, 8);
    proof {
        assert(payload@.subrange(8, 16) =~= payload@.skip(8));
    }
    Ok(x)
}

/// Encoding one amount and decoding it back recovers the amount exactly.
pub proof fn lemma_u64_round_trip(disc: Seq<u8>, x: u64)
    requires
        disc.len() == 8,
    ensures
        decode_u64_spec(disc, disc + le64(x)) == Ok::<u64, ClientError>(x),
{
    lemma_auto_spec_u64_to_from_le_bytes();
    assert((disc + le64(x)).take(8) =~= disc);
    assert((disc + le64(x)).skip(8) =~= le64(x));
}

/// The payload of an operation with one amount and one check tag.
pub fn encode_u64_tag_args(disc: &Vec<u8>, x: u64, tag: u8) -> (r: Vec<u8>)
    ensures
        r@ == disc@ + le64(x) + seq![tag],
{
    let mut out = encode_u64_arg(disc, x);
    out.push(tag);
    proof {
        assert(out@ =~= disc@ + le64(x) + seq![tag]);
    }
    out
}

/// What decoding an amount-and-tag payload yields.
pub open spec fn decode_u64_tag_spec(disc: Seq<u8>, payload: Seq<u8>) -> Result<
    (u64, u8),
    ClientError,
> {
    if payload.len() == 17 && payload.take(8) == disc {
        Ok((spec_u64_from_le_bytes(payload.subrange(8, 16)), payload[16]))
    } else {
        Err(ClientError::DecodeError)
    }
}

/// Decodes an amount-and-tag payload.
pub fn decode_u64_tag_args(disc: &Vec<u8>, payload: &Vec<u8>) -> (r: Result<
    (u64, u8),
    ClientError,
>)
    requires
        disc@.len() == 8,
    ensures
        r == decode_u64_tag_spec(disc@, payload@),
{
    if payload.len() != 17 {
        return Err(ClientError::DecodeError);
    }
    if !has_prefix(payload, disc) {
        return Err(ClientError::DecodeError);
    }
    let x = read_u64_at(payload, 8);
    let tag = payload[16];
    Ok((x, tag))
}

/// Encoding an amount and a tag and decoding them back recovers both.
pub proof fn lemma_u64_tag_round_trip(disc: Seq<u8>, x: u64, tag: u8)
    requires
        disc.len() == 8,
    ensures
        decode_u64_tag_spec(disc, disc + le64(x) + seq![tag]) == Ok::<(u64, u8), ClientError>(
            (x, tag),
        ),
{
    lemma_auto_spec_u64_to_from_le_bytes();
    let payload = disc + le64(x) + seq![tag];
    assert(payload.take(8) =~= disc);
    assert(payload.subrange(8, 16) =~= le64(x));
    assert(payload[16] == tag);
}

/// The payload of the liquidation operation: three amounts.
pub fn encode_u64x3_args(disc: &Vec<u8>, x0: u64, x1: u64, x2: u64) -> (r: Vec<u8>)
    ensures
        r@ == disc@ + le64(x0) + le64(x1) + le64(x2),
{
    let mut out = copy_bytes(disc);
    let b0 = u64_to_le_bytes(x0);
    append_bytes(&mut out, &b0);
    let b1 = u64_to_le_bytes(x1);
    append_bytes(&mut out, &b1);
    let b2 = u64_to_le_bytes(x2);
    append_bytes(&mut out, &b2);
    out
}

/// What decoding a three-amount payload yields.
pub open spec fn decode_u64x3_spec(disc: Seq<u8>, payload: Seq<u8>) -> Result<
    (u64, u64, u64),
    ClientError,
> {
    if payload.len() == 32 && payload.take(8) == disc {
        Ok(
            (
                spec_u64_from_le_bytes(payload.subrange(8, 16)),
                spec_u64_from_le_bytes(payload.subrange(16, 24)),
                spec_u64_from_le_bytes(payload.subrange(24, 32)),
            ),
        )
    } else {
        Err(ClientError::DecodeError)
    }
}

/// Decodes a three-amount payload.
pub fn decode_u64x3_args(disc: &Vec<u8>, payload: &Vec<u8>) -> (r: Result<
    (u64, u64, u64),
    ClientError,
>)
    requires
        disc@.len() == 8,
    ensures
        r == decode_u64x3_spec(disc@, payload@),
{
    if payload.len() != 32 {
        return Err(ClientError::DecodeError);
    }
    if !has_prefix(payload, disc) {
        return Err(ClientError::DecodeError);
    }
    let x0 = read_u64_at(payload, 8);
    let x1 = read_u64_at(payload, 16);
    let x2 = read_u64_at(payload, 24);
    Ok((x0, x1, x2))
}

/// Encoding three amounts and decoding them back recovers all three.
pub proof fn lemma_u64x3_round_trip(disc: Seq<u8>, x0: u64, x1: u64, x2: u64)
    requires
        disc.len() == 8,
    ensures
        decode_u64x3_spec(disc, disc + le64(x0) + le64(x1) + le64(x2)) == Ok::<
            (u64, u64, u64),
            ClientError,
        >((x0, x1, x2)),
{
    lemma_auto_spec_u64_to_from_le_bytes();
    let payload = disc + le64(x0) + le64(x1) + le64(x2);
    assert(payload.take(8) =~= disc);
    assert(payload.subrange(8, 16) =~= le64(x0));
    assert(payload.subrange(16, 24) =~= le64(x1));
    assert(payload.subrange(24, 32) =~= le64(x2));
}

/// The payload of an operation with two byte arguments.
pub fn encode_u8x2_args(disc: &Vec<u8>, a: u8, b: u8) -> (r: Vec<u8>)
    ensures
        r@ == disc@ + seq![a, b],
{
    let mut out = copy_bytes(disc);
    out.push(a);
    out.push(b);
    proof {
        assert(out@ =~= disc@ + seq![a, b]);
    }
    out
}

/// What decoding a two-byte payload yields.
pub open spec fn decode_u8x2_spec(disc: Seq<u8>, payload: Seq<u8>) -> Result<
    (u8, u8),
    ClientError,
> {
    if payload.len() == 10 && payload.take(8) == disc {
        Ok((payload[8], payload[9]))
    } else {
        Err(ClientError::DecodeError)
    }
}

/// Decodes a two-byte payload.
pub fn decode_u8x2_args(disc: &Vec<u8>, payload: &Vec<u8>) -> (r: Result<(u8, u8), ClientError>)
    requires
        disc@.len() == 8,
    ensures
        r == decode_u8x2_spec(disc@, payload@),
{
    if payload.len() != 10 {
        return Err(ClientError::DecodeError);
    }
    if !has_prefix(payload, disc) {
        return Err(ClientError::DecodeError);
    }
    Ok((payload[8], payload[9]))
}

/// Encoding two bytes and decoding them back recovers both.
pub proof fn lemma_u8x2_round_trip(disc: Seq<u8>, a: u8, b: u8)
    requires
        disc.len() == 8,
    ensures
        decode_u8x2_spec(disc, disc + seq![a, b]) == Ok::<(u8, u8), ClientError>((a, b)),
{
    let payload = disc + seq![a, b];
    assert(payload.take(8) =~= disc);
}

/// The payload of an operation whose argument is 32 raw bytes.
pub fn encode_bytes32_arg(disc: &Vec<u8>, data: &Vec<u8>) -> (r: Vec<u8>)
    requires
        data@.len() == 32,
    ensures
        r@ == disc@ + data@,
{
    let mut out = copy_bytes(disc);
    append_bytes(&mut out, data);
    out
}

/// What decoding a 32-raw-byte payload yields.
pub open spec fn decode_bytes32_spec(disc: Seq<u8>, payload: Seq<u8>) -> Result<
    Seq<u8>,
    ClientError,
> {
    if payload.len() == 40 && payload.take(8) == disc {
        Ok(payload.skip(8))
    } else {
        Err(ClientError::DecodeError)
    }
}

/// Decodes a 32-raw-byte payload.
pub fn decode_bytes32_arg(disc: &Vec<u8>, payload: &Vec<u8>) -> (r: Result<Vec<u8>, ClientError>)
    requires
        disc@.len() == 8,
    ensures
        (r matches Ok(v) ==> decode_bytes32_spec(disc@, payload@) == Ok::<Seq<u8>, ClientError>(
            v@,
        )),
        (r matches Err(e) ==> decode_bytes32_spec(disc@, payload@) == Err::<Seq<u8>, ClientError>(
            e,
        )),
{
    if payload.len() != 40 {
        return Err(ClientError::DecodeError);
    }
    if !has_prefix(payload, disc) {
        return Err(ClientError::DecodeError);
    }
    let mut data: Vec<u8> = Vec::new();
    for i in 0..32usize
        invariant
            payload@.len() == 40,
            data@ == payload@.subrange(8, 8 + i),
    {
        data.push(payload[8 + i]);
        proof {
            assert(data@ =~= payload@.subrange(8, 8 + i + 1));
        }
    }
    proof {
        assert(data@ =~= payload@.skip(8));
    }
    Ok(data)
}

/// Encoding 32 raw bytes and decoding them back recovers them.
pub proof fn lemma_bytes32_round_trip(disc: Seq<u8>, data: Seq<u8>)
    requires
        disc.len() == 8,
        data.len() == 32,
    ensures
        decode_bytes32_spec(disc, disc + data) == Ok::<Seq<u8>, ClientError>(data),
{
    let payload = disc + data;
    assert(payload.take(8) =~= disc);
    assert(payload.skip(8) =~= data);
}

} // verus!
