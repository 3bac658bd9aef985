//! Fixed-width integers in the SCALE encoding, which the codec crate computes.

use vstd::arithmetic::div_mod::lemma_fundamental_div_mod_converse;
use vstd::prelude::*;

verus! {

/// The four bytes of a `u32`, least significant first.
pub open spec fn le_bytes(value: u32) -> Seq<u8> {
    seq![
        (value % 256) as u8,
        (value / 256 % 256) as u8,
        (value / 65536 % 256) as u8,
        (value / 16777216) as u8,
    ]
}

/// The number that four bytes spell, least significant first.
pub open spec fn le_value(bytes: Seq<u8>) -> u32
    recommends
        bytes.len() == 4,
{
    (bytes[0] + 256 * bytes[1] + 65536 * bytes[2] + 16777216 * bytes[3]) as u32
}

/// Reading back the bytes of a number gives the number.
pub proof fn le_value_of_le_bytes(value: u32)
    ensures
        le_bytes(value).len() == 4,
        le_value(le_bytes(value)) == value,
{
}

/// Four bytes are the bytes of the number that they spell.
pub proof fn le_bytes_of_le_value(bytes: Seq<u8>)
    requires
        bytes.len() == 4,
    ensures
        le_bytes(le_value(bytes)) == bytes,
{
    let b0 = bytes[0] as int;
    let b1 = bytes[1] as int;
    let b2 = bytes[2] as int;
    let b3 = bytes[3] as int;
    let value = b0 + 256 * b1 + 65536 * b2 + 16777216 * b3;
    assert(le_value(bytes) == value);
    lemma_fundamental_div_mod_converse(value, 256, b1 + 256 * b2 + 65536 * b3, b0);
    lemma_fundamental_div_mod_converse(value / 256, 256, b2 + 256 * b3, b1);
    lemma_fundamental_div_mod_converse(value, 65536, b2 + 256 * b3, b0 + 256 * b1);
    lemma_fundamental_div_mod_converse(value / 65536, 256, b3, b2);
    lemma_fundamental_div_mod_converse(value, 16777216, b3, b0 + 256 * b1 + 65536 * b2);
    assert(le_bytes(le_value(bytes)) =~= bytes);
}

/// `parity_scale_codec::Error`, the codec's account of a failed decoding.
/// Nothing is read from it.
#[verifier::external_type_specification]
#[verifier::external_body]
pub struct ExCodecError(parity_scale_codec::Error);

/// `parity_scale_codec::Encode::encode` of a `u32`. The codec writes a
/// fixed-width integer as its bytes in little-endian order, so the result is
/// claimed to be the four bytes of `value`, least significant first.
#[verifier::external_body]
pub(crate) fn encode_u32(value: u32) -> (bytes: Vec<u8>)
    ensures
        bytes@ == le_bytes(value),
{
    parity_scale_codec::Encode::encode(&value)
}

/// `parity_scale_codec::Decode::decode` of a `u32` from a byte slice. The codec
/// reads four bytes and takes them in little-endian order; it fails when the
/// slice holds fewer than four. Claimed: exactly that, of the first four bytes.
#[verifier::external_body]
pub(crate) fn decode_u32(bytes: &[u8]) -> (value: Result<u32, parity_scale_codec::Error>)
    ensures
        bytes@.len() >= 4 ==> value is Ok && value->Ok_0 == le_value(bytes@.subrange(0, 4)),
        bytes@.len() < 4 ==> value is Err,
{
    let mut input: &[u8] = bytes;
    parity_scale_codec::Decode::decode(&mut input)
}

} // verus!
