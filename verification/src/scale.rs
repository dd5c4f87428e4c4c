//! SCALE encoding of the values that enter an order identity.
//!
//! The encoder is `parity-scale-codec`. For the two shapes used here its
//! output is short to state: an array of bytes is written as it stands, a
//! `u32` as its four bytes, least significant first.

use vstd::prelude::*;
use crate::bytes::le_bytes;

verus! {

/// `parity_scale_codec::Encode::encode` on a `u32`: assumed to return the
/// four bytes of `x`, least significant first.
#[verifier::external_body]
pub(crate) fn encode_u32(x: u32) -> (out: Vec<u8>)
    ensures
        out@ == le_bytes(x as nat, 4),
{
    parity_scale_codec::Encode::encode(&x)
}

/// `parity_scale_codec::Encode::encode` on a byte array: assumed to return
/// the bytes of the array, in order and with no length in front.
#[verifier::external_body]
pub(crate) fn encode_array<const N: usize>(a: &[u8; N]) -> (out: Vec<u8>)
    ensures
        out@ == a@,
{
    parity_scale_codec::Encode::encode(a)
}

} // verus!
