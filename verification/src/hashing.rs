//! The hash functions of the chains.
//!
//! The digests are computed by `sp-io` and `sp-core`. Nothing is proved of
//! them here: each digest has a name, and the bindings below say no more than
//! that a call returns the digest of the bytes it was given.

use vstd::prelude::*;

verus! {

/// The 128-bit BLAKE2b digest of `data`, 16 bytes.
pub uninterp spec fn blake2_128_digest(data: Seq<u8>) -> Seq<u8>;

/// The 256-bit Keccak digest of `data`, 32 bytes.
pub uninterp spec fn keccak_256_digest(data: Seq<u8>) -> Seq<u8>;

/// The two 64-bit XX hashes of `data`, seeds 0 and 1, 16 bytes.
pub uninterp spec fn twox_128_digest(data: Seq<u8>) -> Seq<u8>;

/// `sp_io::hashing::blake2_128`: assumed to return the BLAKE2b-128 digest of
/// `data`, the same bytes for the same input.
#[verifier::external_body]
pub(crate) fn blake2_128(data: &[u8]) -> (digest: [u8; 16])
    ensures
        digest@ == blake2_128_digest(data@),
{
    sp_io::hashing::blake2_128(data)
}

/// `sp_io::hashing::keccak_256`: assumed to return the Keccak-256 digest of
/// `data`, the same bytes for the same input.
#[verifier::external_body]
pub(crate) fn keccak_256(data: &[u8]) -> (digest: [u8; 32])
    ensures
        digest@ == keccak_256_digest(data@),
{
    sp_io::hashing::keccak_256(data)
}

/// `sp_core::twox_128`: assumed to return the XX-128 digest of `data`, the
/// same bytes for the same input.
#[verifier::external_body]
pub(crate) fn twox_128(data: &[u8]) -> (digest: [u8; 16])
    ensures
        digest@ == twox_128_digest(data@),
{
    sp_core::twox_128(data)
}

} // verus!
