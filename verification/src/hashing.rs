//! The hash functions of the ledger. What a digest is, byte for byte, is not
//! stated here: each function has a name for its result, and the executable
//! functions are specified to return what the name stands for.

use crate::codec::{Decode, Encode};
use crate::primitives::H256;
use vstd::prelude::*;

verus! {

/// The 128-bit Blake2b digest of `data`.
pub uninterp spec fn blake2_128(data: Seq<u8>) -> Seq<u8>;

/// The 256-bit Blake2b digest of `data`.
pub uninterp spec fn blake2_256(data: Seq<u8>) -> Seq<u8>;

/// The 64-bit XX digest of `data`.
pub uninterp spec fn twox_64(data: Seq<u8>) -> Seq<u8>;

/// The 128-bit XX digest of `data`.
pub uninterp spec fn twox_128(data: Seq<u8>) -> Seq<u8>;

/// The 256-bit XX digest of `data`.
pub uninterp spec fn twox_256(data: Seq<u8>) -> Seq<u8>;

/// What the runtime's `BlakeTwo256` hasher gives for `data`.
pub uninterp spec fn blake_two_256(data: Seq<u8>) -> Seq<u8>;

/// `sp_crypto_hashing::blake2_128`. Claimed of it: the digest is a function
/// of the bytes of `data` alone.
#[verifier::external_body]
pub(crate) fn hash_blake2_128(data: &[u8]) -> (digest: [u8; 16])
    ensures
        digest@ == blake2_128(data@),
{
    sp_crypto_hashing::blake2_128(data)
}

/// `sp_crypto_hashing::blake2_256`. Claimed of it: the digest is a function
/// of the bytes of `data` alone.
#[verifier::external_body]
pub(crate) fn hash_blake2_256(data: &[u8]) -> (digest: [u8; 32])
    ensures
        digest@ == blake2_256(data@),
{
    sp_crypto_hashing::blake2_256(data)
}

/// `sp_crypto_hashing::twox_64`. Claimed of it: the digest is a function of
/// the bytes of `data` alone.
#[verifier::external_body]
pub(crate) fn hash_twox_64(data: &[u8]) -> (digest: [u8; 8])
    ensures
        digest@ == twox_64(data@),
{
    sp_crypto_hashing::twox_64(data)
}

/// `sp_crypto_hashing::twox_128`. Claimed of it: the digest is a function of
/// the bytes of `data` alone.
#[verifier::external_body]
pub(crate) fn hash_twox_128(data: &[u8]) -> (digest: [u8; 16])
    ensures
        digest@ == twox_128(data@),
{
    sp_crypto_hashing::twox_128(data)
}

/// `sp_crypto_hashing::twox_256`. Claimed of it: the digest is a function of
/// the bytes of `data` alone.
#[verifier::external_body]
pub(crate) fn hash_twox_256(data: &[u8]) -> (digest: [u8; 32])
    ensures
        digest@ == twox_256(data@),
{
    sp_crypto_hashing::twox_256(data)
}

/// `hash` of `sp_runtime::traits::Hash`, as `sp_runtime::traits::BlakeTwo256`
/// implements it. Claimed of it: the digest is a function of the bytes of
/// `data` alone.
#[verifier::external_body]
pub(crate) fn hash_blake_two_256(data: &[u8]) -> (digest: [u8; 32])
    ensures
        digest@ == blake_two_256(data@),
{
    <sp_runtime::traits::BlakeTwo256 as sp_runtime::traits::Hash>::hash(data).0
}

/// A hash function that a runtime is configured with.
pub trait Hasher {
    /// The type of a digest.
    type Output: Decode;

    /// The digest of `data`.
    spec fn digest(data: Seq<u8>) -> <Self::Output as Encode>::Value;

    fn hash(data: &[u8]) -> (out: Self::Output)
        ensures
            out.value() == Self::digest(data@),
    ;
}

/// Blake2b with 256 bits of output, as the runtime computes it.
#[derive(Clone, Copy, Debug, PartialEq, Eq)]
pub struct BlakeTwo256;

impl Hasher for BlakeTwo256 {
    type Output = H256;

    open spec fn digest(data: Seq<u8>) -> Seq<u8> {
        blake_two_256(data)
    }

    fn hash(data: &[u8]) -> (out: H256) {
        H256(hash_blake_two_256(data))
    }
}

} // verus!
