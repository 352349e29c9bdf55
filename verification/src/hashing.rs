//! The two hash functions of the storage schemes, and the 32-byte values they
//! and the chains deal in.

use sha3::Digest;
use vstd::prelude::*;

verus! {

/// A 32-byte value: a block hash, a Merkle root or node, a digest.
#[derive(Clone, Copy, Debug, PartialEq, Eq)]
pub struct Hash256 {
    pub bytes: [u8; 32],
}

impl View for Hash256 {
    type V = Seq<u8>;

    open spec fn view(&self) -> Seq<u8> {
        self.bytes@
    }
}

/// The 128-bit XX hash of `data` as `sp_crypto_hashing::twox_128` computes it:
/// two 64-bit XX hashes, with seeds 0 and 1, each written little-endian.
pub uninterp spec fn twox_128_digest(data: Seq<u8>) -> Seq<u8>;

/// The Keccak-256 digest of `data` as `sha3::Keccak256` computes it.
pub uninterp spec fn keccak_256_digest(data: Seq<u8>) -> Seq<u8>;

/// Calls `sp_crypto_hashing::twox_128`. Nothing is proved of the hash: the
/// result is the function's value on these bytes, by its name.
#[verifier::external_body]
pub(crate) fn twox_128(data: &[u8]) -> (digest: [u8; 16])
    ensures
        digest@ == twox_128_digest(data@),
{
    sp_crypto_hashing::twox_128(data)
}

/// Feeds `data` to a fresh `sha3::Keccak256` and finalizes it. Nothing is
/// proved of the hash: the result is the digest of these bytes, by its name.
#[verifier::external_body]
pub(crate) fn keccak_256(data: &[u8]) -> (digest: [u8; 32])
    ensures
        digest@ == keccak_256_digest(data@),
{
    let mut hasher = sha3::Keccak256::new();
    hasher.update(data);
    hasher.finalize().into()
}

} // verus!
