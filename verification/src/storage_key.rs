//! Storage keys of the two chains: hashed pallet keys of the
//! data-availability chain, and mapping slots of Ethereum contracts.

use crate::hashing::{keccak_256, keccak_256_digest, twox_128, twox_128_digest, Hash256};
use crate::hex::{lemma_hex_lower_injective, prefixed_hex};
use crate::uint256::{be_encode, Uint256};
use vstd::prelude::*;
use vstd::utf8::encode_utf8;

verus! {

/// The bytes of an optional sub-key: none where there is no sub-key.
pub open spec fn sub_key_bytes(sub_key: Option<Seq<u8>>) -> Seq<u8> {
    match sub_key {
        Some(bytes) => bytes,
        None => Seq::empty(),
    }
}

/// The storage key of an item of a pallet: the 128-bit XX hash of the
/// pallet's name, then that of the item's name, then the sub-key's bytes as
/// they are.
pub open spec fn pallet_key(pallet: Seq<u8>, item: Seq<u8>, sub_key: Option<Seq<u8>>) -> Seq<u8> {
    twox_128_digest(pallet) + twox_128_digest(item) + sub_key_bytes(sub_key)
}

/// The storage slot of the entry for `key` in a mapping that a contract
/// declares at `slot`: the Keccak-256 digest of the two numbers, each as 32
/// big-endian bytes, the key first.
pub open spec fn mapping_slot_key(key: nat, slot: nat) -> Seq<u8> {
    keccak_256_digest(be_encode(key, 32) + be_encode(slot, 32))
}

/// The view of an optional byte slice.
pub open spec fn optional_bytes(sub_key: Option<&[u8]>) -> Option<Seq<u8>> {
    match sub_key {
        Some(bytes) => Some(bytes@),
        None => None,
    }
}

/// Appends `bytes` to `out`.
pub fn append_bytes(out: &mut Vec<u8>, bytes: &[u8])
    ensures
        final(out)@ == old(out)@ + bytes@,
{
    let mut i: usize = 0;
    assert(out@ =~= old(out)@ + bytes@.take(0));
    while i < bytes.len()
        invariant
            i <= bytes.len(),
            out@ == old(out)@ + bytes@.take(i as int),
        decreases bytes.len() - i,
    {
        out.push(bytes[i]);
        assert(out@ =~= old(out)@ + bytes@.take(i + 1));
        i = i + 1;
    }
    assert(bytes@.take(bytes.len() as int) =~= bytes@);
}

/// Derives the storage key of `item` in `pallet`, for the entry under
/// `sub_key` where the item is a map. The names are hashed as UTF-8.
pub fn derive_pallet_key(pallet: &str, item: &str, sub_key: Option<&[u8]>) -> (key: Vec<u8>)
    ensures
        key@ == pallet_key(encode_utf8(pallet@), encode_utf8(item@), optional_bytes(sub_key)),
{
    let pallet_hash = twox_128(pallet.as_bytes());
    let item_hash = twox_128(item.as_bytes());
    let mut key: Vec<u8> = Vec::new();
    append_bytes(&mut key, pallet_hash.as_slice());
    append_bytes(&mut key, item_hash.as_slice());
    match sub_key {
        Some(bytes) => {
            append_bytes(&mut key, bytes);
        },
        None => {
            assert(key@ + Seq::<u8>::empty() =~= key@);
        },
    }
    assert(key@ =~= pallet_key(
        encode_utf8(pallet@),
        encode_utf8(item@),
        optional_bytes(sub_key),
    ));
    key
}

/// Derives the storage slot of the entry for `key` in the mapping at `slot`.
pub fn derive_mapping_slot_key(key: &Uint256, slot: &Uint256) -> (digest: Hash256)
    ensures
        digest@ == mapping_slot_key(key@, slot@),
{
    let key_bytes = key.to_be_bytes();
    let slot_bytes = slot.to_be_bytes();
    let mut input: Vec<u8> = Vec::new();
    append_bytes(&mut input, key_bytes.as_slice());
    append_bytes(&mut input, slot_bytes.as_slice());
    assert(input@ =~= be_encode(key@, 32) + be_encode(slot@, 32));
    Hash256 { bytes: keccak_256(input.as_slice()) }
}

/// Pallet-key derivation is a function of its inputs: the same names and
/// sub-key give the same key.
pub proof fn lemma_pallet_key_deterministic(
    pallet_a: Seq<u8>,
    item_a: Seq<u8>,
    sub_key_a: Option<Seq<u8>>,
    pallet_b: Seq<u8>,
    item_b: Seq<u8>,
    sub_key_b: Option<Seq<u8>>,
)
    requires
        pallet_a == pallet_b,
        item_a == item_b,
        sub_key_a == sub_key_b,
    ensures
        pallet_key(pallet_a, item_a, sub_key_a) == pallet_key(pallet_b, item_b, sub_key_b),
{
}

/// The key of a map entry holds the sub-key's bytes as they are, at its end:
/// under the same names, two different sub-keys give two different keys, and
/// two different key texts.
pub proof fn lemma_pallet_key_follows_sub_key(
    pallet: Seq<u8>,
    item: Seq<u8>,
    sub_key_a: Seq<u8>,
    sub_key_b: Seq<u8>,
)
    requires
        sub_key_a != sub_key_b,
    ensures
        pallet_key(pallet, item, Some(sub_key_a)) != pallet_key(pallet, item, Some(sub_key_b)),
        prefixed_hex(pallet_key(pallet, item, Some(sub_key_a))) != prefixed_hex(
            pallet_key(pallet, item, Some(sub_key_b)),
        ),
{
    let prefix = twox_128_digest(pallet) + twox_128_digest(item);
    let key_a = pallet_key(pallet, item, Some(sub_key_a));
    let key_b = pallet_key(pallet, item, Some(sub_key_b));
    assert(key_a =~= prefix + sub_key_a);
    assert(key_b =~= prefix + sub_key_b);
    if key_a == key_b {
        assert(sub_key_a.len() == sub_key_b.len());
        assert forall|i: int| 0 <= i < sub_key_a.len() implies sub_key_a[i] == sub_key_b[i] by {
            assert(key_a[prefix.len() + i] == sub_key_a[i]);
            assert(key_b[prefix.len() + i] == sub_key_b[i]);
        }
        assert(sub_key_a =~= sub_key_b);
    }
    if prefixed_hex(key_a) == prefixed_hex(key_b) {
        assert(prefixed_hex(key_a).skip(2) =~= crate::hex::hex_lower(key_a));
        assert(prefixed_hex(key_b).skip(2) =~= crate::hex::hex_lower(key_b));
        lemma_hex_lower_injective(key_a, key_b);
    }
}

} // verus!
