//! Identifier derivation: stable keys for entities, from their defining bytes.

use vstd::prelude::*;

verus! {

/// The unsigned integer that the first eight bytes of `hash` spell, least
/// significant byte first.
pub open spec fn leading_u64(hash: Seq<u8>) -> u64
    recommends
        hash.len() >= 8,
{
    (hash[0] as int + hash[1] as int * 0x100 + hash[2] as int * 0x1_0000 + hash[3] as int
        * 0x100_0000 + hash[4] as int * 0x1_0000_0000 + hash[5] as int * 0x100_0000_0000
        + hash[6] as int * 0x1_0000_0000_0000 + hash[7] as int * 0x100_0000_0000_0000) as u64
}

/// The eight bytes of `value`, least significant first.
pub open spec fn le_bytes(value: u64) -> Seq<u8> {
    Seq::new(8, |i: int| byte_at(value, i))
}

/// The eight bytes of `value`, most significant first.
pub open spec fn be_bytes(value: u64) -> Seq<u8> {
    Seq::new(8, |i: int| byte_at(value, 7 - i))
}

/// Byte `i` of `value`, counted from the least significant one.
pub open spec fn byte_at(value: u64, i: int) -> u8 {
    ((value as int / pow256(i)) % 256) as u8
}

/// 256 to the power `i`, for the eight byte positions of a `u64`.
pub open spec fn pow256(i: int) -> int {
    if i <= 0 {
        1
    } else if i == 1 {
        0x100
    } else if i == 2 {
        0x1_0000
    } else if i == 3 {
        0x100_0000
    } else if i == 4 {
        0x1_0000_0000
    } else if i == 5 {
        0x100_0000_0000
    } else if i == 6 {
        0x1_0000_0000_0000
    } else {
        0x100_0000_0000_0000
    }
}

/// Narrows a 32-byte hash to a 64-bit key: its first eight bytes, read least
/// significant byte first. The other 24 bytes play no part.
pub fn truncate_to_u64(hash: &[u8; 32]) -> (id: u64)
    ensures
        id == leading_u64(hash@),
{
    let b0: u64 = hash[0] as u64;
    let b1: u64 = hash[1] as u64;
    let b2: u64 = hash[2] as u64;
    let b3: u64 = hash[3] as u64;
    let b4: u64 = hash[4] as u64;
    let b5: u64 = hash[5] as u64;
    let b6: u64 = hash[6] as u64;
    let b7: u64 = hash[7] as u64;
    b0 + b1 * 0x100 + b2 * 0x1_0000 + b3 * 0x100_0000 + b4 * 0x1_0000_0000 + b5
        * 0x100_0000_0000 + b6 * 0x1_0000_0000_0000 + b7 * 0x100_0000_0000_0000
}

/// The eight bytes of `value`, least significant first.
pub fn u64_le_bytes(value: u64) -> (bytes: Vec<u8>)
    ensures
        bytes@ == le_bytes(value),
{
    let mut bytes: Vec<u8> = Vec::with_capacity(8);
    bytes.push((value % 0x100) as u8);
    bytes.push((value / 0x100 % 0x100) as u8);
    bytes.push((value / 0x1_0000 % 0x100) as u8);
    bytes.push((value / 0x100_0000 % 0x100) as u8);
    bytes.push((value / 0x1_0000_0000 % 0x100) as u8);
    bytes.push((value / 0x100_0000_0000 % 0x100) as u8);
    bytes.push((value / 0x1_0000_0000_0000 % 0x100) as u8);
    bytes.push((value / 0x100_0000_0000_0000 % 0x100) as u8);
    assert(bytes@ =~= le_bytes(value));
    bytes
}

/// The eight bytes of `value`, most significant first.
pub fn u64_be_bytes(value: u64) -> (bytes: Vec<u8>)
    ensures
        bytes@ == be_bytes(value),
{
    let mut bytes: Vec<u8> = Vec::with_capacity(8);
    bytes.push((value / 0x100_0000_0000_0000 % 0x100) as u8);
    bytes.push((value / 0x1_0000_0000_0000 % 0x100) as u8);
    bytes.push((value / 0x100_0000_0000 % 0x100) as u8);
    bytes.push((value / 0x1_0000_0000 % 0x100) as u8);
    bytes.push((value / 0x100_0000 % 0x100) as u8);
    bytes.push((value / 0x1_0000 % 0x100) as u8);
    bytes.push((value / 0x100 % 0x100) as u8);
    bytes.push((value % 0x100) as u8);
    assert(bytes@ =~= be_bytes(value));
    bytes
}

/// The 32-byte digest that commits to `seed` followed by `extra`.
pub uninterp spec fn content_digest(seed: Seq<u8>, extra: Seq<u8>) -> Seq<u8>;

/// `fuel_indexer_plugin::utils::bytes32_from_inputs`: takes the SHA-256 digest
/// of `seed` followed by `extra`, writes it in hexadecimal, and hands back the
/// first 32 characters of that text as bytes. Claimed here: what comes back
/// depends on the bytes of `seed` and `extra` alone.
#[verifier::external_body]
fn digest_of_inputs(seed: &[u8; 32], extra: &Vec<u8>) -> (digest: [u8; 32])
    ensures
        digest@ == content_digest(seed@, extra@),
{
    *fuel_indexer_plugin::utils::bytes32_from_inputs(seed, extra.clone())
}

/// Synthesizes a 32-byte identity for an entity that has none of its own, from
/// a seed and the bytes that define the entity.
pub fn content_hash(seed: &[u8; 32], extra: &Vec<u8>) -> (hash: [u8; 32])
    ensures
        hash@ == content_digest(seed@, extra@),
{
    digest_of_inputs(seed, extra)
}

/// The 64-bit key derived from `seed` and `extra`: the digest, narrowed.
pub open spec fn derived_key(seed: Seq<u8>, extra: Seq<u8>) -> u64 {
    leading_u64(content_digest(seed, extra))
}

/// Derives the 64-bit key of an entity from a seed and its defining bytes.
pub fn derive_key(seed: &[u8; 32], extra: &Vec<u8>) -> (id: u64)
    ensures
        id == derived_key(seed@, extra@),
{
    let hash = content_hash(seed, extra);
    truncate_to_u64(&hash)
}

} // verus!
