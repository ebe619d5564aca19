//! The selection engine: which item a purchase draws.
//!
//! The index is derived from the block time alone. It is neither secret nor
//! unpredictable, and two draws at one block time give one index.

use crate::text::{decimal_string, decimal_text, decimal_text_is_ascii};
use tiny_keccak::{Hasher, Sha3};
use vstd::prelude::*;
use vstd::string::StringSliceAdditionalSpecFns;
use vstd::utf8::encode_utf8;

verus! {

/// The SHA3-256 digest of a byte string, as FIPS 202 defines it.
pub uninterp spec fn sha3_256_digest(input: Seq<u8>) -> Seq<u8>;

/// Hashes `input` with `tiny_keccak`: a hasher made by `Sha3::v256` absorbs
/// the input through `Hasher::update`, and `Hasher::finalize` writes the 32
/// bytes of the digest. The contract takes on trust that these bytes are the
/// SHA3-256 digest of the input.
#[verifier::external_body]
pub(crate) fn sha3_256(input: &[u8]) -> (digest: [u8; 32])
    ensures
        digest@ == sha3_256_digest(input@),
{
    let mut sha3 = Sha3::v256();
    sha3.update(input);
    let mut digest = [0u8; 32];
    sha3.finalize(&mut digest);
    digest
}

/// The number that the first eight bytes spell, the most significant first.
pub open spec fn be_u64(bytes: Seq<u8>) -> nat {
    (bytes[0] as nat) * 0x100_0000_0000_0000 + (bytes[1] as nat) * 0x1_0000_0000_0000 + (
    bytes[2] as nat) * 0x100_0000_0000 + (bytes[3] as nat) * 0x1_0000_0000 + (bytes[4] as nat)
        * 0x100_0000 + (bytes[5] as nat) * 0x1_0000 + (bytes[6] as nat) * 0x100 + (
    bytes[7] as nat)
}

/// The first `count` bytes, each shifted to its place in a word of 64 bits.
spec fn shifted_prefix(bytes: Seq<u8>, count: nat) -> u64
    decreases count,
{
    if count == 0 {
        0
    } else {
        shifted_prefix(bytes, (count - 1) as nat) | ((bytes[count - 1] as u64) << (((8 - count)
            * 8) as u64))
    }
}

proof fn shifted_bytes_add_up(b0: u8, b1: u8, b2: u8, b3: u8, b4: u8, b5: u8, b6: u8, b7: u8)
    by (bit_vector)
    ensures
        (((((((((0u64 | ((b0 as u64) << 56u64)) | ((b1 as u64) << 48u64)) | ((b2 as u64) << 40u64))
            | ((b3 as u64) << 32u64)) | ((b4 as u64) << 24u64)) | ((b5 as u64) << 16u64)) | ((
        b6 as u64) << 8u64)) | ((b7 as u64) << 0u64))) == (b0 as u64) * 0x100_0000_0000_0000 + (
        b1 as u64) * 0x1_0000_0000_0000 + (b2 as u64) * 0x100_0000_0000 + (b3 as u64)
            * 0x1_0000_0000 + (b4 as u64) * 0x100_0000 + (b5 as u64) * 0x1_0000 + (b6 as u64)
            * 0x100 + (b7 as u64),
{
}

/// Reads the first eight bytes as a number, the most significant byte first.
pub fn bytes_to_u64(bytes: &[u8]) -> (value: u64)
    requires
        bytes@.len() >= 8,
    ensures
        value == be_u64(bytes@),
{
    let mut result: u64 = 0;
    let mut i: usize = 0;
    while i < 8
        invariant
            i <= 8,
            bytes@.len() >= 8,
            result == shifted_prefix(bytes@, i as nat),
        decreases 8 - i,
    {
        let shift: u64 = ((7 - i) * 8) as u64;
        result = result | ((bytes[i] as u64) << shift);
        i = i + 1;
    }
    proof {
        reveal_with_fuel(shifted_prefix, 9);
        shifted_bytes_add_up(
            bytes@[0],
            bytes@[1],
            bytes@[2],
            bytes@[3],
            bytes@[4],
            bytes@[5],
            bytes@[6],
            bytes@[7],
        );
    }
    result
}

/// The index that a draw at block time `now` gives among `max_items` items:
/// the block time is written in decimal, the text is hashed with SHA3-256,
/// and the first eight bytes of the digest, read as a number, are reduced
/// modulo `max_items`.
pub open spec fn random_item_id(now: u64, max_items: u64) -> u64
    recommends
        max_items > 0,
{
    (be_u64(sha3_256_digest(encode_utf8(decimal_text(now as nat)))) % (max_items as nat)) as u64
}

/// Every draw falls inside the inventory's range.
pub proof fn random_item_id_in_range(now: u64, max_items: u64)
    requires
        max_items > 0,
    ensures
        random_item_id(now, max_items) < max_items,
        random_item_id(now, max_items) == be_u64(
            sha3_256_digest(encode_utf8(decimal_text(now as nat))),
        ) % (max_items as nat),
{
}

/// Draws an item index in `[0, max_items)` from the block time.
pub fn get_random_item_id(now: u64, max_items: u64) -> (item_id: u64)
    requires
        max_items > 0,
    ensures
        item_id == random_item_id(now, max_items),
        item_id < max_items,
{
    let input = decimal_string(now);
    let digest = sha3_256(input.as_str().as_bytes());
    let hash_number = bytes_to_u64(digest.as_slice());
    hash_number % max_items
}

} // verus!
