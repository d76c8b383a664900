//! Ticket fingerprints.

use vstd::prelude::*;
use vstd::bytes::{
    lemma_auto_spec_u64_to_from_le_bytes, spec_u64_from_le_bytes, spec_u64_to_le_bytes,
    u64_to_le_bytes,
};
use crate::pubkey::Pubkey;

verus! {

/// The Keccak-256 digest of a byte string.
pub uninterp spec fn keccak256(data: Seq<u8>) -> Seq<u8>;

/// Calls `anchor_lang::solana_program::keccak::hash` and unwraps the digest
/// with `Hash::to_bytes`. The contract claims only that the 32 bytes returned
/// are the Keccak-256 digest of `data`, which is a function of `data` alone.
#[verifier::external_body]
fn keccak_digest(data: &Vec<u8>) -> (digest: [u8; 32])
    ensures
        digest@ == keccak256(data@),
{
    anchor_lang::solana_program::keccak::hash(data.as_slice()).to_bytes()
}

/// The eight bytes of a timestamp, least significant first, a negative one
/// in two's complement.
pub open spec fn timestamp_bytes(timestamp: i64) -> Seq<u8> {
    spec_u64_to_le_bytes(timestamp as u64)
}

/// The bytes that a ticket's fingerprint is taken of: the five numbers, the
/// buyer's 32 bytes and the eight bytes of the time of purchase, 45 in all.
pub open spec fn ticket_preimage(numbers: Seq<u8>, buyer: Pubkey, timestamp: i64) -> Seq<u8> {
    numbers + buyer.bytes@ + timestamp_bytes(timestamp)
}

/// The fingerprint of a ticket.
pub open spec fn ticket_hash(numbers: Seq<u8>, buyer: Pubkey, timestamp: i64) -> Seq<u8> {
    keccak256(ticket_preimage(numbers, buyer, timestamp))
}

/// Computes the fingerprint of a ticket from its numbers, its buyer and the
/// time of purchase, and from nothing else.
pub fn generate_ticket_hash(numbers: &[u8; 5], buyer: &Pubkey, timestamp: i64) -> (hash: [u8; 32])
    ensures
        hash@ == ticket_hash(numbers@, *buyer, timestamp),
{
    let mut data: Vec<u8> = Vec::new();
    data.extend_from_slice(numbers.as_slice());
    data.extend_from_slice(buyer.bytes.as_slice());
    let stamp = u64_to_le_bytes(timestamp as u64);
    data.extend_from_slice(stamp.as_slice());
    assert(data@ == ticket_preimage(numbers@, *buyer, timestamp));
    keccak_digest(&data)
}

/// The fingerprint depends on nothing but the numbers, the buyer and the
/// time of purchase: equal inputs give equal fingerprints.
pub proof fn ticket_hash_is_deterministic(
    numbers: Seq<u8>,
    buyer: Pubkey,
    timestamp: i64,
    other_numbers: Seq<u8>,
    other_buyer: Pubkey,
    other_timestamp: i64,
)
    requires
        numbers == other_numbers,
        buyer == other_buyer,
        timestamp == other_timestamp,
    ensures
        ticket_hash(numbers, buyer, timestamp) == ticket_hash(
            other_numbers,
            other_buyer,
            other_timestamp,
        ),
{
}

/// Tickets that differ in a number, in the buyer or in the time of purchase
/// hand different bytes to the digest: two fingerprints can then be equal
/// only where Keccak-256 collides.
pub proof fn ticket_preimage_is_injective(
    numbers: Seq<u8>,
    buyer: Pubkey,
    timestamp: i64,
    other_numbers: Seq<u8>,
    other_buyer: Pubkey,
    other_timestamp: i64,
)
    requires
        numbers.len() == 5,
        other_numbers.len() == 5,
        ticket_preimage(numbers, buyer, timestamp) == ticket_preimage(
            other_numbers,
            other_buyer,
            other_timestamp,
        ),
    ensures
        numbers == other_numbers,
        buyer == other_buyer,
        timestamp == other_timestamp,
{
    let one = ticket_preimage(numbers, buyer, timestamp);
    let two = ticket_preimage(other_numbers, other_buyer, other_timestamp);
    lemma_auto_spec_u64_to_from_le_bytes();
    assert(numbers =~= one.subrange(0, 5));
    assert(other_numbers =~= two.subrange(0, 5));
    assert(buyer.bytes@ =~= one.subrange(5, 37));
    assert(other_buyer.bytes@ =~= two.subrange(5, 37));
    assert(buyer.bytes =~= other_buyer.bytes);
    assert(timestamp_bytes(timestamp) =~= one.subrange(37, 45));
    assert(timestamp_bytes(other_timestamp) =~= two.subrange(37, 45));
    let a = timestamp as u64;
    let b = other_timestamp as u64;
    assert(spec_u64_from_le_bytes(spec_u64_to_le_bytes(a)) == a);
    assert(spec_u64_from_le_bytes(spec_u64_to_le_bytes(b)) == b);
    assert(timestamp == other_timestamp) by (bit_vector)
        requires
            timestamp as u64 == other_timestamp as u64,
    ;
}

} // verus!
