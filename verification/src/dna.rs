//! Derivation of the 16-byte asset payload ("DNA") and the byte-level mixing
//! rule used by breeding.
//!
//! A payload is the blake2b-128 digest of an explicitly serialized entropy
//! record: the host-supplied randomness seed, the caller identity and the
//! extrinsic index, concatenated as raw bytes with no framing. The digest is
//! a function of those inputs alone, so payload derivation is reproducible
//! given a fixed seed, caller and extrinsic index.

use vstd::prelude::*;

verus! {

/// The 16-byte blake2b digest of a byte sequence, as computed by the outside
/// hashing crate. The digest depends on the input bytes alone.
pub uninterp spec fn blake2_128_of(data: Seq<u8>) -> Seq<u8>;

/// Relies on `sp_crypto_hashing::blake2_128`: the 16-byte blake2b digest of
/// the input bytes, a pure function of those bytes.
pub assume_specification [ sp_crypto_hashing::blake2_128 ](data: &[u8]) -> (r: [u8; 16])
    ensures
        r@ == blake2_128_of(data@),
;

/// The caller identity as eight little-endian bytes.
pub open spec fn spec_le_bytes_u64(x: u64) -> Seq<u8> {
    seq![
        (x % 256) as u8,
        ((x / 256) % 256) as u8,
        ((x / 65536) % 256) as u8,
        ((x / 16777216) % 256) as u8,
        ((x / 4294967296) % 256) as u8,
        ((x / 1099511627776) % 256) as u8,
        ((x / 281474976710656) % 256) as u8,
        ((x / 72057594037927936) % 256) as u8,
    ]
}

/// The extrinsic index as four little-endian bytes.
pub open spec fn spec_le_bytes_u32(x: u32) -> Seq<u8> {
    seq![
        (x % 256) as u8,
        ((x / 256) % 256) as u8,
        ((x / 65536) % 256) as u8,
        ((x / 16777216) % 256) as u8,
    ]
}

/// The documented serialization of the entropy inputs: the seed bytes, then
/// the caller identity as eight little-endian bytes, then the extrinsic index
/// as four little-endian bytes. Raw bytes, no framing.
pub open spec fn spec_entropy_bytes(seed: Seq<u8>, caller: u64, extrinsic_index: u32) -> Seq<u8> {
    seed + spec_le_bytes_u64(caller) + spec_le_bytes_u32(extrinsic_index)
}

/// The payload a successful `create_asset` stores, and the selector a
/// successful `breed_asset` mixes with: a pure function of the seed, the
/// caller and the extrinsic index.
pub open spec fn spec_payload(seed: Seq<u8>, caller: u64, extrinsic_index: u32) -> Seq<u8> {
    blake2_128_of(spec_entropy_bytes(seed, caller, extrinsic_index))
}

/// One byte of a child payload: each bit comes from `dna1` where the
/// corresponding selector bit is 1, and from `dna2` where it is 0.
pub open spec fn spec_combine(dna1: u8, dna2: u8, selector: u8) -> u8 {
    (selector & dna1) | (!selector & dna2)
}

/// The whole child payload, mixed byte by byte under the selector.
pub open spec fn spec_child_dna(dna1: Seq<u8>, dna2: Seq<u8>, selector: Seq<u8>) -> Seq<u8> {
    Seq::new(selector.len(), |i: int| spec_combine(dna1[i], dna2[i], selector[i]))
}

/// Law: a selector byte of 0x00 takes the whole byte from the second parent,
/// and a selector byte of 0xff takes it from the first.
pub proof fn lemma_combine_boundary(dna1: u8, dna2: u8)
    ensures
        spec_combine(dna1, dna2, 0x00) == dna2,
        spec_combine(dna1, dna2, 0xff) == dna1,
{
    assert((0x00u8 & dna1) | (!0x00u8 & dna2) == dna2) by (bit_vector);
    assert((0xffu8 & dna1) | (!0xffu8 & dna2) == dna1) by (bit_vector);
}

/// Law: breeding is deterministic. Any two child payloads computed from the
/// same parent payloads under the same seed, caller and extrinsic index are
/// equal, because the selector is a function of those three inputs alone.
pub proof fn lemma_child_dna_deterministic(
    dna1: Seq<u8>,
    dna2: Seq<u8>,
    seed: Seq<u8>,
    caller: u64,
    extrinsic_index: u32,
    child1: Seq<u8>,
    child2: Seq<u8>,
)
    requires
        child1 == spec_child_dna(dna1, dna2, spec_payload(seed, caller, extrinsic_index)),
        child2 == spec_child_dna(dna1, dna2, spec_payload(seed, caller, extrinsic_index)),
    ensures
        child1 == child2,
{
}

/// One byte of the per-bit mux: each bit of the result comes from `dna1`
/// where the selector bit is 1 and from `dna2` where it is 0.
pub fn combine_dna(dna1: u8, dna2: u8, selector: u8) -> (r: u8)
    ensures
        r == spec_combine(dna1, dna2, selector),
{
    (selector & dna1) | (!selector & dna2)
}

/// Serializes the entropy inputs and hashes them into a 16-byte payload.
pub fn derive_payload(seed: &Vec<u8>, caller: u64, extrinsic_index: u32) -> (r: [u8; 16])
    ensures
        r@ == spec_payload(seed@, caller, extrinsic_index),
{
    let mut buf: Vec<u8> = Vec::new();
    let mut i: usize = 0;
    while i < seed.len()
        invariant
            i <= seed@.len(),
            buf@ == seed@.take(i as int),
        decreases seed@.len() - i,
    {
        buf.push(seed[i]);
        i += 1;
    }
    assert(buf@ =~= seed@);
    buf.push((caller % 256) as u8);
    buf.push(((caller / 256) % 256) as u8);
    buf.push(((caller / 65536) % 256) as u8);
    buf.push(((caller / 16777216) % 256) as u8);
    buf.push(((caller / 4294967296) % 256) as u8);
    buf.push(((caller / 1099511627776) % 256) as u8);
    buf.push(((caller / 281474976710656) % 256) as u8);
    buf.push(((caller / 72057594037927936) % 256) as u8);
    buf.push((extrinsic_index % 256) as u8);
    buf.push(((extrinsic_index / 256) % 256) as u8);
    buf.push(((extrinsic_index / 65536) % 256) as u8);
    buf.push(((extrinsic_index / 16777216) % 256) as u8);
    assert(buf@ =~= spec_entropy_bytes(seed@, caller, extrinsic_index));
    sp_crypto_hashing::blake2_128(buf.as_slice())
}

} // verus!
