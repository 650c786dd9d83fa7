//! CEN generation: one 16-byte identifier per interval of the key's
//! lifetime, under one of three derivation schemes.

use vstd::prelude::*;
use crate::{CEN, PK, INTERVALS_PER_LIFETIME};
use crate::primitives::{
    blake3_keyed_hash_16, blake3_keyed_16, blake3_xof_16, blake3_xof_16_at, chacha8_16,
    chacha8_16_at,
};

verus! {

/// The closed set of CEN-derivation schemes. All three are deterministic and
/// produce 1344 identifiers of 16 bytes; they differ in how interval identity
/// is bound into each identifier.
#[derive(Clone, Copy, PartialEq, Eq, Structural, Debug)]
pub enum Scheme {
    /// A keyed hash, re-initialized per interval, of the interval index's
    /// 8-byte little-endian encoding: each CEN is cryptographically bound to
    /// its interval index as an explicit input.
    PerIntervalHash,
    /// Consecutive 16-byte chunks of a single keyed extendable-output stream:
    /// interval identity is bound only by position in the stream, a weaker
    /// claim than the per-interval scheme's, not an equivalent one.
    BatchedHash,
    /// Consecutive 16-byte chunks of a ChaCha8 keystream seeded with the key,
    /// analogous to the batched scheme but in a different primitive family.
    StreamCipher,
}

/// The CEN that the given scheme derives from `key` for interval `i`.
pub open spec fn cen_spec(key: Seq<u8>, scheme: Scheme, i: int) -> Seq<u8> {
    match scheme {
        Scheme::PerIntervalHash => blake3_keyed_hash_16(
            key,
            vstd::bytes::spec_u64_to_le_bytes(i as u64),
        ),
        Scheme::BatchedHash => blake3_xof_16(key, (16 * i) as u64),
        Scheme::StreamCipher => chacha8_16(key, (4 * i) as u64),
    }
}

/// What every generated sequence looks like: 1344 elements, the i-th being
/// the scheme's CEN for interval i, each exactly 16 bytes.
pub open spec fn is_cen_sequence(r: Seq<CEN>, key: Seq<u8>, scheme: Scheme) -> bool {
    &&& r.len() == INTERVALS_PER_LIFETIME
    &&& forall|i: int| 0 <= i < r.len() ==> (#[trigger] r[i])@ == cen_spec(key, scheme, i)
    &&& forall|i: int|
        0 <= i < r.len() ==> (#[trigger] cen_spec(key, scheme, i)).len() == 16
}

/// Derive the lifetime's CENs by a keyed hash of each interval index.
pub fn calculate_cens_hashing(key: PK) -> (r: Vec<CEN>)
    ensures
        is_cen_sequence(r@, key@, Scheme::PerIntervalHash),
{
    let mut out: Vec<CEN> = Vec::with_capacity(INTERVALS_PER_LIFETIME);
    for i in 0..INTERVALS_PER_LIFETIME
        invariant
            out@.len() == i,
            forall|j: int|
                0 <= j < i ==> (#[trigger] out@[j])@ == cen_spec(key@, Scheme::PerIntervalHash, j),
            forall|j: int|
                0 <= j < i ==> (#[trigger] cen_spec(key@, Scheme::PerIntervalHash, j)).len() == 16,
    {
        let msg = vstd::bytes::u64_to_le_bytes(i as u64);
        let cen = blake3_keyed_16(&key, msg.as_slice());
        out.push(cen);
    }
    out
}

/// Derive the lifetime's CENs as consecutive chunks of one keyed
/// extendable-output stream.
pub fn calculate_cens_hashing_batch(key: PK) -> (r: Vec<CEN>)
    ensures
        is_cen_sequence(r@, key@, Scheme::BatchedHash),
{
    let mut out: Vec<CEN> = Vec::with_capacity(INTERVALS_PER_LIFETIME);
    for i in 0..INTERVALS_PER_LIFETIME
        invariant
            out@.len() == i,
            forall|j: int|
                0 <= j < i ==> (#[trigger] out@[j])@ == cen_spec(key@, Scheme::BatchedHash, j),
            forall|j: int|
                0 <= j < i ==> (#[trigger] cen_spec(key@, Scheme::BatchedHash, j)).len() == 16,
    {
        let pos: u64 = 16 * (i as u64);
        let cen = blake3_xof_16_at(&key, pos);
        out.push(cen);
    }
    out
}

/// Derive the lifetime's CENs as consecutive chunks of a ChaCha8 keystream.
pub fn calculate_cens_chacha8(key: PK) -> (r: Vec<CEN>)
    ensures
        is_cen_sequence(r@, key@, Scheme::StreamCipher),
{
    let mut out: Vec<CEN> = Vec::with_capacity(INTERVALS_PER_LIFETIME);
    for i in 0..INTERVALS_PER_LIFETIME
        invariant
            out@.len() == i,
            forall|j: int|
                0 <= j < i ==> (#[trigger] out@[j])@ == cen_spec(key@, Scheme::StreamCipher, j),
            forall|j: int|
                0 <= j < i ==> (#[trigger] cen_spec(key@, Scheme::StreamCipher, j)).len() == 16,
    {
        let pos: u64 = 4 * (i as u64);
        let cen = chacha8_16_at(&key, pos);
        out.push(cen);
    }
    out
}

/// Derive the full CEN sequence for a key under the selected scheme.
pub fn generate(key: PK, scheme: Scheme) -> (r: Vec<CEN>)
    ensures
        is_cen_sequence(r@, key@, scheme),
{
    match scheme {
        Scheme::PerIntervalHash => calculate_cens_hashing(key),
        Scheme::BatchedHash => calculate_cens_hashing_batch(key),
        Scheme::StreamCipher => calculate_cens_chacha8(key),
    }
}

/// Determinism: any two sequences that meet `generate`'s contract for the
/// same key and scheme are element-for-element identical.
pub proof fn lemma_generate_deterministic(
    key: Seq<u8>,
    scheme: Scheme,
    r1: Seq<CEN>,
    r2: Seq<CEN>,
)
    requires
        is_cen_sequence(r1, key, scheme),
        is_cen_sequence(r2, key, scheme),
    ensures
        forall|i: int| 0 <= i < r1.len() ==> (#[trigger] r1[i])@ == r2[i]@,
        r1.len() == r2.len(),
{
}

} // verus!
