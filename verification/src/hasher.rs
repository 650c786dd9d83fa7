//! A pass-through hash for keys that are already uniformly random.
//!
//! A CEN is an unbiased high-entropy 16-byte value, so re-hashing it before a
//! table lookup is wasted work: the hash code is simply the value's first 8
//! bytes read little-endian. This shortcut is valid only under that
//! precondition; for any other key type it is not a usable hash.
//!
//! The verified lookup log of this crate stores its keys packed as 128-bit
//! integers instead; this hasher states the same shortcut exactly, for
//! callers that key an ordinary hash table by raw CENs.

use vstd::prelude::*;

verus! {

/// Hash state that records the first 8 bytes of the value written to it.
pub struct HashHasher(pub [u8; 8]);

impl HashHasher {
    /// Record the first 8 bytes of `value` as the whole hash state.
    pub fn write(&mut self, value: &[u8])
        requires
            value@.len() >= 8,
        ensures
            final(self).0@ == value@.subrange(0, 8),
    {
        self.0 = [value[0], value[1], value[2], value[3], value[4], value[5], value[6], value[7]];
        proof {
            assert(self.0@ =~= value@.subrange(0, 8));
        }
    }

    /// The hash code: the recorded 8 bytes read as a little-endian integer.
    pub fn finish(&self) -> (r: u64)
        ensures
            r == vstd::bytes::spec_u64_from_le_bytes(self.0@),
    {
        vstd::bytes::u64_from_le_bytes(vstd::array::array_as_slice(&self.0))
    }
}

/// Builder handing out fresh `HashHasher` states.
pub struct HashHasherBuilder;

impl HashHasherBuilder {
    /// A fresh, all-zero hash state.
    pub fn build_hasher(&self) -> (r: HashHasher)
        ensures
            r.0@ == Seq::<u8>::new(8, |i: int| 0u8),
    {
        HashHasher([0u8; 8])
    }
}

impl Default for HashHasherBuilder {
    fn default() -> (r: Self) {
        HashHasherBuilder
    }
}

} // verus!
