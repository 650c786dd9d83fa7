//! The log of observed identifiers, as a mapping from CEN to the timestamp
//! at which the CEN was uploaded, for hash-lookup membership checking.
//!
//! A CEN is exactly 16 bytes, so it is carried as its little-endian 128-bit
//! integer reading, a lossless packing under which the verified map's keys
//! stay plain integers.

use vstd::prelude::*;
use std::collections::HashMap;
use crate::CEN;

verus! {

/// A 16-byte CEN read as a little-endian 128-bit integer; injective on
/// 16-byte sequences.
pub open spec fn cen_key(cen: Seq<u8>) -> u128 {
    vstd::bytes::spec_u128_from_le_bytes(cen)
}

/// Packing two equal-length CENs to equal keys means the CENs were equal.
pub proof fn lemma_cen_key_injective(a: Seq<u8>, b: Seq<u8>)
    requires
        a.len() == 16,
        b.len() == 16,
        cen_key(a) == cen_key(b),
    ensures
        a == b,
{
    vstd::bytes::lemma_auto_spec_u128_to_from_le_bytes();
    assert(vstd::bytes::spec_u128_to_le_bytes(cen_key(a)) == a);
    assert(vstd::bytes::spec_u128_to_le_bytes(cen_key(b)) == b);
}

/// The mapping that a sequence of (CEN, timestamp) entries builds: each entry
/// in order, a later entry with the same CEN overwriting an earlier one.
pub open spec fn log_map_of(entries: Seq<(CEN, i64)>) -> Map<u128, i64>
    decreases entries.len(),
{
    if entries.len() == 0 {
        Map::empty()
    } else {
        log_map_of(entries.drop_last()).insert(cen_key(entries.last().0@), entries.last().1)
    }
}

/// The log for hash-lookup checking: a read-only mapping CEN -> timestamp,
/// built once from a collection of broadcast reports.
pub struct CenLog {
    map: HashMap<u128, i64>,
}

impl View for CenLog {
    type V = Map<u128, i64>;

    closed spec fn view(&self) -> Map<u128, i64> {
        self.map@
    }
}

impl CenLog {
    /// Look a CEN up: its timestamp if the log holds it, `None` otherwise.
    pub fn get(&self, cen: &CEN) -> (r: Option<i64>)
        ensures
            r == if self@.contains_key(cen_key(cen@)) {
                Some(self@[cen_key(cen@)])
            } else {
                Option::<i64>::None
            },
    {
        let k = vstd::bytes::u128_from_le_bytes(vstd::array::array_as_slice(cen));
        match self.map.get(&k) {
            Some(t) => Some(*t),
            None => None,
        }
    }
}

/// Build the lookup log from raw (CEN, timestamp) entries.
pub fn build_log(entries: &Vec<(CEN, i64)>) -> (r: CenLog)
    ensures
        r@ == log_map_of(entries@),
{
    let mut map: HashMap<u128, i64> = HashMap::new();
    for e in 0..entries.len()
        invariant
            map@ == log_map_of(entries@.take(e as int)),
    {
        let (cen, ts) = entries[e];
        let k = vstd::bytes::u128_from_le_bytes(vstd::array::array_as_slice(&cen));
        map.insert(k, ts);
        proof {
            assert(entries@.take(e + 1).drop_last() =~= entries@.take(e as int));
            assert(entries@.take(e + 1).last() == entries@[e as int]);
        }
    }
    proof {
        assert(entries@.take(entries@.len() as int) =~= entries@);
    }
    CenLog { map }
}

/// What `log_map_of` holds: exactly the packed keys of the entries, and,
/// where no later entry reuses a CEN, each entry's own timestamp.
pub proof fn lemma_log_map_of_contains(entries: Seq<(CEN, i64)>, k: u128)
    ensures
        log_map_of(entries).contains_key(k) <==> exists|e: int|
            0 <= e < entries.len() && cen_key((#[trigger] entries[e]).0@) == k,
    decreases entries.len(),
{
    if entries.len() > 0 {
        lemma_log_map_of_contains(entries.drop_last(), k);
        if log_map_of(entries).contains_key(k) {
            if cen_key(entries.last().0@) == k {
                assert(cen_key(entries[entries.len() - 1].0@) == k);
            } else {
                let e = choose|e: int|
                    0 <= e < entries.drop_last().len() && cen_key(
                        (#[trigger] entries.drop_last()[e]).0@,
                    ) == k;
                assert(entries[e] == entries.drop_last()[e]);
            }
        }
        if exists|e: int| 0 <= e < entries.len() && cen_key((#[trigger] entries[e]).0@) == k {
            let e = choose|e: int| 0 <= e < entries.len() && cen_key((#[trigger] entries[e]).0@) == k;
            if e < entries.len() - 1 {
                assert(entries.drop_last()[e] == entries[e]);
            }
        }
    }
}

/// No two entries share a CEN.
pub open spec fn unique_cens(entries: Seq<(CEN, i64)>) -> bool {
    forall|a: int, b: int|
        0 <= a < b < entries.len() ==> (#[trigger] entries[a]).0@ != (#[trigger] entries[b]).0@
}

/// With unique CENs, the built map sends each entry's packed CEN to that
/// entry's own timestamp.
pub proof fn lemma_log_map_of_value(entries: Seq<(CEN, i64)>, e: int)
    requires
        unique_cens(entries),
        0 <= e < entries.len(),
    ensures
        log_map_of(entries).contains_key(cen_key(entries[e].0@)),
        log_map_of(entries)[cen_key(entries[e].0@)] == entries[e].1,
    decreases entries.len(),
{
    lemma_log_map_of_contains(entries, cen_key(entries[e].0@));
    if e == entries.len() - 1 {
    } else {
        assert(unique_cens(entries.drop_last())) by {
            assert(forall|a: int, b: int|
                0 <= a < b < entries.drop_last().len() ==> (#[trigger] entries.drop_last()[a]).0@
                    != (#[trigger] entries.drop_last()[b]).0@) by {
                assert(forall|a: int|
                    0 <= a < entries.drop_last().len() ==> #[trigger] entries.drop_last()[a]
                        == entries[a]);
            }
        }
        assert(entries.drop_last()[e] == entries[e]);
        lemma_log_map_of_value(entries.drop_last(), e);
        if cen_key(entries.last().0@) == cen_key(entries[e].0@) {
            lemma_cen_key_injective(entries.last().0@, entries[e].0@);
            assert(entries[entries.len() - 1].0@ == entries[e].0@);
            assert(false);
        }
    }
}

} // verus!
