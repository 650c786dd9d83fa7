//! The library's laws: how the two checking strategies behave over whole
//! logs, stated over the same spec functions that the executable functions'
//! contracts use, and proved from them.

use vstd::prelude::*;
use crate::{CEN, INTERVALS_PER_LIFETIME};
use crate::generate::{Scheme, cen_spec};
use crate::log::{
    cen_key, log_map_of, unique_cens, lemma_log_map_of_contains, lemma_log_map_of_value,
    lemma_cen_key_injective,
};
use crate::checker::{
    best_match, best_manu, interval_matches, interval_ts, manu_match,
    lemma_best_match_characterization, lemma_best_manu_characterization,
};

verus! {

/// Round-trip match: a log holding exactly one entry, interval `i`'s CEN
/// mapped to `t`, makes the lookup check of the same key answer `Some(t)`.
pub proof fn lemma_round_trip(key: Seq<u8>, scheme: Scheme, i: int, t: i64)
    requires
        0 <= i < INTERVALS_PER_LIFETIME as int,
    ensures
        best_match(
            Map::<u128, i64>::empty().insert(cen_key(cen_spec(key, scheme, i)), t),
            key,
            scheme,
            INTERVALS_PER_LIFETIME as int,
        ) == Some(t),
{
    let n = INTERVALS_PER_LIFETIME as int;
    let log = Map::<u128, i64>::empty().insert(cen_key(cen_spec(key, scheme, i)), t);
    lemma_best_match_characterization(log, key, scheme, n);
    assert(interval_matches(log, key, scheme, i));
    let r = best_match(log, key, scheme, n);
    match r {
        None => {
            assert(!interval_matches(log, key, scheme, i));
        },
        Some(tp) => {
            let i0 = choose|j: int|
                0 <= j < n && interval_matches(log, key, scheme, j) && interval_ts(
                    log,
                    key,
                    scheme,
                    j,
                ) == tp;
            assert(log[cen_key(cen_spec(key, scheme, i0))] == t);
            assert(interval_ts(log, key, scheme, i) == t);
            assert(tp == t);
        },
    }
}

/// Multi-match max: when interval `i`'s CEN is logged at `t1`, interval
/// `j`'s at `t2`, `t1 < t2`, and no matching interval is logged later than
/// `t2`, the lookup check answers `Some(t2)`.
pub proof fn lemma_multi_match_max(
    log: Map<u128, i64>,
    key: Seq<u8>,
    scheme: Scheme,
    i: int,
    j: int,
    t1: i64,
    t2: i64,
)
    requires
        0 <= i < INTERVALS_PER_LIFETIME as int,
        0 <= j < INTERVALS_PER_LIFETIME as int,
        interval_matches(log, key, scheme, i),
        interval_ts(log, key, scheme, i) == t1,
        interval_matches(log, key, scheme, j),
        interval_ts(log, key, scheme, j) == t2,
        t1 < t2,
        forall|k: int|
            0 <= k < INTERVALS_PER_LIFETIME as int && interval_matches(log, key, scheme, k)
                ==> interval_ts(log, key, scheme, k) <= t2,
    ensures
        best_match(log, key, scheme, INTERVALS_PER_LIFETIME as int) == Some(t2),
{
    let n = INTERVALS_PER_LIFETIME as int;
    lemma_best_match_characterization(log, key, scheme, n);
    let r = best_match(log, key, scheme, n);
    match r {
        None => {
            assert(!interval_matches(log, key, scheme, j));
        },
        Some(tp) => {
            assert(interval_ts(log, key, scheme, j) <= tp);
            assert(tp <= t2);
        },
    }
}

/// No-match: a key none of whose interval CENs the log holds yields the
/// explicit empty result.
pub proof fn lemma_no_match(log: Map<u128, i64>, key: Seq<u8>, scheme: Scheme)
    requires
        forall|i: int|
            0 <= i < INTERVALS_PER_LIFETIME as int ==> !interval_matches(log, key, scheme, i),
    ensures
        best_match(log, key, scheme, INTERVALS_PER_LIFETIME as int) is None,
{
    lemma_best_match_characterization(log, key, scheme, INTERVALS_PER_LIFETIME as int);
}

/// Round-trip match for the decrypt strategy: when entry `e`'s CEN decrypts
/// to a zero prefix under the key at timestamp `t`, and no matching entry is
/// logged later than `t`, the decrypt check answers `Some(t)`.
pub proof fn lemma_manu_round_trip(entries: Seq<(CEN, i64)>, key16: Seq<u8>, e: int, t: i64)
    requires
        0 <= e < entries.len(),
        manu_match(key16, entries[e].0@),
        entries[e].1 == t,
        forall|f: int|
            0 <= f < entries.len() && manu_match(key16, (#[trigger] entries[f]).0@)
                ==> entries[f].1 <= t,
    ensures
        best_manu(entries, key16, entries.len() as int) == Some(t),
{
    let n = entries.len() as int;
    lemma_best_manu_characterization(entries, key16, n);
    let r = best_manu(entries, key16, n);
    match r {
        None => {
            assert(!manu_match(key16, entries[e].0@));
        },
        Some(tp) => {
            assert(entries[e].1 <= tp);
            assert(tp <= t);
        },
    }
}

/// Strategy equivalence: over a log whose CENs are pairwise distinct, built
/// once as a sequence and once as the mapping that sequence induces, and
/// under the upstream tagging hypothesis -- an entry decrypts to a zero
/// prefix under the candidate key exactly when its CEN is one of the CENs
/// that the scheme derives from that key -- generate-and-lookup and
/// decrypt-and-verify answer identically.
pub proof fn lemma_strategy_equivalence(entries: Seq<(CEN, i64)>, key: Seq<u8>, scheme: Scheme)
    requires
        unique_cens(entries),
        forall|i: int|
            0 <= i < INTERVALS_PER_LIFETIME as int ==> (#[trigger] cen_spec(key, scheme, i)).len()
                == 16,
        forall|e: int|
            0 <= e < entries.len() ==> (manu_match(key.subrange(0, 16), (#[trigger] entries[e]).0@)
                <==> exists|i: int|
                0 <= i < INTERVALS_PER_LIFETIME as int && #[trigger] cen_spec(key, scheme, i)
                    == entries[e].0@),
    ensures
        best_manu(entries, key.subrange(0, 16), entries.len() as int) == best_match(
            log_map_of(entries),
            key,
            scheme,
            INTERVALS_PER_LIFETIME as int,
        ),
{
    let n = INTERVALS_PER_LIFETIME as int;
    let len = entries.len() as int;
    let k16 = key.subrange(0, 16);
    let lmap = log_map_of(entries);
    lemma_best_manu_characterization(entries, k16, len);
    lemma_best_match_characterization(lmap, key, scheme, n);

    // A matching entry names a matching interval with the same timestamp.
    assert forall|e: int| 0 <= e < len && manu_match(k16, (#[trigger] entries[e]).0@) implies exists|
        i: int,
    |
        0 <= i < n && interval_matches(lmap, key, scheme, i) && interval_ts(lmap, key, scheme, i)
            == entries[e].1 by {
        let i = choose|i: int| 0 <= i < n && #[trigger] cen_spec(key, scheme, i) == entries[e].0@;
        lemma_log_map_of_value(entries, e);
        assert(interval_matches(lmap, key, scheme, i) && interval_ts(lmap, key, scheme, i)
            == entries[e].1);
    }

    // A matching interval names a matching entry with the same timestamp.
    assert forall|i: int| 0 <= i < n && interval_matches(lmap, key, scheme, i) implies exists|
        e: int,
    |
        0 <= e < len && manu_match(k16, (#[trigger] entries[e]).0@) && entries[e].1 == interval_ts(
            lmap,
            key,
            scheme,
            i,
        ) by {
        lemma_log_map_of_contains(entries, cen_key(cen_spec(key, scheme, i)));
        let e = choose|e: int|
            0 <= e < len && cen_key((#[trigger] entries[e]).0@) == cen_key(cen_spec(key, scheme, i));
        lemma_cen_key_injective(entries[e].0@, cen_spec(key, scheme, i));
        assert(entries[e].0@ == cen_spec(key, scheme, i));
        assert(manu_match(k16, entries[e].0@));
        lemma_log_map_of_value(entries, e);
        assert(manu_match(k16, entries[e].0@) && entries[e].1 == interval_ts(lmap, key, scheme, i));
    }

    let rm = best_manu(entries, k16, len);
    let rl = best_match(lmap, key, scheme, n);
    match rm {
        None => {
            assert forall|i: int| 0 <= i < n implies !interval_matches(lmap, key, scheme, i) by {
                if interval_matches(lmap, key, scheme, i) {
                    let e = choose|e: int|
                        0 <= e < len && manu_match(k16, (#[trigger] entries[e]).0@) && entries[e].1
                            == interval_ts(lmap, key, scheme, i);
                    assert(!manu_match(k16, entries[e].0@));
                }
            }
            assert(rl is None);
        },
        Some(tm) => {
            match rl {
                None => {
                    let e0 = choose|e: int|
                        0 <= e < len && manu_match(k16, (#[trigger] entries[e]).0@) && entries[e].1
                            == tm;
                    let i0 = choose|i: int|
                        0 <= i < n && interval_matches(lmap, key, scheme, i) && interval_ts(
                            lmap,
                            key,
                            scheme,
                            i,
                        ) == entries[e0].1;
                    assert(!interval_matches(lmap, key, scheme, i0));
                },
                Some(tl) => {
                    let e0 = choose|e: int|
                        0 <= e < len && manu_match(k16, (#[trigger] entries[e]).0@) && entries[e].1
                            == tm;
                    let i1 = choose|i: int|
                        0 <= i < n && interval_matches(lmap, key, scheme, i) && interval_ts(
                            lmap,
                            key,
                            scheme,
                            i,
                        ) == entries[e0].1;
                    assert(tm <= tl);
                    let i0 = choose|i: int|
                        0 <= i < n && interval_matches(lmap, key, scheme, i) && interval_ts(
                            lmap,
                            key,
                            scheme,
                            i,
                        ) == tl;
                    let e1 = choose|e: int|
                        0 <= e < len && manu_match(k16, (#[trigger] entries[e]).0@) && entries[e].1
                            == interval_ts(lmap, key, scheme, i0);
                    assert(tl <= tm);
                },
            }
        },
    }
}

} // verus!
