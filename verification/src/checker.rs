//! Membership checking: the maximum timestamp among all CENs derivable from
//! a candidate key that appear in a log, or `None` when none appears.
//!
//! Two strategies realize the same result: generate-and-lookup probes the
//! CEN -> timestamp mapping with each of the candidate's 1344 CENs, while
//! decrypt-and-verify walks the whole log and decrypts each entry under the
//! candidate key, declaring a match when the plaintext's 8-byte prefix is
//! all zero. The second is meaningful only under an upstream tagging scheme
//! that makes the zero prefix appear exactly for entries of the matching
//! key; that scheme is an external collaborator, consumed here as a
//! hypothesis, never designed.

use vstd::prelude::*;
use crate::{CEN, PK, INTERVALS_PER_LIFETIME};
use crate::generate::{Scheme, cen_spec, generate};
use crate::log::{CenLog, cen_key};
use crate::primitives::{aes128_decrypt, aes128_decrypt_block};

verus! {

/// The larger of two timestamps.
pub open spec fn ts_max(a: i64, b: i64) -> i64 {
    if a >= b {
        a
    } else {
        b
    }
}

/// The lookup strategy's answer over the candidate's first `n` intervals:
/// the maximum timestamp the log holds for any of their CENs, or `None`.
pub open spec fn best_match(log: Map<u128, i64>, key: Seq<u8>, scheme: Scheme, n: int) -> Option<
    i64,
>
    decreases n,
{
    if n <= 0 {
        None
    } else {
        let prev = best_match(log, key, scheme, n - 1);
        let k = cen_key(cen_spec(key, scheme, n - 1));
        if log.contains_key(k) {
            match prev {
                None => Some(log[k]),
                Some(t) => Some(ts_max(t, log[k])),
            }
        } else {
            prev
        }
    }
}

/// Whether interval `i` of the candidate's lifetime matches the log.
pub open spec fn interval_matches(log: Map<u128, i64>, key: Seq<u8>, scheme: Scheme, i: int) -> bool {
    log.contains_key(cen_key(cen_spec(key, scheme, i)))
}

/// The timestamp the log holds for interval `i`'s CEN.
pub open spec fn interval_ts(log: Map<u128, i64>, key: Seq<u8>, scheme: Scheme, i: int) -> i64 {
    log[cen_key(cen_spec(key, scheme, i))]
}

/// What `best_match` computes: `None` exactly when no interval matches, and
/// otherwise a timestamp that some matching interval attains and that no
/// matching interval exceeds.
pub proof fn lemma_best_match_characterization(
    log: Map<u128, i64>,
    key: Seq<u8>,
    scheme: Scheme,
    n: int,
)
    ensures
        best_match(log, key, scheme, n) is None <==> forall|i: int|
            0 <= i < n ==> !interval_matches(log, key, scheme, i),
        forall|t: i64|
            best_match(log, key, scheme, n) == Some(t) ==> {
                &&& exists|i: int|
                    0 <= i < n && interval_matches(log, key, scheme, i) && interval_ts(
                        log,
                        key,
                        scheme,
                        i,
                    ) == t
                &&& forall|i: int|
                    0 <= i < n && interval_matches(log, key, scheme, i) ==> interval_ts(
                        log,
                        key,
                        scheme,
                        i,
                    ) <= t
            },
    decreases n,
{
    if n > 0 {
        lemma_best_match_characterization(log, key, scheme, n - 1);
        let r = best_match(log, key, scheme, n);
        let prev = best_match(log, key, scheme, n - 1);
        let mn = interval_matches(log, key, scheme, n - 1);
        if r is None {
            assert forall|i: int| 0 <= i < n implies !interval_matches(log, key, scheme, i) by {
                if i < n - 1 {
                    assert(prev is None);
                }
            }
        }
        if forall|i: int| 0 <= i < n ==> !interval_matches(log, key, scheme, i) {
            assert(!interval_matches(log, key, scheme, n - 1));
            assert(forall|i: int| 0 <= i < n - 1 ==> !interval_matches(log, key, scheme, i));
            assert(r is None);
        }
        assert forall|t: i64| r == Some(t) implies {
            &&& exists|i: int|
                0 <= i < n && interval_matches(log, key, scheme, i) && interval_ts(
                    log,
                    key,
                    scheme,
                    i,
                ) == t
            &&& forall|i: int|
                0 <= i < n && interval_matches(log, key, scheme, i) ==> interval_ts(
                    log,
                    key,
                    scheme,
                    i,
                ) <= t
        } by {
            let tn = interval_ts(log, key, scheme, n - 1);
            if mn {
                match prev {
                    None => {
                        assert(t == tn);
                        assert(interval_matches(log, key, scheme, n - 1) && interval_ts(
                            log,
                            key,
                            scheme,
                            n - 1,
                        ) == t);
                        assert forall|i: int|
                            0 <= i < n && interval_matches(log, key, scheme, i) implies interval_ts(
                            log,
                            key,
                            scheme,
                            i,
                        ) <= t by {
                            if i < n - 1 {
                                assert(!interval_matches(log, key, scheme, i));
                            }
                        }
                    },
                    Some(t0) => {
                        assert(t == ts_max(t0, tn));
                        let i0 = choose|i: int|
                            0 <= i < n - 1 && interval_matches(log, key, scheme, i) && interval_ts(
                                log,
                                key,
                                scheme,
                                i,
                            ) == t0;
                        if t == t0 {
                            assert(interval_matches(log, key, scheme, i0) && interval_ts(
                                log,
                                key,
                                scheme,
                                i0,
                            ) == t);
                        } else {
                            assert(t == tn);
                            assert(interval_matches(log, key, scheme, n - 1) && interval_ts(
                                log,
                                key,
                                scheme,
                                n - 1,
                            ) == t);
                        }
                    },
                }
            } else {
                assert(r == prev);
                let i0 = choose|i: int|
                    0 <= i < n - 1 && interval_matches(log, key, scheme, i) && interval_ts(
                        log,
                        key,
                        scheme,
                        i,
                    ) == t;
                assert(interval_matches(log, key, scheme, i0) && interval_ts(log, key, scheme, i0)
                    == t);
            }
        }
    }
}

/// Check a candidate key against the lookup log: generate its full CEN
/// sequence under the scheme, probe the log with each CEN, and return the
/// maximum timestamp found, or `None` when none of them appears.
pub fn check_cen_membership(log: &CenLog, pk: PK, scheme: Scheme) -> (r: Option<i64>)
    ensures
        r == best_match(log@, pk@, scheme, INTERVALS_PER_LIFETIME as int),
{
    let cens = generate(pk, scheme);
    let mut acc: Option<i64> = None;
    for i in 0..cens.len()
        invariant
            cens@.len() == INTERVALS_PER_LIFETIME,
            forall|j: int| 0 <= j < cens@.len() ==> (#[trigger] cens@[j])@ == cen_spec(pk@, scheme, j),
            acc == best_match(log@, pk@, scheme, i as int),
    {
        match log.get(&cens[i]) {
            Some(ts) => {
                acc = match acc {
                    None => Some(ts),
                    Some(t) => if t >= ts {
                        Some(t)
                    } else {
                        Some(ts)
                    },
                };
            },
            None => {},
        }
    }
    acc
}

/// A log, in the representation its checking strategy asks for: a mapping for
/// generate-and-lookup, an ordered sequence of pairs for decrypt-and-verify.
pub enum Log {
    /// A CEN -> timestamp mapping, probed with the candidate's derived CENs.
    Lookup(CenLog),
    /// Ordered (CEN, timestamp) pairs, each decrypted under the candidate key.
    Decrypt(Vec<(CEN, i64)>),
}

/// What `check` answers on each representation.
pub open spec fn spec_check(log: Log, key: Seq<u8>, scheme: Scheme) -> Option<i64> {
    match log {
        Log::Lookup(m) => best_match(m@, key, scheme, INTERVALS_PER_LIFETIME as int),
        Log::Decrypt(entries) => best_manu(entries@, key.subrange(0, 16), entries@.len() as int),
    }
}

/// The one checker interface both strategies stand behind: the maximum
/// logged timestamp among the candidate key's matches, or `None`.
pub fn check(log: &Log, pk: PK, scheme: Scheme) -> (r: Option<i64>)
    ensures
        r == spec_check(*log, pk@, scheme),
{
    match log {
        Log::Lookup(m) => check_cen_membership(m, pk, scheme),
        Log::Decrypt(entries) => check_cen_manu(entries.as_slice(), pk),
    }
}

/// Whether decrypting `cen` under `key16` yields an all-zero 8-byte prefix:
/// the decrypt-and-verify strategy's match criterion.
pub open spec fn manu_match(key16: Seq<u8>, cen: Seq<u8>) -> bool {
    let d = aes128_decrypt_block(key16, cen);
    forall|k: int| 0 <= k < 8 ==> d[k] == 0
}

/// The decrypt strategy's answer over the log's first `n` entries: the
/// maximum timestamp among entries whose CEN decrypts to a zero prefix
/// under the candidate key, or `None`.
pub open spec fn best_manu(entries: Seq<(CEN, i64)>, key16: Seq<u8>, n: int) -> Option<i64>
    decreases n,
{
    if n <= 0 {
        None
    } else {
        let prev = best_manu(entries, key16, n - 1);
        if manu_match(key16, entries[n - 1].0@) {
            match prev {
                None => Some(entries[n - 1].1),
                Some(t) => Some(ts_max(t, entries[n - 1].1)),
            }
        } else {
            prev
        }
    }
}

/// What `best_manu` computes: `None` exactly when no entry matches, and
/// otherwise a timestamp that some matching entry attains and that no
/// matching entry exceeds.
pub proof fn lemma_best_manu_characterization(entries: Seq<(CEN, i64)>, key16: Seq<u8>, n: int)
    requires
        n <= entries.len(),
    ensures
        best_manu(entries, key16, n) is None <==> forall|e: int|
            0 <= e < n ==> !manu_match(key16, (#[trigger] entries[e]).0@),
        forall|t: i64|
            best_manu(entries, key16, n) == Some(t) ==> {
                &&& exists|e: int|
                    0 <= e < n && manu_match(key16, (#[trigger] entries[e]).0@) && entries[e].1 == t
                &&& forall|e: int|
                    0 <= e < n && manu_match(key16, (#[trigger] entries[e]).0@) ==> entries[e].1
                        <= t
            },
    decreases n,
{
    if n > 0 {
        lemma_best_manu_characterization(entries, key16, n - 1);
    }
}

/// Check a candidate key against the full log by decryption: decrypt every
/// logged CEN under the key's first 16 bytes and return the maximum
/// timestamp among the entries whose plaintext starts with 8 zero bytes, or
/// `None` when none does.
pub fn check_cen_manu(log: &[(CEN, i64)], pk: PK) -> (r: Option<i64>)
    ensures
        r == best_manu(log@, pk@.subrange(0, 16), log@.len() as int),
{
    let key16 = vstd::slice::slice_subrange(vstd::array::array_as_slice(&pk), 0, 16);
    let mut acc: Option<i64> = None;
    let n = log.len();
    for e in 0..n
        invariant
            n == log@.len(),
            key16@ == pk@.subrange(0, 16),
            acc == best_manu(log@, pk@.subrange(0, 16), e as int),
    {
        let entry = vstd::slice::slice_index_get(log, e);
        let d = aes128_decrypt(key16, &entry.0);
        let hit = d[0] == 0 && d[1] == 0 && d[2] == 0 && d[3] == 0 && d[4] == 0 && d[5] == 0
            && d[6] == 0 && d[7] == 0;
        proof {
            assert(hit == manu_match(pk@.subrange(0, 16), log@[e as int].0@));
        }
        if hit {
            acc = match acc {
                None => Some(entry.1),
                Some(t) => if t >= entry.1 {
                    Some(t)
                } else {
                    Some(entry.1)
                },
            };
        }
    }
    acc
}

} // verus!
