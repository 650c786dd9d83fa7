use cen_core::{
    build_log, calculate_cens_chacha8, calculate_cens_hashing, calculate_cens_hashing_batch,
    check, check_cen_manu, check_cen_membership, generate, HashHasherBuilder, Log, Scheme, CEN,
    INTERVALS_PER_LIFETIME, PK,
};
use cipher::{BlockCipher, NewBlockCipher};

fn key_of(fill: u8) -> PK {
    let mut k = [0u8; 32];
    for (i, b) in k.iter_mut().enumerate() {
        *b = fill.wrapping_add(i as u8);
    }
    k
}

/// AES-encrypt a block whose first 8 bytes are zero under the key's first 16
/// bytes: decrypting it with the same key yields the zero prefix again, the
/// tag the decrypt-and-verify strategy looks for.
fn tagged_cen(pk: &PK, suffix: [u8; 8]) -> CEN {
    let cipher = aes_soft::Aes128::new(generic_array::GenericArray::from_slice(&pk[..16]));
    let mut plain = [0u8; 16];
    plain[8..].copy_from_slice(&suffix);
    let mut block = generic_array::GenericArray::clone_from_slice(&plain);
    cipher.encrypt_block(&mut block);
    let mut cen = [0u8; 16];
    cen.copy_from_slice(block.as_slice());
    cen
}

#[test]
fn generate_is_deterministic() {
    let k = key_of(7);
    for scheme in [Scheme::PerIntervalHash, Scheme::BatchedHash, Scheme::StreamCipher] {
        let a = generate(k, scheme);
        let b = generate(k, scheme);
        assert_eq!(a, b);
    }
}

#[test]
fn generate_shape() {
    let k = key_of(1);
    for scheme in [Scheme::PerIntervalHash, Scheme::BatchedHash, Scheme::StreamCipher] {
        let cens = generate(k, scheme);
        assert_eq!(cens.len(), INTERVALS_PER_LIFETIME);
        assert_eq!(cens.len(), 1344);
        for cen in &cens {
            assert_eq!(cen.len(), 16);
        }
    }
}

#[test]
fn schemes_disagree_on_cens() {
    // The three schemes are distinct derivations, not one algorithm thrice.
    let k = key_of(3);
    let a = calculate_cens_hashing(k);
    let b = calculate_cens_hashing_batch(k);
    let c = calculate_cens_chacha8(k);
    assert_ne!(a[0], b[0]);
    assert_ne!(a[0], c[0]);
    assert_ne!(b[0], c[0]);
}

#[test]
fn keys_disagree_on_cens() {
    let a = generate(key_of(4), Scheme::PerIntervalHash);
    let b = generate(key_of(5), Scheme::PerIntervalHash);
    assert_ne!(a[0], b[0]);
}

#[test]
fn intervals_disagree_on_cens() {
    for scheme in [Scheme::PerIntervalHash, Scheme::BatchedHash, Scheme::StreamCipher] {
        let cens = generate(key_of(6), scheme);
        assert_ne!(cens[0], cens[1]);
        assert_ne!(cens[1], cens[2]);
        assert_ne!(cens[0], cens[1343]);
    }
}

#[test]
fn round_trip_match() {
    let k = key_of(11);
    for scheme in [Scheme::PerIntervalHash, Scheme::BatchedHash, Scheme::StreamCipher] {
        let cens = generate(k, scheme);
        for i in [0usize, 500, 1343] {
            let log = build_log(&vec![(cens[i], 42)]);
            assert_eq!(check_cen_membership(&log, k, scheme), Some(42));
        }
    }
}

#[test]
fn multi_match_takes_max() {
    let k = key_of(12);
    let scheme = Scheme::PerIntervalHash;
    let cens = generate(k, scheme);
    let log = build_log(&vec![(cens[3], 10), (cens[7], 20)]);
    assert_eq!(check_cen_membership(&log, k, scheme), Some(20));
    let log = build_log(&vec![(cens[7], 20), (cens[3], 10)]);
    assert_eq!(check_cen_membership(&log, k, scheme), Some(20));
}

#[test]
fn no_match_is_none() {
    let k = key_of(13);
    for scheme in [Scheme::PerIntervalHash, Scheme::BatchedHash, Scheme::StreamCipher] {
        let empty = build_log(&vec![]);
        assert_eq!(check_cen_membership(&empty, k, scheme), None);
        let log = build_log(&vec![([1u8; 16], 5), ([2u8; 16], 6)]);
        assert_eq!(check_cen_membership(&log, k, scheme), None);
    }
}

#[test]
fn zero_timestamp_is_a_match_not_none() {
    let k = key_of(14);
    let scheme = Scheme::StreamCipher;
    let cens = generate(k, scheme);
    let log = build_log(&vec![(cens[9], 0)]);
    assert_eq!(check_cen_membership(&log, k, scheme), Some(0));
}

#[test]
fn manu_round_trip_match() {
    let k = key_of(21);
    let cen = tagged_cen(&k, [1, 2, 3, 4, 5, 6, 7, 8]);
    let log = vec![(cen, 99i64)];
    assert_eq!(check_cen_manu(&log, k), Some(99));
}

#[test]
fn manu_multi_match_takes_max() {
    let k = key_of(22);
    let a = tagged_cen(&k, [1, 0, 0, 0, 0, 0, 0, 0]);
    let b = tagged_cen(&k, [2, 0, 0, 0, 0, 0, 0, 0]);
    let log = vec![(a, 5i64), ([9u8; 16], 1000), (b, 12)];
    assert_eq!(check_cen_manu(&log, k), Some(12));
}

#[test]
fn manu_no_match_is_none() {
    let k = key_of(23);
    assert_eq!(check_cen_manu(&[], k), None);
    let log = vec![([1u8; 16], 5i64), ([2u8; 16], 6)];
    assert_eq!(check_cen_manu(&log, k), None);
    // CENs tagged for one key do not match another key.
    let other = key_of(24);
    let log = vec![(tagged_cen(&other, [0u8; 8]), 7i64)];
    assert_eq!(check_cen_manu(&log, k), None);
}

#[test]
fn strategies_agree_on_a_foreign_log() {
    // A log with no overlap with the candidate key: both strategies report
    // the explicit empty result.
    let k = key_of(31);
    let entries: Vec<(CEN, i64)> = (0u8..40).map(|v| ([v; 16], v as i64)).collect();
    let map_log = build_log(&entries);
    for scheme in [Scheme::PerIntervalHash, Scheme::BatchedHash, Scheme::StreamCipher] {
        let lookup = check_cen_membership(&map_log, k, scheme);
        let decrypt = check_cen_manu(&entries, k);
        assert_eq!(lookup, decrypt);
        assert_eq!(lookup, None);
    }
}

#[test]
fn unified_check_dispatches_on_representation() {
    let k = key_of(41);
    let scheme = Scheme::BatchedHash;
    let cens = generate(k, scheme);
    let lookup = Log::Lookup(build_log(&vec![(cens[11], 64)]));
    assert_eq!(check(&lookup, k, scheme), Some(64));
    let decrypt = Log::Decrypt(vec![(tagged_cen(&k, [3u8; 8]), 65)]);
    assert_eq!(check(&decrypt, k, scheme), Some(65));
    let foreign = Log::Decrypt(vec![([8u8; 16], 66)]);
    assert_eq!(check(&foreign, k, scheme), None);
}

#[test]
fn pass_through_hasher_extracts_prefix() {
    let builder = HashHasherBuilder;
    let mut h = builder.build_hasher();
    assert_eq!(h.finish(), 0);
    let cen: CEN = [1, 0, 0, 0, 0, 0, 0, 0, 0xff, 0xff, 0, 0, 0, 0, 0, 0];
    h.write(&cen);
    assert_eq!(h.finish(), 1);
    let cen2: CEN = [0x21, 0x43, 0x65, 0x87, 0xa9, 0xcb, 0xed, 0x0f, 9, 9, 9, 9, 9, 9, 9, 9];
    h.write(&cen2);
    assert_eq!(h.finish(), 0x0fedcba987654321);
}

#[test]
fn scale_smoke() {
    // A scaled-down version of the throughput scenario: many log entries,
    // many independent candidate keys, both strategies, every check
    // in-bounds and consistent.
    let mut entries: Vec<(CEN, i64)> = Vec::with_capacity(1000);
    for i in 0..1000u32 {
        let mut cen = [0u8; 16];
        cen[..4].copy_from_slice(&i.to_le_bytes());
        cen[15] = 0xee;
        entries.push((cen, i as i64));
    }
    // Plant one candidate's CEN so that not every check is a no-match.
    let planted = key_of(77);
    let planted_cens = generate(planted, Scheme::StreamCipher);
    entries.push((planted_cens[100], 123_456));
    let log = build_log(&entries);
    let mut hits = 0usize;
    for j in 0..60u8 {
        let k = key_of(j);
        let r = check_cen_membership(&log, k, Scheme::StreamCipher);
        let m = check_cen_manu(&entries, k);
        if let Some(t) = r {
            assert_eq!(t, 123_456);
            hits += 1;
        }
        assert_eq!(m, None);
        assert_eq!(r, check_cen_membership(&log, k, Scheme::StreamCipher));
    }
    assert_eq!(hits, 0);
    assert_eq!(
        check_cen_membership(&log, planted, Scheme::StreamCipher),
        Some(123_456)
    );
}
