//! Derivation of per-interval contact event numbers (CENs) from a private
//! key, and membership checking of a candidate key's CENs against a log of
//! observed identifiers.

use vstd::prelude::*;

pub mod primitives;
pub mod generate;
pub mod hasher;
pub mod log;
pub mod checker;
pub mod laws;

pub use generate::{
    Scheme, calculate_cens_hashing, calculate_cens_hashing_batch, calculate_cens_chacha8,
    generate, cen_spec, is_cen_sequence, lemma_generate_deterministic,
};
pub use hasher::{HashHasher, HashHasherBuilder};
pub use log::{CenLog, build_log, cen_key, log_map_of, unique_cens};
pub use checker::{
    Log, check, spec_check, check_cen_membership, check_cen_manu, best_match, best_manu,
    manu_match, interval_matches, interval_ts,
};
pub use laws::{
    lemma_round_trip, lemma_multi_match_max, lemma_no_match, lemma_manu_round_trip,
    lemma_strategy_equivalence,
};

verus! {

/// Number of 15-minute intervals in a 14-day identifier lifetime.
pub const INTERVALS_PER_LIFETIME: usize = 4 * 24 * 14;

/// Size in bytes of a contact event number.
pub const CEN_BYTES: usize = 16;

/// A contact event number: a 16-byte pseudorandom identifier broadcast for
/// one time interval.
pub type CEN = [u8; CEN_BYTES];

/// A 32-byte private key from which a lifetime of CENs is derived.
pub type PK = [u8; 32];

} // verus!
