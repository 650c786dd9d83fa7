//! Trusted wrappers around the cryptographic primitives of outside crates.
//!
//! Each primitive's output is pinned by an uninterpreted name: the output is
//! a pure function of the wrapper's arguments, but far too long to state.

use vstd::prelude::*;
use crate::{CEN, PK};
use rand::{RngCore, SeedableRng};
use cipher::{BlockCipher, NewBlockCipher};

verus! {

/// The first 16 bytes of BLAKE3's keyed-hash extendable output for the given
/// 32-byte key and message; a function of the key and the message alone.
pub uninterp spec fn blake3_keyed_hash_16(key: Seq<u8>, msg: Seq<u8>) -> Seq<u8>;

/// Relies on blake3::Hasher::new_keyed, update, finalize_xof and
/// OutputReader::fill: the keyed hash is deterministic in key and input, and
/// `fill` hands out the first bytes of the extendable output.
#[verifier::external_body]
pub(crate) fn blake3_keyed_16(key: &PK, msg: &[u8]) -> (r: CEN)
    ensures
        r@ == blake3_keyed_hash_16(key@, msg@),
{
    let mut out = [0u8; 16];
    let mut hasher = blake3::Hasher::new_keyed(key);
    hasher.update(msg);
    hasher.finalize_xof().fill(&mut out);
    out
}

/// The 16 bytes at byte offset `pos` of BLAKE3's keyed extendable output
/// stream for the given key, with no input fed; a function of the key and
/// the position alone.
pub uninterp spec fn blake3_xof_16(key: Seq<u8>, pos: u64) -> Seq<u8>;

/// Relies on blake3::OutputReader::set_position and fill: the extendable
/// output stream is determined by the key, and reading after a seek yields
/// the stream's bytes at that position. Positions are kept far below the
/// stream's 2^64 - 1 byte end, where reading is unspecified.
#[verifier::external_body]
pub(crate) fn blake3_xof_16_at(key: &PK, pos: u64) -> (r: CEN)
    requires
        pos <= 0xffff_ffff_ffff_0000u64,
    ensures
        r@ == blake3_xof_16(key@, pos),
{
    let mut out = [0u8; 16];
    let mut reader = blake3::Hasher::new_keyed(key).finalize_xof();
    reader.set_position(pos);
    reader.fill(&mut out);
    out
}

/// The 16 bytes at 4-byte word offset `word_pos` of the ChaCha8 keystream
/// seeded with the given 32 bytes; a function of the seed and the position
/// alone.
pub uninterp spec fn chacha8_16(seed: Seq<u8>, word_pos: u64) -> Seq<u8>;

/// Relies on rand_chacha::ChaCha8Rng::from_seed, set_word_pos and
/// RngCore::fill_bytes: the cipher's keystream is determined by the seed,
/// and filling after a seek to a word position yields the stream's bytes
/// there.
#[verifier::external_body]
pub(crate) fn chacha8_16_at(seed: &PK, word_pos: u64) -> (r: CEN)
    ensures
        r@ == chacha8_16(seed@, word_pos),
{
    let mut out = [0u8; 16];
    let mut rng = rand_chacha::ChaCha8Rng::from_seed(*seed);
    rng.set_word_pos(word_pos as u128);
    rng.fill_bytes(&mut out);
    out
}

/// AES-128 decryption of one 16-byte block under the given 16-byte key; a
/// function of the key and the block alone.
pub uninterp spec fn aes128_decrypt_block(key: Seq<u8>, block: Seq<u8>) -> Seq<u8>;

/// Relies on aes_soft::Aes128 through cipher::NewBlockCipher::new and
/// cipher::BlockCipher::decrypt_block: the portable AES-128 implementation
/// decrypts one block, a pure function of key and block.
#[verifier::external_body]
pub(crate) fn aes128_decrypt(key: &[u8], block: &CEN) -> (r: CEN)
    requires
        key@.len() == 16,
    ensures
        r@ == aes128_decrypt_block(key@, block@),
{
    let cipher = aes_soft::Aes128::new(generic_array::GenericArray::from_slice(key));
    let mut b = generic_array::GenericArray::clone_from_slice(block);
    cipher.decrypt_block(&mut b);
    let mut out = [0u8; 16];
    out.copy_from_slice(b.as_slice());
    out
}

} // verus!
