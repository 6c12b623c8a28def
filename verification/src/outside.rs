//! The calls that leave the library.
//!
//! What these functions return is computed by code that is not verified here.
//! Each contract is taken on trust from the documentation and the source of
//! the function it calls; the rest of the library is proved from them.

use vstd::prelude::*;
use vstd::utf8::{decode_utf8, valid_utf8};
use crate::wire::is_memory_image;

verus! {

/// The 64-bit xxHash of `bytes` under `seed`, as `twox_hash::XxHash64` computes it.
pub uninterp spec fn xxhash64_of(seed: u64, bytes: Seq<u8>) -> u64;

/// Runs `twox_hash::XxHash64` over `bytes`: a hasher made by `with_seed(seed)`
/// is fed the whole slice by one `write` and asked to `finish`. The digest
/// depends on the seed and the bytes alone; it is not computed in the proofs,
/// only named.
#[verifier::external_body]
pub(crate) fn xxhash64(seed: u64, bytes: &[u8]) -> (digest: u64)
    ensures
        digest == xxhash64_of(seed, bytes@),
{
    let mut hasher = twox_hash::XxHash64::with_seed(seed);
    core::hash::Hasher::write(&mut hasher, bytes);
    core::hash::Hasher::finish(&hasher)
}

/// Calls `bytemuck::cast_slice` to see a slice of `u32` as a slice of `u8`.
/// The cast keeps the address and multiplies the length by four, so the result
/// is the words as they lie in memory: in the byte order of the machine, which
/// is little-endian or big-endian. A `u8` needs no alignment and four bytes
/// make a whole word, so the cast cannot fail.
#[verifier::external_body]
pub(crate) fn words_as_bytes<'a>(words: &'a [u32]) -> (bytes: &'a [u8])
    ensures
        is_memory_image(bytes@, words@),
{
    bytemuck::cast_slice::<u32, u8>(words)
}

/// Calls `String::from_utf8`, which takes the bytes as a string if they are
/// valid UTF-8 and fails if they are not. The string has the code points that
/// the bytes encode.
#[verifier::external_body]
pub(crate) fn string_from_utf8(bytes: Vec<u8>) -> (text: Option<String>)
    ensures
        text.is_some() == valid_utf8(bytes@),
        text matches Some(t) ==> t@ == decode_utf8(bytes@),
{
    String::from_utf8(bytes).ok()
}

} // verus!
