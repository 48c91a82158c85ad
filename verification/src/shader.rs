//! Packing shader binaries into 32-bit words.
//!
//! A shader binary is an opaque blob of GPU bytecode whose byte length must
//! be a multiple of four; the device consumes it as little-endian 32-bit
//! words. A blob that is not 4-byte aligned is rejected before any device
//! call is made.

use vstd::prelude::*;

use crate::error::RenderError;

verus! {

/// The little-endian 32-bit word starting at byte `4 * k` of `bytes`.
pub open spec fn le_word_at(bytes: Seq<u8>, k: int) -> u32
    recommends
        0 <= k,
        4 * k + 4 <= bytes.len(),
{
    (bytes[4 * k] + bytes[4 * k + 1] * 0x100 + bytes[4 * k + 2] * 0x10000 + bytes[4 * k + 3]
        * 0x1000000) as u32
}

/// Reinterprets a shader binary as little-endian 32-bit words.
///
/// Returns `AlignmentError`, and touches no device, exactly when the byte
/// length is not a multiple of four; otherwise every four bytes become one
/// word, in order.
pub fn u8_to_u32_slice(bytes: &[u8]) -> (r: Result<Vec<u32>, RenderError>)
    ensures
        match r {
            Ok(words) => {
                &&& bytes@.len() % 4 == 0
                &&& words@.len() == bytes@.len() / 4
                &&& forall|k: int|
                    0 <= k < words@.len() ==> words@[k] == le_word_at(bytes@, k)
            },
            Err(e) => {
                &&& e == RenderError::AlignmentError
                &&& bytes@.len() % 4 != 0
            },
        },
{
    if bytes.len() % 4 != 0 {
        return Err(RenderError::AlignmentError);
    }
    let len = bytes.len();
    let n = len / 4;
    assert(len == 4 * n);
    let mut words: Vec<u32> = Vec::new();
    let mut k: usize = 0;
    while k < n
        invariant
            bytes@.len() == 4 * n,
            4 * n <= usize::MAX,
            k <= n,
            words@.len() == k,
            forall|j: int| 0 <= j < k ==> words@[j] == le_word_at(bytes@, j),
        decreases n - k,
    {
        let base = 4 * k;
        let b0 = bytes[base] as u32;
        let b1 = bytes[base + 1] as u32;
        let b2 = bytes[base + 2] as u32;
        let b3 = bytes[base + 3] as u32;
        let word = b0 + b1 * 0x100 + b2 * 0x10000 + b3 * 0x1000000;
        assert(word == le_word_at(bytes@, k as int));
        words.push(word);
        k = k + 1;
    }
    Ok(words)
}

} // verus!
