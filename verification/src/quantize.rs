//! Quantisation to signed 16-bit PCM.
//!
//! A sample in [-1, 1] is scaled by [`FULL_SCALE`] and rounded to the nearest
//! integer by the caller; the rounded value is then held to the 16-bit range
//! here. Full scale is 32767 on both sides, so -1 becomes -32767.

use vstd::prelude::*;

verus! {

/// Factor by which a sample is scaled before rounding.
pub const FULL_SCALE: i64 = 32767;

/// `v` held to the signed 16-bit range.
pub open spec fn clamped(v: int) -> int {
    if v < -32768 {
        -32768
    } else if v > 32767 {
        32767
    } else {
        v
    }
}

/// Each value of `rounded` held to the signed 16-bit range, in order.
pub open spec fn quantized(rounded: Seq<i64>) -> Seq<i16> {
    Seq::new(rounded.len(), |i: int| clamped(rounded[i] as int) as i16)
}

/// Holds a scaled and rounded sample to the signed 16-bit range.
pub fn quantize(rounded: i64) -> (sample: i16)
    ensures
        sample == clamped(rounded as int),
        -32768 <= rounded <= 32767 ==> sample == rounded,
{
    if rounded < -32768 {
        -32768
    } else if rounded > 32767 {
        32767
    } else {
        rounded as i16
    }
}

/// Quantises a block, sample by sample, in order.
pub fn quantize_block(rounded: &[i64]) -> (samples: Vec<i16>)
    ensures
        samples@ == quantized(rounded@),
{
    let n: usize = rounded.len();
    let mut samples: Vec<i16> = Vec::with_capacity(n);
    let mut i: usize = 0;
    while i < n
        invariant
            n == rounded@.len(),
            i <= n,
            samples@.len() == i,
            forall|k: int| 0 <= k < i ==> samples@[k] == quantized(rounded@)[k],
        decreases n - i,
    {
        samples.push(quantize(rounded[i]));
        i += 1;
    }
    assert(samples@ =~= quantized(rounded@));
    samples
}

} // verus!
