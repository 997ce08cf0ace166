//! Linear-interpolation resampling from the capture rate to the target rate,
//! block by block.
//!
//! The output of a block of `L` samples has `L * 16000 / 48000` samples. Output
//! sample `n` sits at the fractional source position `n * L / out_len`; it is
//! the blend of the source sample just below that position and the one just
//! above it, weighted by the fractional part. This module computes, exactly
//! and in integers, which two samples those are and the weight as a fraction.
//! The phase starts again at zero with every block.

use vstd::prelude::*;

verus! {

/// Sample rate of the captured stream, in Hz.
pub const SOURCE_RATE: usize = 48000;

/// Sample rate of the emitted stream, in Hz.
pub const TARGET_RATE: usize = 16000;

/// Length of the resampled block for a source block of `len` samples.
pub open spec fn resampled_len_of(len: nat) -> nat {
    len * (TARGET_RATE as nat) / (SOURCE_RATE as nat)
}

/// Index of the source sample just below the position of output sample `n`.
pub open spec fn lower_of(n: nat, source_len: nat, out_len: nat) -> nat {
    n * source_len / out_len
}

/// Index of the source sample just above, held to the last one of the block.
pub open spec fn upper_of(n: nat, source_len: nat, out_len: nat) -> nat {
    if lower_of(n, source_len, out_len) + 1 < source_len {
        lower_of(n, source_len, out_len) + 1
    } else {
        (source_len - 1) as nat
    }
}

/// Numerator of the fractional part of the position, over `out_len`.
pub open spec fn numer_of(n: nat, source_len: nat, out_len: nat) -> nat {
    n * source_len % out_len
}

/// Where one output sample comes from: the blend
/// `source[lower] * (1 - numer/denom) + source[upper] * (numer/denom)`.
#[derive(Clone, Copy, Debug, PartialEq, Eq)]
pub struct Tap {
    pub lower: usize,
    pub upper: usize,
    pub numer: usize,
    pub denom: usize,
}

impl Tap {
    /// Whether this is the tap of output sample `n` for the given lengths.
    pub open spec fn is_tap_of(self, n: nat, source_len: nat, out_len: nat) -> bool {
        &&& self.lower == lower_of(n, source_len, out_len)
        &&& self.upper == upper_of(n, source_len, out_len)
        &&& self.numer == numer_of(n, source_len, out_len)
        &&& self.denom == out_len
    }

    /// Whether both indices lie inside a block of `source_len` samples and the
    /// weight is a proper fraction.
    pub open spec fn in_bounds(self, source_len: nat) -> bool {
        &&& self.lower <= self.upper < source_len
        &&& self.numer < self.denom
    }
}

/// The output length is a third of the input length, rounded down.
pub proof fn lemma_resampled_len_is_third(len: nat)
    ensures
        resampled_len_of(len) == len / 3,
        resampled_len_of(len) <= len,
{
    assert(len * 16000 / 48000 == len / 3) by (nonlinear_arith);
}

/// The position of an output sample lies inside the source block.
pub proof fn lemma_position_in_block(n: nat, source_len: nat, out_len: nat)
    requires
        n < out_len,
        source_len >= 1,
    ensures
        lower_of(n, source_len, out_len) < source_len,
        lower_of(n, source_len, out_len) <= upper_of(n, source_len, out_len) < source_len,
        numer_of(n, source_len, out_len) < out_len,
        n * source_len == lower_of(n, source_len, out_len) * out_len + numer_of(
            n,
            source_len,
            out_len,
        ),
{
    let p = n * source_len;
    let q = p / out_len;
    let r = p % out_len;
    assert(p == q * out_len + r && 0 <= r < out_len) by (nonlinear_arith)
        requires
            out_len > 0,
            q == p / out_len,
            r == p % out_len,
    ;
    assert(q < source_len) by (nonlinear_arith)
        requires
            p == n * source_len,
            p == q * out_len + r,
            0 <= r,
            n < out_len,
            source_len >= 1,
    ;
}

/// Every block starts at phase zero: its first output sample is its first
/// source sample, with no weight on the neighbour.
pub proof fn lemma_phase_restarts(source_len: nat, out_len: nat)
    requires
        out_len >= 1,
    ensures
        lower_of(0, source_len, out_len) == 0,
        numer_of(0, source_len, out_len) == 0,
{
    assert(0 * source_len == 0) by (nonlinear_arith);
}

/// Later output samples never read earlier source samples.
pub proof fn lemma_taps_in_order(n: nat, m: nat, source_len: nat, out_len: nat)
    requires
        n <= m,
        out_len >= 1,
    ensures
        lower_of(n, source_len, out_len) <= lower_of(m, source_len, out_len),
{
    assert(n * source_len <= m * source_len) by (nonlinear_arith)
        requires
            n <= m,
    ;
    assert(n * source_len / out_len <= m * source_len / out_len) by (nonlinear_arith)
        requires
            n * source_len <= m * source_len,
            out_len >= 1,
    ;
}

/// A block whose length is a multiple of three is decimated: output sample
/// `n` is source sample `3n`, unblended.
pub proof fn lemma_whole_ratio_decimates(n: nat, source_len: nat)
    requires
        source_len % 3 == 0,
        n < resampled_len_of(source_len),
    ensures
        lower_of(n, source_len, resampled_len_of(source_len)) == 3 * n,
        numer_of(n, source_len, resampled_len_of(source_len)) == 0,
{
    lemma_resampled_len_is_third(source_len);
    let out_len = resampled_len_of(source_len);
    assert(source_len == 3 * out_len);
    assert(n * source_len == (3 * n) * out_len) by (nonlinear_arith)
        requires
            source_len == 3 * out_len,
    ;
    assert(((3 * n) * out_len) / out_len == 3 * n && ((3 * n) * out_len) % out_len == 0)
        by (nonlinear_arith)
        requires
            out_len > 0,
    ;
}

/// Length of the resampled block for a source block of `len` samples:
/// `len * 16000 / 48000`, rounded down.
pub fn resampled_len(len: usize) -> (out_len: usize)
    ensures
        out_len == resampled_len_of(len as nat),
        out_len <= len,
{
    proof {
        lemma_resampled_len_is_third(len as nat);
    }
    let scaled: u128 = (len as u128) * (TARGET_RATE as u128);
    (scaled / (SOURCE_RATE as u128)) as usize
}

/// The tap of output sample `n` when a block of `source_len` samples is
/// resampled to `out_len` samples.
pub fn tap(n: usize, source_len: usize, out_len: usize) -> (t: Tap)
    requires
        n < out_len,
        source_len >= 1,
    ensures
        t.is_tap_of(n as nat, source_len as nat, out_len as nat),
        t.in_bounds(source_len as nat),
{
    proof {
        lemma_position_in_block(n as nat, source_len as nat, out_len as nat);
        assert((n as nat) * (source_len as nat) <= 0xffff_ffff_ffff_ffff * 0xffff_ffff_ffff_ffff)
            by (nonlinear_arith)
            requires
                n <= 0xffff_ffff_ffff_ffff,
                source_len <= 0xffff_ffff_ffff_ffff,
        ;
    }
    let position: u128 = (n as u128) * (source_len as u128);
    let lower: usize = (position / (out_len as u128)) as usize;
    let numer: usize = (position % (out_len as u128)) as usize;
    let upper: usize = if lower + 1 < source_len {
        lower + 1
    } else {
        source_len - 1
    };
    Tap { lower, upper, numer, denom: out_len }
}

/// The taps of a whole block of `source_len` samples, one per output sample,
/// in output order.
pub fn resample_plan(source_len: usize) -> (plan: Vec<Tap>)
    ensures
        plan@.len() == resampled_len_of(source_len as nat),
        forall|n: int|
            0 <= n < plan@.len() ==> (#[trigger] plan@[n]).is_tap_of(
                n as nat,
                source_len as nat,
                plan@.len(),
            ),
        forall|n: int| 0 <= n < plan@.len() ==> (#[trigger] plan@[n]).in_bounds(source_len as nat),
{
    let out_len: usize = resampled_len(source_len);
    let mut plan: Vec<Tap> = Vec::with_capacity(out_len);
    let mut n: usize = 0;
    while n < out_len
        invariant
            out_len == resampled_len_of(source_len as nat),
            out_len <= source_len,
            n <= out_len,
            plan@.len() == n,
            forall|k: int|
                0 <= k < n ==> (#[trigger] plan@[k]).is_tap_of(
                    k as nat,
                    source_len as nat,
                    out_len as nat,
                ),
            forall|k: int| 0 <= k < n ==> (#[trigger] plan@[k]).in_bounds(source_len as nat),
        decreases out_len - n,
    {
        plan.push(tap(n, source_len, out_len));
        n += 1;
    }
    plan
}

} // verus!
