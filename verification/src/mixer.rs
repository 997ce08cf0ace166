//! Reduction of interleaved frames to one channel: which two samples of each
//! frame are averaged.
//!
//! A frame of `channels` samples contributes its first sample and the sample
//! at offset `min(channels, 2) - 1`. For two channels these are left and
//! right; a single channel is paired with itself.

use vstd::prelude::*;

verus! {

/// Offset, inside a frame, of the second sample of the pair.
pub open spec fn second_offset(channels: nat) -> nat {
    if channels >= 2 {
        1
    } else {
        (channels - 1) as nat
    }
}

/// Positions, in the interleaved sample buffer, of the two samples that make
/// one mono sample.
#[derive(Clone, Copy, Debug, PartialEq, Eq)]
pub struct ChannelPair {
    pub left: usize,
    pub right: usize,
}

impl ChannelPair {
    /// Whether this is the pair of frame number `frame`.
    pub open spec fn is_pair_of(self, frame: nat, channels: nat) -> bool {
        &&& self.left == frame * channels
        &&& self.right == frame * channels + second_offset(channels)
    }
}

/// The pair of frame number `frame` in a buffer of `channels` interleaved
/// channels.
pub fn channel_pair(frame: usize, channels: usize) -> (pair: ChannelPair)
    requires
        channels >= 1,
        (frame + 1) * channels <= usize::MAX,
    ensures
        pair.is_pair_of(frame as nat, channels as nat),
        pair.left <= pair.right < (frame + 1) * channels,
{
    assert(frame * channels + channels == (frame + 1) * channels) by (nonlinear_arith);
    assert(0 <= frame * channels) by (nonlinear_arith);
    let base: usize = frame * channels;
    let offset: usize = if channels >= 2 {
        1
    } else {
        channels - 1
    };
    ChannelPair { left: base, right: base + offset }
}

/// The pairs of a buffer of `frames` frames, one per frame, in frame order.
/// Every position lies inside the `frames * channels` samples of the buffer.
pub fn mix_plan(frames: usize, channels: usize) -> (plan: Vec<ChannelPair>)
    requires
        channels >= 1,
        frames * channels <= usize::MAX,
    ensures
        plan@.len() == frames,
        forall|i: int|
            0 <= i < plan@.len() ==> (#[trigger] plan@[i]).is_pair_of(i as nat, channels as nat),
        forall|i: int| 0 <= i < plan@.len() ==> (#[trigger] plan@[i]).right < frames * channels,
{
    let mut plan: Vec<ChannelPair> = Vec::with_capacity(frames);
    let mut i: usize = 0;
    while i < frames
        invariant
            channels >= 1,
            frames * channels <= usize::MAX,
            i <= frames,
            plan@.len() == i,
            forall|k: int|
                0 <= k < i ==> (#[trigger] plan@[k]).is_pair_of(k as nat, channels as nat),
            forall|k: int| 0 <= k < i ==> (#[trigger] plan@[k]).right < frames * channels,
        decreases frames - i,
    {
        assert((i + 1) * channels <= frames * channels) by (nonlinear_arith)
            requires
                i + 1 <= frames,
                channels >= 1,
        ;
        plan.push(channel_pair(i, channels));
        i += 1;
    }
    plan
}

} // verus!
