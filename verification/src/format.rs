//! The negotiated capture format and the sizing of raw device buffers.

use vstd::prelude::*;

verus! {

/// How one sample is stored.
#[derive(Clone, Copy, Debug, PartialEq, Eq, Structural)]
pub enum SampleKind {
    Float,
    Int,
}

/// Target latency of the capture buffer, in units of 100 ns (20 ms).
pub const BUFFER_DURATION_HNS: i64 = 200_000;

/// The layout of the captured stream. Fixed when the stream is opened.
#[derive(Clone, Copy, Debug, PartialEq, Eq, Structural)]
pub struct AudioFormat {
    pub sample_rate: u32,
    pub channels: u16,
    pub bits_per_sample: u16,
    pub kind: SampleKind,
}

impl AudioFormat {
    /// Bytes taken by one frame: one sample of every channel.
    pub open spec fn stride(self) -> nat {
        (self.channels as nat) * (self.bits_per_sample as nat) / 8
    }

    /// The format asked of the device: 32-bit float, 48 kHz, two channels.
    pub fn loopback() -> (format: AudioFormat)
        ensures
            format == (AudioFormat {
                sample_rate: 48000,
                channels: 2,
                bits_per_sample: 32,
                kind: SampleKind::Float,
            }),
            format.stride() == 8,
    {
        AudioFormat { sample_rate: 48000, channels: 2, bits_per_sample: 32, kind: SampleKind::Float }
    }

    /// Bytes taken by one frame.
    pub fn block_align(&self) -> (bytes: u32)
        ensures
            bytes == self.stride(),
    {
        assert((self.channels as nat) * (self.bits_per_sample as nat) <= 65535 * 65535)
            by (nonlinear_arith)
            requires
                self.channels <= 65535,
                self.bits_per_sample <= 65535,
        ;
        (self.channels as u32) * (self.bits_per_sample as u32) / 8
    }

    /// Length of the raw buffer that holds `frames` frames: a whole number of
    /// strides.
    pub fn buffer_len(&self, frames: u32) -> (len: usize)
        requires
            frames * self.stride() <= usize::MAX,
        ensures
            len == frames * self.stride(),
    {
        let stride: usize = self.block_align() as usize;
        assert(0 <= frames * stride) by (nonlinear_arith);
        (frames as usize) * stride
    }

    /// Number of frames in a raw buffer of `len` bytes, when `len` is a whole
    /// number of strides and the stride is not zero.
    pub fn frame_count(&self, len: usize) -> (frames: Option<usize>)
        ensures
            frames.is_some() <==> self.stride() > 0 && len as nat % self.stride() == 0,
            frames.is_some() ==> frames.unwrap() * self.stride() == len,
    {
        let stride: usize = self.block_align() as usize;
        if stride == 0 || len % stride != 0 {
            return None;
        }
        let frames: usize = len / stride;
        assert(frames * stride == len) by (nonlinear_arith)
            requires
                stride > 0,
                len % stride == 0,
                frames == len / stride,
        ;
        Some(frames)
    }
}

/// What the reader does with the device's answer to "how many frames are
/// waiting": with none, or no answer, it polls again (`None`); otherwise it
/// reads exactly that many frames.
pub fn frames_to_read(available: Option<u32>) -> (frames: Option<u32>)
    ensures
        frames == match available {
            Some(n) if n > 0 => Some(n),
            _ => None::<u32>,
        },
{
    match available {
        Some(n) => if n > 0 {
            Some(n)
        } else {
            None
        },
        None => None,
    }
}

} // verus!
