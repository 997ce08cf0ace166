//! The unit of transmission: one second of mono 16 kHz 16-bit PCM.

use vstd::prelude::*;
use crate::wire::{encode, le_bytes};

verus! {

/// Samples in one chunk: one second at the target rate.
pub const CHUNK_SAMPLES: usize = 16000;

/// Bytes in one encoded chunk.
pub const CHUNK_BYTES: usize = 32000;

/// Exactly [`CHUNK_SAMPLES`] signed 16-bit samples, in capture order.
#[derive(Debug)]
pub struct PcmChunk {
    samples: Vec<i16>,
}

impl View for PcmChunk {
    type V = Seq<i16>;

    closed spec fn view(&self) -> Seq<i16> {
        self.samples@
    }
}

impl PcmChunk {
    #[verifier::type_invariant]
    spec fn full(self) -> bool {
        self.samples@.len() == CHUNK_SAMPLES
    }

    /// Wraps `samples` as a chunk when there are exactly [`CHUNK_SAMPLES`] of
    /// them; anything shorter or longer is not a chunk.
    pub fn from_samples(samples: Vec<i16>) -> (chunk: Option<PcmChunk>)
        ensures
            chunk.is_some() <==> samples@.len() == CHUNK_SAMPLES,
            chunk.is_some() ==> chunk.unwrap()@ == samples@,
    {
        if samples.len() == CHUNK_SAMPLES {
            Some(PcmChunk { samples })
        } else {
            None
        }
    }

    /// The samples, in order.
    pub fn samples(&self) -> (s: &[i16])
        ensures
            s@ == self@,
            s@.len() == CHUNK_SAMPLES,
    {
        proof {
            use_type_invariant(self);
        }
        self.samples.as_slice()
    }

    /// The chunk as one binary message: [`CHUNK_BYTES`] bytes, each sample
    /// little-endian, in order.
    pub fn to_bytes(&self) -> (bytes: Vec<u8>)
        ensures
            bytes@ == le_bytes(self@),
            bytes@.len() == CHUNK_BYTES,
    {
        proof {
            use_type_invariant(self);
        }
        encode(self.samples.as_slice())
    }

    /// Gives the samples back as a vector.
    pub fn into_samples(self) -> (s: Vec<i16>)
        ensures
            s@ == self@,
            s@.len() == CHUNK_SAMPLES,
    {
        proof {
            use_type_invariant(&self);
        }
        self.samples
    }
}

} // verus!
