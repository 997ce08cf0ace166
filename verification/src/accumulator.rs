//! The rolling buffer of quantised samples that waits to be cut into chunks.

use vstd::prelude::*;
use crate::chunk::{PcmChunk, CHUNK_SAMPLES};
use crate::quantize::{quantize_block, quantized};

verus! {

/// Quantised samples awaiting emission, oldest first.
#[derive(Debug)]
pub struct Accumulator {
    samples: Vec<i16>,
}

impl View for Accumulator {
    type V = Seq<i16>;

    closed spec fn view(&self) -> Seq<i16> {
        self.samples@
    }
}

/// How many whole chunks a buffer of `len` samples holds.
pub open spec fn whole_chunks(len: nat) -> nat {
    len / (CHUNK_SAMPLES as nat)
}

/// The `k`-th run of [`CHUNK_SAMPLES`] samples of `s`.
pub open spec fn chunk_at(s: Seq<i16>, k: int) -> Seq<i16> {
    s.subrange(k * CHUNK_SAMPLES, (k + 1) * CHUNK_SAMPLES)
}

/// What is left of `s` once every whole chunk has been cut off its front.
pub open spec fn remainder(s: Seq<i16>) -> Seq<i16> {
    s.skip(whole_chunks(s.len()) * CHUNK_SAMPLES)
}

/// The remainder is shorter than one chunk.
pub proof fn lemma_remainder_is_short(s: Seq<i16>)
    ensures
        remainder(s).len() < CHUNK_SAMPLES,
        remainder(s).len() == s.len() % (CHUNK_SAMPLES as nat),
{
    let n = s.len() as int;
    assert(0 <= (n / 16000) * 16000 <= n && n - (n / 16000) * 16000 == n % 16000 && n % 16000
        < 16000) by (nonlinear_arith)
        requires
            n >= 0,
    ;
}

/// Cutting chunks block by block gives the chunks of the whole stream: when
/// the chunks of `a` are cut first and `b` is appended to what is left, the
/// chunks cut next are those that follow in `a + b`, and what is left then is
/// what is left of `a + b`. Where the stream is split into blocks does not
/// show in the chunks.
pub proof fn lemma_chunking_ignores_block_boundaries(a: Seq<i16>, b: Seq<i16>)
    ensures
        whole_chunks((a + b).len()) == whole_chunks(a.len()) + whole_chunks(
            (remainder(a) + b).len(),
        ),
        forall|k: int|
            0 <= k < whole_chunks((remainder(a) + b).len()) ==> #[trigger] chunk_at(
                remainder(a) + b,
                k,
            ) == chunk_at(a + b, whole_chunks(a.len()) + k),
        remainder(remainder(a) + b) == remainder(a + b),
{
    lemma_remainder_is_short(a);
    let n = a.len() as int;
    let m = b.len() as int;
    let qa = n / 16000;
    let ra = n % 16000;
    let q = (ra + m) / 16000;
    assert(n == qa * 16000 + ra && 0 <= ra < 16000 && qa >= 0) by (nonlinear_arith)
        requires
            n >= 0,
            qa == n / 16000,
            ra == n % 16000,
    ;
    assert((n + m) / 16000 == qa + q && q >= 0 && q * 16000 <= ra + m) by (nonlinear_arith)
        requires
            n == qa * 16000 + ra,
            0 <= ra,
            m >= 0,
            q == (ra + m) / 16000,
    ;
    let front = remainder(a) + b;
    assert(front.len() == ra + m);
    assert(front =~= (a + b).skip(qa * 16000));
    assert forall|k: int| 0 <= k < q implies #[trigger] chunk_at(front, k) == chunk_at(
        a + b,
        qa + k,
    ) by {
        assert((k + 1) * 16000 <= q * 16000 && 0 <= k * 16000 && (qa + k) * 16000 == qa * 16000
            + k * 16000 && (qa + k + 1) * 16000 == qa * 16000 + (k + 1) * 16000)
            by (nonlinear_arith)
            requires
                0 <= k < q,
        ;
        assert(chunk_at(front, k) =~= chunk_at(a + b, qa + k));
    }
    assert((qa + q) * 16000 == qa * 16000 + q * 16000) by (nonlinear_arith);
    assert(remainder(front) =~= remainder(a + b));
}

impl Accumulator {
    /// An empty accumulator.
    pub fn new() -> (acc: Accumulator)
        ensures
            acc@ == Seq::<i16>::empty(),
    {
        Accumulator { samples: Vec::new() }
    }

    /// Number of samples waiting.
    pub fn len(&self) -> (n: usize)
        ensures
            n == self@.len(),
    {
        self.samples.len()
    }

    /// Whether at least one whole chunk is waiting.
    pub fn has_chunk(&self) -> (ready: bool)
        ensures
            ready <==> self@.len() >= CHUNK_SAMPLES,
    {
        self.samples.len() >= CHUNK_SAMPLES
    }

    /// Appends one sample behind those already waiting.
    pub fn push(&mut self, sample: i16)
        ensures
            final(self)@ == old(self)@.push(sample),
    {
        self.samples.push(sample);
    }

    /// Appends `samples`, in order, behind those already waiting.
    pub fn extend(&mut self, samples: &[i16])
        ensures
            final(self)@ == old(self)@ + samples@,
    {
        let n: usize = samples.len();
        let mut i: usize = 0;
        while i < n
            invariant
                n == samples@.len(),
                i <= n,
                self@ == old(self)@ + samples@.subrange(0, i as int),
            decreases n - i,
        {
            self.samples.push(samples[i]);
            i += 1;
        }
        assert(samples@.subrange(0, n as int) == samples@);
    }

    /// Removes the oldest [`CHUNK_SAMPLES`] samples as one chunk, if that many
    /// are waiting. With fewer, nothing is removed: a partial chunk never
    /// leaves the accumulator.
    pub fn take_chunk(&mut self) -> (chunk: Option<PcmChunk>)
        ensures
            chunk.is_some() <==> old(self)@.len() >= CHUNK_SAMPLES,
            chunk.is_some() ==> chunk.unwrap()@ == old(self)@.subrange(0, CHUNK_SAMPLES as int)
                && final(self)@ == old(self)@.skip(CHUNK_SAMPLES as int),
            chunk.is_none() ==> final(self)@ == old(self)@,
    {
        if self.samples.len() < CHUNK_SAMPLES {
            return None;
        }
        let mut head = self.samples.split_off(CHUNK_SAMPLES);
        core::mem::swap(&mut self.samples, &mut head);
        PcmChunk::from_samples(head)
    }

    /// Removes every whole chunk that is waiting, oldest first, and leaves
    /// the remainder, which is shorter than one chunk.
    pub fn drain_chunks(&mut self) -> (chunks: Vec<PcmChunk>)
        ensures
            chunks@.len() == whole_chunks(old(self)@.len()),
            forall|k: int|
                0 <= k < chunks@.len() ==> (#[trigger] chunks@[k])@ == chunk_at(old(self)@, k),
            forall|k: int| 0 <= k < chunks@.len() ==> (#[trigger] chunks@[k])@.len() == CHUNK_SAMPLES,
            final(self)@ == remainder(old(self)@),
            final(self)@.len() < CHUNK_SAMPLES,
    {
        let mut chunks: Vec<PcmChunk> = Vec::new();
        loop
            invariant
                chunks@.len() * CHUNK_SAMPLES <= old(self)@.len(),
                self@ == old(self)@.skip(chunks@.len() * CHUNK_SAMPLES),
                forall|k: int|
                    0 <= k < chunks@.len() ==> (#[trigger] chunks@[k])@ == chunk_at(old(self)@, k),
            ensures
                self@.len() < CHUNK_SAMPLES,
            decreases self@.len(),
        {
            let ghost done = chunks@.len() as int;
            match self.take_chunk() {
                Some(chunk) => {
                    assert(chunk@ == chunk_at(old(self)@, done));
                    assert(self@ == old(self)@.skip((done + 1) * CHUNK_SAMPLES));
                    chunks.push(chunk);
                },
                None => {
                    break;
                },
            }
        }
        proof {
            let total = old(self)@.len() as int;
            let count = chunks@.len() as int;
            assert(count * 16000 <= total < count * 16000 + 16000);
            assert(count == total / 16000) by (nonlinear_arith)
                requires
                    count * 16000 <= total < count * 16000 + 16000,
            ;
        }
        chunks
    }

    /// Takes in one block of scaled and rounded samples: quantises each,
    /// appends them in order, then removes every whole chunk, oldest first.
    /// What stays behind is shorter than one chunk.
    pub fn absorb(&mut self, rounded: &[i64]) -> (chunks: Vec<PcmChunk>)
        ensures
            chunks@.len() == whole_chunks((old(self)@ + quantized(rounded@)).len()),
            forall|k: int|
                0 <= k < chunks@.len() ==> (#[trigger] chunks@[k])@ == chunk_at(
                    old(self)@ + quantized(rounded@),
                    k,
                ),
            forall|k: int| 0 <= k < chunks@.len() ==> (#[trigger] chunks@[k])@.len() == CHUNK_SAMPLES,
            final(self)@ == remainder(old(self)@ + quantized(rounded@)),
            final(self)@.len() < CHUNK_SAMPLES,
    {
        let samples = quantize_block(rounded);
        self.extend(samples.as_slice());
        self.drain_chunks()
    }
}

} // verus!
