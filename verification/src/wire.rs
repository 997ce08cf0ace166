//! Wire encoding of samples: two bytes each, least significant first.

use vstd::prelude::*;

verus! {

/// The sample read as an unsigned 16-bit pattern (two's complement).
pub open spec fn bit_pattern(sample: i16) -> int {
    if sample >= 0 {
        sample as int
    } else {
        sample as int + 65536
    }
}

/// Least significant byte of the sample's pattern.
pub open spec fn low_byte(sample: i16) -> u8 {
    (bit_pattern(sample) % 256) as u8
}

/// Most significant byte of the sample's pattern.
pub open spec fn high_byte(sample: i16) -> u8 {
    (bit_pattern(sample) / 256) as u8
}

/// The samples laid out little-endian: sample `i` occupies bytes `2i` (low)
/// and `2i + 1` (high).
pub open spec fn le_bytes(samples: Seq<i16>) -> Seq<u8> {
    Seq::new(
        2 * samples.len(),
        |j: int|
            if j % 2 == 0 {
                low_byte(samples[j / 2])
            } else {
                high_byte(samples[j / 2])
            },
    )
}

/// The samples laid out big-endian: sample `i` occupies bytes `2i` (high)
/// and `2i + 1` (low).
pub open spec fn be_bytes(samples: Seq<i16>) -> Seq<u8> {
    Seq::new(
        2 * samples.len(),
        |j: int|
            if j % 2 == 0 {
                high_byte(samples[j / 2])
            } else {
                low_byte(samples[j / 2])
            },
    )
}

/// Copies the memory of `samples` out as bytes with `bytemuck::cast_slice`.
///
/// Not proved: that the cast keeps the slice's memory as it is, so that the
/// result has two bytes per sample, in the order of the samples, each sample
/// in the byte order of the machine, which is one of the two layouts. The
/// cast from a 2-byte element to a 1-byte element has no failing case.
#[verifier::external_body]
fn native_bytes(samples: &[i16]) -> (bytes: Vec<u8>)
    ensures
        bytes@ == le_bytes(samples@) || bytes@ == be_bytes(samples@),
{
    bytemuck::cast_slice::<i16, u8>(samples).to_vec()
}

/// The two bytes of one sample, low then high.
pub fn sample_bytes(sample: i16) -> (pair: (u8, u8))
    ensures
        pair.0 == low_byte(sample),
        pair.1 == high_byte(sample),
{
    let wide: i32 = sample as i32;
    let pattern: i32 = if wide < 0 {
        wide + 65536
    } else {
        wide
    };
    ((pattern % 256) as u8, (pattern / 256) as u8)
}

/// Whether `bytes` is the little-endian layout of `samples`.
pub fn is_le_layout(samples: &[i16], bytes: &[u8]) -> (yes: bool)
    ensures
        yes <==> bytes@ == le_bytes(samples@),
{
    let n: usize = samples.len();
    if bytes.len() / 2 != n || bytes.len() % 2 != 0 {
        return false;
    }
    let mut i: usize = 0;
    while i < n
        invariant
            n == samples@.len(),
            bytes@.len() == 2 * n,
            2 * n <= usize::MAX,
            i <= n,
            forall|j: int| 0 <= j < 2 * i ==> bytes@[j] == le_bytes(samples@)[j],
        decreases n - i,
    {
        let (low, high) = sample_bytes(samples[i]);
        if bytes[2 * i] != low || bytes[2 * i + 1] != high {
            assert(le_bytes(samples@)[2 * i] == low);
            assert(le_bytes(samples@)[2 * i + 1] == high);
            return false;
        }
        assert forall|j: int| 0 <= j < 2 * (i + 1) implies bytes@[j] == le_bytes(samples@)[j] by {
            if j == 2 * i {
                assert(le_bytes(samples@)[2 * i] == low);
            } else if j == 2 * i + 1 {
                assert(le_bytes(samples@)[2 * i + 1] == high);
            }
        }
        i += 1;
    }
    assert(bytes@ =~= le_bytes(samples@));
    true
}

/// `bytes` with the two bytes of every pair exchanged.
pub open spec fn pairs_swapped(bytes: Seq<u8>) -> Seq<u8> {
    Seq::new(
        bytes.len(),
        |j: int|
            if j % 2 == 0 {
                bytes[j + 1]
            } else {
                bytes[j - 1]
            },
    )
}

/// Exchanges the two bytes of every pair.
pub fn swap_pairs(bytes: &[u8]) -> (out: Vec<u8>)
    requires
        bytes@.len() % 2 == 0,
    ensures
        out@ == pairs_swapped(bytes@),
{
    let n: usize = bytes.len() / 2;
    let mut out: Vec<u8> = Vec::with_capacity(bytes.len());
    let mut i: usize = 0;
    while i < n
        invariant
            bytes@.len() == 2 * n,
            2 * n <= usize::MAX,
            i <= n,
            out@.len() == 2 * i,
            forall|j: int| 0 <= j < 2 * i ==> out@[j] == pairs_swapped(bytes@)[j],
        decreases n - i,
    {
        out.push(bytes[2 * i + 1]);
        out.push(bytes[2 * i]);
        i += 1;
    }
    assert(out@ =~= pairs_swapped(bytes@));
    out
}

/// Encodes `samples` for the wire: two bytes per sample, little-endian, in
/// order, whatever the byte order of the machine.
pub fn encode(samples: &[i16]) -> (bytes: Vec<u8>)
    ensures
        bytes@ == le_bytes(samples@),
        bytes@.len() == 2 * samples@.len(),
{
    let native = native_bytes(samples);
    if is_le_layout(samples, native.as_slice()) {
        native
    } else {
        let swapped = swap_pairs(native.as_slice());
        assert(swapped@ =~= le_bytes(samples@));
        swapped
    }
}

} // verus!
