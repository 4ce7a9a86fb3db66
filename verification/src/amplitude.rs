//! A summary of a buffer's loudness.

use crate::data_buffer::DataBuffer;
use vstd::prelude::*;

verus! {

/// The magnitude of a sample.
pub open spec fn abs_sample(sample: i16) -> int {
    if sample < 0 {
        -(sample as int)
    } else {
        sample as int
    }
}

/// The sum of the magnitudes of `samples`.
pub open spec fn abs_sum(samples: Seq<i16>) -> int
    decreases samples.len(),
{
    if samples.len() == 0 {
        0
    } else {
        abs_sum(samples.drop_last()) + abs_sample(samples.last())
    }
}

/// The sum of magnitudes is never negative, and at most 32768 a sample.
pub proof fn lemma_abs_sum_bounds(samples: Seq<i16>)
    ensures
        0 <= abs_sum(samples) <= 0x8000 * samples.len(),
    decreases samples.len(),
{
    if samples.len() > 0 {
        lemma_abs_sum_bounds(samples.drop_last());
    }
}

/// A silent buffer has no amplitude.
pub proof fn lemma_abs_sum_of_silence(samples: Seq<i16>)
    requires
        forall|i: int| 0 <= i < samples.len() ==> samples[i] == 0,
    ensures
        abs_sum(samples) == 0,
    decreases samples.len(),
{
    if samples.len() > 0 {
        lemma_abs_sum_of_silence(samples.drop_last());
    }
}

/// The magnitude of a sample.
pub fn magnitude(sample: i16) -> (size: u16)
    ensures
        size == abs_sample(sample),
{
    if sample < 0 {
        (-(sample as i32)) as u16
    } else {
        sample as u16
    }
}

/// The sum of the magnitudes of the samples in the buffer.
pub fn abs_amplitude_sum(buffer: &DataBuffer) -> (sum: u128)
    ensures
        sum == abs_sum(buffer@),
{
    let held: usize = buffer.len();
    let mut sum: u128 = 0;
    let mut at: usize = 0;
    while at < held
        invariant
            at <= held,
            held == buffer@.len(),
            sum == abs_sum(buffer@.subrange(0, at as int)),
            sum <= 0x8000 * at,
        decreases held - at,
    {
        let size: u16 = magnitude(buffer.get(at));
        proof {
            let longer = buffer@.subrange(0, at + 1);
            assert(longer.drop_last() =~= buffer@.subrange(0, at as int));
            assert(longer.last() == buffer@[at as int]);
        }
        sum = sum + size as u128;
        at += 1;
    }
    assert(buffer@.subrange(0, held as int) =~= buffer@);
    sum
}

/// The mean magnitude of the samples in the buffer, rounded down to a whole
/// amplitude. The buffer must not be empty.
pub fn mean_abs_amplitude(buffer: &DataBuffer) -> (mean: u16)
    requires
        buffer@.len() > 0,
    ensures
        mean == abs_sum(buffer@) / (buffer@.len() as int),
{
    let sum: u128 = abs_amplitude_sum(buffer);
    let held: u128 = buffer.len() as u128;
    proof {
        lemma_abs_sum_bounds(buffer@);
        assert(sum as int / held as int <= 0x8000) by (nonlinear_arith)
            requires
                0 <= sum <= 0x8000 * held,
                held > 0,
        ;
    }
    (sum / held) as u16
}

} // verus!
