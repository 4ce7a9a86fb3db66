//! The capture side: how delivered samples become the buffer's samples, and
//! when a pending chunk is handed over.

use crate::data_buffer::latest;
use crate::data_buffer::DataBuffer;
use vstd::prelude::*;

verus! {

/// The number of pending samples from which a chunk is handed to the buffer:
/// a five-hundredth of a second at 44.1 kHz.
pub const CAPTURE_CHUNK: usize = 44100 / 500;

/// The amplitude that an unsigned 16-bit sample stands for.
pub open spec fn amplitude_of_u16(raw: u16) -> int {
    if raw == u16::MAX {
        i16::MAX as int
    } else {
        raw - i16::MAX
    }
}

/// Converts an unsigned 16-bit sample, whose silence is at 32767, to a signed
/// amplitude. The one value that would exceed full scale is held at full
/// scale.
pub fn sample_from_u16(raw: u16) -> (sample: i16)
    ensures
        sample == amplitude_of_u16(raw),
{
    if raw == u16::MAX {
        i16::MAX
    } else {
        (raw as i32 - i16::MAX as i32) as i16
    }
}

/// Hands the pending samples to the buffer as its newest and empties them,
/// if there are at least `threshold` of them; otherwise changes nothing.
/// Says whether it did.
pub fn flush_pending(pending: &mut Vec<i16>, shared: &mut DataBuffer, threshold: usize) -> (flushed:
    bool)
    ensures
        flushed == (old(pending)@.len() >= threshold),
        flushed ==> final(pending)@.len() == 0 && final(shared)@ == latest(
            old(shared)@ + old(pending)@,
            old(shared)@.len() as int,
        ),
        !flushed ==> final(pending)@ == old(pending)@ && final(shared)@ == old(shared)@,
{
    if pending.len() >= threshold {
        shared.push_latest_data(pending.as_slice());
        pending.clear();
        true
    } else {
        false
    }
}

} // verus!
