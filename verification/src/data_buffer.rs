//! The buffer of the most recent samples, oldest first.

use std::collections::vec_deque::Iter;
use std::collections::VecDeque;
use vstd::std_specs::iter::IteratorSpec;
use vstd::prelude::*;

verus! {

/// The last `n` elements of `s`, in order.
pub open spec fn latest(s: Seq<i16>, n: int) -> Seq<i16>
    recommends
        0 <= n <= s.len(),
{
    s.subrange(s.len() - n, s.len() as int)
}

/// The silent buffer of `n` samples.
pub open spec fn silence(n: nat) -> Seq<i16> {
    Seq::new(n, |i: int| 0i16)
}

/// Why a buffer could not be made.
#[derive(Debug, PartialEq, Eq, Clone, Copy)]
pub enum BufferError {
    /// A buffer must hold at least one sample.
    InvalidCapacity,
}

/// A buffer to hold audio data meant for display on the terminal.
///
/// Its length is fixed when it is made. Its view is the sequence of samples
/// it holds, from the oldest to the newest.
#[derive(Debug, PartialEq)]
pub struct DataBuffer {
    buffer: VecDeque<i16>,
}

impl View for DataBuffer {
    type V = Seq<i16>;

    closed spec fn view(&self) -> Seq<i16> {
        self.buffer@
    }
}

impl DataBuffer {
    /// Makes a zero-filled circular data buffer of the given size, which must
    /// not be zero.
    pub fn new(len: usize) -> (made: Result<DataBuffer, BufferError>)
        ensures
            len == 0 ==> made == Err::<DataBuffer, BufferError>(BufferError::InvalidCapacity),
            len > 0 ==> made is Ok && made->Ok_0@ == silence(len as nat),
            len > 0 ==> made->Ok_0@.len() == len && forall|i: int|
                0 <= i < len ==> made->Ok_0@[i] == 0,
    {
        if len == 0 {
            Err(BufferError::InvalidCapacity)
        } else {
            Ok(DataBuffer::silent(len))
        }
    }

    /// Makes a zero-filled buffer of the given size.
    pub(crate) fn silent(len: usize) -> (made: DataBuffer)
        ensures
            made@ == silence(len as nat),
    {
        let mut buffer: VecDeque<i16> = VecDeque::new();
        let mut filled: usize = 0;
        while filled < len
            invariant
                filled <= len,
                buffer@ == silence(filled as nat),
            decreases len - filled,
        {
            buffer.push_back(0i16);
            filled += 1;
            assert(buffer@ =~= silence(filled as nat));
        }
        DataBuffer { buffer }
    }

    /// Adds the data to the queue.
    ///
    /// The buffer afterwards holds the newest samples of the old contents
    /// followed by `buf_data`, as many as it held before. A chunk shorter than
    /// the buffer shifts the contents left by its length and takes the tail; a
    /// chunk at least as long as the buffer replaces the contents with its own
    /// tail; an empty chunk changes nothing. The work done is proportional to
    /// the shorter of the chunk and the buffer.
    pub fn push_latest_data(&mut self, buf_data: &[i16])
        ensures
            final(self)@ == latest(old(self)@ + buf_data@, old(self)@.len() as int),
            final(self)@.len() == old(self)@.len(),
            buf_data@.len() < old(self)@.len() ==> final(self)@ == old(self)@.subrange(
                buf_data@.len() as int,
                old(self)@.len() as int,
            ) + buf_data@,
            buf_data@.len() >= old(self)@.len() ==> final(self)@ == latest(
                buf_data@,
                old(self)@.len() as int,
            ),
            buf_data@.len() == 0 ==> final(self)@ == old(self)@,
    {
        let held: usize = self.buffer.len();
        let given: usize = buf_data.len();
        let start: usize = if given < held {
            0
        } else {
            given - held
        };
        let ghost before = self.buffer@;
        let mut next: usize = start;
        assert(self.buffer@ =~= latest(before + buf_data@.subrange(start as int, next as int), held as int));
        while next < given
            invariant
                start <= next <= given,
                given == buf_data@.len(),
                held == before.len(),
                given - start <= held,
                self.buffer@ == latest(
                    before + buf_data@.subrange(start as int, next as int),
                    held as int,
                ),
            decreases given - next,
        {
            self.buffer.pop_front();
            self.buffer.push_back(buf_data[next]);
            next += 1;
            assert(self.buffer@ =~= latest(
                before + buf_data@.subrange(start as int, next as int),
                held as int,
            ));
        }
        proof {
            let kept = before + buf_data@.subrange(start as int, given as int);
            assert(latest(kept, held as int) =~= latest(before + buf_data@, held as int));
            lemma_push_cases(before, buf_data@);
        }
    }

    /// Returns the length of the buffer
    pub fn len(&self) -> (n: usize)
        ensures
            n == self@.len(),
    {
        self.buffer.len()
    }

    /// Returns an iterator over the samples, from the oldest to the newest.
    pub fn iter(&self) -> (samples: Iter<'_, i16>)
        ensures
            IteratorSpec::remaining(&samples) == self@.as_ref(),
            IteratorSpec::decrease(&samples) is Some,
            IteratorSpec::initial_value_relation(&samples, &samples),
    {
        broadcast use vstd::std_specs::vecdeque::axiom_spec_iter;

        self.buffer.iter()
    }

    /// Returns the sample at `index`, counted from the oldest.
    pub fn get(&self, index: usize) -> (sample: i16)
        requires
            index < self@.len(),
        ensures
            sample == self@[index as int],
    {
        self.buffer[index]
    }

    /// Creates a new Vec by copying all the elements in the current buffer,
    /// oldest first.
    pub fn clone_vec(&self) -> (samples: Vec<i16>)
        ensures
            samples@ == self@,
    {
        let held: usize = self.buffer.len();
        let mut samples: Vec<i16> = Vec::new();
        let mut at: usize = 0;
        while at < held
            invariant
                at <= held,
                held == self.buffer@.len(),
                samples@ == self.buffer@.subrange(0, at as int),
            decreases held - at,
        {
            samples.push(self.buffer[at]);
            at += 1;
            assert(samples@ =~= self.buffer@.subrange(0, at as int));
        }
        assert(samples@ =~= self.buffer@);
        samples
    }
}

/// What a push does, case by case: a chunk shorter than the buffer shifts the
/// contents left by its length and stands at the tail; a chunk at least as
/// long as the buffer leaves only its own tail; an empty chunk leaves the
/// buffer as it was.
pub proof fn lemma_push_cases(before: Seq<i16>, data: Seq<i16>)
    ensures
        latest(before + data, before.len() as int).len() == before.len(),
        data.len() < before.len() ==> latest(before + data, before.len() as int)
            == before.subrange(data.len() as int, before.len() as int) + data,
        data.len() >= before.len() ==> latest(before + data, before.len() as int) == latest(
            data,
            before.len() as int,
        ),
        data.len() == 0 ==> latest(before + data, before.len() as int) == before,
{
    let after = latest(before + data, before.len() as int);
    if data.len() < before.len() {
        assert(after =~= before.subrange(data.len() as int, before.len() as int) + data);
    } else {
        assert(after =~= latest(data, before.len() as int));
    }
    if data.len() == 0 {
        assert(after =~= before);
    }
}

/// Two pushes in a row leave what one push of the two chunks joined would
/// leave.
pub proof fn lemma_pushes_compose(before: Seq<i16>, first: Seq<i16>, second: Seq<i16>)
    ensures
        latest(latest(before + first, before.len() as int) + second, before.len() as int)
            == latest(before + (first + second), before.len() as int),
{
    let held = before.len() as int;
    let stepwise = latest(latest(before + first, held) + second, held);
    let at_once = latest(before + (first + second), held);
    assert(stepwise =~= at_once);
}

/// A chunk at least as long as the buffer leaves the same contents whatever
/// the buffer held before.
pub proof fn lemma_long_push_forgets(one: Seq<i16>, other: Seq<i16>, data: Seq<i16>)
    requires
        one.len() == other.len(),
        data.len() >= one.len(),
    ensures
        latest(one + data, one.len() as int) == latest(other + data, other.len() as int),
{
    lemma_push_cases(one, data);
    lemma_push_cases(other, data);
}

} // verus!
