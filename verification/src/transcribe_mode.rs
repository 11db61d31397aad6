//! Continuous recording with speech-based segmentation: a ring buffer of
//! samples, a bounded queue of segments awaiting transcription, and the state
//! that cuts segments out of the ring buffer as speech starts and ends.

use vstd::prelude::*;
use std::collections::VecDeque;

verus! {

/// Ring buffer capacity: 30 seconds at 48kHz stereo.
pub const RING_BUFFER_CAPACITY: usize = 2880000;

/// Overflow threshold: 90% of buffer capacity.
pub const OVERFLOW_THRESHOLD_PERCENT: usize = 90;

/// Maximum number of segments waiting for transcription.
pub const MAX_QUEUE_SIZE: usize = 10;

/// Position `j` steps after `pos` in a ring of size `cap`.
pub open spec fn ring_index(pos: int, j: int, cap: int) -> int {
    (pos + j) % cap
}

proof fn lemma_wrap(x: int, m: int)
    requires
        m > 0,
        0 <= x < 2 * m,
    ensures
        x % m == if x < m { x } else { x - m },
{
    if x < m {
        vstd::arithmetic::div_mod::lemma_small_mod(x as nat, m as nat);
    } else {
        vstd::arithmetic::div_mod::lemma_small_mod((x - m) as nat, m as nat);
        vstd::arithmetic::div_mod::lemma_mod_sub_multiples_vanish(x, m);
    }
}

/// The buffer after writing `samples` one by one starting at `pos`,
/// wrapping to the start after the last slot.
pub open spec fn ring_write<T>(buf: Seq<T>, pos: int, samples: Seq<T>) -> Seq<T>
    decreases samples.len(),
{
    if samples.len() == 0 {
        buf
    } else {
        ring_write(buf.update(pos, samples[0]), (pos + 1) % (buf.len() as int), samples.drop_first())
    }
}

/// Number of samples from `start` up to `write_pos`, going round the ring.
pub open spec fn ring_distance(start: int, write_pos: int, cap: int) -> int {
    if write_pos >= start {
        write_pos - start
    } else {
        (cap - start) + write_pos
    }
}

/// Samples stored from `start` up to `write_pos`, going round the ring.
pub open spec fn ring_segment<T>(buf: Seq<T>, start: int, write_pos: int) -> Seq<T> {
    if write_pos >= start {
        buf.subrange(start, write_pos)
    } else {
        buf.subrange(start, buf.len() as int) + buf.subrange(0, write_pos)
    }
}

/// Index `lookback` samples before `write_pos` (clamped to `write_pos` when
/// the lookback covers the whole ring).
pub open spec fn ring_lookback_index(lookback: int, write_pos: int, cap: int) -> int {
    if lookback >= cap {
        write_pos
    } else if lookback <= write_pos {
        write_pos - lookback
    } else {
        cap - (lookback - write_pos)
    }
}

proof fn lemma_ring_write_len<T>(buf: Seq<T>, pos: int, samples: Seq<T>)
    requires
        0 <= pos < buf.len(),
    ensures
        ring_write(buf, pos, samples).len() == buf.len(),
    decreases samples.len(),
{
    if samples.len() > 0 {
        let cap = buf.len() as int;
        lemma_wrap(pos + 1, cap);
        lemma_ring_write_len(buf.update(pos, samples[0]), (pos + 1) % cap, samples.drop_first());
    }
}

/// Writing at most `cap` samples puts sample `j` at slot `pos + j` (mod `cap`)
/// and leaves every other slot as it was.
proof fn lemma_ring_write_slots<T>(buf: Seq<T>, pos: int, samples: Seq<T>)
    requires
        0 <= pos < buf.len(),
        samples.len() <= buf.len(),
    ensures
        ring_write(buf, pos, samples).len() == buf.len(),
        forall|j: int|
            0 <= j < samples.len() ==> ring_write(buf, pos, samples)[#[trigger] ring_index(
                pos,
                j,
                buf.len() as int,
            )] == samples[j],
        forall|p: int|
            0 <= p < buf.len() && (forall|j: int|
                0 <= j < samples.len() ==> #[trigger] ring_index(pos, j, buf.len() as int) != p)
                ==> ring_write(buf, pos, samples)[p] == buf[p],
    decreases samples.len(),
{
    let cap = buf.len() as int;
    lemma_ring_write_len(buf, pos, samples);
    if samples.len() > 0 {
        let b2 = buf.update(pos, samples[0]);
        let p2 = (pos + 1) % cap;
        let s2 = samples.drop_first();
        lemma_wrap(pos + 1, cap);
        lemma_ring_write_slots(b2, p2, s2);
        let r = ring_write(buf, pos, samples);
        assert(r == ring_write(b2, p2, s2));
        assert forall|j: int| 0 <= j < samples.len() implies r[#[trigger] ring_index(pos, j, cap)]
            == samples[j] by {
            lemma_wrap(pos + j, cap);
            if j == 0 {
                lemma_wrap(pos, cap);
                assert(ring_index(pos, 0, cap) == pos);
                assert forall|t: int| 0 <= t < s2.len() implies #[trigger] ring_index(p2, t, cap)
                    != pos by {
                    lemma_wrap(p2 + t, cap);
                }
                assert(r[pos] == b2[pos]);
            } else {
                lemma_wrap(p2 + (j - 1), cap);
                assert(ring_index(p2, j - 1, cap) == ring_index(pos, j, cap));
                assert(s2[j - 1] == samples[j]);
                assert(r[ring_index(p2, j - 1, cap)] == s2[j - 1]);
            }
        }
        assert forall|p: int|
            0 <= p < cap && (forall|j: int|
                0 <= j < samples.len() ==> #[trigger] ring_index(pos, j, cap) != p) implies r[p]
            == buf[p] by {
            assert forall|t: int| 0 <= t < s2.len() implies #[trigger] ring_index(p2, t, cap)
                != p by {
                lemma_wrap(p2 + t, cap);
                lemma_wrap(pos + (t + 1), cap);
                assert(ring_index(p2, t, cap) == ring_index(pos, t + 1, cap));
            }
            lemma_wrap(pos, cap);
            assert(ring_index(pos, 0, cap) == pos);
            assert(p != pos);
            assert(r[p] == b2[p]);
        }
    }
}

/// A ring buffer for continuous audio capture.
///
/// Writing never blocks; a segment is read back by copying the samples between
/// a start index and the current write position, across the wrap if needed.
pub struct SegmentRingBuffer<T> {
    buffer: Vec<T>,
    write_pos: usize,
    capacity: usize,
    total_written: u64,
}

impl<T: Copy> SegmentRingBuffer<T> {
    /// The stored samples, slot by slot.
    pub closed spec fn contents(&self) -> Seq<T> {
        self.buffer@
    }

    /// Current write position.
    pub closed spec fn spec_write_pos(&self) -> int {
        self.write_pos as int
    }

    /// Number of slots.
    pub closed spec fn spec_capacity(&self) -> int {
        self.capacity as int
    }

    /// Samples written since creation or the last clear, modulo 2^64.
    pub closed spec fn spec_total_written(&self) -> u64 {
        self.total_written
    }

    /// The buffer has `capacity` slots, the write position is a slot (or 0 for
    /// an empty ring), and the overflow threshold can be computed.
    pub closed spec fn wf(&self) -> bool {
        &&& self.buffer@.len() == self.capacity
        &&& (self.capacity > 0 ==> self.write_pos < self.capacity)
        &&& (self.capacity == 0 ==> self.write_pos == 0)
        &&& self.capacity * OVERFLOW_THRESHOLD_PERCENT <= usize::MAX
    }

    /// Create a new ring buffer with `capacity` slots, all holding `fill`.
    pub fn new(capacity: usize, fill: T) -> (r: Self)
        requires
            capacity * OVERFLOW_THRESHOLD_PERCENT <= usize::MAX,
        ensures
            r.wf(),
            r.spec_capacity() == capacity,
            r.spec_write_pos() == 0,
            r.spec_total_written() == 0,
            r.contents() == Seq::new(capacity as nat, |i: int| fill),
    {
        let mut buffer: Vec<T> = Vec::new();
        let mut i: usize = 0;
        while i < capacity
            invariant
                0 <= i <= capacity,
                buffer@ == Seq::new(i as nat, |k: int| fill),
            decreases capacity - i,
        {
            buffer.push(fill);
            proof {
                assert(buffer@ =~= Seq::new((i + 1) as nat, |k: int| fill));
            }
            i = i + 1;
        }
        SegmentRingBuffer { buffer, write_pos: 0, capacity, total_written: 0 }
    }

    /// Create a ring buffer with default capacity (30 seconds at 48kHz stereo).
    pub fn with_default_capacity(fill: T) -> (r: Self)
        ensures
            r.wf(),
            r.spec_capacity() == RING_BUFFER_CAPACITY,
            r.spec_write_pos() == 0,
            r.spec_total_written() == 0,
            r.contents() == Seq::new(RING_BUFFER_CAPACITY as nat, |i: int| fill),
    {
        Self::new(RING_BUFFER_CAPACITY, fill)
    }

    /// Write samples to the buffer, advancing the write position and wrapping.
    pub fn write(&mut self, samples: &[T])
        requires
            old(self).wf(),
            old(self).spec_capacity() > 0 || samples@.len() == 0,
        ensures
            final(self).wf(),
            final(self).spec_capacity() == old(self).spec_capacity(),
            final(self).contents() == ring_write(
                old(self).contents(),
                old(self).spec_write_pos(),
                samples@,
            ),
            samples@.len() == 0 ==> final(self).spec_write_pos() == old(self).spec_write_pos(),
            old(self).spec_capacity() > 0 ==> final(self).spec_write_pos() == (
            old(self).spec_write_pos() + samples@.len()) % old(self).spec_capacity(),
            final(self).spec_total_written() == (old(self).spec_total_written() + samples@.len())
                % 0x1_0000_0000_0000_0000,
    {
        let ghost cap = self.capacity as int;
        let ghost start = self.write_pos as int;
        let ghost orig = self.buffer@;
        let ghost total0 = self.total_written as int;
        let mut i: usize = 0;
        proof {
            if cap > 0 {
                vstd::arithmetic::div_mod::lemma_small_mod(start as nat, cap as nat);
            }
            vstd::arithmetic::div_mod::lemma_small_mod(total0 as nat, 0x1_0000_0000_0000_0000nat);
        }
        assert(samples@.skip(0) =~= samples@);
        while i < samples.len()
            invariant
                0 <= i <= samples@.len(),
                self.capacity == cap,
                self.wf(),
                cap > 0 || samples@.len() == 0,
                cap > 0 ==> self.write_pos == (start + i) % cap,
                ring_write(orig, start, samples@) == ring_write(
                    self.buffer@,
                    self.write_pos as int,
                    samples@.skip(i as int),
                ),
                self.total_written == (total0 + i) % 0x1_0000_0000_0000_0000,
            decreases samples@.len() - i,
        {
            let s = samples[i];
            proof {
                assert(samples@.skip(i as int)[0] == s);
                assert(samples@.skip(i as int).drop_first() =~= samples@.skip(i + 1));
            }
            self.buffer.set(self.write_pos, s);
            proof {
                lemma_wrap(self.write_pos + 1, cap);
                lemma_wrap((start + i) % cap + 1, cap);
                vstd::arithmetic::div_mod::lemma_add_mod_noop_right(1, start + i, cap);
                vstd::arithmetic::div_mod::lemma_add_mod_noop_right(
                    1,
                    total0 + i,
                    0x1_0000_0000_0000_0000int,
                );
                vstd::arithmetic::div_mod::lemma_mod_bound(total0 + i + 1, 0x1_0000_0000_0000_0000int);
                vstd::arithmetic::div_mod::lemma_mod_bound(total0 + i, 0x1_0000_0000_0000_0000int);
                lemma_wrap(self.total_written + 1, 0x1_0000_0000_0000_0000int);
            }
            self.write_pos = (self.write_pos + 1) % self.capacity;
            self.total_written = self.total_written.wrapping_add(1);
            i = i + 1;
        }
        proof {
            assert(samples@.skip(samples@.len() as int) =~= Seq::<T>::empty());
        }
    }

    /// Get current write position.
    pub fn write_position(&self) -> (r: usize)
        ensures
            r == self.spec_write_pos(),
            self.wf() ==> r <= self.spec_capacity(),
            self.wf() && self.spec_capacity() > 0 ==> r < self.spec_capacity(),
    {
        self.write_pos
    }

    /// Get buffer capacity.
    pub fn capacity(&self) -> (r: usize)
        ensures
            r == self.spec_capacity(),
    {
        self.capacity
    }

    /// Segment length from `start_idx` to the current write position, handling wraparound.
    pub fn segment_length(&self, start_idx: usize) -> (r: usize)
        requires
            self.wf(),
            start_idx <= self.spec_capacity(),
        ensures
            r == ring_distance(start_idx as int, self.spec_write_pos(), self.spec_capacity()),
    {
        if self.write_pos >= start_idx {
            self.write_pos - start_idx
        } else {
            (self.capacity - start_idx) + self.write_pos
        }
    }

    /// Index `lookback_samples` back from the write position (clamped to the
    /// write position when the lookback covers the whole buffer).
    pub fn index_from_lookback(&self, lookback_samples: usize) -> (r: usize)
        requires
            self.wf(),
        ensures
            r == ring_lookback_index(
                lookback_samples as int,
                self.spec_write_pos(),
                self.spec_capacity(),
            ),
            self.spec_capacity() > 0 ==> r < self.spec_capacity(),
    {
        if lookback_samples >= self.capacity {
            self.write_pos
        } else if lookback_samples <= self.write_pos {
            self.write_pos - lookback_samples
        } else {
            self.capacity - (lookback_samples - self.write_pos)
        }
    }

    /// Whether the segment from `start_idx` has reached 90% of the capacity.
    pub fn is_approaching_overflow(&self, start_idx: usize) -> (r: bool)
        requires
            self.wf(),
            start_idx <= self.spec_capacity(),
        ensures
            r == (ring_distance(start_idx as int, self.spec_write_pos(), self.spec_capacity())
                >= (self.spec_capacity() * OVERFLOW_THRESHOLD_PERCENT) / 100),
    {
        let segment_len = self.segment_length(start_idx);
        let threshold = (self.capacity * OVERFLOW_THRESHOLD_PERCENT) / 100;
        segment_len >= threshold
    }

    /// Copy out the segment from `start_idx` to the current write position,
    /// handling wraparound.
    pub fn extract_segment(&self, start_idx: usize) -> (r: Vec<T>)
        requires
            self.wf(),
            start_idx <= self.spec_capacity(),
        ensures
            r@ == ring_segment(self.contents(), start_idx as int, self.spec_write_pos()),
            r@.len() == ring_distance(start_idx as int, self.spec_write_pos(), self.spec_capacity()),
    {
        let segment_len = self.segment_length(start_idx);
        let mut result: Vec<T> = Vec::new();
        if segment_len == 0 {
            proof {
                if self.write_pos >= start_idx {
                    assert(self.buffer@.subrange(start_idx as int, self.write_pos as int) =~= Seq::<
                        T,
                    >::empty());
                }
            }
            return result;
        }
        if self.write_pos >= start_idx {
            let mut i = start_idx;
            while i < self.write_pos
                invariant
                    start_idx <= i <= self.write_pos,
                    self.write_pos <= self.buffer@.len(),
                    result@ == self.buffer@.subrange(start_idx as int, i as int),
                decreases self.write_pos - i,
            {
                result.push(self.buffer[i]);
                proof {
                    assert(self.buffer@.subrange(start_idx as int, i + 1) =~= self.buffer@.subrange(
                        start_idx as int,
                        i as int,
                    ).push(self.buffer@[i as int]));
                }
                i = i + 1;
            }
        } else {
            let mut i = start_idx;
            while i < self.capacity
                invariant
                    start_idx <= i <= self.capacity,
                    self.capacity == self.buffer@.len(),
                    result@ == self.buffer@.subrange(start_idx as int, i as int),
                decreases self.capacity - i,
            {
                result.push(self.buffer[i]);
                proof {
                    assert(self.buffer@.subrange(start_idx as int, i + 1) =~= self.buffer@.subrange(
                        start_idx as int,
                        i as int,
                    ).push(self.buffer@[i as int]));
                }
                i = i + 1;
            }
            let ghost first = result@;
            let mut j: usize = 0;
            while j < self.write_pos
                invariant
                    0 <= j <= self.write_pos,
                    self.write_pos < self.buffer@.len(),
                    result@ == first + self.buffer@.subrange(0, j as int),
                decreases self.write_pos - j,
            {
                result.push(self.buffer[j]);
                proof {
                    assert(first + self.buffer@.subrange(0, j + 1) =~= (first
                        + self.buffer@.subrange(0, j as int)).push(self.buffer@[j as int]));
                }
                j = j + 1;
            }
        }
        result
    }

    /// Reset the write position (the stored samples are kept).
    pub fn clear(&mut self)
        requires
            old(self).wf(),
        ensures
            final(self).wf(),
            final(self).spec_write_pos() == 0,
            final(self).spec_total_written() == 0,
            final(self).spec_capacity() == old(self).spec_capacity(),
            final(self).contents() == old(self).contents(),
    {
        self.write_pos = 0;
        self.total_written = 0;
    }
}


/// When fewer samples than the capacity are written into the ring, the
/// segment from the old write position to the new one is exactly those samples.
pub proof fn lemma_write_then_extract<T>(before: Seq<T>, pos: int, samples: Seq<T>)
    requires
        0 <= pos < before.len(),
        0 < samples.len() < before.len(),
    ensures
        ring_segment(
            ring_write(before, pos, samples),
            pos,
            (pos + samples.len()) % (before.len() as int),
        ) == samples,
{
    let cap = before.len() as int;
    let n = samples.len() as int;
    let r = ring_write(before, pos, samples);
    lemma_ring_write_slots(before, pos, samples);
    lemma_wrap(pos + n, cap);
    let wp = (pos + n) % cap;
    let seg = ring_segment(r, pos, wp);
    if pos + n < cap {
        assert forall|k: int| 0 <= k < n implies seg[k] == samples[k] by {
            lemma_wrap(pos + k, cap);
            assert(r[ring_index(pos, k, cap)] == samples[k]);
        }
    } else {
        assert forall|k: int| 0 <= k < n implies seg[k] == samples[k] by {
            lemma_wrap(pos + k, cap);
            assert(r[ring_index(pos, k, cap)] == samples[k]);
        }
    }
    assert(seg =~= samples);
}

/// Writing fewer samples than a buffer holds and then extracting from the
/// write position before the write gives back exactly those samples, and the
/// segment's length is their number.
pub proof fn lemma_ring_buffer_write_then_extract<T: Copy>(
    before: SegmentRingBuffer<T>,
    after: SegmentRingBuffer<T>,
    samples: Seq<T>,
)
    requires
        before.wf(),
        before.spec_capacity() > 0,
        samples.len() < before.spec_capacity(),
        after.contents() == ring_write(before.contents(), before.spec_write_pos(), samples),
        after.spec_write_pos() == (before.spec_write_pos() + samples.len())
            % before.spec_capacity(),
    ensures
        ring_segment(after.contents(), before.spec_write_pos(), after.spec_write_pos()) == samples,
        ring_distance(before.spec_write_pos(), after.spec_write_pos(), before.spec_capacity())
            == samples.len(),
{
    let p = before.spec_write_pos();
    let cap = before.spec_capacity();
    lemma_wrap(p + samples.len(), cap);
    if samples.len() == 0 {
        assert(after.contents().subrange(p, p) =~= samples);
    } else {
        lemma_write_then_extract(before.contents(), p, samples);
    }
}

/// Looking back fewer samples than the capacity gives a start index whose
/// distance to the write position is exactly the lookback.
pub proof fn lemma_lookback_distance(lookback: int, write_pos: int, cap: int)
    requires
        0 <= write_pos < cap,
        0 <= lookback < cap,
    ensures
        0 <= ring_lookback_index(lookback, write_pos, cap) < cap,
        ring_distance(ring_lookback_index(lookback, write_pos, cap), write_pos, cap) == lookback,
{
}

/// A segment queued for transcription, with where its audio was saved.
pub struct QueuedSegment<T> {
    /// Audio samples (owned copy from the ring buffer)
    pub samples: Vec<T>,
    /// Sample rate
    pub sample_rate: u32,
    /// Number of channels
    pub channels: u16,
    /// Path where the WAV file was saved (if saving succeeded)
    pub wav_path: Option<String>,
}

/// What the transcription worker does next.
pub enum WorkerStep<S> {
    /// The worker was stopped and the queue is drained: exit.
    Exit,
    /// Transcribe this segment.
    Process(S),
    /// Nothing queued yet: wait briefly and ask again.
    Idle,
}

/// A bounded FIFO of segments awaiting transcription, with the worker's
/// running flag.
pub struct TranscriptionQueue<S> {
    queue: VecDeque<S>,
    worker_active: bool,
}

impl<S> TranscriptionQueue<S> {
    /// The queued segments, oldest first.
    pub closed spec fn spec_queue(&self) -> Seq<S> {
        self.queue@
    }

    /// Whether the worker is running.
    pub closed spec fn spec_worker_active(&self) -> bool {
        self.worker_active
    }

    /// Create an empty queue with the worker stopped.
    pub fn new() -> (r: Self)
        ensures
            r.spec_queue() == Seq::<S>::empty(),
            !r.spec_worker_active(),
    {
        TranscriptionQueue { queue: VecDeque::new(), worker_active: false }
    }

    /// Enqueue a segment; returns false (and drops it) when the queue is full.
    pub fn enqueue(&mut self, segment: S) -> (r: bool)
        ensures
            r == (old(self).spec_queue().len() < MAX_QUEUE_SIZE),
            r ==> final(self).spec_queue() == old(self).spec_queue().push(segment),
            !r ==> final(self).spec_queue() == old(self).spec_queue(),
            final(self).spec_worker_active() == old(self).spec_worker_active(),
    {
        if self.queue.len() >= MAX_QUEUE_SIZE {
            return false;
        }
        self.queue.push_back(segment);
        true
    }

    /// Current queue depth.
    pub fn queue_depth(&self) -> (r: usize)
        ensures
            r == self.spec_queue().len(),
    {
        self.queue.len()
    }

    /// Whether the worker is active.
    pub fn is_worker_active(&self) -> (r: bool)
        ensures
            r == self.spec_worker_active(),
    {
        self.worker_active
    }

    /// Mark the worker as started. Returns false if it was already running,
    /// in which case no second worker must be spawned.
    pub fn start_worker(&mut self) -> (r: bool)
        ensures
            r == !old(self).spec_worker_active(),
            final(self).spec_worker_active(),
            final(self).spec_queue() == old(self).spec_queue(),
    {
        if self.worker_active {
            return false;
        }
        self.worker_active = true;
        true
    }

    /// Stop the worker; it drains the remaining queue before exiting.
    pub fn stop_worker(&mut self)
        ensures
            !final(self).spec_worker_active(),
            final(self).spec_queue() == old(self).spec_queue(),
    {
        self.worker_active = false;
    }

    /// One turn of the worker loop: exit once stopped and drained, otherwise
    /// take the oldest segment if there is one.
    pub fn next_worker_step(&mut self) -> (r: WorkerStep<S>)
        ensures
            final(self).spec_worker_active() == old(self).spec_worker_active(),
            (!old(self).spec_worker_active() && old(self).spec_queue().len() == 0) <==> r is Exit,
            r is Exit ==> final(self).spec_queue() == old(self).spec_queue(),
            r is Idle <==> (old(self).spec_worker_active() && old(self).spec_queue().len() == 0),
            r is Idle ==> final(self).spec_queue() == old(self).spec_queue(),
            r is Process <==> old(self).spec_queue().len() > 0,
            r is Process ==> r->0 == old(self).spec_queue()[0] && final(self).spec_queue()
                == old(self).spec_queue().drop_first(),
    {
        if !self.worker_active && self.queue.len() == 0 {
            return WorkerStep::Exit;
        }
        match self.queue.pop_front() {
            Some(seg) => WorkerStep::Process(seg),
            None => WorkerStep::Idle,
        }
    }

    /// Discard all pending segments.
    pub fn clear(&mut self)
        ensures
            final(self).spec_queue() == Seq::<S>::empty(),
            final(self).spec_worker_active() == old(self).spec_worker_active(),
    {
        self.queue.clear();
    }
}

/// The queue never holds more than its maximum number of segments.
pub proof fn lemma_enqueue_bounded<S>(before: Seq<S>, segment: S, accepted: bool, after: Seq<S>)
    requires
        before.len() <= MAX_QUEUE_SIZE,
        accepted == (before.len() < MAX_QUEUE_SIZE),
        accepted ==> after == before.push(segment),
        !accepted ==> after == before,
    ensures
        after.len() <= MAX_QUEUE_SIZE,
{
}

/// State for automatic transcription mode: the ring buffer, whether a speech
/// segment is open, and where it started.
pub struct TranscribeState<T> {
    /// Ring buffer for continuous audio capture
    pub ring_buffer: SegmentRingBuffer<T>,
    /// Whether transcribe mode is active
    pub is_active: bool,
    /// Whether we're currently inside a speech segment
    pub in_speech: bool,
    /// Ring buffer index where the current speech segment started
    pub segment_start_idx: usize,
    /// Sample rate for the capture
    pub sample_rate: u32,
    /// Number of channels
    pub channels: u16,
}

impl<T: Copy> TranscribeState<T> {
    /// The ring has its default capacity and the segment start is a slot.
    pub open spec fn wf(&self) -> bool {
        &&& self.ring_buffer.wf()
        &&& self.ring_buffer.spec_capacity() == RING_BUFFER_CAPACITY
        &&& self.segment_start_idx < RING_BUFFER_CAPACITY
    }

    /// Create an inactive state with an empty default-capacity ring buffer
    /// (48kHz stereo until `init_for_capture` says otherwise).
    pub fn new(fill: T) -> (r: Self)
        ensures
            r.wf(),
            !r.is_active,
            !r.in_speech,
            r.segment_start_idx == 0,
            r.sample_rate == 48000,
            r.channels == 2,
            r.ring_buffer.spec_write_pos() == 0,
    {
        TranscribeState {
            ring_buffer: SegmentRingBuffer::with_default_capacity(fill),
            is_active: false,
            in_speech: false,
            segment_start_idx: 0,
            sample_rate: 48000,
            channels: 2,
        }
    }

    /// Initialize for capture with the given parameters.
    pub fn init_for_capture(&mut self, sample_rate: u32, channels: u16)
        requires
            old(self).wf(),
        ensures
            final(self).wf(),
            final(self).sample_rate == sample_rate,
            final(self).channels == channels,
            final(self).ring_buffer.spec_write_pos() == 0,
            final(self).ring_buffer.contents() == old(self).ring_buffer.contents(),
            !final(self).in_speech,
            final(self).segment_start_idx == 0,
            final(self).is_active == old(self).is_active,
    {
        self.sample_rate = sample_rate;
        self.channels = channels;
        self.ring_buffer.clear();
        self.in_speech = false;
        self.segment_start_idx = 0;
    }

    /// Activate transcribe mode.
    pub fn activate(&mut self)
        requires
            old(self).wf(),
        ensures
            final(self).wf(),
            final(self).is_active,
            !final(self).in_speech,
            final(self).segment_start_idx == 0,
            final(self).ring_buffer == old(self).ring_buffer,
            final(self).sample_rate == old(self).sample_rate,
            final(self).channels == old(self).channels,
    {
        self.is_active = true;
        self.in_speech = false;
        self.segment_start_idx = 0;
    }

    /// Deactivate transcribe mode.
    pub fn deactivate(&mut self)
        requires
            old(self).wf(),
        ensures
            final(self).wf(),
            !final(self).is_active,
            !final(self).in_speech,
            final(self).segment_start_idx == old(self).segment_start_idx,
            final(self).ring_buffer == old(self).ring_buffer,
            final(self).sample_rate == old(self).sample_rate,
            final(self).channels == old(self).channels,
    {
        self.is_active = false;
        self.in_speech = false;
    }

    /// Write incoming samples to the ring buffer. If a speech segment is open
    /// and has reached the overflow threshold, it is cut first and returned
    /// (to be queued), and a new segment starts at the current write position.
    pub fn process_samples(&mut self, samples: &[T]) -> (r: Option<Vec<T>>)
        requires
            old(self).wf(),
        ensures
            final(self).wf(),
            final(self).is_active == old(self).is_active,
            final(self).in_speech == old(self).in_speech,
            final(self).sample_rate == old(self).sample_rate,
            final(self).channels == old(self).channels,
            !old(self).is_active ==> r is None && *final(self) == *old(self),
            old(self).is_active ==> ({
                let rb = old(self).ring_buffer;
                let overflow = old(self).in_speech && ring_distance(
                    old(self).segment_start_idx as int,
                    rb.spec_write_pos(),
                    rb.spec_capacity(),
                ) >= (rb.spec_capacity() * OVERFLOW_THRESHOLD_PERCENT) / 100;
                &&& final(self).ring_buffer.contents() == ring_write(
                    rb.contents(),
                    rb.spec_write_pos(),
                    samples@,
                )
                &&& final(self).ring_buffer.spec_write_pos() == (rb.spec_write_pos()
                    + samples@.len()) % rb.spec_capacity()
                &&& overflow ==> r is Some && r->0@ == ring_segment(
                    rb.contents(),
                    old(self).segment_start_idx as int,
                    rb.spec_write_pos(),
                ) && final(self).segment_start_idx == rb.spec_write_pos()
                &&& !overflow ==> r is None && final(self).segment_start_idx
                    == old(self).segment_start_idx
            }),
    {
        if !self.is_active {
            return None;
        }
        let overflow_segment = if self.in_speech && self.ring_buffer.is_approaching_overflow(
            self.segment_start_idx,
        ) {
            let segment = self.ring_buffer.extract_segment(self.segment_start_idx);
            self.segment_start_idx = self.ring_buffer.write_position();
            Some(segment)
        } else {
            None
        };
        self.ring_buffer.write(samples);
        overflow_segment
    }

    /// Speech started: open a segment that begins `lookback_samples` before
    /// the current write position.
    pub fn on_speech_started(&mut self, lookback_samples: usize)
        requires
            old(self).wf(),
        ensures
            final(self).wf(),
            final(self).ring_buffer == old(self).ring_buffer,
            final(self).is_active == old(self).is_active,
            final(self).sample_rate == old(self).sample_rate,
            final(self).channels == old(self).channels,
            !old(self).is_active ==> *final(self) == *old(self),
            old(self).is_active ==> final(self).in_speech && final(self).segment_start_idx
                == ring_lookback_index(
                lookback_samples as int,
                old(self).ring_buffer.spec_write_pos(),
                old(self).ring_buffer.spec_capacity(),
            ),
    {
        if !self.is_active {
            return;
        }
        self.in_speech = true;
        self.segment_start_idx = self.ring_buffer.index_from_lookback(lookback_samples);
    }

    /// Speech ended: close the open segment and return its samples (to be
    /// queued), unless it is empty.
    pub fn on_speech_ended(&mut self) -> (r: Option<Vec<T>>)
        requires
            old(self).wf(),
        ensures
            final(self).wf(),
            final(self).ring_buffer == old(self).ring_buffer,
            final(self).is_active == old(self).is_active,
            final(self).segment_start_idx == old(self).segment_start_idx,
            final(self).sample_rate == old(self).sample_rate,
            final(self).channels == old(self).channels,
            !(old(self).is_active && old(self).in_speech) ==> r is None && *final(self)
                == *old(self),
            (old(self).is_active && old(self).in_speech) ==> ({
                let seg = ring_segment(
                    old(self).ring_buffer.contents(),
                    old(self).segment_start_idx as int,
                    old(self).ring_buffer.spec_write_pos(),
                );
                &&& !final(self).in_speech
                &&& (seg.len() == 0 ==> r is None)
                &&& (seg.len() > 0 ==> r is Some && r->0@ == seg)
            }),
    {
        if !self.is_active || !self.in_speech {
            return None;
        }
        let segment = self.ring_buffer.extract_segment(self.segment_start_idx);
        self.in_speech = false;
        if segment.len() == 0 {
            return None;
        }
        Some(segment)
    }

    /// Close any open segment when transcribe mode stops.
    pub fn finalize(&mut self) -> (r: Option<Vec<T>>)
        requires
            old(self).wf(),
        ensures
            final(self).wf(),
            final(self).ring_buffer == old(self).ring_buffer,
            final(self).is_active == old(self).is_active,
            !final(self).in_speech || !old(self).is_active,
            !old(self).in_speech ==> r is None && *final(self) == *old(self),
            (old(self).is_active && old(self).in_speech) ==> ({
                let seg = ring_segment(
                    old(self).ring_buffer.contents(),
                    old(self).segment_start_idx as int,
                    old(self).ring_buffer.spec_write_pos(),
                );
                &&& (seg.len() == 0 ==> r is None)
                &&& (seg.len() > 0 ==> r is Some && r->0@ == seg)
            }),
            (!old(self).is_active) ==> r is None && *final(self) == *old(self),
    {
        if self.in_speech {
            self.on_speech_ended()
        } else {
            None
        }
    }
}

} // verus!
