//! Bounded capture buffer: keeps the most recent samples of a session while
//! counting, by absolute index, every sample ever written to it.
use vstd::prelude::*;

verus! {

/// Longest stretch of audio that a session retains, in seconds.
pub const MAX_RECORDING_SECONDS: u32 = 600;

pub open spec fn min_int(a: int, b: int) -> int {
    if a < b {
        a
    } else {
        b
    }
}

/// `max(sample_rate, 1) * max(channels, 1) * MAX_RECORDING_SECONDS`,
/// saturated at `usize::MAX`.
pub open spec fn max_samples_for_format(sample_rate: u32, channels: u16) -> int {
    let rate: int = if sample_rate == 0 { 1 } else { sample_rate as int };
    let ch: int = if channels == 0 { 1 } else { channels as int };
    let n = rate * ch * MAX_RECORDING_SECONDS as int;
    if n > usize::MAX as int {
        usize::MAX as int
    } else {
        n
    }
}

/// What a buffer holding `held` retains after `chunk` is appended under the
/// bound `max`: the last `max` samples of `held + chunk`.
pub open spec fn retained<T>(held: Seq<T>, chunk: Seq<T>, max: int) -> Seq<T> {
    let all = held + chunk;
    if all.len() > max {
        all.subrange(all.len() - max, all.len() as int)
    } else {
        all
    }
}

/// The part of `chunk` that is written (and counted) under the bound `max`:
/// a chunk longer than the bound loses its head.
pub open spec fn admitted<T>(chunk: Seq<T>, max: int) -> Seq<T> {
    if chunk.len() > max {
        chunk.subrange(chunk.len() - max, chunk.len() as int)
    } else {
        chunk
    }
}

/// Position in the retained samples at which a snapshot from the absolute
/// index `from` starts, where `len` samples are retained out of `total`
/// written.
pub open spec fn snapshot_start(len: int, total: int, from: int) -> int {
    let base = total - len;
    if from <= base {
        0
    } else {
        min_int(from - base, len)
    }
}

/// The samples a snapshot from the absolute index `from` returns.
pub open spec fn snapshot_view<T>(buffered: Seq<T>, total: int, from: int) -> Seq<T> {
    buffered.subrange(snapshot_start(buffered.len() as int, total, from), buffered.len() as int)
}

/// Computes the retention bound for a stream format.
pub fn max_samples_for(sample_rate: u32, channels: u16) -> (r: usize)
    ensures
        r as int == max_samples_for_format(sample_rate, channels),
        r >= MAX_RECORDING_SECONDS,
{
    let rate: usize = if sample_rate == 0 { 1 } else { sample_rate as usize };
    let ch: usize = if channels == 0 { 1 } else { channels as usize };
    let secs: usize = MAX_RECORDING_SECONDS as usize;
    assert(rate * ch * secs >= secs) by (nonlinear_arith)
        requires rate >= 1, ch >= 1, secs >= 1;
    match rate.checked_mul(ch) {
        Some(rc) => match rc.checked_mul(secs) {
            Some(n) => n,
            None => usize::MAX,
        },
        None => {
            assert(rate * ch * secs >= rate * ch) by (nonlinear_arith)
                requires rate >= 1, ch >= 1, secs >= 1;
            usize::MAX
        },
    }
}

/// Samples buffered from a given absolute index onward, with the stream
/// format and the absolute count of samples written so far.
pub struct AudioSnapshot<T> {
    pub samples: Vec<T>,
    pub sample_rate: u32,
    pub channels: u16,
    pub total_samples: usize,
}

/// What a finished session hands back: the retained samples and their format.
pub struct RecordedAudio<T> {
    pub samples: Vec<T>,
    pub sample_rate: u32,
    pub channels: u16,
}

/// Append-only window over the most recent `max_samples` samples of a
/// session, with an absolute counter of the samples written.
pub struct CaptureBuffer<T> {
    samples: Vec<T>,
    total_samples: usize,
    max_samples: usize,
    sample_rate: u32,
    channels: u16,
    written: Ghost<Seq<T>>,
}

impl<T> CaptureBuffer<T> {
    /// The samples currently retained, oldest first.
    pub closed spec fn buffered(&self) -> Seq<T> {
        self.samples@
    }

    /// Every sample ever written, oldest first.
    pub closed spec fn history(&self) -> Seq<T> {
        self.written@
    }

    /// Absolute number of samples written.
    pub closed spec fn total(&self) -> nat {
        self.total_samples as nat
    }

    /// Most samples retained at once.
    pub closed spec fn capacity(&self) -> nat {
        self.max_samples as nat
    }

    pub closed spec fn rate(&self) -> u32 {
        self.sample_rate
    }

    pub closed spec fn channel_count(&self) -> u16 {
        self.channels
    }

    /// The retained samples are the most recent `min(total, capacity)`
    /// samples written, so the first of them has absolute index
    /// `total - buffered().len()`.
    pub open spec fn wf(&self) -> bool {
        &&& self.capacity() > 0
        &&& self.buffered().len() <= self.capacity()
        &&& self.total() == self.history().len()
        &&& self.buffered().len() == min_int(self.total() as int, self.capacity() as int)
        &&& self.buffered() == self.history().subrange(
            self.total() - self.buffered().len(),
            self.total() as int,
        )
    }
}

impl<T: Copy> CaptureBuffer<T> {
    /// An empty buffer for a stream of the given format.
    pub fn new(sample_rate: u32, channels: u16) -> (r: Self)
        ensures
            r.wf(),
            r.buffered() == Seq::<T>::empty(),
            r.total() == 0,
            r.capacity() == max_samples_for_format(sample_rate, channels),
            r.capacity() >= MAX_RECORDING_SECONDS,
            r.rate() == sample_rate,
            r.channel_count() == channels,
    {
        let max_samples = max_samples_for(sample_rate, channels);
        let r = CaptureBuffer {
            samples: Vec::new(),
            total_samples: 0,
            max_samples,
            sample_rate,
            channels,
            written: Ghost(Seq::empty()),
        };
        assert(r.history().subrange(0, 0) =~= Seq::<T>::empty());
        r
    }

    pub fn total_samples(&self) -> (r: usize)
        ensures
            r == self.total(),
    {
        self.total_samples
    }

    pub fn max_samples(&self) -> (r: usize)
        ensures
            r == self.capacity(),
    {
        self.max_samples
    }

    pub fn len(&self) -> (r: usize)
        ensures
            r == self.buffered().len(),
    {
        self.samples.len()
    }

    pub fn sample_rate(&self) -> (r: u32)
        ensures
            r == self.rate(),
    {
        self.sample_rate
    }

    pub fn channels(&self) -> (r: u16)
        ensures
            r == self.channel_count(),
    {
        self.channels
    }

    /// Appends a chunk, evicting the oldest samples (and, for a chunk longer
    /// than the bound, the head of the chunk itself) so that at most
    /// `capacity()` samples stay. Only the samples actually kept are counted.
    pub fn append(&mut self, chunk: &[T])
        requires
            old(self).wf(),
            old(self).total() + admitted(chunk@, old(self).capacity() as int).len() <= usize::MAX,
        ensures
            final(self).wf(),
            final(self).buffered() == retained(
                old(self).buffered(),
                chunk@,
                old(self).capacity() as int,
            ),
            final(self).history() == old(self).history() + admitted(
                chunk@,
                old(self).capacity() as int,
            ),
            final(self).total() == old(self).total() + min_int(
                chunk@.len() as int,
                old(self).capacity() as int,
            ),
            final(self).capacity() == old(self).capacity(),
            final(self).rate() == old(self).rate(),
            final(self).channel_count() == old(self).channel_count(),
    {
        let ghost held = self.samples@;
        let ghost hist = self.written@;
        let ghost max = self.max_samples as int;
        let incoming = chunk.len();
        let current_len = self.samples.len();
        let mut start_index: usize = 0;
        if incoming > self.max_samples - current_len {
            let overflow = incoming - (self.max_samples - current_len);
            if overflow >= current_len {
                self.samples.clear();
                start_index = overflow - current_len;
            } else {
                let tail = self.samples.split_off(overflow);
                self.samples = tail;
            }
        }
        let ghost base = self.samples@;
        proof {
            lemma_append_preserves_window(held, hist, chunk@, max);
        }
        let mut i: usize = start_index;
        while i < incoming
            invariant
                start_index <= i <= incoming,
                incoming == chunk@.len(),
                self.samples@ == base + chunk@.subrange(start_index as int, i as int),
                self.written@ == hist + chunk@.subrange(start_index as int, i as int),
                self.max_samples == max,
                self.total_samples == hist.len(),
                self.sample_rate == old(self).sample_rate,
                self.channels == old(self).channels,
            decreases incoming - i,
        {
            self.samples.push(chunk[i]);
            proof {
                self.written@ = self.written@.push(chunk@[i as int]);
                assert(chunk@.subrange(start_index as int, i + 1) =~= chunk@.subrange(
                    start_index as int,
                    i as int,
                ).push(chunk@[i as int]));
            }
            i = i + 1;
        }
        self.total_samples = self.total_samples + (incoming - start_index);
        proof {
            assert(base + chunk@.subrange(start_index as int, incoming as int) =~= retained(
                held,
                chunk@,
                max,
            ));
            assert(chunk@.subrange(start_index as int, incoming as int) =~= admitted(chunk@, max));
        }
    }

    /// The retained samples from the absolute index `from_index` onward.
    /// An index older than what is retained yields all of it; one at or past
    /// the total yields nothing.
    pub fn snapshot(&self, from_index: usize) -> (r: AudioSnapshot<T>)
        requires
            self.wf(),
        ensures
            r.samples@ == snapshot_view(self.buffered(), self.total() as int, from_index as int),
            r.total_samples == self.total(),
            r.sample_rate == self.rate(),
            r.channels == self.channel_count(),
    {
        let len = self.samples.len();
        let base = self.total_samples - len;
        let start: usize = if from_index <= base {
            0
        } else if from_index - base < len {
            from_index - base
        } else {
            len
        };
        let mut out: Vec<T> = Vec::with_capacity(len - start);
        let mut i: usize = start;
        while i < len
            invariant
                start <= i <= len,
                len == self.samples@.len(),
                out@ == self.samples@.subrange(start as int, i as int),
            decreases len - i,
        {
            out.push(self.samples[i]);
            proof {
                assert(self.samples@.subrange(start as int, i + 1) =~= self.samples@.subrange(
                    start as int,
                    i as int,
                ).push(self.samples@[i as int]));
            }
            i = i + 1;
        }
        AudioSnapshot {
            samples: out,
            sample_rate: self.sample_rate,
            channels: self.channels,
            total_samples: self.total_samples,
        }
    }

    /// Ends the session: hands back the retained samples and their format.
    pub fn into_recorded(self) -> (r: RecordedAudio<T>)
        ensures
            r.samples@ == self.buffered(),
            r.sample_rate == self.rate(),
            r.channels == self.channel_count(),
    {
        RecordedAudio { samples: self.samples, sample_rate: self.sample_rate, channels: self.channels }
    }
}

/// Appending keeps the window bounded and aligned with the absolute count:
/// if `held` is the last `min(|history|, max)` samples of `history`, then what
/// is retained after a chunk is the last `min(|history'|, max)` samples of
/// `history' = history + admitted(chunk)`, and never more than `max`.
pub proof fn lemma_append_preserves_window<T>(
    held: Seq<T>,
    history: Seq<T>,
    chunk: Seq<T>,
    max: int,
)
    requires
        max > 0,
        held.len() == min_int(history.len() as int, max),
        held == history.subrange(history.len() - held.len(), history.len() as int),
    ensures
        ({
            let next = history + admitted(chunk, max);
            let kept = retained(held, chunk, max);
            &&& kept.len() <= max
            &&& kept.len() == min_int(next.len() as int, max)
            &&& kept == next.subrange(next.len() - kept.len(), next.len() as int)
        }),
{
    let next = history + admitted(chunk, max);
    let kept = retained(held, chunk, max);
    let all = held + chunk;
    assert(kept =~= next.subrange(next.len() - kept.len(), next.len() as int));
}

/// A snapshot from the absolute index `from` returns exactly the samples
/// written at absolute indices `max(from, base) .. total`, where `base` is
/// the absolute index of the oldest retained sample.
pub proof fn lemma_snapshot_matches_history<T>(buf: &CaptureBuffer<T>, from: int)
    requires
        buf.wf(),
        0 <= from <= buf.total(),
    ensures
        ({
            let base = buf.total() - buf.buffered().len();
            let first = if from <= base { base } else { from };
            snapshot_view(buf.buffered(), buf.total() as int, from) == buf.history().subrange(
                first,
                buf.total() as int,
            )
        }),
{
    let base = buf.total() - buf.buffered().len();
    let first = if from <= base { base } else { from };
    assert(snapshot_view(buf.buffered(), buf.total() as int, from) =~= buf.history().subrange(
        first,
        buf.total() as int,
    ));
}

/// A snapshot from index 0 of a well-formed buffer holds
/// `min(total, capacity)` samples: everything retained.
pub proof fn lemma_snapshot_from_start<T>(buf: &CaptureBuffer<T>)
    requires
        buf.wf(),
    ensures
        snapshot_view(buf.buffered(), buf.total() as int, 0) == buf.buffered(),
        snapshot_view(buf.buffered(), buf.total() as int, 0).len() == min_int(
            buf.total() as int,
            buf.capacity() as int,
        ),
{
    assert(snapshot_view(buf.buffered(), buf.total() as int, 0) =~= buf.buffered());
}

/// A snapshot from an index at or past the absolute total is empty.
pub proof fn lemma_snapshot_past_end<T>(buf: &CaptureBuffer<T>, from: int)
    requires
        buf.wf(),
        from >= buf.total(),
    ensures
        snapshot_view(buf.buffered(), buf.total() as int, from) == Seq::<T>::empty(),
{
    assert(snapshot_view(buf.buffered(), buf.total() as int, from) =~= Seq::<T>::empty());
}

/// A chunk longer than the bound, appended in one call, leaves exactly
/// `max` samples: the tail of that chunk, whatever was held before.
pub proof fn lemma_oversized_chunk<T>(held: Seq<T>, chunk: Seq<T>, max: int)
    requires
        max > 0,
        held.len() <= max,
        chunk.len() > max,
    ensures
        retained(held, chunk, max).len() == max,
        retained(held, chunk, max) == chunk.subrange(chunk.len() - max, chunk.len() as int),
        admitted(chunk, max) == chunk.subrange(chunk.len() - max, chunk.len() as int),
{
    assert(retained(held, chunk, max) =~= chunk.subrange(chunk.len() - max, chunk.len() as int));
}

} // verus!
