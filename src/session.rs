//! The per-chunk capture pipeline of a session: voice-activity gate, then
//! noise gate, then the bounded append.
use vstd::prelude::*;
use crate::capture::{admitted, min_int, retained, AudioSnapshot, CaptureBuffer, RecordedAudio};
use crate::vad::{chunk_ms_spec, chunk_duration_ms, vad_next, VadState};

verus! {

/// Filtering choices fixed when a session starts.
#[derive(Clone, Copy, Debug, PartialEq, Eq, Structural)]
pub struct ChunkFilter {
    pub vad_enabled: bool,
    /// Quiet time after which an active gate closes.
    pub vad_silence_ms: u32,
    /// Loud time after which a closed gate opens again.
    pub vad_resume_ms: u32,
    pub gate_enabled: bool,
}

/// The voice-activity state after a chunk: advanced by one step when voice
/// detection is on, left alone when it is off.
pub open spec fn vad_after(f: ChunkFilter, s: VadState, speech: bool, chunk_ms: u32) -> VadState {
    if f.vad_enabled {
        vad_next(s, speech, chunk_ms, f.vad_silence_ms, f.vad_resume_ms)
    } else {
        s
    }
}

/// Whether a chunk reaches the buffer: the voice-activity gate (when enabled)
/// must be open after the chunk, and the noise gate (when enabled) must not
/// find the chunk below its threshold.
pub open spec fn chunk_passes(f: ChunkFilter, after: VadState, below_gate: bool) -> bool {
    (!f.vad_enabled || after.active) && !(f.gate_enabled && below_gate)
}

/// Capture state shared between the audio callback and the supervisor.
pub struct CaptureSession<T> {
    buffer: CaptureBuffer<T>,
    vad: VadState,
    filter: ChunkFilter,
}

impl<T> CaptureSession<T> {
    pub closed spec fn buf(&self) -> CaptureBuffer<T> {
        self.buffer
    }

    pub closed spec fn vad_state(&self) -> VadState {
        self.vad
    }

    pub closed spec fn settings(&self) -> ChunkFilter {
        self.filter
    }

    pub open spec fn wf(&self) -> bool {
        self.buf().wf()
    }
}

impl<T: Copy> CaptureSession<T> {
    /// A fresh session for a stream of the given format.
    pub fn new(sample_rate: u32, channels: u16, filter: ChunkFilter) -> (r: Self)
        ensures
            r.wf(),
            r.buf().buffered() == Seq::<T>::empty(),
            r.buf().total() == 0,
            r.buf().capacity() == crate::capture::max_samples_for_format(sample_rate, channels),
            r.buf().capacity() >= crate::capture::MAX_RECORDING_SECONDS,
            r.buf().rate() == sample_rate,
            r.buf().channel_count() == channels,
            r.settings() == filter,
            r.vad_state() == (VadState { active: !filter.vad_enabled, silence_ms: 0, speech_ms: 0 }),
    {
        CaptureSession {
            buffer: CaptureBuffer::new(sample_rate, channels),
            vad: VadState::initial(filter.vad_enabled),
            filter,
        }
    }

    pub fn buffer(&self) -> (r: &CaptureBuffer<T>)
        ensures
            *r == self.buf(),
    {
        &self.buffer
    }

    pub fn vad(&self) -> (r: VadState)
        ensures
            r == self.vad_state(),
    {
        self.vad
    }

    /// Runs one chunk of (gain-applied) samples through the pipeline.
    /// `speech` says whether the chunk's loudness reaches the voice-activity
    /// threshold, `below_gate` whether it falls under the noise-gate
    /// threshold. An empty chunk changes nothing. Returns whether the chunk
    /// reached the buffer.
    pub fn process_chunk(&mut self, chunk: &[T], speech: bool, below_gate: bool) -> (passed: bool)
        requires
            old(self).wf(),
            old(self).buf().total() + min_int(
                chunk@.len() as int,
                old(self).buf().capacity() as int,
            ) <= usize::MAX,
        ensures
            final(self).wf(),
            final(self).settings() == old(self).settings(),
            chunk@.len() == 0 ==> !passed && *final(self) == *old(self),
            chunk@.len() > 0 ==> {
                let ms = chunk_ms_spec(
                    chunk@.len() as usize,
                    old(self).buf().channel_count(),
                    old(self).buf().rate(),
                );
                let after = vad_after(old(self).settings(), old(self).vad_state(), speech, ms);
                &&& final(self).vad_state() == after
                &&& passed == chunk_passes(old(self).settings(), after, below_gate)
            },
            passed ==> {
                let max = old(self).buf().capacity() as int;
                &&& final(self).buf().buffered() == retained(old(self).buf().buffered(), chunk@, max)
                &&& final(self).buf().history() == old(self).buf().history() + admitted(chunk@, max)
                &&& final(self).buf().total() == old(self).buf().total() + min_int(
                    chunk@.len() as int,
                    max,
                )
                &&& final(self).buf().capacity() == old(self).buf().capacity()
                &&& final(self).buf().rate() == old(self).buf().rate()
                &&& final(self).buf().channel_count() == old(self).buf().channel_count()
            },
            !passed ==> final(self).buf() == old(self).buf(),
            old(self).settings().gate_enabled && below_gate ==> final(self).buf() == old(self).buf(),
    {
        if chunk.len() == 0 {
            return false;
        }
        if self.filter.vad_enabled {
            let ms = chunk_duration_ms(chunk.len(), self.buffer.channels(), self.buffer.sample_rate());
            self.vad.step(speech, ms, self.filter.vad_silence_ms, self.filter.vad_resume_ms);
            if !self.vad.active {
                return false;
            }
        }
        if self.filter.gate_enabled && below_gate {
            return false;
        }
        self.buffer.append(chunk);
        true
    }

    /// Samples retained from the absolute index `from_index` onward.
    pub fn snapshot(&self, from_index: usize) -> (r: AudioSnapshot<T>)
        requires
            self.wf(),
        ensures
            r.samples@ == crate::capture::snapshot_view(
                self.buf().buffered(),
                self.buf().total() as int,
                from_index as int,
            ),
            r.total_samples == self.buf().total(),
            r.sample_rate == self.buf().rate(),
            r.channels == self.buf().channel_count(),
    {
        self.buffer.snapshot(from_index)
    }

    /// Ends the session, handing back what it retained.
    pub fn into_recorded(self) -> (r: RecordedAudio<T>)
        ensures
            r.samples@ == self.buf().buffered(),
            r.sample_rate == self.buf().rate(),
            r.channels == self.buf().channel_count(),
    {
        self.buffer.into_recorded()
    }
}

} // verus!
