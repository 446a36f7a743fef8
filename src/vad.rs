//! Voice-activity gate: a hysteresis state machine run once per chunk.
use vstd::prelude::*;

verus! {

/// Hysteresis state of the voice-activity gate.
#[derive(Clone, Copy, Debug, PartialEq, Eq, Structural)]
pub struct VadState {
    /// Whether audio currently passes.
    pub active: bool,
    /// Quiet time accumulated while active.
    pub silence_ms: u32,
    /// Loud time accumulated while inactive.
    pub speech_ms: u32,
}

/// `a + b`, saturated at `u32::MAX`.
pub open spec fn sat_add_u32(a: u32, b: u32) -> u32 {
    if a + b > u32::MAX {
        u32::MAX
    } else {
        (a + b) as u32
    }
}

/// The state after one chunk of `chunk_ms` milliseconds, given whether the
/// chunk counts as speech.
pub open spec fn vad_next(
    s: VadState,
    speech: bool,
    chunk_ms: u32,
    silence_hold_ms: u32,
    resume_hold_ms: u32,
) -> VadState {
    if s.active {
        if speech {
            VadState { silence_ms: 0, ..s }
        } else {
            let silence = sat_add_u32(s.silence_ms, chunk_ms);
            if silence >= silence_hold_ms {
                VadState { active: false, silence_ms: silence, speech_ms: 0 }
            } else {
                VadState { silence_ms: silence, ..s }
            }
        }
    } else if speech {
        let speech_ms = sat_add_u32(s.speech_ms, chunk_ms);
        if speech_ms >= resume_hold_ms {
            VadState { active: true, silence_ms: 0, speech_ms }
        } else {
            VadState { speech_ms, ..s }
        }
    } else {
        VadState { speech_ms: 0, ..s }
    }
}

/// Length in milliseconds of a chunk of `len` interleaved samples:
/// `frames * 1000 / rate` with `frames = len / max(channels, 1)` and
/// `rate = max(sample_rate, 1)`, the product saturated at `u64::MAX` and the
/// quotient truncated to `u32`.
pub open spec fn chunk_ms_spec(len: usize, channels: u16, sample_rate: u32) -> u32 {
    let ch: int = if channels == 0 { 1 } else { channels as int };
    let rate: int = if sample_rate == 0 { 1 } else { sample_rate as int };
    let frames = len as int / ch;
    let scaled: int = if frames * 1000 > u64::MAX as int { u64::MAX as int } else { frames * 1000 };
    ((scaled / rate) as u64) as u32
}

/// Duration of a chunk, derived from its frame count.
pub fn chunk_duration_ms(len: usize, channels: u16, sample_rate: u32) -> (r: u32)
    ensures
        r == chunk_ms_spec(len, channels, sample_rate),
{
    let ch: usize = if channels == 0 { 1 } else { channels as usize };
    let rate: u64 = if sample_rate == 0 { 1 } else { sample_rate as u64 };
    let frames = len / ch;
    let scaled: u64 = match (frames as u64).checked_mul(1000) {
        Some(v) => v,
        None => u64::MAX,
    };
    (scaled / rate) as u32
}

impl VadState {
    /// The state a session starts in: closed when voice detection is on, so
    /// that speech must be heard before audio passes; open when it is off.
    pub fn initial(vad_enabled: bool) -> (r: Self)
        ensures
            r == (VadState { active: !vad_enabled, silence_ms: 0, speech_ms: 0 }),
    {
        VadState { active: !vad_enabled, silence_ms: 0, speech_ms: 0 }
    }

    /// Advances the state by one chunk.
    pub fn step(&mut self, speech: bool, chunk_ms: u32, silence_hold_ms: u32, resume_hold_ms: u32)
        ensures
            *final(self) == vad_next(*old(self), speech, chunk_ms, silence_hold_ms, resume_hold_ms),
    {
        if self.active {
            if speech {
                self.silence_ms = 0;
            } else {
                self.silence_ms = self.silence_ms.saturating_add(chunk_ms);
                if self.silence_ms >= silence_hold_ms {
                    self.active = false;
                    self.speech_ms = 0;
                }
            }
        } else if speech {
            self.speech_ms = self.speech_ms.saturating_add(chunk_ms);
            if self.speech_ms >= resume_hold_ms {
                self.active = true;
                self.silence_ms = 0;
            }
        } else {
            self.speech_ms = 0;
        }
    }
}

} // verus!
