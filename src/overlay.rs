//! Throttling of overlay status writes: which meter updates are worth
//! writing out, given the last one written.
use vstd::prelude::*;

verus! {

/// Writes closer together than this are skipped unless the state changed.
pub const OVERLAY_WRITE_MIN_INTERVAL_MS: i64 = 250;

/// While recording, a write is made at least this often.
pub const OVERLAY_WRITE_MAX_INTERVAL_MS: i64 = 1000;

/// Meter levels are compared in this many steps over `0.0 ..= 1.0`.
pub const OVERLAY_LEVEL_QUANTIZE_STEPS: i32 = 100;

/// Smallest level change, in steps, that is worth a write.
pub const OVERLAY_LEVEL_MIN_DELTA_STEPS: i32 = 2;

/// What was last written to the overlay state.
#[derive(Clone, Copy, Debug, Default, PartialEq, Eq, Structural)]
pub struct OverlayWriteCache {
    pub initialized: bool,
    pub last_recording: bool,
    pub last_started_at_ms: Option<i64>,
    pub last_level_q: i32,
    pub last_write_at_ms: i64,
}

/// `now - last`, saturated to the range of `i64`.
pub open spec fn elapsed_ms(now: i64, last: i64) -> int {
    let d = now - last;
    if d > i64::MAX {
        i64::MAX as int
    } else if d < i64::MIN {
        i64::MIN as int
    } else {
        d
    }
}

pub open spec fn abs_int(x: int) -> int {
    if x < 0 {
        -x
    } else {
        x
    }
}

/// Whether an update is written: always when nothing was written yet or the
/// recording state or start time changed; when not recording, only on a
/// level change; when recording, at least once per keepalive interval, never
/// within the minimum interval, and otherwise on a level change of at least
/// the minimum delta.
pub open spec fn should_write_spec(
    cache: OverlayWriteCache,
    recording: bool,
    started_at_ms: Option<i64>,
    level_q: i32,
    now_ms: i64,
) -> bool {
    if !cache.initialized || cache.last_recording != recording || cache.last_started_at_ms
        != started_at_ms {
        true
    } else if !recording {
        cache.last_level_q != level_q
    } else {
        let since = elapsed_ms(now_ms, cache.last_write_at_ms);
        if since >= OVERLAY_WRITE_MAX_INTERVAL_MS {
            true
        } else if since < OVERLAY_WRITE_MIN_INTERVAL_MS {
            false
        } else {
            abs_int(cache.last_level_q - level_q) >= OVERLAY_LEVEL_MIN_DELTA_STEPS
        }
    }
}

/// Decides whether an overlay update is written.
pub fn should_write(
    cache: &OverlayWriteCache,
    recording: bool,
    started_at_ms: Option<i64>,
    level_q: i32,
    now_ms: i64,
) -> (r: bool)
    ensures
        r == should_write_spec(*cache, recording, started_at_ms, level_q, now_ms),
{
    if !cache.initialized {
        return true;
    }
    if cache.last_recording != recording {
        return true;
    }
    if cache.last_started_at_ms != started_at_ms {
        return true;
    }
    if !recording {
        return cache.last_level_q != level_q;
    }
    let wide: i128 = now_ms as i128 - cache.last_write_at_ms as i128;
    let since: i64 = if wide > i64::MAX as i128 {
        i64::MAX
    } else if wide < i64::MIN as i128 {
        i64::MIN
    } else {
        wide as i64
    };
    if since >= OVERLAY_WRITE_MAX_INTERVAL_MS {
        return true;
    }
    if since < OVERLAY_WRITE_MIN_INTERVAL_MS {
        return false;
    }
    let delta: i64 = cache.last_level_q as i64 - level_q as i64;
    let magnitude: i64 = if delta < 0 { -delta } else { delta };
    magnitude >= OVERLAY_LEVEL_MIN_DELTA_STEPS as i64
}

impl OverlayWriteCache {
    /// Nothing written yet.
    pub fn empty() -> (r: Self)
        ensures
            !r.initialized,
    {
        OverlayWriteCache {
            initialized: false,
            last_recording: false,
            last_started_at_ms: None,
            last_level_q: 0,
            last_write_at_ms: 0,
        }
    }

    /// The cache after a write of the given state at `now_ms`.
    pub fn written(recording: bool, started_at_ms: Option<i64>, level_q: i32, now_ms: i64) -> (r:
        Self)
        ensures
            r == (OverlayWriteCache {
                initialized: true,
                last_recording: recording,
                last_started_at_ms: started_at_ms,
                last_level_q: level_q,
                last_write_at_ms: now_ms,
            }),
    {
        OverlayWriteCache {
            initialized: true,
            last_recording: recording,
            last_started_at_ms: started_at_ms,
            last_level_q: level_q,
            last_write_at_ms: now_ms,
        }
    }
}

} // verus!
