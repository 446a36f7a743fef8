use whispr::capture::{max_samples_for, CaptureBuffer, MAX_RECORDING_SECONDS};
use whispr::session::{CaptureSession, ChunkFilter};
use whispr::vad::{chunk_duration_ms, VadState};

fn ramp(from: i32, to: i32) -> Vec<i32> {
    (from..to).collect()
}

#[test]
fn retention_bound_follows_format() {
    assert_eq!(max_samples_for(48_000, 2), 48_000 * 2 * MAX_RECORDING_SECONDS as usize);
    assert_eq!(max_samples_for(0, 0), 600);
    assert_eq!(max_samples_for(u32::MAX, u16::MAX), (u32::MAX as usize) * (u16::MAX as usize) * 600);
}

#[test]
fn appends_stay_within_bound_and_count_written_samples() {
    let mut buf: CaptureBuffer<i32> = CaptureBuffer::new(1, 1);
    assert_eq!(buf.max_samples(), 600);
    let mut next = 0;
    for size in [250, 250, 250, 5, 600, 1, 0, 599] {
        let chunk = ramp(next, next + size);
        buf.append(&chunk);
        next += size;
        assert!(buf.len() <= buf.max_samples());
        assert_eq!(buf.total_samples(), next as usize);
        assert_eq!(buf.len(), (next as usize).min(600));
        // the oldest retained sample has absolute index total - len
        let snap = buf.snapshot(0);
        if let Some(first) = snap.samples.first() {
            assert_eq!(*first as usize, buf.total_samples() - buf.len());
        }
    }
}

#[test]
fn oversized_chunk_keeps_only_its_tail() {
    let mut buf: CaptureBuffer<i32> = CaptureBuffer::new(1, 1);
    buf.append(&ramp(0, 100));
    buf.append(&ramp(1000, 2000));
    let snap = buf.snapshot(0);
    assert_eq!(snap.samples.len(), 600);
    assert_eq!(snap.samples, ramp(1400, 2000));
    // only the admitted part of the oversized chunk is counted
    assert_eq!(snap.total_samples, 700);
}

#[test]
fn snapshot_from_zero_returns_everything_retained() {
    let mut buf: CaptureBuffer<f32> = CaptureBuffer::new(1, 1);
    buf.append(&[0.5, -0.5, 0.25]);
    let snap = buf.snapshot(0);
    assert_eq!(snap.samples, vec![0.5, -0.5, 0.25]);
    assert_eq!(snap.total_samples, 3);
    assert_eq!(snap.sample_rate, 1);
    assert_eq!(snap.channels, 1);
}

#[test]
fn snapshot_past_total_is_empty_with_total() {
    let mut buf: CaptureBuffer<i32> = CaptureBuffer::new(1, 1);
    buf.append(&ramp(0, 100));
    buf.append(&ramp(100, 700));
    let snap = buf.snapshot(700);
    assert!(snap.samples.is_empty());
    assert_eq!(snap.total_samples, 700);
    let snap = buf.snapshot(usize::MAX);
    assert!(snap.samples.is_empty());
    assert_eq!(snap.total_samples, 700);
}

#[test]
fn snapshot_uses_absolute_indices() {
    let mut buf: CaptureBuffer<i32> = CaptureBuffer::new(1, 1);
    buf.append(&ramp(0, 50));
    buf.append(&ramp(50, 650));
    assert_eq!(buf.total_samples(), 650);
    // retained: 50..650; an index before 50 yields all of it
    assert_eq!(buf.snapshot(10).samples, ramp(50, 650));
    assert_eq!(buf.snapshot(640).samples, ramp(640, 650));
}

#[test]
fn empty_buffer_into_recorded() {
    let buf: CaptureBuffer<i32> = CaptureBuffer::new(16_000, 1);
    let rec = buf.into_recorded();
    assert!(rec.samples.is_empty());
    assert_eq!(rec.sample_rate, 16_000);
    assert_eq!(rec.channels, 1);
}

#[test]
fn chunk_duration_from_frames() {
    assert_eq!(chunk_duration_ms(480, 1, 48_000), 10);
    assert_eq!(chunk_duration_ms(960, 2, 48_000), 10);
    assert_eq!(chunk_duration_ms(100, 0, 0), 100_000);
    assert_eq!(chunk_duration_ms(1, 2, 48_000), 0);
}

#[test]
fn vad_hysteresis_with_hundred_ms_chunks() {
    let (silence, resume, ms) = (300, 200, 100);
    let mut s = VadState::initial(false);
    assert!(s.active);
    s.step(false, ms, silence, resume);
    s.step(false, ms, silence, resume);
    assert!(s.active);
    s.step(false, ms, silence, resume);
    assert!(!s.active);
    assert_eq!(s.speech_ms, 0);
    s.step(true, ms, silence, resume);
    assert!(!s.active);
    assert_eq!(s.speech_ms, 100);
    s.step(true, ms, silence, resume);
    assert!(s.active);
    assert_eq!(s.silence_ms, 0);
}

#[test]
fn vad_quiet_chunk_resets_speech_and_loud_chunk_resets_silence() {
    let mut s = VadState::initial(true);
    assert!(!s.active);
    s.step(true, 150, 300, 400);
    assert_eq!(s.speech_ms, 150);
    s.step(false, 150, 300, 400);
    assert_eq!(s.speech_ms, 0);
    assert!(!s.active);
    let mut a = VadState { active: true, silence_ms: 250, speech_ms: 0 };
    a.step(true, 100, 300, 200);
    assert_eq!(a.silence_ms, 0);
    assert!(a.active);
    let mut sat = VadState { active: true, silence_ms: u32::MAX - 1, speech_ms: 0 };
    sat.step(false, 10, u32::MAX, 200);
    assert_eq!(sat.silence_ms, u32::MAX);
    assert!(!sat.active);
}

fn filter(vad_enabled: bool, gate_enabled: bool) -> ChunkFilter {
    ChunkFilter { vad_enabled, vad_silence_ms: 300, vad_resume_ms: 200, gate_enabled }
}

#[test]
fn noise_gate_drops_quiet_chunk_without_counting() {
    let mut s: CaptureSession<f32> = CaptureSession::new(1000, 1, filter(false, true));
    assert!(s.process_chunk(&[0.5; 100], false, false));
    assert_eq!(s.buffer().total_samples(), 100);
    assert!(!s.process_chunk(&[0.01; 100], false, true));
    assert_eq!(s.buffer().total_samples(), 100);
    assert_eq!(s.buffer().len(), 100);
}

#[test]
fn disabled_noise_gate_keeps_quiet_chunk() {
    let mut s: CaptureSession<f32> = CaptureSession::new(1000, 1, filter(false, false));
    assert!(s.process_chunk(&[0.01; 10], false, true));
    assert_eq!(s.buffer().total_samples(), 10);
}

#[test]
fn vad_suppresses_until_speech_is_proven() {
    let mut s: CaptureSession<i32> = CaptureSession::new(1000, 1, filter(true, false));
    assert!(!s.vad().active);
    // 100 samples at 1000 Hz are 100 ms
    assert!(!s.process_chunk(&ramp(0, 100), true, false));
    assert_eq!(s.buffer().total_samples(), 0);
    assert!(s.process_chunk(&ramp(100, 200), true, false));
    assert_eq!(s.buffer().snapshot(0).samples, ramp(100, 200));
    assert!(s.process_chunk(&ramp(200, 300), false, false));
    assert!(s.process_chunk(&ramp(300, 400), false, false));
    assert!(!s.process_chunk(&ramp(400, 500), false, false));
    assert_eq!(s.buffer().total_samples(), 300);
}

#[test]
fn vad_runs_before_noise_gate() {
    let mut s: CaptureSession<i32> = CaptureSession::new(1000, 1, filter(true, true));
    // loud for the voice gate but under the noise gate: the voice gate still advances
    assert!(!s.process_chunk(&ramp(0, 100), true, true));
    assert!(!s.process_chunk(&ramp(0, 100), true, true));
    assert!(s.vad().active);
    assert_eq!(s.buffer().total_samples(), 0);
    assert!(s.process_chunk(&ramp(0, 100), true, false));
    assert_eq!(s.buffer().total_samples(), 100);
}

#[test]
fn empty_chunk_changes_nothing() {
    let mut s: CaptureSession<i32> = CaptureSession::new(1000, 1, filter(true, false));
    assert!(!s.process_chunk(&[], true, false));
    assert_eq!(s.vad(), VadState { active: false, silence_ms: 0, speech_ms: 0 });
}
