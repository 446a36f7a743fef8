use whispr::session::{CaptureSession, ChunkFilter};
use whispr::supervisor::{CaptureError, Supervisor};

fn session_with_audio() -> CaptureSession<f32> {
    let filter = ChunkFilter { vad_enabled: false, vad_silence_ms: 300, vad_resume_ms: 200, gate_enabled: false };
    let mut s = CaptureSession::new(16_000, 1, filter);
    s.process_chunk(&[0.1, 0.2, 0.3], true, false);
    s
}

#[test]
fn start_stop_snapshot_lifecycle() {
    let mut sup: Supervisor<CaptureSession<f32>> = Supervisor::new();
    assert!(!sup.is_running());
    assert_eq!(sup.check_start(), Ok(()));
    assert_eq!(sup.finish_start(Ok(session_with_audio())), Ok(()));
    assert!(sup.is_running());

    let err = sup.check_start().unwrap_err();
    assert_eq!(err, CaptureError::AlreadyRunning);
    assert_eq!(err.message(), "Recorder already running");
    assert_eq!(sup.finish_start(Ok(session_with_audio())), Err(CaptureError::AlreadyRunning));

    let snap = sup.snapshot_source().expect("active").snapshot(1);
    assert_eq!(snap.samples, vec![0.2, 0.3]);
    assert_eq!(snap.total_samples, 3);

    let rec = sup.stop().expect("active").into_recorded();
    assert_eq!(rec.samples, vec![0.1, 0.2, 0.3]);
    assert_eq!(rec.sample_rate, 16_000);
    assert_eq!(rec.channels, 1);

    let err = sup.snapshot_source().err().expect("stopped");
    assert_eq!(err, CaptureError::NoActiveRecorder);
    assert_eq!(err.message(), "No active recorder found");
    assert_eq!(sup.stop().err(), Some(CaptureError::NoActiveRecorder));
}

#[test]
fn failed_start_retains_nothing() {
    let mut sup: Supervisor<CaptureSession<f32>> = Supervisor::new();
    let r = sup.finish_start(Err("No input audio device available".to_string()));
    assert_eq!(r, Err(CaptureError::Device("No input audio device available".to_string())));
    assert!(!sup.is_running());
    assert_eq!(r.unwrap_err().message(), "No input audio device available");
}

#[test]
fn error_messages() {
    assert_eq!(CaptureError::LockPoisoned.message(), "audio buffer lock poisoned");
    assert_eq!(CaptureError::WorkerUnavailable.message(), "Audio worker unavailable");
}
