//! Command rules of the capture supervisor, the single owner of the active
//! recorder. The recorder type is left open: the supervisor only decides
//! which command succeeds and what happens to the recorder it holds.
use vstd::prelude::*;
use vstd::string::*;

verus! {

/// Why a capture command failed.
#[derive(Clone, Debug, PartialEq, Eq)]
pub enum CaptureError {
    /// `Start` while a recorder is active.
    AlreadyRunning,
    /// `Stop` or `Snapshot` while no recorder is active.
    NoActiveRecorder,
    /// The capture buffer's lock was poisoned.
    LockPoisoned,
    /// The supervisor no longer answers.
    WorkerUnavailable,
    /// The device or stream could not be set up; the text says why.
    Device(String),
}

/// The text reported for each error.
pub open spec fn error_message(e: CaptureError) -> Seq<char> {
    match e {
        CaptureError::AlreadyRunning => "Recorder already running"@,
        CaptureError::NoActiveRecorder => "No active recorder found"@,
        CaptureError::LockPoisoned => "audio buffer lock poisoned"@,
        CaptureError::WorkerUnavailable => "Audio worker unavailable"@,
        CaptureError::Device(msg) => msg@,
    }
}

impl CaptureError {
    pub fn message(&self) -> (r: String)
        ensures
            r@ == error_message(*self),
    {
        match self {
            CaptureError::AlreadyRunning => String::from_str("Recorder already running"),
            CaptureError::NoActiveRecorder => String::from_str("No active recorder found"),
            CaptureError::LockPoisoned => String::from_str("audio buffer lock poisoned"),
            CaptureError::WorkerUnavailable => String::from_str("Audio worker unavailable"),
            CaptureError::Device(msg) => msg.clone(),
        }
    }
}

/// Whether a `Start` may go on to set up a device.
pub open spec fn start_allowed<R>(cur: Option<R>) -> Result<(), CaptureError> {
    if cur is Some {
        Err(CaptureError::AlreadyRunning)
    } else {
        Ok(())
    }
}

/// State and reply after a `Start` whose recorder setup gave `outcome`.
pub open spec fn start_step<R>(cur: Option<R>, outcome: Result<R, String>) -> (Option<R>, Result<
    (),
    CaptureError,
>) {
    if cur is Some {
        (cur, Err(CaptureError::AlreadyRunning))
    } else {
        match outcome {
            Ok(rec) => (Some(rec), Ok(())),
            Err(msg) => (None, Err(CaptureError::Device(msg))),
        }
    }
}

/// State and reply after a `Stop`: the recorder leaves the supervisor.
pub open spec fn stop_step<R>(cur: Option<R>) -> (Option<R>, Result<R, CaptureError>) {
    match cur {
        Some(rec) => (None, Ok(rec)),
        None => (None, Err(CaptureError::NoActiveRecorder)),
    }
}

/// Which recorder a `Snapshot` reads, if any.
pub open spec fn snapshot_target<R>(cur: Option<R>) -> Result<R, CaptureError> {
    match cur {
        Some(rec) => Ok(rec),
        None => Err(CaptureError::NoActiveRecorder),
    }
}

/// Holds at most one active recorder and serializes commands on it.
pub struct Supervisor<R> {
    active: Option<R>,
}

impl<R> Supervisor<R> {
    pub closed spec fn current(&self) -> Option<R> {
        self.active
    }

    pub fn new() -> (r: Self)
        ensures
            r.current() is None,
    {
        Supervisor { active: None }
    }

    pub fn is_running(&self) -> (r: bool)
        ensures
            r == self.current() is Some,
    {
        self.active.is_some()
    }

    /// First half of `Start`: refuses when a recorder is already active.
    pub fn check_start(&self) -> (r: Result<(), CaptureError>)
        ensures
            r == start_allowed(self.current()),
    {
        if self.active.is_some() {
            Err(CaptureError::AlreadyRunning)
        } else {
            Ok(())
        }
    }

    /// Second half of `Start`: keeps the recorder that setup produced, or
    /// reports why setup failed, retaining nothing.
    pub fn finish_start(&mut self, outcome: Result<R, String>) -> (r: Result<(), CaptureError>)
        ensures
            (final(self).current(), r) == start_step(old(self).current(), outcome),
    {
        if self.active.is_some() {
            return Err(CaptureError::AlreadyRunning);
        }
        match outcome {
            Ok(rec) => {
                self.active = Some(rec);
                Ok(())
            },
            Err(msg) => Err(CaptureError::Device(msg)),
        }
    }

    /// `Stop`: hands the active recorder over for teardown.
    pub fn stop(&mut self) -> (r: Result<R, CaptureError>)
        ensures
            (final(self).current(), r) == stop_step(old(self).current()),
    {
        match self.active.take() {
            Some(rec) => Ok(rec),
            None => Err(CaptureError::NoActiveRecorder),
        }
    }

    /// `Snapshot`: the recorder to read from, without any change.
    pub fn snapshot_source(&self) -> (r: Result<&R, CaptureError>)
        ensures
            match r {
                Ok(rec) => snapshot_target(self.current()) == Ok::<R, CaptureError>(*rec),
                Err(e) => snapshot_target(self.current()) == Err::<R, CaptureError>(e),
            },
    {
        match &self.active {
            Some(rec) => Ok(rec),
            None => Err(CaptureError::NoActiveRecorder),
        }
    }
}

/// A session's command lifecycle: a `Start` while idle keeps the new
/// recorder; a second `Start` before `Stop` is refused with "already
/// running" and leaves it in place; `Stop` hands that same recorder back;
/// after it, `Snapshot` and another `Stop` fail with "no active recorder".
pub proof fn lemma_command_lifecycle<R>(rec: R, second: Result<R, String>)
    ensures
        ({
            let (s1, r1) = start_step(None::<R>, Ok::<R, String>(rec));
            let (s2, r2) = start_step(s1, second);
            let (s3, r3) = stop_step(s2);
            &&& start_allowed(None::<R>) == Ok::<(), CaptureError>(())
            &&& r1 == Ok::<(), CaptureError>(()) && s1 == Some(rec)
            &&& start_allowed(s1) == Err::<(), CaptureError>(CaptureError::AlreadyRunning)
            &&& r2 == Err::<(), CaptureError>(CaptureError::AlreadyRunning) && s2 == s1
            &&& r3 == Ok::<R, CaptureError>(rec) && s3 is None
            &&& snapshot_target(s3) == Err::<R, CaptureError>(CaptureError::NoActiveRecorder)
            &&& stop_step(s3).1 == Err::<R, CaptureError>(CaptureError::NoActiveRecorder)
        }),
{
}

} // verus!
