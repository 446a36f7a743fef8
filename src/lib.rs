//! Recording engine of a voice-dictation tool: bounded capture buffer with
//! absolute sample indexing, voice-activity hysteresis, stream-format
//! negotiation and the capture supervisor's command rules, together with the
//! paste-method resolution and overlay throttling rules around them.

pub mod automation;
pub mod capture;
pub mod devices;
pub mod embedding;
pub mod negotiate;
pub mod overlay;
pub mod runtime;
pub mod session;
pub mod supervisor;
pub mod text;
pub mod vad;
