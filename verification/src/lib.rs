//! Decision logic of a hand-tracking musical instrument: finger debouncing,
//! per-hand tracking, voice control, palm-detector decoding geometry and the
//! capture and session state machines. Image processing, audio synthesis and
//! all floating-point arithmetic live with the caller.

pub mod debounce;
pub mod tracking;
pub mod voices;
pub mod anchors;
pub mod geometry;
pub mod palm_decode;
pub mod landmarks;
pub mod capture;
pub mod session;
