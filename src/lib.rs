//! Decision core of a per-connection attention session: classifying frames,
//! naming state transitions, and choosing what each inbound message causes.

pub mod attention;
pub mod events;
pub mod protocol;
pub mod session;
pub mod landmarks;
pub mod laws;
