//! Decision logic of a demonstration speech-synthesizer engine plugged into a
//! UniMRCP server: which MRCP requests change the channel state, what each
//! request is answered, what every audio frame carries, and when a SPEAK
//! request completes.
//!
//! The library owns no C memory. The plugin glue hands it plain values (header
//! presence flags, request handles, outcomes of file reads) and performs the
//! actions that the library returns.

pub mod protocol;
pub mod header;
pub mod channel;
pub mod laws;
pub mod engine;
