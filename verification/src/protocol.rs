//! Numeric identifiers of the MRCP synthesizer resource, as UniMRCP numbers
//! them, and the fixed parameters of the demonstration engine.

use vstd::prelude::*;

verus! {

/// `SET-PARAMS` method.
pub const SYNTHESIZER_SET_PARAMS: u32 = 0;
/// `GET-PARAMS` method.
pub const SYNTHESIZER_GET_PARAMS: u32 = 1;
/// `SPEAK` method.
pub const SYNTHESIZER_SPEAK: u32 = 2;
/// `STOP` method.
pub const SYNTHESIZER_STOP: u32 = 3;
/// `PAUSE` method.
pub const SYNTHESIZER_PAUSE: u32 = 4;
/// `RESUME` method.
pub const SYNTHESIZER_RESUME: u32 = 5;
/// `BARGE-IN-OCCURRED` method.
pub const SYNTHESIZER_BARGE_IN_OCCURRED: u32 = 6;

/// `SPEAK-COMPLETE` event.
pub const SYNTHESIZER_SPEAK_COMPLETE: usize = 1;

/// `Content-Length` among the generic headers.
pub const GENERIC_HEADER_CONTENT_LENGTH: usize = 8;
/// Number of generic headers; resource headers are numbered after them in a
/// message's header section.
pub const GENERIC_HEADER_COUNT: usize = 16;

/// `Completion-Cause` synthesizer header.
pub const SYNTHESIZER_HEADER_COMPLETION_CAUSE: usize = 3;
/// `Voice-Age` synthesizer header.
pub const SYNTHESIZER_HEADER_VOICE_AGE: usize = 6;
/// `Voice-Name` synthesizer header.
pub const SYNTHESIZER_HEADER_VOICE_NAME: usize = 8;

/// Sample-rate flag for 8 kHz.
pub const MPF_SAMPLE_RATE_8000: i32 = 1;
/// Sample-rate flag for 16 kHz.
pub const MPF_SAMPLE_RATE_16000: i32 = 2;

/// Duration of one audio frame, in milliseconds.
pub const FRAME_DURATION_MS: usize = 10;
/// Milliseconds of silence played per unit of a SPEAK request's
/// `Content-Length` when no speech source can be opened.
pub const MS_PER_CONTENT_UNIT: usize = 10;

/// Voice age that `GET-PARAMS` reports.
pub const REPORTED_VOICE_AGE: usize = 25;

} // verus!
