use demo_synth::channel::{method_from_id, FrameAction, Reply, SourceFrame, SynthChannel, SynthMethod, VoiceFields};
use demo_synth::protocol::{
    GENERIC_HEADER_CONTENT_LENGTH, GENERIC_HEADER_COUNT, SYNTHESIZER_BARGE_IN_OCCURRED,
    SYNTHESIZER_GET_PARAMS, SYNTHESIZER_HEADER_VOICE_AGE, SYNTHESIZER_HEADER_VOICE_NAME,
    SYNTHESIZER_PAUSE, SYNTHESIZER_RESUME, SYNTHESIZER_SET_PARAMS, SYNTHESIZER_SPEAK,
    SYNTHESIZER_STOP,
};

fn fields_with(ids: &[usize]) -> Vec<bool> {
    let mut f = vec![false; GENERIC_HEADER_COUNT + 30];
    for &i in ids {
        f[i] = true;
    }
    f
}

#[test]
fn method_ids_are_classified() {
    assert_eq!(method_from_id(SYNTHESIZER_SET_PARAMS), SynthMethod::SetParams);
    assert_eq!(method_from_id(SYNTHESIZER_GET_PARAMS), SynthMethod::GetParams);
    assert_eq!(method_from_id(SYNTHESIZER_SPEAK), SynthMethod::Speak);
    assert_eq!(method_from_id(SYNTHESIZER_STOP), SynthMethod::Stop);
    assert_eq!(method_from_id(SYNTHESIZER_PAUSE), SynthMethod::Pause);
    assert_eq!(method_from_id(SYNTHESIZER_RESUME), SynthMethod::Resume);
    assert_eq!(method_from_id(SYNTHESIZER_BARGE_IN_OCCURRED), SynthMethod::BargeInOccurred);
    assert_eq!(method_from_id(7), SynthMethod::Other);
    assert_eq!(method_from_id(u32::MAX), SynthMethod::Other);
}

#[test]
fn fresh_channel_is_idle() {
    let mut c: SynthChannel<u64> = SynthChannel::new();
    assert_eq!(c.speak_request(), None);
    assert_eq!(c.stop_response(), None);
    assert_eq!(c.time_to_complete(), 0);
    assert!(!c.is_paused());
    assert!(!c.has_source());
    assert!(matches!(c.stream_read(), FrameAction::Idle));
}

#[test]
fn unknown_method_sends_plain_response() {
    let mut c: SynthChannel<u64> = SynthChannel::new();
    let r = c.dispatch(8, 11, &fields_with(&[]), true, true);
    assert!(matches!(r, Reply::Send(11)));
}

#[test]
fn method_id_counts_low_bits() {
    let mut c: SynthChannel<u64> = SynthChannel::new();
    let id = ((1u64 << 32) + SYNTHESIZER_PAUSE as u64) as usize;
    let r = c.dispatch(id, 3, &fields_with(&[]), false, true);
    if usize::BITS == 64 {
        assert!(matches!(r, Reply::Send(3)));
        assert!(c.is_paused());
    }
}

#[test]
fn speak_without_codec_fails() {
    let mut c: SynthChannel<u64> = SynthChannel::new();
    let r = c.dispatch(SYNTHESIZER_SPEAK as usize, 4, &fields_with(&[]), false, false);
    assert!(matches!(r, Reply::SendFailed(4)));
    assert_eq!(c.speak_request(), None);
}

#[test]
fn speak_without_source_plays_silence_then_completes() {
    let mut c: SynthChannel<u64> = SynthChannel::new();
    let fields = fields_with(&[GENERIC_HEADER_CONTENT_LENGTH]);
    let r = c.dispatch(SYNTHESIZER_SPEAK as usize, 2, &fields, false, true);
    assert!(matches!(r, Reply::OpenSource));
    let r = c.speak_source(1, 2, false, &fields, Some(3));
    assert!(matches!(r, Reply::SendInProgress(2)));
    assert_eq!(c.speak_request(), Some(1));
    assert_eq!(c.time_to_complete(), 30);
    for left in [20usize, 10, 0] {
        assert!(matches!(c.stream_read(), FrameAction::Silence));
        assert_eq!(c.time_to_complete(), left);
    }
    assert!(matches!(c.stream_read(), FrameAction::Complete(1)));
    // completion is retried until it is reported sent
    assert!(matches!(c.stream_read(), FrameAction::Complete(1)));
    c.speak_complete();
    assert_eq!(c.speak_request(), None);
    assert!(matches!(c.stream_read(), FrameAction::Idle));
}

#[test]
fn speak_without_content_length_completes_at_once() {
    let mut c: SynthChannel<u64> = SynthChannel::new();
    let fields = fields_with(&[]);
    c.speak_source(1, 2, false, &fields, Some(3));
    assert_eq!(c.time_to_complete(), 0);
    assert!(matches!(c.stream_read(), FrameAction::Complete(1)));
}

#[test]
fn speak_content_length_without_generic_header() {
    let mut c: SynthChannel<u64> = SynthChannel::new();
    let fields = fields_with(&[GENERIC_HEADER_CONTENT_LENGTH]);
    c.speak_source(1, 2, false, &fields, None);
    assert_eq!(c.time_to_complete(), 0);
}

#[test]
fn speak_with_source_reads_frames() {
    let mut c: SynthChannel<u64> = SynthChannel::new();
    let fields = fields_with(&[GENERIC_HEADER_CONTENT_LENGTH]);
    c.speak_source(5, 6, true, &fields, Some(100));
    assert!(c.has_source());
    assert_eq!(c.time_to_complete(), 0);
    assert!(matches!(c.stream_read(), FrameAction::ReadSource(5)));
    assert!(matches!(SynthChannel::source_frame(5u64, 160, Some(160)), SourceFrame::Audio));
    assert!(matches!(SynthChannel::source_frame(5u64, 160, Some(20)), SourceFrame::Complete(5)));
    assert!(matches!(SynthChannel::source_frame(5u64, 160, None), SourceFrame::Complete(5)));
    c.speak_complete();
    assert!(!c.has_source());
    assert_eq!(c.speak_request(), None);
}

#[test]
fn stop_is_answered_at_next_frame() {
    let mut c: SynthChannel<u64> = SynthChannel::new();
    let fields = fields_with(&[GENERIC_HEADER_CONTENT_LENGTH]);
    c.speak_source(1, 2, true, &fields, None);
    c.dispatch(SYNTHESIZER_PAUSE as usize, 3, &fields, false, true);
    let r = c.dispatch(SYNTHESIZER_STOP as usize, 4, &fields, false, true);
    assert!(matches!(r, Reply::Hold));
    assert_eq!(c.stop_response(), Some(4));
    assert!(matches!(c.stream_read(), FrameAction::SendStopResponse(4)));
    assert_eq!(c.speak_request(), None);
    assert_eq!(c.stop_response(), None);
    assert!(!c.is_paused());
    assert!(!c.has_source());
    assert!(matches!(c.stream_read(), FrameAction::Idle));
}

#[test]
fn barge_in_acts_as_stop() {
    let mut c: SynthChannel<u64> = SynthChannel::new();
    let fields = fields_with(&[]);
    let r = c.dispatch(SYNTHESIZER_BARGE_IN_OCCURRED as usize, 9, &fields, false, true);
    assert!(matches!(r, Reply::Hold));
    assert!(matches!(c.stream_read(), FrameAction::SendStopResponse(9)));
}

#[test]
fn pause_and_resume() {
    let mut c: SynthChannel<u64> = SynthChannel::new();
    let fields = fields_with(&[GENERIC_HEADER_CONTENT_LENGTH]);
    c.speak_source(1, 2, false, &fields, Some(2));
    let r = c.dispatch(SYNTHESIZER_PAUSE as usize, 3, &fields, false, true);
    assert!(matches!(r, Reply::Send(3)));
    assert!(c.is_paused());
    assert!(matches!(c.stream_read(), FrameAction::Idle));
    assert_eq!(c.time_to_complete(), 20);
    let r = c.dispatch(SYNTHESIZER_RESUME as usize, 5, &fields, false, true);
    assert!(matches!(r, Reply::Send(5)));
    assert!(!c.is_paused());
    assert!(matches!(c.stream_read(), FrameAction::Silence));
    assert_eq!(c.time_to_complete(), 10);
}

#[test]
fn params_report_voice_fields() {
    let mut c: SynthChannel<u64> = SynthChannel::new();
    let fields = fields_with(&[GENERIC_HEADER_COUNT + SYNTHESIZER_HEADER_VOICE_AGE]);
    let r = c.dispatch(SYNTHESIZER_GET_PARAMS as usize, 1, &fields, true, true);
    assert!(matches!(r, Reply::SendParams(1, Some(VoiceFields { age: true, name: false }))));
    let fields = fields_with(&[GENERIC_HEADER_COUNT + SYNTHESIZER_HEADER_VOICE_NAME]);
    let r = c.dispatch(SYNTHESIZER_SET_PARAMS as usize, 2, &fields, true, true);
    assert!(matches!(r, Reply::SendParamsSet(2, Some(VoiceFields { age: false, name: true }))));
    let r = c.dispatch(SYNTHESIZER_GET_PARAMS as usize, 3, &fields, false, true);
    assert!(matches!(r, Reply::SendParams(3, None)));
    // a generic field with the same index does not count as a voice field
    let fields = fields_with(&[SYNTHESIZER_HEADER_VOICE_AGE]);
    let r = c.dispatch(SYNTHESIZER_GET_PARAMS as usize, 4, &fields, true, true);
    assert!(matches!(r, Reply::SendParams(4, Some(VoiceFields { age: false, name: false }))));
}
