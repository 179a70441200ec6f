use demo_synth::engine::{
    codec_attribs, process_task_msg, reported_voice_name, source_codec_attribs,
    source_codec_name, task_name, Engine, TaskAction, TaskMsg, SOURCE_SAMPLE_RATES,
};
use demo_synth::header::c_str_len;
use demo_synth::protocol::{MPF_SAMPLE_RATE_16000, MPF_SAMPLE_RATE_8000, REPORTED_VOICE_AGE};

#[test]
fn engine_needs_a_task() {
    assert!(Engine::<u32>::create(None).is_none());
    let e = Engine::create(Some(7u32)).unwrap();
    assert_eq!(e.task, Some(7));
}

#[test]
fn engine_lifecycle() {
    let mut e = Engine::create(Some(7u32)).unwrap();
    assert_eq!(e.open(), Some(7));
    assert_eq!(e.close(), Some(7));
    assert_eq!(e.destroy(), Some(7));
    assert_eq!(e.task, None);
    assert_eq!(e.destroy(), None);
    assert_eq!(e.open(), None);
    assert_eq!(e.close(), None);
}

#[test]
fn task_messages() {
    assert!(matches!(process_task_msg::<u8, u16>(TaskMsg::OpenChannel(1)), TaskAction::RespondOpen(1, true)));
    assert!(matches!(process_task_msg::<u8, u16>(TaskMsg::CloseChannel(2)), TaskAction::RespondClose(2)));
    assert!(matches!(process_task_msg::<u8, u16>(TaskMsg::RequestProcess(3, 4)), TaskAction::Dispatch(3, 4)));
}

#[test]
fn codec_capability() {
    assert_eq!(&source_codec_name(), b"LPCM\0");
    assert_eq!(SOURCE_SAMPLE_RATES, MPF_SAMPLE_RATE_8000 | MPF_SAMPLE_RATE_16000);
    assert_eq!(SOURCE_SAMPLE_RATES, 3);
    let a = source_codec_attribs();
    assert_eq!(a.name.length, 4);
    assert!(a.name.copy);
    assert_eq!(a.sample_rates, 3);
    assert_eq!(a.bits_per_sample, 0);
    let b = codec_attribs(1, b"\0");
    assert_eq!(b.name.length, 0);
    assert!(!b.name.copy);
    assert_eq!(b.sample_rates, 1);
}

#[test]
fn fixed_names() {
    assert_eq!(&task_name(), b"DemoSynth Engine\0");
    assert_eq!(&reported_voice_name(), b"David\0");
    assert_eq!(c_str_len(&reported_voice_name()), 5);
    assert_eq!(REPORTED_VOICE_AGE, 25);
}
