//! The synthesizer channel: what each MRCP request does to it, what it
//! answers, and what every audio frame that the media engine asks for carries.
//!
//! A channel is generic over `H`, the handle by which the server designates a
//! message (a request or a response). The library only stores and hands back
//! handles; it never looks into them.

use vstd::prelude::*;
use crate::header::{field_present, generic_property_present, resource_property_present};
use crate::protocol::{
    FRAME_DURATION_MS, GENERIC_HEADER_CONTENT_LENGTH, GENERIC_HEADER_COUNT, MS_PER_CONTENT_UNIT,
    SYNTHESIZER_BARGE_IN_OCCURRED, SYNTHESIZER_GET_PARAMS, SYNTHESIZER_HEADER_VOICE_AGE,
    SYNTHESIZER_HEADER_VOICE_NAME, SYNTHESIZER_PAUSE, SYNTHESIZER_RESUME, SYNTHESIZER_SET_PARAMS,
    SYNTHESIZER_SPEAK, SYNTHESIZER_STOP,
};

verus! {

/// What the synthesizer's logic knows of a channel.
pub struct ChannelView<H> {
    /// The SPEAK request in progress.
    pub speak_request: Option<H>,
    /// The response to a STOP (or BARGE-IN-OCCURRED) request, held until the
    /// next audio frame.
    pub stop_response: Option<H>,
    /// Milliseconds of silence still to play when no speech source is open.
    pub time_to_complete: nat,
    /// Whether speech output is paused.
    pub paused: bool,
    /// Whether a speech source (the audio file) is open.
    pub has_source: bool,
}

impl<H> ChannelView<H> {
    /// What every channel satisfies: a speech source belongs to a SPEAK in
    /// progress and leaves no silence to play, and silence is counted in
    /// whole frames.
    pub open spec fn wf(self) -> bool {
        &&& self.has_source ==> self.speak_request is Some
        &&& self.has_source ==> self.time_to_complete == 0
        &&& self.time_to_complete % (FRAME_DURATION_MS as nat) == 0
    }
}

/// A fresh channel: nothing to speak, nothing held, not paused.
pub open spec fn initial_view<H>() -> ChannelView<H> {
    ChannelView {
        speak_request: None,
        stop_response: None,
        time_to_complete: 0,
        paused: false,
        has_source: false,
    }
}

/// The MRCP synthesizer methods that the engine tells apart.
#[derive(Debug, Clone, Copy, PartialEq, Eq, Structural)]
pub enum SynthMethod {
    SetParams,
    GetParams,
    Speak,
    Stop,
    Pause,
    Resume,
    BargeInOccurred,
    /// Any other method: answered with the plain response.
    Other,
}

/// The method that an MRCP method identifier designates.
pub open spec fn method_of(id: u32) -> SynthMethod {
    if id == SYNTHESIZER_SET_PARAMS {
        SynthMethod::SetParams
    } else if id == SYNTHESIZER_GET_PARAMS {
        SynthMethod::GetParams
    } else if id == SYNTHESIZER_SPEAK {
        SynthMethod::Speak
    } else if id == SYNTHESIZER_STOP {
        SynthMethod::Stop
    } else if id == SYNTHESIZER_PAUSE {
        SynthMethod::Pause
    } else if id == SYNTHESIZER_RESUME {
        SynthMethod::Resume
    } else if id == SYNTHESIZER_BARGE_IN_OCCURRED {
        SynthMethod::BargeInOccurred
    } else {
        SynthMethod::Other
    }
}

/// Classifies an MRCP method identifier.
pub fn method_from_id(id: u32) -> (m: SynthMethod)
    ensures
        m == method_of(id),
        id == SYNTHESIZER_SET_PARAMS ==> m == SynthMethod::SetParams,
        id == SYNTHESIZER_GET_PARAMS ==> m == SynthMethod::GetParams,
        id == SYNTHESIZER_SPEAK ==> m == SynthMethod::Speak,
        id == SYNTHESIZER_STOP ==> m == SynthMethod::Stop,
        id == SYNTHESIZER_PAUSE ==> m == SynthMethod::Pause,
        id == SYNTHESIZER_RESUME ==> m == SynthMethod::Resume,
        id == SYNTHESIZER_BARGE_IN_OCCURRED ==> m == SynthMethod::BargeInOccurred,
        id > SYNTHESIZER_BARGE_IN_OCCURRED ==> m == SynthMethod::Other,
{
    if id == SYNTHESIZER_SET_PARAMS {
        SynthMethod::SetParams
    } else if id == SYNTHESIZER_GET_PARAMS {
        SynthMethod::GetParams
    } else if id == SYNTHESIZER_SPEAK {
        SynthMethod::Speak
    } else if id == SYNTHESIZER_STOP {
        SynthMethod::Stop
    } else if id == SYNTHESIZER_PAUSE {
        SynthMethod::Pause
    } else if id == SYNTHESIZER_RESUME {
        SynthMethod::Resume
    } else if id == SYNTHESIZER_BARGE_IN_OCCURRED {
        SynthMethod::BargeInOccurred
    } else {
        SynthMethod::Other
    }
}

/// Which voice parameters a request's synthesizer header sets.
#[derive(Debug, Clone, Copy, PartialEq, Eq, Structural)]
pub struct VoiceFields {
    /// `Voice-Age` is set.
    pub age: bool,
    /// `Voice-Name` is set.
    pub name: bool,
}

/// The voice parameters of a request with header presence flags `fields`;
/// `None` when the request has no synthesizer header.
pub open spec fn voice_fields(fields: Seq<bool>, has_resource_header: bool) -> Option<VoiceFields> {
    if has_resource_header {
        Some(
            VoiceFields {
                age: field_present(fields, SYNTHESIZER_HEADER_VOICE_AGE + GENERIC_HEADER_COUNT),
                name: field_present(fields, SYNTHESIZER_HEADER_VOICE_NAME + GENERIC_HEADER_COUNT),
            },
        )
    } else {
        None
    }
}

/// Reads which voice parameters a request sets.
pub fn request_voice_fields(fields: &[bool], has_resource_header: bool) -> (v: Option<VoiceFields>)
    ensures
        v == voice_fields(fields@, has_resource_header),
        !has_resource_header ==> v is None,
        has_resource_header ==> v == Some(
            VoiceFields {
                age: field_present(fields@, SYNTHESIZER_HEADER_VOICE_AGE + GENERIC_HEADER_COUNT),
                name: field_present(fields@, SYNTHESIZER_HEADER_VOICE_NAME + GENERIC_HEADER_COUNT),
            },
        ),
{
    if has_resource_header {
        Some(
            VoiceFields {
                age: resource_property_present(fields, SYNTHESIZER_HEADER_VOICE_AGE),
                name: resource_property_present(fields, SYNTHESIZER_HEADER_VOICE_NAME),
            },
        )
    } else {
        None
    }
}

/// What to do with the response to a request.
#[derive(Debug)]
pub enum Reply<H> {
    /// Send the response as it is.
    Send(H),
    /// Send the response after reporting the voice parameters that the
    /// request sets (`None`: the request has no synthesizer header).
    SendParamsSet(H, Option<VoiceFields>),
    /// Send the response carrying the voice parameters that the request asks
    /// for (`None`: the request has no synthesizer header, and the response
    /// gets none either).
    SendParams(H, Option<VoiceFields>),
    /// Send the response with the status code "method failed".
    SendFailed(H),
    /// Send the response with the request state "in progress".
    SendInProgress(H),
    /// Send nothing now: the response is held by the channel.
    Hold,
    /// Try to open the speech source, then finish the SPEAK request with
    /// [`SynthChannel::speak_source`].
    OpenSource,
}

/// The response that a reply sends now, if any.
pub open spec fn sent_response<H>(reply: Reply<H>) -> Option<H> {
    match reply {
        Reply::Send(r) => Some(r),
        Reply::SendParamsSet(r, _) => Some(r),
        Reply::SendParams(r, _) => Some(r),
        Reply::SendFailed(r) => Some(r),
        Reply::SendInProgress(r) => Some(r),
        Reply::Hold => None,
        Reply::OpenSource => None,
    }
}

/// A request of method `method`, whose response is `response`, arrives at a
/// channel in state `v`. `fields` and `has_resource_header` describe the
/// request's header; `codec_available` tells whether the channel's source
/// stream has a codec.
pub open spec fn dispatch_step<H>(
    v: ChannelView<H>,
    method: SynthMethod,
    response: H,
    fields: Seq<bool>,
    has_resource_header: bool,
    codec_available: bool,
) -> (ChannelView<H>, Reply<H>) {
    match method {
        SynthMethod::SetParams => (v, Reply::SendParamsSet(response, voice_fields(fields, has_resource_header))),
        SynthMethod::GetParams => (v, Reply::SendParams(response, voice_fields(fields, has_resource_header))),
        SynthMethod::Speak => if codec_available {
            (v, Reply::OpenSource)
        } else {
            (v, Reply::SendFailed(response))
        },
        SynthMethod::Stop | SynthMethod::BargeInOccurred => (
            ChannelView { stop_response: Some(response), ..v },
            Reply::Hold,
        ),
        SynthMethod::Pause => (ChannelView { paused: true, ..v }, Reply::Send(response)),
        SynthMethod::Resume => (ChannelView { paused: false, ..v }, Reply::Send(response)),
        SynthMethod::Other => (v, Reply::Send(response)),
    }
}

/// Milliseconds of silence that a SPEAK request asks for: its
/// `Content-Length` scaled, when no speech source is open and the request
/// carries that header; zero otherwise.
pub open spec fn speak_duration(opened: bool, fields: Seq<bool>, content_length: Option<usize>) -> nat {
    if !opened && field_present(fields, GENERIC_HEADER_CONTENT_LENGTH as int) && content_length is Some {
        (content_length->0 * MS_PER_CONTENT_UNIT) as nat
    } else {
        0
    }
}

/// The SPEAK request `request` starts, once the speech source was (`opened`)
/// or was not opened.
pub open spec fn speak_step<H>(
    v: ChannelView<H>,
    request: H,
    response: H,
    opened: bool,
    fields: Seq<bool>,
    content_length: Option<usize>,
) -> (ChannelView<H>, Reply<H>) {
    (
        ChannelView {
            speak_request: Some(request),
            time_to_complete: speak_duration(opened, fields, content_length),
            has_source: opened,
            ..v
        },
        Reply::SendInProgress(response),
    )
}

/// What an audio frame carries.
#[derive(Debug)]
pub enum FrameAction<H> {
    /// Send the held STOP response; the frame stays empty.
    SendStopResponse(H),
    /// Read the frame from the speech source of SPEAK request `H`, then ask
    /// [`SynthChannel::source_frame`] what it carries.
    ReadSource(H),
    /// Fill the frame with silence and mark it as audio.
    Silence,
    /// SPEAK request `H` is done: send its SPEAK-COMPLETE event, and on
    /// success report it with [`SynthChannel::speak_complete`].
    Complete(H),
    /// Nothing to play.
    Idle,
}

/// The media engine asks a channel in state `v` for an audio frame.
pub open spec fn frame_step<H>(v: ChannelView<H>) -> (ChannelView<H>, FrameAction<H>) {
    match v.stop_response {
        Some(r) => (
            ChannelView {
                speak_request: None,
                stop_response: None,
                paused: false,
                has_source: false,
                ..v
            },
            FrameAction::SendStopResponse(r),
        ),
        None => match v.speak_request {
            Some(req) => if v.paused {
                (v, FrameAction::Idle)
            } else if v.has_source {
                (v, FrameAction::ReadSource(req))
            } else if v.time_to_complete >= FRAME_DURATION_MS {
                (
                    ChannelView { time_to_complete: (v.time_to_complete - FRAME_DURATION_MS) as nat, ..v },
                    FrameAction::Silence,
                )
            } else {
                (v, FrameAction::Complete(req))
            },
            None => (v, FrameAction::Idle),
        },
    }
}

/// What a frame read from the speech source carries.
#[derive(Debug)]
pub enum SourceFrame<H> {
    /// A full frame of audio: mark it as audio.
    Audio,
    /// The source is exhausted (or failed): SPEAK request `H` is done.
    Complete(H),
}

/// Outcome of reading a frame of `frame_size` bytes from the speech source of
/// SPEAK request `request`; `read` is the number of bytes read, `None` on a
/// read error.
pub open spec fn source_outcome<H>(request: H, frame_size: usize, read: Option<usize>) -> SourceFrame<H> {
    if read == Some(frame_size) {
        SourceFrame::Audio
    } else {
        SourceFrame::Complete(request)
    }
}

/// The SPEAK-COMPLETE event of the SPEAK in progress was sent.
pub open spec fn complete_step<H>(v: ChannelView<H>) -> ChannelView<H> {
    ChannelView { speak_request: None, has_source: false, ..v }
}

/// A synthesizer channel.
pub struct SynthChannel<H> {
    speak_request: Option<H>,
    stop_response: Option<H>,
    time_to_complete: usize,
    paused: bool,
    has_source: bool,
}

impl<H> View for SynthChannel<H> {
    type V = ChannelView<H>;

    closed spec fn view(&self) -> ChannelView<H> {
        ChannelView {
            speak_request: self.speak_request,
            stop_response: self.stop_response,
            time_to_complete: self.time_to_complete as nat,
            paused: self.paused,
            has_source: self.has_source,
        }
    }
}

impl<H> SynthChannel<H> {
    #[verifier::type_invariant]
    closed spec fn inv(self) -> bool {
        self@.wf()
    }
}

impl<H: Copy> SynthChannel<H> {
    /// A fresh channel.
    pub fn new() -> (c: Self)
        ensures
            c@ == initial_view::<H>(),
            c@.wf(),
            c@.speak_request is None,
            c@.stop_response is None,
            c@.time_to_complete == 0,
            !c@.paused,
            !c@.has_source,
    {
        SynthChannel {
            speak_request: None,
            stop_response: None,
            time_to_complete: 0,
            paused: false,
            has_source: false,
        }
    }

    /// Handles a request whose method has identifier `method_id`, of which
    /// only the low 32 bits count; `response` is the response the server
    /// created for it. See [`dispatch_step`].
    pub fn dispatch(
        &mut self,
        method_id: usize,
        response: H,
        fields: &[bool],
        has_resource_header: bool,
        codec_available: bool,
    ) -> (reply: Reply<H>)
        ensures
            (final(self)@, reply) == dispatch_step(
                old(self)@,
                method_of(method_id as u32),
                response,
                fields@,
                has_resource_header,
                codec_available,
            ),
            final(self)@.wf(),
            ({
                let m = method_of(method_id as u32);
                &&& (m == SynthMethod::SetParams || m == SynthMethod::GetParams || m
                    == SynthMethod::Speak || m == SynthMethod::Other) ==> final(self)@ == old(self)@
                &&& (m == SynthMethod::Stop || m == SynthMethod::BargeInOccurred) ==> final(self)@
                    == (ChannelView { stop_response: Some(response), ..old(self)@ })
                &&& m == SynthMethod::Pause ==> final(self)@ == (ChannelView { paused: true, ..old(self)@ })
                &&& m == SynthMethod::Resume ==> final(self)@ == (ChannelView {
                    paused: false,
                    ..old(self)@
                })
            }),
    {
        proof {
            use_type_invariant(&*self);
        }
        match method_from_id(method_id as u32) {
            SynthMethod::SetParams => Reply::SendParamsSet(
                response,
                request_voice_fields(fields, has_resource_header),
            ),
            SynthMethod::GetParams => Reply::SendParams(
                response,
                request_voice_fields(fields, has_resource_header),
            ),
            SynthMethod::Speak => {
                if codec_available {
                    Reply::OpenSource
                } else {
                    Reply::SendFailed(response)
                }
            },
            SynthMethod::Stop | SynthMethod::BargeInOccurred => {
                self.stop_response = Some(response);
                Reply::Hold
            },
            SynthMethod::Pause => {
                self.paused = true;
                Reply::Send(response)
            },
            SynthMethod::Resume => {
                self.paused = false;
                Reply::Send(response)
            },
            SynthMethod::Other => Reply::Send(response),
        }
    }

    /// Starts SPEAK request `request` once the speech source was (`opened`)
    /// or was not opened. `fields` are the request's header presence flags
    /// and `content_length` its `Content-Length` value, `None` when the
    /// request has no generic header. See [`speak_step`].
    pub fn speak_source(
        &mut self,
        request: H,
        response: H,
        opened: bool,
        fields: &[bool],
        content_length: Option<usize>,
    ) -> (reply: Reply<H>)
        requires
            !opened && field_present(fields@, GENERIC_HEADER_CONTENT_LENGTH as int)
                ==> (content_length matches Some(n) ==> n * MS_PER_CONTENT_UNIT <= usize::MAX),
        ensures
            (final(self)@, reply) == speak_step(
                old(self)@,
                request,
                response,
                opened,
                fields@,
                content_length,
            ),
            final(self)@.wf(),
            reply == Reply::SendInProgress(response),
            final(self)@.speak_request == Some(request),
            final(self)@.has_source == opened,
            final(self)@.paused == old(self)@.paused,
            final(self)@.stop_response == old(self)@.stop_response,
            opened ==> final(self)@.time_to_complete == 0,
    {
        let mut time_to_complete: usize = 0;
        if !opened && generic_property_present(fields, GENERIC_HEADER_CONTENT_LENGTH) {
            if let Some(n) = content_length {
                time_to_complete = n * MS_PER_CONTENT_UNIT;
            }
        }
        *self = SynthChannel {
            speak_request: Some(request),
            stop_response: self.stop_response,
            time_to_complete,
            paused: self.paused,
            has_source: opened,
        };
        Reply::SendInProgress(response)
    }

    /// The media engine asks for an audio frame. See [`frame_step`].
    pub fn stream_read(&mut self) -> (action: FrameAction<H>)
        ensures
            (final(self)@, action) == frame_step(old(self)@),
            final(self)@.wf(),
    {
        proof {
            use_type_invariant(&*self);
        }
        if let Some(r) = self.stop_response {
            *self = SynthChannel {
                speak_request: None,
                stop_response: None,
                time_to_complete: self.time_to_complete,
                paused: false,
                has_source: false,
            };
            return FrameAction::SendStopResponse(r);
        }
        match self.speak_request {
            Some(req) => {
                if self.paused {
                    FrameAction::Idle
                } else if self.has_source {
                    FrameAction::ReadSource(req)
                } else if self.time_to_complete >= FRAME_DURATION_MS {
                    self.time_to_complete = self.time_to_complete - FRAME_DURATION_MS;
                    FrameAction::Silence
                } else {
                    FrameAction::Complete(req)
                }
            },
            None => FrameAction::Idle,
        }
    }

    /// What a frame of `frame_size` bytes read from the speech source of
    /// `request` carries, given the number of bytes read (`None`: the read
    /// failed). See [`source_outcome`].
    pub fn source_frame(request: H, frame_size: usize, read: Option<usize>) -> (f: SourceFrame<H>)
        ensures
            f == source_outcome(request, frame_size, read),
            read == Some(frame_size) ==> f is Audio,
            read != Some(frame_size) ==> f == SourceFrame::Complete(request),
    {
        match read {
            Some(n) => {
                if n == frame_size {
                    SourceFrame::Audio
                } else {
                    SourceFrame::Complete(request)
                }
            },
            None => SourceFrame::Complete(request),
        }
    }

    /// The SPEAK-COMPLETE event of the SPEAK in progress was sent: the
    /// request and its speech source are released.
    pub fn speak_complete(&mut self)
        ensures
            final(self)@ == complete_step(old(self)@),
            final(self)@.wf(),
            final(self)@.speak_request is None,
            !final(self)@.has_source,
            final(self)@.paused == old(self)@.paused,
            final(self)@.stop_response == old(self)@.stop_response,
            final(self)@.time_to_complete == old(self)@.time_to_complete,
    {
        proof {
            use_type_invariant(&*self);
        }
        *self = SynthChannel {
            speak_request: None,
            stop_response: self.stop_response,
            time_to_complete: self.time_to_complete,
            paused: self.paused,
            has_source: false,
        };
    }

    /// The SPEAK request in progress.
    pub fn speak_request(&self) -> (r: Option<H>)
        ensures
            r == self@.speak_request,
    {
        self.speak_request
    }

    /// The held STOP response.
    pub fn stop_response(&self) -> (r: Option<H>)
        ensures
            r == self@.stop_response,
    {
        self.stop_response
    }

    /// Milliseconds of silence still to play.
    pub fn time_to_complete(&self) -> (t: usize)
        ensures
            t == self@.time_to_complete,
    {
        self.time_to_complete
    }

    /// Whether speech output is paused.
    pub fn is_paused(&self) -> (p: bool)
        ensures
            p == self@.paused,
    {
        self.paused
    }

    /// Whether a speech source is open.
    pub fn has_source(&self) -> (s: bool)
        ensures
            s == self@.has_source,
    {
        self.has_source
    }
}

} // verus!
