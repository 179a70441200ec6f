//! Properties of the synthesizer channel that span several operations.

use vstd::prelude::*;
use crate::channel::{
    complete_step, dispatch_step, frame_step, initial_view, method_of, sent_response,
    source_outcome, speak_step, voice_fields, ChannelView, FrameAction, Reply, SourceFrame,
    SynthMethod, VoiceFields,
};
use crate::header::field_present;
use crate::protocol::{FRAME_DURATION_MS, GENERIC_HEADER_CONTENT_LENGTH, MS_PER_CONTENT_UNIT};

verus! {

/// The channel after the media engine asked it for `k` audio frames.
pub open spec fn frames<H>(v: ChannelView<H>, k: nat) -> ChannelView<H>
    decreases k,
{
    if k == 0 {
        v
    } else {
        frame_step(frames(v, (k - 1) as nat)).0
    }
}

/// The action of the `k`-th audio frame (counting from zero) asked of a
/// channel in state `v`.
pub open spec fn frame_action<H>(v: ChannelView<H>, k: nat) -> FrameAction<H> {
    frame_step(frames(v, k)).1
}

/// A fresh channel plays nothing.
pub proof fn lemma_fresh_channel_idle<H>()
    ensures
        frame_step(initial_view::<H>()) == (initial_view::<H>(), FrameAction::<H>::Idle),
{
}

/// Every request gets an answer. A STOP or BARGE-IN-OCCURRED request holds its
/// response in the channel; a SPEAK request on a channel with a codec asks
/// for the speech source, and its response is sent once the source was tried;
/// every other request sends its own response at once, and only SPEAK fails
/// (for want of a codec).
pub proof fn lemma_every_request_answered<H>(
    v: ChannelView<H>,
    method: SynthMethod,
    request: H,
    response: H,
    fields: Seq<bool>,
    has_resource_header: bool,
    codec_available: bool,
    opened: bool,
    content_length: Option<usize>,
)
    ensures
        ({
            let (v1, reply) = dispatch_step(
                v,
                method,
                response,
                fields,
                has_resource_header,
                codec_available,
            );
            &&& (method == SynthMethod::Stop || method == SynthMethod::BargeInOccurred) ==> {
                &&& reply is Hold
                &&& v1.stop_response == Some(response)
            }
            &&& (method == SynthMethod::Speak && codec_available) ==> {
                &&& reply is OpenSource
                &&& v1 == v
                &&& sent_response(
                    speak_step(v1, request, response, opened, fields, content_length).1,
                ) == Some(response)
            }
            &&& {
                let held = method == SynthMethod::Stop || method == SynthMethod::BargeInOccurred;
                let deferred = method == SynthMethod::Speak && codec_available;
                !held && !deferred ==> sent_response(reply) == Some(response)
            }
            &&& (reply is SendFailed) <==> (method == SynthMethod::Speak && !codec_available)
        }),
{
}

/// A STOP (or BARGE-IN-OCCURRED) request is answered at the very next audio
/// frame, whatever the channel was doing, paused or not: that frame sends the
/// held response, plays nothing, and leaves the channel with no SPEAK in
/// progress, no speech source and not paused.
pub proof fn lemma_stop_answered_at_next_frame<H>(
    v: ChannelView<H>,
    method: SynthMethod,
    response: H,
    fields: Seq<bool>,
    has_resource_header: bool,
    codec_available: bool,
)
    requires
        method == SynthMethod::Stop || method == SynthMethod::BargeInOccurred,
    ensures
        ({
            let v1 = dispatch_step(v, method, response, fields, has_resource_header, codec_available).0;
            frame_step(v1) == (
                ChannelView::<H> {
                    speak_request: None,
                    stop_response: None,
                    time_to_complete: v.time_to_complete,
                    paused: false,
                    has_source: false,
                },
                FrameAction::SendStopResponse(response),
            )
        }),
{
}

/// A paused channel with no STOP pending plays nothing and stays as it is.
pub proof fn lemma_paused_plays_nothing<H>(v: ChannelView<H>)
    requires
        v.paused,
        v.stop_response is None,
    ensures
        frame_step(v) == (v, FrameAction::<H>::Idle),
{
}

/// PAUSE then RESUME gives back the channel that was playing: both are
/// answered at once, and nothing else changes.
pub proof fn lemma_pause_resume<H>(
    v: ChannelView<H>,
    response1: H,
    response2: H,
    fields: Seq<bool>,
    has_resource_header: bool,
    codec_available: bool,
)
    requires
        !v.paused,
    ensures
        ({
            let (v1, reply1) = dispatch_step(
                v,
                SynthMethod::Pause,
                response1,
                fields,
                has_resource_header,
                codec_available,
            );
            let (v2, reply2) = dispatch_step(
                v1,
                SynthMethod::Resume,
                response2,
                fields,
                has_resource_header,
                codec_available,
            );
            &&& v1.paused
            &&& v2 == v
            &&& reply1 == Reply::Send(response1)
            &&& reply2 == Reply::Send(response2)
        }),
{
}

/// Once the SPEAK-COMPLETE event was sent, a channel with no STOP pending
/// plays nothing more.
pub proof fn lemma_completed_speak_idle<H>(v: ChannelView<H>)
    requires
        v.stop_response is None,
    ensures
        frame_step(complete_step(v)) == (complete_step(v), FrameAction::<H>::Idle),
{
}

/// A SPEAK in progress with no speech source, no STOP pending, not paused and
/// `n` frames of silence left plays exactly `n` frames of silence, then
/// completes.
pub proof fn lemma_silence_countdown<H>(v: ChannelView<H>, request: H, n: nat)
    requires
        v.speak_request == Some(request),
        v.stop_response is None,
        !v.paused,
        !v.has_source,
        v.time_to_complete == n * FRAME_DURATION_MS,
    ensures
        forall|k: nat| k < n ==> #[trigger] frame_action(v, k) == FrameAction::<H>::Silence,
        frame_action(v, n) == FrameAction::Complete(request),
        frames(v, n) == (ChannelView::<H> { time_to_complete: 0, ..v }),
{
    lemma_countdown_states(v, n, n);
    assert forall|k: nat| k < n implies #[trigger] frame_action(v, k) == FrameAction::<H>::Silence by {
        lemma_countdown_states(v, n, k);
    }
}

/// The channel of [`lemma_silence_countdown`] after `k <= n` frames.
proof fn lemma_countdown_states<H>(v: ChannelView<H>, n: nat, k: nat)
    requires
        v.speak_request is Some,
        v.stop_response is None,
        !v.paused,
        !v.has_source,
        v.time_to_complete == n * FRAME_DURATION_MS,
        k <= n,
    ensures
        frames(v, k) == (ChannelView::<H> {
            time_to_complete: ((n - k) * FRAME_DURATION_MS) as nat,
            ..v
        }),
    decreases k,
{
    if k > 0 {
        lemma_countdown_states(v, n, (k - 1) as nat);
    }
}

/// A SPEAK request for which no speech source could be opened plays silence
/// for its `Content-Length`: one frame per unit, then it completes. Without
/// that header it completes at the first frame.
pub proof fn lemma_speak_without_source<H>(
    v: ChannelView<H>,
    request: H,
    response: H,
    fields: Seq<bool>,
    content_length: Option<usize>,
)
    requires
        v.stop_response is None,
        !v.paused,
        field_present(fields, GENERIC_HEADER_CONTENT_LENGTH as int) && content_length is Some
            ==> content_length->0 * MS_PER_CONTENT_UNIT <= usize::MAX,
    ensures
        ({
            let v1 = speak_step(v, request, response, false, fields, content_length).0;
            let n: nat = if field_present(fields, GENERIC_HEADER_CONTENT_LENGTH as int)
                && content_length is Some {
                content_length->0 as nat
            } else {
                0
            };
            &&& forall|k: nat| k < n ==> #[trigger] frame_action(v1, k) == FrameAction::<H>::Silence
            &&& frame_action(v1, n) == FrameAction::Complete(request)
        }),
{
    let v1 = speak_step(v, request, response, false, fields, content_length).0;
    let n: nat = if field_present(fields, GENERIC_HEADER_CONTENT_LENGTH as int)
        && content_length is Some {
        content_length->0 as nat
    } else {
        0
    };
    assert(v1.time_to_complete == n * FRAME_DURATION_MS);
    lemma_silence_countdown(v1, request, n);
}

/// A SPEAK request whose speech source was opened reads every frame from it
/// until the media engine is told the source is done.
pub proof fn lemma_speak_with_source_reads<H>(
    v: ChannelView<H>,
    request: H,
    response: H,
    fields: Seq<bool>,
    content_length: Option<usize>,
)
    requires
        v.stop_response is None,
        !v.paused,
    ensures
        ({
            let v1 = speak_step(v, request, response, true, fields, content_length).0;
            frame_step(v1) == (v1, FrameAction::ReadSource(request))
        }),
{
}

/// Every step keeps a channel well formed.
pub proof fn lemma_steps_keep_wf<H>(
    v: ChannelView<H>,
    method: SynthMethod,
    request: H,
    response: H,
    fields: Seq<bool>,
    has_resource_header: bool,
    codec_available: bool,
    opened: bool,
    content_length: Option<usize>,
)
    requires
        v.wf(),
        !opened && field_present(fields, GENERIC_HEADER_CONTENT_LENGTH as int)
            ==> (content_length matches Some(n) ==> n * MS_PER_CONTENT_UNIT <= usize::MAX),
    ensures
        dispatch_step(v, method, response, fields, has_resource_header, codec_available).0.wf(),
        speak_step(v, request, response, opened, fields, content_length).0.wf(),
        frame_step(v).0.wf(),
        complete_step(v).wf(),
{
}

/// Method identifiers 0 to 6 name, in order, SET-PARAMS, GET-PARAMS, SPEAK,
/// STOP, PAUSE, RESUME and BARGE-IN-OCCURRED; every other identifier names no
/// method that the engine handles.
pub proof fn lemma_method_ids(id: u32)
    ensures
        (method_of(id) == SynthMethod::SetParams) <==> id == 0,
        (method_of(id) == SynthMethod::GetParams) <==> id == 1,
        (method_of(id) == SynthMethod::Speak) <==> id == 2,
        (method_of(id) == SynthMethod::Stop) <==> id == 3,
        (method_of(id) == SynthMethod::Pause) <==> id == 4,
        (method_of(id) == SynthMethod::Resume) <==> id == 5,
        (method_of(id) == SynthMethod::BargeInOccurred) <==> id == 6,
        (method_of(id) == SynthMethod::Other) <==> id > 6,
{
}

/// The voice parameters that a request names: none without a synthesizer
/// header; otherwise `Voice-Age` exactly when header field 22 (resource field
/// 6, after the 16 generic ones) is set, and `Voice-Name` exactly when field
/// 24 (resource field 8) is set, each independently of the other.
pub proof fn lemma_voice_fields(fields: Seq<bool>, has_resource_header: bool)
    ensures
        !has_resource_header ==> voice_fields(fields, has_resource_header) is None,
        has_resource_header ==> voice_fields(fields, has_resource_header) == Some(
            VoiceFields { age: 22 < fields.len() && fields[22], name: 24 < fields.len() && fields[24] },
        ),
{
}

/// What each request does to a channel and what it answers. SET-PARAMS,
/// GET-PARAMS, SPEAK and unknown methods leave the channel unchanged; STOP
/// and BARGE-IN-OCCURRED only hold their response; PAUSE and RESUME only set
/// and clear the pause. SET-PARAMS and GET-PARAMS answer with the voice
/// parameters the request names, SPEAK asks for the speech source when the
/// channel has a codec and fails otherwise, and PAUSE, RESUME and unknown
/// methods send their response as it is.
pub proof fn lemma_dispatch_effects<H>(
    v: ChannelView<H>,
    method: SynthMethod,
    response: H,
    fields: Seq<bool>,
    has_resource_header: bool,
    codec_available: bool,
)
    ensures
        ({
            let (v1, reply) = dispatch_step(
                v,
                method,
                response,
                fields,
                has_resource_header,
                codec_available,
            );
            let voice = if has_resource_header {
                Some(
                    VoiceFields {
                        age: 22 < fields.len() && fields[22],
                        name: 24 < fields.len() && fields[24],
                    },
                )
            } else {
                None
            };
            let held = ChannelView::<H> {
                speak_request: v.speak_request,
                stop_response: Some(response),
                time_to_complete: v.time_to_complete,
                paused: v.paused,
                has_source: v.has_source,
            };
            let paused_to = |p: bool|
                ChannelView::<H> {
                    speak_request: v.speak_request,
                    stop_response: v.stop_response,
                    time_to_complete: v.time_to_complete,
                    paused: p,
                    has_source: v.has_source,
                };
            &&& method == SynthMethod::SetParams ==> v1 == v && reply == Reply::SendParamsSet(
                response,
                voice,
            )
            &&& method == SynthMethod::GetParams ==> v1 == v && reply == Reply::SendParams(
                response,
                voice,
            )
            &&& method == SynthMethod::Speak ==> v1 == v && reply == (if codec_available {
                Reply::OpenSource
            } else {
                Reply::SendFailed(response)
            })
            &&& method == SynthMethod::Other ==> v1 == v && reply == Reply::Send(response)
            &&& (method == SynthMethod::Stop || method == SynthMethod::BargeInOccurred) ==> v1
                == held && reply == Reply::<H>::Hold
            &&& method == SynthMethod::Pause ==> v1 == paused_to(true) && reply == Reply::Send(
                response,
            )
            &&& method == SynthMethod::Resume ==> v1 == paused_to(false) && reply == Reply::Send(
                response,
            )
        }),
{
}

/// Starting a SPEAK, whether or not its speech source opened, answers
/// IN-PROGRESS, makes it the SPEAK in progress and records whether its source
/// is open; the pause and a held STOP response stay. The silence to play is
/// ten milliseconds per unit of `Content-Length` (generic header field 8)
/// when no source opened and the request carries that header, and nothing
/// otherwise.
pub proof fn lemma_speak_start<H>(
    v: ChannelView<H>,
    request: H,
    response: H,
    opened: bool,
    fields: Seq<bool>,
    content_length: Option<usize>,
)
    ensures
        ({
            let (v1, reply) = speak_step(v, request, response, opened, fields, content_length);
            &&& reply == Reply::SendInProgress(response)
            &&& v1.speak_request == Some(request)
            &&& v1.has_source == opened
            &&& v1.paused == v.paused
            &&& v1.stop_response == v.stop_response
            &&& opened ==> v1.time_to_complete == 0
            &&& !(8 < fields.len() && fields[8]) ==> v1.time_to_complete == 0
            &&& content_length is None ==> v1.time_to_complete == 0
            &&& (!opened && 8 < fields.len() && fields[8] && content_length is Some)
                ==> v1.time_to_complete == content_length->0 * 10
        }),
{
}

/// A frame read from the speech source carries audio exactly when it filled
/// the whole frame; a short read, an empty read or a failed read ends the
/// SPEAK it belongs to.
pub proof fn lemma_source_frame<H>(request: H, frame_size: usize, read: Option<usize>)
    ensures
        (source_outcome(request, frame_size, read) is Audio) <==> read == Some(frame_size),
        read != Some(frame_size) ==> source_outcome(request, frame_size, read)
            == SourceFrame::Complete(request),
{
}

/// Completing a SPEAK releases the SPEAK request and its speech source and
/// nothing else; a SPEAK started afterwards with an open source plays it.
pub proof fn lemma_complete_releases_speak<H>(
    v: ChannelView<H>,
    request: H,
    response: H,
    fields: Seq<bool>,
    content_length: Option<usize>,
)
    ensures
        complete_step(v) == (ChannelView::<H> {
            speak_request: None,
            stop_response: v.stop_response,
            time_to_complete: v.time_to_complete,
            paused: v.paused,
            has_source: false,
        }),
        v.stop_response is None && !v.paused ==> ({
            let v2 = speak_step(complete_step(v), request, response, true, fields, content_length).0;
            frame_step(v2).1 == FrameAction::ReadSource(request)
        }),
{
}

/// What every audio frame does: a held STOP response goes out first and ends
/// the SPEAK, its source and the pause; otherwise a SPEAK in progress that is
/// not paused reads its open source, or plays ten milliseconds of the silence
/// left, or, with less than that left, completes; in every other case the
/// frame plays nothing and the channel stays as it is.
pub proof fn lemma_frame_effects<H>(v: ChannelView<H>)
    ensures
        ({
            let (v1, a) = frame_step(v);
            &&& v.stop_response matches Some(r) ==> a == FrameAction::SendStopResponse(r) && v1
                == (ChannelView::<H> {
                speak_request: None,
                stop_response: None,
                time_to_complete: v.time_to_complete,
                paused: false,
                has_source: false,
            })
            &&& v.stop_response is None && (v.speak_request is None || v.paused) ==> v1 == v && a
                == FrameAction::<H>::Idle
            &&& v.stop_response is None && v.speak_request is Some && !v.paused && v.has_source ==> v1
                == v && a
                == FrameAction::ReadSource(v.speak_request->0)
            &&& v.stop_response is None && v.speak_request is Some && !v.paused && !v.has_source
                && v.time_to_complete >= 10 ==> a == FrameAction::<H>::Silence && v1 == (
            ChannelView::<H> {
                speak_request: v.speak_request,
                stop_response: None,
                time_to_complete: (v.time_to_complete - 10) as nat,
                paused: false,
                has_source: false,
            })
            &&& v.stop_response is None && v.speak_request is Some && !v.paused && !v.has_source
                && v.time_to_complete < 10 ==> v1 == v && a == FrameAction::Complete(
                v.speak_request->0,
            )
        }),
{
}

} // verus!
