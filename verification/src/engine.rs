//! The synthesizer engine: its consumer task, the messages that carry channel
//! work onto that task, and the capabilities of the channels it creates.
//!
//! An engine is generic over `T`, the handle of its consumer task; messages
//! over `C`, the handle of a channel, and `H`, the handle of a request.

use vstd::prelude::*;
use crate::header::{has_nul, is_c_str_len, string_assign, StrAssign};
use crate::protocol::{MPF_SAMPLE_RATE_16000, MPF_SAMPLE_RATE_8000};

verus! {

/// Sample rates that the source stream of every channel offers.
pub const SOURCE_SAMPLE_RATES: i32 = MPF_SAMPLE_RATE_8000 | MPF_SAMPLE_RATE_16000;

/// A synthesizer engine.
pub struct Engine<T> {
    /// The consumer task that runs channel work; `None` once destroyed.
    pub task: Option<T>,
}

impl<T: Copy> Engine<T> {
    /// Creates the engine around its consumer task: there is no engine when
    /// the task could not be created.
    pub fn create(task: Option<T>) -> (e: Option<Self>)
        ensures
            task is None ==> e is None,
            task is Some ==> e == Some(Engine { task }),
    {
        match task {
            Some(t) => Some(Engine { task: Some(t) }),
            None => None,
        }
    }

    /// Opens the engine: returns the task to start, if any. The engine then
    /// reports itself opened, whatever became of the task.
    pub fn open(&self) -> (start: Option<T>)
        ensures
            start == self.task,
    {
        self.task
    }

    /// Closes the engine: returns the task to terminate, if any. The engine
    /// then reports itself closed.
    pub fn close(&self) -> (terminate: Option<T>)
        ensures
            terminate == self.task,
    {
        self.task
    }

    /// Destroys the engine: returns the task to destroy, if any, and forgets
    /// it, so that the task is destroyed at most once.
    pub fn destroy(&mut self) -> (destroyed: Option<T>)
        ensures
            (*final(self), destroyed) == destroy_step(*old(self)),
            destroyed == old(self).task,
            final(self).task is None,
    {
        let destroyed = self.task;
        self.task = None;
        destroyed
    }
}

/// Destroying an engine: the task it had is destroyed, and it has none left.
pub open spec fn destroy_step<T>(e: Engine<T>) -> (Engine<T>, Option<T>) {
    (Engine { task: None }, e.task)
}

/// Destroying an engine twice destroys its task once, and a destroyed engine
/// neither starts nor terminates a task when opened or closed.
pub proof fn lemma_destroy_once<T>(e: Engine<T>)
    ensures
        destroy_step(destroy_step(e).0).1 is None,
        destroy_step(e).0.task is None,
{
}

/// Work that a channel callback hands to the engine's consumer task.
#[derive(Debug)]
pub enum TaskMsg<C, H> {
    /// The channel is to be opened.
    OpenChannel(C),
    /// The channel is to be closed.
    CloseChannel(C),
    /// Request `H` arrived on the channel.
    RequestProcess(C, H),
}

/// What the consumer task does with a message.
#[derive(Debug)]
pub enum TaskAction<C, H> {
    /// Report the channel opened, with the given status.
    RespondOpen(C, bool),
    /// Report the channel closed.
    RespondClose(C),
    /// Handle request `H` on the channel (see
    /// [`crate::channel::SynthChannel::dispatch`]).
    Dispatch(C, H),
}

/// The action of the consumer task for a message: a channel is always opened
/// successfully, and a request is dispatched on its own channel.
pub open spec fn task_action<C, H>(msg: TaskMsg<C, H>) -> TaskAction<C, H> {
    match msg {
        TaskMsg::OpenChannel(c) => TaskAction::RespondOpen(c, true),
        TaskMsg::CloseChannel(c) => TaskAction::RespondClose(c),
        TaskMsg::RequestProcess(c, r) => TaskAction::Dispatch(c, r),
    }
}

/// Processes a message on the consumer task.
pub fn process_task_msg<C, H>(msg: TaskMsg<C, H>) -> (action: TaskAction<C, H>)
    ensures
        action == task_action(msg),
        msg matches TaskMsg::OpenChannel(c) ==> action == TaskAction::<C, H>::RespondOpen(c, true),
        msg matches TaskMsg::CloseChannel(c) ==> action == TaskAction::<C, H>::RespondClose(c),
        msg matches TaskMsg::RequestProcess(c, r) ==> action == TaskAction::<C, H>::Dispatch(c, r),
{
    match msg {
        TaskMsg::OpenChannel(c) => TaskAction::RespondOpen(c, true),
        TaskMsg::CloseChannel(c) => TaskAction::RespondClose(c),
        TaskMsg::RequestProcess(c, r) => TaskAction::Dispatch(c, r),
    }
}

/// Attributes of a codec that a stream offers.
pub struct CodecAttribs {
    /// How the codec's name is assigned.
    pub name: StrAssign,
    /// Offered sample rates, as a set of sample-rate flags.
    pub sample_rates: i32,
    /// Bits per sample; zero leaves it to the codec.
    pub bits_per_sample: u8,
}

/// Attributes of codec `codec_name` (a C string) offered at `sample_rates`.
pub fn codec_attribs(sample_rates: i32, codec_name: &[u8]) -> (a: CodecAttribs)
    requires
        has_nul(codec_name@),
    ensures
        is_c_str_len(codec_name@, a.name.length as int),
        a.name.copy == (a.name.length > 0),
        a.sample_rates == sample_rates,
        a.bits_per_sample == 0,
{
    CodecAttribs { name: string_assign(Some(codec_name)), sample_rates, bits_per_sample: 0 }
}

/// Name of the codec that the source stream of every channel offers:
/// `LPCM`, as a C string.
pub fn source_codec_name() -> (name: [u8; 5])
    ensures
        name@ == seq![0x4cu8, 0x50u8, 0x43u8, 0x4du8, 0u8],
{
    [0x4c, 0x50, 0x43, 0x4d, 0]
}

/// Attributes of the codec that the source stream of every channel offers:
/// LPCM at 8 kHz and 16 kHz.
pub fn source_codec_attribs() -> (a: CodecAttribs)
    ensures
        a.name.length == 4,
        a.name.copy,
        a.sample_rates == SOURCE_SAMPLE_RATES,
        a.bits_per_sample == 0,
{
    let name = source_codec_name();
    let a = codec_attribs(SOURCE_SAMPLE_RATES, name.as_slice());
    assert(name@[4] == 0);
    a
}

/// Name of the engine's consumer task: `DemoSynth Engine`, as a C string.
pub fn task_name() -> (name: [u8; 17])
    ensures
        name@ == seq![
            0x44u8, 0x65u8, 0x6du8, 0x6fu8, 0x53u8, 0x79u8, 0x6eu8, 0x74u8, 0x68u8,
            0x20u8, 0x45u8, 0x6eu8, 0x67u8, 0x69u8, 0x6eu8, 0x65u8, 0u8,
        ],
{
    [0x44, 0x65, 0x6d, 0x6f, 0x53, 0x79, 0x6e, 0x74, 0x68, 0x20, 0x45, 0x6e, 0x67, 0x69, 0x6e, 0x65, 0]
}

/// Voice name that `GET-PARAMS` reports: `David`, as a C string.
pub fn reported_voice_name() -> (name: [u8; 6])
    ensures
        name@ == seq![0x44u8, 0x61u8, 0x76u8, 0x69u8, 0x64u8, 0u8],
{
    [0x44, 0x61, 0x76, 0x69, 0x64, 0]
}

} // verus!
