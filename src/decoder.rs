//! The controller's handle on the decoder engine thread: an ordered command
//! inlet, a frame outlet and a single-use information outlet per load.
use crate::channel::{open_bounded, open_unbounded, receive, send_message, try_receive};
use crate::engine::{DecoderCommand, DecoderInfo, FrameData, VideoFrame};
use crossbeam_channel::{Receiver, Sender};
use vstd::prelude::*;

verus! {

/// Room in the command inlet.
pub const COMMAND_CAPACITY: usize = 32;

/// Room in the information outlet: one load's answer.
pub const INFO_CAPACITY: usize = 1;

/// A channel to or from the engine thread closed.
#[derive(Clone, Copy, Debug, PartialEq, Eq, Structural)]
pub enum EngineError {
    /// The engine no longer takes commands.
    CommandChannelClosed,
    /// The engine closed its information outlet before answering a load.
    InfoChannelClosed,
    /// The engine closed its frame outlet.
    FrameChannelClosed,
}

/// The engine thread's ends of its three channels.
#[verifier::reject_recursive_types(S)]
pub struct EngineEnds<S> {
    pub commands: Receiver<DecoderCommand>,
    pub frames: Sender<FrameData<S>>,
    pub info: Sender<DecoderInfo>,
}

/// The controller's ends of the engine's channels, with the log of every
/// command handed to the engine, in order.
#[verifier::reject_recursive_types(S)]
pub struct MediaDecoder<S> {
    command_sender: Sender<DecoderCommand>,
    frame_receiver: Receiver<FrameData<S>>,
    info_receiver: Receiver<DecoderInfo>,
    sent: Ghost<Seq<DecoderCommand>>,
}

impl<S> MediaDecoder<S> {
    /// The commands handed to the engine so far, oldest first. A command is
    /// logged once handed to the channel, whether or not the engine is there
    /// to take it.
    pub closed spec fn sent(&self) -> Seq<DecoderCommand> {
        self.sent@
    }

    /// Opens the engine's channels: the handle, and the ends for the thread
    /// that runs the engine. No command has been sent yet.
    pub fn new() -> (r: (MediaDecoder<S>, EngineEnds<S>))
        ensures
            r.0.sent() == Seq::<DecoderCommand>::empty(),
    {
        let (command_sender, commands) = open_bounded(COMMAND_CAPACITY);
        let (frames, frame_receiver) = open_unbounded();
        let (info, info_receiver) = open_bounded(INFO_CAPACITY);
        (
            MediaDecoder { command_sender, frame_receiver, info_receiver, sent: Ghost(Seq::empty()) },
            EngineEnds { commands, frames, info },
        )
    }

    fn command(&mut self, cmd: DecoderCommand) -> (r: Result<(), EngineError>)
        ensures
            final(self).sent() == old(self).sent().push(cmd),
            r.is_err() ==> r == Err::<(), EngineError>(EngineError::CommandChannelClosed),
    {
        let ghost handed = cmd;
        let ok = send_message(&self.command_sender, cmd);
        self.sent = Ghost(self.sent@.push(handed));
        if ok {
            Ok(())
        } else {
            Err(EngineError::CommandChannelClosed)
        }
    }

    /// Asks the engine to load `path` and waits for what it found.
    pub fn load(&mut self, path: &str, video_sender: Option<Sender<VideoFrame>>) -> (r: Result<
        DecoderInfo,
        EngineError,
    >)
        ensures
            exists|s: String|
                #[trigger] s@ == path@ && final(self).sent() == old(self).sent().push(
                    DecoderCommand::Load(s, video_sender),
                ),
            r.is_err() ==> r == Err::<DecoderInfo, EngineError>(EngineError::CommandChannelClosed)
                || r == Err::<DecoderInfo, EngineError>(EngineError::InfoChannelClosed),
    {
        let path_owned = path.to_string();
        let ghost s = path_owned;
        let sent = self.command(DecoderCommand::Load(path_owned, video_sender));
        assert(final(self).sent() == old(self).sent().push(DecoderCommand::Load(s, video_sender)));
        sent?;
        match receive(&self.info_receiver) {
            Some(info) => Ok(info),
            None => Err(EngineError::InfoChannelClosed),
        }
    }

    pub fn play(&mut self) -> (r: Result<(), EngineError>)
        ensures
            final(self).sent() == old(self).sent().push(DecoderCommand::Play),
            r.is_err() ==> r == Err::<(), EngineError>(EngineError::CommandChannelClosed),
    {
        self.command(DecoderCommand::Play)
    }

    pub fn pause(&mut self) -> (r: Result<(), EngineError>)
        ensures
            final(self).sent() == old(self).sent().push(DecoderCommand::Pause),
            r.is_err() ==> r == Err::<(), EngineError>(EngineError::CommandChannelClosed),
    {
        self.command(DecoderCommand::Pause)
    }

    pub fn stop(&mut self) -> (r: Result<(), EngineError>)
        ensures
            final(self).sent() == old(self).sent().push(DecoderCommand::Stop),
            r.is_err() ==> r == Err::<(), EngineError>(EngineError::CommandChannelClosed),
    {
        self.command(DecoderCommand::Stop)
    }

    /// Asks the engine to seek to `time` microseconds.
    pub fn seek(&mut self, time: i64) -> (r: Result<(), EngineError>)
        ensures
            final(self).sent() == old(self).sent().push(DecoderCommand::Seek(time)),
            r.is_err() ==> r == Err::<(), EngineError>(EngineError::CommandChannelClosed),
    {
        self.command(DecoderCommand::Seek(time))
    }

    /// Asks the engine to scale later samples by `volume` thousandths.
    pub fn set_volume(&mut self, volume: u32) -> (r: Result<(), EngineError>)
        ensures
            final(self).sent() == old(self).sent().push(DecoderCommand::SetVolume(volume)),
            r.is_err() ==> r == Err::<(), EngineError>(EngineError::CommandChannelClosed),
    {
        self.command(DecoderCommand::SetVolume(volume))
    }

    /// The next emitted frame, if one is waiting.
    pub fn try_recv_frame(&self) -> Option<FrameData<S>> {
        try_receive(&self.frame_receiver)
    }

    /// Waits for the next emitted frame.
    pub fn recv_frame(&self) -> (r: Result<FrameData<S>, EngineError>)
        ensures
            r.is_err() ==> r == Err::<FrameData<S>, EngineError>(EngineError::FrameChannelClosed),
    {
        match receive(&self.frame_receiver) {
            Some(f) => Ok(f),
            None => Err(EngineError::FrameChannelClosed),
        }
    }
}

} // verus!
