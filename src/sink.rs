//! The audio sink: the real-time fill routine run by the output device's
//! callback, and the control side that pauses, resumes and stops the stream.
use crate::channel::{open_bounded, open_unbounded, send_message, try_receive};
use crossbeam_channel::{Receiver, Sender};
use vstd::prelude::*;

verus! {

/// The output buffer after one callback: the incoming buffer's samples
/// where it has them, silence everywhere else.
pub open spec fn filled<T>(incoming: Option<Seq<T>>, n: nat, silence: T) -> Seq<T> {
    Seq::new(
        n,
        |i: int|
            match incoming {
                Some(s) => if i < s.len() {
                    s[i]
                } else {
                    silence
                },
                None => silence,
            },
    )
}

/// The samples of a received buffer, if any.
pub open spec fn received<T>(incoming: Option<Vec<T>>) -> Option<Seq<T>> {
    match incoming {
        Some(v) => Some(v@),
        None => None,
    }
}

/// Fills the device buffer `out` from one incoming sample buffer, or with
/// silence when none is available. The buffer is written in full, so nothing
/// of an earlier callback survives; it never grows, blocks or allocates.
pub fn fill_output<T: Copy>(out: &mut [T], incoming: &Option<Vec<T>>, silence: T)
    ensures
        final(out)@ == filled(received(*incoming), old(out)@.len(), silence),
{
    let n = out.len();
    let ghost src: Option<Seq<T>> = received(*incoming);
    let copy_len: usize = match incoming {
        Some(v) => if v.len() < n {
            v.len()
        } else {
            n
        },
        None => 0,
    };
    let mut i: usize = 0;
    while i < n
        invariant
            out@.len() == n,
            n == old(out)@.len(),
            copy_len <= n,
            match incoming {
                Some(v) => copy_len as int == if v@.len() < n { v@.len() as int } else { n as int },
                None => copy_len == 0,
            },
            src == received(*incoming),
            0 <= i <= n,
            forall|k: int| 0 <= k < i ==> out@[k] == #[trigger] filled(src, n as nat, silence)[k],
        decreases n - i,
    {
        if i < copy_len {
            match incoming {
                Some(v) => {
                    out[i] = v[i];
                },
                None => {},
            }
        } else {
            out[i] = silence;
        }
        i = i + 1;
    }
    assert(out@ =~= filled(src, n as nat, silence));
}

/// One device callback: takes at most one buffer from `samples` without
/// blocking and fills `out` from it, or with silence when the channel is
/// empty or its producer is gone.
pub fn render<T: Copy>(samples: &Receiver<Vec<T>>, out: &mut [T], silence: T)
    ensures
        exists|incoming: Option<Seq<T>>|
            final(out)@ == #[trigger] filled(incoming, old(out)@.len(), silence),
{
    let incoming = try_receive(samples);
    fill_output(out, &incoming, silence);
    assert(final(out)@ == filled(received(incoming), old(out)@.len(), silence));
}

/// Every sample of a callback that found nothing to play is silence.
pub proof fn lemma_silence_without_samples<T>(n: nat, silence: T)
    ensures
        forall|i: int| 0 <= i < n ==> #[trigger] filled(None::<Seq<T>>, n, silence)[i] == silence,
        filled(None::<Seq<T>>, n, silence).len() == n,
{
}

/// Requests to the sink's control thread.
#[derive(Clone, Copy, Debug, PartialEq, Eq, Structural)]
pub enum AudioCommand {
    Play,
    Pause,
    Stop,
}

/// What the control thread does with its output stream next.
#[derive(Clone, Copy, Debug, PartialEq, Eq, Structural)]
pub enum StreamAction {
    /// Start or resume the stream, then wait for the next request.
    Resume,
    /// Pause the stream, then wait for the next request.
    Pause,
    /// Pause the stream and end the control thread.
    PauseAndExit,
    /// End the control thread: every requester is gone.
    Exit,
}

/// The control thread's rule for one request, `None` once the channel is
/// closed.
pub fn control_action(request: Option<AudioCommand>) -> (r: StreamAction)
    ensures
        r == match request {
            Some(AudioCommand::Play) => StreamAction::Resume,
            Some(AudioCommand::Pause) => StreamAction::Pause,
            Some(AudioCommand::Stop) => StreamAction::PauseAndExit,
            None => StreamAction::Exit,
        },
{
    match request {
        Some(AudioCommand::Play) => StreamAction::Resume,
        Some(AudioCommand::Pause) => StreamAction::Pause,
        Some(AudioCommand::Stop) => StreamAction::PauseAndExit,
        None => StreamAction::Exit,
    }
}

/// Whether the control thread keeps running after an action.
pub open spec fn continues(a: StreamAction) -> bool {
    a == StreamAction::Resume || a == StreamAction::Pause
}

/// Room in the control channel for requests not yet taken.
pub const CONTROL_CAPACITY: usize = 16;

/// The controller's handle on a running audio sink, with the log of every
/// request handed to its control thread. The device stream is started as
/// soon as the sink exists; requests only pause and resume it.
pub struct AudioOutput {
    command_sender: Sender<AudioCommand>,
    sample_rate: u32,
    channels: u16,
    sent: Ghost<Seq<AudioCommand>>,
}

impl AudioOutput {
    /// A handle for a sink of the given format, with the receiving end of
    /// its control channel for the thread that owns the device stream.
    pub fn new(sample_rate: u32, channels: u16) -> (r: (AudioOutput, Receiver<AudioCommand>))
        ensures
            r.0.sample_rate() == sample_rate,
            r.0.channels() == channels,
            r.0.sent() == Seq::<AudioCommand>::empty(),
    {
        let (command_sender, command_receiver) = open_bounded(CONTROL_CAPACITY);
        (
            AudioOutput { command_sender, sample_rate, channels, sent: Ghost(Seq::empty()) },
            command_receiver,
        )
    }

    pub closed spec fn sample_rate(&self) -> u32 {
        self.sample_rate
    }

    pub closed spec fn channels(&self) -> u16 {
        self.channels
    }

    /// The requests handed to the control thread so far, oldest first;
    /// a request is logged whether or not the thread is still there.
    pub closed spec fn sent(&self) -> Seq<AudioCommand> {
        self.sent@
    }

    fn request(&mut self, cmd: AudioCommand)
        ensures
            final(self).sent() == old(self).sent().push(cmd),
            final(self).sample_rate() == old(self).sample_rate(),
            final(self).channels() == old(self).channels(),
    {
        let _ = send_message(&self.command_sender, cmd);
        self.sent = Ghost(self.sent@.push(cmd));
    }

    /// Asks the control thread to pause the stream and exit.
    pub fn stop(&mut self)
        ensures
            final(self).sent() == old(self).sent().push(AudioCommand::Stop),
            final(self).sample_rate() == old(self).sample_rate(),
            final(self).channels() == old(self).channels(),
    {
        self.request(AudioCommand::Stop);
    }

    /// Asks the control thread to pause the stream.
    pub fn pause(&mut self)
        ensures
            final(self).sent() == old(self).sent().push(AudioCommand::Pause),
            final(self).sample_rate() == old(self).sample_rate(),
            final(self).channels() == old(self).channels(),
    {
        self.request(AudioCommand::Pause);
    }

    /// Asks the control thread to resume the stream.
    pub fn resume(&mut self)
        ensures
            final(self).sent() == old(self).sent().push(AudioCommand::Play),
            final(self).sample_rate() == old(self).sample_rate(),
            final(self).channels() == old(self).channels(),
    {
        self.request(AudioCommand::Play);
    }
}

/// Why a sample buffer could not be queued.
#[derive(Clone, Copy, Debug, PartialEq, Eq, Structural)]
pub enum SinkError {
    /// The sink's receiving end is gone.
    Disconnected,
}

/// An owned copy of a run of samples.
pub fn copy_samples<S: Copy>(samples: &[S]) -> (r: Vec<S>)
    ensures
        r@ == samples@,
{
    let mut copy: Vec<S> = Vec::new();
    let mut i: usize = 0;
    while i < samples.len()
        invariant
            0 <= i <= samples@.len(),
            copy@ == samples@.subrange(0, i as int),
        decreases samples@.len() - i,
    {
        copy.push(samples[i]);
        i = i + 1;
        assert(copy@ =~= samples@.subrange(0, i as int));
    }
    assert(copy@ =~= samples@);
    copy
}

/// The producing end of a sample channel, with the log of every buffer
/// handed to it.
#[verifier::reject_recursive_types(S)]
pub struct AudioBuffer<S> {
    sender: Sender<Vec<S>>,
    sent: Ghost<Seq<Seq<S>>>,
}

impl<S: Copy> AudioBuffer<S> {
    /// The buffers handed to the channel so far, oldest first.
    pub closed spec fn sent(&self) -> Seq<Seq<S>> {
        self.sent@
    }

    pub fn new(sender: Sender<Vec<S>>) -> (r: Self)
        ensures
            r.sent() == Seq::<Seq<S>>::empty(),
    {
        AudioBuffer { sender, sent: Ghost(Seq::empty()) }
    }

    /// Queues a copy of `samples` for the sink; `Err` when the sink is gone.
    pub fn push_samples(&mut self, samples: &[S]) -> (r: Result<(), SinkError>)
        ensures
            final(self).sent() == old(self).sent().push(samples@),
            r.is_err() ==> r == Err::<(), SinkError>(SinkError::Disconnected),
    {
        let copy = copy_samples(samples);
        let ok = send_message(&self.sender, copy);
        self.sent = Ghost(self.sent@.push(samples@));
        if ok {
            Ok(())
        } else {
            Err(SinkError::Disconnected)
        }
    }
}

/// A fresh sample channel: one per loaded source with audio.
pub fn create_sample_channel<S>() -> (Sender<Vec<S>>, Receiver<Vec<S>>) {
    open_unbounded()
}

} // verus!
