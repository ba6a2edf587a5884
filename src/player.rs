//! The playback controller: the single entry point for callers. It keeps the
//! transport state, sequences the engine and the audio sink, and answers
//! status requests from its own fields.
use crate::channel::send_message;
use crate::decoder::{EngineError, MediaDecoder};
use crate::engine::{DecoderCommand, DecoderInfo, FrameData, VideoFrame, DEFAULT_VOLUME, VOLUME_FULL};
use crate::sink::{create_sample_channel, AudioCommand, AudioOutput};
use crossbeam_channel::{Receiver, Sender};
use vstd::prelude::*;

verus! {

/// The controller's transport state.
#[derive(Clone, Copy, Debug, PartialEq, Eq, Structural)]
pub enum PlaybackState {
    Stopped,
    Playing,
    Paused,
    Ended,
}

/// A snapshot of the controller, computed on request.
#[derive(Clone, Debug)]
pub struct PlayerStatus {
    pub is_playing: bool,
    /// Microseconds.
    pub current_time: i64,
    /// Microseconds.
    pub duration: i64,
    /// Thousandths of full volume.
    pub volume: u32,
    pub file_path: Option<String>,
    pub has_video: bool,
    pub has_audio: bool,
    pub video_width: u32,
    pub video_height: u32,
}

/// The controller as a value: its transport fields, the requests it has
/// handed to the engine and to its audio sinks, and whether it holds the
/// producing end of a sample channel.
pub ghost struct PlayerModel {
    pub state: PlaybackState,
    pub current_time: int,
    pub duration: int,
    pub volume: int,
    pub file_path: Option<String>,
    pub has_video: bool,
    pub has_audio: bool,
    pub video_width: u32,
    pub video_height: u32,
    /// Every command handed to the engine, oldest first.
    pub engine_log: Seq<DecoderCommand>,
    /// The request log of the audio sink held, if one is.
    pub sink: Option<Seq<AudioCommand>>,
    /// The final request logs of the sinks torn down, oldest first.
    pub retired_sinks: Seq<Seq<AudioCommand>>,
    pub has_sample_channel: bool,
}

/// `v` held within `[lo, hi]`.
pub open spec fn clamp(v: int, lo: int, hi: int) -> int {
    if v < lo {
        lo
    } else if v > hi {
        hi
    } else {
        v
    }
}

/// The log of a held sink after one more request; no sink, no request.
pub open spec fn sink_after(sink: Option<Seq<AudioCommand>>, c: AudioCommand) -> Option<
    Seq<AudioCommand>,
> {
    match sink {
        Some(log) => Some(log.push(c)),
        None => None,
    }
}

/// The model after `stop`: `Stop` handed to the engine and to the held sink,
/// which is then dropped; stopped at time zero.
pub open spec fn stopped(m: PlayerModel) -> PlayerModel {
    PlayerModel {
        state: PlaybackState::Stopped,
        current_time: 0,
        engine_log: m.engine_log.push(DecoderCommand::Stop),
        sink: None,
        retired_sinks: match m.sink {
            Some(log) => m.retired_sinks.push(log.push(AudioCommand::Stop)),
            None => m.retired_sinks,
        },
        has_sample_channel: false,
        ..m
    }
}

/// The model after a successful `play`: the engine gets `Play` unless it is
/// already playing; a held sink is resumed.
pub open spec fn played(m: PlayerModel) -> PlayerModel {
    PlayerModel {
        state: PlaybackState::Playing,
        engine_log: if m.state == PlaybackState::Playing {
            m.engine_log
        } else {
            m.engine_log.push(DecoderCommand::Play)
        },
        sink: sink_after(m.sink, AudioCommand::Play),
        ..m
    }
}

/// The model after a `play` whose command the engine did not take: only the
/// command handed over; the sink gets nothing.
pub open spec fn play_refused(m: PlayerModel) -> PlayerModel {
    PlayerModel { engine_log: m.engine_log.push(DecoderCommand::Play), ..m }
}

/// The model after a successful `pause`: only a playing controller pauses,
/// handing `Pause` to the engine and to a held sink.
pub open spec fn paused(m: PlayerModel) -> PlayerModel {
    if m.state == PlaybackState::Playing {
        PlayerModel {
            state: PlaybackState::Paused,
            engine_log: m.engine_log.push(DecoderCommand::Pause),
            sink: sink_after(m.sink, AudioCommand::Pause),
            ..m
        }
    } else {
        m
    }
}

/// The model after a `pause` whose command the engine did not take.
pub open spec fn pause_refused(m: PlayerModel) -> PlayerModel {
    PlayerModel { engine_log: m.engine_log.push(DecoderCommand::Pause), ..m }
}

/// Where a seek to `time` lands.
pub open spec fn seek_target(m: PlayerModel, time: int) -> int {
    clamp(time, 0, m.duration)
}

/// The model after a successful `seek`: the engine gets the held target.
pub open spec fn sought(m: PlayerModel, time: int) -> PlayerModel {
    PlayerModel {
        current_time: seek_target(m, time),
        engine_log: m.engine_log.push(DecoderCommand::Seek(seek_target(m, time) as i64)),
        ..m
    }
}

/// The model after a `seek` whose command the engine did not take.
pub open spec fn seek_refused(m: PlayerModel, time: int) -> PlayerModel {
    PlayerModel {
        engine_log: m.engine_log.push(DecoderCommand::Seek(seek_target(m, time) as i64)),
        ..m
    }
}

/// The model after `set_volume`: the held volume kept and handed to the
/// engine.
pub open spec fn with_volume(m: PlayerModel, volume: int) -> PlayerModel {
    PlayerModel {
        volume: clamp(volume, 0, VOLUME_FULL as int),
        engine_log: m.engine_log.push(
            DecoderCommand::SetVolume(clamp(volume, 0, VOLUME_FULL as int) as u32),
        ),
        ..m
    }
}

/// A reported duration, with an unknown (negative) one counted as zero.
pub open spec fn known_duration(d: i64) -> int {
    if d < 0 {
        0
    } else {
        d as int
    }
}

/// The model after a load of `path` (held as `s`) was handed to the engine:
/// the earlier session torn down first.
pub open spec fn load_sent(m: PlayerModel, s: String, video: Option<Sender<VideoFrame>>) -> PlayerModel {
    PlayerModel {
        engine_log: stopped(m).engine_log.push(DecoderCommand::Load(s, video)),
        ..stopped(m)
    }
}

/// The model after a successful load that found `info`: the new source's
/// fields taken, and a sample channel held when it has audio; its sink is
/// attached next.
pub open spec fn loaded(
    m: PlayerModel,
    s: String,
    video: Option<Sender<VideoFrame>>,
    info: DecoderInfo,
) -> PlayerModel {
    PlayerModel {
        state: PlaybackState::Stopped,
        current_time: 0,
        duration: known_duration(info.duration),
        file_path: info.file_path,
        has_video: info.has_video,
        has_audio: info.has_audio,
        video_width: info.video_width,
        video_height: info.video_height,
        has_sample_channel: info.has_audio,
        ..load_sent(m, s, video)
    }
}

/// The model after a sink with request log `log` was attached.
pub open spec fn attached(m: PlayerModel, log: Seq<AudioCommand>) -> PlayerModel {
    PlayerModel { sink: Some(log), ..m }
}

/// The snapshot of a model.
pub open spec fn status_of(m: PlayerModel) -> PlayerStatus {
    PlayerStatus {
        is_playing: m.state == PlaybackState::Playing,
        current_time: m.current_time as i64,
        duration: m.duration as i64,
        volume: m.volume as u32,
        file_path: m.file_path,
        has_video: m.has_video,
        has_audio: m.has_audio,
        video_width: m.video_width,
        video_height: m.video_height,
    }
}

/// The media player: one decode session at a time, an audio sink while the
/// source has audio, and the cached transport fields.
#[verifier::reject_recursive_types(S)]
pub struct MediaPlayer<S> {
    decoder: MediaDecoder<S>,
    audio_output: Option<AudioOutput>,
    sample_sender: Option<Sender<Vec<S>>>,
    state: PlaybackState,
    current_time: i64,
    duration: i64,
    volume: u32,
    file_path: Option<String>,
    has_video: bool,
    has_audio: bool,
    video_width: u32,
    video_height: u32,
    retired: Ghost<Seq<Seq<AudioCommand>>>,
    delivered: Ghost<Seq<Seq<S>>>,
}

impl<S> View for MediaPlayer<S> {
    type V = PlayerModel;

    closed spec fn view(&self) -> PlayerModel {
        PlayerModel {
            state: self.state,
            current_time: self.current_time as int,
            duration: self.duration as int,
            volume: self.volume as int,
            file_path: self.file_path,
            has_video: self.has_video,
            has_audio: self.has_audio,
            video_width: self.video_width,
            video_height: self.video_height,
            engine_log: self.decoder.sent(),
            sink: match self.audio_output {
                Some(o) => Some(o.sent()),
                None => None,
            },
            retired_sinks: self.retired@,
            has_sample_channel: self.sample_sender is Some,
        }
    }
}

/// A model that a controller can be in: the time within the source, the
/// volume within its range.
pub open spec fn model_wf(m: PlayerModel) -> bool {
    0 <= m.current_time <= m.duration <= i64::MAX && 0 <= m.volume <= VOLUME_FULL
}

impl<S> MediaPlayer<S> {
    pub open spec fn wf(&self) -> bool {
        model_wf(self@)
    }

    /// The sample buffers handed to sample channels so far, oldest first.
    pub closed spec fn delivered(&self) -> Seq<Seq<S>> {
        self.delivered@
    }

    /// A stopped player with nothing loaded, driving the engine behind
    /// `decoder`.
    pub fn new(decoder: MediaDecoder<S>) -> (r: MediaPlayer<S>)
        ensures
            r.wf(),
            r@ == (PlayerModel {
                state: PlaybackState::Stopped,
                current_time: 0,
                duration: 0,
                volume: DEFAULT_VOLUME as int,
                file_path: None,
                has_video: false,
                has_audio: false,
                video_width: 0,
                video_height: 0,
                engine_log: decoder.sent(),
                sink: None,
                retired_sinks: Seq::empty(),
                has_sample_channel: false,
            }),
            r.delivered() == Seq::<Seq<S>>::empty(),
    {
        MediaPlayer {
            decoder,
            audio_output: None,
            sample_sender: None,
            state: PlaybackState::Stopped,
            current_time: 0,
            duration: 0,
            volume: DEFAULT_VOLUME,
            file_path: None,
            has_video: false,
            has_audio: false,
            video_width: 0,
            video_height: 0,
            retired: Ghost(Seq::empty()),
            delivered: Ghost(Seq::empty()),
        }
    }

    /// Tears down the current session (`Stop` to the engine and the sink),
    /// then hands `Load` to the engine and waits for what it found. When the
    /// source has audio, a fresh sample channel is opened: its receiving end
    /// is returned for the sink that is to be attached with
    /// `attach_audio_output`.
    pub fn load(&mut self, path: &str, video_sender: Option<Sender<VideoFrame>>) -> (r: Result<
        (PlayerStatus, Option<Receiver<Vec<S>>>),
        EngineError,
    >)
        requires
            old(self).wf(),
        ensures
            final(self).wf(),
            final(self).delivered() == old(self).delivered(),
            exists|s: String|
                #[trigger] s@ == path@ && match r {
                    Ok((status, samples)) => exists|info: DecoderInfo|
                        final(self)@ == #[trigger] loaded(old(self)@, s, video_sender, info)
                            && status == status_of(final(self)@) && samples is Some
                            == info.has_audio,
                    Err(e) => final(self)@ == load_sent(old(self)@, s, video_sender) && (e
                        == EngineError::CommandChannelClosed || e
                        == EngineError::InfoChannelClosed),
                },
    {
        self.stop();
        let ghost before = self.decoder.sent();
        let ghost vs = video_sender;
        let answer = self.decoder.load(path, video_sender);
        let ghost s = choose|s: String|
            #[trigger] s@ == path@ && self.decoder.sent() == before.push(DecoderCommand::Load(s, vs));
        let info = match answer {
            Ok(info) => info,
            Err(e) => {
                assert(self@ == load_sent(old(self)@, s, vs));
                return Err(e);
            },
        };
        let ghost got = info;
        self.has_video = info.has_video;
        self.has_audio = info.has_audio;
        self.video_width = info.video_width;
        self.video_height = info.video_height;
        self.duration = if info.duration < 0 {
            0
        } else {
            info.duration
        };
        self.file_path = info.file_path;
        self.current_time = 0;
        self.state = PlaybackState::Stopped;
        let samples = if self.has_audio {
            let (sample_sender, sample_receiver) = create_sample_channel();
            self.sample_sender = Some(sample_sender);
            Some(sample_receiver)
        } else {
            None
        };
        let status = self.get_status();
        assert(self@ == loaded(old(self)@, s, vs, got));
        Ok((status, samples))
    }

    /// Attaches the sink built for the loaded source's sample channel.
    pub fn attach_audio_output(&mut self, output: AudioOutput)
        requires
            old(self)@.has_audio,
            old(self)@.sink is None,
        ensures
            final(self)@ == attached(old(self)@, output.sent()),
            final(self).delivered() == old(self).delivered(),
    {
        self.audio_output = Some(output);
    }

    /// Starts or resumes playback.
    pub fn play(&mut self) -> (r: Result<(), EngineError>)
        requires
            old(self).wf(),
        ensures
            final(self).wf(),
            final(self).delivered() == old(self).delivered(),
            match r {
                Ok(()) => final(self)@ == played(old(self)@),
                Err(e) => e == EngineError::CommandChannelClosed && old(self)@.state
                    != PlaybackState::Playing && final(self)@ == play_refused(old(self)@),
            },
    {
        match self.state {
            PlaybackState::Stopped | PlaybackState::Ended | PlaybackState::Paused => {
                self.decoder.play()?;
            },
            PlaybackState::Playing => {},
        }
        match &mut self.audio_output {
            Some(output) => output.resume(),
            None => {},
        }
        self.state = PlaybackState::Playing;
        Ok(())
    }

    /// Pauses playback; anything but a playing controller is left as it is,
    /// and nothing is sent.
    pub fn pause(&mut self) -> (r: Result<(), EngineError>)
        requires
            old(self).wf(),
        ensures
            final(self).wf(),
            final(self).delivered() == old(self).delivered(),
            old(self)@.state != PlaybackState::Playing ==> r is Ok && final(self)@ == old(self)@,
            match r {
                Ok(()) => final(self)@ == paused(old(self)@),
                Err(e) => e == EngineError::CommandChannelClosed && old(self)@.state
                    == PlaybackState::Playing && final(self)@ == pause_refused(old(self)@),
            },
    {
        if self.state == PlaybackState::Playing {
            self.decoder.pause()?;
            match &mut self.audio_output {
                Some(output) => output.pause(),
                None => {},
            }
            self.state = PlaybackState::Paused;
        }
        Ok(())
    }

    /// Stops playback: `Stop` to the engine and to the sink, which is then
    /// dropped. Always safe to call.
    pub fn stop(&mut self)
        requires
            old(self).wf(),
        ensures
            final(self).wf(),
            final(self).delivered() == old(self).delivered(),
            final(self)@ == stopped(old(self)@),
    {
        let _ = self.decoder.stop();
        match &mut self.audio_output {
            Some(output) => output.stop(),
            None => {},
        }
        let ghost retired = match &self.audio_output {
            Some(o) => self.retired@.push(o.sent()),
            None => self.retired@,
        };
        self.retired = Ghost(retired);
        self.state = PlaybackState::Stopped;
        self.current_time = 0;
        self.audio_output = None;
        self.sample_sender = None;
    }

    /// Seeks to `time` microseconds, held within the source. The cached time
    /// is updated without waiting for the engine to finish the seek.
    pub fn seek(&mut self, time: i64) -> (r: Result<(), EngineError>)
        requires
            old(self).wf(),
        ensures
            final(self).wf(),
            final(self).delivered() == old(self).delivered(),
            match r {
                Ok(()) => final(self)@ == sought(old(self)@, time as int),
                Err(e) => e == EngineError::CommandChannelClosed && final(self)@ == seek_refused(
                    old(self)@,
                    time as int,
                ),
            },
    {
        let t: i64 = if time < 0 {
            0
        } else if time > self.duration {
            self.duration
        } else {
            time
        };
        self.decoder.seek(t)?;
        self.current_time = t;
        Ok(())
    }

    /// Sets the volume in thousandths of full volume, held within
    /// `[0, VOLUME_FULL]`, and hands it to the engine for later samples.
    pub fn set_volume(&mut self, volume: i64)
        requires
            old(self).wf(),
        ensures
            final(self).wf(),
            final(self).delivered() == old(self).delivered(),
            final(self)@ == with_volume(old(self)@, volume as int),
            final(self)@.volume == clamp(volume as int, 0, VOLUME_FULL as int),
    {
        let v: u32 = if volume < 0 {
            0
        } else if volume > VOLUME_FULL as i64 {
            VOLUME_FULL
        } else {
            volume as u32
        };
        self.volume = v;
        let _ = self.decoder.set_volume(v);
    }

    /// The current snapshot.
    pub fn get_status(&self) -> (r: PlayerStatus)
        requires
            self.wf(),
        ensures
            r == status_of(self@),
    {
        let file_path = match &self.file_path {
            Some(p) => Some(p.clone()),
            None => None,
        };
        PlayerStatus {
            is_playing: self.state == PlaybackState::Playing,
            current_time: self.current_time,
            duration: self.duration,
            volume: self.volume,
            file_path,
            has_video: self.has_video,
            has_audio: self.has_audio,
            video_width: self.video_width,
            video_height: self.video_height,
        }
    }

    pub fn get_state(&self) -> (r: PlaybackState)
        ensures
            r == self@.state,
    {
        self.state
    }

    /// The volume in thousandths of full volume.
    pub fn get_volume(&self) -> (r: u32)
        ensures
            r == self@.volume,
    {
        self.volume
    }

    /// Waits for the engine's next frame event.
    pub fn next_frame(&self) -> (r: Result<FrameData<S>, EngineError>)
        ensures
            r.is_err() ==> r == Err::<FrameData<S>, EngineError>(EngineError::FrameChannelClosed),
    {
        self.decoder.recv_frame()
    }

    /// Hands decoded samples to the current source's sample channel:
    /// `false` when the source has none or its sink is gone.
    pub fn deliver_samples(&mut self, samples: Vec<S>) -> (r: bool)
        ensures
            final(self)@ == old(self)@,
            old(self)@.has_sample_channel ==> final(self).delivered() == old(
                self,
            ).delivered().push(samples@),
            !old(self)@.has_sample_channel ==> !r && final(self).delivered() == old(
                self,
            ).delivered(),
    {
        let ghost handed = samples@;
        match &self.sample_sender {
            Some(tx) => {
                let ok = send_message(tx, samples);
                self.delivered = Ghost(self.delivered@.push(handed));
                ok
            },
            None => false,
        }
    }

    /// Passes one engine event on: the samples of an audio frame go to the
    /// sample channel, video frames have already gone to their own outlet.
    /// `true` at the end of the source.
    pub fn forward_frame(&mut self, frame: FrameData<S>) -> (ended: bool)
        ensures
            ended == frame is EndOfFile,
            final(self)@ == old(self)@,
            final(self).delivered() == match frame {
                FrameData::Audio(a) => if old(self)@.has_sample_channel {
                    old(self).delivered().push(a.samples@)
                } else {
                    old(self).delivered()
                },
                _ => old(self).delivered(),
            },
    {
        match frame {
            FrameData::Audio(a) => {
                let _ = self.deliver_samples(a.samples);
                false
            },
            FrameData::Video(_) => false,
            FrameData::EndOfFile => true,
        }
    }
}

/// Pauses a playing player, plays any other; `Ok(true)` when it now plays.
pub fn toggle_playback<S>(player: &mut MediaPlayer<S>) -> (r: Result<bool, EngineError>)
    requires
        old(player).wf(),
    ensures
        final(player).wf(),
        match r {
            Ok(true) => old(player)@.state != PlaybackState::Playing && final(player)@ == played(
                old(player)@,
            ),
            Ok(false) => old(player)@.state == PlaybackState::Playing && final(player)@ == paused(
                old(player)@,
            ),
            Err(e) => e == EngineError::CommandChannelClosed && final(player)@ == if old(
                player,
            )@.state == PlaybackState::Playing {
                pause_refused(old(player)@)
            } else {
                play_refused(old(player)@)
            },
        },
{
    if player.get_state() == PlaybackState::Playing {
        player.pause()?;
        Ok(false)
    } else {
        player.play()?;
        Ok(true)
    }
}

/// Stopping twice gives the snapshot of stopping once: stopped at time zero
/// with no sink. The first stop hands `Stop` to the held sink; the second
/// hands one more `Stop` to the engine and retires no sink.
pub proof fn lemma_stop_twice(m: PlayerModel)
    ensures
        status_of(stopped(stopped(m))) == status_of(stopped(m)),
        stopped(stopped(m)) == (PlayerModel {
            engine_log: stopped(m).engine_log.push(DecoderCommand::Stop),
            ..stopped(m)
        }),
        stopped(m).state == PlaybackState::Stopped,
        !status_of(stopped(m)).is_playing,
        status_of(stopped(m)).current_time == 0,
        stopped(m).sink is None,
        stopped(m).engine_log == m.engine_log.push(DecoderCommand::Stop),
        m.sink is Some ==> stopped(m).retired_sinks == m.retired_sinks.push(
            m.sink->0.push(AudioCommand::Stop),
        ),
{
}

/// Pausing a stopped player leaves it stopped, not paused, and sends
/// nothing to the engine or the sink.
pub proof fn lemma_pause_when_stopped(m: PlayerModel)
    requires
        m.state == PlaybackState::Stopped,
    ensures
        paused(m) == m,
        paused(m).state == PlaybackState::Stopped,
        paused(m).engine_log == m.engine_log,
        paused(m).sink == m.sink,
{
}

/// Play, pause and play again ends playing with no new load: the engine
/// gets `Pause` then `Play` after the first play, and every other field is
/// as the first play left it.
pub proof fn lemma_play_pause_play(m: PlayerModel)
    ensures
        played(paused(played(m))) == (PlayerModel {
            engine_log: played(m).engine_log.push(DecoderCommand::Pause).push(DecoderCommand::Play),
            sink: sink_after(sink_after(played(m).sink, AudioCommand::Pause), AudioCommand::Play),
            ..played(m)
        }),
        played(paused(played(m))).state == PlaybackState::Playing,
{
}

/// A load after a load tears the first session down: the first source's
/// sink gets `Stop` and is retired, and the engine gets `Stop` before the
/// second `Load`.
pub proof fn lemma_reload_tears_down(
    m: PlayerModel,
    first: String,
    first_video: Option<Sender<VideoFrame>>,
    first_info: DecoderInfo,
    sink_log: Seq<AudioCommand>,
    second: String,
    second_video: Option<Sender<VideoFrame>>,
    second_info: DecoderInfo,
)
    ensures
        ({
            let one = attached(loaded(m, first, first_video, first_info), sink_log);
            let two = loaded(one, second, second_video, second_info);
            &&& two.sink is None
            &&& two.retired_sinks == one.retired_sinks.push(sink_log.push(AudioCommand::Stop))
            &&& two.engine_log == one.engine_log.push(DecoderCommand::Stop).push(
                DecoderCommand::Load(second, second_video),
            )
            &&& two.has_sample_channel == second_info.has_audio
        }),
{
}

/// A source without audio gets no sample channel and no sink.
pub proof fn lemma_no_audio_no_sink(
    m: PlayerModel,
    s: String,
    video: Option<Sender<VideoFrame>>,
    info: DecoderInfo,
)
    requires
        !info.has_audio,
    ensures
        !loaded(m, s, video, info).has_audio,
        loaded(m, s, video, info).sink is None,
        !loaded(m, s, video, info).has_sample_channel,
{
}

/// A seek stores and sends the target held within `[0, duration]`, and a
/// volume is held within `[0, VOLUME_FULL]`, for targets and volumes
/// outside the range too.
pub proof fn lemma_clamped_inputs(m: PlayerModel, time: int, volume: int)
    requires
        model_wf(m),
    ensures
        time < 0 ==> sought(m, time).current_time == 0,
        time > m.duration ==> sought(m, time).current_time == m.duration,
        0 <= sought(m, time).current_time <= m.duration,
        sought(m, time).engine_log.last() == DecoderCommand::Seek(
            sought(m, time).current_time as i64,
        ),
        volume < 0 ==> with_volume(m, volume).volume == 0,
        volume > VOLUME_FULL ==> with_volume(m, volume).volume == VOLUME_FULL,
        with_volume(m, volume).engine_log.last() == DecoderCommand::SetVolume(
            with_volume(m, volume).volume as u32,
        ),
        model_wf(sought(m, time)),
        model_wf(with_volume(m, volume)),
{
}

} // verus!
