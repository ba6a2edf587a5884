//! The decoder engine's decisions. The engine thread owns the native
//! demuxer, decoders and converters; every choice it makes about them
//! (which streams to use, what a command does, whether to decode, where a
//! packet goes, what a frame's timestamp is) is made here.
use crossbeam_channel::Sender;
use vstd::prelude::*;

verus! {

/// Microseconds in one second: the unit of every time in this crate.
pub const MICROS_PER_SECOND: i64 = 1000000;

/// Full volume; volumes are thousandths of it, from `0` to `VOLUME_FULL`.
pub const VOLUME_FULL: u32 = 1000;

/// The volume a new engine or player starts with.
pub const DEFAULT_VOLUME: u32 = 800;

/// The fixed output rate of resampled audio, in samples per second.
pub const OUTPUT_SAMPLE_RATE: u32 = 44100;

/// The fixed channel count of resampled audio (interleaved stereo).
pub const OUTPUT_CHANNELS: u16 = 2;

/// Bytes in one resampled sample (32-bit float).
pub const SAMPLE_BYTES: usize = 4;

/// One decoded video frame, rescaled to RGBA: `width * height * 4` bytes.
#[derive(Clone, Debug)]
pub struct VideoFrame {
    pub width: u32,
    pub height: u32,
    pub data: Vec<u8>,
    /// Presentation time in microseconds.
    pub timestamp: i64,
}

/// One resampled audio frame: interleaved stereo samples.
#[derive(Clone, Debug)]
pub struct AudioFrame<S> {
    pub samples: Vec<S>,
    /// Presentation time in microseconds.
    pub timestamp: i64,
}

/// What the engine thread emits on its frame outlet.
#[derive(Clone, Debug)]
pub enum FrameData<S> {
    Video(VideoFrame),
    Audio(AudioFrame<S>),
    EndOfFile,
}

/// Commands to the engine thread, delivered in the order they were issued.
pub enum DecoderCommand {
    /// Open a source, with an optional outlet for its video frames.
    Load(String, Option<Sender<VideoFrame>>),
    Play,
    Pause,
    Stop,
    /// Seek to a time in microseconds.
    Seek(i64),
    /// Set the volume in thousandths of full volume.
    SetVolume(u32),
}

/// What a load found, sent once per successful load.
#[derive(Clone, Debug)]
pub struct DecoderInfo {
    pub has_video: bool,
    pub has_audio: bool,
    pub video_width: u32,
    pub video_height: u32,
    /// Total duration in microseconds; zero when the container does not say.
    pub duration: i64,
    pub file_path: Option<String>,
}

/// The medium of one stream of a container.
#[derive(Clone, Copy, Debug, PartialEq, Eq, Structural)]
pub enum MediaKind {
    Audio,
    Video,
    Other,
}

/// The streams used for playback: the first of each medium.
#[derive(Clone, Copy, Debug, PartialEq, Eq, Structural)]
pub struct StreamChoice {
    pub audio: Option<usize>,
    pub video: Option<usize>,
}

/// `r` is the index of the first stream of medium `k`, or `None` when there
/// is none.
pub open spec fn is_first_of(kinds: Seq<MediaKind>, k: MediaKind, r: Option<usize>) -> bool {
    match r {
        Some(i) => i < kinds.len() && kinds[i as int] == k && forall|j: int|
            0 <= j < i ==> kinds[j] != k,
        None => forall|j: int| 0 <= j < kinds.len() ==> kinds[j] != k,
    }
}

/// Picks the first audio and the first video stream; the others are ignored.
pub fn select_streams(kinds: &Vec<MediaKind>) -> (r: StreamChoice)
    ensures
        is_first_of(kinds@, MediaKind::Audio, r.audio),
        is_first_of(kinds@, MediaKind::Video, r.video),
{
    let mut audio: Option<usize> = None;
    let mut video: Option<usize> = None;
    let mut i: usize = 0;
    while i < kinds.len()
        invariant
            0 <= i <= kinds@.len(),
            is_first_of(kinds@.subrange(0, i as int), MediaKind::Audio, audio),
            is_first_of(kinds@.subrange(0, i as int), MediaKind::Video, video),
        decreases kinds@.len() - i,
    {
        let k = kinds[i];
        match k {
            MediaKind::Audio => if audio.is_none() {
                audio = Some(i);
            },
            MediaKind::Video => if video.is_none() {
                video = Some(i);
            },
            MediaKind::Other => {},
        }
        i = i + 1;
    }
    assert(kinds@.subrange(0, kinds@.len() as int) =~= kinds@);
    StreamChoice { audio, video }
}

/// The unit of a stream's timestamps: `num / den` seconds.
#[derive(Clone, Copy, Debug, PartialEq, Eq, Structural)]
pub struct TimeBase {
    pub num: i32,
    pub den: i32,
}

/// Division rounding toward zero.
pub open spec fn div_toward_zero(a: int, b: int) -> int {
    let q: int = vstd::math::abs(a) as int / vstd::math::abs(b) as int;
    if (a < 0) != (b < 0) {
        -q
    } else {
        q
    }
}

/// `v` held within the range of `i64`.
pub open spec fn saturate_i64(v: int) -> int {
    if v < i64::MIN {
        i64::MIN as int
    } else if v > i64::MAX {
        i64::MAX as int
    } else {
        v
    }
}

/// A timestamp of `pts` units of `tb`, in microseconds: zero when the frame
/// has none or the time base is degenerate.
pub open spec fn micros_of(pts: Option<i64>, tb: TimeBase) -> int {
    match pts {
        Some(p) => if tb.den == 0 {
            0
        } else {
            saturate_i64(div_toward_zero(p * tb.num * MICROS_PER_SECOND, tb.den as int))
        },
        None => 0,
    }
}

/// Converts a frame's timestamp in its stream's time base to microseconds.
pub fn timestamp_micros(pts: Option<i64>, tb: TimeBase) -> (r: i64)
    ensures
        r == micros_of(pts, tb),
{
    match pts {
        None => 0,
        Some(p) => {
            if tb.den == 0 {
                return 0;
            }
            assert(-0x8000_0000_0000_0000 * 0x8000_0000 <= p * tb.num <= 0x8000_0000_0000_0000
                * 0x8000_0000) by (nonlinear_arith)
                requires
                    i64::MIN <= p <= i64::MAX,
                    i32::MIN <= tb.num <= i32::MAX,
            ;
            let a: i128 = p as i128 * tb.num as i128;
            let n: i128 = a * 1000000;
            let mag_n: u128 = if n < 0 {
                (-n) as u128
            } else {
                n as u128
            };
            let mag_d: u128 = if tb.den < 0 {
                (-(tb.den as i128)) as u128
            } else {
                tb.den as u128
            };
            let q: u128 = mag_n / mag_d;
            assert(q <= mag_n) by (nonlinear_arith)
                requires
                    q == mag_n / mag_d,
                    mag_d > 0,
            ;
            let signed: i128 = if (n < 0) != (tb.den < 0) {
                -(q as i128)
            } else {
                q as i128
            };
            if signed < i64::MIN as i128 {
                i64::MIN
            } else if signed > i64::MAX as i128 {
                i64::MAX
            } else {
                signed as i64
            }
        },
    }
}

/// What the engine thread managed to build for one selected stream.
#[derive(Clone, Copy, Debug, PartialEq, Eq, Structural)]
pub struct TrackSetup {
    pub stream: usize,
    pub time_base: TimeBase,
    /// The decoder for the stream opened.
    pub decoder_opened: bool,
    /// The resampler (audio) or scaler (video) for its frames opened.
    pub converter_opened: bool,
    /// The decoder's frame size; zero for audio.
    pub width: u32,
    pub height: u32,
}

/// A track that frames are decoded from.
#[derive(Clone, Copy, Debug, PartialEq, Eq, Structural)]
pub struct ActiveTrack {
    pub stream: usize,
    pub time_base: TimeBase,
}

/// The decode session of one loaded source.
#[derive(Clone, Copy, Debug, PartialEq, Eq, Structural)]
pub struct Session {
    pub audio: Option<ActiveTrack>,
    pub video: Option<ActiveTrack>,
    pub duration: i64,
}

/// A track is decoded only when both its decoder and its converter opened;
/// otherwise its medium is reported absent.
pub open spec fn active_track(t: Option<TrackSetup>) -> Option<ActiveTrack> {
    match t {
        Some(s) => if s.decoder_opened && s.converter_opened {
            Some(ActiveTrack { stream: s.stream, time_base: s.time_base })
        } else {
            None
        },
        None => None,
    }
}

/// The session built from a load's tracks and the container's duration.
pub open spec fn session_of(audio: Option<TrackSetup>, video: Option<TrackSetup>, duration: i64) -> Session {
    Session {
        audio: active_track(audio),
        video: active_track(video),
        duration: if duration < 0 {
            0
        } else {
            duration
        },
    }
}

/// The video size a load reports: the decoder's, once it opened.
pub open spec fn reported_size(video: Option<TrackSetup>) -> (u32, u32) {
    match video {
        Some(t) => if t.decoder_opened {
            (t.width, t.height)
        } else {
            (0, 0)
        },
        None => (0, 0),
    }
}

fn activate(t: Option<TrackSetup>) -> (r: Option<ActiveTrack>)
    ensures
        r == active_track(t),
{
    match t {
        Some(s) => if s.decoder_opened && s.converter_opened {
            Some(ActiveTrack { stream: s.stream, time_base: s.time_base })
        } else {
            None
        },
        None => None,
    }
}

/// What the engine thread does to its native state after a command.
#[derive(Clone, Copy, Debug, PartialEq, Eq, Structural)]
pub enum EngineAction {
    /// Open the source named in the load command.
    Open,
    /// Release the container, decoders and converters.
    Release,
    /// Seek the container to a time in microseconds and flush both decoders.
    SeekTo(i64),
    Nothing,
}

/// One turn of the engine loop after its command check.
#[derive(Clone, Copy, Debug, PartialEq, Eq, Structural)]
pub enum LoopStep {
    /// Read and decode the next packet.
    Decode,
    /// Sleep briefly: nothing is playing or nothing is loaded.
    Idle,
}

/// Where a demuxed packet goes.
#[derive(Clone, Copy, Debug, PartialEq, Eq, Structural)]
pub enum PacketRoute {
    Audio,
    Video,
    Skip,
}

/// The engine thread's state apart from its native handles.
pub struct EngineState {
    /// Frames are decoded only while this is set.
    pub playing: bool,
    /// Thousandths of full volume that samples are scaled by.
    pub volume: u32,
    /// The loaded source, if any.
    pub session: Option<Session>,
}

impl EngineState {
    pub open spec fn playing(&self) -> bool {
        self.playing
    }

    pub open spec fn volume_spec(&self) -> u32 {
        self.volume
    }

    pub open spec fn session(&self) -> Option<Session> {
        self.session
    }

    /// The state after a command.
    pub open spec fn after(self, cmd: DecoderCommand) -> EngineState {
        match cmd {
            DecoderCommand::Load(_, _) => self,
            DecoderCommand::Play => EngineState { playing: true, ..self },
            DecoderCommand::Pause => EngineState { playing: false, ..self },
            DecoderCommand::Stop => EngineState { playing: false, session: None, ..self },
            DecoderCommand::Seek(_) => self,
            DecoderCommand::SetVolume(v) => EngineState {
                volume: if v > VOLUME_FULL {
                    VOLUME_FULL
                } else {
                    v
                },
                ..self
            },
        }
    }

    /// The native work that a command asks for.
    pub open spec fn action_for(self, cmd: DecoderCommand) -> EngineAction {
        match cmd {
            DecoderCommand::Load(_, _) => EngineAction::Open,
            DecoderCommand::Stop => EngineAction::Release,
            DecoderCommand::Seek(t) => if self.session is Some {
                EngineAction::SeekTo(t)
            } else {
                EngineAction::Nothing
            },
            _ => EngineAction::Nothing,
        }
    }

    /// The state after the source ran out of packets.
    pub open spec fn after_end(self) -> EngineState {
        EngineState { playing: false, ..self }
    }

    /// The state after a sequence of commands.
    pub open spec fn after_all(self, cmds: Seq<DecoderCommand>) -> EngineState
        decreases cmds.len(),
    {
        if cmds.len() == 0 {
            self
        } else {
            self.after_all(cmds.drop_last()).after(cmds.last())
        }
    }

    pub open spec fn step_spec(&self) -> LoopStep {
        if self.playing() && self.session() is Some {
            LoopStep::Decode
        } else {
            LoopStep::Idle
        }
    }

    /// A new engine: nothing loaded, not playing, default volume.
    pub fn new() -> (r: EngineState)
        ensures
            !r.playing(),
            r.volume_spec() == DEFAULT_VOLUME,
            r.session() is None,
    {
        EngineState { playing: false, volume: DEFAULT_VOLUME, session: None }
    }

    /// Applies a command to the state and says what native work it needs.
    pub fn on_command(&mut self, cmd: &DecoderCommand) -> (r: EngineAction)
        ensures
            *final(self) == old(self).after(*cmd),
            r == old(self).action_for(*cmd),
    {
        match cmd {
            DecoderCommand::Load(_, _) => EngineAction::Open,
            DecoderCommand::Play => {
                self.playing = true;
                EngineAction::Nothing
            },
            DecoderCommand::Pause => {
                self.playing = false;
                EngineAction::Nothing
            },
            DecoderCommand::Stop => {
                self.playing = false;
                self.session = None;
                EngineAction::Release
            },
            DecoderCommand::Seek(t) => {
                if self.session.is_some() {
                    EngineAction::SeekTo(*t)
                } else {
                    EngineAction::Nothing
                }
            },
            DecoderCommand::SetVolume(v) => {
                self.volume = if *v > VOLUME_FULL {
                    VOLUME_FULL
                } else {
                    *v
                };
                EngineAction::Nothing
            },
        }
    }

    /// Installs the session of a source that opened, replacing any earlier
    /// one as a whole, and returns the information a load reports.
    pub fn finish_load(
        &mut self,
        path: String,
        audio: Option<TrackSetup>,
        video: Option<TrackSetup>,
        duration: i64,
    ) -> (r: DecoderInfo)
        ensures
            final(self).session() == Some(session_of(audio, video, duration)),
            final(self).playing() == old(self).playing(),
            final(self).volume_spec() == old(self).volume_spec(),
            r.has_audio == active_track(audio) is Some,
            r.has_video == active_track(video) is Some,
            (r.video_width, r.video_height) == reported_size(video),
            r.duration == session_of(audio, video, duration).duration,
            r.file_path == Some(path),
    {
        let session = Session {
            audio: activate(audio),
            video: activate(video),
            duration: if duration < 0 {
                0
            } else {
                duration
            },
        };
        let (video_width, video_height) = match video {
            Some(t) => if t.decoder_opened {
                (t.width, t.height)
            } else {
                (0, 0)
            },
            None => (0, 0),
        };
        self.session = Some(session);
        DecoderInfo {
            has_video: session.video.is_some(),
            has_audio: session.audio.is_some(),
            video_width,
            video_height,
            duration: session.duration,
            file_path: Some(path),
        }
    }

    /// Whether this turn of the loop decodes or idles.
    pub fn next_step(&self) -> (r: LoopStep)
        ensures
            r == self.step_spec(),
    {
        if self.playing && self.session.is_some() {
            LoopStep::Decode
        } else {
            LoopStep::Idle
        }
    }

    /// Routes a packet by the stream it belongs to.
    pub fn route_packet(&self, stream: usize) -> (r: PacketRoute)
        ensures
            r == match self.session() {
                Some(s) => if s.audio is Some && s.audio->0.stream == stream {
                    PacketRoute::Audio
                } else if s.video is Some && s.video->0.stream == stream {
                    PacketRoute::Video
                } else {
                    PacketRoute::Skip
                },
                None => PacketRoute::Skip,
            },
    {
        match self.session {
            Some(s) => {
                match s.audio {
                    Some(a) => if a.stream == stream {
                        return PacketRoute::Audio;
                    },
                    None => {},
                }
                match s.video {
                    Some(v) => if v.stream == stream {
                        return PacketRoute::Video;
                    },
                    None => {},
                }
                PacketRoute::Skip
            },
            None => PacketRoute::Skip,
        }
    }

    /// The source ran out of packets: playing stops, the session stays so
    /// that a seek and a play resume it, and one end-of-stream event is due.
    pub fn end_of_stream<S>(&mut self) -> (r: FrameData<S>)
        ensures
            *final(self) == old(self).after_end(),
            r is EndOfFile,
    {
        self.playing = false;
        FrameData::EndOfFile
    }

    /// The volume that decoded samples are scaled by, in thousandths.
    pub fn volume(&self) -> (r: u32)
        ensures
            r == self.volume_spec(),
    {
        self.volume
    }

    /// The timestamp in microseconds of a decoded audio frame.
    pub fn audio_timestamp(&self, pts: Option<i64>) -> (r: i64)
        ensures
            r == match self.session() {
                Some(s) => match s.audio {
                    Some(a) => micros_of(pts, a.time_base),
                    None => 0,
                },
                None => 0,
            },
    {
        match self.session {
            Some(s) => match s.audio {
                Some(a) => timestamp_micros(pts, a.time_base),
                None => 0,
            },
            None => 0,
        }
    }

    /// The timestamp in microseconds of a decoded video frame.
    pub fn video_timestamp(&self, pts: Option<i64>) -> (r: i64)
        ensures
            r == match self.session() {
                Some(s) => match s.video {
                    Some(v) => micros_of(pts, v.time_base),
                    None => 0,
                },
                None => 0,
            },
    {
        match self.session {
            Some(s) => match s.video {
                Some(v) => timestamp_micros(pts, v.time_base),
                None => 0,
            },
            None => 0,
        }
    }
}

/// Once the source has run out, the engine decodes nothing more, whatever
/// commands follow, until a `Play` arrives.
pub proof fn lemma_idle_after_end(s: EngineState, cmds: Seq<DecoderCommand>)
    requires
        forall|i: int| 0 <= i < cmds.len() ==> !(#[trigger] cmds[i] is Play),
    ensures
        !s.after_end().after_all(cmds).playing(),
        s.after_end().after_all(cmds).step_spec() == LoopStep::Idle,
    decreases cmds.len(),
{
    if cmds.len() > 0 {
        let init = cmds.drop_last();
        assert forall|i: int| 0 <= i < init.len() implies !(#[trigger] init[i] is Play) by {
            assert(init[i] == cmds[i]);
        }
        lemma_idle_after_end(s, init);
        assert(!(cmds[cmds.len() - 1] is Play));
    }
}

/// After the end of a source, a seek and then a play decode it again.
pub proof fn lemma_seek_then_play_resumes(s: EngineState, t: i64)
    requires
        s.session() is Some,
    ensures
        s.after_end().action_for(DecoderCommand::Seek(t)) == EngineAction::SeekTo(t),
        s.after_end().after(DecoderCommand::Seek(t)).after(DecoderCommand::Play).step_spec()
            == LoopStep::Decode,
{
}

/// A stop leaves nothing loaded and nothing playing, and a second stop
/// changes nothing more.
pub proof fn lemma_stop_idempotent(s: EngineState)
    ensures
        s.after(DecoderCommand::Stop).session() is None,
        !s.after(DecoderCommand::Stop).playing(),
        s.after(DecoderCommand::Stop).after(DecoderCommand::Stop) == s.after(DecoderCommand::Stop),
{
}

/// The bytes of sample `i` in one channel's plane, when the plane holds it.
pub open spec fn channel_word(plane: Seq<u8>, i: int) -> Seq<u8> {
    if SAMPLE_BYTES * i + SAMPLE_BYTES <= plane.len() {
        plane.subrange(SAMPLE_BYTES * i, SAMPLE_BYTES * i + SAMPLE_BYTES)
    } else {
        Seq::empty()
    }
}

/// The bytes of sample `i` in the first `c` channels, in channel order.
pub open spec fn frame_bytes(planes: Seq<Seq<u8>>, i: int, c: nat) -> Seq<u8>
    decreases c,
{
    if c == 0 {
        Seq::empty()
    } else {
        frame_bytes(planes, i, (c - 1) as nat) + channel_word(planes[c - 1], i)
    }
}

/// The first `n` samples of the first `c` channels, interleaved.
pub open spec fn interleaved(planes: Seq<Seq<u8>>, n: nat, c: nat) -> Seq<u8>
    decreases n,
{
    if n == 0 {
        Seq::empty()
    } else {
        interleaved(planes, (n - 1) as nat, c) + frame_bytes(planes, n - 1, c)
    }
}

/// The number of channels taken from a resampled frame: at most two.
pub open spec fn used_channels(planes: Seq<Seq<u8>>) -> nat {
    if planes.len() < OUTPUT_CHANNELS {
        planes.len()
    } else {
        OUTPUT_CHANNELS as nat
    }
}

/// Interleaves the first `sample_count` samples of a planar frame, one plane
/// per channel, taking at most two channels and skipping any sample that a
/// plane is too short to hold. The result holds 4-byte native-endian words.
pub fn interleave_planes(planes: &Vec<Vec<u8>>, sample_count: usize) -> (r: Vec<u8>)
    ensures
        r@ == interleaved(planes.deep_view(), sample_count as nat, used_channels(planes.deep_view())),
{
    let ghost pv = planes.deep_view();
    let c: usize = if planes.len() < 2 {
        planes.len()
    } else {
        2
    };
    assert(c == used_channels(pv));
    let mut out: Vec<u8> = Vec::new();
    let mut i: usize = 0;
    while i < sample_count
        invariant
            0 <= i <= sample_count,
            pv == planes.deep_view(),
            c == used_channels(pv),
            c <= planes@.len(),
            out@ == interleaved(pv, i as nat, c as nat),
        decreases sample_count - i,
    {
        let ghost before = out@;
        let mut ch: usize = 0;
        while ch < c
            invariant
                0 <= ch <= c,
                c <= planes@.len(),
                i < sample_count,
                pv == planes.deep_view(),
                out@ == before + frame_bytes(pv, i as int, ch as nat),
            decreases c - ch,
        {
            let plane = &planes[ch];
            assert(pv[ch as int] == plane@);
            let ghost mid = out@;
            if i < plane.len() / 4 {
                let off: usize = i * 4;
                out.push(plane[off]);
                out.push(plane[off + 1]);
                out.push(plane[off + 2]);
                out.push(plane[off + 3]);
                assert(out@ =~= mid + channel_word(pv[ch as int], i as int));
            } else {
                assert(channel_word(pv[ch as int], i as int) =~= Seq::<u8>::empty());
                assert(out@ =~= mid + channel_word(pv[ch as int], i as int));
            }
            assert(frame_bytes(pv, i as int, (ch + 1) as nat) == frame_bytes(pv, i as int, ch as nat)
                + channel_word(pv[ch as int], i as int));
            assert(out@ =~= before + frame_bytes(pv, i as int, (ch + 1) as nat));
            ch = ch + 1;
        }
        assert(interleaved(pv, (i + 1) as nat, c as nat) == interleaved(pv, i as nat, c as nat)
            + frame_bytes(pv, i as int, c as nat));
        i = i + 1;
    }
    out
}

} // verus!
