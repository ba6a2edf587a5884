use media_player::decoder::{EngineEnds, EngineError, MediaDecoder};
use media_player::engine::{AudioFrame, DecoderCommand, DecoderInfo, FrameData, VideoFrame, DEFAULT_VOLUME};
use media_player::player::{toggle_playback, MediaPlayer, PlaybackState};
use media_player::sink::{AudioCommand, AudioOutput};

fn player() -> (MediaPlayer<f32>, EngineEnds<f32>) {
    let (decoder, ends) = MediaDecoder::<f32>::new();
    (MediaPlayer::new(decoder), ends)
}

fn info(path: &str, has_audio: bool, has_video: bool, duration: i64) -> DecoderInfo {
    DecoderInfo {
        has_video,
        has_audio,
        video_width: if has_video { 1280 } else { 0 },
        video_height: if has_video { 720 } else { 0 },
        duration,
        file_path: Some(path.to_string()),
    }
}

fn commands(ends: &EngineEnds<f32>) -> Vec<String> {
    ends.commands
        .try_iter()
        .map(|c| match c {
            DecoderCommand::Load(p, _) => format!("load {}", p),
            DecoderCommand::Play => "play".to_string(),
            DecoderCommand::Pause => "pause".to_string(),
            DecoderCommand::Stop => "stop".to_string(),
            DecoderCommand::Seek(t) => format!("seek {}", t),
            DecoderCommand::SetVolume(v) => format!("volume {}", v),
        })
        .collect()
}

fn loaded(duration: i64) -> (MediaPlayer<f32>, EngineEnds<f32>) {
    let (mut p, ends) = player();
    ends.info.send(info("song.flac", false, false, duration)).unwrap();
    p.load("song.flac", None).unwrap();
    commands(&ends);
    (p, ends)
}

#[test]
fn new_player_is_stopped_and_empty() {
    let (p, _ends) = player();
    let s = p.get_status();
    assert_eq!(p.get_state(), PlaybackState::Stopped);
    assert!(!s.is_playing);
    assert_eq!(s.current_time, 0);
    assert_eq!(s.duration, 0);
    assert_eq!(s.volume, DEFAULT_VOLUME);
    assert_eq!(s.file_path, None);
    assert!(!s.has_audio && !s.has_video);
}

#[test]
fn set_volume_clamps_out_of_range_levels() {
    let (mut p, ends) = player();
    p.set_volume(1500);
    assert_eq!(p.get_volume(), 1000);
    p.set_volume(-200);
    assert_eq!(p.get_volume(), 0);
    p.set_volume(450);
    assert_eq!(p.get_volume(), 450);
    assert_eq!(p.get_status().volume, 450);
    assert_eq!(commands(&ends), vec!["volume 1000", "volume 0", "volume 450"]);
}

#[test]
fn seek_clamps_to_the_source() {
    let (mut p, ends) = loaded(10_000_000);
    p.seek(-5).unwrap();
    assert_eq!(p.get_status().current_time, 0);
    p.seek(25_000_000).unwrap();
    assert_eq!(p.get_status().current_time, 10_000_000);
    p.seek(4_000_000).unwrap();
    assert_eq!(p.get_status().current_time, 4_000_000);
    assert_eq!(commands(&ends), vec!["seek 0", "seek 10000000", "seek 4000000"]);
}

#[test]
fn seek_while_stopped_updates_the_cached_time() {
    let (mut p, _ends) = loaded(8_000_000);
    p.seek(3_000_000).unwrap();
    assert_eq!(p.get_state(), PlaybackState::Stopped);
    assert_eq!(p.get_status().current_time, 3_000_000);
}

#[test]
fn stop_twice_gives_the_same_status() {
    let (mut p, _ends) = loaded(10_000_000);
    p.play().unwrap();
    p.seek(2_000_000).unwrap();
    p.stop();
    let first = p.get_status();
    p.stop();
    let second = p.get_status();
    assert_eq!(p.get_state(), PlaybackState::Stopped);
    assert!(!first.is_playing && !second.is_playing);
    assert_eq!(first.current_time, 0);
    assert_eq!(second.current_time, 0);
    assert_eq!(first.duration, second.duration);
    assert_eq!(first.file_path, second.file_path);
}

#[test]
fn stop_with_nothing_loaded_is_safe() {
    let (mut p, ends) = player();
    p.stop();
    assert_eq!(p.get_state(), PlaybackState::Stopped);
    assert_eq!(commands(&ends), vec!["stop"]);
}

#[test]
fn load_without_audio_opens_no_sink() {
    let (mut p, ends) = player();
    ends.info.send(info("silent.mp4", false, true, 4_000_000)).unwrap();
    let (status, samples) = p.load("silent.mp4", None).unwrap();
    assert!(samples.is_none());
    assert!(!status.has_audio);
    assert!(status.has_video);
    assert_eq!((status.video_width, status.video_height), (1280, 720));
    assert_eq!(status.duration, 4_000_000);
    assert_eq!(status.file_path, Some("silent.mp4".to_string()));
    assert_eq!(commands(&ends), vec!["stop", "load silent.mp4"]);
}

#[test]
fn load_with_audio_opens_a_sample_channel() {
    let (mut p, ends) = player();
    ends.info.send(info("song.flac", true, false, 10_000_000)).unwrap();
    let (status, samples) = p.load("song.flac", None).unwrap();
    assert!(status.has_audio);
    assert!(!status.has_video);
    assert_eq!(status.duration, 10_000_000);
    assert!(samples.is_some());
}

#[test]
fn pause_from_stopped_stays_stopped() {
    let (mut p, ends) = loaded(1_000_000);
    p.pause().unwrap();
    assert_eq!(p.get_state(), PlaybackState::Stopped);
    assert!(commands(&ends).is_empty());
}

#[test]
fn play_pause_play_returns_to_playing() {
    let (mut p, ends) = loaded(1_000_000);
    p.play().unwrap();
    assert_eq!(p.get_state(), PlaybackState::Playing);
    p.pause().unwrap();
    assert_eq!(p.get_state(), PlaybackState::Paused);
    p.play().unwrap();
    assert_eq!(p.get_state(), PlaybackState::Playing);
    assert!(p.get_status().is_playing);
    assert_eq!(commands(&ends), vec!["play", "pause", "play"]);
}

#[test]
fn play_while_playing_sends_nothing_new() {
    let (mut p, ends) = loaded(1_000_000);
    p.play().unwrap();
    p.play().unwrap();
    assert_eq!(p.get_state(), PlaybackState::Playing);
    assert_eq!(commands(&ends), vec!["play"]);
}

#[test]
fn second_load_tears_down_the_first_session() {
    let (mut p, ends) = player();
    ends.info.send(info("first.mp3", true, false, 3_000_000)).unwrap();
    let (_, samples) = p.load("first.mp3", None).unwrap();
    let first_samples = samples.unwrap();
    let (output, control) = AudioOutput::new(44100, 2);
    p.attach_audio_output(output);
    p.play().unwrap();

    ends.info.send(info("second.ogg", false, false, 7_000_000)).unwrap();
    let (status, samples) = p.load("second.ogg", None).unwrap();
    assert!(samples.is_none());
    assert_eq!(p.get_state(), PlaybackState::Stopped);
    assert_eq!(status.file_path, Some("second.ogg".to_string()));
    assert!(!status.has_audio);

    assert_eq!(control.try_recv().unwrap(), AudioCommand::Play);
    assert_eq!(control.try_recv().unwrap(), AudioCommand::Stop);
    assert!(control.try_recv().is_err());
    assert!(first_samples.try_recv().is_err());
    assert_eq!(
        commands(&ends),
        vec!["stop", "load first.mp3", "play", "stop", "load second.ogg"]
    );
}

#[test]
fn attached_sink_follows_play_and_pause() {
    let (mut p, ends) = player();
    ends.info.send(info("song.flac", true, false, 3_000_000)).unwrap();
    p.load("song.flac", None).unwrap();
    let (output, control) = AudioOutput::new(44100, 2);
    p.attach_audio_output(output);
    p.play().unwrap();
    p.pause().unwrap();
    p.stop();
    let got: Vec<AudioCommand> = control.try_iter().collect();
    assert_eq!(got, vec![AudioCommand::Play, AudioCommand::Pause, AudioCommand::Stop]);
}

#[test]
fn toggle_switches_between_playing_and_paused() {
    let (mut p, _ends) = loaded(1_000_000);
    assert_eq!(toggle_playback(&mut p), Ok(true));
    assert_eq!(p.get_state(), PlaybackState::Playing);
    assert_eq!(toggle_playback(&mut p), Ok(false));
    assert_eq!(p.get_state(), PlaybackState::Paused);
    assert_eq!(toggle_playback(&mut p), Ok(true));
}

#[test]
fn closed_engine_is_reported() {
    let (mut p, ends) = player();
    drop(ends);
    assert_eq!(p.play(), Err(EngineError::CommandChannelClosed));
    assert_eq!(p.get_state(), PlaybackState::Stopped);
    assert_eq!(p.seek(5), Err(EngineError::CommandChannelClosed));
    assert!(matches!(p.load("x.mp3", None), Err(EngineError::CommandChannelClosed)));
    p.set_volume(300);
    assert_eq!(p.get_volume(), 300);
}

#[test]
fn engine_that_never_answers_a_load_is_reported() {
    let (decoder, ends) = MediaDecoder::<f32>::new();
    let EngineEnds { commands: cmd_rx, frames, info } = ends;
    drop(info);
    let mut p = MediaPlayer::new(decoder);
    assert!(matches!(p.load("x.mp3", None), Err(EngineError::InfoChannelClosed)));
    assert_eq!(cmd_rx.try_iter().count(), 2);
    drop(frames);
}

#[test]
fn frames_reach_the_controller_side() {
    let (decoder, ends) = MediaDecoder::<f32>::new();
    assert!(decoder.try_recv_frame().is_none());
    ends.frames.send(FrameData::EndOfFile).unwrap();
    assert!(matches!(decoder.recv_frame(), Ok(FrameData::EndOfFile)));
    drop(ends);
    assert!(matches!(decoder.recv_frame(), Err(EngineError::FrameChannelClosed)));
}

#[test]
fn samples_go_to_the_current_source_channel() {
    let (mut p, ends) = player();
    assert!(!p.deliver_samples(vec![0.5]));
    ends.info.send(info("song.flac", true, false, 3_000_000)).unwrap();
    let (_, samples) = p.load("song.flac", None).unwrap();
    let rx = samples.unwrap();
    assert!(p.deliver_samples(vec![0.5, -0.5]));
    assert_eq!(rx.try_recv().unwrap(), vec![0.5, -0.5]);
    p.stop();
    assert!(!p.deliver_samples(vec![0.5]));
}

#[test]
fn controller_reads_engine_events() {
    let (p, ends) = player();
    ends.frames.send(FrameData::EndOfFile).unwrap();
    assert!(matches!(p.next_frame(), Ok(FrameData::EndOfFile)));
}

#[test]
fn forwarded_audio_reaches_the_sink_channel() {
    let (mut p, ends) = player();
    ends.info.send(info("song.flac", true, false, 3_000_000)).unwrap();
    let (_, samples) = p.load("song.flac", None).unwrap();
    let rx = samples.unwrap();
    let frame = FrameData::Audio(AudioFrame { samples: vec![0.1, 0.2], timestamp: 0 });
    assert!(!p.forward_frame(frame));
    assert_eq!(rx.try_recv().unwrap(), vec![0.1, 0.2]);
    let video = FrameData::Video(VideoFrame { width: 1, height: 1, data: vec![0, 0, 0, 255], timestamp: 0 });
    assert!(!p.forward_frame(video));
    assert!(rx.try_recv().is_err());
    assert!(p.forward_frame(FrameData::EndOfFile));
}

#[test]
fn failed_play_sends_nothing_to_the_sink() {
    let (mut p, ends) = player();
    ends.info.send(info("song.flac", true, false, 3_000_000)).unwrap();
    p.load("song.flac", None).unwrap();
    let (output, control) = AudioOutput::new(44100, 2);
    p.attach_audio_output(output);
    drop(ends);
    assert_eq!(p.play(), Err(EngineError::CommandChannelClosed));
    assert_eq!(p.get_state(), PlaybackState::Stopped);
    assert!(control.try_recv().is_err());
}
