use media_player::sink::{
    control_action, copy_samples, create_sample_channel, fill_output, render, AudioBuffer, AudioCommand,
    AudioOutput, SinkError, StreamAction,
};

#[test]
fn fill_copies_and_pads_with_silence() {
    let mut out = [9.0f32; 5];
    fill_output(&mut out, &Some(vec![0.5, -0.5, 0.25]), 0.0);
    assert_eq!(out, [0.5, -0.5, 0.25, 0.0, 0.0]);
}

#[test]
fn fill_truncates_a_longer_buffer() {
    let mut out = [0.0f32; 3];
    fill_output(&mut out, &Some(vec![1.0, 2.0, 3.0, 4.0, 5.0]), 0.0);
    assert_eq!(out, [1.0, 2.0, 3.0]);
}

#[test]
fn fill_without_samples_is_all_silence() {
    let mut out = [0.7f32; 4];
    fill_output(&mut out, &None, 0.0);
    assert_eq!(out, [0.0; 4]);
}

#[test]
fn fill_empty_output_buffer() {
    let mut out: [f32; 0] = [];
    fill_output(&mut out, &Some(vec![1.0]), 0.0);
    assert_eq!(out.len(), 0);
}

#[test]
fn render_on_empty_channel_leaves_no_stale_data() {
    let (tx, rx) = create_sample_channel::<f32>();
    let mut out = [0.0f32; 4];
    tx.send(vec![0.1, 0.2, 0.3, 0.4]).unwrap();
    render(&rx, &mut out, 0.0);
    assert_eq!(out, [0.1, 0.2, 0.3, 0.4]);
    render(&rx, &mut out, 0.0);
    assert_eq!(out, [0.0; 4]);
}

#[test]
fn render_after_producer_disconnects_is_silence() {
    let (tx, rx) = create_sample_channel::<f32>();
    drop(tx);
    let mut out = [0.3f32; 6];
    render(&rx, &mut out, 0.0);
    assert_eq!(out, [0.0; 6]);
}

#[test]
fn render_takes_one_buffer_per_callback() {
    let (tx, rx) = create_sample_channel::<f32>();
    tx.send(vec![1.0, 1.0]).unwrap();
    tx.send(vec![2.0]).unwrap();
    let mut out = [0.0f32; 3];
    render(&rx, &mut out, 0.0);
    assert_eq!(out, [1.0, 1.0, 0.0]);
    render(&rx, &mut out, 0.0);
    assert_eq!(out, [2.0, 0.0, 0.0]);
}

#[test]
fn control_actions() {
    assert_eq!(control_action(Some(AudioCommand::Play)), StreamAction::Resume);
    assert_eq!(control_action(Some(AudioCommand::Pause)), StreamAction::Pause);
    assert_eq!(control_action(Some(AudioCommand::Stop)), StreamAction::PauseAndExit);
    assert_eq!(control_action(None), StreamAction::Exit);
}

#[test]
fn output_requests_reach_the_control_thread_in_order() {
    let (mut output, control) = AudioOutput::new(44100, 2);
    output.pause();
    output.resume();
    output.stop();
    assert_eq!(control.try_recv().unwrap(), AudioCommand::Pause);
    assert_eq!(control.try_recv().unwrap(), AudioCommand::Play);
    assert_eq!(control.try_recv().unwrap(), AudioCommand::Stop);
    assert!(control.try_recv().is_err());
}

#[test]
fn output_requests_after_control_thread_exit_are_ignored() {
    let (mut output, control) = AudioOutput::new(48000, 1);
    drop(control);
    output.pause();
    output.resume();
    output.stop();
}

#[test]
fn push_samples_queues_a_copy() {
    let (tx, rx) = create_sample_channel::<f32>();
    let mut buffer = AudioBuffer::new(tx);
    let samples = [0.25f32, -1.0, 0.5];
    assert_eq!(buffer.push_samples(&samples), Ok(()));
    assert_eq!(rx.try_recv().unwrap(), vec![0.25, -1.0, 0.5]);
}

#[test]
fn push_samples_to_a_closed_sink_fails() {
    let (tx, rx) = create_sample_channel::<f32>();
    drop(rx);
    let mut buffer = AudioBuffer::new(tx);
    assert_eq!(buffer.push_samples(&[1.0]), Err(SinkError::Disconnected));
}


#[test]
fn copy_samples_keeps_every_sample() {
    let samples = [0.5f32, 0.25, -0.125];
    assert_eq!(copy_samples(&samples), vec![0.5, 0.25, -0.125]);
    assert_eq!(copy_samples::<f32>(&[]), Vec::<f32>::new());
}
