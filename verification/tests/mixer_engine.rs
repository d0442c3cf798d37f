use mic_mixer::mixer::{MixerError, MixerState, StreamOpenOutcome, StreamSide};
use mic_mixer::sample::SAMPLE_UNIT;

#[test]
fn new_mixer_is_idle_at_unity_volume() {
    let mut m = MixerState::new();
    assert!(m.input_device_name.is_none());
    assert!(m.output_device_name.is_none());
    assert!(!m.is_playing());
    assert!(!m.is_paused());
    assert_eq!(m.volume_milli(), 1000);
}

#[test]
fn set_volume_clamps_below_zero_to_silence() {
    let mut m = MixerState::new();
    m.set_volume(-1000);
    assert_eq!(m.volume_milli(), 0);
}

#[test]
fn set_volume_clamps_above_unity_to_unity() {
    let mut m = MixerState::new();
    m.set_volume(5000);
    assert_eq!(m.volume_milli(), 1000);
}

#[test]
fn set_volume_keeps_values_in_range() {
    let mut m = MixerState::new();
    m.set_volume(250);
    assert_eq!(m.volume_milli(), 250);
}

#[test]
fn stop_twice_equals_stop_once() {
    let mut m = MixerState::new();
    m.play_file(vec![1, 2, 3], 1000);
    assert!(m.is_playing());
    m.stop();
    assert!(!m.is_playing());
    // a second stop is a no-op, not an error
    m.stop();
    assert!(!m.is_playing());
    assert!(!m.is_paused());
    assert_eq!(m.volume_milli(), 1000);
}

#[test]
fn render_passes_microphone_through() {
    let mut m = MixerState::new();
    m.capture_push(&vec![100, -200, 300]);
    let mut out = vec![9i32; 4];
    m.render_into(&mut out);
    assert_eq!(out, vec![100, -200, 300, 0]);
}

#[test]
fn render_sums_playback_on_top_of_microphone() {
    let mut m = MixerState::new();
    m.capture_push(&vec![200_000, 200_000]);
    m.play_file(vec![600_000, -600_000], 500);
    let mut out = vec![0i32; 2];
    m.render_into(&mut out);
    assert_eq!(out, vec![500_000, -100_000]);
}

#[test]
fn render_applies_master_volume() {
    let mut m = MixerState::new();
    m.capture_push(&vec![400_000]);
    m.set_volume(500);
    let mut out = vec![0i32; 1];
    m.render_into(&mut out);
    assert_eq!(out, vec![200_000]);
}

#[test]
fn render_clamps_to_the_audible_range() {
    let mut m = MixerState::new();
    m.capture_push(&vec![900_000, -900_000]);
    m.play_file(vec![900_000, -900_000], 1000);
    let mut out = vec![0i32; 2];
    m.render_into(&mut out);
    assert_eq!(out, vec![SAMPLE_UNIT, -SAMPLE_UNIT]);
}

#[test]
fn paused_engine_renders_silence_and_resume_restores_mixing() {
    let mut m = MixerState::new();
    m.play_file(vec![700_000, 800_000], 1000);
    m.pause();
    assert!(m.is_paused());
    // while paused the mic callback drops its samples too
    m.capture_push(&vec![123, 456]);
    let mut out = vec![5i32; 2];
    m.render_into(&mut out);
    assert_eq!(out, vec![0, 0]);
    // pausing consumed nothing: resuming plays the file from the start
    m.resume();
    assert!(!m.is_paused());
    let mut out2 = vec![0i32; 2];
    m.render_into(&mut out2);
    assert_eq!(out2, vec![700_000, 800_000]);
}

#[test]
fn playback_ends_on_its_own_and_status_catches_up() {
    let mut m = MixerState::new();
    m.play_file(vec![1, 2, 3], 1000);
    assert!(m.is_playing());
    let mut out = vec![0i32; 2];
    m.render_into(&mut out);
    assert!(m.is_playing());
    // this render consumes the last sample: the slot is cleared
    m.render_into(&mut out);
    assert_eq!(out, vec![3, 0]);
    // no explicit stop, yet the status reports the truth
    assert!(!m.is_playing());
}

#[test]
fn a_new_play_replaces_the_old_source() {
    let mut m = MixerState::new();
    m.play_file(vec![111, 222], 1000);
    m.play_file(vec![900, 800], 1000);
    let mut out = vec![0i32; 2];
    m.render_into(&mut out);
    assert_eq!(out, vec![900, 800]);
}

#[test]
fn failed_stream_start_detaches_only_that_side() {
    let mut m = MixerState::new();
    // a render stream is up
    m.begin_output_start();
    let ok = m.finish_output_start(StreamOpenOutcome::Opened);
    assert!(ok.is_ok());
    assert!(m.output_attached);
    // the capture start fails: its side stays detached, the render side stays up
    m.input_device_name = Some(String::from("Nonexistent Mic"));
    m.begin_capture_start();
    let err = m.finish_capture_start(StreamOpenOutcome::NotFound);
    assert!(err.is_err());
    assert!(!m.capture_attached);
    assert!(m.output_attached);
    let msg = err.unwrap_err().message();
    assert_eq!(msg, "Input device not found: Nonexistent Mic");
    assert!(msg.contains("not found"));
}

#[test]
fn error_messages_read_as_the_controller_expects() {
    assert_eq!(
        MixerError::NoDefaultDevice(StreamSide::Capture).message(),
        "No default input device available"
    );
    assert_eq!(
        MixerError::NoDefaultDevice(StreamSide::Render).message(),
        "No default output device available"
    );
    assert_eq!(
        MixerError::DeviceNotFound(StreamSide::Render, String::from("VB-Cable")).message(),
        "Output device not found: VB-Cable"
    );
    assert_eq!(
        MixerError::StreamError(String::from("backend busy")).message(),
        "backend busy"
    );
    assert_eq!(
        MixerError::FileOpenError(String::from("no such file")).message(),
        "Cannot open file: no such file"
    );
    assert_eq!(
        MixerError::DecodeError(String::from("bad header")).message(),
        "Cannot decode audio file: bad header"
    );
}
