use mic_mixer::driver::{
    capture_open_reply, finish_play, handle_command, process_line, CommandStep, DecodeOutcome,
};
use mic_mixer::mixer::{DeviceRequest, MixerState, StreamOpenOutcome};
use mic_mixer::protocol::{render_response, Command, Response};

fn reply_of(step: CommandStep) -> Response {
    match step {
        CommandStep::Reply(r) => r,
        _ => panic!("expected a direct reply"),
    }
}

#[test]
fn blank_lines_are_ignored_without_a_response() {
    let mut m = MixerState::new();
    assert!(process_line(&mut m, "").is_none());
    assert!(process_line(&mut m, "   \t  ").is_none());
}

#[test]
fn a_malformed_line_costs_one_error_and_the_session_goes_on() {
    let mut m = MixerState::new();
    let step = process_line(&mut m, "this is not json").expect("one response is owed");
    let line = render_response(&reply_of(step));
    assert_eq!(
        line,
        "{\"type\":\"error\",\"message\":\"Invalid JSON command\"}"
    );
    // a well-formed command right after still succeeds
    let step2 = process_line(&mut m, "{\"cmd\":\"get_status\"}").expect("a status is owed");
    match reply_of(step2) {
        Response::Status { playing, paused, .. } => {
            assert!(!playing);
            assert!(!paused);
        },
        _ => panic!("expected a status reply"),
    }
}

#[test]
fn pause_then_status_reports_paused() {
    let mut m = MixerState::new();
    let step = process_line(&mut m, "{\"cmd\":\"pause\"}").unwrap();
    assert!(matches!(reply_of(step), Response::Accepted));
    let step2 = process_line(&mut m, "{\"cmd\":\"get_status\"}").unwrap();
    match reply_of(step2) {
        Response::Status { paused, .. } => assert!(paused),
        _ => panic!("expected a status reply"),
    }
    // render output during the pause is silence whatever is queued
    m.capture_push(&vec![999]);
    let mut out = vec![1i32; 2];
    m.render_into(&mut out);
    assert_eq!(out, vec![0, 0]);
}

#[test]
fn play_then_status_reports_playing_until_the_file_ends() {
    let mut m = MixerState::new();
    let step = handle_command(
        &mut m,
        Command::Play { file_path: String::from("a.wav"), volume_milli: 500 },
    );
    let (path, vol) = match step {
        CommandStep::NeedDecode { file_path, volume_milli } => (file_path, volume_milli),
        _ => panic!("play asks for a decode"),
    };
    assert_eq!(path, "a.wav");
    assert_eq!(vol, 500);
    // the decode service hands back three samples
    let r = finish_play(&mut m, DecodeOutcome::Decoded(vec![10, 20, 30]), vol);
    assert!(matches!(r, Response::Accepted));
    let step2 = process_line(&mut m, "{\"cmd\":\"get_status\"}").unwrap();
    match reply_of(step2) {
        Response::Status { playing, paused, .. } => {
            assert!(playing);
            assert!(!paused);
        },
        _ => panic!("expected a status reply"),
    }
    // the whole file renders out; afterwards status clears itself
    let mut out = vec![0i32; 3];
    m.render_into(&mut out);
    let step3 = process_line(&mut m, "{\"cmd\":\"get_status\"}").unwrap();
    match reply_of(step3) {
        Response::Status { playing, .. } => assert!(!playing),
        _ => panic!("expected a status reply"),
    }
}

#[test]
fn failed_decode_reports_and_leaves_state_alone() {
    let mut m = MixerState::new();
    let r = finish_play(
        &mut m,
        DecodeOutcome::OpenFailed(String::from("no such file")),
        1000,
    );
    match r {
        Response::Error { message } => assert_eq!(message, "Cannot open file: no such file"),
        _ => panic!("expected an error"),
    }
    assert!(!m.is_playing());
    let r2 = finish_play(
        &mut m,
        DecodeOutcome::DecodeFailed(String::from("bad header")),
        1000,
    );
    match r2 {
        Response::Error { message } => {
            assert_eq!(message, "Cannot decode audio file: bad header")
        },
        _ => panic!("expected an error"),
    }
}

#[test]
fn selecting_a_missing_device_errors_and_spares_the_other_side() {
    let mut m = MixerState::new();
    // bring the render side up first
    m.begin_output_start();
    m.finish_output_start(StreamOpenOutcome::Opened).unwrap();
    assert!(m.output_attached);
    // the controller asks for a microphone that is not there
    let step = process_line(
        &mut m,
        "{\"cmd\":\"set_input_device\",\"device_name\":\"Nonexistent Mic\"}",
    )
    .unwrap();
    let req = match step {
        CommandStep::NeedCaptureOpen(req) => req,
        _ => panic!("device selection asks for a capture stream"),
    };
    match req {
        DeviceRequest::UseNamed(n) => assert_eq!(n, "Nonexistent Mic"),
        DeviceRequest::UseDefault => panic!("a name was configured"),
    }
    // the host finds nothing of that name
    let r = capture_open_reply(&mut m, StreamOpenOutcome::NotFound);
    let line = render_response(&r);
    assert!(line.contains("not found"), "{}", line);
    assert_eq!(
        line,
        "{\"type\":\"error\",\"message\":\"Input device not found: Nonexistent Mic\"}"
    );
    // the render side is untouched, the capture side stays detached
    assert!(m.output_attached);
    assert!(!m.capture_attached);
}

#[test]
fn set_volume_through_the_wire_clamps() {
    let mut m = MixerState::new();
    let step = process_line(&mut m, "{\"cmd\":\"set_volume\",\"volume\":-1.0}").unwrap();
    assert!(matches!(reply_of(step), Response::Accepted));
    assert_eq!(m.volume_milli(), 0);
    process_line(&mut m, "{\"cmd\":\"set_volume\",\"volume\":5.0}").unwrap();
    assert_eq!(m.volume_milli(), 1000);
}

#[test]
fn stop_twice_through_the_wire_shows_not_playing_and_no_error() {
    let mut m = MixerState::new();
    finish_play(&mut m, DecodeOutcome::Decoded(vec![1, 2]), 1000);
    for _ in 0..2 {
        let step = process_line(&mut m, "{\"cmd\":\"stop\"}").unwrap();
        assert!(matches!(reply_of(step), Response::Accepted));
    }
    let step = process_line(&mut m, "{\"cmd\":\"get_status\"}").unwrap();
    match reply_of(step) {
        Response::Status { playing, .. } => assert!(!playing),
        _ => panic!("expected a status reply"),
    }
}

#[test]
fn shutdown_acknowledges_and_ends_the_session() {
    let mut m = MixerState::new();
    let step = process_line(&mut m, "{\"cmd\":\"shutdown\"}").unwrap();
    assert!(matches!(step, CommandStep::EndSession));
}

#[test]
fn list_devices_asks_the_host_and_status_reports_names() {
    let mut m = MixerState::new();
    let step = process_line(&mut m, "{\"cmd\":\"list_devices\"}").unwrap();
    assert!(matches!(step, CommandStep::NeedDevices));
    m.input_device_name = Some(String::from("USB Mic"));
    let step2 = process_line(&mut m, "{\"cmd\":\"get_status\"}").unwrap();
    match reply_of(step2) {
        Response::Status { input_device, output_device, .. } => {
            assert_eq!(input_device.as_deref(), Some("USB Mic"));
            assert!(output_device.is_none());
        },
        _ => panic!("expected a status reply"),
    }
}
