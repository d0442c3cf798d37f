//! Dispatching commands: one inbound command, one outbound response.
//!
//! Commands that the engine can serve on its own are served here whole.
//! Commands that need the host audio subsystem or the decode service come
//! back as a [`CommandStep`] naming the outside work; the process loop
//! performs it and hands the outcome to the matching `finish_` function,
//! which builds the one response.  A malformed line costs exactly one
//! error response and nothing else; a blank line costs nothing.

use crate::mixer::{
    stop_rel, DeviceRequest, MixerState, StreamOpenOutcome, MixerError, StreamSide,
};
use crate::protocol::{sp_blank_line, sp_parse_command, Command, Response, SpecCommand};
use crate::protocol::{is_blank_line, parse_command};
use crate::sample::clamp_gain;
use vstd::prelude::*;
use vstd::string::*;

verus! {

/// What the process loop must do after one command came in.
#[derive(Debug)]
pub enum CommandStep {
    /// Write this response; the command is fully served.
    Reply(Response),
    /// Enumerate the host's devices and reply with the listing.
    NeedDevices,
    /// Open a capture stream for this device, then report the outcome to
    /// `finish_capture_start` and reply from its result.
    NeedCaptureOpen(DeviceRequest),
    /// Open a render stream for this device, then report the outcome to
    /// `finish_output_start` and reply from its result.
    NeedRenderOpen(DeviceRequest),
    /// Decode this file, then hand the outcome to `finish_play`.
    NeedDecode { file_path: String, volume_milli: i64 },
    /// Acknowledge with `ok` and end the session; nothing runs after it.
    EndSession,
}

/// How serving one command moves the state and what it asks of the
/// process loop.
pub open spec fn handle_rel(
    pre: MixerState,
    c: SpecCommand,
    post: MixerState,
    step: CommandStep,
) -> bool {
    match c {
        SpecCommand::ListDevices => post == pre && (step is NeedDevices),
        SpecCommand::SetInputDevice { device_name } => {
            &&& match post.input_device_name {
                Some(s) => s@ == device_name,
                None => false,
            }
            &&& post.output_device_name == pre.output_device_name
            &&& post.playing == pre.playing
            &&& post.paused == pre.paused
            &&& post.volume == pre.volume
            &&& post.capture_attached == false
            &&& post.output_attached == pre.output_attached
            &&& post.ring == pre.ring
            &&& post.file_playback == pre.file_playback
            &&& match step {
                CommandStep::NeedCaptureOpen(req) => match req {
                    DeviceRequest::UseNamed(rn) => rn@ == device_name,
                    DeviceRequest::UseDefault => false,
                },
                _ => false,
            }
        },
        SpecCommand::SetOutputDevice { device_name } => {
            &&& match post.output_device_name {
                Some(s) => s@ == device_name,
                None => false,
            }
            &&& post.input_device_name == pre.input_device_name
            &&& post.playing == pre.playing
            &&& post.paused == pre.paused
            &&& post.volume == pre.volume
            &&& post.capture_attached == pre.capture_attached
            &&& post.output_attached == false
            &&& post.ring == pre.ring
            &&& post.file_playback == pre.file_playback
            &&& match step {
                CommandStep::NeedRenderOpen(req) => match req {
                    DeviceRequest::UseNamed(rn) => rn@ == device_name,
                    DeviceRequest::UseDefault => false,
                },
                _ => false,
            }
        },
        SpecCommand::Play { file_path, volume_milli } => post == pre && match step {
            CommandStep::NeedDecode { file_path: p, volume_milli: v } => p@ == file_path && v as int
                == volume_milli,
            _ => false,
        },
        SpecCommand::Stop => stop_rel(pre, post) && step == CommandStep::Reply(Response::Accepted),
        SpecCommand::Pause => {
            &&& post.paused == true
            &&& post.input_device_name == pre.input_device_name
            &&& post.output_device_name == pre.output_device_name
            &&& post.playing == pre.playing
            &&& post.volume == pre.volume
            &&& post.capture_attached == pre.capture_attached
            &&& post.output_attached == pre.output_attached
            &&& post.ring == pre.ring
            &&& post.file_playback == pre.file_playback
            &&& step == CommandStep::Reply(Response::Accepted)
        },
        SpecCommand::Resume => {
            &&& post.paused == false
            &&& post.input_device_name == pre.input_device_name
            &&& post.output_device_name == pre.output_device_name
            &&& post.playing == pre.playing
            &&& post.volume == pre.volume
            &&& post.capture_attached == pre.capture_attached
            &&& post.output_attached == pre.output_attached
            &&& post.ring == pre.ring
            &&& post.file_playback == pre.file_playback
            &&& step == CommandStep::Reply(Response::Accepted)
        },
        SpecCommand::SetVolume { volume_milli } => {
            &&& post.volume as int == clamp_gain(volume_milli)
            &&& post.input_device_name == pre.input_device_name
            &&& post.output_device_name == pre.output_device_name
            &&& post.playing == pre.playing
            &&& post.paused == pre.paused
            &&& post.capture_attached == pre.capture_attached
            &&& post.output_attached == pre.output_attached
            &&& post.ring == pre.ring
            &&& post.file_playback == pre.file_playback
            &&& step == CommandStep::Reply(Response::Accepted)
        },
        SpecCommand::GetStatus => {
            &&& post.playing == (pre.playing && pre.file_playback is Some)
            &&& post.input_device_name == pre.input_device_name
            &&& post.output_device_name == pre.output_device_name
            &&& post.paused == pre.paused
            &&& post.volume == pre.volume
            &&& post.capture_attached == pre.capture_attached
            &&& post.output_attached == pre.output_attached
            &&& post.ring == pre.ring
            &&& post.file_playback == pre.file_playback
            &&& step == CommandStep::Reply(
                Response::Status {
                    playing: pre.playing && pre.file_playback is Some,
                    paused: pre.paused,
                    volume: pre.volume,
                    input_device: pre.input_device_name,
                    output_device: pre.output_device_name,
                },
            )
        },
        SpecCommand::Shutdown => post == pre && step is EndSession,
    }
}

/// Serve one parsed command: mutate the state as the command asks and say
/// what, if anything, the process loop must still do.
pub fn handle_command(m: &mut MixerState, cmd: Command) -> (step: CommandStep)
    requires
        old(m).wf(),
    ensures
        final(m).wf(),
        handle_rel(*old(m), cmd@, *final(m), step),
{
    match cmd {
        Command::ListDevices => CommandStep::NeedDevices,
        Command::SetInputDevice { device_name } => {
            m.input_device_name = Some(device_name);
            let req = m.begin_capture_start();
            CommandStep::NeedCaptureOpen(req)
        },
        Command::SetOutputDevice { device_name } => {
            m.output_device_name = Some(device_name);
            let req = m.begin_output_start();
            CommandStep::NeedRenderOpen(req)
        },
        Command::Play { file_path, volume_milli } => CommandStep::NeedDecode {
            file_path,
            volume_milli,
        },
        Command::Stop => {
            m.stop();
            CommandStep::Reply(Response::Accepted)
        },
        Command::Pause => {
            m.pause();
            CommandStep::Reply(Response::Accepted)
        },
        Command::Resume => {
            m.resume();
            CommandStep::Reply(Response::Accepted)
        },
        Command::SetVolume { volume_milli } => {
            m.set_volume(volume_milli);
            CommandStep::Reply(Response::Accepted)
        },
        Command::GetStatus => {
            let playing = m.is_playing();
            let paused = m.is_paused();
            let volume = m.volume_milli();
            let input_device = match &m.input_device_name {
                Some(s) => Some(s.clone()),
                None => None,
            };
            let output_device = match &m.output_device_name {
                Some(s) => Some(s.clone()),
                None => None,
            };
            CommandStep::Reply(
                Response::Status { playing, paused, volume, input_device, output_device },
            )
        },
        Command::Shutdown => CommandStep::EndSession,
    }
}

/// What came of decoding a playback file.
#[derive(Debug)]
pub enum DecodeOutcome {
    /// The decoded samples, fixed-point, ready to install.
    Decoded(Vec<i32>),
    /// The file could not be opened; carries the report.
    OpenFailed(String),
    /// The file could not be decoded; carries the report.
    DecodeFailed(String),
}

/// Take in what came of decoding a `play` command's file: install the
/// playback source on success and build the one response.  A failed
/// decode leaves the whole state untouched.
pub fn finish_play(m: &mut MixerState, outcome: DecodeOutcome, volume_milli: i64) -> (r: Response)
    requires
        old(m).wf(),
    ensures
        final(m).wf(),
        match outcome {
            DecodeOutcome::Decoded(samples) => {
                &&& final(m).playing
                &&& match final(m).file_playback {
                    Some(fp) => {
                        &&& fp.samples_spec() == samples@
                        &&& fp.pos_spec() == 0
                        &&& fp.gain_spec() == clamp_gain(volume_milli as int)
                    },
                    None => false,
                }
                &&& final(m).input_device_name == old(m).input_device_name
                &&& final(m).output_device_name == old(m).output_device_name
                &&& final(m).paused == old(m).paused
                &&& final(m).volume == old(m).volume
                &&& final(m).capture_attached == old(m).capture_attached
                &&& final(m).output_attached == old(m).output_attached
                &&& final(m).ring == old(m).ring
                &&& r == Response::Accepted
            },
            DecodeOutcome::OpenFailed(detail) => *final(m) == *old(m) && match r {
                Response::Error { message } => message@ == crate::mixer::error_message(
                    MixerError::FileOpenError(detail),
                ),
                _ => false,
            },
            DecodeOutcome::DecodeFailed(detail) => *final(m) == *old(m) && match r {
                Response::Error { message } => message@ == crate::mixer::error_message(
                    MixerError::DecodeError(detail),
                ),
                _ => false,
            },
        },
{
    match outcome {
        DecodeOutcome::Decoded(samples) => {
            m.play_file(samples, volume_milli);
            Response::Accepted
        },
        DecodeOutcome::OpenFailed(detail) => {
            let e = MixerError::FileOpenError(detail);
            Response::error(e.message())
        },
        DecodeOutcome::DecodeFailed(detail) => {
            let e = MixerError::DecodeError(detail);
            Response::error(e.message())
        },
    }
}

/// Build the one response for what came of opening the capture stream.
pub fn capture_open_reply(m: &mut MixerState, outcome: StreamOpenOutcome) -> (r: Response)
    requires
        old(m).wf(),
        outcome is NotFound ==> old(m).input_device_name is Some,
    ensures
        final(m).wf(),
        final(m).capture_attached == (outcome is Opened),
        final(m).input_device_name == old(m).input_device_name,
        final(m).output_device_name == old(m).output_device_name,
        final(m).playing == old(m).playing,
        final(m).paused == old(m).paused,
        final(m).volume == old(m).volume,
        final(m).output_attached == old(m).output_attached,
        final(m).ring == old(m).ring,
        final(m).file_playback == old(m).file_playback,
        outcome is Opened <==> r == Response::Accepted,
        !(outcome is Opened) ==> r is Error,
        outcome is NotFound ==> match r {
            Response::Error { message } => match old(m).input_device_name {
                Some(s) => message@ == crate::mixer::error_message(
                    MixerError::DeviceNotFound(StreamSide::Capture, s),
                ),
                None => false,
            },
            _ => false,
        },
        outcome is NoDefault ==> match r {
            Response::Error { message } => message@ == crate::mixer::error_message(
                MixerError::NoDefaultDevice(StreamSide::Capture),
            ),
            _ => false,
        },
        match outcome {
            StreamOpenOutcome::Failed(detail) => match r {
                Response::Error { message } => message@ == detail@,
                _ => false,
            },
            _ => true,
        },
{
    match m.finish_capture_start(outcome) {
        Ok(()) => Response::Accepted,
        Err(e) => Response::error(e.message()),
    }
}

/// Build the one response for what came of opening the render stream.
pub fn output_open_reply(m: &mut MixerState, outcome: StreamOpenOutcome) -> (r: Response)
    requires
        old(m).wf(),
        outcome is NotFound ==> old(m).output_device_name is Some,
    ensures
        final(m).wf(),
        final(m).output_attached == (outcome is Opened),
        final(m).input_device_name == old(m).input_device_name,
        final(m).output_device_name == old(m).output_device_name,
        final(m).playing == old(m).playing,
        final(m).paused == old(m).paused,
        final(m).volume == old(m).volume,
        final(m).capture_attached == old(m).capture_attached,
        final(m).ring == old(m).ring,
        final(m).file_playback == old(m).file_playback,
        outcome is Opened <==> r == Response::Accepted,
        !(outcome is Opened) ==> r is Error,
        outcome is NotFound ==> match r {
            Response::Error { message } => match old(m).output_device_name {
                Some(s) => message@ == crate::mixer::error_message(
                    MixerError::DeviceNotFound(StreamSide::Render, s),
                ),
                None => false,
            },
            _ => false,
        },
        outcome is NoDefault ==> match r {
            Response::Error { message } => message@ == crate::mixer::error_message(
                MixerError::NoDefaultDevice(StreamSide::Render),
            ),
            _ => false,
        },
        match outcome {
            StreamOpenOutcome::Failed(detail) => match r {
                Response::Error { message } => message@ == detail@,
                _ => false,
            },
            _ => true,
        },
{
    match m.finish_output_start(outcome) {
        Ok(()) => Response::Accepted,
        Err(e) => Response::error(e.message()),
    }
}

/// Take in one raw input line.  A blank line asks for nothing — not even
/// a response.  A line the grammar refuses asks for exactly one error
/// response and leaves the state untouched, so the session goes on.  Any
/// other line is one command, served as `handle_command` says.
pub fn process_line(m: &mut MixerState, line: &str) -> (r: Option<CommandStep>)
    requires
        old(m).wf(),
    ensures
        final(m).wf(),
        sp_blank_line(line@) ==> r is None && *final(m) == *old(m),
        !sp_blank_line(line@) && sp_parse_command(line@) is None ==> *final(m) == *old(m) && match r {
            Some(step) => match step {
                CommandStep::Reply(resp) => match resp {
                    Response::Error { message } => message@ == "Invalid JSON command"@,
                    _ => false,
                },
                _ => false,
            },
            None => false,
        },
        match sp_parse_command(line@) {
            Some(c) => match r {
                Some(step) => handle_rel(*old(m), c, *final(m), step),
                None => false,
            },
            None => true,
        },
{
    if is_blank_line(line) {
        return None;
    }
    match parse_command(line) {
        Some(cmd) => Some(handle_command(m, cmd)),
        None => Some(
            CommandStep::Reply(
                Response::Error { message: String::from_str("Invalid JSON command") },
            ),
        ),
    }
}

} // verus!
