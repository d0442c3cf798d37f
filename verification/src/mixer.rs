//! The mixer engine: transport state, device attachment decisions, and the
//! render-callback mixing algorithm.
//!
//! The engine's state machine uses three orthogonal flag groups — playing,
//! paused, and per-side device attachment — rather than one exhaustive
//! enum, because playback, pause and attachment toggle independently.
//!
//! Opening a device stream needs the host audio subsystem, which the
//! library cannot reach; attachment is therefore split in two verified
//! halves.  `begin_capture_start` / `begin_output_start` tear down the old
//! attachment first and say which device to ask the host for; the caller
//! performs the outside work and reports a [`StreamOpenOutcome`] to
//! `finish_capture_start` / `finish_output_start`, which updates the state
//! and builds the reply.  A failed start therefore always leaves that side
//! detached, never half-initialized.

use crate::playback::{mixed_with, FilePlayback};
use crate::ring::RingBuffer;
use crate::sample::{apply_volume, apply_volume_exec, clamp_gain, clamp_unit, clamp_unit_exec, GAIN_UNIT};
use vstd::prelude::*;
use vstd::string::*;

verus! {

/// Ring capacity: half a second of headroom at 48 kHz stereo.
pub const RING_CAPACITY: usize = 48_000;

/// Which side of the engine a stream belongs to.
#[derive(Debug)]
pub enum StreamSide {
    Capture,
    Render,
}

/// Everything that can go wrong while serving a command.
#[derive(Debug)]
pub enum MixerError {
    /// A device of the given name was asked for and is absent.
    DeviceNotFound(StreamSide, String),
    /// No device name was configured and the host has no default.
    NoDefaultDevice(StreamSide),
    /// The host failed to build or start a stream; carries its report.
    StreamError(String),
    /// The playback file could not be opened; carries the report.
    FileOpenError(String),
    /// The playback file could not be decoded; carries the report.
    DecodeError(String),
}

/// The human-readable message for each error.
pub open spec fn error_message(e: MixerError) -> Seq<char> {
    match e {
        MixerError::DeviceNotFound(side, name) => match side {
            StreamSide::Capture => "Input device not found: "@ + name@,
            StreamSide::Render => "Output device not found: "@ + name@,
        },
        MixerError::NoDefaultDevice(side) => match side {
            StreamSide::Capture => "No default input device available"@,
            StreamSide::Render => "No default output device available"@,
        },
        MixerError::StreamError(msg) => msg@,
        MixerError::FileOpenError(msg) => "Cannot open file: "@ + msg@,
        MixerError::DecodeError(msg) => "Cannot decode audio file: "@ + msg@,
    }
}

impl MixerError {
    /// Render the error as the message a controller sees.
    pub fn message(&self) -> (r: String)
        ensures
            r@ == error_message(*self),
    {
        match self {
            MixerError::DeviceNotFound(side, name) => match side {
                StreamSide::Capture => String::from_str("Input device not found: ").concat(
                    name.as_str(),
                ),
                StreamSide::Render => String::from_str("Output device not found: ").concat(
                    name.as_str(),
                ),
            },
            MixerError::NoDefaultDevice(side) => match side {
                StreamSide::Capture => String::from_str("No default input device available"),
                StreamSide::Render => String::from_str("No default output device available"),
            },
            MixerError::StreamError(msg) => msg.clone(),
            MixerError::FileOpenError(msg) => String::from_str("Cannot open file: ").concat(
                msg.as_str(),
            ),
            MixerError::DecodeError(msg) => String::from_str("Cannot decode audio file: ").concat(
                msg.as_str(),
            ),
        }
    }
}

/// Which device the caller should ask the host for.
#[derive(Debug)]
pub enum DeviceRequest {
    /// Look up this exact name.
    UseNamed(String),
    /// Use the host's default device for the side.
    UseDefault,
}

/// What came of asking the host to open a stream.
#[derive(Debug)]
pub enum StreamOpenOutcome {
    /// The stream was built and started.
    Opened,
    /// The requested name matched no device.
    NotFound,
    /// No name was configured and the host has no default device.
    NoDefault,
    /// The stream could not be built or started; carries the host's report.
    Failed(String),
}

/// A sequence of `len` silent samples.
pub open spec fn zero_seq(len: nat) -> Seq<i32> {
    Seq::new(len, |k: int| 0i32)
}

/// The microphone pass-through layer: the oldest `len` unread capture
/// samples, padded with silence when fewer are available.
pub open spec fn mic_seq(contents: Seq<i32>, len: nat) -> Seq<i32> {
    Seq::new(
        len,
        |k: int|
            if k < contents.len() {
                contents[k]
            } else {
                0i32
            },
    )
}

/// The mix layer: the mic layer with the active playback source summed on
/// top, when one is playing.
pub open spec fn post_mix_seq(m: MixerState, len: nat) -> Seq<i32> {
    let mic = mic_seq(m.ring.contents(), len);
    if m.playing {
        match m.file_playback {
            Some(fp) => mixed_with(mic, fp.samples_spec(), fp.pos_spec(), fp.gain_spec()),
            None => mic,
        }
    } else {
        mic
    }
}

/// What one render callback writes: silence when paused; otherwise the mix
/// layer scaled by the master volume and clamped to the audible range.
pub open spec fn render_out(m: MixerState, len: nat) -> Seq<i32> {
    if m.paused {
        zero_seq(len)
    } else {
        Seq::new(
            len,
            |k: int|
                clamp_unit(apply_volume(post_mix_seq(m, len)[k] as int, m.volume as int)) as i32,
        )
    }
}

/// The top-level mixer state.
#[verifier::ext_equal]
pub struct MixerState {
    /// Configured capture device name, `None` meaning the host default.
    pub input_device_name: Option<String>,
    /// Configured render device name, `None` meaning the host default.
    pub output_device_name: Option<String>,
    /// Whether a playback source was installed and not yet stopped.
    pub playing: bool,
    /// Whether the engine is paused.
    pub paused: bool,
    /// Master volume in thousandths of unity.
    pub volume: u32,
    /// Whether a capture stream is attached.
    pub capture_attached: bool,
    /// Whether a render stream is attached.
    pub output_attached: bool,
    /// The capture-to-render sample channel.
    pub ring: RingBuffer,
    /// The active playback source, if any.
    pub file_playback: Option<FilePlayback>,
}

/// How `stop` moves the state: playback gone, the playing flag down,
/// everything else untouched.
pub open spec fn stop_rel(pre: MixerState, post: MixerState) -> bool {
    &&& post.playing == false
    &&& post.file_playback is None
    &&& post.input_device_name == pre.input_device_name
    &&& post.output_device_name == pre.output_device_name
    &&& post.paused == pre.paused
    &&& post.volume as int == pre.volume as int
    &&& post.capture_attached == pre.capture_attached
    &&& post.output_attached == pre.output_attached
    &&& post.ring == pre.ring
}

/// Stopping is idempotent: a second `stop` right after a first one leaves
/// the state exactly where the first left it.
pub proof fn lemma_stop_idempotent(a: MixerState, b: MixerState, c: MixerState)
    requires
        stop_rel(a, b),
        stop_rel(b, c),
    ensures
        c == b,
{
    assert(c =~= b);
}

/// While paused, a render callback writes pure silence, whatever the
/// microphone or a playback source holds.
pub proof fn lemma_paused_renders_silence(m: MixerState, len: nat)
    requires
        m.paused,
    ensures
        render_out(m, len) == zero_seq(len),
{
}

impl MixerState {
    /// The state's internal invariant.
    pub open spec fn wf(self) -> bool {
        &&& 0 <= self.volume as int <= GAIN_UNIT as int
        &&& self.ring.wf()
        &&& match self.file_playback {
            Some(fp) => fp.wf(),
            None => true,
        }
    }

    /// A new, idle mixer: nothing attached, nothing playing, not paused,
    /// unity volume, an empty channel.
    pub fn new() -> (m: MixerState)
        ensures
            m.wf(),
            m.input_device_name is None,
            m.output_device_name is None,
            !m.playing,
            !m.paused,
            m.volume as int == GAIN_UNIT as int,
            !m.capture_attached,
            !m.output_attached,
            m.ring.cap() == RING_CAPACITY as int,
            m.ring.contents() == Seq::<i32>::empty(),
            m.file_playback is None,
    {
        MixerState {
            input_device_name: None,
            output_device_name: None,
            playing: false,
            paused: false,
            volume: GAIN_UNIT,
            capture_attached: false,
            output_attached: false,
            ring: RingBuffer::new(RING_CAPACITY),
            file_playback: None,
        }
    }

    /// Install a freshly decoded file as the playback source, replacing any
    /// existing one, and raise the playing flag.  The requested per-file
    /// gain is clamped into `[0, GAIN_UNIT]`.
    pub fn play_file(&mut self, samples: Vec<i32>, gain_raw: i64)
        requires
            old(self).wf(),
        ensures
            final(self).wf(),
            final(self).playing,
            match final(self).file_playback {
                Some(fp) => {
                    &&& fp.samples_spec() == samples@
                    &&& fp.pos_spec() == 0
                    &&& fp.gain_spec() == clamp_gain(gain_raw as int)
                },
                None => false,
            },
            final(self).input_device_name == old(self).input_device_name,
            final(self).output_device_name == old(self).output_device_name,
            final(self).paused == old(self).paused,
            final(self).volume as int == old(self).volume as int,
            final(self).capture_attached == old(self).capture_attached,
            final(self).output_attached == old(self).output_attached,
            final(self).ring == old(self).ring,
    {
        self.file_playback = Some(FilePlayback::new(samples, gain_raw));
        self.playing = true;
    }

    /// Stop playback immediately: clear the source and lower the flag.
    pub fn stop(&mut self)
        requires
            old(self).wf(),
        ensures
            final(self).wf(),
            stop_rel(*old(self), *final(self)),
    {
        self.playing = false;
        self.file_playback = None;
    }

    /// Pause both the mic pass-through and playback.
    pub fn pause(&mut self)
        requires
            old(self).wf(),
        ensures
            final(self).wf(),
            final(self).paused,
            final(self).playing == old(self).playing,
            final(self).input_device_name == old(self).input_device_name,
            final(self).output_device_name == old(self).output_device_name,
            final(self).volume as int == old(self).volume as int,
            final(self).capture_attached == old(self).capture_attached,
            final(self).output_attached == old(self).output_attached,
            final(self).ring == old(self).ring,
            final(self).file_playback == old(self).file_playback,
    {
        self.paused = true;
    }

    /// Resume after a pause.
    pub fn resume(&mut self)
        requires
            old(self).wf(),
        ensures
            final(self).wf(),
            !final(self).paused,
            final(self).playing == old(self).playing,
            final(self).input_device_name == old(self).input_device_name,
            final(self).output_device_name == old(self).output_device_name,
            final(self).volume as int == old(self).volume as int,
            final(self).capture_attached == old(self).capture_attached,
            final(self).output_attached == old(self).output_attached,
            final(self).ring == old(self).ring,
            final(self).file_playback == old(self).file_playback,
    {
        self.paused = false;
    }

    /// Set the master volume: any request is clamped into `[0, GAIN_UNIT]`
    /// thousandths before it is stored.
    pub fn set_volume(&mut self, v_raw: i64)
        requires
            old(self).wf(),
        ensures
            final(self).wf(),
            final(self).volume as int == clamp_gain(v_raw as int),
            final(self).playing == old(self).playing,
            final(self).paused == old(self).paused,
            final(self).input_device_name == old(self).input_device_name,
            final(self).output_device_name == old(self).output_device_name,
            final(self).capture_attached == old(self).capture_attached,
            final(self).output_attached == old(self).output_attached,
            final(self).ring == old(self).ring,
            final(self).file_playback == old(self).file_playback,
    {
        self.volume = crate::sample::clamp_gain_exec(v_raw);
    }

    /// Master volume in thousandths.
    pub fn volume_milli(&self) -> (v: u32)
        ensures
            v as int == self.volume as int,
    {
        self.volume
    }

    /// Whether the engine is paused.
    pub fn is_paused(&self) -> (p: bool)
        ensures
            p == self.paused,
    {
        self.paused
    }

    /// Whether a file is really being played.  The playing flag may lag
    /// behind a render callback that exhausted the source, so the flag is
    /// reconciled against the source before reporting: if the flag is up
    /// but the source is gone, the flag is lowered and `false` reported.
    pub fn is_playing(&mut self) -> (r: bool)
        requires
            old(self).wf(),
        ensures
            final(self).wf(),
            r == (old(self).playing && old(self).file_playback is Some),
            final(self).playing == r,
            final(self).paused == old(self).paused,
            final(self).input_device_name == old(self).input_device_name,
            final(self).output_device_name == old(self).output_device_name,
            final(self).volume as int == old(self).volume as int,
            final(self).capture_attached == old(self).capture_attached,
            final(self).output_attached == old(self).output_attached,
            final(self).ring == old(self).ring,
            final(self).file_playback == old(self).file_playback,
    {
        if !self.playing {
            return false;
        }
        if self.file_playback.is_none() {
            self.playing = false;
            return false;
        }
        true
    }

    /// Detach the capture stream (the old stream is torn down before a new
    /// one is asked for) and say which capture device the host should open.
    pub fn begin_capture_start(&mut self) -> (req: DeviceRequest)
        requires
            old(self).wf(),
        ensures
            final(self).wf(),
            !final(self).capture_attached,
            final(self).input_device_name == old(self).input_device_name,
            final(self).output_device_name == old(self).output_device_name,
            final(self).playing == old(self).playing,
            final(self).paused == old(self).paused,
            final(self).volume as int == old(self).volume as int,
            final(self).output_attached == old(self).output_attached,
            final(self).ring == old(self).ring,
            final(self).file_playback == old(self).file_playback,
            match old(self).input_device_name {
                Some(n) => req matches DeviceRequest::UseNamed(rn) && rn@ == n@,
                None => req is UseDefault,
            },
    {
        self.capture_attached = false;
        match &self.input_device_name {
            Some(n) => DeviceRequest::UseNamed(n.clone()),
            None => DeviceRequest::UseDefault,
        }
    }

    /// Detach the render stream and say which render device the host
    /// should open.
    pub fn begin_output_start(&mut self) -> (req: DeviceRequest)
        requires
            old(self).wf(),
        ensures
            final(self).wf(),
            !final(self).output_attached,
            final(self).input_device_name == old(self).input_device_name,
            final(self).output_device_name == old(self).output_device_name,
            final(self).playing == old(self).playing,
            final(self).paused == old(self).paused,
            final(self).volume as int == old(self).volume as int,
            final(self).capture_attached == old(self).capture_attached,
            final(self).ring == old(self).ring,
            final(self).file_playback == old(self).file_playback,
            match old(self).output_device_name {
                Some(n) => req matches DeviceRequest::UseNamed(rn) && rn@ == n@,
                None => req is UseDefault,
            },
    {
        self.output_attached = false;
        match &self.output_device_name {
            Some(n) => DeviceRequest::UseNamed(n.clone()),
            None => DeviceRequest::UseDefault,
        }
    }

    /// Record what came of opening the capture stream and build the reply:
    /// attached exactly when the stream opened, and the error that the
    /// outcome calls for otherwise.
    pub fn finish_capture_start(&mut self, outcome: StreamOpenOutcome) -> (r: Result<
        (),
        MixerError,
    >)
        requires
            old(self).wf(),
            outcome is NotFound ==> old(self).input_device_name is Some,
        ensures
            final(self).wf(),
            final(self).capture_attached == (outcome is Opened),
            r is Ok <==> outcome is Opened,
            final(self).input_device_name == old(self).input_device_name,
            final(self).output_device_name == old(self).output_device_name,
            final(self).playing == old(self).playing,
            final(self).paused == old(self).paused,
            final(self).volume as int == old(self).volume as int,
            final(self).output_attached == old(self).output_attached,
            final(self).ring == old(self).ring,
            final(self).file_playback == old(self).file_playback,
            match outcome {
                StreamOpenOutcome::Opened => r is Ok,
                StreamOpenOutcome::NotFound => match r {
                    Result::Err(e) => match e {
                        MixerError::DeviceNotFound(side, n) => side is Capture && match old(
                            self,
                        ).input_device_name {
                            Some(pn) => n@ == pn@,
                            None => false,
                        },
                        _ => false,
                    },
                    _ => false,
                },
                StreamOpenOutcome::NoDefault => r matches Result::Err(
                    MixerError::NoDefaultDevice(StreamSide::Capture),
                ),
                StreamOpenOutcome::Failed(msg) => match r {
                    Result::Err(e) => match e {
                        MixerError::StreamError(m2) => m2 == msg,
                        _ => false,
                    },
                    _ => false,
                },
            },
    {
        match outcome {
            StreamOpenOutcome::Opened => {
                self.capture_attached = true;
                Ok(())
            },
            StreamOpenOutcome::NotFound => {
                self.capture_attached = false;
                let name = match &self.input_device_name {
                    Some(n) => n.clone(),
                    None => {
                        proof {
                            assert(false);
                        }
                        String::new()
                    },
                };
                Err(MixerError::DeviceNotFound(StreamSide::Capture, name))
            },
            StreamOpenOutcome::NoDefault => {
                self.capture_attached = false;
                Err(MixerError::NoDefaultDevice(StreamSide::Capture))
            },
            StreamOpenOutcome::Failed(msg) => {
                self.capture_attached = false;
                Err(MixerError::StreamError(msg))
            },
        }
    }

    /// Record what came of opening the render stream and build the reply,
    /// symmetric to `finish_capture_start`.
    pub fn finish_output_start(&mut self, outcome: StreamOpenOutcome) -> (r: Result<
        (),
        MixerError,
    >)
        requires
            old(self).wf(),
            outcome is NotFound ==> old(self).output_device_name is Some,
        ensures
            final(self).wf(),
            final(self).output_attached == (outcome is Opened),
            r is Ok <==> outcome is Opened,
            final(self).input_device_name == old(self).input_device_name,
            final(self).output_device_name == old(self).output_device_name,
            final(self).playing == old(self).playing,
            final(self).paused == old(self).paused,
            final(self).volume as int == old(self).volume as int,
            final(self).capture_attached == old(self).capture_attached,
            final(self).ring == old(self).ring,
            final(self).file_playback == old(self).file_playback,
            match outcome {
                StreamOpenOutcome::Opened => r is Ok,
                StreamOpenOutcome::NotFound => match r {
                    Result::Err(e) => match e {
                        MixerError::DeviceNotFound(side, n) => side is Render && match old(
                            self,
                        ).output_device_name {
                            Some(pn) => n@ == pn@,
                            None => false,
                        },
                        _ => false,
                    },
                    _ => false,
                },
                StreamOpenOutcome::NoDefault => r matches Result::Err(
                    MixerError::NoDefaultDevice(StreamSide::Render),
                ),
                StreamOpenOutcome::Failed(msg) => match r {
                    Result::Err(e) => match e {
                        MixerError::StreamError(m2) => m2 == msg,
                        _ => false,
                    },
                    _ => false,
                },
            },
    {
        match outcome {
            StreamOpenOutcome::Opened => {
                self.output_attached = true;
                Ok(())
            },
            StreamOpenOutcome::NotFound => {
                self.output_attached = false;
                let name = match &self.output_device_name {
                    Some(n) => n.clone(),
                    None => {
                        proof {
                            assert(false);
                        }
                        String::new()
                    },
                };
                Err(MixerError::DeviceNotFound(StreamSide::Render, name))
            },
            StreamOpenOutcome::NoDefault => {
                self.output_attached = false;
                Err(MixerError::NoDefaultDevice(StreamSide::Render))
            },
            StreamOpenOutcome::Failed(msg) => {
                self.output_attached = false;
                Err(MixerError::StreamError(msg))
            },
        }
    }

    /// The capture callback's work: when not paused, push the captured
    /// samples into the channel; when paused, do nothing.
    pub fn capture_push(&mut self, samples: &Vec<i32>)
        requires
            old(self).wf(),
        ensures
            final(self).wf(),
            final(self).input_device_name == old(self).input_device_name,
            final(self).output_device_name == old(self).output_device_name,
            final(self).playing == old(self).playing,
            final(self).paused == old(self).paused,
            final(self).volume as int == old(self).volume as int,
            final(self).capture_attached == old(self).capture_attached,
            final(self).output_attached == old(self).output_attached,
            final(self).file_playback == old(self).file_playback,
            old(self).paused ==> final(self).ring == old(self).ring,
            !old(self).paused ==> {
                &&& final(self).ring.cap() == old(self).ring.cap()
                &&& RingBuffer::push_rel(
                    old(self).ring,
                    final(self).ring,
                    samples@,
                )
                &&& old(self).ring.avail_spec() + samples@.len() < old(
                    self,
                ).ring.cap() ==> final(self).ring.contents() == old(
                    self,
                ).ring.contents() + samples@
            },
    {
        if self.paused {
            return ;
        }
        self.ring.push(samples);
    }

    /// The render callback's work, in order: zero the buffer; if paused,
    /// leave silence; pop the oldest capture samples into the front; sum
    /// the playback source on top when playing, dropping it the moment it
    /// is exhausted; scale by the master volume; clamp to the audible
    /// range.
    #[verifier::loop_isolation(false)]
    pub fn render_into(&mut self, out: &mut Vec<i32>)
        requires
            old(self).wf(),
        ensures
            final(self).wf(),
            final(out)@.len() == old(out)@.len(),
            final(out)@ == render_out(*old(self), old(out)@.len() as nat),
            final(self).input_device_name == old(self).input_device_name,
            final(self).output_device_name == old(self).output_device_name,
            final(self).playing == old(self).playing,
            final(self).paused == old(self).paused,
            final(self).volume as int == old(self).volume as int,
            final(self).capture_attached == old(self).capture_attached,
            final(self).output_attached == old(self).output_attached,
            old(self).paused ==> final(self).ring == old(self).ring
                && final(self).file_playback == old(self).file_playback,
            !old(self).paused ==> {
                &&& final(self).ring.cap() == old(self).ring.cap()
                &&& final(self).ring.contents() == old(self).ring.contents().skip(
                    if old(out)@.len() as int <= old(self).ring.avail_spec() {
                        old(out)@.len() as int
                    } else {
                        old(self).ring.avail_spec()
                    },
                )
                &&& !old(self).playing ==> final(self).file_playback == old(
                    self,
                ).file_playback
                &&& old(self).playing ==> match old(self).file_playback {
                    None => final(self).file_playback is None,
                    Some(fp) => {
                        let adv = fp.pos_spec() + if old(out)@.len() as int <= fp.remaining() {
                            old(out)@.len() as int
                        } else {
                            fp.remaining()
                        };
                        if adv < fp.samples_spec().len() {
                            match final(self).file_playback {
                                Some(fp2) => {
                                    &&& fp2.samples_spec() == fp.samples_spec()
                                    &&& fp2.gain_spec() == fp.gain_spec()
                                    &&& fp2.pos_spec() == adv
                                },
                                None => false,
                            }
                        } else {
                            final(self).file_playback is None
                        }
                    },
                }
            },
    {
        let len = out.len();
        // (a) zero the buffer first
        let mut i: usize = 0;
        while i < len
            invariant
                i <= len,
                out@.len() == len,
                forall|k: int| 0 <= k < i ==> out@[k] == 0i32,
            decreases len - i,
        {
            out.set(i, 0);
            i = i + 1;
        }
        // (b) paused: leave silence, touch nothing
        if self.paused {
            proof {
                assert(out@ =~= render_out(*old(self), old(out)@.len() as nat));
            }
            return ;
        }
        let ghost mic = mic_seq(old(self).ring.contents(), len as nat);
        let ghost pre_pop_out = out@;
        // (c) mic pass-through
        let popped = self.ring.pop(out);
        proof {
            let pre = *old(self);
            let n = popped as int;
            pre.ring.lemma_contents_len();
            assert forall|k: int| 0 <= k < len implies out@[k] == mic[k] by {
                if k < n {
                    assert(out@[k] == pre.ring.contents().take(n)[k]);
                    assert(out@[k] == pre.ring.contents()[k]);
                } else {
                    assert(out@[k] == pre_pop_out.skip(n)[k - n]);
                    assert(out@[k] == 0i32);
                }
            }
            assert(out@ =~= mic);
        }
        // (d) playback on top, dropping an exhausted source
        if self.playing {
            let fp_opt = self.file_playback.take();
            match fp_opt {
                Some(mut fp) => {
                    let still = fp.mix_into(out);
                    if still {
                        self.file_playback = Some(fp);
                    } else {
                        self.file_playback = None;
                    }
                },
                None => {},
            }
        }
        proof {
            assert(out@ =~= post_mix_seq(*old(self), len as nat));
        }
        // (e) + (f) master volume, then clamp to the audible range
        let vol = self.volume;
        let ghost mixed = out@;
        let mut j: usize = 0;
        while j < len
            invariant
                j <= len,
                out@.len() == len,
                vol == self.volume,
                self.volume == old(self).volume,
                forall|k: int|
                    0 <= k < j ==> out@[k] as int == clamp_unit(
                        apply_volume(mixed[k] as int, vol as int),
                    ),
                forall|k: int| j <= k < len ==> out@[k] == mixed[k],
            decreases len - j,
        {
            let v = apply_volume_exec(out[j], vol);
            let c = clamp_unit_exec(v);
            out.set(j, c);
            j = j + 1;
        }
        proof {
            assert(out@ =~= render_out(*old(self), old(out)@.len() as nat));
        }
    }
}

} // verus!
