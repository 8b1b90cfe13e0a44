//! The audio capture engine: a single owned recording session driven
//! through a command interface. The surrounding program opens the device
//! stream and relays sample buffers; the engine holds the session state,
//! refuses a second session, converts nothing while idle, and finalizes a
//! structurally valid artifact on stop.

use vstd::prelude::*;

verus! {

use vstd::string::StringExecFns;
use crate::wav::{wav_bytes, wav_valid, encode_wav};

/// The most samples one session may hold: far below what the artifact's
/// 32-bit size fields could carry, so finalizing always fits.
pub const MAX_SAMPLES: usize = 0x3000_0000;

/// Sample formats a capture device may deliver, as far as the engine
/// distinguishes them.
#[derive(Clone, Copy, PartialEq, Eq, Structural, Debug)]
pub enum SampleFormat {
    I16,
    U16,
    F32,
    Other,
}

/// What the platform reports of an input device, as plain values.
#[derive(Clone, Copy, PartialEq, Eq, Structural, Debug)]
pub struct DeviceDescriptor {
    pub sample_format: SampleFormat,
    pub sample_rate: u32,
    pub channels: u16,
}

/// Capture-time failures, surfaced synchronously from `start` and `stop`.
#[derive(Clone, Copy, PartialEq, Eq, Structural, Debug)]
pub enum CaptureError {
    AlreadyRecording,
    DeviceUnavailable,
    UnsupportedSampleFormat,
    DeviceLost,
    FinalizeFailed,
}

impl CaptureError {
    /// A human-readable account of the failure; the unsupported-format
    /// message enumerates the formats the engine accepts.
    pub fn message(&self) -> (m: String)
        ensures
            *self is AlreadyRecording ==> m@ == "already recording"@,
            *self is DeviceUnavailable ==> m@ == "no input device available"@,
            *self is UnsupportedSampleFormat ==> m@
                == "unsupported sample format; supported formats: i16, u16, f32"@,
            *self is DeviceLost ==> m@ == "input device lost during recording"@,
            *self is FinalizeFailed ==> m@ == "failed to finalize the recording"@,
    {
        match self {
            CaptureError::AlreadyRecording => String::from_str("already recording"),
            CaptureError::DeviceUnavailable => String::from_str("no input device available"),
            CaptureError::UnsupportedSampleFormat => String::from_str(
                "unsupported sample format; supported formats: i16, u16, f32",
            ),
            CaptureError::DeviceLost => String::from_str("input device lost during recording"),
            CaptureError::FinalizeFailed => String::from_str("failed to finalize the recording"),
        }
    }
}

/// The durable outcome of one session: where it is to be stored, its
/// format metadata, and the complete encoded bytes.
pub struct AudioArtifact {
    pub path: String,
    pub sample_rate: u32,
    pub channels: u16,
    pub data: Vec<u8>,
}

impl AudioArtifact {
    pub fn byte_size(&self) -> (n: usize)
        ensures
            n == self.data@.len(),
    {
        self.data.len()
    }
}

/// The live session between `start` and `stop`: sink path, stream format,
/// and everything captured so far.
pub struct RecordingSession {
    pub path: String,
    pub sample_rate: u32,
    pub channels: u16,
    pub samples: Vec<i16>,
}

/// Engine states: one live session at most, and two absorbing failure
/// states that the next `stop` reports and clears.
#[derive(Clone, Copy, PartialEq, Eq, Structural, Debug)]
pub enum EngineState {
    Idle,
    Recording,
    DeviceGone,
    SinkOverrun,
}

/// The engine accepts these native formats; anything else fails fast.
pub open spec fn format_supported(f: SampleFormat) -> bool {
    f is I16 || f is U16 || f is F32
}

/// The stream geometry the artifact's header can represent.
pub open spec fn geometry_encodable(sample_rate: u32, channels: u16) -> bool {
    &&& 1 <= channels
    &&& channels as int * 2 <= u16::MAX
    &&& 1 <= sample_rate
    &&& sample_rate as int * channels as int * 2 <= u32::MAX
}

/// A device the engine can record from: its geometry fits the artifact.
pub open spec fn layout_encodable(d: DeviceDescriptor) -> bool {
    geometry_encodable(d.sample_rate, d.channels)
}

pub struct CaptureEngine {
    pub state: EngineState,
    pub session: Option<RecordingSession>,
}

impl CaptureEngine {
    /// Well-formedness: a session exists exactly while recording, and its
    /// geometry and size stay within what the artifact can represent.
    pub open spec fn wf(&self) -> bool {
        match self.state {
            EngineState::Recording => {
                &&& self.session is Some
                &&& self.session->0.samples@.len() <= MAX_SAMPLES
                &&& geometry_encodable(self.session->0.sample_rate, self.session->0.channels)
            },
            _ => self.session is None,
        }
    }

    pub fn new() -> (e: CaptureEngine)
        ensures
            e.wf(),
            e.state is Idle,
            e.session is None,
    {
        CaptureEngine { state: EngineState::Idle, session: None }
    }

    /// A pure state read; never touches the session.
    pub fn is_recording(&self) -> (b: bool)
        ensures
            b == (self.state is Recording),
    {
        match self.state {
            EngineState::Recording => true,
            _ => false,
        }
    }

    /// What `start` returns for each engine state and device, if and only
    /// if: a second session is refused, a missing device or one whose
    /// geometry cannot be encoded is unavailable, and a native format
    /// outside the supported three fails fast.
    pub open spec fn start_result(pre: CaptureEngine, device: Option<DeviceDescriptor>) -> Result<
        (),
        CaptureError,
    > {
        if !(pre.state is Idle) {
            Err(CaptureError::AlreadyRecording)
        } else {
            match device {
                None => Err(CaptureError::DeviceUnavailable),
                Some(d) => if !format_supported(d.sample_format) {
                    Err(CaptureError::UnsupportedSampleFormat)
                } else if !layout_encodable(d) {
                    Err(CaptureError::DeviceUnavailable)
                } else {
                    Ok(())
                },
            }
        }
    }

    /// Opens a session on the given device. Every failure, the refusal of
    /// a second session included, leaves the engine, and any live
    /// session's artifact path, exactly as they were.
    pub fn start(&mut self, device: Option<DeviceDescriptor>) -> (r: Result<(), CaptureError>)
        requires
            old(self).wf(),
        ensures
            final(self).wf(),
            r == Self::start_result(*old(self), device),
            r is Err ==> *final(self) == *old(self),
            r is Ok ==> (device matches Some(d) && final(self).state is Recording
                && (final(self).session matches Some(s) && s.sample_rate == d.sample_rate
                && s.channels == d.channels && s.samples@ == Seq::<i16>::empty()
                && (exists|ts: Seq<char>|
                s.path@ == "/tmp/typr/recording_"@ + ts + ".wav"@ && #[trigger] timestamp_shaped(
                    ts,
                )))),
    {
        match self.state {
            EngineState::Idle => {},
            _ => {
                return Err(CaptureError::AlreadyRecording);
            },
        }
        let d = match device {
            Some(d) => d,
            None => {
                return Err(CaptureError::DeviceUnavailable);
            },
        };
        match d.sample_format {
            SampleFormat::I16 => {},
            SampleFormat::U16 => {},
            SampleFormat::F32 => {},
            _ => {
                return Err(CaptureError::UnsupportedSampleFormat);
            },
        }
        proof {
            assert(d.sample_rate as int * d.channels as int * 2 <= u64::MAX) by (nonlinear_arith)
                requires
                    d.sample_rate as int <= u32::MAX,
                    d.channels as int <= u16::MAX,
            ;
        }
        if d.channels < 1 || d.channels > u16::MAX / 2 || d.sample_rate < 1 || (d.sample_rate
            as u64) * (d.channels as u64) * 2 > u32::MAX as u64 {
            return Err(CaptureError::DeviceUnavailable);
        }
        let path = fresh_sink_path();
        self.session = Some(
            RecordingSession {
                path,
                sample_rate: d.sample_rate,
                channels: d.channels,
                samples: Vec::new(),
            },
        );
        self.state = EngineState::Recording;
        Ok(())
    }

    /// Accepts a relayed sample buffer while recording; a buffer that
    /// would grow the session past `MAX_SAMPLES` overruns the sink, which
    /// the next `stop` reports as a failed finalize. Outside `Recording`
    /// the engine accepts nothing and stays as it is.
    pub fn push_samples(&mut self, buf: &Vec<i16>)
        requires
            old(self).wf(),
        ensures
            final(self).wf(),
            !(old(self).state is Recording) ==> *final(self) == *old(self),
            old(self).state is Recording && old(self).session->0.samples@.len() + buf@.len()
                <= MAX_SAMPLES ==> {
                &&& final(self).state is Recording
                &&& final(self).session matches Some(s) && s.path == old(self).session->0.path
                    && s.sample_rate == old(self).session->0.sample_rate
                    && s.channels == old(self).session->0.channels
                    && s.samples@ == old(self).session->0.samples@ + buf@
            },
            old(self).state is Recording && old(self).session->0.samples@.len() + buf@.len()
                > MAX_SAMPLES ==> final(self).state is SinkOverrun && final(self).session is None,
    {
        match self.state {
            EngineState::Recording => {},
            _ => {
                return;
            },
        }
        let fits = match self.session.as_ref() {
            Some(s) => buf.len() <= MAX_SAMPLES && s.samples.len() <= MAX_SAMPLES - buf.len(),
            None => false,
        };
        if !fits {
            self.session = None;
            self.state = EngineState::SinkOverrun;
            return;
        }
        match self.session.as_mut() {
            Some(s) => {
                append_samples(&mut s.samples, buf);
            },
            None => {},
        }
    }

    /// Records that the device failed mid-session: the engine stops
    /// accepting samples and the next `stop` observes `DeviceLost`. With
    /// no session live there is nothing to lose and nothing changes.
    pub fn device_error(&mut self)
        requires
            old(self).wf(),
        ensures
            final(self).wf(),
            old(self).state is Recording ==> final(self).state is DeviceGone
                && final(self).session is None,
            !(old(self).state is Recording) ==> *final(self) == *old(self),
    {
        match self.state {
            EngineState::Recording => {
                self.session = None;
                self.state = EngineState::DeviceGone;
            },
            _ => {},
        }
    }

    /// Ends the session. Idle is a no-op success; a session that lost its
    /// device reports `DeviceLost`; an overrun sink reports
    /// `FinalizeFailed`; a live session finalizes into an artifact whose
    /// bytes are exactly the WAVE encoding of everything captured. In
    /// every case the engine is idle afterwards and the session is gone.
    pub fn stop(&mut self) -> (r: Result<Option<AudioArtifact>, CaptureError>)
        requires
            old(self).wf(),
        ensures
            final(self).wf(),
            final(self).state is Idle && final(self).session is None,
            old(self).state is Idle ==> (r matches Ok(a) && a is None && *final(self) == *old(
                self,
            )),
            old(self).state is DeviceGone ==> r == Err::<Option<AudioArtifact>, CaptureError>(
                CaptureError::DeviceLost,
            ),
            old(self).state is SinkOverrun ==> r == Err::<Option<AudioArtifact>, CaptureError>(
                CaptureError::FinalizeFailed,
            ),
            old(self).state is Recording ==> (r matches Ok(oa) && (oa matches Some(a) && {
                let s = old(self).session->0;
                &&& a.path == s.path
                &&& a.sample_rate == s.sample_rate
                &&& a.channels == s.channels
                &&& a.data@ == wav_bytes(s.sample_rate, s.channels, s.samples@)
                &&& wav_valid(a.data@)
                &&& a.data@.len() == 44 + 2 * s.samples@.len()
            })),
    {
        match self.state {
            EngineState::Idle => Ok(None),
            EngineState::DeviceGone => {
                self.state = EngineState::Idle;
                self.session = None;
                Err(CaptureError::DeviceLost)
            },
            EngineState::SinkOverrun => {
                self.state = EngineState::Idle;
                self.session = None;
                Err(CaptureError::FinalizeFailed)
            },
            EngineState::Recording => {
                self.state = EngineState::Idle;
                let sess = match self.session.take() {
                    Some(s) => s,
                    None => {
                        // well-formedness rules this out: a recording
                        // engine always holds its session
                        proof {
                            assert(false);
                        }
                        return Err(CaptureError::FinalizeFailed);
                    },
                };
                let data = encode_wav(sess.sample_rate, sess.channels, &sess.samples);
                Ok(
                    Some(
                        AudioArtifact {
                            path: sess.path,
                            sample_rate: sess.sample_rate,
                            channels: sess.channels,
                            data,
                        },
                    ),
                )
            },
        }
    }
}

/// A sample of an unsigned 16-bit stream, recentred as the signed sample
/// the artifact stores.
pub fn sample_from_u16(x: u16) -> (s: i16)
    ensures
        s as int == x as int - 32768,
{
    ((x as i32) - 32768) as i16
}

fn append_samples(dst: &mut Vec<i16>, src: &Vec<i16>)
    ensures
        final(dst)@ == old(dst)@ + src@,
{
    let mut j: usize = 0;
    while j < src.len()
        invariant
            j <= src@.len(),
            dst@ == old(dst)@ + src@.subrange(0, j as int),
        decreases src@.len() - j,
    {
        dst.push(src[j]);
        proof {
            assert(dst@ =~= old(dst)@ + src@.subrange(0, j as int + 1));
        }
        j += 1;
    }
    proof {
        assert(old(dst)@ + src@.subrange(0, src@.len() as int) =~= old(dst)@ + src@);
    }
}

/// The shape of the compact timestamp: the six time characters behind a
/// single underscore, at least eight date characters before it, and a
/// digit everywhere else — the year may run wider than four digits, and
/// then leads with a sign.
pub open spec fn timestamp_shaped(ts: Seq<char>) -> bool {
    &&& ts.len() >= 15
    &&& ts[ts.len() - 7] == '_'
    &&& forall|i: int|
        0 <= i < ts.len() && i != ts.len() - 7 ==> ((48 <= (#[trigger] ts[i]) as u32 && ts[i]
            as u32 <= 57) || ts[i] == '+')
}

/// Relies on chrono's `Local::now` and its `format` with the pattern
/// `%Y%m%d_%H%M%S`: what the clock reads varies, the rendering's shape
/// does not — the year zero-padded to four digits (signed and wider only
/// far outside the common era; a clock before the epoch panics inside
/// chrono instead), month, day, hour, minute and second to two each,
/// and the one underscore between date and time.
#[verifier::external_body]
fn timestamp_now() -> (t: String)
    ensures
        timestamp_shaped(t@),
{
    chrono::Local::now().format("%Y%m%d_%H%M%S").to_string()
}

/// A fresh sink path for one session's artifact: a genuine timestamp
/// between the recording directory's prefix and the artifact suffix.
pub fn fresh_sink_path() -> (p: String)
    ensures
        exists|ts: Seq<char>|
            p@ == "/tmp/typr/recording_"@ + ts + ".wav"@ && #[trigger] timestamp_shaped(ts),
{
    let ts = timestamp_now();
    let p = String::from_str("/tmp/typr/recording_").concat(ts.as_str()).concat(".wav");
    proof {
        assert(p@ == "/tmp/typr/recording_"@ + ts@ + ".wav"@);
        assert(timestamp_shaped(ts@));
    }
    p
}

} // verus!
