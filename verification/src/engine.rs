//! The audio capture engine's decision core.
//!
//! The real engine owns a hardware input stream on a dedicated worker thread;
//! the host wires that stream and the command channel to this state machine.
//! Everything the worker decides — which stream configuration to negotiate,
//! what each command does to the buffers, which samples a stop call hands
//! back — lives here and is specified exactly.  The thread, the channels and
//! the platform stream itself stay outside the library.

use vstd::prelude::*;

use crate::samples::{mix_to_mono, spec_mix_to_mono};

verus! {

/// Informational capture state, derived from the command history.
#[derive(Clone, Copy, Debug, PartialEq, Eq, Structural)]
pub enum RecorderState {
    Idle,
    Recording,
    Processing,
}

/// Hardware sample encodings, ordered by fidelity for negotiation.
#[derive(Clone, Copy, Debug, PartialEq, Eq, Structural)]
pub enum SampleFormat {
    /// 32-bit float samples: the highest-fidelity choice.
    Float32,
    /// 16-bit integer samples.
    Int16,
    /// 32-bit integer samples.
    Int32,
    /// 8-bit unsigned samples.
    Uint8,
    /// Anything else a platform may report.
    Other,
}

/// One supported-configuration range reported by an input device.
#[derive(Clone, Copy, Debug, PartialEq, Eq, Structural)]
pub struct SupportedConfigRange {
    pub min_sample_rate: u32,
    pub max_sample_rate: u32,
    pub channels: u16,
    pub format: SampleFormat,
}

/// A negotiated stream configuration.
#[derive(Clone, Copy, Debug, PartialEq, Eq, Structural)]
pub struct NegotiatedConfig {
    pub sample_rate: u32,
    pub channels: u16,
    pub format: SampleFormat,
}

/// Errors of the capture engine.
#[derive(Clone, Debug, PartialEq, Eq)]
pub enum CaptureError {
    /// A command was issued before the engine was opened.
    NotOpen,
    /// No input device was available at open time.
    NoDeviceAvailable,
    /// The platform stream could not be built.
    StreamBuildError(String),
    /// The platform stream could not be started.
    StreamPlayError(String),
    /// The worker thread has already exited.
    WorkerUnavailable,
}

/// Fidelity score used during negotiation: float beats 16-bit integer beats
/// everything else.
pub open spec fn format_score(f: SampleFormat) -> int {
    match f {
        SampleFormat::Float32 => 3,
        SampleFormat::Int16 => 2,
        _ => 1,
    }
}

/// The sample rates the engine prefers, in preference order.
pub open spec fn preferred_rates() -> Seq<u32> {
    seq![16000u32, 44100u32, 48000u32, 22050u32, 8000u32]
}

/// Whether a range covers the given rate.
pub open spec fn range_supports(r: SupportedConfigRange, rate: u32) -> bool {
    r.min_sample_rate <= rate && rate <= r.max_sample_rate
}

/// Whether any range covers the given rate.
pub open spec fn rate_supported(ranges: Seq<SupportedConfigRange>, rate: u32) -> bool {
    exists|j: int| 0 <= j < ranges.len() && range_supports(ranges[j], rate)
}

/// The first rate of the preference list (scanning from position `ri`) that
/// some range covers.
pub open spec fn first_supported_preferred_from(
    ranges: Seq<SupportedConfigRange>,
    ri: int,
) -> Option<u32>
    decreases preferred_rates().len() - ri,
{
    if ri < 0 || ri >= preferred_rates().len() {
        None
    } else if rate_supported(ranges, preferred_rates()[ri]) {
        Some(preferred_rates()[ri])
    } else {
        first_supported_preferred_from(ranges, ri + 1)
    }
}

/// The first preferred rate that some range covers: the rate negotiation
/// settles on, since the rate preference outranks format fidelity.
pub open spec fn first_supported_preferred(ranges: Seq<SupportedConfigRange>) -> Option<u32> {
    first_supported_preferred_from(ranges, 0)
}

/// Index `i` names the range negotiation picks once the rate is fixed: it
/// covers that rate, no range covering that rate scores higher, and it is
/// the earliest among those of its score.
pub open spec fn is_best_for_rate(ranges: Seq<SupportedConfigRange>, rate: u32, i: int) -> bool {
    &&& 0 <= i < ranges.len()
    &&& range_supports(ranges[i], rate)
    &&& forall|j: int|
        0 <= j < ranges.len() && range_supports(ranges[j], rate) ==> format_score(ranges[j].format)
            <= format_score(ranges[i].format)
    &&& forall|j: int|
        0 <= j < i && range_supports(ranges[j], rate) ==> format_score(ranges[j].format)
            < format_score(ranges[i].format)
}

/// Whether `r` covers the given rate.
fn supports_rate(r: &SupportedConfigRange, rate: u32) -> (b: bool)
    ensures
        b == range_supports(*r, rate),
{
    r.min_sample_rate <= rate && rate <= r.max_sample_rate
}

/// The fidelity score of a format.
fn score_of(f: SampleFormat) -> (s: u8)
    ensures
        s as int == format_score(f),
{
    match f {
        SampleFormat::Float32 => 3,
        SampleFormat::Int16 => 2,
        _ => 1,
    }
}

/// Among the ranges covering `rate`, the earliest one of the highest
/// fidelity; `None` when no range covers the rate.
fn best_range_for_rate(ranges: &Vec<SupportedConfigRange>, rate: u32) -> (r: Option<usize>)
    ensures
        r is None <==> !rate_supported(ranges@, rate),
        r matches Some(i) ==> is_best_for_rate(ranges@, rate, i as int),
{
    let mut best: Option<usize> = None;
    let mut i: usize = 0;
    while i < ranges.len()
        invariant
            i <= ranges@.len(),
            best is None ==> forall|j: int| 0 <= j < i ==> !range_supports(ranges@[j], rate),
            best matches Some(b) ==> {
                &&& 0 <= b < i
                &&& range_supports(ranges@[b as int], rate)
                &&& forall|j: int|
                    0 <= j < i && range_supports(ranges@[j], rate) ==> format_score(
                        ranges@[j].format,
                    ) <= format_score(ranges@[b as int].format)
                &&& forall|j: int|
                    0 <= j < b && range_supports(ranges@[j], rate) ==> format_score(
                        ranges@[j].format,
                    ) < format_score(ranges@[b as int].format)
            },
        decreases ranges@.len() - i,
    {
        if supports_rate(&ranges[i], rate) {
            let replace = match best {
                None => true,
                Some(b) => score_of(ranges[i].format) > score_of(ranges[b].format),
            };
            if replace {
                best = Some(i);
            }
        }
        i = i + 1;
    }
    best
}

/// Negotiate a stream configuration from the ranges a device reports: the
/// rate is the first of the preference list that any range covers — the rate
/// order outranks format fidelity — and among the ranges covering that rate
/// the earliest one of the highest fidelity supplies channels and format.
/// `None` when no range covers any preferred rate — the caller then falls
/// back to the device's reported default configuration.
pub fn pick_preferred_config(ranges: &Vec<SupportedConfigRange>) -> (r: Option<NegotiatedConfig>)
    ensures
        r is None <==> first_supported_preferred(ranges@) is None,
        r matches Some(cfg) ==> Some(cfg.sample_rate) == first_supported_preferred(ranges@),
        r matches Some(cfg) ==> exists|i: int|
            {
                &&& #[trigger] is_best_for_rate(ranges@, cfg.sample_rate, i)
                &&& cfg.channels == ranges@[i].channels
                &&& cfg.format == ranges@[i].format
            },
{
    proof {
        reveal_with_fuel(first_supported_preferred_from, 7);
        assert(preferred_rates()[0] == 16000u32);
        assert(preferred_rates()[1] == 44100u32);
        assert(preferred_rates()[2] == 48000u32);
        assert(preferred_rates()[3] == 22050u32);
        assert(preferred_rates()[4] == 8000u32);
    }
    match best_range_for_rate(ranges, 16000) {
        Some(i) => {
            let cfg = NegotiatedConfig {
                sample_rate: 16000,
                channels: ranges[i].channels,
                format: ranges[i].format,
            };
            proof {
                assert(is_best_for_rate(ranges@, cfg.sample_rate, i as int));
            }
            return Some(cfg);
        },
        None => {},
    }
    match best_range_for_rate(ranges, 44100) {
        Some(i) => {
            proof {
                reveal_with_fuel(first_supported_preferred_from, 7);
                assert(!rate_supported(ranges@, preferred_rates()[0]));
                assert(first_supported_preferred_from(ranges@, 0)
                    == first_supported_preferred_from(ranges@, 1));
                assert(rate_supported(ranges@, preferred_rates()[1]));
                assert(first_supported_preferred_from(ranges@, 1) == Some(44100u32));
            }
            let cfg = NegotiatedConfig {
                sample_rate: 44100,
                channels: ranges[i].channels,
                format: ranges[i].format,
            };
            proof {
                assert(is_best_for_rate(ranges@, cfg.sample_rate, i as int));
            }
            return Some(cfg);
        },
        None => {},
    }
    match best_range_for_rate(ranges, 48000) {
        Some(i) => {
            proof {
                reveal_with_fuel(first_supported_preferred_from, 7);
                assert(!rate_supported(ranges@, preferred_rates()[0]));
                assert(first_supported_preferred_from(ranges@, 0)
                    == first_supported_preferred_from(ranges@, 1));
                assert(!rate_supported(ranges@, preferred_rates()[1]));
                assert(first_supported_preferred_from(ranges@, 1)
                    == first_supported_preferred_from(ranges@, 2));
                assert(rate_supported(ranges@, preferred_rates()[2]));
                assert(first_supported_preferred_from(ranges@, 2) == Some(48000u32));
            }
            let cfg = NegotiatedConfig {
                sample_rate: 48000,
                channels: ranges[i].channels,
                format: ranges[i].format,
            };
            proof {
                assert(is_best_for_rate(ranges@, cfg.sample_rate, i as int));
            }
            return Some(cfg);
        },
        None => {},
    }
    match best_range_for_rate(ranges, 22050) {
        Some(i) => {
            proof {
                reveal_with_fuel(first_supported_preferred_from, 7);
                assert(!rate_supported(ranges@, preferred_rates()[0]));
                assert(first_supported_preferred_from(ranges@, 0)
                    == first_supported_preferred_from(ranges@, 1));
                assert(!rate_supported(ranges@, preferred_rates()[1]));
                assert(first_supported_preferred_from(ranges@, 1)
                    == first_supported_preferred_from(ranges@, 2));
                assert(!rate_supported(ranges@, preferred_rates()[2]));
                assert(first_supported_preferred_from(ranges@, 2)
                    == first_supported_preferred_from(ranges@, 3));
                assert(rate_supported(ranges@, preferred_rates()[3]));
                assert(first_supported_preferred_from(ranges@, 3) == Some(22050u32));
            }
            let cfg = NegotiatedConfig {
                sample_rate: 22050,
                channels: ranges[i].channels,
                format: ranges[i].format,
            };
            proof {
                assert(is_best_for_rate(ranges@, cfg.sample_rate, i as int));
            }
            return Some(cfg);
        },
        None => {},
    }
    match best_range_for_rate(ranges, 8000) {
        Some(i) => {
            proof {
                reveal_with_fuel(first_supported_preferred_from, 7);
                assert(!rate_supported(ranges@, preferred_rates()[0]));
                assert(first_supported_preferred_from(ranges@, 0)
                    == first_supported_preferred_from(ranges@, 1));
                assert(!rate_supported(ranges@, preferred_rates()[1]));
                assert(first_supported_preferred_from(ranges@, 1)
                    == first_supported_preferred_from(ranges@, 2));
                assert(!rate_supported(ranges@, preferred_rates()[2]));
                assert(first_supported_preferred_from(ranges@, 2)
                    == first_supported_preferred_from(ranges@, 3));
                assert(!rate_supported(ranges@, preferred_rates()[3]));
                assert(first_supported_preferred_from(ranges@, 3)
                    == first_supported_preferred_from(ranges@, 4));
                assert(rate_supported(ranges@, preferred_rates()[4]));
                assert(first_supported_preferred_from(ranges@, 4) == Some(8000u32));
            }
            let cfg = NegotiatedConfig {
                sample_rate: 8000,
                channels: ranges[i].channels,
                format: ranges[i].format,
            };
            proof {
                assert(is_best_for_rate(ranges@, cfg.sample_rate, i as int));
            }
            return Some(cfg);
        },
        None => {},
    }
    proof {
        reveal_with_fuel(first_supported_preferred_from, 7);
    }
    None
}

/// Abstract state of the capture engine.
pub struct RecorderModel {
    /// Whether the engine has an open stream (a live worker).
    pub opened: bool,
    /// Whether the worker is accumulating samples.
    pub recording: bool,
    /// The negotiated sample rate (16000 before any successful open).
    pub sample_rate: u32,
    /// The negotiated channel count (1 before any successful open).
    pub channels: u16,
    /// The samples accumulated since the last start.
    pub buffer: Seq<i16>,
    /// The samples accumulated for loudness reporting since the last take.
    pub level_buffer: Seq<i16>,
}

/// The capture engine's state machine: stream lifecycle, sample
/// accumulation under command control, and the loudness accumulation buffer.
///
/// The host delivers each converted hardware block through
/// `deliver_samples`, exactly as the stream callback hands blocks to the
/// worker loop.
pub struct AudioRecorder {
    opened: bool,
    recording: bool,
    sample_rate: u32,
    channels: u16,
    buffer: Vec<i16>,
    level_buffer: Vec<i16>,
}

impl View for AudioRecorder {
    type V = RecorderModel;

    closed spec fn view(&self) -> RecorderModel {
        RecorderModel {
            opened: self.opened,
            recording: self.recording,
            sample_rate: self.sample_rate,
            channels: self.channels,
            buffer: self.buffer@,
            level_buffer: self.level_buffer@,
        }
    }
}

/// The engine state after one interleaved hardware block has been delivered:
/// while open and recording, the block's mono mix is appended to both the
/// capture buffer and the loudness buffer; otherwise nothing changes.
pub open spec fn delivered(m: RecorderModel, block: Seq<i16>) -> RecorderModel {
    if m.opened && m.recording {
        RecorderModel {
            buffer: m.buffer + spec_mix_to_mono(block, m.channels as int),
            level_buffer: m.level_buffer + spec_mix_to_mono(block, m.channels as int),
            ..m
        }
    } else {
        m
    }
}

/// Validity of an engine state: a negotiated configuration is always at
/// least mono at a positive rate (`new` and `open` establish this and every
/// method preserves it).
pub open spec fn recorder_wf(m: RecorderModel) -> bool {
    m.channels >= 1 && m.sample_rate >= 1
}

impl AudioRecorder {
    /// A closed engine with the default 16 kHz mono configuration.
    pub fn new() -> (r: Result<Self, CaptureError>)
        ensures
            r matches Ok(rec) && rec@ == (RecorderModel {
                opened: false,
                recording: false,
                sample_rate: 16000u32,
                channels: 1u16,
                buffer: Seq::empty(),
                level_buffer: Seq::empty(),
            }),
    {
        let r = AudioRecorder {
            opened: false,
            recording: false,
            sample_rate: 16000,
            channels: 1,
            buffer: Vec::new(),
            level_buffer: Vec::new(),
        };
        Ok(r)
    }

    /// Open the engine with a negotiated configuration, or with the default
    /// 16 kHz mono configuration when none is given.  Idempotent: an already
    /// open engine is left untouched.
    ///
    /// Device selection, negotiation against the real device and the worker
    /// thread belong to the host; it reports its own failures (no device, a
    /// stream that cannot be built or started) before this state changes.
    pub fn open(&mut self, config: Option<NegotiatedConfig>) -> (r: Result<(), CaptureError>)
        requires
            recorder_wf(old(self)@),
            config matches Some(c) ==> c.channels >= 1 && c.sample_rate >= 1,
        ensures
            r is Ok,
            recorder_wf(final(self)@),
            old(self)@.opened ==> final(self)@ == old(self)@,
            !old(self)@.opened ==> final(self)@ == (RecorderModel {
                opened: true,
                recording: false,
                sample_rate: match config {
                    Some(c) => c.sample_rate,
                    None => 16000u32,
                },
                channels: match config {
                    Some(c) => c.channels,
                    None => 1u16,
                },
                ..old(self)@
            }),
    {
        if self.opened {
            return Ok(());
        }
        match config {
            Some(c) => {
                self.sample_rate = c.sample_rate;
                self.channels = c.channels;
            },
            None => {
                self.sample_rate = 16000;
                self.channels = 1;
            },
        }
        self.opened = true;
        self.recording = false;
        Ok(())
    }

    /// Start accumulating: clears both buffers and turns recording on.
    /// Fails with `NotOpen` if the engine was never opened.
    pub fn start(&mut self) -> (r: Result<(), CaptureError>)
        ensures
            !old(self)@.opened ==> (r matches Err(e) && e == CaptureError::NotOpen
                && final(self)@ == old(self)@),
            old(self)@.opened ==> r is Ok && final(self)@ == (RecorderModel {
                recording: true,
                buffer: Seq::empty(),
                level_buffer: Seq::empty(),
                ..old(self)@
            }),
    {
        if !self.opened {
            return Err(CaptureError::NotOpen);
        }
        self.buffer.clear();
        self.level_buffer.clear();
        self.recording = true;
        Ok(())
    }

    /// Stop accumulating and hand the captured samples over.  Fails with
    /// `NotOpen` if the engine was never opened.
    pub fn stop(&mut self) -> (r: Result<Vec<i16>, CaptureError>)
        ensures
            !old(self)@.opened ==> (r matches Err(e) && e == CaptureError::NotOpen
                && final(self)@ == old(self)@),
            old(self)@.opened ==> (r matches Ok(samples) && samples@ == old(self)@.buffer
                && final(self)@ == RecorderModel {
                recording: false,
                buffer: Seq::empty(),
                level_buffer: Seq::empty(),
                ..old(self)@
            }),
    {
        if !self.opened {
            return Err(CaptureError::NotOpen);
        }
        self.recording = false;
        let mut samples: Vec<i16> = Vec::new();
        core::mem::swap(&mut samples, &mut self.buffer);
        self.level_buffer.clear();
        Ok(samples)
    }

    /// Shut the engine down, discarding any buffered samples.  Idempotent and
    /// infallible; the negotiated configuration is remembered.
    pub fn close(&mut self) -> (r: Result<(), CaptureError>)
        ensures
            r is Ok,
            final(self)@ == (RecorderModel {
                opened: false,
                recording: false,
                buffer: Seq::empty(),
                level_buffer: Seq::empty(),
                ..old(self)@
            }),
    {
        self.opened = false;
        self.recording = false;
        self.buffer.clear();
        self.level_buffer.clear();
        Ok(())
    }

    /// The negotiated sample rate (16000 before any successful open).
    pub fn sample_rate(&self) -> (r: u32)
        ensures
            r == self@.sample_rate,
    {
        self.sample_rate
    }

    /// The informational capture state derived from the flags: `Recording`
    /// while accumulating, `Idle` otherwise.  (`Processing` is reserved for
    /// hosts that surface a distinct stopping phase.)
    pub fn state(&self) -> (r: RecorderState)
        ensures
            r == (if self@.opened && self@.recording {
                RecorderState::Recording
            } else {
                RecorderState::Idle
            }),
    {
        if self.opened && self.recording {
            RecorderState::Recording
        } else {
            RecorderState::Idle
        }
    }

    /// Deliver one interleaved hardware block, as the stream callback does:
    /// the block is mixed down to mono and, while recording, appended to both
    /// the capture buffer and the loudness buffer.  Ignored while not
    /// recording or not open.
    pub fn deliver_samples(&mut self, block: &Vec<i16>)
        requires
            recorder_wf(old(self)@),
        ensures
            final(self)@ == delivered(old(self)@, block@),
    {
        if self.opened && self.recording {
            let mono = mix_to_mono(block, self.channels);
            let mut k: usize = 0;
            while k < mono.len()
                invariant
                    k <= mono@.len(),

                    self.buffer@ == old(self)@.buffer + mono@.take(k as int),
                    self.level_buffer@ == old(self)@.level_buffer + mono@.take(k as int),
                    self.opened == old(self)@.opened,
                    self.recording == old(self)@.recording,
                    self.sample_rate == old(self)@.sample_rate,
                    self.channels == old(self)@.channels,
                    mono@ == spec_mix_to_mono(block@, old(self)@.channels as int),
                decreases mono@.len() - k,
            {
                proof {
                    assert(mono@.take(k + 1).drop_last() == mono@.take(k as int));
                    assert((old(self)@.buffer + mono@.take(k as int)).push(mono@[k as int])
                        =~= old(self)@.buffer + mono@.take(k + 1));
                    assert((old(self)@.level_buffer + mono@.take(k as int)).push(mono@[k as int])
                        =~= old(self)@.level_buffer + mono@.take(k + 1));
                }
                let s = mono[k];
                self.buffer.push(s);
                self.level_buffer.push(s);
                k = k + 1;
            }
            proof {
                assert(mono@.take(mono@.len() as int) == mono@);
            }
        }
    }

    /// Hand over and clear the loudness accumulation buffer.  The host
    /// computes the perceptual level from these samples and fires its level
    /// callback; the capture buffer is untouched.
    pub fn take_level_samples(&mut self) -> (r: Vec<i16>)
        ensures
            r@ == old(self)@.level_buffer,
            final(self)@ == (RecorderModel { level_buffer: Seq::empty(), ..old(self)@ }),
    {
        let mut samples: Vec<i16> = Vec::new();
        core::mem::swap(&mut samples, &mut self.level_buffer);
        samples
    }
}

} // verus!
