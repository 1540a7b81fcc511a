//! Device capture decisions: which input device to open, which of its stream
//! formats to ask for, what each hardware callback forwards, and the lifecycle
//! of a capture handle. The hardware streams themselves live with the caller.
use vstd::prelude::*;
use crate::convert::{
    CANONICAL_RATE, downmix_spec, downmix_to_mono_i16, recenter, resample, resample_fits,
    resample_spec, u16_buffer_to_i16,
};

verus! {

/// Which sources a capture reads.
#[derive(Clone, Copy, Debug, PartialEq, Eq, Structural)]
pub enum CaptureMode {
    /// System audio and the microphone, two independent producers on one channel.
    Visio,
    /// The microphone alone.
    InPerson,
}

/// How a device encodes its samples.
#[derive(Clone, Copy, Debug, PartialEq, Eq, Structural)]
pub enum SampleEncoding {
    I16,
    U16,
    F32,
    /// Any encoding this engine does not convert.
    Other,
}

/// One range of stream formats that a device reports it supports.
#[derive(Clone, Copy, Debug, PartialEq, Eq, Structural)]
pub struct FormatRange {
    pub min_rate: u32,
    pub max_rate: u32,
    pub channels: u16,
    pub encoding: SampleEncoding,
}

/// The format a stream actually delivers.
#[derive(Clone, Copy, Debug, PartialEq, Eq, Structural)]
pub struct StreamFormat {
    pub sample_rate: u32,
    pub channels: u16,
    pub encoding: SampleEncoding,
}

/// Why a capture could not be opened or started.
#[derive(Clone, Copy, Debug, PartialEq, Eq, Structural)]
pub enum CaptureError {
    /// No input device exists at all.
    NotFound,
    /// System-audio capture is not available on this platform or with the
    /// current permissions.
    Unsupported,
    /// The device delivers an encoding or a channel count that cannot be converted.
    UnsupportedFormat,
    /// The handle was already started or stopped; a new one is needed.
    InvalidState,
}

/// The device that capture should open.
#[derive(Clone, Copy, Debug, PartialEq, Eq, Structural)]
pub enum DeviceChoice {
    /// The listed device at this index.
    Listed(usize),
    /// The system default input device.
    Default,
}

/// Whether some listed device carries the name `name`.
pub open spec fn has_device_named(names: Seq<String>, name: Seq<char>) -> bool {
    exists|i: int| 0 <= i < names.len() && #[trigger] names[i]@ == name
}

/// The device to open: the first listed device with the configured name, else
/// the system default, else none at all.
pub open spec fn device_choice(
    configured: Option<Seq<char>>,
    names: Seq<String>,
    has_default: bool,
) -> Result<DeviceChoice, CaptureError> {
    if configured is Some && has_device_named(names, configured->0) {
        let i = choose|i: int|
            0 <= i < names.len() && names[i]@ == configured->0 && forall|j: int|
                0 <= j < i ==> names[j]@ != configured->0;
        Ok(DeviceChoice::Listed(i as usize))
    } else if has_default {
        Ok(DeviceChoice::Default)
    } else {
        Err(CaptureError::NotFound)
    }
}

/// Resolve the input device: the configured name if a listed device carries
/// it, otherwise the system default.
pub fn resolve_input_device(configured: &Option<String>, names: &Vec<String>, has_default: bool) -> (r:
    Result<DeviceChoice, CaptureError>)
    ensures
        match r {
            Ok(DeviceChoice::Listed(i)) => configured is Some && i < names@.len()
                && names@[i as int]@ == configured->0@ && forall|j: int|
                0 <= j < i ==> names@[j]@ != configured->0@,
            Ok(DeviceChoice::Default) => has_default && !(configured is Some && has_device_named(
                names@,
                configured->0@,
            )),
            Err(e) => e == CaptureError::NotFound && !has_default && !(configured is Some
                && has_device_named(names@, configured->0@)),
        },
{
    if let Some(name) = configured {
        let mut i: usize = 0;
        while i < names.len()
            invariant
                configured is Some,
                configured->0 == *name,
                i <= names@.len(),
                forall|j: int| 0 <= j < i ==> names@[j]@ != name@,
            decreases names@.len() - i,
        {
            let same: bool = names[i].eq(name);
            if same {
                assert(names@[i as int]@ == name@);
                return Ok(DeviceChoice::Listed(i));
            }
            i = i + 1;
        }
    }
    if has_default {
        Ok(DeviceChoice::Default)
    } else {
        Err(CaptureError::NotFound)
    }
}

/// Whether a format range includes the canonical rate.
pub open spec fn covers_canonical(r: FormatRange) -> bool {
    r.min_rate <= CANONICAL_RATE && CANONICAL_RATE <= r.max_rate
}

/// Preference of a format range: a base for supporting the canonical rate, a
/// bonus for 16-bit integers (a smaller one for floats), a bonus for mono.
pub open spec fn score_spec(r: FormatRange) -> int {
    100 + (if r.encoding == SampleEncoding::I16 {
        20int
    } else if r.encoding == SampleEncoding::F32 {
        10int
    } else {
        0int
    }) + (if r.channels == 1 {
        10int
    } else {
        0int
    })
}

/// Index `k` holds the first of the best-scoring ranges that include the canonical rate.
pub open spec fn is_best_range(ranges: Seq<FormatRange>, k: int) -> bool {
    &&& 0 <= k < ranges.len()
    &&& covers_canonical(ranges[k])
    &&& forall|j: int|
        0 <= j < ranges.len() && covers_canonical(#[trigger] ranges[j]) ==> score_spec(ranges[j])
            <= score_spec(ranges[k])
    &&& forall|j: int|
        0 <= j < k && covers_canonical(#[trigger] ranges[j]) ==> score_spec(ranges[j]) < score_spec(
            ranges[k],
        )
}

fn format_score(r: &FormatRange) -> (s: u32)
    ensures
        s as int == score_spec(*r),
{
    let mut s: u32 = 100;
    match r.encoding {
        SampleEncoding::I16 => {
            s = s + 20;
        },
        SampleEncoding::F32 => {
            s = s + 10;
        },
        _ => {},
    }
    if r.channels == 1 {
        s = s + 10;
    }
    s
}

/// Choose among a device's format ranges the one to open at the canonical
/// rate; `None` when no range includes that rate (the device's default format
/// is then used and its rate resampled downstream).
pub fn select_input_config(ranges: &Vec<FormatRange>) -> (r: Option<usize>)
    ensures
        match r {
            Some(k) => is_best_range(ranges@, k as int),
            None => forall|j: int| 0 <= j < ranges@.len() ==> !covers_canonical(#[trigger] ranges@[j]),
        },
{
    let mut best: Option<usize> = None;
    let mut best_score: u32 = 0;
    let mut i: usize = 0;
    while i < ranges.len()
        invariant
            i <= ranges@.len(),
            match best {
                Some(k) => k < i && covers_canonical(ranges@[k as int]) && best_score == score_spec(
                    ranges@[k as int],
                ) && (forall|j: int|
                    0 <= j < i && covers_canonical(#[trigger] ranges@[j]) ==> score_spec(ranges@[j])
                        <= best_score) && (forall|j: int|
                    0 <= j < k && covers_canonical(#[trigger] ranges@[j]) ==> score_spec(ranges@[j])
                        < best_score),
                None => forall|j: int| 0 <= j < i ==> !covers_canonical(#[trigger] ranges@[j]),
            },
        decreases ranges@.len() - i,
    {
        let r = &ranges[i];
        if r.min_rate <= CANONICAL_RATE && r.max_rate >= CANONICAL_RATE {
            let s = format_score(r);
            if best.is_none() || s > best_score {
                best = Some(i);
                best_score = s;
            }
        }
        i = i + 1;
    }
    best
}

/// What a callback forwards for a buffer of signed samples: nothing while
/// capture is off, else the buffer downmixed to mono and resampled to the
/// canonical rate.
pub open spec fn forwarded_chunk(capturing: bool, data: Seq<i16>, channels: nat, device_rate: u32) -> Option<
    Seq<i16>,
> {
    if capturing {
        Some(resample_spec(downmix_spec(data, channels), device_rate, CANONICAL_RATE))
    } else {
        None
    }
}

/// The conversion pipeline run in a hardware callback on signed 16-bit data.
pub fn normalize_chunk(capturing: bool, data: &[i16], channels: usize, device_rate: u32) -> (r:
    Option<Vec<i16>>)
    requires
        resample_fits(downmix_spec(data@, channels as nat).len(), device_rate, CANONICAL_RATE),
    ensures
        r matches Some(v) ==> forwarded_chunk(capturing, data@, channels as nat, device_rate) == Some(
            v@,
        ),
        r is None <==> !capturing,
{
    if !capturing {
        return None;
    }
    let mono = downmix_to_mono_i16(data, channels);
    Some(resample(&mono, device_rate, CANONICAL_RATE))
}

/// The conversion pipeline run in a hardware callback on unsigned 16-bit data:
/// recentre, then as for signed data.
pub fn normalize_u16_chunk(capturing: bool, data: &[u16], channels: usize, device_rate: u32) -> (r:
    Option<Vec<i16>>)
    requires
        resample_fits(
            downmix_spec(data@.map_values(|u: u16| recenter(u)), channels as nat).len(),
            device_rate,
            CANONICAL_RATE,
        ),
    ensures
        r matches Some(v) ==> forwarded_chunk(
            capturing,
            data@.map_values(|u: u16| recenter(u)),
            channels as nat,
            device_rate,
        ) == Some(v@),
        r is None <==> !capturing,
{
    if !capturing {
        return None;
    }
    let signed = u16_buffer_to_i16(data);
    normalize_chunk(true, &signed, channels, device_rate)
}

/// Lifecycle of a capture handle; `Stopped` is terminal.
#[derive(Clone, Copy, Debug, PartialEq, Eq, Structural)]
pub enum CapturePhase {
    Unopened,
    Capturing,
    Stopped,
}

/// A capture handle: its mode and configured device, whether callbacks
/// forward data, and which hardware streams are open.
pub struct AudioCapturer {
    pub mode: CaptureMode,
    pub device_name: Option<String>,
    pub phase: CapturePhase,
    /// Read by every callback: data is forwarded only while this holds.
    pub capturing: bool,
    /// Rate of the chunks this handle emits.
    pub actual_sample_rate: u32,
    /// Rate the microphone stream was opened at.
    pub device_rate: u32,
    pub mic_open: bool,
    pub system_open: bool,
}

/// A handle after `stop`: capture off, no stream open, everything else kept.
pub open spec fn stopped(c: AudioCapturer) -> AudioCapturer {
    AudioCapturer {
        phase: CapturePhase::Stopped,
        capturing: false,
        mic_open: false,
        system_open: false,
        ..c
    }
}

/// Whether a format can be converted by the callback pipeline.
pub open spec fn convertible(f: StreamFormat) -> bool {
    f.encoding != SampleEncoding::Other && f.channels > 0
}

impl AudioCapturer {
    /// A handle that has not captured yet.
    pub fn new(mode: CaptureMode, device_name: Option<String>) -> (r: Self)
        ensures
            r.mode == mode,
            r.device_name == device_name,
            r.phase == CapturePhase::Unopened,
            !r.capturing,
            !r.mic_open,
            !r.system_open,
            r.actual_sample_rate == CANONICAL_RATE,
            r.device_rate == CANONICAL_RATE,
    {
        AudioCapturer {
            mode,
            device_name,
            phase: CapturePhase::Unopened,
            capturing: false,
            actual_sample_rate: CANONICAL_RATE,
            device_rate: CANONICAL_RATE,
            mic_open: false,
            system_open: false,
        }
    }

    /// Start capturing with the microphone opened at `mic`; in `Visio` mode the
    /// system-audio source must be available too. Returns the rate of the
    /// emitted chunks.
    pub fn start(&mut self, mic: StreamFormat, system_audio_available: bool) -> (r: Result<
        u32,
        CaptureError,
    >)
        ensures
            old(self).phase != CapturePhase::Unopened ==> r == Err::<u32, CaptureError>(
                CaptureError::InvalidState,
            ),
            old(self).phase == CapturePhase::Unopened && !convertible(mic) ==> r == Err::<
                u32,
                CaptureError,
            >(CaptureError::UnsupportedFormat),
            old(self).phase == CapturePhase::Unopened && convertible(mic) && old(self).mode
                == CaptureMode::Visio && !system_audio_available ==> r == Err::<u32, CaptureError>(
                CaptureError::Unsupported,
            ),
            r is Err ==> *final(self) == *old(self),
            r is Ok <==> (old(self).phase == CapturePhase::Unopened && convertible(mic) && (old(
                self,
            ).mode == CaptureMode::Visio ==> system_audio_available)),
            r is Ok ==> {
                &&& r == Ok::<u32, CaptureError>(CANONICAL_RATE)
                &&& final(self).phase == CapturePhase::Capturing
                &&& final(self).capturing
                &&& final(self).mic_open
                &&& final(self).system_open == (old(self).mode == CaptureMode::Visio)
                &&& final(self).device_rate == mic.sample_rate
                &&& final(self).actual_sample_rate == CANONICAL_RATE
                &&& final(self).mode == old(self).mode
                &&& final(self).device_name == old(self).device_name
            },
    {
        if self.phase != CapturePhase::Unopened {
            return Err(CaptureError::InvalidState);
        }
        match mic.encoding {
            SampleEncoding::Other => {
                return Err(CaptureError::UnsupportedFormat);
            },
            _ => {},
        }
        if mic.channels == 0 {
            return Err(CaptureError::UnsupportedFormat);
        }
        let visio = match self.mode {
            CaptureMode::Visio => true,
            CaptureMode::InPerson => false,
        };
        if visio && !system_audio_available {
            return Err(CaptureError::Unsupported);
        }
        self.phase = CapturePhase::Capturing;
        self.capturing = true;
        self.mic_open = true;
        self.system_open = visio;
        self.device_rate = mic.sample_rate;
        self.actual_sample_rate = CANONICAL_RATE;
        Ok(CANONICAL_RATE)
    }

    /// Stop capturing: callbacks stop forwarding first, then every open stream
    /// is released. Safe on a handle that never started and on one already stopped.
    pub fn stop(&mut self)
        ensures
            *final(self) == stopped(*old(self)),
    {
        self.capturing = false;
        self.system_open = false;
        self.mic_open = false;
        self.phase = CapturePhase::Stopped;
    }

    /// Whether callbacks currently forward data.
    pub fn is_capturing(&self) -> (r: bool)
        ensures
            r == self.capturing,
    {
        self.capturing
    }
}

/// Stopping a handle twice leaves it as stopping it once did.
pub proof fn stop_is_idempotent(c: AudioCapturer)
    ensures
        stopped(stopped(c)) == stopped(c),
        !stopped(c).capturing,
        !stopped(c).mic_open && !stopped(c).system_open,
{
}

/// An input device as offered to the user.
#[derive(Clone, Debug)]
pub struct AudioDevice {
    pub name: String,
    pub is_default: bool,
}

/// Describe the listed input devices, marking the one whose name is the
/// default device's name.
pub fn describe_devices(names: &Vec<String>, default_name: &Option<String>) -> (r: Vec<AudioDevice>)
    ensures
        r@.len() == names@.len(),
        forall|i: int|
            0 <= i < names@.len() ==> #[trigger] r@[i].name == names@[i] && r@[i].is_default == (
            default_name is Some && default_name->0@ == names@[i]@),
{
    let mut out: Vec<AudioDevice> = Vec::new();
    let mut i: usize = 0;
    while i < names.len()
        invariant
            i <= names@.len(),
            out@.len() == i,
            forall|k: int|
                0 <= k < i ==> (#[trigger] out@[k]).name == names@[k] && out@[k].is_default == (
                default_name is Some && default_name->0@ == names@[k]@),
        decreases names@.len() - i,
    {
        let is_default: bool = match default_name {
            Some(d) => {
                let same: bool = d.eq(&names[i]);
                same
            },
            None => false,
        };
        let name: String = names[i].clone();
        out.push(AudioDevice { name, is_default });
        i = i + 1;
    }
    out
}

} // verus!
