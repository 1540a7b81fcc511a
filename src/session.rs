//! The single active recording: starting and stopping it, accumulating its
//! audio, metering loudness, and the decisions of the audio polling loop.
use vstd::prelude::*;
use crate::capture::{AudioCapturer, stopped};

verus! {

/// Why a start or stop request was refused. None of these touch hardware or network.
#[derive(Clone, Copy, Debug, PartialEq, Eq, Structural)]
pub enum OrchestrationError {
    /// A recording is already active; a second one is rejected, not queued.
    AlreadyActive,
    /// There is no recording to stop.
    NoActiveRecording,
    /// The id does not name the active recording, which is left untouched.
    IdMismatch,
}

/// The recording in progress.
pub struct ActiveSession {
    pub id: String,
    pub capturer: AudioCapturer,
    /// Every sample seen so far, in order; only ever appended to.
    pub audio_samples: Vec<i16>,
    pub sample_rate: u32,
}

/// What a successful stop hands back for storage.
pub struct StopResult {
    pub samples: Vec<i16>,
    pub sample_rate: u32,
    /// The capture handle, stopped.
    pub capturer: AudioCapturer,
}

/// The slot that holds at most one active recording.
pub struct Recorder {
    pub active: Option<ActiveSession>,
}

/// How a stop request with `id` goes.
#[derive(Clone, Copy, Debug, PartialEq, Eq, Structural)]
pub enum StopKind {
    NoActive,
    Mismatch,
    Stopped,
}

/// How a stop request with `id` goes in this slot.
pub open spec fn stop_kind(r: Recorder, id: Seq<char>) -> StopKind {
    match r.active {
        None => StopKind::NoActive,
        Some(s) => if s.id@ == id {
            StopKind::Stopped
        } else {
            StopKind::Mismatch
        },
    }
}

/// The slot after a stop request with `id`: emptied on success, else unchanged.
pub open spec fn after_stop(r: Recorder, id: Seq<char>) -> Recorder {
    if stop_kind(r, id) == StopKind::Stopped {
        Recorder { active: None }
    } else {
        r
    }
}

/// Whether a new recording may start.
pub open spec fn start_allowed(r: Recorder) -> bool {
    r.active is None
}

impl Recorder {
    /// An empty slot.
    pub fn new() -> (r: Self)
        ensures
            r.active is None,
    {
        Recorder { active: None }
    }

    /// Whether a recording is active.
    pub fn is_active(&self) -> (r: bool)
        ensures
            r == self.active is Some,
    {
        self.active.is_some()
    }

    /// Whether the active recording carries this id.
    pub fn is_active_id(&self, id: &str) -> (r: bool)
        ensures
            r == (self.active is Some && self.active->0.id@ == id@),
    {
        match &self.active {
            Some(s) => {
                let t = String::from_str(id);
                s.id.eq(&t)
            },
            None => false,
        }
    }

    /// Install a new recording with an empty accumulation buffer, unless one
    /// is already active.
    pub fn start_recording(&mut self, id: String, capturer: AudioCapturer, sample_rate: u32) -> (r:
        Result<(), OrchestrationError>)
        ensures
            r is Ok <==> start_allowed(*old(self)),
            r is Err ==> r == Err::<(), OrchestrationError>(OrchestrationError::AlreadyActive)
                && *final(self) == *old(self),
            r is Ok ==> {
                &&& final(self).active is Some
                &&& final(self).active->0.id == id
                &&& final(self).active->0.capturer == capturer
                &&& final(self).active->0.audio_samples@.len() == 0
                &&& final(self).active->0.sample_rate == sample_rate
            },
    {
        if self.active.is_some() {
            return Err(OrchestrationError::AlreadyActive);
        }
        self.active = Some(ActiveSession { id, capturer, audio_samples: Vec::new(), sample_rate });
        Ok(())
    }

    /// Append a chunk to the active recording's buffer and return its
    /// loudness; nothing happens for an empty chunk or with no recording.
    pub fn record_chunk(&mut self, chunk: &[i16]) -> (r: Option<u32>)
        ensures
            r is Some <==> (old(self).active is Some && chunk@.len() > 0),
            r matches Some(l) ==> l == level_spec(chunk@),
            r is None ==> *final(self) == *old(self),
            r is Some ==> {
                &&& final(self).active is Some
                &&& final(self).active->0.id == old(self).active->0.id
                &&& final(self).active->0.capturer == old(self).active->0.capturer
                &&& final(self).active->0.sample_rate == old(self).active->0.sample_rate
                &&& final(self).active->0.audio_samples@ == old(self).active->0.audio_samples@
                    + chunk@
            },
    {
        if chunk.len() == 0 {
            return None;
        }
        if self.active.is_none() {
            return None;
        }
        let mut s = self.active.take().unwrap();
        let ghost orig = s;
        let ghost before = s.audio_samples@;
        let mut i: usize = 0;
        while i < chunk.len()
            invariant
                i <= chunk@.len(),
                s.id == orig.id,
                s.capturer == orig.capturer,
                s.sample_rate == orig.sample_rate,
                s.audio_samples@ == before + chunk@.subrange(0, i as int),
            decreases chunk@.len() - i,
        {
            s.audio_samples.push(chunk[i]);
            proof {
                assert(chunk@.subrange(0, i + 1) =~= chunk@.subrange(0, i as int).push(
                    chunk@[i as int],
                ));
            }
            i = i + 1;
        }
        assert(chunk@.subrange(0, chunk@.len() as int) =~= chunk@);
        self.active = Some(s);
        Some(audio_level(chunk))
    }

    /// Stop the recording with this id: its capture is stopped, and its
    /// buffer and rate are handed back while the slot is cleared.
    pub fn stop_recording(&mut self, id: &str) -> (r: Result<StopResult, OrchestrationError>)
        ensures
            *final(self) == after_stop(*old(self), id@),
            stop_kind(*old(self), id@) == StopKind::NoActive ==> r == Err::<
                StopResult,
                OrchestrationError,
            >(OrchestrationError::NoActiveRecording),
            stop_kind(*old(self), id@) == StopKind::Mismatch ==> r == Err::<
                StopResult,
                OrchestrationError,
            >(OrchestrationError::IdMismatch),
            stop_kind(*old(self), id@) == StopKind::Stopped ==> {
                &&& r is Ok
                &&& r->Ok_0.samples == old(self).active->0.audio_samples
                &&& r->Ok_0.sample_rate == old(self).active->0.sample_rate
                &&& r->Ok_0.capturer == stopped(old(self).active->0.capturer)
            },
    {
        if self.active.is_none() {
            return Err(OrchestrationError::NoActiveRecording);
        }
        if !self.is_active_id(id) {
            return Err(OrchestrationError::IdMismatch);
        }
        let s = self.active.take().unwrap();
        let mut capturer = s.capturer;
        capturer.stop();
        Ok(StopResult { samples: s.audio_samples, sample_rate: s.sample_rate, capturer })
    }
}

/// While a recording is active, a second start is rejected.
pub proof fn start_rejected_while_active(r: Recorder)
    requires
        r.active is Some,
    ensures
        !start_allowed(r),
{
}

/// A stop with the wrong id leaves the recording in place, and a stop with
/// its own id then succeeds.
pub proof fn mismatched_stop_keeps_recording(r: Recorder, wrong: Seq<char>)
    requires
        r.active is Some,
        r.active->0.id@ != wrong,
    ensures
        stop_kind(r, wrong) == StopKind::Mismatch,
        after_stop(r, wrong) == r,
        stop_kind(after_stop(r, wrong), r.active->0.id@) == StopKind::Stopped,
{
}

/// After a successful stop, a new recording may start.
pub proof fn start_allowed_after_stop(r: Recorder, id: Seq<char>)
    requires
        stop_kind(r, id) == StopKind::Stopped,
    ensures
        start_allowed(after_stop(r, id)),
{
}

/// Sum of the squares of the samples.
pub open spec fn sum_squares(s: Seq<i16>) -> int
    decreases s.len(),
{
    if s.len() == 0 {
        0
    } else {
        sum_squares(s.drop_last()) + s.last() as int * s.last() as int
    }
}

/// Level `l` (in percent of full scale) is at most the RMS of the chunk:
/// `l / 100 <= rms / 32767`, squared and cleared of the division.
pub open spec fn level_reached(s: Seq<i16>, l: int) -> bool {
    l * l * (32767 * 32767) * s.len() <= 10000 * sum_squares(s)
}

/// The highest level from `l` upward, one step at a time, that the chunk reaches (at most 100).
pub open spec fn level_from(s: Seq<i16>, l: int) -> int
    decreases 100 - l,
{
    if l >= 100 {
        100
    } else if level_reached(s, l + 1) {
        level_from(s, l + 1)
    } else {
        l
    }
}

/// The loudness of a chunk: its RMS as a whole percentage of full scale,
/// truncated and capped at 100; silence for an empty chunk.
pub open spec fn level_spec(s: Seq<i16>) -> u32 {
    if s.len() == 0 {
        0
    } else {
        level_from(s, 0) as u32
    }
}

proof fn lemma_sum_squares_bound(s: Seq<i16>)
    ensures
        0 <= sum_squares(s) <= 0x4000_0000 * s.len(),
    decreases s.len(),
{
    if s.len() > 0 {
        lemma_sum_squares_bound(s.drop_last());
        let x = s.last() as int;
        assert(0 <= x * x <= 0x4000_0000) by (nonlinear_arith)
            requires -32768 <= x <= 32767;
    }
}

/// Loudness of a chunk for metering.
pub fn audio_level(chunk: &[i16]) -> (r: u32)
    ensures
        r == level_spec(chunk@),
        r <= 100,
{
    let n: usize = chunk.len();
    if n == 0 {
        return 0;
    }
    let mut sq: u128 = 0;
    let mut i: usize = 0;
    while i < n
        invariant
            n == chunk@.len(),
            i <= n,
            sq == sum_squares(chunk@.subrange(0, i as int)),
            sq <= 0x4000_0000 * i,
        decreases n - i,
    {
        let x: i64 = chunk[i] as i64;
        proof {
            assert(chunk@.subrange(0, i + 1).drop_last() =~= chunk@.subrange(0, i as int));
            assert(0 <= x * x <= 0x4000_0000) by (nonlinear_arith)
                requires -32768 <= x <= 32767;
        }
        sq = sq + (x * x) as u128;
        i = i + 1;
    }
    assert(chunk@.subrange(0, n as int) =~= chunk@);
    let mut l: u32 = 0;
    while l < 100
        invariant
            n == chunk@.len(),
            n > 0,
            sq == sum_squares(chunk@),
            sq <= 0x4000_0000 * n,
            l <= 100,
            level_from(chunk@, 0) == level_from(chunk@, l as int),
        decreases 100 - l,
    {
        let next: u128 = (l + 1) as u128;
        proof {
            assert(next * next <= 10201) by (nonlinear_arith)
                requires next <= 101;
            assert(10000 * sq <= 10000 * 0x4000_0000 * 0xffff_ffff_ffff_ffffu64) by (nonlinear_arith)
                requires sq <= 0x4000_0000 * n, n <= 0xffff_ffff_ffff_ffffu64;
        }
        let squared: u128 = next * next;
        let scaled: u128 = squared * 1073676289;
        proof {
            assert(scaled * n <= 10201 * 1073676289 * 0xffff_ffff_ffff_ffffu64) by (nonlinear_arith)
                requires scaled == squared * 1073676289, squared == next * next, next <= 101,
                    n <= 0xffff_ffff_ffff_ffffu64;
        }
        if scaled * (n as u128) <= 10000 * sq {
            l = l + 1;
        } else {
            return l;
        }
    }
    l
}

/// What the audio polling loop found on the capture channel.
#[derive(Clone, Copy, Debug, PartialEq, Eq, Structural)]
pub enum Received {
    /// A chunk with this many samples.
    Chunk(usize),
    /// Nothing yet.
    Empty,
    /// Every producer is gone.
    Disconnected,
}

/// What the audio polling loop does next.
#[derive(Clone, Copy, Debug, PartialEq, Eq, Structural)]
pub enum LoopAction {
    /// Accumulate and forward the chunk.
    Forward,
    /// Drop an empty chunk and poll again.
    Skip,
    /// Sleep briefly before polling again, rather than spin.
    Idle,
    /// Leave the loop and signal the end of audio.
    Finish,
}

/// The polling loop's decision: the stop signal wins, then a disconnected
/// channel ends the loop, an empty poll idles, and a non-empty chunk is forwarded.
pub fn next_loop_action(stop_requested: bool, received: Received) -> (r: LoopAction)
    ensures
        r == (if stop_requested {
            LoopAction::Finish
        } else {
            match received {
                Received::Chunk(n) => if n > 0 {
                    LoopAction::Forward
                } else {
                    LoopAction::Skip
                },
                Received::Empty => LoopAction::Idle,
                Received::Disconnected => LoopAction::Finish,
            }
        }),
{
    if stop_requested {
        return LoopAction::Finish;
    }
    match received {
        Received::Chunk(n) => if n > 0 {
            LoopAction::Forward
        } else {
            LoopAction::Skip
        },
        Received::Empty => LoopAction::Idle,
        Received::Disconnected => LoopAction::Finish,
    }
}

} // verus!
