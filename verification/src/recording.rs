//! Work done on the recorded buffer: the periodic tick while recording (level
//! meter and interim transcript) and the final pass when recording stops.

use vstd::prelude::*;
use vstd::string::StringExecFns;

verus! {

/// How often an interim transcript is made while recording.
pub const INTERIM_INTERVAL_MS: u128 = 900;

/// Whisper runs only on at least half a second of 16 kHz audio.
pub const MIN_SAMPLES_16K: usize = 8_000;

/// What a tick does with the buffer.
#[derive(Clone, Copy, Debug, PartialEq, Eq)]
pub struct TickPlan {
    /// The level meter shows the loudness of the buffer from here to its end.
    pub level_start: usize,
    /// The interim clock ran out: restart it.
    pub interim_due: bool,
    /// Make an interim transcript now.
    pub run_interim: bool,
}

/// Samples in the level meter's window: a tenth of a second at `rate`, at least one.
pub open spec fn level_window(rate: u32) -> int {
    if rate / 10 >= 1 {
        (rate / 10) as int
    } else {
        1
    }
}

/// Plans a tick over a buffer of `buffered` samples recorded at `rate`, when
/// `elapsed_ms` passed since the last interim transcript.
pub fn plan_tick(buffered: usize, rate: u32, elapsed_ms: u128, model_loaded: bool) -> (r: TickPlan)
    ensures
        r.level_start == (if buffered >= level_window(rate) {
            buffered - level_window(rate)
        } else {
            0
        }),
        r.interim_due == (elapsed_ms >= INTERIM_INTERVAL_MS),
        r.run_interim == (r.interim_due && model_loaded),
{
    let tenth = rate / 10;
    let window: usize = if tenth >= 1 {
        tenth as usize
    } else {
        1
    };
    let level_start = if buffered >= window {
        buffered - window
    } else {
        0
    };
    let interim_due = elapsed_ms >= INTERIM_INTERVAL_MS;
    TickPlan { level_start, interim_due, run_interim: interim_due && model_loaded }
}

/// Whether a resampled buffer of `len` samples is long enough for whisper.
pub fn long_enough(len: usize) -> (r: bool)
    ensures
        r == (len >= MIN_SAMPLES_16K),
{
    len >= MIN_SAMPLES_16K
}

/// The interim text the UI is shown: a successful, non-empty transcript.
/// Failed interim runs are not reported.
pub fn interim_text(result: Result<String, String>) -> (r: Option<String>)
    ensures
        result matches Ok(t) ==> ((t@.len() > 0 ==> r == Some(t)) && (t@.len() == 0 ==> r is None)),
        result is Err ==> r is None,
{
    match result {
        Ok(t) => if t.as_str().is_empty() {
            None
        } else {
            Some(t)
        },
        Err(_) => None,
    }
}

/// What the final pass tells the UI.
#[derive(Debug)]
pub enum FinalReport {
    /// The transcript of the recording.
    Transcript(String),
    /// Why there is none.
    Error(String),
}

/// The next step of the final pass.
#[derive(Debug)]
pub enum FinalStep {
    /// Resample the recorded buffer to 16 kHz and report its length.
    Resample,
    /// Run whisper on the resampled buffer and report the outcome.
    Transcribe,
    /// Tell the UI, and the pass is over.
    Report(FinalReport),
}

/// First step of the final pass: without a loaded model there is nothing to do
/// but say so.
pub fn final_start(model_loaded: bool) -> (r: FinalStep)
    ensures
        model_loaded ==> r is Resample,
        !model_loaded ==> (r matches FinalStep::Report(FinalReport::Error(e)) && e@ == "model not loaded"@),
{
    if model_loaded {
        FinalStep::Resample
    } else {
        FinalStep::Report(FinalReport::Error("model not loaded".to_owned()))
    }
}

/// After resampling to `len` samples: too short a recording gives an empty
/// transcript without running whisper.
pub fn final_resampled(len: usize) -> (r: FinalStep)
    ensures
        len >= MIN_SAMPLES_16K ==> r is Transcribe,
        len < MIN_SAMPLES_16K ==> (r matches FinalStep::Report(FinalReport::Transcript(t)) && t@.len() == 0),
{
    if len < MIN_SAMPLES_16K {
        FinalStep::Report(FinalReport::Transcript(String::new()))
    } else {
        FinalStep::Transcribe
    }
}

/// After whisper ran: its transcript, or its error, goes to the UI.
pub fn final_transcribed(result: Result<String, String>) -> (r: FinalStep)
    ensures
        result matches Ok(t) ==> r == FinalStep::Report(FinalReport::Transcript(t)),
        result matches Err(e) ==> r == FinalStep::Report(FinalReport::Error(e)),
{
    match result {
        Ok(t) => FinalStep::Report(FinalReport::Transcript(t)),
        Err(e) => FinalStep::Report(FinalReport::Error(e)),
    }
}

} // verus!
