//! Where loop detection looks for a repetition of the opening of a recording.
//!
//! The first five seconds are the reference. Candidate windows of the same
//! length start ten seconds in and every quarter second after that, as long
//! as they fit in the recording.

use vstd::prelude::*;

verus! {

/// 16 kHz: ten seconds.
pub const MIN_LOOP: usize = 160_000;

/// 16 kHz: five seconds, the length of the compared windows.
pub const WINDOW: usize = 80_000;

/// 16 kHz: a quarter second between candidate windows.
pub const STEP: usize = 4_000;

/// Number of candidate windows in a recording of `len` samples.
pub open spec fn scan_count(len: nat) -> nat {
    if len < MIN_LOOP + WINDOW {
        0
    } else {
        ((len - MIN_LOOP - WINDOW) / (STEP as int) + 1) as nat
    }
}

/// Start of every candidate window, in the order they are compared; empty when
/// the recording is too short to hold a loop.
pub fn loop_scan_positions(len: usize) -> (r: Vec<usize>)
    ensures
        r.len() == scan_count(len as nat),
        forall|i: int| 0 <= i < r.len() ==> #[trigger] r[i] == MIN_LOOP + STEP * i,
        forall|i: int| 0 <= i < r.len() ==> #[trigger] r[i] + WINDOW <= len,
{
    let mut out: Vec<usize> = Vec::new();
    if len < MIN_LOOP + WINDOW {
        return out;
    }
    let last = len - WINDOW;
    let mut pos: usize = MIN_LOOP;
    while pos <= last
        invariant
            last == len - WINDOW,
            MIN_LOOP <= last,
            pos == MIN_LOOP + STEP * out.len(),
            pos <= last + STEP,
            forall|i: int| 0 <= i < out.len() ==> #[trigger] out[i] == MIN_LOOP + STEP * i,
            forall|i: int| 0 <= i < out.len() ==> #[trigger] out[i] <= last,
        decreases last + STEP - pos,
    {
        out.push(pos);
        pos = pos + STEP;
    }
    proof {
        let k = out.len() as int;
        let d = len - MIN_LOOP - WINDOW;
        assert(STEP * k <= d + STEP);
        assert(STEP * k > d);
        assert(k == d / (STEP as int) + 1) by (nonlinear_arith)
            requires
                STEP * k <= d + STEP,
                STEP * k > d,
                d >= 0,
                STEP == 4_000,
        ;
    }
    out
}


/// The candidates are every quarter-second start from ten seconds on whose
/// five-second window fits in the recording, and no other: one more step would
/// no longer fit.
pub proof fn lemma_scan_is_complete(len: nat)
    ensures
        scan_count(len) > 0 ==> MIN_LOOP + STEP * (scan_count(len) - 1) + WINDOW <= len,
        len >= MIN_LOOP + WINDOW ==> scan_count(len) > 0,
        MIN_LOOP + STEP * scan_count(len) + WINDOW > len,
{
    if len >= MIN_LOOP + WINDOW {
        let d = len - MIN_LOOP - WINDOW;
        let c = scan_count(len) as int;
        assert(c == d / 4000 + 1);
        assert(4000 * (d / 4000) <= d < 4000 * (d / 4000) + 4000);
    }
}

} // verus!
