//! Elapsed-versus-duration progress tracking, advanced externally once per
//! frame. All spans are in milliseconds.

use vstd::prelude::*;

verus! {

/// Tracks how far a tween has advanced. `finished` holds exactly when the
/// elapsed span has reached the duration; a zero-length timer is finished
/// from the start.
#[derive(Clone, Copy, PartialEq, Eq, Structural, Debug)]
pub struct Timer {
    /// Total span of the animation in milliseconds.
    pub duration: u64,
    /// Non-negative span consumed so far, never past `duration`.
    pub elapsed: u64,
    pub finished: bool,
}

impl Timer {
    /// The timer's invariant: elapsed time never passes the duration, and
    /// the finished flag mirrors `elapsed >= duration`.
    pub open spec fn wf(self) -> bool {
        &&& self.elapsed <= self.duration
        &&& self.finished <==> self.elapsed >= self.duration
    }

    /// A fresh timer with nothing elapsed.
    pub fn new(duration: u64) -> (t: Timer)
        ensures
            t == (Timer { duration, elapsed: 0, finished: duration == 0 }),
            t.wf(),
    {
        Timer { duration, elapsed: 0, finished: duration == 0 }
    }

    /// Advances the timer by `delta`, saturating at the duration, and
    /// recomputes the finished flag.
    pub fn tick(&mut self, delta: u64)
        requires
            old(self).wf(),
        ensures
            *final(self) == spec_tick(*old(self), delta as int),
            final(self).wf(),
    {
        let remaining = self.duration - self.elapsed;
        if delta >= remaining {
            self.elapsed = self.duration;
            self.finished = true;
        } else {
            self.elapsed = self.elapsed + delta;
            self.finished = false;
        }
    }

    /// Normalized progress as the exact fraction `numerator / denominator`
    /// in `[0, 1]`; a zero-length timer reports full progress.
    pub fn progress(&self) -> (r: (u64, u64))
        requires
            self.wf(),
        ensures
            r == spec_progress(*self),
            r.0 <= r.1,
            0 < r.1,
    {
        if self.duration == 0 {
            (1, 1)
        } else {
            (self.elapsed, self.duration)
        }
    }
}

/// What one `tick` by `delta` does: elapsed time grows by `delta` but
/// saturates at the duration, and `finished` reports whether the duration
/// was reached.
pub open spec fn spec_tick(t: Timer, delta: int) -> Timer {
    Timer {
        duration: t.duration,
        elapsed: if t.elapsed + delta >= t.duration {
            t.duration
        } else {
            (t.elapsed + delta) as u64
        },
        finished: t.elapsed + delta >= t.duration,
    }
}

/// Normalized progress as a fraction, `1 / 1` for a zero-length timer.
pub open spec fn spec_progress(t: Timer) -> (u64, u64) {
    if t.duration == 0 {
        (1u64, 1u64)
    } else {
        (t.elapsed, t.duration)
    }
}

/// The timer after a whole sequence of ticks.
pub open spec fn spec_tick_all(t: Timer, deltas: Seq<u64>) -> Timer
    decreases deltas.len(),
{
    if deltas.len() == 0 {
        t
    } else {
        spec_tick_all(spec_tick(t, deltas[0] as int), deltas.drop_first())
    }
}

/// The total of a sequence of frame deltas.
pub open spec fn sum_deltas(deltas: Seq<u64>) -> int
    decreases deltas.len(),
{
    if deltas.len() == 0 {
        0
    } else {
        deltas[0] + sum_deltas(deltas.drop_first())
    }
}

/// A total of unsigned deltas is never negative.
pub proof fn lemma_sum_deltas_nonneg(deltas: Seq<u64>)
    ensures
        sum_deltas(deltas) >= 0,
    decreases deltas.len(),
{
    if deltas.len() > 0 {
        lemma_sum_deltas_nonneg(deltas.drop_first());
    }
}

/// Law: ticking a well-formed timer through any sequence of non-negative
/// frame deltas drives elapsed time to the running total, saturated at the
/// duration, and the timer reports finished exactly when the cumulative
/// elapsed time has reached the duration — never before.
pub proof fn lemma_monotonic_completion(t: Timer, deltas: Seq<u64>)
    requires
        t.wf(),
    ensures
        spec_tick_all(t, deltas).duration == t.duration,
        spec_tick_all(t, deltas).elapsed == if t.elapsed + sum_deltas(deltas) >= t.duration {
            t.duration as int
        } else {
            t.elapsed + sum_deltas(deltas)
        },
        spec_tick_all(t, deltas).finished <==> t.elapsed + sum_deltas(deltas) >= t.duration,
        spec_tick_all(t, deltas).elapsed >= t.elapsed,
        spec_tick_all(t, deltas).wf(),
    decreases deltas.len(),
{
    lemma_sum_deltas_nonneg(deltas);
    if deltas.len() == 0 {
    } else {
        let t1 = spec_tick(t, deltas[0] as int);
        assert(t1.wf());
        lemma_sum_deltas_nonneg(deltas.drop_first());
        lemma_monotonic_completion(t1, deltas.drop_first());
    }
}

} // verus!
