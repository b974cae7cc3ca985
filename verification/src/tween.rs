//! The tween engine: one spline plus one timer per animated value, with
//! start, query-target, retarget and per-frame advance/sample operations.
//!
//! The retarget algorithm preserves continuity: the replacement spline
//! starts at the current elapsed time with the currently sampled value, so
//! the animated value never jumps when the end value is redirected.
//!
//! A tween's spline covers the time range `[0, duration]` in milliseconds,
//! so the timer's elapsed time is itself the query time: normalized
//! progress `elapsed / duration` and the sampled spline parameter always
//! agree, without ever forming the quotient.

use vstd::prelude::*;

verus! {

use crate::algebra::{TweenValue, ValueAlgebra};
use crate::spline::{key_wf, keys_wf, spec_sample, Interpolation, Key, Spline};
use crate::timer::{spec_tick, Timer};

/// A bounded-duration trajectory from a start to an end value. `None`
/// inside means idle: nothing is animating.
#[derive(Clone, Debug)]
pub struct Tween<T: Copy> {
    inner: Option<(Spline<TweenValue<T>>, Timer)>,
}

impl<T: Copy> View for Tween<T> {
    type V = Option<(Seq<Key<TweenValue<T>>>, Timer)>;

    closed spec fn view(&self) -> Option<(Seq<Key<TweenValue<T>>>, Timer)> {
        match self.inner {
            Some((s, tm)) => Some((s@, tm)),
            None => None,
        }
    }
}

/// The two-key spline a fresh tween runs on: the start value at time zero,
/// the end value at the full duration, blended linearly.
pub open spec fn run_keys<T: Copy>(start: T, end: T, duration: u64) -> Seq<Key<TweenValue<T>>> {
    seq![
        Key { t: 0, value: TweenValue(start), interpolation: Interpolation::Linear },
        Key { t: duration, value: TweenValue(end), interpolation: Interpolation::Linear },
    ]
}

/// The two-key spline a retarget replaces the current one with: the value
/// sampled at the current elapsed time stays in place, and the remaining
/// span heads linearly for the new target.
pub open spec fn retarget_keys<T: Copy>(
    keys: Seq<Key<TweenValue<T>>>,
    tm: Timer,
    target: T,
) -> Seq<Key<TweenValue<T>>>
    where TweenValue<T>: ValueAlgebra
{
    seq![
        Key {
            t: tm.elapsed,
            value: spec_sample(keys, tm.elapsed as int),
            interpolation: Interpolation::Linear,
        },
        Key { t: tm.duration, value: TweenValue(target), interpolation: Interpolation::Linear },
    ]
}

impl<T: Copy> Tween<T> where TweenValue<T>: ValueAlgebra {
    /// An active tween's spline is valid, its timer is consistent, and the
    /// spline's last key sits exactly at the timer's duration, so the end
    /// value is the value at full progress.
    pub open spec fn wf(&self) -> bool {
        match self@ {
            Some((keys, tm)) => {
                &&& keys_wf(keys)
                &&& tm.wf()
                &&& keys[keys.len() - 1].t == tm.duration
            },
            None => true,
        }
    }

    /// Starts animating from `start` to `end` over `duration` milliseconds,
    /// replacing whatever trajectory was in flight. Durations are unsigned,
    /// so a negative span cannot be expressed; a zero duration is the
    /// explicit degenerate tween that completes on its first advance.
    pub fn run(&mut self, start: T, end: T, duration: u64)
        requires
            (TweenValue(start)).wf(),
            (TweenValue(end)).wf(),
        ensures
            final(self)@ == Some(
                (run_keys(start, end, duration), Timer { duration, elapsed: 0, finished: duration == 0 }),
            ),
            final(self).wf(),
    {
        let mut keys: Vec<Key<TweenValue<T>>> = Vec::new();
        keys.push(Key::new(0, TweenValue(start), Interpolation::Linear));
        keys.push(Key::new(duration, TweenValue(end), Interpolation::Linear));
        proof {
            assert(keys@ =~= run_keys(start, end, duration));
        }
        let opt = Spline::from_vec(keys);
        if let Some(s) = opt {
            self.inner = Some((s, Timer::new(duration)));
        } else {
            proof {
                assert(false);
            }
        }
    }

    /// The value the tween is currently heading for: the value at full
    /// progress. `None` while idle.
    pub fn target(&self) -> (r: Option<T>)
        requires
            self.wf(),
        ensures
            self@ is None ==> r is None,
            self@ matches Some((keys, tm)) ==> r == Some(keys[keys.len() - 1].value.0),
    {
        match &self.inner {
            None => None,
            Some((spline, timer)) => Some(spline.clamped_sample(timer.duration).0),
        }
    }

    /// Redirects the tween toward `target` without a jump. A retarget to
    /// the value already targeted is a no-op; otherwise the spline is
    /// replaced by [`retarget_keys`] and the timer is left untouched, so
    /// the value sampled at the current elapsed time is unchanged and the
    /// remaining span of the original duration now heads for `target`.
    pub fn retarget(&mut self, target: T)
        requires
            old(self).wf(),
            (TweenValue(target)).wf(),
        ensures
            final(self).wf(),
            old(self)@ is None ==> final(self)@ is None,
            old(self)@ matches Some((keys, tm)) ==> {
                &&& (TweenValue(target) == keys[keys.len() - 1].value ==> final(self)@ == old(
                    self,
                )@)
                &&& (TweenValue(target) != keys[keys.len() - 1].value ==> final(self)@ == Some(
                    (retarget_keys(keys, tm, target), tm),
                ))
            },
    {
        match &self.inner {
            None => {},
            Some((spline, timer)) => {
                let end = spline.clamped_sample(timer.duration);
                if !TweenValue(target).eq_value(end) {
                    let tm = *timer;
                    let current = spline.clamped_sample(tm.elapsed);
                    let mut keys: Vec<Key<TweenValue<T>>> = Vec::new();
                    keys.push(Key::new(tm.elapsed, current, Interpolation::Linear));
                    keys.push(Key::new(tm.duration, TweenValue(target), Interpolation::Linear));
                    proof {
                        assert(keys@ =~= retarget_keys(old(self)@->Some_0.0, tm, target));
                    }
                    let opt = Spline::from_vec(keys);
                    if let Some(s) = opt {
                        self.inner = Some((s, tm));
                    } else {
                        proof {
                            assert(false);
                        }
                    }
                }
            },
        }
    }

    /// Ticks the timer by `delta` milliseconds, samples the spline at the
    /// new elapsed time, and returns the sampled value with the finished
    /// flag. `None` while idle. This is the one operation a per-frame host
    /// needs.
    pub fn advance_and_sample(&mut self, delta: u64) -> (r: Option<(T, bool)>)
        requires
            old(self).wf(),
        ensures
            final(self).wf(),
            old(self)@ is None ==> final(self)@ is None && r is None,
            old(self)@ matches Some((keys, tm)) ==> {
                let ntm = spec_tick(tm, delta as int);
                &&& final(self)@ == Some((keys, ntm))
                &&& r == Some((spec_sample(keys, ntm.elapsed as int).0, ntm.finished))
            },
    {
        match &mut self.inner {
            None => None,
            Some((spline, timer)) => {
                timer.tick(delta);
                let v = spline.clamped_sample(timer.elapsed);
                Some((v.0, timer.finished))
            },
        }
    }
}

impl<T: Copy> Tween<T> where TweenValue<T>: ValueAlgebra {
    /// A fresh tween already heading from `start` to `end` over `duration`
    /// milliseconds.
    pub fn tween_to(start: T, end: T, duration: u64) -> (r: Tween<T>)
        requires
            (TweenValue(start)).wf(),
            (TweenValue(end)).wf(),
        ensures
            r@ == Some(
                (run_keys(start, end, duration), (Timer {
                    duration,
                    elapsed: 0,
                    finished: duration == 0,
                })),
            ),
            r.wf(),
    {
        let mut t = Tween { inner: None };
        t.run(start, end, duration);
        t
    }
}

/// Law (endpoints): for every value type and positive duration, a tween
/// started from `a` to `b` samples to `a` at elapsed time zero and to `b`
/// at the full duration.
pub proof fn lemma_endpoints<T: Copy>(start: T, end: T, duration: u64) where
    TweenValue<T>: ValueAlgebra

    requires
        duration > 0,
    ensures
        spec_sample(run_keys(start, end, duration), 0) == TweenValue(start),
        spec_sample(run_keys(start, end, duration), duration as int) == TweenValue(end),
{
}

/// Law (continuity under retarget): as long as the tween has not reached
/// full progress, the replacement spline samples at the current elapsed
/// time to exactly the value the old spline sampled there — retargeting
/// never makes the animated value jump.
pub proof fn lemma_retarget_continuity<T: Copy>(
    keys: Seq<Key<TweenValue<T>>>,
    tm: Timer,
    target: T,
) where TweenValue<T>: ValueAlgebra
    requires
        tm.elapsed < tm.duration,
    ensures
        spec_sample(retarget_keys(keys, tm, target), tm.elapsed as int) == spec_sample(
            keys,
            tm.elapsed as int,
        ),
{
}

/// Law (retarget at full progress): a retarget issued once the timer has
/// run out degenerates to instantaneous completion at the new target: the
/// very next sample yields the new target value.
pub proof fn lemma_retarget_at_end<T: Copy>(
    keys: Seq<Key<TweenValue<T>>>,
    tm: Timer,
    target: T,
) where TweenValue<T>: ValueAlgebra
    requires
        tm.elapsed == tm.duration,
    ensures
        spec_sample(retarget_keys(keys, tm, target), tm.elapsed as int) == TweenValue(target),
{
}

/// Law (degenerate duration): a zero-length tween is finished by any
/// advance, however small, and samples to its end value.
pub proof fn lemma_degenerate_duration<T: Copy>(start: T, end: T, delta: u64) where
    TweenValue<T>: ValueAlgebra

    ensures
        ({
            let tm = spec_tick((Timer { duration: 0, elapsed: 0, finished: true }), delta as int);
            &&& tm.finished
            &&& spec_sample(run_keys(start, end, 0), tm.elapsed as int) == TweenValue(end)
        }),
{
}

impl<T: Copy> Default for Tween<T> {
    /// An idle tween: nothing is animating.
    fn default() -> (r: Self)
        ensures
            r@ is None,
    {
        Tween { inner: None }
    }
}

/// The per-frame host hook: if the tween is active, advance it by `delta`,
/// write the sampled value into the animated object, and remove the
/// trajectory (return to idle) once it reports finished.
pub fn tween_system<T: Copy>(tween: &mut Tween<T>, object: &mut T, delta: u64) where
    TweenValue<T>: ValueAlgebra

    requires
        old(tween).wf(),
    ensures
        final(tween).wf(),
        old(tween)@ is None ==> final(tween)@ is None && *final(object) == *old(object),
        old(tween)@ matches Some((keys, tm)) ==> {
            let ntm = spec_tick(tm, delta as int);
            &&& *final(object) == spec_sample(keys, ntm.elapsed as int).0
            &&& (ntm.finished ==> final(tween)@ is None)
            &&& (!ntm.finished ==> final(tween)@ == Some((keys, ntm)))
        },
{
    let stepped = tween.advance_and_sample(delta);
    match stepped {
        None => {},
        Some((value, finished)) => {
            *object = value;
            if finished {
                tween.inner = None;
            }
        },
    }
}

} // verus!

