//! The interpolation engine: a tweened value chases a discrete target over a
//! fixed duration, so that per-tick cell jumps render as smooth pixel
//! motion. The interpolated value is kept in integer units (pixels), sampled
//! against a millisecond clock; it approaches the target monotonically,
//! never passes it, and snaps to it exactly once the duration has elapsed.

use vstd::prelude::*;

verus! {

use vstd::arithmetic::div_mod::lemma_div_by_multiple;
use vstd::arithmetic::div_mod::lemma_div_is_ordered;
use vstd::arithmetic::div_mod::lemma_div_pos_is_pos;
use vstd::arithmetic::mul::lemma_mul_inequality;

/// Magnitude bound on tweened values and on durations, chosen so that every
/// intermediate product of the interpolation fits the machine's integers.
/// Pixel offsets and tick lengths sit far below it.
pub const TWEEN_LIMIT: i64 = 0x8000_0000;

/// `b` lies on the closed segment from `a` to `c`.
pub open spec fn toward(a: int, b: int, c: int) -> bool {
    (a <= b <= c) || (c <= b <= a)
}

/// The signed share of `diff` earned after `elapsed` of `dur` time units:
/// `diff * elapsed / dur`, rounded toward zero.
pub open spec fn frac_delta(diff: int, elapsed: int, dur: int) -> int
    recommends
        0 <= elapsed <= dur,
        1 <= dur,
{
    if diff >= 0 {
        diff * elapsed / dur
    } else {
        -((-diff) * elapsed / dur)
    }
}

/// One tweened scalar. While `active`, `current` is the linear
/// interpolation from `start_value` (the value when the tween began) toward
/// `target`, over the clock interval `start_ms ..= end_ms`; once the
/// interval has been sampled past its end the tween deactivates with
/// `current == target`.
pub struct Tween {
    pub current: i64,
    pub target: i64,
    pub start_value: i64,
    pub start_ms: u64,
    pub end_ms: u64,
    pub active: bool,
}

impl Tween {
    /// Well-formedness: values stay within `TWEEN_LIMIT`; an active tween has
    /// a positive, bounded duration and a `current` on the way from
    /// `start_value` to `target`; an inactive tween has arrived.
    pub open spec fn wf(self) -> bool {
        &&& -TWEEN_LIMIT <= self.current <= TWEEN_LIMIT
        &&& -TWEEN_LIMIT <= self.target <= TWEEN_LIMIT
        &&& -TWEEN_LIMIT <= self.start_value <= TWEEN_LIMIT
        &&& self.active ==> self.start_ms < self.end_ms && self.end_ms - self.start_ms
            <= TWEEN_LIMIT
        &&& self.active ==> toward(self.start_value as int, self.current as int, self.target as int)
        &&& !self.active ==> self.current == self.target
    }

    /// A fresh tween rests at the observed value.
    pub fn new(initial: i64) -> (t: Tween)
        requires
            -TWEEN_LIMIT <= initial <= TWEEN_LIMIT,
        ensures
            t.wf(),
            t.current == initial,
            t.target == initial,
            !t.active,
    {
        Tween {
            current: initial,
            target: initial,
            start_value: initial,
            start_ms: 0,
            end_ms: 0,
            active: false,
        }
    }

    /// Observe a new target value at clock time `now_ms`. A changed value
    /// restarts the tween from the present `current` over `duration_ms`,
    /// superseding any tween in flight; an unchanged value starts no
    /// animation.
    pub fn retarget(&mut self, value: i64, now_ms: u64, duration_ms: u64)
        requires
            old(self).wf(),
            -TWEEN_LIMIT <= value <= TWEEN_LIMIT,
            1 <= duration_ms <= TWEEN_LIMIT,
            now_ms + duration_ms <= u64::MAX,
        ensures
            final(self).wf(),
            final(self).current == old(self).current,
            final(self).target == value,
            value == old(self).current ==> !final(self).active,
            value != old(self).current ==> final(self).active && final(self).start_value == old(
                self,
            ).current && final(self).start_ms == now_ms && final(self).end_ms == now_ms
                + duration_ms,
    {
        if value == self.current {
            self.target = value;
            self.active = false;
        } else {
            self.start_value = self.current;
            self.target = value;
            self.start_ms = now_ms;
            self.end_ms = now_ms + duration_ms;
            self.active = true;
        }
    }

    /// The interpolated value of `tw` at clock time `now`: `start_value`
    /// before the interval, the earned share of the difference within it,
    /// the target from the interval's end on. An inactive tween reads as its
    /// resting value.
    pub open spec fn value_at(self, now: u64) -> int {
        if !self.active {
            self.current as int
        } else if now <= self.start_ms {
            self.start_value as int
        } else if now > self.end_ms {
            self.target as int
        } else {
            self.start_value + frac_delta(
                self.target - self.start_value,
                now - self.start_ms,
                self.end_ms - self.start_ms,
            )
        }
    }

    /// Advance `current` to the interpolated value at clock time `now_ms`.
    /// Sampling past the end of the interval snaps `current` to the target
    /// exactly and cancels the tween.
    pub fn sample(&mut self, now_ms: u64)
        requires
            old(self).wf(),
        ensures
            final(self).wf(),
            final(self).target == old(self).target,
            final(self).start_value == old(self).start_value,
            final(self).start_ms == old(self).start_ms,
            final(self).end_ms == old(self).end_ms,
            final(self).current == old(self).value_at(now_ms),
            final(self).active == (old(self).active && now_ms <= old(self).end_ms),
            now_ms > old(self).end_ms ==> final(self).current == old(self).target,
    {
        if !self.active {
            return ;
        }
        if now_ms > self.end_ms {
            self.current = self.target;
            self.active = false;
            return ;
        }
        if now_ms <= self.start_ms {
            self.current = self.start_value;
            return ;
        }
        let elapsed: u64 = now_ms - self.start_ms;
        let dur: u64 = self.end_ms - self.start_ms;
        proof {
            lemma_frac_delta_bounds(
                self.target - self.start_value,
                elapsed as int,
                dur as int,
            );
        }
        if self.target >= self.start_value {
            let diff: u64 = (self.target - self.start_value) as u64;
            proof {
                assert((diff as int) * (elapsed as int) <= 0x8000_0000_0000_0000)
                    by (nonlinear_arith)
                    requires
                        0 <= diff as int <= 0x1_0000_0000,
                        0 <= elapsed as int <= 0x8000_0000,
                ;
            }
            let delta: u64 = diff * elapsed / dur;
            proof {
                assert((diff as int) * (elapsed as int) <= (diff as int) * (dur as int))
                    by (nonlinear_arith)
                    requires
                        0 <= diff as int,
                        0 <= elapsed as int <= dur as int,
                ;
                lemma_div_is_ordered(diff * elapsed, diff * dur, dur as int);
                lemma_div_by_multiple(diff as int, dur as int);
                assert(delta <= diff);
            }
            self.current = self.start_value + (delta as i64);
        } else {
            let diff: u64 = (self.start_value - self.target) as u64;
            proof {
                assert((diff as int) * (elapsed as int) <= 0x8000_0000_0000_0000)
                    by (nonlinear_arith)
                    requires
                        0 <= diff as int <= 0x1_0000_0000,
                        0 <= elapsed as int <= 0x8000_0000,
                ;
            }
            let delta: u64 = diff * elapsed / dur;
            proof {
                assert((diff as int) * (elapsed as int) <= (diff as int) * (dur as int))
                    by (nonlinear_arith)
                    requires
                        0 <= diff as int,
                        0 <= elapsed as int <= dur as int,
                ;
                lemma_div_is_ordered(diff * elapsed, diff * dur, dur as int);
                lemma_div_by_multiple(diff as int, dur as int);
                assert(delta <= diff);
            }
            self.current = self.start_value - (delta as i64);
        }
    }
}

/// The earned share of a nonnegative difference is between zero and the
/// whole difference, and grows with elapsed time.
proof fn lemma_frac_delta_bounds(diff: int, elapsed: int, dur: int)
    requires
        0 <= elapsed <= dur,
        1 <= dur,
    ensures
        diff >= 0 ==> 0 <= frac_delta(diff, elapsed, dur) <= diff,
        diff < 0 ==> diff <= frac_delta(diff, elapsed, dur) <= 0,
{
    let m = if diff >= 0 { diff } else { -diff };
    assert(m * elapsed >= 0) by (nonlinear_arith)
        requires
            m >= 0,
            elapsed >= 0,
    ;
    lemma_mul_inequality(elapsed, dur, m);
    lemma_div_is_ordered(m * elapsed, m * dur, dur);
    lemma_div_by_multiple(m, dur);
    lemma_div_pos_is_pos(m * elapsed, dur);
}

/// The earned share never shrinks as time passes.
proof fn lemma_frac_delta_mono(diff: int, e1: int, e2: int, dur: int)
    requires
        0 <= e1 <= e2 <= dur,
        1 <= dur,
    ensures
        diff >= 0 ==> frac_delta(diff, e1, dur) <= frac_delta(diff, e2, dur),
        diff < 0 ==> frac_delta(diff, e2, dur) <= frac_delta(diff, e1, dur),
{
    let m = if diff >= 0 { diff } else { -diff };
    lemma_mul_inequality(e1, e2, m);
    lemma_div_is_ordered(m * e1, m * e2, dur);
}

/// Convergence: an active tween read at or past the end of its interval is
/// exactly at its target.
pub proof fn lemma_tween_converges(tw: Tween, t: u64)
    requires
        tw.wf(),
        tw.active,
        t >= tw.end_ms,
    ensures
        tw.value_at(t) == tw.target,
{
    if t <= tw.end_ms {
        let diff = tw.target - tw.start_value;
        let dur = tw.end_ms - tw.start_ms;
        if diff >= 0 {
            lemma_div_by_multiple(diff, dur as int);
        } else {
            lemma_div_by_multiple(-diff, dur as int);
        }
    }
}

/// No overshoot: whenever an active tween is read, its value lies on the
/// segment from the value it started at to its target.
pub proof fn lemma_tween_no_overshoot(tw: Tween, t: u64)
    requires
        tw.wf(),
        tw.active,
    ensures
        toward(tw.start_value as int, tw.value_at(t), tw.target as int),
{
    if tw.start_ms < t <= tw.end_ms {
        lemma_frac_delta_bounds(
            tw.target - tw.start_value,
            t - tw.start_ms,
            tw.end_ms - tw.start_ms,
        );
    }
}

/// Relies on instant::Instant being an opaque point in time (outside the
/// browser it is `std::time::Instant`); the library only carries such values
/// and hands them back to the clock functions below.
#[verifier::external_type_specification]
#[verifier::external_body]
pub struct ExInstant(instant::Instant);

/// Relies on instant::Instant::now: one reading of the host's monotonic
/// clock, a `std::time::Instant` outside the browser. Nothing is assumed of
/// its value.
#[verifier::external_body]
fn clock_now() -> (r: instant::Instant) {
    instant::Instant::now()
}

/// Relies on instant::Instant::duration_since (zero when `later` precedes
/// `earlier`) and Duration::as_millis: the whole milliseconds from `earlier`
/// to `later`. Nothing is assumed of the returned count.
#[verifier::external_body]
fn millis_between(earlier: &instant::Instant, later: &instant::Instant) -> (r: u64) {
    later.duration_since(*earlier).as_millis() as u64
}

/// A tweened observable value driven by the host clock: each change of the
/// observed target restarts the interpolation from the present value, and
/// the renderer's fine sampling timer advances it. The clock readings are
/// outside this library's control, so the contracts here state only what
/// holds for every reading; the exact time behaviour is `Tween`'s.
pub struct Tweened {
    /// The clock reading all of this value's tween times are measured from.
    pub epoch: instant::Instant,
    /// The interpolation state, measured in milliseconds since `epoch`.
    pub tween: Tween,
}

impl Tweened {
    /// A tweened value resting at `initial`.
    pub fn new(initial: i64) -> (t: Tweened)
        requires
            -TWEEN_LIMIT <= initial <= TWEEN_LIMIT,
        ensures
            t.tween.wf(),
            t.tween.current == initial,
            t.tween.target == initial,
            !t.tween.active,
    {
        Tweened { epoch: clock_now(), tween: Tween::new(initial) }
    }

    /// Observe a new target: a changed value begins chasing it over
    /// `duration_ms` from the present value, a repeated value changes
    /// nothing visible.
    pub fn set_target(&mut self, value: i64, duration_ms: u64)
        requires
            old(self).tween.wf(),
            -TWEEN_LIMIT <= value <= TWEEN_LIMIT,
            1 <= duration_ms <= TWEEN_LIMIT,
        ensures
            final(self).tween.wf(),
            final(self).tween.current == old(self).tween.current,
            final(self).tween.target == value,
            value == old(self).tween.current ==> !final(self).tween.active,
    {
        let now = millis_between(&self.epoch, &clock_now());
        let start = if now <= u64::MAX - duration_ms {
            now
        } else {
            u64::MAX - duration_ms
        };
        self.tween.retarget(value, start, duration_ms);
    }

    /// Advance the value by one sampling-timer firing. Whatever the clock
    /// read, the value stays on the segment from the tween's starting value
    /// to its target.
    pub fn sample_now(&mut self)
        requires
            old(self).tween.wf(),
        ensures
            final(self).tween.wf(),
            final(self).tween.target == old(self).tween.target,
            old(self).tween.active ==> toward(
                old(self).tween.start_value as int,
                final(self).tween.current as int,
                old(self).tween.target as int,
            ),
            !old(self).tween.active ==> final(self).tween == old(self).tween,
    {
        let now = millis_between(&self.epoch, &clock_now());
        proof {
            if old(self).tween.active {
                lemma_tween_no_overshoot(old(self).tween, now);
            }
        }
        self.tween.sample(now);
    }

    /// The present interpolated value, for the renderer.
    pub fn current(&self) -> (r: i64)
        ensures
            r == self.tween.current,
    {
        self.tween.current
    }
}

/// Monotone approach: between two reads of an active tween, the later one
/// is never farther from the target.
pub proof fn lemma_tween_monotone(tw: Tween, t1: u64, t2: u64)
    requires
        tw.wf(),
        tw.active,
        t1 <= t2,
    ensures
        toward(tw.value_at(t1), tw.value_at(t2), tw.target as int),
{
    lemma_tween_no_overshoot(tw, t1);
    lemma_tween_no_overshoot(tw, t2);
    let dur = tw.end_ms - tw.start_ms;
    let diff = tw.target - tw.start_value;
    if tw.start_ms < t1 <= tw.end_ms && tw.start_ms < t2 <= tw.end_ms {
        lemma_frac_delta_mono(diff, t1 - tw.start_ms, t2 - tw.start_ms, dur);
    } else if tw.start_ms < t1 <= tw.end_ms && t2 > tw.end_ms {
        lemma_frac_delta_bounds(diff, t1 - tw.start_ms, dur);
    } else if t1 <= tw.start_ms && tw.start_ms < t2 <= tw.end_ms {
        lemma_frac_delta_bounds(diff, t2 - tw.start_ms, dur);
    }
}

} // verus!
