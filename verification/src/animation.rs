//! Piecewise time-driven animation evaluator: an animation is an ordered
//! list of stages, each owning a half-open progress window within one
//! fixed-point unit and an easing curve. Running the animation at a
//! progress value executes the first stage whose window contains it and
//! hands back that stage's index with the eased progress; when no window
//! matches, nothing runs. Windows are expected to partition the unit
//! interval but this is not enforced: overlaps and gaps are resolved by
//! first match.

use vstd::prelude::*;

use crate::fp::{sq, tdiv, SCALE};

verus! {

/// Easing curve of one animation stage, progress to eased progress over
/// fixed-point thousandths.
#[derive(Clone, Copy, Debug, PartialEq, Eq, Structural)]
pub enum Easing {
    /// Eased progress is the progress itself.
    Linear,
    /// `1 - (1-t)^2`: fast start, gentle stop.
    EaseOutQuad,
    /// `1 - 2^(10t - 10)`: an exponential tail that snaps shut.
    EaseOutExpo,
}

/// Powers of two, for the exponential easing curve.
pub open spec fn pow2s(n: int) -> int
    decreases n,
{
    if n <= 0 {
        1
    } else {
        2 * pow2s(n - 1)
    }
}

pub proof fn lemma_pow2s_mono(m: int, n: int)
    requires
        0 <= m <= n,
    ensures
        1 <= pow2s(m) <= pow2s(n),
    decreases n,
{
    if n > 0 {
        if m == n {
            lemma_pow2s_mono(0, n - 1);
        } else {
            lemma_pow2s_mono(m, n - 1);
        }
    }
}

/// `2^(-e/SCALE)` in fixed-point thousandths for `e` in `[0, 10*SCALE]`,
/// interpolating linearly between neighbouring powers of two.
pub open spec fn pow2_decay(e: int) -> int
    recommends
        0 <= e <= 10 * SCALE as int,
{
    let whole = e / (SCALE as int);
    let frac = e % (SCALE as int);
    tdiv(tdiv(SCALE as int, pow2s(whole)) * (2 * SCALE as int - frac), 2 * SCALE as int)
}

/// What a stage's easing curve yields at a progress value in
/// `[0, SCALE]`.
pub open spec fn ease_spec(e: Easing, t: int) -> int
    recommends
        0 <= t <= SCALE as int,
{
    match e {
        Easing::Linear => t,
        Easing::EaseOutQuad => SCALE as int - tdiv(sq(SCALE as int - t), SCALE as int),
        Easing::EaseOutExpo => SCALE as int - pow2_decay(10 * (SCALE as int - t)),
    }
}

fn pow2_exec(n: u32) -> (r: i64)
    requires
        n <= 10,
    ensures
        r == pow2s(n as int),
        1 <= r <= 1024,
{
    proof {
        lemma_pow2s_mono(n as int, 10);
        reveal_with_fuel(pow2s, 12);
    }
    let mut p: i64 = 1;
    let mut i: u32 = 0;
    while i < n
        invariant
            i <= n <= 10,
            p == pow2s(i as int),
            1 <= p <= 1024,
        decreases n - i,
    {
        proof {
            lemma_pow2s_mono(i as int, 9);
            reveal_with_fuel(pow2s, 12);
        }
        p = 2 * p;
        i = i + 1;
    }
    p
}

/// Apply an easing curve to a progress value.
pub fn ease(e: Easing, t: i64) -> (r: i64)
    requires
        0 <= t <= SCALE,
    ensures
        r == ease_spec(e, t as int),
        0 <= r <= SCALE,
{
    match e {
        Easing::Linear => t,
        Easing::EaseOutQuad => {
            let d = SCALE - t;
            proof {
                assert(0 <= sq(d as int) <= SCALE as int * SCALE as int) by (nonlinear_arith)
                    requires
                        0 <= d <= SCALE,
                ;
                crate::vec2::lemma_tdiv_le(sq(d as int), SCALE as int, SCALE as int);
            }
            let fall = (((d * d) as u64) / (SCALE as u64)) as i64;
            SCALE - fall
        },
        Easing::EaseOutExpo => {
            let e10 = 10 * (SCALE - t);
            let whole = (e10 / SCALE) as u32;
            let frac = e10 % SCALE;
            let p = pow2_exec(whole);
            let base = ((SCALE as u64) / (p as u64)) as i64;
            proof {
                assert(0 <= base <= SCALE as int) by (nonlinear_arith)
                    requires
                        p >= 1,
                        base == SCALE as int / p as int,
                ;
                assert(0 <= base as int * (2 * SCALE as int - frac) <= SCALE as int * (2
                    * SCALE as int)) by (nonlinear_arith)
                    requires
                        0 <= base <= SCALE,
                        0 <= 2 * SCALE as int - frac <= 2 * SCALE as int,
                ;
            }
            let num = base * (2 * SCALE - frac);
            proof {
                crate::vec2::lemma_tdiv_le(num as int, 2 * SCALE as int, SCALE as int);
            }
            let fall = ((num as u64) / ((2 * SCALE) as u64)) as i64;
            SCALE - fall
        },
    }
}

/// A named phase timer driving one cyclic or one-shot motion: elapsed
/// and total milliseconds, wrapping around when repeating and saturating
/// at the end otherwise.
#[derive(Clone, Copy, Debug, PartialEq, Eq, Structural)]
pub struct PhaseTimer {
    pub elapsed_ms: i64,
    pub duration_ms: i64,
    pub repeating: bool,
}

pub open spec fn timer_wf(t: PhaseTimer) -> bool {
    &&& 0 < t.duration_ms <= 1_000_000
    &&& 0 <= t.elapsed_ms <= t.duration_ms
    &&& (t.repeating ==> t.elapsed_ms < t.duration_ms)
}

/// The timer after `dt_ms` more milliseconds.
pub open spec fn timer_ticked(t: PhaseTimer, dt_ms: int) -> PhaseTimer {
    if t.repeating {
        PhaseTimer { elapsed_ms: ((t.elapsed_ms + dt_ms) % (t.duration_ms as int)) as i64, ..t }
    } else if t.elapsed_ms + dt_ms > t.duration_ms {
        PhaseTimer { elapsed_ms: t.duration_ms, ..t }
    } else {
        PhaseTimer { elapsed_ms: (t.elapsed_ms + dt_ms) as i64, ..t }
    }
}

pub fn timer_new(duration_ms: i64, repeating: bool) -> (r: PhaseTimer)
    requires
        0 < duration_ms <= 1_000_000,
    ensures
        r == (PhaseTimer { elapsed_ms: 0, duration_ms, repeating }),
        timer_wf(r),
{
    PhaseTimer { elapsed_ms: 0, duration_ms, repeating }
}

impl PhaseTimer {
    /// Advance the timer, wrapping or saturating as configured.
    pub fn tick(&mut self, dt_ms: i64)
        requires
            timer_wf(*old(self)),
            0 <= dt_ms <= 100_000_000,
        ensures
            *final(self) == timer_ticked(*old(self), dt_ms as int),
            timer_wf(*final(self)),
    {
        let total = self.elapsed_ms + dt_ms;
        if self.repeating {
            self.elapsed_ms = ((total as u64) % (self.duration_ms as u64)) as i64;
        } else if total > self.duration_ms {
            self.elapsed_ms = self.duration_ms;
        } else {
            self.elapsed_ms = total;
        }
    }

    /// Reset the timer to the start of its phase.
    pub fn reset(&mut self)
        ensures
            *final(self) == (PhaseTimer { elapsed_ms: 0, ..*old(self) }),
    {
        self.elapsed_ms = 0;
    }

    /// How far through its phase the timer is, in fixed-point
    /// thousandths.
    pub open spec fn percent_spec(self) -> int {
        tdiv(self.elapsed_ms as int * SCALE as int, self.duration_ms as int)
    }

    /// Fixed-point progress through the phase; a repeating timer never
    /// reports a full phase.
    pub fn percent(&self) -> (r: i64)
        requires
            timer_wf(*self),
        ensures
            r == self.percent_spec(),
            0 <= r <= SCALE,
            self.repeating ==> r < SCALE,
            !self.repeating ==> (r == SCALE <==> self.elapsed_ms == self.duration_ms),
    {
        proof {
            crate::vec2::lemma_tdiv_le(self.elapsed_ms as int * SCALE as int,
                self.duration_ms as int, SCALE as int);
            assert(self.elapsed_ms as int * SCALE as int <= SCALE as int
                * self.duration_ms as int) by (nonlinear_arith)
                requires
                    self.elapsed_ms <= self.duration_ms,
                    SCALE >= 0,
            ;
            if self.elapsed_ms < self.duration_ms {
                assert((self.elapsed_ms as int * SCALE as int) < (self.duration_ms as int
                    * SCALE as int)) by (nonlinear_arith)
                    requires
                        0 <= self.elapsed_ms < self.duration_ms,
                        SCALE > 0,
                ;
                assert(((self.elapsed_ms as int * SCALE as int) / (self.duration_ms as int))
                    < (SCALE as int)) by (nonlinear_arith)
                    requires
                        self.duration_ms > 0,
                        0 <= self.elapsed_ms as int * SCALE as int,
                        (self.elapsed_ms as int * SCALE as int) < (self.duration_ms as int
                            * SCALE as int),
                ;
            }
            if self.elapsed_ms == self.duration_ms {
                assert(self.elapsed_ms as int * SCALE as int == SCALE as int
                    * self.duration_ms as int) by (nonlinear_arith)
                    requires
                        self.elapsed_ms == self.duration_ms,
                ;
                assert((SCALE as int * self.duration_ms as int) / (self.duration_ms as int)
                    == SCALE as int) by (nonlinear_arith)
                    requires
                        self.duration_ms > 0,
                ;
            }
        }
        ((self.elapsed_ms * SCALE) as u64 / (self.duration_ms as u64)) as i64
    }
}

/// One time-windowed unit of procedural motion: a half-open progress
/// window `[lo, hi)` within the fixed-point unit interval, and the
/// easing curve applied to the progress handed to its operation.
#[derive(Clone, Copy, Debug, PartialEq, Eq, Structural)]
pub struct AnimationStage {
    pub lo: i64,
    pub hi: i64,
    pub easing: Easing,
}

impl AnimationStage {
    pub fn new(lo: i64, hi: i64, easing: Easing) -> (r: AnimationStage)
        ensures
            r == (AnimationStage { lo, hi, easing }),
    {
        AnimationStage { lo, hi, easing }
    }

    /// Whether the stage's half-open window contains a progress value.
    pub open spec fn contains_spec(self, t: int) -> bool {
        self.lo as int <= t < self.hi as int
    }
}

/// Index of the first stage whose window contains the progress value,
/// scanning from position `i`.
pub open spec fn first_match_from(stages: Seq<AnimationStage>, t: int, i: int) -> Option<int>
    decreases stages.len() - i,
{
    if i < 0 || i >= stages.len() {
        None
    } else if stages[i].contains_spec(t) {
        Some(i)
    } else {
        first_match_from(stages, t, i + 1)
    }
}

/// Index of the first stage whose window contains the progress value.
pub open spec fn first_match(stages: Seq<AnimationStage>, t: int) -> Option<int> {
    first_match_from(stages, t, 0)
}

/// An ordered list of stages evaluated by first match.
pub struct Animation {
    pub stages: Vec<AnimationStage>,
}

impl Animation {
    pub fn new(stages: Vec<AnimationStage>) -> (r: Animation)
        ensures
            r.stages@ == stages@,
    {
        Animation { stages }
    }

    /// Scan the stages in order and evaluate the first one whose window
    /// contains the progress value: its index and its eased progress.
    /// When no window contains the value, no stage runs.
    pub fn run(&self, time: i64) -> (r: Option<(usize, i64)>)
        requires
            0 <= time <= SCALE,
        ensures
            match r {
                Some((i, eased)) => {
                    &&& first_match(self.stages@, time as int) == Some(i as int)
                    &&& self.stages@[i as int].contains_spec(time as int)
                    &&& eased == ease_spec(self.stages@[i as int].easing, time as int)
                    &&& 0 <= eased <= SCALE
                },
                None => first_match(self.stages@, time as int) is None,
            },
    {
        let n = self.stages.len();
        let mut i: usize = 0;
        while i < n
            invariant
                0 <= i <= n == self.stages@.len(),
                0 <= time <= SCALE,
                first_match(self.stages@, time as int) == first_match_from(
                    self.stages@,
                    time as int,
                    i as int,
                ),
            decreases n - i,
        {
            let stage = self.stages[i];
            if stage.lo <= time && time < stage.hi {
                let eased = ease(stage.easing, time);
                return Some((i, eased));
            }
            i = i + 1;
        }
        None
    }
}

} // verus!
