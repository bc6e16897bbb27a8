//! Step scheduling: how many integration steps each wall-clock tick runs.
//!
//! Once per display frame the host measures the wall-clock time elapsed
//! since the previous frame and hands it to [`Scheduler::on_tick`], which
//! answers with a [`StepPlan`] — the steps the host must then run on every
//! pendulum instance. Time is kept in whole nanoseconds, the clock's native
//! resolution, so the bookkeeping is exact integer arithmetic.
//!
//! The scheduler has two steady modes and no other state transitions than
//! the external toggle between them:
//!
//! - [`Mode::RealTime`]: every tick runs exactly one step whose length is
//!   the raw measured delta — simple, but only as accurate as the display
//!   refresh;
//! - [`Mode::Precision`]: deltas accumulate, and each tick runs one
//!   fixed-length step per whole [`FIXED_STEP_NANOS`] in the accumulator,
//!   carrying the residual — physical accuracy decoupled from frame rate.
//!   A long stall is caught up with a burst of steps; no cap is applied.

use vstd::prelude::*;
use vstd::arithmetic::div_mod::lemma_fundamental_div_mod;
use vstd::arithmetic::div_mod::lemma_fundamental_div_mod_converse;
use vstd::arithmetic::div_mod::lemma_mod_division_less_than_divisor;
use vstd::arithmetic::div_mod::lemma_multiply_divide_lt;

verus! {

/// Length of one fixed integration step, in nanoseconds: 200 microseconds,
/// an inner rate of 5000 steps per simulated second.
pub const FIXED_STEP_NANOS: u64 = 200_000;

/// The two steady scheduling modes.
#[derive(Clone, Copy, Debug, PartialEq, Eq, Structural)]
pub enum Mode {
    /// One variable-length step per tick, as long as the measured delta.
    RealTime,
    /// Fixed-length steps driven by the time accumulator.
    Precision,
}

/// What one tick asks the host to run.
#[derive(Clone, Copy, Debug, PartialEq, Eq, Structural)]
pub enum StepPlan {
    /// Run one step of the given length.
    Single { dt_nanos: u64 },
    /// Run `count` steps of [`FIXED_STEP_NANOS`] each.
    Fixed { count: u64 },
}

/// The mode the external toggle switches to from `m`.
pub open spec fn toggled(m: Mode) -> Mode {
    match m {
        Mode::RealTime => Mode::Precision,
        Mode::Precision => Mode::RealTime,
    }
}

/// How many fixed steps a precision tick runs: one per whole fixed step in
/// the accumulator once the elapsed delta is added.
pub open spec fn precision_steps(acc: int, elapsed: int) -> int {
    (acc + elapsed) / (FIXED_STEP_NANOS as int)
}

/// The unconsumed residual a precision tick leaves in the accumulator.
pub open spec fn precision_residual(acc: int, elapsed: int) -> int {
    (acc + elapsed) % (FIXED_STEP_NANOS as int)
}

/// Decides, per wall-clock tick, how many integration steps to run.
pub struct Scheduler {
    /// The current scheduling mode.
    pub mode: Mode,
    /// Residual simulated time not yet consumed by a fixed step, in
    /// nanoseconds; used only in precision mode and kept across a toggle.
    pub accumulator_nanos: u64,
}

impl Scheduler {
    /// The accumulator never holds a whole fixed step: every tick drains it
    /// below [`FIXED_STEP_NANOS`].
    pub open spec fn wf(self) -> bool {
        self.accumulator_nanos < FIXED_STEP_NANOS
    }

    /// A fresh scheduler: real-time mode, nothing accumulated.
    pub fn new() -> (s: Self)
        ensures
            s.mode == Mode::RealTime,
            s.accumulator_nanos == 0,
            s.wf(),
    {
        Scheduler { mode: Mode::RealTime, accumulator_nanos: 0 }
    }

    /// The external toggle: flip between the two modes. The accumulator is
    /// left as it is, as is any residual it carries.
    pub fn toggle_mode(&mut self)
        ensures
            final(self).mode == toggled(old(self).mode),
            final(self).accumulator_nanos == old(self).accumulator_nanos,
    {
        self.mode = match self.mode {
            Mode::RealTime => Mode::Precision,
            Mode::Precision => Mode::RealTime,
        };
    }

    /// One scheduling decision for a tick whose measured wall-clock delta is
    /// `elapsed_nanos`.
    ///
    /// In real-time mode the plan is a single step of exactly the delta and
    /// the accumulator is untouched. In precision mode the delta joins the
    /// accumulator, the plan is one fixed step per whole [`FIXED_STEP_NANOS`]
    /// now accumulated, and the residual stays behind. The mode never
    /// changes here.
    pub fn on_tick(&mut self, elapsed_nanos: u64) -> (plan: StepPlan)
        requires
            old(self).wf(),
        ensures
            final(self).wf(),
            final(self).mode == old(self).mode,
            old(self).mode == Mode::RealTime ==> {
                &&& plan == (StepPlan::Single { dt_nanos: elapsed_nanos })
                &&& final(self).accumulator_nanos == old(self).accumulator_nanos
            },
            old(self).mode == Mode::Precision ==> {
                &&& plan matches StepPlan::Fixed { count } && count as int
                    == precision_steps(
                    old(self).accumulator_nanos as int,
                    elapsed_nanos as int,
                )
                &&& final(self).accumulator_nanos as int == precision_residual(
                    old(self).accumulator_nanos as int,
                    elapsed_nanos as int,
                )
            },
    {
        match self.mode {
            Mode::RealTime => StepPlan::Single { dt_nanos: elapsed_nanos },
            Mode::Precision => {
                let total: u128 = self.accumulator_nanos as u128 + elapsed_nanos as u128;
                let count: u128 = total / (FIXED_STEP_NANOS as u128);
                let residual: u128 = total % (FIXED_STEP_NANOS as u128);
                proof {
                    lemma_multiply_divide_lt(
                        total as int,
                        FIXED_STEP_NANOS as int,
                        0x1_0000_0000_0000_0000,
                    );
                    lemma_mod_division_less_than_divisor(total as int, FIXED_STEP_NANOS as int);
                }
                self.accumulator_nanos = residual as u64;
                StepPlan::Fixed { count: count as u64 }
            },
        }
    }
}

/// Splitting a wall-clock delay over two precision ticks changes nothing:
/// for any two deltas, ticking with the first and then the second runs, in
/// total, exactly as many fixed steps as one tick with their sum, and leaves
/// the same residual in the accumulator.
pub proof fn lemma_precision_split(acc: int, a: int, b: int)
    requires
        0 <= acc < FIXED_STEP_NANOS,
        0 <= a,
        0 <= b,
    ensures
        precision_steps(acc, a) + precision_steps(precision_residual(acc, a), b)
            == precision_steps(acc, a + b),
        precision_residual(precision_residual(acc, a), b) == precision_residual(acc, a + b),
{
    let f = FIXED_STEP_NANOS as int;
    let q1 = precision_steps(acc, a);
    let r1 = precision_residual(acc, a);
    let q2 = precision_steps(r1, b);
    let r2 = precision_residual(r1, b);
    lemma_fundamental_div_mod(acc + a, f);
    lemma_mod_division_less_than_divisor(acc + a, f);
    lemma_fundamental_div_mod(r1 + b, f);
    lemma_mod_division_less_than_divisor(r1 + b, f);
    assert(acc + a + b == (q1 + q2) * f + r2) by (nonlinear_arith)
        requires
            acc + a == q1 * f + r1,
            r1 + b == q2 * f + r2,
    ;
    lemma_fundamental_div_mod_converse(acc + a + b, f, q1 + q2, r2);
}

/// From an empty accumulator, two deltas whose sum is a whole multiple
/// `k` of the fixed step length run exactly `k` fixed steps in total and
/// leave the accumulator empty again — however the sum is split.
pub proof fn lemma_precision_whole_multiple(a: int, b: int, k: int)
    requires
        0 <= a,
        0 <= b,
        0 <= k,
        a + b == k * FIXED_STEP_NANOS,
    ensures
        precision_steps(0, a) + precision_steps(precision_residual(0, a), b) == k,
        precision_residual(precision_residual(0, a), b) == 0,
{
    let f = FIXED_STEP_NANOS as int;
    lemma_precision_split(0, a, b);
    lemma_fundamental_div_mod_converse(a + b, f, k, 0);
}

} // verus!
