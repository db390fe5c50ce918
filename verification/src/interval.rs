use crate::duration::{duration_from_millis, duration_of_millis, spans_millis};
use vstd::prelude::*;

verus! {

/// What to do when the interval's timer ticks.
#[derive(Clone, Copy, Debug, PartialEq, Eq, Structural)]
pub enum TickAction {
    /// The timer's first tick completes at once; JavaScript's `setInterval`
    /// waits one whole period before the first call, so this tick is passed over.
    SkipImmediateTick,
    /// Run the callback.
    RunCallback,
}

/// The state of an interval, as a mathematical value.
pub struct IntervalModel {
    /// The period, in milliseconds.
    pub period_ms: u64,
    /// Whether the timer has ticked at least once.
    pub first_tick_seen: bool,
}

/// An interval that has just been set, with the given period.
pub open spec fn fresh_interval(period_ms: u64) -> IntervalModel {
    IntervalModel { period_ms, first_tick_seen: false }
}

/// One tick of the timer: the next state and the action to take.
pub open spec fn tick_step(s: IntervalModel) -> (IntervalModel, TickAction) {
    (
        IntervalModel { first_tick_seen: true, ..s },
        if s.first_tick_seen {
            TickAction::RunCallback
        } else {
            TickAction::SkipImmediateTick
        },
    )
}

/// `n` ticks of the timer from state `s`: the state reached and how many times
/// the callback ran.
pub open spec fn run_ticks(s: IntervalModel, n: nat) -> (IntervalModel, nat)
    decreases n,
{
    if n == 0 {
        (s, 0)
    } else {
        let (s1, action) = tick_step(s);
        let (s2, calls) = run_ticks(s1, (n - 1) as nat);
        (s2, calls + if action == TickAction::RunCallback { 1nat } else { 0nat })
    }
}

/// How many ticks a `tokio` interval with period `period_ms` has completed once
/// `elapsed_ms` milliseconds have passed: its first tick completes at once and
/// the `k`-th later one after `k` periods.
pub open spec fn ticks_due(elapsed_ms: nat, period_ms: nat) -> nat
    recommends
        period_ms > 0,
{
    elapsed_ms / period_ms + 1
}

/// The decisions of an interval that runs a callback every `period_ms`
/// milliseconds, the first time one period after it was set.
pub struct IntervalSchedule {
    period_ms: u64,
    first_tick_seen: bool,
}

impl View for IntervalSchedule {
    type V = IntervalModel;

    closed spec fn view(&self) -> IntervalModel {
        IntervalModel { period_ms: self.period_ms, first_tick_seen: self.first_tick_seen }
    }
}

impl IntervalSchedule {
    #[verifier::type_invariant]
    spec fn period_is_positive(self) -> bool {
        self.period_ms > 0
    }

    /// A new interval with a period of `period_ms` milliseconds; a zero period
    /// is refused by the timer (it panics), so it is left out here.
    pub fn new(period_ms: u64) -> (s: Self)
        requires
            period_ms > 0,
        ensures
            s@ == fresh_interval(period_ms),
            s@.period_ms == period_ms,
            !s@.first_tick_seen,
    {
        IntervalSchedule { period_ms, first_tick_seen: false }
    }

    /// The period of the timer that drives this interval: `period_ms`
    /// milliseconds.
    pub fn period(&self) -> (d: std::time::Duration)
        ensures
            d == duration_of_millis(self@.period_ms),
            spans_millis(d, self@.period_ms),
            self@.period_ms > 0,
    {
        proof {
            use_type_invariant(self);
        }
        duration_from_millis(self.period_ms)
    }

    /// Decides what the tick that the timer just completed does: the first
    /// tick is passed over, every later one runs the callback.
    pub fn on_tick(&mut self) -> (action: TickAction)
        ensures
            (final(self)@, action) == tick_step(old(self)@),
    {
        proof {
            use_type_invariant(&*self);
        }
        let action = if self.first_tick_seen {
            TickAction::RunCallback
        } else {
            TickAction::SkipImmediateTick
        };
        self.first_tick_seen = true;
        action
    }
}

/// Ticking never changes an interval's period, and after at least one tick the
/// first tick has been seen.
pub proof fn law_ticks_keep_period(s: IntervalModel, n: nat)
    ensures
        run_ticks(s, n).0.period_ms == s.period_ms,
        n > 0 ==> run_ticks(s, n).0.first_tick_seen,
        n == 0 ==> run_ticks(s, n).0 == s,
    decreases n,
{
    if n > 0 {
        law_ticks_keep_period(tick_step(s).0, (n - 1) as nat);
    }
}

/// Every tick runs the callback except the very first tick of a fresh
/// interval: from a state that has seen a tick, `n` ticks run it `n` times;
/// from a fresh one, `n - 1` times (none for no tick).
pub proof fn law_callbacks_after_ticks(s: IntervalModel, n: nat)
    ensures
        run_ticks(s, n).1 == if s.first_tick_seen || n == 0 {
            n
        } else {
            (n - 1) as nat
        },
    decreases n,
{
    if n > 0 {
        law_callbacks_after_ticks(tick_step(s).0, (n - 1) as nat);
    }
}

/// An interval with period `p` milliseconds has run its callback `t / p` times
/// (rounded down) once `t` milliseconds have passed: the callback runs one
/// period after the interval was set, and every period after that.
pub proof fn law_callbacks_by_elapsed(period_ms: u64, elapsed_ms: nat)
    requires
        period_ms > 0,
    ensures
        ({
            let s = fresh_interval(period_ms);
            run_ticks(s, ticks_due(elapsed_ms, s.period_ms as nat)).1 == elapsed_ms / (
            period_ms as nat)
        }),
{
    law_fresh_interval_has_given_period(period_ms);
    law_callbacks_after_ticks(fresh_interval(period_ms), ticks_due(elapsed_ms, period_ms as nat));
}

/// An interval that has just been set runs on exactly the period it was given,
/// and its timer has not ticked yet.
pub proof fn law_fresh_interval_has_given_period(period_ms: u64)
    ensures
        fresh_interval(period_ms).period_ms == period_ms,
        !fresh_interval(period_ms).first_tick_seen,
{
}

} // verus!
