use std::time::Duration;
use tokio_js_set_interval::{IntervalSchedule, TickAction};

/// Drives a fresh interval through `ticks` ticks and counts the callbacks.
fn callbacks_over(period_ms: u64, ticks: usize) -> usize {
    let mut schedule = IntervalSchedule::new(period_ms);
    let mut calls = 0;
    for _ in 0..ticks {
        if schedule.on_tick() == TickAction::RunCallback {
            calls += 1;
        }
    }
    calls
}

/// Ticks that a timer with this period has completed after `elapsed_ms`.
fn ticks_due(elapsed_ms: u64, period_ms: u64) -> usize {
    (elapsed_ms / period_ms + 1) as usize
}

#[test]
fn first_tick_is_skipped_later_ticks_run() {
    let mut schedule = IntervalSchedule::new(50);
    assert_eq!(schedule.on_tick(), TickAction::SkipImmediateTick);
    assert_eq!(schedule.on_tick(), TickAction::RunCallback);
    assert_eq!(schedule.on_tick(), TickAction::RunCallback);
    assert_eq!(schedule.on_tick(), TickAction::RunCallback);
}

#[test]
fn period_is_the_given_milliseconds() {
    let schedule = IntervalSchedule::new(50);
    assert_eq!(schedule.period(), Duration::from_millis(50));
    assert_eq!(schedule.period().as_millis(), 50);
    let schedule = IntervalSchedule::new(2_569);
    assert_eq!(schedule.period().as_secs(), 2);
    assert_eq!(schedule.period().subsec_nanos(), 569_000_000);
}

#[test]
fn period_survives_ticks() {
    let mut schedule = IntervalSchedule::new(333);
    for _ in 0..5 {
        schedule.on_tick();
    }
    assert_eq!(schedule.period(), Duration::from_millis(333));
}

#[test]
fn no_tick_no_callback() {
    assert_eq!(callbacks_over(10, 0), 0);
    assert_eq!(callbacks_over(10, 1), 0);
    assert_eq!(callbacks_over(10, 2), 1);
    assert_eq!(callbacks_over(10, 7), 6);
}

#[test]
fn interval_of_50ms_runs_three_times_in_180ms() {
    assert_eq!(callbacks_over(50, ticks_due(180, 50)), 3);
}

#[test]
fn interval_of_50ms_runs_twice_in_120ms() {
    assert_eq!(callbacks_over(50, ticks_due(120, 50)), 2);
}

#[test]
fn interval_of_2ms_runs_three_times_in_7ms() {
    assert_eq!(callbacks_over(2, ticks_due(7, 2)), 3);
}

#[test]
fn interval_has_not_run_before_one_period() {
    assert_eq!(callbacks_over(50, ticks_due(49, 50)), 0);
    assert_eq!(callbacks_over(50, ticks_due(50, 50)), 1);
}
