use vstd::prelude::*;
use vstd::std_specs::cmp::PartialOrdSpec;

verus! {

/// The `Duration` that `Duration::from_millis` builds from a count of milliseconds.
pub uninterp spec fn duration_of_millis(ms: u64) -> std::time::Duration;

/// Whether `a` is a shorter span of time than `b`, by `Duration`'s ordering.
pub open spec fn shorter_than(a: std::time::Duration, b: std::time::Duration) -> bool {
    a.partial_cmp_spec(&b) == Some(std::cmp::Ordering::Less)
}

/// `d` is the span of time of `ms` milliseconds: it equals the `Duration` of a
/// count of milliseconds exactly when that count is `ms`, and it is longer than
/// the `Duration` of every smaller count and shorter than that of every larger one.
pub open spec fn spans_millis(d: std::time::Duration, ms: u64) -> bool {
    &&& d == duration_of_millis(ms)
    &&& forall|other: u64| #[trigger] duration_of_millis(other) == d <==> other == ms
    &&& forall|other: u64| shorter_than(#[trigger] duration_of_millis(other), d) <==> other < ms
    &&& forall|other: u64| shorter_than(d, #[trigger] duration_of_millis(other)) <==> ms < other
}

/// Calls `Duration::from_millis` (std's `Duration`, which `tokio::time`
/// re-exports). Trusted to return the value named by `duration_of_millis(ms)`,
/// so that the same count of milliseconds always gives the same `Duration`, and
/// to place it among the `Duration`s of all other counts as std documents (the
/// result holds exactly `ms` milliseconds, and `Duration`s are ordered by
/// length): it differs from the `Duration` of every other count, is longer than
/// that of every smaller count and shorter than that of every larger one. The
/// seconds and nanoseconds it holds are not stated, as `Duration` is opaque here.
#[verifier::external_body]
pub(crate) fn duration_from_millis(ms: u64) -> (d: std::time::Duration)
    ensures
        d == duration_of_millis(ms),
        forall|other: u64| #[trigger] duration_of_millis(other) == d <==> other == ms,
        forall|other: u64| shorter_than(#[trigger] duration_of_millis(other), d) <==> other < ms,
        forall|other: u64| shorter_than(d, #[trigger] duration_of_millis(other)) <==> ms < other,
{
    tokio::time::Duration::from_millis(ms)
}

} // verus!
