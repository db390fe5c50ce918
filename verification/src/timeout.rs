use crate::duration::{duration_from_millis, duration_of_millis, spans_millis};
use vstd::prelude::*;

verus! {

/// How long a timeout set for `ms` milliseconds sleeps before it runs its
/// callback, once: `ms` milliseconds, so a timeout set for fewer milliseconds
/// waits less, and one set for more waits longer.
pub fn timeout_delay(ms: u64) -> (d: std::time::Duration)
    ensures
        d == duration_of_millis(ms),
        spans_millis(d, ms),
{
    duration_from_millis(ms)
}

} // verus!
