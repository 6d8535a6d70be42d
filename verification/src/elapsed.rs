//! Elapsed time.

use time::Duration;
use vstd::prelude::*;

verus! {

/// The whole milliseconds in so many nanoseconds, rounded toward zero.
pub open spec fn millis_in(nanos: i64) -> i64 {
    if nanos >= 0 {
        (nanos as int / 1_000_000) as i64
    } else {
        (-(-nanos as int / 1_000_000)) as i64
    }
}

/// `time::Duration::nanoseconds`, counted by `Duration::num_milliseconds`:
/// the whole milliseconds in so many nanoseconds.
#[verifier::external_body]
pub(crate) fn whole_millis(nanos: i64) -> (millis: i64)
    ensures
        millis == millis_in(nanos),
{
    Duration::nanoseconds(nanos).num_milliseconds()
}

} // verus!
