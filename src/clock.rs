//! Wall-clock time.

use vstd::prelude::*;

verus! {

/// Relies on chrono's `From<SystemTime> for DateTime<Utc>`, read as
/// milliseconds since the Unix epoch: a clock before the epoch gives a
/// negative count. Nothing else is known of the value: it is the machine's
/// clock.
#[verifier::external_body]
pub(crate) fn utc_now_millis() -> (r: i64) {
    chrono::DateTime::<chrono::Utc>::from(std::time::SystemTime::now()).timestamp_millis()
}

/// Whole seconds of a millisecond count since the Unix epoch, truncated;
/// `None` before the epoch.
pub open spec fn seconds_of(millis: i64) -> Option<u64> {
    if millis < 0 {
        None
    } else {
        Some((millis / 1000) as u64)
    }
}

/// Converts a clock reading in milliseconds to whole seconds.
pub fn seconds_from_millis(millis: i64) -> (r: Option<u64>)
    ensures
        r == seconds_of(millis),
{
    if millis < 0 {
        None
    } else {
        Some((millis / 1000) as u64)
    }
}

/// A later reading never gives fewer seconds.
pub proof fn lemma_seconds_monotonic(earlier: i64, later: i64)
    requires
        0 <= earlier <= later,
    ensures
        seconds_of(earlier)->Some_0 <= seconds_of(later)->Some_0,
{
    assert(earlier / 1000 <= later / 1000) by (nonlinear_arith)
        requires
            0 <= earlier <= later,
    ;
}

/// The current Unix time in whole seconds; `None` when the clock reads a time
/// before the Unix epoch.
pub fn get_timestamp() -> (r: Option<u64>)
    ensures
        exists|millis: i64| r == #[trigger] seconds_of(millis),
{
    let millis = utc_now_millis();
    seconds_from_millis(millis)
}

} // verus!
