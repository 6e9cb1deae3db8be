//! The wall clock.

use vstd::prelude::*;

verus! {

/// The largest number of seconds that a clock reading can hold: the seconds
/// in `i64::MAX` milliseconds, the longest span that `chrono::Duration` takes.
pub const MAX_CLOCK_SECONDS: i64 = 9_223_372_036_854_775;

/// The current time in whole seconds since the Unix epoch, or `None` where the
/// machine's clock stands before the epoch or beyond `MAX_CLOCK_SECONDS`.
///
/// The clock is read with `std::time::SystemTime::elapsed` on
/// `std::time::UNIX_EPOCH`, which gives an error, not a panic, for a clock
/// before the epoch. The span goes through `chrono::Duration::from_std`, which
/// refuses one of more than `MAX_CLOCK_SECONDS` seconds, and
/// `chrono::Duration::num_seconds`, which hands back the whole seconds of a
/// span that is not negative. Nothing else is claimed of the value: two
/// readings may differ in either direction.
#[verifier::external_body]
pub(crate) fn unix_time_now() -> (now: Option<i64>)
    ensures
        now matches Some(seconds) ==> 0 <= seconds <= MAX_CLOCK_SECONDS,
{
    match std::time::UNIX_EPOCH.elapsed() {
        Ok(elapsed) => match chrono::Duration::from_std(elapsed) {
            Ok(span) => Some(span.num_seconds()),
            Err(_) => None,
        },
        Err(_) => None,
    }
}

} // verus!
