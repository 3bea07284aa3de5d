//! The system clock.

use vstd::prelude::*;
use crate::scale::saturate;

verus! {

/// Reads the system clock through `time::OffsetDateTime::now_utc`, takes
/// the span since `time::OffsetDateTime::UNIX_EPOCH` and returns its
/// `whole_nanoseconds`. Nothing is claimed of the number that comes back:
/// it depends on when the call is made, and a clock that is set back makes
/// it fall. The call fails only where the system clock is set to a date
/// that `OffsetDateTime` cannot hold.
#[verifier::external_body]
fn nanos_since_epoch() -> (nanos: i128) {
    (time::OffsetDateTime::now_utc() - time::OffsetDateTime::UNIX_EPOCH).whole_nanoseconds()
}

/// The raw time at this moment: nanoseconds since the Unix epoch, brought
/// into the range of `i64`.
pub(crate) fn raw_time() -> i64 {
    saturate(nanos_since_epoch())
}

} // verus!
