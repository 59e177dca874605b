//! Timestamps of stored records.

use vstd::prelude::*;

verus! {

/// `time::PrimitiveDateTime`: a calendar date and time of day without offset.
#[verifier::external_type_specification]
#[verifier::external_body]
pub struct ExPrimitiveDateTime(time::PrimitiveDateTime);

/// `<time::PrimitiveDateTime as Clone>::clone` yields the timestamp it was given.
pub assume_specification[ <time::PrimitiveDateTime as Clone>::clone ](
    value: &time::PrimitiveDateTime,
) -> (r: time::PrimitiveDateTime)
    ensures
        r == *value,
;

/// The current date and time in UTC, from `time::OffsetDateTime::now_utc`.
/// Nothing is claimed of the value: it depends on the clock.
#[verifier::external_body]
pub(crate) fn now() -> (r: time::PrimitiveDateTime) {
    let utc = time::OffsetDateTime::now_utc();
    time::PrimitiveDateTime::new(utc.date(), utc.time())
}

} // verus!
