use vstd::prelude::*;
use crate::post::Timestamp;

verus! {

/// Relies on chrono::Utc::now (with DateTime::timestamp_micros): the time
/// of the system clock, which chrono reads as a duration since the Unix
/// epoch, so it is never earlier than the epoch (chrono panics where the
/// system clock reads earlier). Nothing more is promised of its value.
#[verifier::external_body]
pub(crate) fn now_timestamp() -> (r: Timestamp)
    ensures
        r.micros >= 0,
{
    Timestamp { micros: chrono::Utc::now().timestamp_micros() }
}

} // verus!
