//! The wall clock, read when an update stamps a record.

use vstd::prelude::*;

verus! {

/// Relies on `chrono::Utc::now` and `DateTime::timestamp_micros`: the
/// current wall-clock time as a microsecond count. The value depends on the
/// clock, so nothing is promised of it. `Utc::now` itself panics on a
/// system clock set before the Unix epoch; that machine state takes no
/// input this wrapper could exclude.
#[verifier::external_body]
pub(crate) fn now_micros() -> i64 {
    chrono::Utc::now().timestamp_micros()
}

} // verus!
