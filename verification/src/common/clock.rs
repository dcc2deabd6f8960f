use vstd::prelude::*;

verus! {

/// The host's wall-clock time in milliseconds since the Unix epoch.
///
/// Calls `chrono::Utc::now` and `DateTime::timestamp_millis`. Nothing is
/// claimed of the value: it depends on the machine's clock. `Utc::now`
/// panics when that clock stands before the Unix epoch, or so far behind it
/// that `chrono` has no date for it.
#[verifier::external_body]
pub(crate) fn now_millis() -> i64 {
    chrono::Utc::now().timestamp_millis()
}

} // verus!
