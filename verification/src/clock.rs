//! Wall-clock access for the timestamps the service stamps on rows and
//! outcome reports.

use vstd::prelude::*;

verus! {

/// Relies on chrono::Utc::now for the current wall-clock time, read as
/// milliseconds since the Unix epoch; nothing is assumed of the value.
#[verifier::external_body]
pub(crate) fn now_millis() -> i64 {
    chrono::Utc::now().timestamp_millis()
}

} // verus!
