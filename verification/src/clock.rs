//! The wall clock, behind a trusted boundary: what it returns depends on
//! the machine, so nothing is claimed of the value.

use vstd::prelude::*;

verus! {

/// Relies on std's SystemTime::now and duration_since: microseconds since
/// the Unix epoch, or 0 when the clock reads earlier than the epoch.
#[verifier::external_body]
pub fn now_micros() -> u64 {
    std::time::SystemTime::now().duration_since(std::time::UNIX_EPOCH).map(
        |d| d.as_micros() as u64,
    ).unwrap_or(0)
}

} // verus!
