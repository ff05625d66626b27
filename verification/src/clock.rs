//! The verification instant, read from the system clock.

use vstd::prelude::*;

verus! {

/// Relies on std::time::SystemTime::now, SystemTime::duration_since
/// against the Unix epoch, and Duration::as_secs.  The clock is not a
/// function of anything the model sees, so nothing is promised of the
/// result; `None` reports a clock before the epoch.
#[verifier::external_body]
fn system_now_secs() -> (r: Option<u64>) {
    match std::time::SystemTime::now().duration_since(std::time::SystemTime::UNIX_EPOCH) {
        Ok(d) => Some(d.as_secs()),
        Err(_) => None,
    }
}

/// The current instant in seconds since the Unix epoch, clamped into
/// the non-negative range of `i64`.
pub fn now_unix() -> (r: i64)
    ensures
        r >= 0,
{
    match system_now_secs() {
        Some(s) => if s > (i64::MAX as u64) {
            i64::MAX
        } else {
            s as i64
        },
        None => 0,
    }
}

} // verus!
