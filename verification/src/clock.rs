//! The wall clock. Every timestamp the core stamps comes through here, so the
//! store and service logic can be verified for every clock reading.
use vstd::prelude::*;

verus! {

/// Relies on chrono::Utc::now: the current UTC time, as Unix seconds. The
/// value depends on the machine's clock, so nothing is promised of it;
/// callers state what holds whatever was read.
#[verifier::external_body]
pub(crate) fn now_unix_seconds() -> i64 {
    chrono::Utc::now().timestamp()
}

} // verus!
