//! Access to the system clock.
//!
//! Everything that depends on the current time takes the timestamp as an
//! explicit argument (`..._at` functions elsewhere in the crate), so the
//! clock itself is the only unverified boundary: a single wrapper that
//! reads the wall clock as whole seconds since the Unix epoch.

use vstd::prelude::*;

verus! {

/// Current time as whole seconds since the Unix epoch.
///
/// Relies on `std::time::SystemTime`: `now` measured against `UNIX_EPOCH`,
/// truncated to seconds. Nothing can be promised about the value returned:
/// callers hand it to the verified `..._at` functions, which are proved
/// correct for every timestamp.
#[verifier::external_body]
pub fn now_in_secs() -> u64 {
    std::time::SystemTime::now()
        .duration_since(std::time::SystemTime::UNIX_EPOCH)
        .expect("SystemTime before UNIX EPOCH!")
        .as_secs()
}

} // verus!
