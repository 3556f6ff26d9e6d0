//! The wall clock, read through `chrono`.

use vstd::prelude::*;

verus! {

/// `chrono::Utc::now` followed by `DateTime::timestamp`: the current time in
/// whole seconds since 1970. Nothing is claimed about the value, which is the
/// machine's to give; `chrono` itself gives up when the system clock reads
/// earlier than 1970.
#[verifier::external_body]
pub(crate) fn unix_now() -> (seconds: i64) {
    chrono::Utc::now().timestamp()
}

} // verus!
