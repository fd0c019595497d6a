//! The wall clock. Every operation that enforces expiry takes an instant
//! as an argument; these are the only places that read the clock.

use vstd::prelude::*;

verus! {

/// Relies on `time::OffsetDateTime::now_utc` (with `unix_timestamp`): the
/// current instant as whole seconds since the Unix epoch. Nothing is
/// assumed of the value; callers state what holds of every outcome.
#[verifier::external_body]
pub(crate) fn clock_now() -> i64 {
    time::OffsetDateTime::now_utc().unix_timestamp()
}

} // verus!
