//! The single place where the current time enters the library.

use vstd::prelude::*;

verus! {

/// Relies on chrono::Utc::now for the current instant, read as epoch
/// seconds through DateTime::timestamp. On this target chrono takes the
/// instant from the system clock, panicking if it lies before the Unix
/// epoch, and never returns a date past chrono's own maximum (year
/// 262142), so the result is a non-negative count of seconds well under
/// 10^13. Nothing more is promised: the clock may give any such instant.
#[verifier::external_body]
pub(crate) fn now_epoch_seconds() -> (r: i64)
    ensures
        0 <= r < 10_000_000_000_000i64,
{
    chrono::Utc::now().timestamp()
}

} // verus!
