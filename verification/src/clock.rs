//! The monotonic clock.

use vstd::prelude::*;
use crate::time::Duration;

verus! {

/// Declares `std::time::Instant` to the verifier.
#[verifier::external_type_specification]
#[verifier::external_body]
pub struct ExInstant(std::time::Instant);

/// Reads the monotonic clock (`Instant::now`). Nothing is claimed of the
/// value: it depends on the clock.
#[verifier::external_body]
pub(crate) fn now() -> std::time::Instant {
    std::time::Instant::now()
}

/// The time passed since `since` (`Instant::elapsed`). It depends on the
/// clock; nothing is claimed of it.
#[verifier::external_body]
fn std_elapsed(since: &std::time::Instant) -> std::time::Duration {
    since.elapsed()
}

/// The whole seconds of a `std` duration (`Duration::as_secs`). Nothing is
/// claimed of the value beyond its type.
#[verifier::external_body]
fn std_whole_secs(d: &std::time::Duration) -> u64 {
    d.as_secs()
}

/// The fraction of a second of a `std` duration in nanoseconds
/// (`Duration::subsec_nanos`); its documentation says the value is always
/// below one billion, and that is all that is claimed.
#[verifier::external_body]
fn std_subsec_nanos(d: &std::time::Duration) -> (n: u32)
    ensures
        n < 1_000_000_000,
{
    d.subsec_nanos()
}

/// The time passed since `since`, as a [`Duration`]. It depends on the
/// clock.
pub fn elapsed_since(since: &std::time::Instant) -> Duration {
    let d = std_elapsed(since);
    Duration::new(std_whole_secs(&d), std_subsec_nanos(&d))
}

} // verus!
