//! Points in time, through the `tokio` clock.

use vstd::prelude::*;

verus! {

/// A point in time, `tokio::time::Instant`.
#[verifier::external_type_specification]
#[verifier::external_body]
pub struct ExInstant(tokio::time::Instant);

/// The instant some milliseconds after another, or `None` where the clock's type
/// cannot hold it: what `tokio::time::Instant::checked_add` returns.
pub uninterp spec fn instant_after(start: tokio::time::Instant, millis: u64) -> Option<
    tokio::time::Instant,
>;

/// Calls `tokio::time::Instant::now`. Nothing is claimed of the time it returns.
#[verifier::external_body]
pub(crate) fn now() -> (t: tokio::time::Instant) {
    tokio::time::Instant::now()
}

/// Calls `tokio::time::Instant::checked_add`.
#[verifier::external_body]
pub(crate) fn after(start: tokio::time::Instant, millis: u64) -> (r: Option<tokio::time::Instant>)
    ensures
        r == instant_after(start, millis),
{
    start.checked_add(std::time::Duration::from_millis(millis))
}

} // verus!
