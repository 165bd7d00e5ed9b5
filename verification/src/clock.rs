//! Elapsed time between two readings of the embassy-time clock, in ticks.
//!
//! The clock counts `TICK_HZ` ticks per second; this crate's feature set of
//! `embassy-time` leaves it at its default of 1 000 000.

use vstd::prelude::*;
use embassy_time::Instant;

verus! {

/// Clock ticks per millisecond.
pub const TICKS_PER_MS: u64 = 1000;

/// Clock ticks per second.
pub const TICKS_PER_SEC: u64 = 1000000;

/// Whole milliseconds from tick `earlier` to tick `now`.
pub open spec fn millis_since(now: u64, earlier: u64) -> int {
    (now - earlier) / (TICKS_PER_MS as int)
}

/// Whole seconds from tick `earlier` to tick `now`.
pub open spec fn secs_since(now: u64, earlier: u64) -> int {
    (now - earlier) / (TICKS_PER_SEC as int)
}

/// `Instant::duration_since` followed by `Duration::as_millis`, on instants made
/// with `Instant::from_ticks`. `duration_since` panics when `earlier` is later
/// than `now`; otherwise the duration holds `now - earlier` ticks, and
/// `as_millis` returns `ticks * (1000 / gcd) / (TICK_HZ / gcd)` with
/// `gcd = gcd(TICK_HZ, 1000)`, which at 1 MHz is `ticks / 1000`.
#[verifier::external_body]
pub(crate) fn millis_between(now: u64, earlier: u64) -> (ms: u64)
    requires
        earlier <= now,
    ensures
        ms == millis_since(now, earlier),
{
    Instant::from_ticks(now).duration_since(Instant::from_ticks(earlier)).as_millis()
}

/// `Instant::duration_since` followed by `Duration::as_secs`, on instants made
/// with `Instant::from_ticks`. `duration_since` panics when `earlier` is later
/// than `now`; otherwise `as_secs` returns `ticks / TICK_HZ`, at 1 MHz
/// `ticks / 1 000 000`.
#[verifier::external_body]
pub(crate) fn secs_between(now: u64, earlier: u64) -> (s: u64)
    requires
        earlier <= now,
    ensures
        s == secs_since(now, earlier),
{
    Instant::from_ticks(now).duration_since(Instant::from_ticks(earlier)).as_secs()
}

} // verus!
