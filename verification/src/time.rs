//! What this crate relies on of `core::time::Duration`.
//!
//! A `Duration` is opaque to the verifier. Its length is modelled by the two
//! numbers that `as_secs` and `subsec_nanos` report, and `nanos` combines
//! them into a length in nanoseconds.

use core::time::Duration;
use vstd::prelude::*;

verus! {

/// Nanoseconds in one second.
pub const NANOS_PER_SEC: u32 = 1_000_000_000;

/// The whole seconds of a duration: what `Duration::as_secs` returns.
pub uninterp spec fn duration_secs(d: Duration) -> u64;

/// The part of a duration below one second, in nanoseconds: what
/// `Duration::subsec_nanos` returns.
pub uninterp spec fn duration_subsec_nanos(d: Duration) -> u32;

/// The length of a duration in nanoseconds.
pub open spec fn nanos(d: Duration) -> nat {
    (duration_secs(d) * NANOS_PER_SEC + duration_subsec_nanos(d)) as nat
}

/// `Duration::as_secs`: assumed to return the whole seconds of the duration.
pub assume_specification[ Duration::as_secs ](d: &Duration) -> (secs: u64)
    ensures
        secs == duration_secs(*d),
;

/// `Duration::subsec_nanos`: assumed to return the fractional part of the
/// duration in nanoseconds, which is always below one billion.
pub assume_specification[ Duration::subsec_nanos ](d: &Duration) -> (sub: u32)
    ensures
        sub == duration_subsec_nanos(*d),
        sub < NANOS_PER_SEC,
;

/// `Duration::new`: assumed to build, from whole seconds and a number of
/// nanoseconds below one billion, the duration that has exactly these parts.
/// Larger nanosecond counts carry into the seconds and may panic, so they
/// are left out.
pub assume_specification[ Duration::new ](secs: u64, sub: u32) -> (d: Duration)
    requires
        sub < NANOS_PER_SEC,
    ensures
        duration_secs(d) == secs,
        duration_subsec_nanos(d) == sub,
;

/// `Duration::from_micros`: assumed to build the duration that lasts the
/// given number of microseconds.
pub assume_specification[ Duration::from_micros ](micros: u64) -> (d: Duration)
    ensures
        duration_secs(d) == micros / 1_000_000,
        duration_subsec_nanos(d) == (micros % 1_000_000) * 1_000,
;

/// The length of `d` in nanoseconds.
pub fn total_nanos(d: &Duration) -> (n: u128)
    ensures
        n == nanos(*d),
        n < (duration_secs(*d) + 1) * NANOS_PER_SEC,
{
    let secs: u64 = d.as_secs();
    let sub: u32 = d.subsec_nanos();
    assert(secs * NANOS_PER_SEC <= u64::MAX * NANOS_PER_SEC) by (nonlinear_arith)
        requires
            secs <= u64::MAX,
    ;
    (secs as u128) * (NANOS_PER_SEC as u128) + (sub as u128)
}

} // verus!
