//! Durations and monotonic instants, reasoned about by their length in nanoseconds.

use std::time::{Duration, Instant};
use vstd::prelude::*;

verus! {

/// A reading of the monotonic clock; its value is opaque to proofs, which go
/// through `instant_ticks`.
#[verifier::external_type_specification]
#[verifier::external_body]
pub struct ExInstant(Instant);

/// The largest number of nanoseconds a `Duration` can hold:
/// `u64::MAX` whole seconds plus 999,999,999 nanoseconds.
pub open spec fn max_duration_nanos() -> nat {
    18446744073709551615nat * 1_000_000_000 + 999_999_999
}

/// The total length of a `Duration` in nanoseconds, as `Duration::as_nanos` reports it.
pub uninterp spec fn duration_nanos(d: Duration) -> nat;

/// The position of an `Instant` on the monotonic clock, in nanoseconds from an
/// unspecified origin; comparisons and differences of instants follow it.
pub uninterp spec fn instant_ticks(i: Instant) -> int;

/// Calls `Duration::as_nanos`, which returns the total number of nanoseconds
/// the duration holds; a duration holds at most `u64::MAX` seconds and
/// 999,999,999 nanoseconds.
#[verifier::external_body]
pub(crate) fn duration_as_nanos(d: Duration) -> (n: u128)
    ensures
        n == duration_nanos(d),
        n <= max_duration_nanos(),
{
    d.as_nanos()
}

/// Calls `Duration::new` with a sub-second part below one second, where no
/// carry (and so no panic) occurs; the result holds `secs` seconds and
/// `subsec_nanos` nanoseconds.
#[verifier::external_body]
pub(crate) fn duration_from_parts(secs: u64, subsec_nanos: u32) -> (d: Duration)
    requires
        subsec_nanos < 1_000_000_000,
    ensures
        duration_nanos(d) == secs * 1_000_000_000 + subsec_nanos,
{
    Duration::new(secs, subsec_nanos)
}

/// Builds the `Duration` that holds exactly `nanos` nanoseconds.
pub fn duration_from_nanos(nanos: u128) -> (d: Duration)
    requires
        nanos <= max_duration_nanos(),
    ensures
        duration_nanos(d) == nanos,
{
    let secs = nanos / 1_000_000_000;
    let subsec = nanos % 1_000_000_000;
    assert(secs <= u64::MAX) by (nonlinear_arith)
        requires
            nanos <= 18446744073709551615nat * 1_000_000_000 + 999_999_999,
            secs == nanos / 1_000_000_000,
    ;
    assert(secs * 1_000_000_000 + subsec == nanos) by (nonlinear_arith)
        requires
            secs == nanos / 1_000_000_000,
            subsec == nanos % 1_000_000_000,
    ;
    duration_from_parts(secs as u64, subsec as u32)
}

/// Calls `Instant::now`, a reading of the monotonic clock; nothing is known
/// of the value it returns.
#[verifier::external_body]
pub(crate) fn instant_now() -> (now: Instant) {
    Instant::now()
}

/// Whether the instant `nanos` nanoseconds after clock position `ticks` can be
/// represented, as `Instant::checked_add` decides it.
pub uninterp spec fn instant_add_fits(ticks: int, nanos: nat) -> bool;

/// Calls `Instant::checked_add`, which returns the instant `d` later than `i`,
/// or `None` where that instant cannot be represented.
#[verifier::external_body]
pub(crate) fn instant_checked_add(i: Instant, d: Duration) -> (r: Option<Instant>)
    ensures
        r is Some <==> instant_add_fits(instant_ticks(i), duration_nanos(d)),
        r matches Some(later) ==> instant_ticks(later) == instant_ticks(i) + duration_nanos(d),
{
    i.checked_add(d)
}

/// Calls `Instant::duration_since`, which returns the time elapsed from
/// `earlier` to `later`, or zero when `earlier` is the later of the two.
#[verifier::external_body]
pub(crate) fn instant_duration_since(later: Instant, earlier: Instant) -> (d: Duration)
    ensures
        duration_nanos(d) == if instant_ticks(later) >= instant_ticks(earlier) {
            instant_ticks(later) - instant_ticks(earlier)
        } else {
            0
        },
{
    later.duration_since(earlier)
}

/// Compares two instants with `>=`, which orders them by their position on
/// the monotonic clock.
#[verifier::external_body]
pub(crate) fn instant_not_before(now: Instant, deadline: Instant) -> (r: bool)
    ensures
        r == (instant_ticks(now) >= instant_ticks(deadline)),
{
    now >= deadline
}

} // verus!
