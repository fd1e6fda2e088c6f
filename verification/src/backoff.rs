//! Bounded exponential reconnect delays.

use std::time::Duration;
use vstd::arithmetic::power2::pow2;
use vstd::prelude::*;

use crate::time::{duration_as_nanos, duration_from_nanos, duration_nanos, max_duration_nanos};

verus! {

/// The exponent used after `attempts` failed attempts: the count, capped at 31.
pub open spec fn capped_exponent(attempts: nat) -> nat {
    if attempts < 31 { attempts } else { 31 }
}

/// The delay, in nanoseconds, handed out after `attempts` failed attempts:
/// `initial * 2^min(attempts, 31)`, never more than `maximum`.
pub open spec fn delay_nanos(initial: nat, maximum: nat, attempts: nat) -> nat {
    let grown = initial * pow2(capped_exponent(attempts));
    if grown < maximum { grown } else { maximum }
}

/// The abstract state of a backoff policy, with durations in nanoseconds.
pub ghost struct RetryBackoffView {
    pub attempts: nat,
    pub initial: nat,
    pub maximum: nat,
}

/// Bounded exponential reconnect delay without polling or busy retries.
#[derive(Clone, Copy, Debug)]
pub struct RetryBackoff {
    attempts: u32,
    initial: Duration,
    maximum: Duration,
}

impl View for RetryBackoff {
    type V = RetryBackoffView;

    closed spec fn view(&self) -> RetryBackoffView {
        RetryBackoffView {
            attempts: self.attempts as nat,
            initial: duration_nanos(self.initial),
            maximum: duration_nanos(self.maximum),
        }
    }
}

impl RetryBackoff {
    #[verifier::type_invariant]
    closed spec fn inv(self) -> bool {
        &&& 0 < duration_nanos(self.initial)
        &&& duration_nanos(self.initial) <= duration_nanos(self.maximum)
        &&& duration_nanos(self.maximum) <= max_duration_nanos()
    }

    /// Creates a bounded reconnect backoff policy; the initial delay must be
    /// nonzero and no greater than the maximum.
    pub fn new(initial: Duration, maximum: Duration) -> (backoff: Self)
        requires
            0 < duration_nanos(initial),
            duration_nanos(initial) <= duration_nanos(maximum),
        ensures
            backoff@ == (RetryBackoffView {
                attempts: 0,
                initial: duration_nanos(initial),
                maximum: duration_nanos(maximum),
            }),
    {
        let _ = duration_as_nanos(maximum);
        RetryBackoff { attempts: 0, initial, maximum }
    }

    /// Returns the next retry delay and increments the failed-attempt count.
    pub fn next_delay(&mut self) -> (delay: Duration)
        ensures
            duration_nanos(delay) == delay_nanos(old(self)@.initial, old(self)@.maximum, old(self)@.attempts),
            final(self)@ == (RetryBackoffView {
                attempts: if old(self)@.attempts < u32::MAX { old(self)@.attempts + 1 } else { old(self)@.attempts },
                ..old(self)@
            }),
    {
        proof {
            use_type_invariant(&*self);
        }
        let shift: u32 = if self.attempts < 31 { self.attempts } else { 31 };
        proof {
            vstd::bits::lemma_u32_pow2_no_overflow(shift as nat);
            vstd::bits::lemma_u32_shl_is_mul(1, shift);
        }
        let multiplier: u32 = 1u32 << shift;
        self.attempts = if self.attempts < u32::MAX { self.attempts + 1 } else { self.attempts };
        let initial = duration_as_nanos(self.initial);
        let maximum = duration_as_nanos(self.maximum);
        assert(initial * multiplier <= max_duration_nanos() * u32::MAX) by (nonlinear_arith)
            requires
                initial <= max_duration_nanos(),
                multiplier <= u32::MAX,
        ;
        let grown: u128 = initial * (multiplier as u128);
        let nanos = if grown < maximum { grown } else { maximum };
        duration_from_nanos(nanos)
    }

    /// Resets the policy after a successful peer connection.
    pub fn reset(&mut self)
        ensures
            final(self)@ == (RetryBackoffView { attempts: 0, ..old(self)@ }),
    {
        proof {
            use_type_invariant(&*self);
        }
        self.attempts = 0;
    }
}

/// Law: the first delay after creation or a reset is the initial delay.
pub proof fn lemma_first_delay_is_initial(initial: nat, maximum: nat)
    requires
        0 < initial <= maximum,
    ensures
        delay_nanos(initial, maximum, 0) == initial,
{
    vstd::arithmetic::power2::lemma2_to64();
    assert(initial * pow2(capped_exponent(0)) == initial * 1);
}

/// Law: every delay lies between the initial delay and the maximum.
pub proof fn lemma_delay_bounded(initial: nat, maximum: nat, attempts: nat)
    requires
        0 < initial <= maximum,
    ensures
        initial <= delay_nanos(initial, maximum, attempts) <= maximum,
{
    vstd::arithmetic::power2::lemma_pow2_pos(capped_exponent(attempts));
    vstd::arithmetic::mul::lemma_mul_increases(pow2(capped_exponent(attempts)) as int, initial as int);
    vstd::arithmetic::mul::lemma_mul_is_commutative(pow2(capped_exponent(attempts)) as int, initial as int);
}

/// Law: more failed attempts never give a shorter delay.
pub proof fn lemma_delay_monotone(initial: nat, maximum: nat, fewer: nat, more: nat)
    requires
        0 < initial <= maximum,
        fewer <= more,
    ensures
        delay_nanos(initial, maximum, fewer) <= delay_nanos(initial, maximum, more),
{
    let e1 = capped_exponent(fewer);
    let e2 = capped_exponent(more);
    if e1 < e2 {
        vstd::arithmetic::power2::lemma_pow2_strictly_increases(e1, e2);
    }
    vstd::arithmetic::mul::lemma_mul_inequality(pow2(e1) as int, pow2(e2) as int, initial as int);
    vstd::arithmetic::mul::lemma_mul_is_commutative(pow2(e1) as int, initial as int);
    vstd::arithmetic::mul::lemma_mul_is_commutative(pow2(e2) as int, initial as int);
}

/// Law: once the doubled delay reaches the maximum, every later delay is the maximum.
pub proof fn lemma_delay_caps(initial: nat, maximum: nat, reached: nat, later: nat)
    requires
        0 < initial <= maximum,
        delay_nanos(initial, maximum, reached) == maximum,
        reached <= later,
    ensures
        delay_nanos(initial, maximum, later) == maximum,
{
    lemma_delay_monotone(initial, maximum, reached, later);
    lemma_delay_bounded(initial, maximum, later);
}

} // verus!
