//! Rate scheduler: turns a target rate into the pause between two dispatches.

use vstd::prelude::*;

verus! {

/// Milliseconds in the one second that a rate is counted over.
pub const MILLIS_PER_SECOND: u64 = 1000;

/// The pause, in milliseconds, between two successive dispatches at `rate`
/// messages per second. A rate of zero asks for no pacing at all.
///
/// The quotient is truncated, never rounded: at 3 messages per second the pause
/// is 333 ms, so the realized rate lies slightly above the nominal one. This is
/// a known approximation and is kept as it is. For every 32-bit rate the whole
/// quotient is also what truncating the floating-point quotient gives.
pub open spec fn delay_ms(rate: nat) -> nat {
    if rate == 0 {
        0
    } else {
        1000nat / rate
    }
}

/// Computes the pause between two successive dispatches for a target rate.
pub fn delay_for(rate: u32) -> (delay: u64)
    ensures
        delay == delay_ms(rate as nat),
        rate == 0 ==> delay == 0,
        rate > 0 ==> delay * rate <= 1000 < (delay + 1) * rate,
{
    if rate == 0 {
        0
    } else {
        let per_second: u64 = rate as u64;
        let delay: u64 = MILLIS_PER_SECOND / per_second;
        proof {
            lemma_truncated_quotient(rate as nat);
        }
        delay
    }
}

/// The pause is the largest whole number of milliseconds that, taken `rate`
/// times, still fits in one second.
pub proof fn lemma_truncated_quotient(rate: nat)
    requires
        rate > 0,
    ensures
        delay_ms(rate) * rate <= 1000 < (delay_ms(rate) + 1) * rate,
{
    let q: nat = 1000nat / rate;
    let r: nat = 1000nat % rate;
    assert(1000 == rate * q + r && 0 <= r < rate) by (nonlinear_arith)
        requires
            rate > 0,
            q == 1000nat / rate,
            r == 1000nat % rate,
    ;
    assert(q * rate == rate * q && (q + 1) * rate == rate * q + rate) by (nonlinear_arith);
}

} // verus!
