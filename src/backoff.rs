//! The backoff calculator: how long a failed task waits before its next attempt.

use crate::task::BackoffStrategy;
use crate::time::Delay;
use vstd::prelude::*;

verus! {

/// `b` raised to the power `e`.
pub open spec fn pow(b: nat, e: nat) -> nat
    decreases e,
{
    if e == 0 {
        1
    } else {
        b * pow(b, (e - 1) as nat)
    }
}

pub open spec fn min(a: int, b: int) -> int {
    if a <= b {
        a
    } else {
        b
    }
}

/// The delay, in milliseconds, before attempt `attempt`: a fixed delay, or
/// `base * factor ^ attempt` clamped to `max_delay`.
pub open spec fn backoff_millis(attempt: nat, strategy: BackoffStrategy) -> int {
    match strategy {
        BackoffStrategy::Fixed(d) => d.millis as int,
        BackoffStrategy::Exponential { base, factor, max_delay } => min(
            base.millis * pow(factor as nat, attempt),
            max_delay.millis as int,
        ),
    }
}

proof fn lemma_pow_one(e: nat)
    ensures
        pow(1, e) == 1,
    decreases e,
{
    if e > 0 {
        lemma_pow_one((e - 1) as nat);
    }
}

proof fn lemma_pow_zero(e: nat)
    requires
        e > 0,
    ensures
        pow(0, e) == 0,
{
}

/// With `b >= 1`, powers of `b` do not decrease as the exponent grows.
proof fn lemma_pow_grows(b: nat, i: nat, n: nat)
    requires
        b >= 1,
        i <= n,
    ensures
        pow(b, i) <= pow(b, n),
        pow(b, i) >= 1,
    decreases n,
{
    if n > 0 {
        if i < n {
            lemma_pow_grows(b, i, (n - 1) as nat);
        } else {
            lemma_pow_grows(b, (n - 1) as nat, (n - 1) as nat);
        }
        let p = pow(b, (n - 1) as nat);
        assert(b * p >= p) by (nonlinear_arith)
            requires
                b >= 1,
                p >= 1,
        ;
    }
}

/// The delay before attempt `attempt` under `strategy`. An exponential delay
/// is computed without overflow at any attempt count and never exceeds its
/// `max_delay`.
pub fn compute_backoff(attempt: u32, strategy: &BackoffStrategy) -> (r: Delay)
    ensures
        r.millis == backoff_millis(attempt as nat, *strategy),
{
    match strategy {
        BackoffStrategy::Fixed(d) => Delay { millis: d.millis },
        BackoffStrategy::Exponential { base, factor, max_delay } => {
            let b = base.millis;
            let f = *factor;
            let cap = max_delay.millis;
            if attempt > 0 && f == 0 {
                proof {
                    lemma_pow_zero(attempt as nat);
                }
                return Delay { millis: 0 };
            }
            let mut acc: u64 = if b <= cap {
                b
            } else {
                cap
            };
            let mut i: u32 = 0;
            while i < attempt && 0 < acc && acc < cap && f > 1
                invariant
                    i <= attempt,
                    f >= 1 || attempt == 0,
                    b == base.millis,
                    cap == max_delay.millis,
                    acc as int == min(b * pow(f as nat, i as nat), cap as int),
                decreases attempt - i,
            {
                proof {
                    let p = pow(f as nat, i as nat);
                    assert(b * pow(f as nat, (i + 1) as nat) == (b * p) * f) by (nonlinear_arith)
                        requires
                            pow(f as nat, (i + 1) as nat) == f * p,
                    ;
                    assert(acc as int == b * p);
                    assert((acc as int) * (f as int) <= (u64::MAX as int) * (u32::MAX as int))
                        by (nonlinear_arith)
                        requires
                            acc <= u64::MAX,
                            f <= u32::MAX,
                    ;
                }
                let next: u128 = acc as u128 * f as u128;
                acc = if next <= cap as u128 {
                    next as u64
                } else {
                    cap
                };
                i = i + 1;
            }
            proof {
                let n = attempt as nat;
                let fi = f as nat;
                if i < attempt {
                    if f == 1 {
                        lemma_pow_one(i as nat);
                        lemma_pow_one(n);
                    } else {
                        lemma_pow_grows(fi, i as nat, n);
                        let pi = pow(fi, i as nat);
                        let pn = pow(fi, n);
                        if acc == 0 {
                            if cap > 0 {
                                assert(b * pi == 0);
                                assert(b * pn == 0) by (nonlinear_arith)
                                    requires
                                        b * pi == 0,
                                        pi >= 1,
                                ;
                            }
                        } else {
                            assert(b * pn >= b * pi) by (nonlinear_arith)
                                requires
                                    pn >= pi,
                                    b >= 0,
                            ;
                        }
                    }
                }
            }
            Delay { millis: acc }
        },
    }
}

/// An exponential backoff never exceeds its `max_delay`, at any attempt count.
pub proof fn lemma_exponential_within_max(
    attempt: nat,
    base: Delay,
    factor: u32,
    max_delay: Delay,
)
    ensures
        backoff_millis(attempt, BackoffStrategy::Exponential { base, factor, max_delay })
            <= max_delay.millis,
        0 <= backoff_millis(attempt, BackoffStrategy::Exponential { base, factor, max_delay }),
{
    assert(base.millis * pow(factor as nat, attempt) >= 0) by (nonlinear_arith);
}

} // verus!
