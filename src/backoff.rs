//! Exponential retry policy: the n-th delay since the last reset is
//! `min(base * multiplier^n, cap)` seconds.

use vstd::prelude::*;
use vstd::arithmetic::power::pow;

verus! {

/// Delay, in seconds, before the retry that follows `attempts` failures.
pub open spec fn delay_for(base: u64, cap: u64, multiplier: u64, attempts: nat) -> int {
    let d = base * pow(multiplier as int, attempts);
    if d <= cap { d } else { cap as int }
}

/// Stateful retry policy for one retry loop.
pub struct Backoff {
    base: u64,
    cap: u64,
    multiplier: u64,
    attempts: u64,
    next: u64,
}

proof fn lemma_pow_nonneg(b: int, e: nat)
    requires
        b >= 0,
    ensures
        pow(b, e) >= 0,
    decreases e,
{
    reveal(pow);
    if e > 0 {
        lemma_pow_nonneg(b, (e - 1) as nat);
        assert(b * pow(b, (e - 1) as nat) >= 0) by (nonlinear_arith)
            requires
                b >= 0,
                pow(b, (e - 1) as nat) >= 0,
        ;
    }
}

proof fn lemma_delay_step(base: u64, cap: u64, m: u64, k: nat)
    ensures
        delay_for(base, cap, m, k + 1) == ({
            let p = delay_for(base, cap, m, k) * m;
            if p <= cap { p } else { cap as int }
        }),
{
    let y = base * pow(m as int, k);
    assert(pow(m as int, k + 1) == m * pow(m as int, k)) by {
        vstd::arithmetic::power::lemma_pow_adds(m as int, 1, k);
        vstd::arithmetic::power::lemma_pow1(m as int);
    }
    assert(base * pow(m as int, k + 1) == y * m) by (nonlinear_arith)
        requires
            pow(m as int, k + 1) == m * pow(m as int, k),
            y == base * pow(m as int, k),
    ;
    lemma_pow_nonneg(m as int, k);
    assert(y >= 0) by (nonlinear_arith)
        requires
            pow(m as int, k) >= 0,
            y == base * pow(m as int, k),
    ;
    assert(delay_for(base, cap, m, k) == if y <= cap { y } else { cap as int });
    assert(delay_for(base, cap, m, k + 1) == if y * m <= cap { y * m } else { cap as int });
    if y > cap {
        if m >= 1 {
            assert(y * m >= y) by (nonlinear_arith)
                requires
                    y >= 0,
                    m >= 1,
            ;
            assert(cap * m >= cap) by (nonlinear_arith)
                requires
                    m >= 1,
            ;
        } else {
            assert(y * m == 0) by (nonlinear_arith)
                requires
                    m == 0,
            ;
            assert(cap * m == 0) by (nonlinear_arith)
                requires
                    m == 0,
            ;
        }
    }
}

impl Backoff {
    pub closed spec fn spec_base(&self) -> u64 {
        self.base
    }

    pub closed spec fn spec_cap(&self) -> u64 {
        self.cap
    }

    pub closed spec fn spec_multiplier(&self) -> u64 {
        self.multiplier
    }

    /// Failures since the last reset.
    pub closed spec fn spec_attempts(&self) -> nat {
        self.attempts as nat
    }

    pub closed spec fn wf(&self) -> bool {
        self.next == delay_for(self.base, self.cap, self.multiplier, self.attempts as nat)
    }

    /// A policy with no failure recorded yet.
    pub fn new(base: u64, cap: u64, multiplier: u64) -> (r: Backoff)
        ensures
            r.wf(),
            r.spec_base() == base,
            r.spec_cap() == cap,
            r.spec_multiplier() == multiplier,
            r.spec_attempts() == 0,
    {
        proof {
            vstd::arithmetic::power::lemma_pow0(multiplier as int);
        }
        Backoff { base, cap, multiplier, attempts: 0, next: if base <= cap { base } else { cap } }
    }

    pub fn attempts(&self) -> (r: u64)
        ensures
            r == self.spec_attempts(),
    {
        self.attempts
    }

    /// The delay that the next failure will wait, without recording it.
    pub fn peek_delay(&self) -> (r: u64)
        requires
            self.wf(),
        ensures
            r == delay_for(self.spec_base(), self.spec_cap(), self.spec_multiplier(), self.spec_attempts()),
    {
        self.next
    }

    /// Records a failure: returns how many seconds to wait before retrying,
    /// `min(base * multiplier^attempts, cap)`, and counts one more attempt.
    pub fn next_delay(&mut self) -> (r: u64)
        requires
            old(self).wf(),
            old(self).spec_attempts() < u64::MAX,
        ensures
            final(self).wf(),
            r == delay_for(old(self).spec_base(), old(self).spec_cap(), old(self).spec_multiplier(), old(self).spec_attempts()),
            final(self).spec_attempts() == old(self).spec_attempts() + 1,
            final(self).spec_base() == old(self).spec_base(),
            final(self).spec_cap() == old(self).spec_cap(),
            final(self).spec_multiplier() == old(self).spec_multiplier(),
    {
        let r = self.next;
        proof {
            lemma_delay_step(self.base, self.cap, self.multiplier, self.attempts as nat);
        }
        let m = self.multiplier;
        let following = if m == 0 {
            0
        } else if r > self.cap / m {
            proof {
                assert(r * m > self.cap) by (nonlinear_arith)
                    requires
                        r > self.cap / m,
                        m > 0,
                ;
            }
            self.cap
        } else {
            proof {
                assert(r * m <= self.cap) by (nonlinear_arith)
                    requires
                        r <= self.cap / m,
                        m > 0,
                ;
            }
            r * m
        };
        self.next = following;
        self.attempts = self.attempts + 1;
        r
    }

    /// Forgets all failures: the next delay is the base again (within the cap).
    pub fn reset(&mut self)
        ensures
            final(self).wf(),
            final(self).spec_attempts() == 0,
            final(self).spec_base() == old(self).spec_base(),
            final(self).spec_cap() == old(self).spec_cap(),
            final(self).spec_multiplier() == old(self).spec_multiplier(),
    {
        proof {
            vstd::arithmetic::power::lemma_pow0(self.multiplier as int);
        }
        self.attempts = 0;
        self.next = if self.base <= self.cap { self.base } else { self.cap };
    }
}

/// Successive delays without a reset never decrease (for a multiplier of at
/// least one) and never exceed the cap; after a reset the delay is the base,
/// or the cap when the base exceeds it.
pub proof fn lemma_backoff_delays(base: u64, cap: u64, multiplier: u64, k: nat)
    requires
        multiplier >= 1,
    ensures
        delay_for(base, cap, multiplier, k) <= delay_for(base, cap, multiplier, k + 1),
        0 <= delay_for(base, cap, multiplier, k) <= cap,
        delay_for(base, cap, multiplier, 0) == if base <= cap { base as int } else { cap as int },
{
    lemma_delay_step(base, cap, multiplier, k);
    vstd::arithmetic::power::lemma_pow0(multiplier as int);
    lemma_pow_nonneg(multiplier as int, k);
    let d = delay_for(base, cap, multiplier, k);
    assert(base * pow(multiplier as int, k) >= 0) by (nonlinear_arith)
        requires
            pow(multiplier as int, k) >= 0,
    ;
    assert(d * multiplier >= d) by (nonlinear_arith)
        requires
            d >= 0,
            multiplier >= 1,
    ;
}

} // verus!
