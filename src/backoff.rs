//! Exponential backoff with a cap on each wait and a budget on the total
//! time, in whole milliseconds.

use vstd::arithmetic::power::pow;
use vstd::prelude::*;

verus! {

/// How long to wait between retries of a failed call, and for how long to
/// keep retrying at all.
#[derive(Clone, Copy, Debug, PartialEq, Eq, Structural)]
pub struct BackoffPolicy {
    /// The wait before the first retry.
    pub initial_interval_ms: u64,
    /// Each wait is the previous one times `multiplier_num / multiplier_den`.
    pub multiplier_num: u64,
    pub multiplier_den: u64,
    /// No single wait is longer than this.
    pub max_interval_ms: u64,
    /// No retry is scheduled to end later than this after the first attempt.
    pub max_elapsed_ms: u64,
}

pub open spec fn min_nat(a: nat, b: nat) -> nat {
    if a <= b {
        a
    } else {
        b
    }
}

impl BackoffPolicy {
    /// The multiplier is at least one and a capped wait times it fits in a `u64`.
    pub open spec fn is_valid(&self) -> bool {
        &&& self.multiplier_den > 0
        &&& self.multiplier_num >= self.multiplier_den
        &&& self.max_interval_ms * self.multiplier_num <= u64::MAX
    }

    /// The wait before retry `n` (counted from zero): the initial interval,
    /// each later one the previous one times the multiplier, rounded down,
    /// and none above the cap.
    pub open spec fn interval(&self, n: nat) -> nat
        decreases n,
    {
        if n == 0 {
            min_nat(self.initial_interval_ms as nat, self.max_interval_ms as nat)
        } else {
            min_nat(
                self.interval((n - 1) as nat) * self.multiplier_num as nat
                    / self.multiplier_den as nat,
                self.max_interval_ms as nat,
            )
        }
    }

    /// The policy of the task-queue client: one second, times one and a
    /// half, at most ten seconds per wait and two minutes in all.
    pub fn task_queue() -> (p: BackoffPolicy)
        ensures
            p == task_queue_policy(),
            p.is_valid(),
    {
        BackoffPolicy {
            initial_interval_ms: 1000,
            multiplier_num: 3,
            multiplier_den: 2,
            max_interval_ms: 10000,
            max_elapsed_ms: 120000,
        }
    }
}

/// No wait exceeds the cap, none is shorter than the one before, and none
/// exceeds the exact exponential `initial * multiplier^n`.
pub proof fn lemma_interval_schedule(policy: BackoffPolicy, n: nat)
    requires
        policy.is_valid(),
    ensures
        policy.interval(n) <= policy.max_interval_ms,
        policy.interval(n) <= policy.interval(n + 1),
        policy.interval(n) * pow(policy.multiplier_den as int, n) <= policy.initial_interval_ms
            * pow(policy.multiplier_num as int, n),
    decreases n,
{
    let num = policy.multiplier_num as int;
    let den = policy.multiplier_den as int;
    let cur = policy.interval(n) as int;
    assert(cur * num / den >= cur) by {
        assert(cur * num >= cur * den) by (nonlinear_arith)
            requires
                num >= den,
                cur >= 0,
        ;
        vstd::arithmetic::div_mod::lemma_div_is_ordered(cur * den, cur * num, den);
        vstd::arithmetic::div_mod::lemma_div_multiples_vanish(cur, den);
        assert(cur * den == den * cur) by (nonlinear_arith);
    }
    reveal(pow);
    if n == 0 {
        assert(pow(den, 0) == 1);
        assert(pow(num, 0) == 1);
    } else {
        let m = (n - 1) as nat;
        lemma_interval_schedule(policy, m);
        let prev = policy.interval(m) as int;
        let init = policy.initial_interval_ms as int;
        let pd = pow(den, m);
        let pn = pow(num, m);
        assert(cur <= prev * num / den);
        assert(cur * den <= prev * num) by {
            vstd::arithmetic::div_mod::lemma_fundamental_div_mod(prev * num, den);
            assert(den * ((prev * num) / den) <= prev * num) by {
                vstd::arithmetic::div_mod::lemma_mod_pos_bound(prev * num, den);
            }
            assert(cur * den <= ((prev * num) / den) * den) by (nonlinear_arith)
                requires
                    cur <= prev * num / den,
                    den > 0,
            ;
            assert(((prev * num) / den) * den == den * ((prev * num) / den)) by (nonlinear_arith);
        }
        assert(pow(den, n) == den * pd);
        assert(pow(num, n) == num * pn);
        assert(pd >= 0) by {
            vstd::arithmetic::power::lemma_pow_positive(den, m);
        }
        assert(cur * (den * pd) <= init * (num * pn)) by (nonlinear_arith)
            requires
                cur * den <= prev * num,
                prev * pd <= init * pn,
                pd >= 0,
                num >= 0,
                cur >= 0,
        ;
    }
}

/// The task-queue policy as a value.
pub open spec fn task_queue_policy() -> BackoffPolicy {
    BackoffPolicy {
        initial_interval_ms: 1000,
        multiplier_num: 3,
        multiplier_den: 2,
        max_interval_ms: 10000,
        max_elapsed_ms: 120000,
    }
}

proof fn lemma_growth_passes_cap(n: nat)
    requires
        n >= 6,
    ensures
        1000 * pow(3, n) >= 10000 * pow(2, n),
    decreases n,
{
    if n == 6 {
        reveal_with_fuel(pow, 7);
    } else {
        lemma_growth_passes_cap((n - 1) as nat);
        reveal(pow);
        let a = pow(3, (n - 1) as nat);
        let b = pow(2, (n - 1) as nat);
        vstd::arithmetic::power::lemma_pow_positive(2, (n - 1) as nat);
        assert(1000 * (3 * a) >= 10000 * (2 * b)) by (nonlinear_arith)
            requires
                1000 * a >= 10000 * b,
                b > 0,
        ;
    }
}

/// With the task-queue policy each wait is exactly `min(1000 * 1.5^n, 10000)`
/// milliseconds, rounded down: 1000, 1500, 2250, 3375, 5062, 7593, then
/// 10000 for every later retry.
pub proof fn lemma_task_queue_schedule(n: nat)
    ensures
        task_queue_policy().interval(n) == min_nat(
            (1000 * pow(3, n) / pow(2, n)) as nat,
            10000,
        ),
    decreases n,
{
    let p = task_queue_policy();
    if n <= 6 {
        reveal_with_fuel(pow, 7);
        reveal_with_fuel(BackoffPolicy::interval, 7);
        assert(p.interval(0) == 1000);
        assert(p.interval(1) == 1500);
        assert(p.interval(2) == 2250);
        assert(p.interval(3) == 3375);
        assert(p.interval(4) == 5062);
        assert(p.interval(5) == 7593);
        assert(p.interval(6) == 10000);
        assert(pow(3, 0) == 1 && pow(2, 0) == 1);
        assert(pow(3, 1) == 3 && pow(2, 1) == 2);
        assert(pow(3, 2) == 9 && pow(2, 2) == 4);
        assert(pow(3, 3) == 27 && pow(2, 3) == 8);
        assert(pow(3, 4) == 81 && pow(2, 4) == 16);
        assert(pow(3, 5) == 243 && pow(2, 5) == 32);
        assert(pow(3, 6) == 729 && pow(2, 6) == 64);
        if n == 0 {
        } else if n == 1 {
        } else if n == 2 {
        } else if n == 3 {
        } else if n == 4 {
        } else if n == 5 {
        } else {
            assert(1000 * 729 / 64 == 11390);
        }
    } else {
        lemma_task_queue_schedule((n - 1) as nat);
        lemma_growth_passes_cap((n - 1) as nat);
        lemma_growth_passes_cap(n);
        vstd::arithmetic::power::lemma_pow_positive(2, n);
        vstd::arithmetic::power::lemma_pow_positive(2, (n - 1) as nat);
        let top = 1000 * pow(3, n);
        let bottom = pow(2, n);
        assert(top / bottom >= 10000) by {
            vstd::arithmetic::div_mod::lemma_div_is_ordered(10000 * bottom, top, bottom);
            vstd::arithmetic::div_mod::lemma_div_multiples_vanish(10000, bottom);
            assert(10000 * bottom == bottom * 10000) by (nonlinear_arith);
        }
        let prev_top = 1000 * pow(3, (n - 1) as nat);
        let prev_bottom = pow(2, (n - 1) as nat);
        assert(prev_top / prev_bottom >= 10000) by {
            vstd::arithmetic::div_mod::lemma_div_is_ordered(10000 * prev_bottom, prev_top, prev_bottom);
            vstd::arithmetic::div_mod::lemma_div_multiples_vanish(10000, prev_bottom);
            assert(10000 * prev_bottom == prev_bottom * 10000) by (nonlinear_arith);
        }
        assert(p.interval((n - 1) as nat) == 10000);
    }
}

/// A backoff in progress: the policy, and how many retries it has granted.
pub struct Backoff {
    pub policy: BackoffPolicy,
    /// The wait that the next retry will get.
    pub current_interval_ms: u64,
    pub retries: Ghost<nat>,
}

impl Backoff {
    pub open spec fn wf(&self) -> bool {
        &&& self.policy.is_valid()
        &&& self.current_interval_ms == self.policy.interval(self.retries@)
    }

    pub fn new(policy: BackoffPolicy) -> (b: Backoff)
        requires
            policy.is_valid(),
        ensures
            b.wf(),
            b.policy == policy,
            b.retries@ == 0,
    {
        let first = if policy.initial_interval_ms <= policy.max_interval_ms {
            policy.initial_interval_ms
        } else {
            policy.max_interval_ms
        };
        Backoff { policy, current_interval_ms: first, retries: Ghost(0) }
    }

    /// Called after a failed attempt, `elapsed_ms` after the first one began.
    /// Grants the next wait of the schedule when waiting it still ends within
    /// the budget, and `None` (give up) otherwise.
    pub fn next_backoff(&mut self, elapsed_ms: u64) -> (r: Option<u64>)
        requires
            old(self).wf(),
        ensures
            final(self).wf(),
            final(self).policy == old(self).policy,
            match r {
                Some(wait) => {
                    &&& wait == old(self).policy.interval(old(self).retries@)
                    &&& elapsed_ms + wait <= old(self).policy.max_elapsed_ms
                    &&& final(self).retries@ == old(self).retries@ + 1
                },
                None => {
                    &&& elapsed_ms + old(self).policy.interval(old(self).retries@)
                        > old(self).policy.max_elapsed_ms
                    &&& final(self).retries@ == old(self).retries@
                },
            },
    {
        let wait = self.current_interval_ms;
        proof {
            lemma_interval_schedule(self.policy, self.retries@);
        }
        if elapsed_ms > self.policy.max_elapsed_ms || wait > self.policy.max_elapsed_ms
            - elapsed_ms {
            return None;
        }
        assert(wait * self.policy.multiplier_num <= self.policy.max_interval_ms
            * self.policy.multiplier_num) by (nonlinear_arith)
            requires
                wait <= self.policy.max_interval_ms,
        ;
        let grown = wait * self.policy.multiplier_num / self.policy.multiplier_den;
        self.current_interval_ms = if grown <= self.policy.max_interval_ms {
            grown
        } else {
            self.policy.max_interval_ms
        };
        self.retries = Ghost(self.retries@ + 1);
        Some(wait)
    }
}

} // verus!
