//! Timing of the pool under load. With `n` workers and `k` jobs of equal
//! duration `d`, first-come-first-served dispatch runs the jobs in rounds
//! of at most `n`; everything is done after `ceil(k / n)` rounds, and not
//! earlier. This is the bounded-concurrency behaviour the fixed pool size
//! buys: a saturated pool delays the excess jobs, it never drops them.

use vstd::prelude::*;

verus! {

use vstd::arithmetic::div_mod::lemma_div_is_ordered;
use vstd::arithmetic::div_mod::lemma_div_is_ordered_by_denominator;
use vstd::arithmetic::div_mod::lemma_fundamental_div_mod;
use vstd::arithmetic::div_mod::lemma_fundamental_div_mod_converse_div;
use vstd::arithmetic::mul::lemma_mul_inequality;

/// How many rounds it takes `n` workers to drain `k` jobs: `ceil(k / n)`.
pub open spec fn rounds(k: nat, n: nat) -> nat
    recommends
        n >= 1,
{
    ((k + n - 1) / (n as int)) as nat
}

/// Under first-come-first-served dispatch of jobs of equal duration `d`,
/// job `i` (counting from zero) runs in round `i / n` and is finished at
/// this time.
pub open spec fn finish_time(i: nat, n: nat, d: nat) -> nat
    recommends
        n >= 1,
{
    (((i as int) / (n as int) + 1) * d) as nat
}

proof fn lemma_div_succ(x: int, n: int)
    requires
        n > 0,
        x >= 0,
    ensures
        (x + n) / n == x / n + 1,
{
    lemma_fundamental_div_mod(x, n);
    assert(x + n == (x / n + 1) * n + x % n) by (nonlinear_arith)
        requires
            x == n * (x / n) + x % n,
    ;
    lemma_fundamental_div_mod_converse_div(x + n, n, x / n + 1, x % n);
}

/// Law: bounded concurrency in time. For every pool size `n >= 1`, each of
/// `k` jobs of duration `d` finishes no later than `ceil(k / n) * d`, and
/// the last job finishes exactly then: `k` jobs complete in
/// `ceil(k / n) * d` wall-clock time, no sooner and no later.
pub proof fn lemma_bounded_concurrency(k: nat, n: nat, d: nat)
    requires
        n >= 1,
        k >= 1,
    ensures
        forall|i: nat| i < k ==> #[trigger] finish_time(i, n, d) <= rounds(k, n) * d,
        finish_time((k - 1) as nat, n, d) == rounds(k, n) * d,
{
    lemma_div_succ(k as int - 1, n as int);
    assert(rounds(k, n) == (k as int - 1) / (n as int) + 1);
    assert forall|i: nat| i < k implies #[trigger] finish_time(i, n, d) <= rounds(k, n) * d by {
        lemma_div_is_ordered(i as int, k as int - 1, n as int);
        lemma_mul_inequality(
            (i as int) / (n as int) + 1,
            (k as int - 1) / (n as int) + 1,
            d as int,
        );
    }
}

/// Law: bounded concurrency in space. Job `i` runs in round `s` exactly
/// when `i` lies in `[n * s, n * s + n)`: no round runs more than `n` jobs
/// at once.
pub proof fn lemma_round_capacity(i: nat, n: nat, s: nat)
    requires
        n >= 1,
    ensures
        ((i as int) / (n as int) == s) <==> (n * s <= i < n * s + n),
{
    lemma_fundamental_div_mod(i as int, n as int);
    if (i as int) / (n as int) == s {
        assert(i == n * s + (i as int) % (n as int));
    }
    if n * s <= i < n * s + n {
        assert(i as int == s * (n as int) + (i - n * s)) by (nonlinear_arith);
        lemma_fundamental_div_mod_converse_div(i as int, n as int, s as int, i - n * s);
    }
}

/// The wall-clock completion bound for `k` jobs of duration `d` on `n`
/// workers: `ceil(k / n) * d`.
pub fn completion_bound(k: u64, n: u64, d: u64) -> (t: u64)
    requires
        n >= 1,
        k >= 1,
        rounds(k as nat, n as nat) * d <= u64::MAX,
    ensures
        t == rounds(k as nat, n as nat) * d,
{
    proof {
        lemma_div_succ(k as int - 1, n as int);
        lemma_div_is_ordered_by_denominator(k as int - 1, 1, n as int);
    }
    let r = (k - 1) / n + 1;
    r * d
}

} // verus!
