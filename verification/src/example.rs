//! A task to try a worker with: the factorial.

use vstd::prelude::*;

verus! {

/// The factorial of `n`.
pub open spec fn factorial(n: nat) -> nat
    decreases n,
{
    if n == 0 {
        1
    } else {
        n * factorial((n - 1) as nat)
    }
}

/// The greatest argument whose factorial fits in an `i64`.
pub const FACTORIAL_MAX: i64 = 20;

/// The factorial grows with its argument.
pub proof fn lemma_factorial_grows(m: nat, n: nat)
    requires
        m <= n,
    ensures
        1 <= factorial(m) <= factorial(n),
    decreases n,
{
    if n == 0 {
    } else if m == n {
        lemma_factorial_grows((m - 1) as nat, (n - 1) as nat);
        assert(1 <= m * factorial((m - 1) as nat)) by (nonlinear_arith)
            requires
                1 <= m,
                1 <= factorial((m - 1) as nat),
        ;
    } else {
        lemma_factorial_grows(m, (n - 1) as nat);
        assert(factorial((n - 1) as nat) <= n * factorial((n - 1) as nat)) by (nonlinear_arith)
            requires
                1 <= n,
                1 <= factorial((n - 1) as nat),
        ;
    }
}

/// The factorial of 20, the last that fits.
pub proof fn lemma_factorial_of_twenty()
    ensures
        factorial(20) == 2432902008176640000,
{
    reveal_with_fuel(factorial, 21);
}

/// Computes the factorial of `n`.
pub fn f(n: i64) -> (product: i64)
    requires
        0 <= n <= FACTORIAL_MAX,
    ensures
        product == factorial(n as nat),
    decreases n,
{
    match n {
        0 => 1,
        _ => {
            let rest: i64 = f(n - 1);
            proof {
                lemma_factorial_grows(n as nat, 20);
                lemma_factorial_of_twenty();
            }
            n * rest
        },
    }
}

} // verus!
