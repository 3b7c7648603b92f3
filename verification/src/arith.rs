//! Small exercises in integer arithmetic: a sum and the factorial.

use vstd::prelude::*;

verus! {

/// Adds two numbers whose sum is an `i32`.
pub fn add(x: i32, y: i32) -> (sum: i32)
    requires
        i32::MIN <= x + y <= i32::MAX,
    ensures
        sum == x + y,
{
    x + y
}

/// The factorial of `n`: the product of the numbers from 1 to `n`.
pub open spec fn spec_factorial(n: nat) -> nat
    decreases n,
{
    if n <= 1 {
        1
    } else {
        n * spec_factorial((n - 1) as nat)
    }
}

/// The factorial is never zero and never falls as its argument grows.
pub proof fn lemma_factorial_monotonic(low: nat, high: nat)
    requires
        low <= high,
    ensures
        1 <= spec_factorial(low) <= spec_factorial(high),
    decreases high,
{
    if high <= 1 {
    } else if low == high {
        lemma_factorial_monotonic(0, (high - 1) as nat);
        assert(1 <= high * spec_factorial((high - 1) as nat)) by (nonlinear_arith)
            requires
                high >= 1,
                spec_factorial((high - 1) as nat) >= 1,
        ;
    } else {
        lemma_factorial_monotonic(low, (high - 1) as nat);
        assert(spec_factorial((high - 1) as nat) <= high * spec_factorial((high - 1) as nat))
            by (nonlinear_arith)
            requires
                high >= 1,
        ;
    }
}

/// The factorial of 20 is the largest that a `u64` holds.
pub proof fn lemma_factorial_limit(n: nat)
    ensures
        spec_factorial(20) == 2432902008176640000,
        n <= 20 <==> spec_factorial(n) <= u64::MAX,
{
    assert(spec_factorial(1) == 1);
    assert(spec_factorial(2) == 2);
    assert(spec_factorial(3) == 6);
    assert(spec_factorial(4) == 24);
    assert(spec_factorial(5) == 120);
    assert(spec_factorial(6) == 720);
    assert(spec_factorial(7) == 5040);
    assert(spec_factorial(8) == 40320);
    assert(spec_factorial(9) == 362880);
    assert(spec_factorial(10) == 3628800);
    assert(spec_factorial(11) == 39916800);
    assert(spec_factorial(12) == 479001600);
    assert(spec_factorial(13) == 6227020800);
    assert(spec_factorial(14) == 87178291200);
    assert(spec_factorial(15) == 1307674368000);
    assert(spec_factorial(16) == 20922789888000);
    assert(spec_factorial(17) == 355687428096000);
    assert(spec_factorial(18) == 6402373705728000);
    assert(spec_factorial(19) == 121645100408832000);
    assert(spec_factorial(20) == 2432902008176640000);
    assert(spec_factorial(21) == 51090942171709440000);
    if n <= 20 {
        lemma_factorial_monotonic(n, 20);
    } else {
        lemma_factorial_monotonic(21, n);
    }
}

/// Computes the factorial of a number whose factorial is a `u64`.
pub fn factorial(input_number: u64) -> (product: u64)
    requires
        spec_factorial(input_number as nat) <= u64::MAX,
    ensures
        product == spec_factorial(input_number as nat),
    decreases input_number,
{
    if input_number <= 1 {
        return 1;
    }
    proof {
        lemma_factorial_monotonic((input_number - 1) as nat, input_number as nat);
    }
    input_number * factorial(input_number - 1)
}

/// Computes the factorial of a number, or `None` where it is too large for
/// a `u64`, which is so from 21 on.
pub fn checked_factorial(input_number: u64) -> (product: Option<u64>)
    ensures
        product.is_some() <==> input_number <= 20,
        product matches Some(value) ==> value == spec_factorial(input_number as nat),
        product.is_none() ==> spec_factorial(input_number as nat) > u64::MAX,
{
    proof {
        lemma_factorial_limit(input_number as nat);
    }
    if input_number <= 20 {
        Some(factorial(input_number))
    } else {
        None
    }
}

} // verus!
