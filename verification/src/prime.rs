//! Prime numbers: the definition, and why trial division up to the square root
//! decides it.

use vstd::arithmetic::div_mod::{lemma_fundamental_div_mod, lemma_mod_multiples_basic};
use vstd::prelude::*;

verus! {

/// `d` divides `n`: `d` is positive and `n` is a whole multiple of it.
pub open spec fn divides(d: nat, n: nat) -> bool {
    d > 0 && n % d == 0
}

/// `n` is prime: it is at least 2 and its only divisors are 1 and `n` itself.
pub open spec fn is_prime_number(n: nat) -> bool {
    &&& n >= 2
    &&& forall|d: nat| #[trigger] divides(d, n) ==> d == 1 || d == n
}

/// No `i` from 2 up to the integer square root of `n` divides `n`.
///
/// `i * i <= n` says that `i` is at most the square root of `n`, rounded down.
pub open spec fn no_divisor_up_to_root(n: nat) -> bool {
    forall|i: nat| 2 <= i && i * i <= n ==> !#[trigger] divides(i, n)
}

/// A divisor of `n` other than 1 and `n` shows that `n` is not prime.
pub proof fn lemma_proper_divisor_refutes(n: nat, d: nat)
    requires
        divides(d, n),
        d != 1,
        d != n,
    ensures
        !is_prime_number(n),
{
}

/// The cofactor of a divisor: if `d` divides a positive `n`, then so does `n / d`,
/// and the two multiply to `n`.
pub proof fn lemma_cofactor(n: nat, d: nat)
    requires
        n > 0,
        divides(d, n),
    ensures
        d * (n / d) == n,
        n / d > 0,
        divides(n / d, n),
{
    let k: nat = n / d;
    lemma_fundamental_div_mod(n as int, d as int);
    assert(d * k == n);
    assert(k > 0) by (nonlinear_arith)
        requires
            d * k == n,
            n > 0,
    {}
    lemma_mod_multiples_basic(d as int, k as int);
}

/// If nothing from 2 up to `bound - 1` divides `n`, and `bound` is already
/// beyond the square root of `n`, then `n` is prime.
pub proof fn lemma_no_divisor_below_bound(n: nat, bound: nat)
    requires
        n >= 2,
        bound * bound > n,
        forall|d: nat| 2 <= d < bound ==> !#[trigger] divides(d, n),
    ensures
        is_prime_number(n),
{
    assert forall|d: nat| #[trigger] divides(d, n) implies d == 1 || d == n by {
        if d != 1 && d != n {
            let k: nat = n / d;
            lemma_cofactor(n, d);
            // Of the two factors d and k, at least one lies below the bound.
            assert(d < bound || k < bound) by (nonlinear_arith)
                requires
                    d * k == n,
                    bound * bound > n,
            {}
            assert(k != 1 && d >= 2) by (nonlinear_arith)
                requires
                    d * k == n,
                    d != n,
                    d != 1,
                    d > 0,
            {}
            assert(k >= 2);
            if d < bound {
                assert(!divides(d, n));
            } else {
                assert(!divides(k, n));
            }
        }
    }
}

/// Trial division is exact: `n` is prime if and only if it is at least 2 and
/// nothing from 2 up to its integer square root divides it.
pub proof fn lemma_trial_division(n: nat)
    ensures
        is_prime_number(n) <==> (n >= 2 && no_divisor_up_to_root(n)),
{
    if is_prime_number(n) {
        assert forall|i: nat| 2 <= i && i * i <= n implies !#[trigger] divides(i, n) by {
            assert(i != n) by (nonlinear_arith)
                requires
                    2 <= i,
                    i * i <= n,
            {}
        }
    }
    if n >= 2 && no_divisor_up_to_root(n) {
        assert forall|d: nat| #[trigger] divides(d, n) implies d == 1 || d == n by {
            if d != 1 && d != n {
                let k: nat = n / d;
                lemma_cofactor(n, d);
                assert(k != 1 && d >= 2) by (nonlinear_arith)
                    requires
                        d * k == n,
                        d != n,
                        d != 1,
                        d > 0,
                {}
                assert(d * d <= n || k * k <= n) by (nonlinear_arith)
                    requires
                        d * k == n,
                {}
                if d * d <= n {
                    assert(!divides(d, n));
                } else {
                    assert(!divides(k, n));
                }
            }
        }
    }
}

} // verus!
