//! The Fibonacci numbers, and how far they fit into 32 bits.

use vstd::prelude::*;

verus! {

/// The largest index whose Fibonacci number fits into a `u32`.
pub const MAX_INDEX: u32 = 47;

/// The `n`-th Fibonacci number: 0, 1, and from there on the sum of the two before.
pub open spec fn fib(n: nat) -> nat
    decreases n,
{
    if n < 2 {
        n
    } else {
        fib((n - 1) as nat) + fib((n - 2) as nat)
    }
}

/// The Fibonacci numbers never decrease.
pub proof fn lemma_fib_monotonic(i: nat, j: nat)
    requires
        i <= j,
    ensures
        fib(i) <= fib(j),
    decreases j,
{
    if i < j {
        if j >= 2 {
            lemma_fib_monotonic(i, (j - 1) as nat);
        }
    }
}

/// The two values on either side of the 32-bit limit.
pub proof fn lemma_fib_at_limit()
    ensures
        fib(MAX_INDEX as nat) == 2971215073,
        fib(MAX_INDEX as nat + 1) == 4807526976,
{
    // Each value is the sum of the two above it.
    assert(fib(0) == 0);
    assert(fib(1) == 1);
    assert(fib(2) == 1);
    assert(fib(3) == 2);
    assert(fib(4) == 3);
    assert(fib(5) == 5);
    assert(fib(6) == 8);
    assert(fib(7) == 13);
    assert(fib(8) == 21);
    assert(fib(9) == 34);
    assert(fib(10) == 55);
    assert(fib(11) == 89);
    assert(fib(12) == 144);
    assert(fib(13) == 233);
    assert(fib(14) == 377);
    assert(fib(15) == 610);
    assert(fib(16) == 987);
    assert(fib(17) == 1597);
    assert(fib(18) == 2584);
    assert(fib(19) == 4181);
    assert(fib(20) == 6765);
    assert(fib(21) == 10946);
    assert(fib(22) == 17711);
    assert(fib(23) == 28657);
    assert(fib(24) == 46368);
    assert(fib(25) == 75025);
    assert(fib(26) == 121393);
    assert(fib(27) == 196418);
    assert(fib(28) == 317811);
    assert(fib(29) == 514229);
    assert(fib(30) == 832040);
    assert(fib(31) == 1346269);
    assert(fib(32) == 2178309);
    assert(fib(33) == 3524578);
    assert(fib(34) == 5702887);
    assert(fib(35) == 9227465);
    assert(fib(36) == 14930352);
    assert(fib(37) == 24157817);
    assert(fib(38) == 39088169);
    assert(fib(39) == 63245986);
    assert(fib(40) == 102334155);
    assert(fib(41) == 165580141);
    assert(fib(42) == 267914296);
    assert(fib(43) == 433494437);
    assert(fib(44) == 701408733);
    assert(fib(45) == 1134903170);
    assert(fib(46) == 1836311903);
    assert(fib(47) == 2971215073);
    assert(fib(48) == 4807526976);
}

/// `fib(n)` fits into a `u32` exactly for `n` up to [`MAX_INDEX`].
pub proof fn lemma_fib_fits(n: nat)
    ensures
        fib(n) <= u32::MAX <==> n <= MAX_INDEX,
{
    lemma_fib_at_limit();
    if n <= MAX_INDEX {
        lemma_fib_monotonic(n, MAX_INDEX as nat);
    } else {
        lemma_fib_monotonic(MAX_INDEX as nat + 1, n);
    }
}

/// Computes `fib(n)` the naive way, by two recursive calls.
pub(crate) fn fib_recursive(n: u32) -> (value: u32)
    requires
        n <= MAX_INDEX,
    ensures
        value == fib(n as nat),
    decreases n,
{
    if n < 2 {
        n
    } else {
        proof {
            lemma_fib_fits(n as nat);
        }
        fib_recursive(n - 1) + fib_recursive(n - 2)
    }
}

} // verus!
