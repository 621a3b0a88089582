//! Small arithmetic and greeting utilities for a host that calls them across a
//! foreign-function boundary.
//!
//! Every operation computes a pure result and appends exactly one line to the
//! [`Journal`] that the caller hands in; nothing else is touched. The host owns
//! the journal and forwards its lines to wherever it logs.
//!
//! Overflow policy: [`add`] wraps around in two's complement, [`fibonacci`]
//! refuses with [`OverflowError`] what does not fit into 32 bits.

use crate::decimal::{decimal, push_decimal, push_signed_decimal, signed_decimal};
use crate::fib::{fib, fib_recursive, lemma_fib_fits, MAX_INDEX};
use crate::journal::Journal;
use crate::prime::{
    divides, is_prime_number, lemma_no_divisor_below_bound, lemma_proper_divisor_refutes,
    lemma_trial_division, no_divisor_up_to_root,
};
use vstd::prelude::*;

pub mod decimal;
pub mod fib;
pub mod journal;
pub mod prime;

verus! {

/// A Fibonacci number was asked for that does not fit into 32 bits.
#[derive(Clone, Copy, Debug, PartialEq, Eq)]
pub struct OverflowError;

/// The value that `x` wraps around to in 32-bit two's complement: the one integer
/// in the range of `i32` that differs from `x` by a multiple of 2^32.
pub open spec fn wrap_i32(x: int) -> int {
    (x + 0x8000_0000) % 0x1_0000_0000 - 0x8000_0000
}

/// Wrapping is what its description says: the result lies in the range of `i32`,
/// differs from `x` by a multiple of 2^32, is the only such integer, and is `x`
/// itself whenever `x` is in range.
pub proof fn lemma_wrap_i32(x: int, y: int)
    ensures
        i32::MIN <= wrap_i32(x) <= i32::MAX,
        (wrap_i32(x) - x) % 0x1_0000_0000 == 0,
        i32::MIN <= y <= i32::MAX && (y - x) % 0x1_0000_0000 == 0 ==> y == wrap_i32(x),
        i32::MIN <= x <= i32::MAX ==> wrap_i32(x) == x,
{
}

/// The line that [`add`] logs.
pub open spec fn add_message(a: int, b: int) -> Seq<char> {
    "Adding "@ + signed_decimal(a) + " + "@ + signed_decimal(b)
}

/// The line that [`fibonacci`] logs.
pub open spec fn fibonacci_message(n: nat) -> Seq<char> {
    "Computing fibonacci("@ + decimal(n) + ")"@
}

/// The line that [`is_prime`] logs.
pub open spec fn is_prime_message(n: nat) -> Seq<char> {
    "Checking if "@ + decimal(n) + " is prime"@
}

/// The greeting for `name`: the fixed text `Hello from <caller>, ` with its angle
/// brackets as they stand, then the name unchanged, then `!`.
pub open spec fn greeting(name: Seq<char>) -> Seq<char> {
    "Hello from <caller>, "@ + name + "!"@
}

/// A greeting is 22 characters longer than the name, and the name stands in it
/// unchanged, from position 21 on.
pub proof fn lemma_greeting_embeds_name(name: Seq<char>)
    ensures
        greeting(name).len() == name.len() + 22,
        greeting(name).subrange(21, 21 + name.len() as int) == name,
{
    reveal_strlit("Hello from <caller>, ");
    reveal_strlit("!");
    assert(greeting(name).subrange(21, 21 + name.len() as int) =~= name);
}

/// The text of the demo message.
pub open spec fn demo_text() -> Seq<char> {
    "This is a demo message."@
}

/// Adds `a` and `b`, wrapping around on overflow, and logs `Adding {a} + {b}`.
pub fn add(a: i32, b: i32, log: &mut Journal) -> (sum: i32)
    ensures
        sum == wrap_i32(a + b),
        i32::MIN <= a + b <= i32::MAX ==> sum == a + b,
        final(log)@ == old(log)@.push(add_message(a as int, b as int)),
{
    let mut line = String::from_str("Adding ");
    push_signed_decimal(&mut line, a);
    line.append(" + ");
    push_signed_decimal(&mut line, b);
    log.record(line);
    a.wrapping_add(b)
}

/// Computes the `n`-th Fibonacci number by naive double recursion and logs
/// `Computing fibonacci({n})`.
///
/// The result is `Ok` exactly when the number fits into a `u32`, which is the case
/// for `n` up to 47; beyond that the call fails at once, without recursing.
pub fn fibonacci(n: u32, log: &mut Journal) -> (result: Result<u32, OverflowError>)
    ensures
        match result {
            Ok(value) => value == fib(n as nat),
            Err(_) => fib(n as nat) > u32::MAX,
        },
        result is Ok <==> n <= MAX_INDEX,
        final(log)@ == old(log)@.push(fibonacci_message(n as nat)),
{
    let mut line = String::from_str("Computing fibonacci(");
    push_decimal(&mut line, n);
    line.append(")");
    log.record(line);
    proof {
        lemma_fib_fits(n as nat);
    }
    if n > MAX_INDEX {
        Err(OverflowError)
    } else {
        Ok(fib_recursive(n))
    }
}

/// Decides by trial division whether `n` is prime and logs
/// `Checking if {n} is prime`.
///
/// The candidates run from 2 up to the integer square root of `n`.
pub fn is_prime(n: u32, log: &mut Journal) -> (prime: bool)
    ensures
        prime == is_prime_number(n as nat),
        prime == (n >= 2 && no_divisor_up_to_root(n as nat)),
        final(log)@ == old(log)@.push(is_prime_message(n as nat)),
{
    let mut line = String::from_str("Checking if ");
    push_decimal(&mut line, n);
    line.append(" is prime");
    log.record(line);
    proof {
        lemma_trial_division(n as nat);
    }
    if n < 2 {
        return false;
    }
    let mut i: u32 = 2;
    while (i as u64) * (i as u64) <= n as u64
        invariant
            2 <= i <= 0x1_0000,
            i * i <= 0x1_0000_0000,
            n >= 2,
            forall|d: nat| 2 <= d < i ==> !#[trigger] divides(d, n as nat),
            is_prime_number(n as nat) <==> no_divisor_up_to_root(n as nat),
            log@ == old(log)@.push(is_prime_message(n as nat)),
        decreases 0x1_0000 - i,
    {
        assert(i < 0x1_0000 && i < n) by (nonlinear_arith)
            requires
                2 <= i,
                i * i <= n,
                n <= u32::MAX,
        {}
        if n % i == 0 {
            proof {
                lemma_proper_divisor_refutes(n as nat, i as nat);
            }
            return false;
        }
        i += 1;
        assert(i * i <= 0x1_0000_0000) by (nonlinear_arith)
            requires
                i <= 0x1_0000,
        {}
    }
    proof {
        lemma_no_divisor_below_bound(n as nat, i as nat);
    }
    true
}

/// Returns the greeting for `name`, `Hello from <caller>, {name}!`, in which only
/// `{name}` is filled in, and logs the same line.
pub fn greet(name: &str, log: &mut Journal) -> (text: String)
    ensures
        text@ == greeting(name@),
        final(log)@ == old(log)@.push(greeting(name@)),
{
    let mut text = String::from_str("Hello from <caller>, ");
    text.append(name);
    text.append("!");
    log.record(text.clone());
    text
}

/// Returns the demo message, the same fixed text on every call, and logs it.
pub fn demo_message(log: &mut Journal) -> (text: String)
    ensures
        text@ == demo_text(),
        final(log)@ == old(log)@.push(demo_text()),
{
    let text = String::from_str("This is a demo message.");
    log.record(text.clone());
    text
}

} // verus!
