//! Iterative computation of Fibonacci numbers over `u64`, with the
//! wrap-around behaviour of fixed-width unsigned arithmetic stated and
//! proved against the mathematical Fibonacci sequence.

pub mod decimal;

use vstd::prelude::*;

verus! {

use vstd::arithmetic::div_mod::{
    lemma_add_mod_noop,
    lemma_mod_sub_multiples_vanish,
    lemma_small_mod,
};

/// The number of distinct `u64` values: addition on `u64` wraps modulo this.
pub open spec fn u64_modulus() -> nat {
    0x1_0000_0000_0000_0000
}

/// The mathematical Fibonacci sequence: 0, 1, 1, 2, 3, 5, 8, ...
pub open spec fn spec_fib(n: nat) -> nat
    decreases n,
{
    if n == 0 {
        0
    } else if n == 1 {
        1
    } else {
        spec_fib((n - 1) as nat) + spec_fib((n - 2) as nat)
    }
}

/// Adding two residues with `u64::wrapping_add` yields the residue of the sum.
proof fn lemma_wrapping_add_residues(a: nat, b: nat, x: u64, y: u64)
    requires
        x == a % u64_modulus(),
        y == b % u64_modulus(),
    ensures
        vstd::wrapping::u64_specs::wrapping_add(x, y) == (a + b) % u64_modulus(),
{
    lemma_add_mod_noop(a as int, b as int, u64_modulus() as int);
    if x + y > u64::MAX {
        lemma_mod_sub_multiples_vanish((x + y) as int, u64_modulus() as int);
        lemma_small_mod((x + y - u64_modulus()) as nat, u64_modulus());
    } else {
        lemma_small_mod((x + y) as nat, u64_modulus());
    }
}

/// The `n`-th Fibonacci number as a `u64`, wrapping on overflow.
///
/// The result is the mathematical Fibonacci number reduced modulo 2^64,
/// exactly what repeated wrapping `u64` addition produces.
pub fn fib(n: i32) -> (r: u64)
    requires
        1 <= n,
    ensures
        r == spec_fib(n as nat) % u64_modulus(),
{
    proof {
        lemma_small_mod(0, u64_modulus());
        lemma_small_mod(1, u64_modulus());
    }
    if n == 1 {
        return 1;
    }

    let mut sum: u64 = 0;
    let mut last: u64 = 0;
    let mut curr: u64 = 1;
    let mut i: i32 = 1;
    while i < n
        invariant
            2 <= n,
            1 <= i <= n,
            last == spec_fib((i - 1) as nat) % u64_modulus(),
            curr == spec_fib(i as nat) % u64_modulus(),
            1 < i ==> sum == spec_fib(i as nat) % u64_modulus(),
        decreases n - i,
    {
        sum = last.wrapping_add(curr);
        proof {
            lemma_wrapping_add_residues(
                spec_fib((i - 1) as nat),
                spec_fib(i as nat),
                last,
                curr,
            );
            assert(spec_fib((i + 1) as nat)
                == spec_fib(i as nat) + spec_fib((i - 1) as nat));
        }
        last = curr;
        curr = sum;
        i = i + 1;
    }
    sum
}

/// Why an argument was rejected: negative, or zero.
#[derive(Clone, Copy, Debug, PartialEq, Eq, Structural)]
pub enum FibError {
    /// The argument was negative; the offending value is carried along.
    Negative(i32),
    /// The argument was zero.
    Zero,
}

/// The diagnostic text for a rejected argument.
pub open spec fn spec_message(e: FibError) -> Seq<char> {
    match e {
        FibError::Negative(n) => crate::decimal::spec_dec_i32(n) + " is negative!"@,
        FibError::Zero => "zero is not a right argument to fibonacci()!"@,
    }
}

impl FibError {
    /// A human-readable diagnostic naming the invalid argument.
    pub fn message(&self) -> (s: String)
        ensures
            s@ == spec_message(*self),
    {
        match self {
            FibError::Negative(n) => {
                let mut s = crate::decimal::i32_dec(*n);
                s.append(" is negative!");
                s
            },
            FibError::Zero => "zero is not a right argument to fibonacci()!".to_owned(),
        }
    }
}

/// Like [`fib`], but reports an invalid argument as a value instead of
/// requiring the caller to rule it out: zero and negative arguments give
/// the error that names them, every other argument gives the number.
pub fn fib_checked(n: i32) -> (r: Result<u64, FibError>)
    ensures
        1 <= n ==> (r matches Ok(v) && v == spec_fib(n as nat) % u64_modulus()),
        n == 0 ==> (r matches Err(e) && e == FibError::Zero),
        n < 0 ==> (r matches Err(e) && e == FibError::Negative(n)),
{
    if n < 0 {
        Err(FibError::Negative(n))
    } else if n == 0 {
        Err(FibError::Zero)
    } else {
        Ok(fib(n))
    }
}

/// The Fibonacci sequence never decreases as the index grows.
pub proof fn lemma_fib_monotonic(i: nat, j: nat)
    requires
        i <= j,
    ensures
        spec_fib(i) <= spec_fib(j),
    decreases j,
{
    if i < j && 2 <= j {
        lemma_fib_monotonic(i, (j - 1) as nat);
        assert(spec_fib(j) == spec_fib((j - 1) as nat) + spec_fib((j - 2) as nat));
    }
}

/// Each Fibonacci number from the second on is the sum of the two before
/// it; and while the value still fits in a `u64`, the wrapped values that
/// [`fib`] returns satisfy the same equation, so no wrapping has happened
/// yet and `fib(n) == fib(n - 1) + fib(n - 2)` holds of the results.
pub proof fn lemma_fib_recurrence(n: nat)
    requires
        2 <= n,
        spec_fib(n) <= u64::MAX,
    ensures
        spec_fib(n) == spec_fib((n - 1) as nat) + spec_fib((n - 2) as nat),
        spec_fib(n) % u64_modulus() == spec_fib((n - 1) as nat) % u64_modulus()
            + spec_fib((n - 2) as nat) % u64_modulus(),
{
    lemma_fib_monotonic((n - 1) as nat, n);
    lemma_fib_monotonic((n - 2) as nat, n);
    lemma_small_mod(spec_fib(n), u64_modulus());
    lemma_small_mod(spec_fib((n - 1) as nat), u64_modulus());
    lemma_small_mod(spec_fib((n - 2) as nat), u64_modulus());
}

} // verus!
