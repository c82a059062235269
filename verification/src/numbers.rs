//! Small arithmetic routines: Fibonacci numbers, Euclid's algorithm,
//! factorials, Collatz sequence lengths, and a parity-checked halving.

use vstd::prelude::*;
use vstd::string::StringExecFns;
use crate::decimal::dec_int;
use crate::decimal::i32_to_decimal;

verus! {

/// The sum of the pairwise products of three numbers.
pub fn interproduct(a: i32, b: i32, c: i32) -> (r: i32)
    requires
        i32::MIN <= a * b <= i32::MAX,
        i32::MIN <= b * c <= i32::MAX,
        i32::MIN <= c * a <= i32::MAX,
        i32::MIN <= a * b + b * c <= i32::MAX,
        i32::MIN <= a * b + b * c + c * a <= i32::MAX,
    ensures
        r == a * b + b * c + c * a,
{
    a * b + b * c + c * a
}

/// The Fibonacci sequence: 0, 1, 1, 2, 3, 5, ...
pub open spec fn fib_nat(n: nat) -> nat
    decreases n,
{
    if n < 2 {
        n
    } else {
        fib_nat((n - 2) as nat) + fib_nat((n - 1) as nat)
    }
}

/// The Fibonacci sequence never decreases as its index grows.
pub proof fn lemma_fib_monotonic(i: nat, j: nat)
    requires
        i <= j,
    ensures
        fib_nat(i) <= fib_nat(j),
    decreases j - i,
{
    if j < 2 {
        assert(fib_nat(i) == i && fib_nat(j) == j);
    } else if i < 2 {
        assert(fib_nat(2) == fib_nat(0) + fib_nat(1));
        lemma_fib_monotonic(2, j);
    } else if i < j {
        lemma_fib_monotonic(i, (j - 1) as nat);
        assert(fib_nat(j) == fib_nat((j - 2) as nat) + fib_nat((j - 1) as nat));
    }
}

/// The `n`th Fibonacci number, computed by direct recursion.
pub fn fib(n: u32) -> (r: u32)
    requires
        fib_nat(n as nat) <= u32::MAX,
    ensures
        r == fib_nat(n as nat),
    decreases n,
{
    if n < 2 {
        return n;
    }
    proof {
        lemma_fib_monotonic((n - 1) as nat, n as nat);
        lemma_fib_monotonic((n - 2) as nat, n as nat);
    }
    let a = fib(n - 1);
    let b = fib(n - 2);
    a + b
}

/// The `n`th Fibonacci number, computed iteratively in linear time.
///
/// The loop keeps one number of lookahead, so the next Fibonacci number
/// after the requested one must also fit in a `u32`.
pub fn print_fib(n: u32) -> (r: u32)
    requires
        fib_nat(n as nat + 1) <= u32::MAX,
    ensures
        r == fib_nat(n as nat),
{
    let mut a: u32 = 0;
    let mut b: u32 = 1;

    for i in 0..n
        invariant
            a == fib_nat(i as nat),
            b == fib_nat(i as nat + 1),
            fib_nat(n as nat + 1) <= u32::MAX,
    {
        proof {
            lemma_fib_monotonic(i as nat + 2, n as nat + 1);
        }
        let temp = a;
        a = b;
        b = temp + b;
    }

    a
}

/// The greatest common divisor, by Euclid's algorithm.
pub open spec fn gcd_nat(a: nat, b: nat) -> nat
    decreases b,
{
    if b > 0 {
        gcd_nat(b, a % b)
    } else {
        a
    }
}

/// The greatest common divisor of two numbers.
pub fn gcd(a: u32, b: u32) -> (r: u32)
    ensures
        r == gcd_nat(a as nat, b as nat),
    decreases b,
{
    if b > 0 {
        gcd(b, a % b)
    } else {
        a
    }
}

/// The factorial of `n`.
pub open spec fn fact_nat(n: nat) -> nat
    decreases n,
{
    if n == 0 {
        1
    } else {
        n * fact_nat((n - 1) as nat)
    }
}

/// The factorial never decreases as its argument grows.
pub proof fn lemma_fact_monotonic(i: nat, j: nat)
    requires
        i <= j,
    ensures
        fact_nat(i) <= fact_nat(j),
    decreases j - i,
{
    if i < j {
        lemma_fact_monotonic(i, (j - 1) as nat);
        assert(fact_nat(j) == j * fact_nat((j - 1) as nat));
        assert(fact_nat((j - 1) as nat) <= j * fact_nat((j - 1) as nat))
            by (nonlinear_arith)
            requires j >= 1;
    }
}

/// Thirteen factorial no longer fits in 32 bits.
proof fn lemma_fact_13_overflows()
    ensures
        fact_nat(13) > u32::MAX,
{
    assert(fact_nat(0) == 1);
    assert(fact_nat(1) == 1 * fact_nat(0));
    assert(fact_nat(2) == 2 * fact_nat(1));
    assert(fact_nat(3) == 3 * fact_nat(2));
    assert(fact_nat(4) == 4 * fact_nat(3));
    assert(fact_nat(5) == 5 * fact_nat(4));
    assert(fact_nat(6) == 6 * fact_nat(5));
    assert(fact_nat(7) == 7 * fact_nat(6));
    assert(fact_nat(8) == 8 * fact_nat(7));
    assert(fact_nat(9) == 9 * fact_nat(8));
    assert(fact_nat(10) == 10 * fact_nat(9));
    assert(fact_nat(11) == 11 * fact_nat(10));
    assert(fact_nat(12) == 12 * fact_nat(11));
    assert(fact_nat(13) == 13 * fact_nat(12));
    assert(fact_nat(13) == 6227020800) by (nonlinear_arith)
        requires
            fact_nat(13) == 13 * fact_nat(12),
            fact_nat(12) == 12 * fact_nat(11),
            fact_nat(11) == 11 * fact_nat(10),
            fact_nat(10) == 10 * fact_nat(9),
            fact_nat(9) == 9 * fact_nat(8),
            fact_nat(8) == 8 * fact_nat(7),
            fact_nat(7) == 7 * fact_nat(6),
            fact_nat(6) == 6 * fact_nat(5),
            fact_nat(5) == 5 * fact_nat(4),
            fact_nat(4) == 4 * fact_nat(3),
            fact_nat(3) == 3 * fact_nat(2),
            fact_nat(2) == 2 * fact_nat(1),
            fact_nat(1) == 1 * fact_nat(0),
            fact_nat(0) == 1;
}

/// The factorial of `n`, computed by a running product.
pub fn factorial(n: u32) -> (r: u32)
    requires
        fact_nat(n as nat) <= u32::MAX,
    ensures
        r == fact_nat(n as nat),
{
    proof {
        if n >= 13 {
            lemma_fact_13_overflows();
            lemma_fact_monotonic(13, n as nat);
        }
    }
    let mut product: u32 = 1;
    let mut i: u32 = 1;
    while i <= n
        invariant
            n <= 12,
            1 <= i <= n + 1,
            product == fact_nat((i - 1) as nat),
            fact_nat(n as nat) <= u32::MAX,
        decreases n + 1 - i,
    {
        proof {
            lemma_fact_monotonic(i as nat, n as nat);
            assert(fact_nat(i as nat) == i * fact_nat((i - 1) as nat));
            assert(product * i == fact_nat(i as nat)) by (nonlinear_arith)
                requires
                    product == fact_nat((i - 1) as nat),
                    fact_nat(i as nat) == i * fact_nat((i - 1) as nat);
        }
        product = product * i;
        i = i + 1;
    }
    product
}

/// One step of the Collatz rule, for values above one: halve an even
/// number, send an odd one to three times itself plus one.
pub open spec fn collatz_step(n: int) -> int {
    if n % 2 == 0 {
        n / 2
    } else {
        3 * n + 1
    }
}

/// The value after `k` steps of the Collatz rule starting from `n`.
pub open spec fn collatz_iter(n: int, k: nat) -> int
    decreases k,
{
    if k == 0 {
        n
    } else {
        collatz_step(collatz_iter(n, (k - 1) as nat))
    }
}

/// The trajectory from `n` first reaches one after exactly `k` steps,
/// and every odd value on the way is small enough that the next step
/// stays within `i32`.
pub open spec fn collatz_halts_in(n: int, k: nat) -> bool {
    &&& collatz_iter(n, k) == 1
    &&& forall|j: nat| j < k ==> #[trigger] collatz_iter(n, j) > 1
    &&& forall|j: nat|
        j < k && (#[trigger] collatz_iter(n, j)) % 2 != 0 ==> 3 * collatz_iter(n, j) + 1
            <= i32::MAX
}

/// The number of terms in the Collatz sequence from `n` down to one,
/// counting both endpoints; one term for any start at or below one.
pub fn collatz_length(mut n: i32) -> (len: u32)
    requires
        n > 1 ==> exists|k: nat| k < u32::MAX && collatz_halts_in(n as int, k),
    ensures
        n <= 1 ==> len == 1,
        n > 1 ==> len >= 2 && collatz_halts_in(n as int, (len - 1) as nat),
{
    let ghost n0 = n as int;
    let ghost k: nat = if n > 1 {
        choose|k: nat| k < u32::MAX && collatz_halts_in(n0, k)
    } else {
        0
    };
    let ghost mut steps: nat = 0;
    let mut len: u32 = 1;
    while n > 1
        invariant
            n0 > 1 ==> k < u32::MAX && collatz_halts_in(n0, k),
            n0 <= 1 ==> n == n0 && k == 0,
            n as int == collatz_iter(n0, steps),
            steps <= k,
            len == steps + 1,
        decreases k - steps,
    {
        proof {
            assert(steps < k);
        }
        if n % 2 == 0 {
            n = n / 2;
        } else {
            n = 3 * n + 1;
        }
        proof {
            assert(collatz_iter(n0, steps + 1) == collatz_step(collatz_iter(n0, steps)));
            steps = steps + 1;
        }
        len = len + 1;
    }
    len
}

/// The outcome of splitting a number into two equal whole parts.
pub enum Halving {
    /// The number was even: each part is exactly half.
    Exact(i32),
    /// The number was odd: a report saying it cannot be split evenly.
    Uneven(String),
}

/// The wording of the report for a number that cannot be halved evenly.
pub open spec fn uneven_message(n: int) -> Seq<char> {
    "cannot divide "@ + dec_int(n) + " into two equal parts"@
}

/// Split an even number into two equal parts; report an odd one.
pub fn divide_in_two(n: i32) -> (r: Halving)
    ensures
        n % 2 == 0 ==> (r matches Halving::Exact(h) && 2 * h == n),
        n % 2 != 0 ==> (r matches Halving::Uneven(m) && m@ == uneven_message(n as int)),
{
    if n % 2 == 0 {
        Halving::Exact(n / 2)
    } else {
        let msg = String::from_str("cannot divide ").concat(i32_to_decimal(n).as_str()).concat(
            " into two equal parts",
        );
        proof {
            reveal_strlit("cannot divide ");
            reveal_strlit(" into two equal parts");
            assert(msg@ =~= uneven_message(n as int));
        }
        Halving::Uneven(msg)
    }
}

} // verus!
