//! Integer square roots.

use vstd::prelude::*;

verus! {

/// `root` is the integer square root of `n`: the one natural number whose
/// square does not exceed `n` while the square of its successor does.
pub open spec fn is_int_sqrt(root: nat, n: nat) -> bool {
    root * root <= n < (root + 1) * (root + 1)
}

/// The integer square root of `n`.
pub open spec fn int_sqrt(n: nat) -> nat {
    choose|root: nat| is_int_sqrt(root, n)
}

/// At most one number is the integer square root of `n`.
pub proof fn lemma_int_sqrt_unique(a: nat, b: nat, n: nat)
    requires
        is_int_sqrt(a, n),
        is_int_sqrt(b, n),
    ensures
        a == b,
{
    if a < b {
        assert((a + 1) * (a + 1) <= b * b) by (nonlinear_arith)
            requires
                a + 1 <= b,
        ;
    } else if b < a {
        assert((b + 1) * (b + 1) <= a * a) by (nonlinear_arith)
            requires
                b + 1 <= a,
        ;
    }
}

/// Every natural number has an integer square root, `int_sqrt(n)` is it, and
/// it never exceeds `n`.
pub proof fn lemma_int_sqrt_bounds(n: nat)
    ensures
        int_sqrt(n) * int_sqrt(n) <= n < (int_sqrt(n) + 1) * (int_sqrt(n) + 1),
        int_sqrt(n) <= n,
    decreases n,
{
    if n == 0 {
        assert(is_int_sqrt(0, 0)) by (nonlinear_arith);
    } else {
        lemma_int_sqrt_bounds((n - 1) as nat);
        let r = int_sqrt((n - 1) as nat);
        if (r + 1) * (r + 1) <= n {
            assert((r + 2) * (r + 2) > n) by (nonlinear_arith)
                requires
                    n - 1 < (r + 1) * (r + 1),
            ;
            assert(is_int_sqrt(r + 1, n));
        } else {
            assert(is_int_sqrt(r, n));
        }
    }
    let s = int_sqrt(n);
    if s > n {
        assert(s * s > n) by (nonlinear_arith)
            requires
                s > n,
        ;
    }
}

/// Integer square root of a 64-bit value, found by bisection.
pub fn isqrt_u64(n: u64) -> (root: u64)
    ensures
        is_int_sqrt(root as nat, n as nat),
        root == int_sqrt(n as nat),
        root < 0x1_0000_0000,
{
    let mut low: u64 = 0;
    let mut high: u64 = 0x1_0000_0000;
    assert(0x1_0000_0000u64 * 0x1_0000_0000u64 > n) by (nonlinear_arith);
    while high - low > 1
        invariant
            low < high <= 0x1_0000_0000,
            low * low <= n < high * high,
        decreases high - low,
    {
        let mid: u64 = low + (high - low) / 2;
        assert(mid * mid < 0x1_0000_0000u64 * 0x1_0000_0000u64) by (nonlinear_arith)
            requires
                mid < 0x1_0000_0000u64,
        ;
        if mid * mid <= n {
            low = mid;
        } else {
            high = mid;
        }
    }
    proof {
        lemma_int_sqrt_bounds(n as nat);
        lemma_int_sqrt_unique(low as nat, int_sqrt(n as nat), n as nat);
    }
    low
}

/// Trait to provide an integer square root of a number.
pub trait IntegerSquareRoot: Sized {
    /// The mathematical value of `self`.
    spec fn value(self) -> int;

    /// Compute the integer square root.
    ///
    /// The integer square root is defined such that
    /// n.isqrt()^2 <= n, and (n.isqrt() + 1)^2 > n. A negative number has
    /// none.
    fn isqrt(self) -> (root: Self)
        requires
            self.value() >= 0,
        ensures
            root.value() >= 0,
            is_int_sqrt(root.value() as nat, self.value() as nat),
            root.value() == int_sqrt(self.value() as nat),
    ;
}

impl IntegerSquareRoot for u8 {
    open spec fn value(self) -> int {
        self as int
    }

    fn isqrt(self) -> (root: u8) {
        let root: u64 = isqrt_u64(self as u64);
        proof {
            lemma_int_sqrt_bounds(self as nat);
        }
        root as u8
    }
}

impl IntegerSquareRoot for u16 {
    open spec fn value(self) -> int {
        self as int
    }

    fn isqrt(self) -> (root: u16) {
        let root: u64 = isqrt_u64(self as u64);
        proof {
            lemma_int_sqrt_bounds(self as nat);
        }
        root as u16
    }
}

impl IntegerSquareRoot for u32 {
    open spec fn value(self) -> int {
        self as int
    }

    fn isqrt(self) -> (root: u32) {
        let root: u64 = isqrt_u64(self as u64);
        proof {
            lemma_int_sqrt_bounds(self as nat);
        }
        root as u32
    }
}

impl IntegerSquareRoot for u64 {
    open spec fn value(self) -> int {
        self as int
    }

    fn isqrt(self) -> (root: u64) {
        isqrt_u64(self)
    }
}

impl IntegerSquareRoot for usize {
    open spec fn value(self) -> int {
        self as int
    }

    fn isqrt(self) -> (root: usize) {
        let root: u64 = isqrt_u64(self as u64);
        proof {
            lemma_int_sqrt_bounds(self as nat);
        }
        root as usize
    }
}

impl IntegerSquareRoot for i8 {
    open spec fn value(self) -> int {
        self as int
    }

    fn isqrt(self) -> (root: i8) {
        let root: u64 = isqrt_u64(self as u64);
        proof {
            lemma_int_sqrt_bounds(self as nat);
        }
        root as i8
    }
}

impl IntegerSquareRoot for i16 {
    open spec fn value(self) -> int {
        self as int
    }

    fn isqrt(self) -> (root: i16) {
        let root: u64 = isqrt_u64(self as u64);
        proof {
            lemma_int_sqrt_bounds(self as nat);
        }
        root as i16
    }
}

impl IntegerSquareRoot for i32 {
    open spec fn value(self) -> int {
        self as int
    }

    fn isqrt(self) -> (root: i32) {
        let root: u64 = isqrt_u64(self as u64);
        proof {
            lemma_int_sqrt_bounds(self as nat);
        }
        root as i32
    }
}

impl IntegerSquareRoot for i64 {
    open spec fn value(self) -> int {
        self as int
    }

    fn isqrt(self) -> (root: i64) {
        let root: u64 = isqrt_u64(self as u64);
        proof {
            lemma_int_sqrt_bounds(self as nat);
        }
        root as i64
    }
}

impl IntegerSquareRoot for isize {
    open spec fn value(self) -> int {
        self as int
    }

    fn isqrt(self) -> (root: isize) {
        let root: u64 = isqrt_u64(self as u64);
        proof {
            lemma_int_sqrt_bounds(self as nat);
        }
        root as isize
    }
}

} // verus!
