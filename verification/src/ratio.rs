//! Exact fractions of unsigned integers.
//!
//! A [`Fraction`] holds a numerator and a denominator as plain integers. The
//! arithmetic itself is done by `num`'s `Ratio`; this module states what each
//! of those operations returns and proves the facts that the battle rules
//! draw from them.

use vstd::prelude::*;
use vstd::arithmetic::div_mod::{lemma_div_multiples_vanish_quotient, lemma_fundamental_div_mod};

verus! {

/// Greatest common divisor, by Euclid's recursion; `gcd(a, 0) == a`.
pub open spec fn gcd(a: nat, b: nat) -> nat
    decreases b,
{
    if b == 0 {
        a
    } else {
        gcd(b, a % b)
    }
}

/// Numerator and denominator of `numer / denom` after cancelling their
/// greatest common divisor.
pub open spec fn lowest_terms(numer: nat, denom: nat) -> (nat, nat) {
    (numer / gcd(numer, denom), denom / gcd(numer, denom))
}

/// The greatest common divisor of two numbers that are not both zero is
/// positive and divides each of them.
pub proof fn lemma_gcd_divides(a: nat, b: nat)
    requires
        a > 0 || b > 0,
    ensures
        gcd(a, b) > 0,
        a % gcd(a, b) == 0,
        b % gcd(a, b) == 0,
    decreases b,
{
    if b != 0 {
        let r = a % b;
        lemma_gcd_divides(b, r);
        let g = gcd(b, r);
        lemma_fundamental_div_mod(a as int, b as int);
        lemma_fundamental_div_mod(b as int, g as int);
        lemma_fundamental_div_mod(r as int, g as int);
        let q = (a / b) as int;
        let x = (b / g) as int;
        let y = (r / g) as int;
        assert(a == g * (x * q + y)) by (nonlinear_arith)
            requires
                a == b * q + r,
                b == g * x,
                r == g * y,
        ;
        assert(a % g == 0) by (nonlinear_arith)
            requires
                a == g * (x * q + y),
                g > 0,
        ;
    }
}

/// No common divisor of two numbers that are not both zero exceeds their
/// greatest common divisor: each of them divides it.
pub proof fn lemma_gcd_greatest(a: nat, b: nat, divisor: nat)
    requires
        a > 0 || b > 0,
        divisor > 0,
        a % divisor == 0,
        b % divisor == 0,
    ensures
        gcd(a, b) % divisor == 0,
        divisor <= gcd(a, b),
    decreases b,
{
    if b != 0 {
        let r = a % b;
        lemma_fundamental_div_mod(a as int, b as int);
        lemma_fundamental_div_mod(a as int, divisor as int);
        lemma_fundamental_div_mod(b as int, divisor as int);
        let q = (a / b) as int;
        let x = (a / divisor) as int;
        let y = (b / divisor) as int;
        assert(r == divisor * (x - y * q)) by (nonlinear_arith)
            requires
                a == b * q + r,
                a == divisor * x,
                b == divisor * y,
        ;
        assert(r % divisor == 0) by (nonlinear_arith)
            requires
                r == divisor * (x - y * q),
                divisor > 0,
        ;
        lemma_gcd_greatest(b, r, divisor);
    }
    lemma_gcd_divides(a, b);
    let g = gcd(a, b);
    lemma_fundamental_div_mod(g as int, divisor as int);
    let k = (g / divisor) as int;
    assert(divisor <= g) by (nonlinear_arith)
        requires
            g == divisor * k,
            g > 0,
            divisor > 0,
    ;
}

/// Cancelling the greatest common divisor keeps the denominator positive,
/// keeps the value of the fraction, and so keeps its integer part; neither
/// term grows.
pub proof fn lemma_lowest_terms(numer: nat, denom: nat)
    requires
        denom > 0,
    ensures
        lowest_terms(numer, denom).1 > 0,
        lowest_terms(numer, denom).0 * denom == numer * lowest_terms(numer, denom).1,
        lowest_terms(numer, denom).0 / lowest_terms(numer, denom).1 == numer / denom,
        lowest_terms(numer, denom).0 <= numer,
        lowest_terms(numer, denom).1 <= denom,
{
    lemma_gcd_divides(numer, denom);
    let g = gcd(numer, denom);
    let p = numer / g;
    let q = denom / g;
    lemma_fundamental_div_mod(numer as int, g as int);
    lemma_fundamental_div_mod(denom as int, g as int);
    assert(q > 0 && p <= numer && q <= denom && p * denom == numer * q) by (nonlinear_arith)
        requires
            numer == g * p,
            denom == g * q,
            denom > 0,
            g > 0,
    ;
    lemma_div_multiples_vanish_quotient(g as int, p as int, q as int);
}

/// What `lowest_terms` returns has no common divisor left but one.
pub proof fn lemma_lowest_terms_coprime(numer: nat, denom: nat)
    requires
        denom > 0,
    ensures
        gcd(lowest_terms(numer, denom).0, lowest_terms(numer, denom).1) == 1,
{
    lemma_gcd_divides(numer, denom);
    lemma_lowest_terms(numer, denom);
    let g = gcd(numer, denom);
    let p = numer / g;
    let q = denom / g;
    lemma_fundamental_div_mod(numer as int, g as int);
    lemma_fundamental_div_mod(denom as int, g as int);
    lemma_gcd_divides(p, q);
    let h = gcd(p, q);
    lemma_fundamental_div_mod(p as int, h as int);
    lemma_fundamental_div_mod(q as int, h as int);
    let x = (p / h) as int;
    let y = (q / h) as int;
    assert(numer == (g * h) * x && denom == (g * h) * y && g * h > 0) by (nonlinear_arith)
        requires
            numer == g * p,
            denom == g * q,
            p == h * x,
            q == h * y,
            g > 0,
            h > 0,
    ;
    assert(numer % (g * h) == 0 && denom % (g * h) == 0) by (nonlinear_arith)
        requires
            numer == (g * h) * x,
            denom == (g * h) * y,
            g * h > 0,
    ;
    lemma_gcd_greatest(numer, denom, g * h);
    assert(h == 1) by (nonlinear_arith)
        requires
            g * h <= g,
            g > 0,
            h > 0,
    ;
}

/// Scaling a number by a fraction in lowest terms and rounding down gives
/// what scaling by the fraction as it was written gives.
pub proof fn lemma_lowest_terms_scale(value: nat, numer: nat, denom: nat)
    requires
        denom > 0,
    ensures
        value * lowest_terms(numer, denom).0 / lowest_terms(numer, denom).1 == value * numer
            / denom,
{
    lemma_gcd_divides(numer, denom);
    let g = gcd(numer, denom);
    let p = numer / g;
    let q = denom / g;
    lemma_fundamental_div_mod(numer as int, g as int);
    lemma_fundamental_div_mod(denom as int, g as int);
    assert(q > 0 && value * numer == g * (value * p) && denom == g * q) by (nonlinear_arith)
        requires
            numer == g * p,
            denom == g * q,
            denom > 0,
            g > 0,
    ;
    lemma_div_multiples_vanish_quotient(g as int, (value * p) as int, q as int);
}

/// Dividing a number by a fraction in lowest terms and rounding down gives
/// what dividing by the fraction as it was written gives; a fraction that is
/// not zero stays so in lowest terms.
pub proof fn lemma_lowest_terms_unscale(value: nat, numer: nat, denom: nat)
    requires
        numer > 0,
        denom > 0,
    ensures
        lowest_terms(numer, denom).0 > 0,
        value * lowest_terms(numer, denom).1 / lowest_terms(numer, denom).0 == value * denom
            / numer,
{
    lemma_gcd_divides(numer, denom);
    let g = gcd(numer, denom);
    let p = numer / g;
    let q = denom / g;
    lemma_fundamental_div_mod(numer as int, g as int);
    lemma_fundamental_div_mod(denom as int, g as int);
    assert(p > 0 && value * denom == g * (value * q) && numer == g * p) by (nonlinear_arith)
        requires
            numer == g * p,
            denom == g * q,
            numer > 0,
            g > 0,
    ;
    lemma_div_multiples_vanish_quotient(g as int, (value * q) as int, p as int);
}

/// An exact fraction `numer / denom` of unsigned integers.
#[derive(Clone, Copy, Debug, PartialEq, Eq, Structural)]
pub struct Fraction {
    numer: u32,
    denom: u32,
}

impl View for Fraction {
    type V = (nat, nat);

    /// The pair (numerator, denominator).
    closed spec fn view(&self) -> (nat, nat) {
        (self.numer as nat, self.denom as nat)
    }
}

impl Fraction {
    /// A fraction is well formed when its denominator is not zero.
    pub open spec fn wf(self) -> bool {
        self@.1 > 0
    }

    /// The fraction is in lowest terms: its numerator and denominator have
    /// no common divisor but one.
    pub open spec fn is_reduced(self) -> bool {
        gcd(self@.0, self@.1) == 1
    }

    /// The integer part: the numerator divided by the denominator, rounded
    /// towards zero.
    pub open spec fn floor(self) -> nat {
        self@.0 / self@.1
    }

    /// The numerator.
    pub fn numer(&self) -> (n: u32)
        ensures
            n == self@.0,
    {
        self.numer
    }

    /// The denominator.
    pub fn denom(&self) -> (d: u32)
        ensures
            d == self@.1,
    {
        self.denom
    }

    /// Calls `num::rational::Ratio::new`, which panics on a zero denominator
    /// and otherwise divides both terms by their greatest common divisor.
    #[verifier::external_body]
    pub(crate) fn new(numer: u32, denom: u32) -> (r: Fraction)
        requires
            denom != 0,
        ensures
            r@ == lowest_terms(numer as nat, denom as nat),
    {
        let ratio = num::rational::Ratio::new(numer, denom);
        Fraction { numer: *ratio.numer(), denom: *ratio.denom() }
    }

    /// Calls `num::rational::Ratio::from_integer`, which pairs the integer
    /// with the denominator one.
    #[verifier::external_body]
    pub(crate) fn from_integer(value: u32) -> (r: Fraction)
        ensures
            r@ == (value as nat, 1nat),
    {
        let ratio = num::rational::Ratio::from_integer(value);
        Fraction { numer: *ratio.numer(), denom: *ratio.denom() }
    }

    /// Calls `Ratio`'s `*`. It cancels common factors crosswise, multiplies
    /// what is left and reduces the outcome, which is therefore the product in
    /// lowest terms. The cancelled factors never exceed the plain ones, so the
    /// bounds asked here keep its unchecked multiplications in range.
    #[verifier::external_body]
    pub(crate) fn times(self, rhs: Fraction) -> (r: Fraction)
        requires
            self.wf(),
            rhs.wf(),
            self@.0 * rhs@.0 <= u32::MAX,
            self@.1 * rhs@.1 <= u32::MAX,
        ensures
            r@ == lowest_terms(self@.0 * rhs@.0, self@.1 * rhs@.1),
    {
        let ratio = num::rational::Ratio::new_raw(self.numer, self.denom)
            * num::rational::Ratio::new_raw(rhs.numer, rhs.denom);
        Fraction { numer: *ratio.numer(), denom: *ratio.denom() }
    }

    /// Calls `Ratio`'s `/`. It cancels common factors of the two numerators
    /// and of the two denominators, multiplies crosswise and reduces the
    /// outcome, which is therefore the quotient in lowest terms. It panics
    /// when the divisor is zero.
    #[verifier::external_body]
    pub(crate) fn over(self, rhs: Fraction) -> (r: Fraction)
        requires
            self.wf(),
            rhs.wf(),
            rhs@.0 > 0,
            self@.0 * rhs@.1 <= u32::MAX,
            self@.1 * rhs@.0 <= u32::MAX,
        ensures
            r@ == lowest_terms(self@.0 * rhs@.1, self@.1 * rhs@.0),
    {
        let ratio = num::rational::Ratio::new_raw(self.numer, self.denom)
            / num::rational::Ratio::new_raw(rhs.numer, rhs.denom);
        Fraction { numer: *ratio.numer(), denom: *ratio.denom() }
    }

    /// Calls `num::rational::Ratio::trunc`, which divides the numerator by the
    /// denominator and returns the quotient as a whole fraction.
    #[verifier::external_body]
    pub(crate) fn trunc(self) -> (r: Fraction)
        requires
            self.wf(),
        ensures
            r@ == (self.floor(), 1nat),
    {
        let ratio = num::rational::Ratio::new_raw(self.numer, self.denom).trunc();
        Fraction { numer: *ratio.numer(), denom: *ratio.denom() }
    }

    /// Calls `num::rational::Ratio::to_integer`, which divides the numerator
    /// by the denominator.
    #[verifier::external_body]
    pub(crate) fn to_integer(self) -> (value: u32)
        requires
            self.wf(),
        ensures
            value == self.floor(),
    {
        num::rational::Ratio::new_raw(self.numer, self.denom).to_integer()
    }
}

} // verus!
