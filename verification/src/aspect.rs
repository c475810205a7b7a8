//! The aspect of a viewport: the ratio of its width to its height.
//!
//! The aspect is kept as a fraction in lowest terms, so that two viewports
//! of the same shape have the same aspect, whatever their sizes.

use vstd::arithmetic::div_mod::{
    lemma_div_multiples_vanish_quotient,
    lemma_fundamental_div_mod,
    lemma_mod_multiples_basic,
    lemma_mod_self_0,
    lemma_truncate_middle,
};
use vstd::prelude::*;

verus! {

/// The greatest common divisor of two natural numbers, and 0 for two zeros.
pub open spec fn gcd(a: nat, b: nat) -> nat
    decreases b,
{
    if b == 0 {
        a
    } else {
        gcd(b, a % b)
    }
}

/// A multiple of `d` leaves no remainder when divided by `d`.
proof fn lemma_multiple_has_no_remainder(d: nat, k: nat)
    requires
        d > 0,
    ensures
        (d * k) % d == 0,
{
    lemma_mod_multiples_basic(k as int, d as int);
    assert(d * k == k * d) by (nonlinear_arith);
}

/// A number that leaves no remainder is its divisor times the quotient.
proof fn lemma_no_remainder_is_multiple(n: nat, d: nat)
    requires
        d > 0,
        n % d == 0,
    ensures
        n == d * (n / d),
{
    lemma_fundamental_div_mod(n as int, d as int);
}

/// What divides two numbers divides the remainder of one by the other.
proof fn lemma_divisor_of_remainder(a: nat, b: nat, d: nat)
    requires
        d > 0,
        b > 0,
        a % d == 0,
        b % d == 0,
    ensures
        (a % b) % d == 0,
{
    lemma_no_remainder_is_multiple(a, d);
    lemma_no_remainder_is_multiple(b, d);
    lemma_fundamental_div_mod(a as int, b as int);
    let q = a / b;
    let r = a % b;
    let ka = a / d;
    let kb = b / d;
    assert(ka >= kb * q) by (nonlinear_arith)
        requires
            d > 0,
            a == d * ka,
            b == d * kb,
            a == b * q + r,
            r >= 0,
    {
        assert(d * ka >= d * (kb * q));
    }
    let k = (ka - kb * q) as nat;
    assert(r == d * k) by (nonlinear_arith)
        requires
            a == d * ka,
            b == d * kb,
            a == b * q + r,
            k == ka - kb * q,
    ;
    lemma_multiple_has_no_remainder(d, k);
}

/// What divides a number and a remainder by it divides the dividend.
proof fn lemma_divisor_of_dividend(a: nat, b: nat, d: nat)
    requires
        d > 0,
        b > 0,
        b % d == 0,
        (a % b) % d == 0,
    ensures
        a % d == 0,
{
    lemma_no_remainder_is_multiple(b, d);
    lemma_no_remainder_is_multiple(a % b, d);
    lemma_fundamental_div_mod(a as int, b as int);
    let q = a / b;
    let r = a % b;
    let kb = b / d;
    let kr = r / d;
    let k = kb * q + kr;
    assert(a == d * k) by (nonlinear_arith)
        requires
            b == d * kb,
            r == d * kr,
            a == b * q + r,
            k == kb * q + kr,
    ;
    lemma_multiple_has_no_remainder(d, k);
}

/// The greatest common divisor of two numbers, not both zero, is positive
/// and divides both.
pub proof fn lemma_gcd_divides(a: nat, b: nat)
    requires
        a > 0 || b > 0,
    ensures
        gcd(a, b) > 0,
        a % gcd(a, b) == 0,
        b % gcd(a, b) == 0,
    decreases b,
{
    if b == 0 {
        lemma_mod_self_0(a as int);
    } else {
        lemma_gcd_divides(b, a % b);
        lemma_divisor_of_dividend(a, b, gcd(a, b));
    }
}

/// Every common divisor of two numbers divides their greatest common
/// divisor.
pub proof fn lemma_gcd_is_greatest(a: nat, b: nat, d: nat)
    requires
        d > 0,
        a % d == 0,
        b % d == 0,
    ensures
        gcd(a, b) % d == 0,
    decreases b,
{
    if b != 0 {
        lemma_divisor_of_remainder(a, b, d);
        lemma_gcd_is_greatest(b, a % b, d);
    }
}

/// Scaling two numbers scales their greatest common divisor.
pub proof fn lemma_gcd_scales(a: nat, b: nat, k: nat)
    requires
        k > 0,
    ensures
        gcd(k * a, k * b) == k * gcd(a, b),
    decreases b,
{
    if b == 0 {
        assert(k * b == 0) by (nonlinear_arith)
            requires
                b == 0,
        ;
    } else {
        lemma_truncate_middle(a as int, k as int, b as int);
        assert((k * a) % (k * b) == k * (a % b));
        lemma_gcd_scales(b, a % b, k);
    }
}

/// Computes the greatest common divisor by Euclid's algorithm.
pub fn greatest_common_divisor(a: u32, b: u32) -> (g: u32)
    ensures
        g == gcd(a as nat, b as nat),
{
    let mut x: u32 = a;
    let mut y: u32 = b;
    while y != 0
        invariant
            gcd(x as nat, y as nat) == gcd(a as nat, b as nat),
        decreases y,
    {
        let r: u32 = x % y;
        x = y;
        y = r;
    }
    x
}

/// The ratio of a viewport's width to its height, in lowest terms.
#[derive(Debug, Clone, Copy, PartialEq, Eq, Structural)]
pub struct AspectRatio {
    pub num: u32,
    pub den: u32,
}

impl AspectRatio {
    /// The fraction has a denominator and is in lowest terms.
    pub open spec fn wf(self) -> bool {
        &&& self.den > 0
        &&& gcd(self.num as nat, self.den as nat) == 1
    }

    /// The aspect of a viewport as wide as it is high.
    pub open spec fn spec_square() -> AspectRatio {
        AspectRatio { num: 1, den: 1 }
    }

    /// The aspect of a viewport of the given size; a viewport without
    /// height has none.
    pub open spec fn spec_of(width: u32, height: u32) -> Option<AspectRatio> {
        if height == 0 {
            None
        } else {
            let g = gcd(width as nat, height as nat);
            Some(AspectRatio { num: (width as nat / g) as u32, den: (height as nat / g) as u32 })
        }
    }

    /// The aspect of a square viewport.
    pub fn square() -> (aspect: AspectRatio)
        ensures
            aspect == Self::spec_square(),
            aspect.wf(),
    {
        assert(gcd(1, 1) == 1) by {
            reveal_with_fuel(gcd, 3);
        }
        AspectRatio { num: 1, den: 1 }
    }

    /// The aspect of a viewport `width` pixels wide and `height` pixels
    /// high: the fraction `width / height`, reduced. There is none for a
    /// viewport without height.
    pub fn of(width: u32, height: u32) -> (aspect: Option<AspectRatio>)
        ensures
            aspect == Self::spec_of(width, height),
            aspect matches Some(a) ==> {
                &&& a.wf()
                &&& a.num * height == a.den * width
            },
    {
        if height == 0 {
            return None;
        }
        let g: u32 = greatest_common_divisor(width, height);
        proof {
            lemma_reduced(width as nat, height as nat);
        }
        Some(AspectRatio { num: width / g, den: height / g })
    }
}

/// Dividing two numbers by their greatest common divisor leaves a fraction
/// of the same value whose parts have no common divisor but 1.
pub proof fn lemma_reduced(width: nat, height: nat)
    requires
        height > 0,
    ensures
        gcd(width, height) > 0,
        height / gcd(width, height) > 0,
        width / gcd(width, height) <= width,
        height / gcd(width, height) <= height,
        gcd(width / gcd(width, height), height / gcd(width, height)) == 1,
        (width / gcd(width, height)) * height == (height / gcd(width, height)) * width,
        width == gcd(width, height) * (width / gcd(width, height)),
        height == gcd(width, height) * (height / gcd(width, height)),
{
    let g = gcd(width, height);
    lemma_gcd_divides(width, height);
    lemma_no_remainder_is_multiple(width, g);
    lemma_no_remainder_is_multiple(height, g);
    let w = width / g;
    let h = height / g;
    lemma_gcd_scales(w, h, g);
    assert(gcd(w, h) == 1) by (nonlinear_arith)
        requires
            g > 0,
            g == g * gcd(w, h),
    ;
    assert(h > 0 && w <= width && h <= height) by (nonlinear_arith)
        requires
            g > 0,
            height > 0,
            width == g * w,
            height == g * h,
    ;
    assert(w * height == h * width) by (nonlinear_arith)
        requires
            width == g * w,
            height == g * h,
    ;
}

/// Two viewports of the same shape have the same aspect: if their widths
/// are to each other as their heights, their reduced fractions are one.
pub proof fn lemma_aspect_of_same_shape(width: u32, height: u32, other_width: u32, other_height: u32)
    requires
        height > 0,
        other_height > 0,
        width * other_height == other_width * height,
    ensures
        AspectRatio::spec_of(width, height) == AspectRatio::spec_of(other_width, other_height),
{
    let g = gcd(width as nat, height as nat);
    let a = width as nat / g;
    let b = height as nat / g;
    let other_g = gcd(other_width as nat, other_height as nat);
    let c = other_width as nat / other_g;
    let d = other_height as nat / other_g;
    lemma_reduced(width as nat, height as nat);
    lemma_reduced(other_width as nat, other_height as nat);
    assert(a * d == c * b) by (nonlinear_arith)
        requires
            g > 0,
            other_g > 0,
            width == g * a,
            height == g * b,
            other_width == other_g * c,
            other_height == other_g * d,
            width * other_height == other_width * height,
    {
        assert((g * other_g) * (a * d) == (g * other_g) * (c * b));
    }
    lemma_gcd_scales(a, b, d);
    lemma_gcd_scales(c, d, b);
    assert(d * a == b * c && d * b == b * d && d * 1 == d && b * 1 == b) by (nonlinear_arith)
        requires
            a * d == c * b,
    ;
    assert(d == b);
    assert(a == c) by (nonlinear_arith)
        requires
            a * d == c * b,
            d == b,
            d > 0,
    ;
}

/// A viewport scaled by a factor in both directions has the aspect of the
/// viewport itself.
pub proof fn lemma_aspect_ignores_scale(width: u32, height: u32, k: u32)
    requires
        k > 0,
        k * width <= u32::MAX,
        k * height <= u32::MAX,
    ensures
        AspectRatio::spec_of((k * width) as u32, (k * height) as u32) == AspectRatio::spec_of(
            width,
            height,
        ),
{
    if height == 0 {
        assert(k * height == 0) by (nonlinear_arith)
            requires
                height == 0,
        ;
    } else {
        let w = width as nat;
        let h = height as nat;
        let g = gcd(w, h);
        assert(k * height > 0) by (nonlinear_arith)
            requires
                k > 0,
                height > 0,
        ;
        lemma_gcd_scales(w, h, k as nat);
        lemma_gcd_divides(w, h);
        lemma_div_multiples_vanish_quotient(k as int, w as int, g as int);
        lemma_div_multiples_vanish_quotient(k as int, h as int, g as int);
        assert((k * width) as u32 as nat == k as nat * w);
        assert((k * height) as u32 as nat == k as nat * h);
    }
}

} // verus!
