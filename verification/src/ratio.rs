//! Aspect-ratio reduction: divide width and height by their greatest common
//! divisor. A degenerate zero dimension is guarded, not divided by: the pair
//! comes back unreduced.

use vstd::prelude::*;
use vstd::arithmetic::div_mod::{
    lemma_fundamental_div_mod, lemma_fundamental_div_mod_converse, lemma_mod_self_0,
    lemma_small_mod,
};

verus! {

/// Greatest common divisor by the Euclidean recursion.
pub open spec fn spec_gcd(a: nat, b: nat) -> nat
    decreases b,
{
    if b == 0 {
        a
    } else {
        spec_gcd(b, a % b)
    }
}

pub proof fn lemma_gcd_pos(a: nat, b: nat)
    requires
        a > 0 || b > 0,
    ensures
        spec_gcd(a, b) > 0,
    decreases b,
{
    if b > 0 {
        lemma_gcd_pos(b, a % b);
    }
}

/// The gcd divides both of its arguments.
pub proof fn lemma_gcd_divides(a: nat, b: nat)
    requires
        a > 0 || b > 0,
    ensures
        a % spec_gcd(a, b) == 0,
        b % spec_gcd(a, b) == 0,
    decreases b,
{
    let g = spec_gcd(a, b);
    if b == 0 {
        lemma_mod_self_0(a as int);
        lemma_small_mod(0, a);
    } else {
        lemma_gcd_divides(b, a % b);
        lemma_gcd_pos(b, a % b);
        // b and a % b are both multiples of g; so is a == (a / b) * b + a % b.
        lemma_fundamental_div_mod(b as int, g as int);
        lemma_fundamental_div_mod((a % b) as int, g as int);
        lemma_fundamental_div_mod(a as int, b as int);
        let qb = b as int / g as int;
        let qr = (a % b) as int / g as int;
        let k = a as int / b as int;
        assert(a as int == g as int * (k * qb + qr)) by (nonlinear_arith)
            requires
                b as int == g as int * qb,
                (a % b) as int == g as int * qr,
                a as int == b as int * k + (a % b) as int,
        ;
        assert(k * qb + qr >= 0) by (nonlinear_arith)
            requires
                g as int * (k * qb + qr) == a as int,
                a as int >= 0,
                g as int > 0,
        ;
        lemma_fundamental_div_mod_converse(a as int, g as int, k * qb + qr, 0);
    }
}

/// Any common divisor of `a` and `b` divides their gcd.
pub proof fn lemma_gcd_greatest(a: nat, b: nat, d: nat)
    requires
        d > 0,
        a % d == 0,
        b % d == 0,
    ensures
        spec_gcd(a, b) % d == 0,
    decreases b,
{
    if b > 0 {
        // a % b == a - b * (a / b) is a multiple of d as well.
        lemma_fundamental_div_mod(a as int, b as int);
        lemma_fundamental_div_mod(a as int, d as int);
        lemma_fundamental_div_mod(b as int, d as int);
        let k = a as int / b as int;
        let qa = a as int / d as int;
        let qb = b as int / d as int;
        assert((a % b) as int == d as int * (qa - qb * k)) by (nonlinear_arith)
            requires
                a as int == d as int * qa,
                b as int == d as int * qb,
                a as int == b as int * k + (a % b) as int,
        ;
        assert(qa - qb * k >= 0) by (nonlinear_arith)
            requires
                d as int * (qa - qb * k) == (a % b) as int,
                (a % b) as int >= 0,
                d > 0,
        ;
        lemma_fundamental_div_mod_converse((a % b) as int, d as int, qa - qb * k, 0);
        lemma_gcd_greatest(b, a % b, d);
    }
}

/// Law: the reduced pair is coprime — dividing by the gcd normalizes the
/// ratio, leaving no further common factor.
pub proof fn lemma_reduced_coprime(w: nat, h: nat)
    requires
        w > 0,
        h > 0,
    ensures
        spec_gcd(spec_reduced(w, h).0, spec_reduced(w, h).1) == 1,
{
    let g = spec_gcd(w, h);
    lemma_gcd_pos(w, h);
    lemma_gcd_divides(w, h);
    lemma_fundamental_div_mod(w as int, g as int);
    lemma_fundamental_div_mod(h as int, g as int);
    let w2 = w / g;
    let h2 = h / g;
    assert(w2 > 0) by (nonlinear_arith)
        requires
            w as int == g as int * w2 as int,
            w > 0,
    ;
    assert(h2 > 0) by (nonlinear_arith)
        requires
            h as int == g as int * h2 as int,
            h > 0,
    ;
    let d = spec_gcd(w2, h2);
    lemma_gcd_pos(w2, h2);
    lemma_gcd_divides(w2, h2);
    lemma_fundamental_div_mod(w2 as int, d as int);
    lemma_fundamental_div_mod(h2 as int, d as int);
    let e = w2 as int / d as int;
    let f = h2 as int / d as int;
    // d divides w2 and h2, so d * g divides w and h.
    assert(w as int == (d * g) as int * e && e >= 0) by (nonlinear_arith)
        requires
            w as int == g as int * w2 as int,
            w2 as int == d as int * e,
            w > 0,
            d > 0,
            g > 0,
    ;
    assert(h as int == (d * g) as int * f && f >= 0) by (nonlinear_arith)
        requires
            h as int == g as int * h2 as int,
            h2 as int == d as int * f,
            h > 0,
            d > 0,
            g > 0,
    ;
    assert(d * g > 0) by (nonlinear_arith)
        requires
            d > 0,
            g > 0,
    ;
    assert(w as int == e * ((d * g) as int) + 0) by (nonlinear_arith)
        requires
            w as int == (d * g) as int * e,
    ;
    assert(h as int == f * ((d * g) as int) + 0) by (nonlinear_arith)
        requires
            h as int == (d * g) as int * f,
    ;
    lemma_fundamental_div_mod_converse(w as int, (d * g) as int, e, 0);
    lemma_fundamental_div_mod_converse(h as int, (d * g) as int, f, 0);
    // Hence d * g divides gcd(w, h) == g, which forces d == 1.
    lemma_gcd_greatest(w, h, d * g);
    if d > 1 {
        assert(g < d * g) by (nonlinear_arith)
            requires
                d > 1,
                g > 0,
        ;
        lemma_small_mod(g, d * g);
    }
}

/// The reduced ratio pair for a decoded width and height.
pub open spec fn spec_reduced(w: nat, h: nat) -> (nat, nat) {
    if w == 0 || h == 0 {
        (w, h)
    } else {
        (w / spec_gcd(w, h), h / spec_gcd(w, h))
    }
}

/// Greatest common divisor, the iterative Euclidean algorithm.
pub fn gcd(a: u32, b: u32) -> (g: u32)
    ensures
        g as nat == spec_gcd(a as nat, b as nat),
{
    let mut x = a;
    let mut y = b;
    while y != 0
        invariant
            spec_gcd(x as nat, y as nat) == spec_gcd(a as nat, b as nat),
        decreases y,
    {
        let t = y;
        y = x % y;
        x = t;
    }
    x
}

/// Reduce `(width, height)` by their greatest common divisor; with a zero
/// dimension the pair is returned unreduced.
pub fn calculate_aspect_ratio(width: u32, height: u32) -> (r: (u32, u32))
    ensures
        (r.0 as nat, r.1 as nat) == spec_reduced(width as nat, height as nat),
        width > 0 && height > 0 ==> r.0 as nat * spec_gcd(width as nat, height as nat)
            == width as nat && r.1 as nat * spec_gcd(width as nat, height as nat) == height as nat,
        width > 0 && height > 0 ==> spec_gcd(r.0 as nat, r.1 as nat) == 1,
{
    if width == 0 || height == 0 {
        (width, height)
    } else {
        let g = gcd(width, height);
        proof {
            lemma_gcd_pos(width as nat, height as nat);
            lemma_gcd_divides(width as nat, height as nat);
            lemma_reduced_coprime(width as nat, height as nat);
            lemma_fundamental_div_mod(width as int, g as int);
            lemma_fundamental_div_mod(height as int, g as int);
            assert((width as int / g as int) * g as int == width as int) by (nonlinear_arith)
                requires
                    width as int == g as int * (width as int / g as int),
            ;
            assert((height as int / g as int) * g as int == height as int) by (nonlinear_arith)
                requires
                    height as int == g as int * (height as int / g as int),
            ;
        }
        (width / g, height / g)
    }
}

} // verus!
