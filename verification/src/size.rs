//! Human-readable rendering of a byte count: the largest unit among B, KB, MB
//! and GB that keeps the magnitude under 1024 (GB however large the count),
//! the B tier as a whole number, every other tier with exactly two decimals.

use vstd::prelude::*;
use vstd::arithmetic::div_mod::{
    lemma_div_is_ordered, lemma_div_multiples_vanish, lemma_fundamental_div_mod,
};
use vstd::string::StringExecFns;
use crate::digits::{spec_dec, spec_two_dec, two_dec, u64_to_dec};

verus! {

pub const KIB: u64 = 1024;

pub const MIB: u64 = 1048576;

pub const GIB: u64 = 1073741824;

/// `x / d` rounded to the nearest integer, ties going to the even neighbour.
pub open spec fn round_nearest_even(x: nat, d: nat) -> nat
    recommends
        d > 0,
{
    let q = x / d;
    let r = x % d;
    if 2 * r > d {
        q + 1
    } else if 2 * r == d && q % 2 == 1 {
        q + 1
    } else {
        q
    }
}

/// The magnitude of `n` bytes in the unit whose size is `d` bytes, in
/// hundredths (so two decimal digits are exact).
pub open spec fn spec_hundredths(n: nat, d: nat) -> nat {
    round_nearest_even(n * 100, d)
}

/// The full rendering of a byte count `n`.
pub open spec fn spec_format_size(n: nat) -> Seq<char> {
    if n < KIB {
        spec_dec(n) + seq![' ', 'B']
    } else if n < MIB {
        spec_two_dec(spec_hundredths(n, KIB as nat)) + seq![' ', 'K', 'B']
    } else if n < GIB {
        spec_two_dec(spec_hundredths(n, MIB as nat)) + seq![' ', 'M', 'B']
    } else {
        spec_two_dec(spec_hundredths(n, GIB as nat)) + seq![' ', 'G', 'B']
    }
}

fn hundredths(n: u64, d: u64) -> (h: u64)
    requires
        d == KIB || d == MIB || d == GIB,
    ensures
        h as nat == spec_hundredths(n as nat, d as nat),
{
    let x: u128 = (n as u128) * 100;
    let dd: u128 = d as u128;
    let q: u128 = x / dd;
    let r: u128 = x % dd;
    proof {
        assert(q * 1024 <= q * dd) by (nonlinear_arith)
            requires
                1024 <= dd,
                0 <= q,
        ;
        lemma_fundamental_div_mod(x as int, dd as int);
        assert(q <= x);
    }
    let rounded: u128 = if 2 * r > dd {
        q + 1
    } else if 2 * r == dd && q % 2 == 1 {
        q + 1
    } else {
        q
    };
    proof {
        assert(rounded <= q + 1);
        assert(q * 1024 <= x);
        assert(q <= u64::MAX as u128) by (nonlinear_arith)
            requires
                q * 1024 <= x,
                x <= (u64::MAX as u128) * 100,
        ;
    }
    rounded as u64
}

/// Render a byte count with its unit, per [`spec_format_size`].
pub fn format_size(size: u64) -> (r: String)
    ensures
        r@ == spec_format_size(size as nat),
{
    if size < KIB {
        let r = u64_to_dec(size).concat(" B");
        proof {
            reveal_strlit(" B");
            assert(r@ =~= spec_format_size(size as nat));
        }
        r
    } else if size < MIB {
        let r = two_dec(hundredths(size, KIB)).concat(" KB");
        proof {
            reveal_strlit(" KB");
            assert(r@ =~= spec_format_size(size as nat));
        }
        r
    } else if size < GIB {
        let r = two_dec(hundredths(size, MIB)).concat(" MB");
        proof {
            reveal_strlit(" MB");
            assert(r@ =~= spec_format_size(size as nat));
        }
        r
    } else {
        let r = two_dec(hundredths(size, GIB)).concat(" GB");
        proof {
            reveal_strlit(" GB");
            assert(r@ =~= spec_format_size(size as nat));
        }
        r
    }
}

/// Law: a size of at least 1024 GB still renders in the GB tier, with a
/// magnitude of at least 1024.00 (there is no TB tier).
pub proof fn lemma_gb_tier_magnitude(size: u64)
    requires
        size >= 1024 * (GIB as nat),
    ensures
        spec_format_size(size as nat) == spec_two_dec(spec_hundredths(size as nat, GIB as nat))
            + seq![' ', 'G', 'B'],
        spec_hundredths(size as nat, GIB as nat) >= 102400,
{
    let x = (size as nat) * 100;
    let g = GIB as nat;
    assert(x >= 102400 * g) by (nonlinear_arith)
        requires
            size as nat >= 1024 * g,
            x == (size as nat) * 100,
    ;
    lemma_div_is_ordered(102400 * g as int, x as int, g as int);
    lemma_div_multiples_vanish(102400, g as int);
    assert(x / g >= 102400);
}

} // verus!
