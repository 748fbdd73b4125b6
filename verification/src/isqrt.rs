//! Integer square root.

use vstd::prelude::*;

verus! {

/// Whether `r` is the square root of `v`, rounded down.
pub open spec fn is_isqrt(v: nat, r: nat) -> bool {
    r * r <= v && v < (r + 1) * (r + 1)
}

proof fn lemma_square_mono(a: nat, b: nat)
    by (nonlinear_arith)
    requires
        a <= b,
    ensures
        a * a <= b * b,
{
}

/// The square root of `v`, rounded down.
pub fn isqrt(v: u128) -> (r: u64)
    ensures
        is_isqrt(v as nat, r as nat),
{
    // Invariant: lo² <= v < hi², found by halving [lo, hi).
    let mut lo: u128 = 0;
    let mut hi: u128 = 0x1_0000_0000_0000_0000;
    proof {
        assert(0x1_0000_0000_0000_0000u128 as nat * 0x1_0000_0000_0000_0000u128 as nat
            == 0x1_0000_0000_0000_0000_0000_0000_0000_0000nat) by (nonlinear_arith);
    }
    while hi - lo > 1
        invariant
            lo < hi <= 0x1_0000_0000_0000_0000,
            lo * lo <= v,
            v < hi * hi,
        decreases hi - lo,
    {
        let mid = lo + (hi - lo) / 2;
        proof {
            lemma_square_mono(mid as nat, 0xffff_ffff_ffff_ffff);
            assert(0xffff_ffff_ffff_ffffnat * 0xffff_ffff_ffff_ffffnat < 0x1_0000_0000_0000_0000_0000_0000_0000_0000nat) by (nonlinear_arith);
        }
        if mid * mid <= v {
            lo = mid;
        } else {
            hi = mid;
        }
    }
    proof {
        assert(hi == lo + 1);
    }
    lo as u64
}

} // verus!
