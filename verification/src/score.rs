//! The complexity-scoring model: a calibrated linear combination of lines of
//! code, cyclomatic complexity and structure counts, carried in thousandths
//! of a point so that the weights stay exact.

use vstd::prelude::*;

verus! {

/// Integer square root, rounded down.
pub open spec fn sqrt_floor(n: nat) -> nat
    decreases n,
{
    if n == 0 {
        0
    } else {
        let s = sqrt_floor((n - 1) as nat);
        if (s + 1) * (s + 1) <= n {
            s + 1
        } else {
            s
        }
    }
}

pub proof fn lemma_sqrt_floor_bounds(n: nat)
    ensures
        sqrt_floor(n) * sqrt_floor(n) <= n,
        n < (sqrt_floor(n) + 1) * (sqrt_floor(n) + 1),
    decreases n,
{
    if n > 0 {
        lemma_sqrt_floor_bounds((n - 1) as nat);
        let s = sqrt_floor((n - 1) as nat);
        if (s + 1) * (s + 1) <= n {
            assert(sqrt_floor(n) == s + 1);
            assert((s + 2) * (s + 2) > n) by (nonlinear_arith)
                requires (n - 1) < (s + 1) * (s + 1);
            assert(sqrt_floor(n) * sqrt_floor(n) <= n);
            assert(n < (sqrt_floor(n) + 1) * (sqrt_floor(n) + 1));
        } else {
            assert(sqrt_floor(n) == s);
            assert(sqrt_floor(n) * sqrt_floor(n) <= n);
            assert(n < (sqrt_floor(n) + 1) * (sqrt_floor(n) + 1));
        }
    } else {
        assert(sqrt_floor(n) == 0);
        assert(n < (sqrt_floor(n) + 1) * (sqrt_floor(n) + 1)) by (nonlinear_arith)
            requires n == 0, sqrt_floor(n) == 0;
    }
}

/// The floor square root is the unique `r` with `r * r <= n < (r + 1) * (r + 1)`.
pub proof fn lemma_sqrt_floor_unique(n: nat, r: nat)
    requires
        r * r <= n,
        n < (r + 1) * (r + 1),
    ensures
        r == sqrt_floor(n),
{
    lemma_sqrt_floor_bounds(n);
    let s = sqrt_floor(n);
    if r < s {
        assert((r + 1) * (r + 1) <= s * s) by (nonlinear_arith)
            requires r + 1 <= s;
    }
    if s < r {
        assert((s + 1) * (s + 1) <= r * r) by (nonlinear_arith)
            requires s + 1 <= r;
    }
}

/// Computes the integer square root of `n`.
pub fn isqrt(n: u64) -> (r: u64)
    ensures
        r == sqrt_floor(n as nat),
{
    let wide = isqrt_wide(n as u128);
    proof {
        assert(wide == sqrt_floor(n as nat));
        lemma_sqrt_floor_bounds(n as nat);
        assert(sqrt_floor(n as nat) * sqrt_floor(n as nat) <= n as nat);
        assert(sqrt_floor(n as nat) <= 0xFFFF_FFFF_FFFF_FFFF) by (nonlinear_arith)
            requires
                sqrt_floor(n as nat) * sqrt_floor(n as nat) <= n as nat,
                (n as nat) < 0x1_0000_0000_0000_0000;
    }
    wide as u64
}

/// Computes the integer square root of a 128-bit value.
pub fn isqrt_wide(n: u128) -> (r: u128)
    ensures
        r == sqrt_floor(n as nat),
        r < 0x1_0000_0000_0000_0000,
{
    let mut lo: u128 = 0;
    let mut hi: u128 = if n < 0xFFFF_FFFF_FFFF_FFFF {
        n + 1
    } else {
        0x1_0000_0000_0000_0000
    };
    proof {
        assert((hi as nat) * (hi as nat) > n as nat) by (nonlinear_arith)
            requires
                (hi as nat) > (n as nat) || (hi as nat == 0x1_0000_0000_0000_0000
                    && (n as nat) < 0x1_0000_0000_0000_0000_0000_0000_0000_0000);
    }
    while lo + 1 < hi
        invariant
            lo < hi <= 0x1_0000_0000_0000_0000,
            (lo as nat) * (lo as nat) <= n as nat,
            (n as nat) < (hi as nat) * (hi as nat),
        decreases hi - lo,
    {
        let mid = lo + (hi - lo) / 2;
        proof {
            assert((mid as nat) * (mid as nat) < 0x1_0000_0000_0000_0000_0000_0000_0000_0000)
                by (nonlinear_arith)
                requires (mid as nat) < 0x1_0000_0000_0000_0000;
        }
        if mid * mid <= n {
            lo = mid;
        } else {
            hi = mid;
        }
    }
    proof {
        lemma_sqrt_floor_unique(n as nat, lo as nat);
    }
    lo
}

/// The complexity score of a file, in thousandths of a point.
///
/// `loc_factor + cc_factor + structure_factor`, where the lines-of-code
/// factor is `min(loc / 200, 5.0)`, the cyclomatic factor is `cc * 0.4`, and
/// the structure factor is `sqrt(functions) * 0.3 + sqrt(classes) * 0.15`,
/// all scaled by 1000 and rounded down.
pub open spec fn spec_complexity_score_milli(
    loc: nat,
    cc: nat,
    functions: nat,
    classes: nat,
) -> int {
    let loc_factor: int = if 5 * loc > 5000 { 5000int } else { 5 * (loc as int) };
    let cc_factor: int = 400 * (cc as int);
    let fn_factor: int = (sqrt_floor(1_000_000 * functions) as int) * 300 / 1000;
    let class_factor: int = (sqrt_floor(1_000_000 * classes) as int) * 150 / 1000;
    loc_factor + cc_factor + fn_factor + class_factor
}

/// The score saturates at `u64::MAX` thousandths.
pub open spec fn spec_score_saturated(loc: nat, cc: nat, functions: nat, classes: nat) -> u64 {
    let s = spec_complexity_score_milli(loc, cc, functions, classes);
    if s > 0xFFFF_FFFF_FFFF_FFFF {
        0xFFFF_FFFF_FFFF_FFFF as u64
    } else {
        s as u64
    }
}

/// Computes the complexity score, in thousandths of a point.
pub fn complexity_score_milli(loc: usize, cc: usize, functions: usize, classes: usize) -> (r: u64)
    ensures
        r == spec_score_saturated(loc as nat, cc as nat, functions as nat, classes as nat),
{
    let loc_w: u128 = loc as u128;
    let loc_factor: u128 = if loc_w * 5 > 5000 { 5000 } else { loc_w * 5 };
    let cc_factor: u128 = 400 * (cc as u128);
    let fn_factor: u128 = (isqrt_wide(1_000_000 * (functions as u128)) * 300) / 1000;
    let class_factor: u128 = (isqrt_wide(1_000_000 * (classes as u128)) * 150) / 1000;
    let total: u128 = loc_factor + cc_factor + fn_factor + class_factor;
    if total > 0xFFFF_FFFF_FFFF_FFFF {
        0xFFFF_FFFF_FFFF_FFFF as u64
    } else {
        total as u64
    }
}

} // verus!
