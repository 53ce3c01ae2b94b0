//! Euclidean distance between 2d points, rounded to the nearest unsigned
//! integer.

use vstd::prelude::*;

verus! {

/// The absolute difference of two coordinates.
pub open spec fn spec_abs_diff(a: u32, b: u32) -> u32 {
    if a >= b {
        (a - b) as u32
    } else {
        (b - a) as u32
    }
}

/// Returns the absolute difference of two coordinates.
pub fn abs_diff(a: u32, b: u32) -> (r: u32)
    ensures
        r == spec_abs_diff(a, b),
{
    if a >= b {
        a - b
    } else {
        b - a
    }
}

/// `r` is the integer square root of `n`, rounded down.
pub open spec fn is_sqrt_floor(n: int, r: int) -> bool {
    &&& 0 <= r
    &&& r * r <= n
    &&& n < (r + 1) * (r + 1)
}

/// The integer square root, rounded down. Meaningful for `n >= 0`, where
/// exactly one `r` satisfies `is_sqrt_floor`.
pub open spec fn spec_sqrt_floor(n: int) -> int {
    choose|r: int| is_sqrt_floor(n, r)
}

/// At most one integer is the rounded-down square root of `n`.
pub proof fn lemma_sqrt_floor_unique(n: int, r1: int, r2: int)
    requires
        is_sqrt_floor(n, r1),
        is_sqrt_floor(n, r2),
    ensures
        r1 == r2,
{
    assert(r1 == r2) by (nonlinear_arith)
        requires
            0 <= r1 && r1 * r1 <= n && n < (r1 + 1) * (r1 + 1),
            0 <= r2 && r2 * r2 <= n && n < (r2 + 1) * (r2 + 1),
    ;
}

/// The Euclidean distance between `(x1, y1)` and `(x2, y2)`, rounded to the
/// nearest integer (half-way cases round up) and saturated at `u32::MAX`.
pub open spec fn spec_distance(x1: u32, y1: u32, x2: u32, y2: u32) -> u32 {
    let dx = spec_abs_diff(x1, x2) as int;
    let dy = spec_abs_diff(y1, y2) as int;
    let n = dx * dx + dy * dy;
    let r = spec_sqrt_floor(n);
    let rounded = if n - r * r > r {
        r + 1
    } else {
        r
    };
    if rounded > u32::MAX {
        u32::MAX
    } else {
        rounded as u32
    }
}

/// The integer square root of `n`, rounded down, by bisection.
fn sqrt_floor(n: u128) -> (r: u64)
    requires
        n < 0x4_0000_0000_0000_0000,
    ensures
        is_sqrt_floor(n as int, r as int),
        r == spec_sqrt_floor(n as int),
        r <= 0x2_0000_0000,
{
    let mut lo: u64 = 0;
    let mut hi: u64 = 0x2_0000_0000;
    proof {
        assert(0x2_0000_0000int * 0x2_0000_0000int == 0x4_0000_0000_0000_0000int)
            by (nonlinear_arith);
    }
    while lo + 1 < hi
        invariant
            lo < hi <= 0x2_0000_0000,
            (lo as int) * (lo as int) <= n,
            n < (hi as int) * (hi as int),
        decreases hi - lo,
    {
        let mid = lo + (hi - lo) / 2;
        proof {
            assert((mid as int) * (mid as int) <= 0x4_0000_0000_0000_0000int) by (nonlinear_arith)
                requires
                    0 <= mid <= 0x2_0000_0000,
            ;
        }
        if (mid as u128) * (mid as u128) <= n {
            lo = mid;
        } else {
            hi = mid;
        }
    }
    proof {
        assert(is_sqrt_floor(n as int, lo as int));
        assert(exists|r: int| is_sqrt_floor(n as int, r));
        lemma_sqrt_floor_unique(n as int, lo as int, choose|r: int| is_sqrt_floor(n as int, r));
    }
    lo
}

/// Calculates the Euclidean distance between two points, rounded to the
/// nearest integer and saturated at `u32::MAX`.
pub fn calculate_distance(x1: u32, y1: u32, x2: u32, y2: u32) -> (d: u32)
    ensures
        d == spec_distance(x1, y1, x2, y2),
{
    let dx = abs_diff(x1, x2) as u128;
    let dy = abs_diff(y1, y2) as u128;
    proof {
        assert(dx * dx + dy * dy < 0x4_0000_0000_0000_0000) by (nonlinear_arith)
            requires
                0 <= dx < 0x1_0000_0000 && 0 <= dy < 0x1_0000_0000,
        ;
    }
    let n = dx * dx + dy * dy;
    let r = sqrt_floor(n);
    let rounded: u64 = if (n - (r as u128) * (r as u128)) > (r as u128) {
        r + 1
    } else {
        r
    };
    if rounded > (u32::MAX as u64) {
        u32::MAX
    } else {
        rounded as u32
    }
}

} // verus!
