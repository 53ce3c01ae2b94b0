//! Linear interpolation between byte values, both for a single pair and for a
//! piecewise vector of control points.
//!
//! The interpolation factor is the exact rational `numerator / denominator`.
//! A factor above one is clamped: interpolation never extrapolates past the
//! end value.

use vstd::arithmetic::div_mod::lemma_div_is_ordered;
use vstd::arithmetic::mul::lemma_mul_inequality;
use vstd::prelude::*;

verus! {

/// The linear blend of `start` and `end` at the factor `num / den`: `start`
/// at factor zero, `end` at factor one, and `end` again for any larger
/// factor. Division truncates towards zero.
pub open spec fn spec_lerp(start: u8, end: u8, num: u32, den: u32) -> u8
    recommends
        den > 0,
{
    if num >= den {
        end
    } else if start <= end {
        (start as int + (end - start) * num / (den as int)) as u8
    } else {
        (start as int - (start - end) * num / (den as int)) as u8
    }
}

/// The result of `spec_lerp` lies between `start` and `end`.
pub proof fn lemma_lerp_bounds(start: u8, end: u8, num: u32, den: u32)
    requires
        den > 0,
    ensures
        start <= end ==> start <= spec_lerp(start, end, num, den) <= end,
        start >= end ==> end <= spec_lerp(start, end, num, den) <= start,
{
    if num < den {
        let d = if start <= end {
            (end - start) as int
        } else {
            (start - end) as int
        };
        lemma_mul_inequality(num as int, den as int, d);
        lemma_div_is_ordered(d * num, d * den, den as int);
        assert(d * den / den as int == d) by (nonlinear_arith)
            requires
                den > 0,
        ;
        assert(d * num >= 0) by (nonlinear_arith)
            requires
                d >= 0 && num >= 0,
        ;
    }
}

/// For a fixed start, end and denominator with `start <= end`, the blend is
/// non-decreasing in the numerator.
pub proof fn lemma_lerp_monotonic(start: u8, end: u8, num1: u32, num2: u32, den: u32)
    requires
        den > 0,
        start <= end,
        num1 <= num2,
    ensures
        spec_lerp(start, end, num1, den) <= spec_lerp(start, end, num2, den),
{
    lemma_lerp_bounds(start, end, num1, den);
    lemma_lerp_bounds(start, end, num2, den);
    if num2 < den {
        let d = (end - start) as int;
        lemma_scaled_diff_bounds(d, num1 as int, den as int);
        lemma_scaled_diff_bounds(d, num2 as int, den as int);
        lemma_mul_inequality(num1 as int, num2 as int, d);
        lemma_div_is_ordered(d * num1, d * num2, den as int);
        assert(start + d * num1 / (den as int) <= start + d * num2 / (den as int) <= 255);
    }
}

/// Interpolates linearly between `start` and `end` with the factor
/// `num / den`, clamping factors above one to the end value.
pub fn lerp(start: u8, end: u8, num: u32, den: u32) -> (r: u8)
    requires
        den > 0,
    ensures
        r == spec_lerp(start, end, num, den),
{
    proof {
        lemma_lerp_bounds(start, end, num, den);
    }
    if num >= den {
        end
    } else if start <= end {
        let diff = (end - start) as u64;
        proof {
            lemma_scaled_diff_bounds(diff as int, num as int, den as int);
        }
        let scaled = (diff * (num as u64) / (den as u64)) as u8;
        start + scaled
    } else {
        let diff = (start - end) as u64;
        proof {
            lemma_scaled_diff_bounds(diff as int, num as int, den as int);
        }
        let scaled = (diff * (num as u64) / (den as u64)) as u8;
        start - scaled
    }
}

/// Scaling a byte-sized difference by a factor below one keeps it within the
/// difference, and the product stays far below the 64-bit range.
proof fn lemma_scaled_diff_bounds(diff: int, num: int, den: int)
    requires
        0 <= diff <= 255,
        0 <= num < den,
    ensures
        0 <= diff * num <= 255 * (den - 1),
        0 <= diff * num / den <= diff,
{
    lemma_mul_inequality(num, den, diff);
    lemma_div_is_ordered(diff * num, diff * den, den);
    assert(diff * den / den == diff) by (nonlinear_arith)
        requires
            den > 0,
    ;
    assert(diff * num >= 0 && diff * num <= 255 * (den - 1)) by (nonlinear_arith)
        requires
            0 <= diff <= 255 && 0 <= num <= den - 1,
    ;
    lemma_div_is_ordered(0, diff * num, den);
}

/// A value that supports linear interpolation towards another value of the
/// same type, at a factor given as the exact rational `num / den`.
pub trait Interpolate: Sized {
    /// The interpolated value, as a mathematical function of the endpoints
    /// and the factor.
    spec fn spec_lerp_between(self, other: Self, num: u32, den: u32) -> Self;

    /// Interpolates from `self` towards `other` with the factor `num / den`.
    fn lerp(&self, other: &Self, num: u32, den: u32) -> (r: Self)
        requires
            den > 0,
        ensures
            r == self.spec_lerp_between(*other, num, den),
    ;
}

impl Interpolate for u8 {
    open spec fn spec_lerp_between(self, other: u8, num: u32, den: u32) -> u8 {
        spec_lerp(self, other, num, den)
    }

    fn lerp(&self, other: &u8, num: u32, den: u32) -> (r: u8) {
        lerp(*self, *other, num, den)
    }
}

/// The piecewise interpolation of a sequence of control points at `input`:
/// the first value left of the first key, the last value right of the last
/// key, and the linear blend of the two neighbouring points in between.
pub open spec fn spec_interpolate_points<T: Interpolate + Copy>(s: Seq<(u8, T)>, input: u8) -> T
    recommends
        s.len() >= 1,
    decreases s.len(),
{
    if s.len() <= 1 || input <= s[0].0 {
        s[0].1
    } else if input < s[1].0 {
        s[0].1.spec_lerp_between(
            s[1].1,
            (input - s[0].0) as u32,
            (s[1].0 - s[0].0) as u32,
        )
    } else {
        spec_interpolate_points(s.drop_first(), input)
    }
}

/// Piecewise linear interpolation over a vector of control points whose keys
/// are strictly ascending. Inputs outside the key range are clamped to the
/// nearest endpoint value.
pub struct VectorInterpolation<T: Interpolate + Copy> {
    vector: Vec<(u8, T)>,
}

impl<T: Interpolate + Copy> VectorInterpolation<T> {
    /// At least two control points, with strictly ascending keys.
    #[verifier::type_invariant]
    spec fn inv(self) -> bool {
        &&& self.vector@.len() >= 2
        &&& forall|i: int|
            0 <= i < self.vector@.len() - 1 ==> (#[trigger] self.vector@[i]).0 < self.vector@[i
                + 1].0
    }

    /// The control points, in ascending key order.
    pub closed spec fn points(self) -> Seq<(u8, T)> {
        self.vector@
    }

    /// Validates the control points: at least two, strictly ascending keys.
    pub fn new(vector: Vec<(u8, T)>) -> (r: Result<VectorInterpolation<T>, &'static str>)
        ensures
            match r {
                Ok(v) => v.points() == vector@ && vector@.len() >= 2 && (forall|i: int|
                    0 <= i < vector@.len() - 1 ==> (#[trigger] vector@[i]).0 < vector@[i + 1].0),
                Err(m) => m@ == "requires at least 2 points"@ && vector@.len() < 2 || m@
                    == "the keys must be strictly ascending"@ && (exists|i: int|
                    0 <= i < vector@.len() - 1 && (#[trigger] vector@[i]).0 >= vector@[i + 1].0),
            },
    {
        if vector.len() < 2 {
            return Err("requires at least 2 points");
        }
        let n = vector.len();
        let mut i: usize = 0;
        while i + 1 < n
            invariant
                n == vector@.len(),
                2 <= n,
                i < n,
                forall|j: int| 0 <= j < i ==> (#[trigger] vector@[j]).0 < vector@[j + 1].0,
            decreases n - i,
        {
            if vector[i].0 >= vector[i + 1].0 {
                return Err("the keys must be strictly ascending");
            }
            i += 1;
        }
        Ok(VectorInterpolation { vector })
    }

    /// Interpolates the value at `input` over the control points.
    pub fn interpolate(&self, input: u8) -> (r: T)
        ensures
            r == self.spec_interpolate(input),
    {
        proof {
            use_type_invariant(self);
            assert(self.points().skip(0) =~= self.points());
        }
        let n = self.vector.len();
        let mut i: usize = 0;
        while i + 1 < n
            invariant
                n == self.points().len(),
                2 <= n,
                i < n,
                self.inv(),
                spec_interpolate_points(self.points().skip(i as int), input)
                    == self.spec_interpolate(input),
            decreases n - i,
        {
            let (key, value) = self.vector[i];
            let (next_key, next_value) = self.vector[i + 1];
            if input <= key {
                return value;
            }
            if input < next_key {
                return value.lerp(
                    &next_value,
                    (input - key) as u32,
                    (next_key - key) as u32,
                );
            }
            proof {
                assert(self.points().skip(i as int).drop_first() =~= self.points().skip(
                    i as int + 1,
                ));
            }
            i += 1;
        }
        let (_, last_value) = self.vector[i];
        last_value
    }

    /// The interpolated value at `input`.
    pub open spec fn spec_interpolate(self, input: u8) -> T {
        spec_interpolate_points(self.points(), input)
    }
}

} // verus!
