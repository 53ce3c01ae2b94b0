//! A linear ramp between two byte values over a coordinate range.

use crate::distance::spec_abs_diff;
use crate::distance::abs_diff;
use crate::interpolation::lemma_lerp_bounds;
use crate::interpolation::lemma_lerp_monotonic;
use crate::interpolation::lerp;
use crate::interpolation::spec_lerp;
use vstd::prelude::*;

verus! {

/// A linear ramp from `value_start` to `value_end` over `length` coordinate
/// units beginning at `start`.
///
/// Inputs at or left of `start` give `value_start`; the ramp is clamped at
/// the far end, so inputs at or beyond `start + length` give `value_end`.
/// A zero `length` degenerates to a step from `value_start` to `value_end`
/// right after `start`.
#[derive(Clone, Copy, Debug, PartialEq, Eq, Structural)]
pub struct Gradient {
    pub value_start: u8,
    pub value_end: u8,
    pub start: u32,
    pub length: u32,
}

impl Gradient {
    pub fn new(value_start: u8, value_end: u8, start: u32, length: u32) -> (g: Gradient)
        ensures
            g == (Gradient { value_start, value_end, start, length }),
    {
        Gradient { value_start, value_end, start, length }
    }

    /// The ramp's value at `input`: `value_start` up to `start`, then the
    /// linear blend at the factor `(input - start) / length`, clamped to
    /// `value_end`.
    pub open spec fn spec_generate(self, input: u32) -> u8 {
        if input <= self.start {
            self.value_start
        } else if self.length == 0 {
            self.value_end
        } else {
            spec_lerp(self.value_start, self.value_end, (input - self.start) as u32, self.length)
        }
    }

    /// The symmetric ramp's value at `input`: the blend at the factor
    /// `|input - start| / length`, a V-shaped profile centered at `start`.
    pub open spec fn spec_generate_absolute(self, input: u32) -> u8 {
        let d = spec_abs_diff(self.start, input);
        if self.length == 0 {
            if d == 0 {
                self.value_start
            } else {
                self.value_end
            }
        } else {
            spec_lerp(self.value_start, self.value_end, d, self.length)
        }
    }

    /// Generates the gradient.
    pub fn generate(&self, input: u32) -> (r: u8)
        ensures
            r == self.spec_generate(input),
    {
        if input <= self.start {
            return self.value_start;
        }
        if self.length == 0 {
            return self.value_end;
        }
        lerp(self.value_start, self.value_end, input - self.start, self.length)
    }

    /// Generates the absolute gradient.
    pub fn generate_absolute(&self, input: u32) -> (r: u8)
        ensures
            r == self.spec_generate_absolute(input),
    {
        let d = abs_diff(self.start, input);
        if self.length == 0 {
            if d == 0 {
                return self.value_start;
            }
            return self.value_end;
        }
        lerp(self.value_start, self.value_end, d, self.length)
    }
}

/// The ramp returns `value_start` for every input at or left of `start`.
pub proof fn lemma_gradient_left_clamp(g: Gradient, input: u32)
    requires
        input <= g.start,
    ensures
        g.spec_generate(input) == g.value_start,
{
}

/// For a rising ramp, the generated value never decreases as the input
/// increases.
pub proof fn lemma_gradient_monotonic(g: Gradient, a: u32, b: u32)
    requires
        g.value_start < g.value_end,
        a <= b,
    ensures
        g.spec_generate(a) <= g.spec_generate(b),
{
    if a <= g.start {
        if b > g.start && g.length > 0 {
            lemma_lerp_bounds(g.value_start, g.value_end, (b - g.start) as u32, g.length);
        }
    } else if g.length > 0 {
        lemma_lerp_monotonic(
            g.value_start,
            g.value_end,
            (a - g.start) as u32,
            (b - g.start) as u32,
            g.length,
        );
    }
}

} // verus!
