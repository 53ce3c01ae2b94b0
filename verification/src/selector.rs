//! Selects a value based on a byte input: a constant, an interpolation of a
//! pair or of a vector of control points, or an exact-match lookup.

use crate::interpolation::Interpolate;
use crate::interpolation::VectorInterpolation;
use std::collections::HashMap;
use vstd::prelude::*;

verus! {

broadcast use vstd::std_specs::hash::group_hash_axioms;

/// A value that a [`Selector`] can pick: interpolatable and copyable.
pub trait Selection: Interpolate + Copy {

}

impl Selection for u8 {

}

/// Selects an object of type T based on the input.
pub enum Selector<T: Selection> {
    /// Returns a specific element for every input.
    Const(T),
    /// Interpolates 2 elements linearly across the full byte range.
    InterpolatePair { first: T, second: T },
    /// Interpolates multiple elements piecewise over sorted control points.
    InterpolateVector(VectorInterpolation<T>),
    /// Looks the input up in a map or returns the default value.
    Lookup { lookup: HashMap<u8, T>, default: T },
}

impl<T: Selection> Selector<T> {
    /// The selected value at `input`, total over all 256 byte inputs.
    pub open spec fn spec_get(self, input: u8) -> T {
        match self {
            Selector::Const(value) => value,
            Selector::InterpolatePair { first, second } => first.spec_lerp_between(
                second,
                input as u32,
                255,
            ),
            Selector::InterpolateVector(interpolation) => interpolation.spec_interpolate(input),
            Selector::Lookup { lookup, default } => {
                if lookup@.contains_key(input) {
                    lookup@[input]
                } else {
                    default
                }
            },
        }
    }

    pub fn new_interpolate_pair(first: T, second: T) -> (s: Selector<T>)
        ensures
            s == (Selector::InterpolatePair { first, second }),
    {
        Selector::InterpolatePair { first, second }
    }

    /// Validates the control points into a piecewise selector: at least two
    /// points with strictly ascending keys.
    pub fn new_interpolate_vector(vector: Vec<(u8, T)>) -> (r: Result<Selector<T>, &'static str>)
        ensures
            match r {
                Ok(s) => (s matches Selector::InterpolateVector(v) && v.points() == vector@)
                    && vector@.len() >= 2 && (forall|i: int|
                    0 <= i < vector@.len() - 1 ==> (#[trigger] vector@[i]).0 < vector@[i + 1].0),
                Err(m) => m@ == "requires at least 2 points"@ && vector@.len() < 2 || m@
                    == "the keys must be strictly ascending"@ && (exists|i: int|
                    0 <= i < vector@.len() - 1 && (#[trigger] vector@[i]).0 >= vector@[i + 1].0),
            },
    {
        let interpolation = match VectorInterpolation::new(vector) {
            Ok(v) => v,
            Err(error) => {
                return Err(error);
            },
        };
        Ok(Selector::InterpolateVector(interpolation))
    }

    pub fn new_lookup(lookup: HashMap<u8, T>, default: T) -> (s: Selector<T>)
        ensures
            s == (Selector::Lookup { lookup, default }),
    {
        Selector::Lookup { lookup, default }
    }

    /// Selects an object of type T based on the input.
    pub fn get(&self, input: u8) -> (r: T)
        ensures
            r == self.spec_get(input),
    {
        match self {
            Selector::Const(value) => *value,
            Selector::InterpolatePair { first, second } => first.lerp(second, input as u32, 255),
            Selector::InterpolateVector(interpolation) => interpolation.interpolate(input),
            Selector::Lookup { lookup, default } => match lookup.get(&input) {
                Some(value) => *value,
                None => *default,
            },
        }
    }
}

} // verus!
