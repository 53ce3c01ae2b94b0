//! A deterministic, seeded pseudo-random field generator for 1d and 2d
//! coordinates with a configurable, clamped output range.

use vstd::prelude::*;
use vstd::wrapping::u64_specs;

verus! {

/// The plain record for serializing, deserializing & validating a [`Noise`].
#[derive(Clone, Copy, Debug, PartialEq, Eq, Structural)]
pub struct NoiseData {
    pub seed: u64,
    pub scale: u32,
    pub min_value: u8,
    pub max_value: u8,
}

impl NoiseData {
    /// The parameters describe a noise field: a positive scale and an output
    /// range that is not inverted.
    pub open spec fn is_valid(self) -> bool {
        self.scale >= 1 && self.min_value <= self.max_value
    }
}

/// Why a [`NoiseData`] does not describe a noise field.
#[derive(Clone, Copy, Debug, PartialEq, Eq, Structural)]
pub enum NoiseError {
    /// The scale must be positive.
    ScaleIsZero,
    /// The minimum exceeds the maximum; the payload carries both.
    RangeIsInverted(u8, u8),
}

/// Mixes a seed and two scaled coordinates into a pseudo-random 64-bit hash.
/// A pure function of its arguments: equal inputs give equal outputs, on
/// every machine.
pub open spec fn spec_mix(seed: u64, x: u64, y: u64) -> u64 {
    let a = u64_specs::wrapping_mul(x ^ 0x9E3779B97F4A7C15, 0xBF58476D1CE4E5B9);
    let b = u64_specs::wrapping_mul(y ^ 0x94D049BB133111EB, 0xD6E8FEB86659FD93);
    let h0 = seed ^ a ^ b;
    let h1 = u64_specs::wrapping_mul(h0 ^ (h0 >> 30u64), 0xBF58476D1CE4E5B9);
    let h2 = u64_specs::wrapping_mul(h1 ^ (h1 >> 27u64), 0x94D049BB133111EB);
    h2 ^ (h2 >> 31u64)
}

fn mix(seed: u64, x: u64, y: u64) -> (h: u64)
    ensures
        h == spec_mix(seed, x, y),
{
    let a = (x ^ 0x9E3779B97F4A7C15u64).wrapping_mul(0xBF58476D1CE4E5B9);
    let b = (y ^ 0x94D049BB133111EBu64).wrapping_mul(0xD6E8FEB86659FD93);
    let h0 = seed ^ a ^ b;
    let h1 = (h0 ^ (h0 >> 30u64)).wrapping_mul(0xBF58476D1CE4E5B9);
    let h2 = (h1 ^ (h1 >> 27u64)).wrapping_mul(0x94D049BB133111EB);
    h2 ^ (h2 >> 31u64)
}

/// A deterministic noise field over 1d or 2d coordinates.
///
/// The output is a pure function of `(seed, scale, x[, y])` and always lies
/// in `[min_value, max_value]`. Coordinates are divided by `scale` before
/// hashing, so one noise cell covers `scale` grid cells per axis.
#[derive(Clone, Copy, Debug, PartialEq, Eq, Structural)]
pub struct Noise {
    seed: u64,
    scale: u32,
    min_value: u8,
    max_value: u8,
}

impl Noise {
    /// A positive scale and a range that is not inverted.
    #[verifier::type_invariant]
    spec fn inv(self) -> bool {
        self.scale >= 1 && self.min_value <= self.max_value
    }

    /// The parameters of the field, as the plain record.
    pub closed spec fn spec_to_data(self) -> NoiseData {
        NoiseData {
            seed: self.seed,
            scale: self.scale,
            min_value: self.min_value,
            max_value: self.max_value,
        }
    }

    /// What validating a [`NoiseData`] yields.
    pub closed spec fn spec_new(data: NoiseData) -> Result<Noise, NoiseError> {
        if data.scale == 0 {
            Err(NoiseError::ScaleIsZero)
        } else if data.min_value > data.max_value {
            Err(NoiseError::RangeIsInverted(data.min_value, data.max_value))
        } else {
            Ok(
                Noise {
                    seed: data.seed,
                    scale: data.scale,
                    min_value: data.min_value,
                    max_value: data.max_value,
                },
            )
        }
    }

    /// Maps a hash into `[min_value, max_value]`.
    closed spec fn spec_clamp(self, h: u64) -> u8 {
        (self.min_value + h % ((self.max_value - self.min_value + 1) as u64)) as u8
    }

    /// The field's value at the 1d coordinate `x`.
    pub closed spec fn spec_generate1d(self, x: u32) -> u8 {
        self.spec_clamp(spec_mix(self.seed, (x / self.scale) as u64, 0))
    }

    /// The field's value at the 2d coordinate `(x, y)`.
    pub closed spec fn spec_generate2d(self, x: u32, y: u32) -> u8 {
        self.spec_clamp(spec_mix(self.seed, (x / self.scale) as u64, (y / self.scale) as u64))
    }

    /// Validates the parameters: the scale must be positive and the range
    /// must not be inverted. Returns the error naming the offending
    /// parameters otherwise.
    pub fn new(data: NoiseData) -> (r: Result<Noise, NoiseError>)
        ensures
            r == Noise::spec_new(data),
            r is Ok <==> data.is_valid(),
            r matches Ok(n) ==> n.spec_to_data() == data,
    {
        if data.scale == 0 {
            Err(NoiseError::ScaleIsZero)
        } else if data.min_value > data.max_value {
            Err(NoiseError::RangeIsInverted(data.min_value, data.max_value))
        } else {
            Ok(
                Noise {
                    seed: data.seed,
                    scale: data.scale,
                    min_value: data.min_value,
                    max_value: data.max_value,
                },
            )
        }
    }

    /// The parameters of the field, as the plain record.
    pub fn to_data(&self) -> (d: NoiseData)
        ensures
            d == self.spec_to_data(),
    {
        NoiseData {
            seed: self.seed,
            scale: self.scale,
            min_value: self.min_value,
            max_value: self.max_value,
        }
    }

    /// Generates the field's value at the 1d coordinate `x`, always within
    /// the configured range.
    pub fn generate1d(&self, x: u32) -> (r: u8)
        ensures
            r == self.spec_generate1d(x),
            self.spec_to_data().min_value <= r <= self.spec_to_data().max_value,
    {
        proof {
            use_type_invariant(self);
        }
        let h = mix(self.seed, (x / self.scale) as u64, 0);
        self.clamp(h)
    }

    /// Generates the field's value at the 2d coordinate `(x, y)`, always
    /// within the configured range.
    pub fn generate2d(&self, x: u32, y: u32) -> (r: u8)
        ensures
            r == self.spec_generate2d(x, y),
            self.spec_to_data().min_value <= r <= self.spec_to_data().max_value,
    {
        proof {
            use_type_invariant(self);
        }
        let h = mix(self.seed, (x / self.scale) as u64, (y / self.scale) as u64);
        self.clamp(h)
    }

    fn clamp(&self, h: u64) -> (r: u8)
        requires
            self.spec_to_data().min_value <= self.spec_to_data().max_value,
        ensures
            r == self.spec_clamp(h),
            self.spec_to_data().min_value <= r <= self.spec_to_data().max_value,
    {
        let range = (self.max_value as u64) - (self.min_value as u64) + 1;
        self.min_value + ((h % range) as u8)
    }
}

/// Validating the record of a valid noise field gives that field back:
/// the conversion between [`Noise`] and [`NoiseData`] loses nothing.
pub proof fn lemma_noise_round_trip(data: NoiseData, n: Noise)
    ensures
        data.is_valid() ==> (Noise::spec_new(data) matches Ok(m) && m.spec_to_data() == data),
        n.spec_to_data().is_valid() ==> Noise::spec_new(n.spec_to_data()) == Ok::<
            Noise,
            NoiseError,
        >(n),
{
}

/// Two noise fields with identical parameters produce identical outputs for
/// every coordinate: generation is deterministic.
pub proof fn lemma_noise_deterministic(a: Noise, b: Noise, x: u32, y: u32)
    requires
        a.spec_to_data() == b.spec_to_data(),
    ensures
        a.spec_generate1d(x) == b.spec_generate1d(x),
        a.spec_generate2d(x, y) == b.spec_generate2d(x, y),
{
}

} // verus!
