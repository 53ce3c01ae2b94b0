//! Composable generators of byte values for 1d coordinates.

use crate::gradient::Gradient;
use crate::noise::lemma_noise_round_trip;
use crate::noise::Noise;
use crate::noise::NoiseData;
use crate::noise::NoiseError;
use vstd::prelude::*;

verus! {

/// Generates values for 1d inputs. Used for the procedural generation of 2d
/// maps, row by row or column by column.
#[derive(Clone, Copy, Debug)]
pub enum Generator1d {
    /// Returns the input as output, truncated to the byte range.
    InputAsOutput,
    /// Returns the same value for every input.
    Constant(u8),
    /// Returns the value of a linear ramp at the input.
    Gradient(Gradient),
    /// Returns the value of a symmetric, V-shaped ramp at the input.
    AbsoluteGradient(Gradient),
    /// Returns the value of a deterministic noise field at the input.
    Noise(Noise),
}

impl Generator1d {
    /// The generated value at `input`, total over the whole input domain.
    pub open spec fn spec_generate(self, input: u32) -> u8 {
        match self {
            Generator1d::InputAsOutput => (input % 256) as u8,
            Generator1d::Constant(value) => value,
            Generator1d::Gradient(gradient) => gradient.spec_generate(input),
            Generator1d::AbsoluteGradient(gradient) => gradient.spec_generate_absolute(input),
            Generator1d::Noise(noise) => noise.spec_generate1d(input),
        }
    }

    /// Generates a value for the 1d `input`.
    pub fn generate(&self, input: u32) -> (r: u8)
        ensures
            r == self.spec_generate(input),
    {
        match self {
            Generator1d::InputAsOutput => (input % 256) as u8,
            Generator1d::Constant(value) => *value,
            Generator1d::Gradient(gradient) => gradient.generate(input),
            Generator1d::AbsoluteGradient(gradient) => gradient.generate_absolute(input),
            Generator1d::Noise(noise) => noise.generate1d(input),
        }
    }
}

/// The plain record for serializing, deserializing & validating a
/// [`Generator1d`].
#[derive(Clone, Copy, Debug, PartialEq, Eq, Structural)]
pub enum Generator1dData {
    InputAsOutput,
    Constant(u8),
    Gradient(Gradient),
    AbsoluteGradient(Gradient),
    Noise(NoiseData),
}

/// Why a [`Generator1dData`] does not describe a generator.
#[derive(Clone, Copy, Debug, PartialEq, Eq, Structural)]
pub enum Generator1dError {
    /// The wrapped noise parameters are invalid.
    Noise(NoiseError),
}

impl Generator1dData {
    /// The record describes a generator: any wrapped noise parameters are
    /// valid.
    pub open spec fn is_valid(self) -> bool {
        match self {
            Generator1dData::Noise(data) => data.is_valid(),
            _ => true,
        }
    }

    /// What validating this record yields.
    pub open spec fn spec_try_convert(self) -> Result<Generator1d, Generator1dError> {
        match self {
            Generator1dData::InputAsOutput => Ok(Generator1d::InputAsOutput),
            Generator1dData::Constant(value) => Ok(Generator1d::Constant(value)),
            Generator1dData::Gradient(gradient) => Ok(Generator1d::Gradient(gradient)),
            Generator1dData::AbsoluteGradient(gradient) => Ok(
                Generator1d::AbsoluteGradient(gradient),
            ),
            Generator1dData::Noise(data) => match Noise::spec_new(data) {
                Ok(noise) => Ok(Generator1d::Noise(noise)),
                Err(error) => Err(Generator1dError::Noise(error)),
            },
        }
    }

    /// Validates the record into a runtime generator. Fails exactly when the
    /// wrapped noise parameters are invalid, propagating that error.
    pub fn try_convert(self) -> (r: Result<Generator1d, Generator1dError>)
        ensures
            r == self.spec_try_convert(),
            r is Ok <==> self.is_valid(),
    {
        match self {
            Generator1dData::InputAsOutput => Ok(Generator1d::InputAsOutput),
            Generator1dData::Constant(value) => Ok(Generator1d::Constant(value)),
            Generator1dData::Gradient(gradient) => Ok(Generator1d::Gradient(gradient)),
            Generator1dData::AbsoluteGradient(gradient) => Ok(
                Generator1d::AbsoluteGradient(gradient),
            ),
            Generator1dData::Noise(data) => match Noise::new(data) {
                Ok(noise) => Ok(Generator1d::Noise(noise)),
                Err(error) => Err(Generator1dError::Noise(error)),
            },
        }
    }
}

impl Generator1d {
    /// The record describing this generator.
    pub open spec fn spec_convert(self) -> Generator1dData {
        match self {
            Generator1d::InputAsOutput => Generator1dData::InputAsOutput,
            Generator1d::Constant(value) => Generator1dData::Constant(value),
            Generator1d::Gradient(gradient) => Generator1dData::Gradient(gradient),
            Generator1d::AbsoluteGradient(gradient) => Generator1dData::AbsoluteGradient(gradient),
            Generator1d::Noise(noise) => Generator1dData::Noise(noise.spec_to_data()),
        }
    }

    /// Converts the generator back into its plain record.
    pub fn convert(&self) -> (d: Generator1dData)
        ensures
            d == self.spec_convert(),
    {
        match self {
            Generator1d::InputAsOutput => Generator1dData::InputAsOutput,
            Generator1d::Constant(value) => Generator1dData::Constant(*value),
            Generator1d::Gradient(gradient) => Generator1dData::Gradient(*gradient),
            Generator1d::AbsoluteGradient(gradient) => Generator1dData::AbsoluteGradient(
                *gradient,
            ),
            Generator1d::Noise(noise) => Generator1dData::Noise(noise.to_data()),
        }
    }
}

/// Validating a record and converting the generator back gives the record
/// again, and converting a generator and validating the result gives the
/// generator again: the conversion loses nothing in either direction.
pub proof fn lemma_generator1d_round_trip(data: Generator1dData, g: Generator1d)
    ensures
        data.is_valid() ==> (data.spec_try_convert() matches Ok(g2) && g2.spec_convert() == data),
        g.spec_convert().is_valid() ==> g.spec_convert().spec_try_convert() == Ok::<
            Generator1d,
            Generator1dError,
        >(g),
{
    if let Generator1dData::Noise(nd) = data {
        lemma_noise_round_trip(nd, arbitrary());
    }
    if let Generator1d::Noise(n) = g {
        lemma_noise_round_trip(arbitrary(), n);
    }
}

} // verus!
