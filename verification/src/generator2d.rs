//! Composable generators of byte values for 2d points.

use crate::distance::calculate_distance;
use crate::distance::spec_distance;
use crate::generator1d::lemma_generator1d_round_trip;
use crate::generator1d::Generator1d;
use crate::generator1d::Generator1dData;
use crate::generator1d::Generator1dError;
use crate::noise::lemma_noise_round_trip;
use crate::noise::Noise;
use crate::noise::NoiseData;
use crate::noise::NoiseError;
use crate::size2d::Size2d;
use vstd::math::min;
use vstd::pervasive::unreached;
use vstd::prelude::*;

verus! {

/// Why a [`Generator2dData`] does not describe a generator.
#[derive(Clone, Copy, Debug, PartialEq, Eq, Structural)]
pub enum Generator2dError {
    /// The wrapped 1d generator is invalid.
    Generator1d(Generator1dError),
    /// The wrapped noise parameters are invalid.
    Noise(NoiseError),
}

/// Generates values for 2d points.
/// Used for the procedural generation of 2d maps.
pub enum Generator2d {
    /// Feeds the x values to a [`Generator1d`], ignoring y.
    ApplyToX(Generator1d),
    /// Feeds the y values to a [`Generator1d`], ignoring x.
    ApplyToY(Generator1d),
    /// Feeds the rounded Euclidean distance from a center point to a
    /// [`Generator1d`].
    ApplyToDistance { generator: Generator1d, center_x: u32, center_y: u32 },
    /// Generates the saturating linear index of each 2d point, truncated to
    /// a byte. Intended for debugging & visualization. A degenerate size
    /// without cells generates zero.
    IndexGenerator(Size2d),
    /// Generates noise for each 2d point.
    Noise(Noise),
}

impl Generator2d {
    /// The generated value at `(x, y)`, total over the whole input domain.
    pub open spec fn spec_generate(self, x: u32, y: u32) -> u8 {
        match self {
            Generator2d::ApplyToX(generator) => generator.spec_generate(x),
            Generator2d::ApplyToY(generator) => generator.spec_generate(y),
            Generator2d::ApplyToDistance { generator, center_x, center_y } => {
                generator.spec_generate(spec_distance(center_x, center_y, x, y))
            },
            Generator2d::IndexGenerator(size) => {
                if size.width == 0 || size.height == 0 {
                    0
                } else {
                    (size.spec_index(
                        min(x as int, size.width - 1),
                        min(y as int, size.height - 1),
                    ) % 256) as u8
                }
            },
            Generator2d::Noise(noise) => noise.spec_generate2d(x, y),
        }
    }

    pub fn new_apply_to_x(generator: Generator1d) -> (g: Generator2d)
        ensures
            g == Generator2d::ApplyToX(generator),
    {
        Generator2d::ApplyToX(generator)
    }

    pub fn new_apply_to_y(generator: Generator1d) -> (g: Generator2d)
        ensures
            g == Generator2d::ApplyToY(generator),
    {
        Generator2d::ApplyToY(generator)
    }

    pub fn new_apply_to_distance(generator: Generator1d, x: u32, y: u32) -> (g: Generator2d)
        ensures
            g == (Generator2d::ApplyToDistance { generator, center_x: x, center_y: y }),
    {
        Generator2d::ApplyToDistance { generator, center_x: x, center_y: y }
    }

    pub fn new_index(width: u32, height: u32) -> (g: Generator2d)
        ensures
            g == Generator2d::IndexGenerator(Size2d { width, height }),
    {
        Generator2d::IndexGenerator(Size2d::new(width, height))
    }

    /// Generates a value for a 2d point (x,y).
    pub fn generate(&self, x: u32, y: u32) -> (r: u8)
        ensures
            r == self.spec_generate(x, y),
    {
        match self {
            Generator2d::ApplyToX(generator) => generator.generate(x),
            Generator2d::ApplyToY(generator) => generator.generate(y),
            Generator2d::ApplyToDistance { generator, center_x, center_y } => {
                let distance = calculate_distance(*center_x, *center_y, x, y);
                generator.generate(distance)
            },
            Generator2d::IndexGenerator(size) => {
                if size.width == 0 || size.height == 0 {
                    0
                } else {
                    let cx = if x < size.width {
                        x
                    } else {
                        size.width - 1
                    };
                    let cy = if y < size.height {
                        y
                    } else {
                        size.height - 1
                    };
                    proof {
                        assert((cx as int) + (cy as int) * (size.width as int) < 0x1_0000_0000_0000_0000int)
                            by (nonlinear_arith)
                            requires
                                0 <= cx < 0x1_0000_0000 && 0 <= cy < 0x1_0000_0000
                                    && 0 <= size.width < 0x1_0000_0000,
                        ;
                    }
                    let index = (cx as u64) + (cy as u64) * (size.width as u64);
                    (index % 256) as u8
                }
            },
            Generator2d::Noise(noise) => noise.generate2d(x, y),
        }
    }
}

/// The plain record for serializing, deserializing & validating a
/// [`Generator2d`].
#[derive(Clone, Copy, Debug, PartialEq, Eq, Structural)]
pub enum Generator2dData {
    ApplyToX(Generator1dData),
    ApplyToY(Generator1dData),
    ApplyToDistance { generator: Generator1dData, center_x: u32, center_y: u32 },
    IndexGenerator(Size2d),
    Noise(NoiseData),
}

impl Generator2dData {
    /// The record describes a generator: any wrapped generator or noise
    /// parameters are valid.
    pub open spec fn is_valid(self) -> bool {
        match self {
            Generator2dData::ApplyToX(data) => data.is_valid(),
            Generator2dData::ApplyToY(data) => data.is_valid(),
            Generator2dData::ApplyToDistance { generator, .. } => generator.is_valid(),
            Generator2dData::IndexGenerator(_) => true,
            Generator2dData::Noise(data) => data.is_valid(),
        }
    }

    /// What validating this record yields.
    pub open spec fn spec_try_convert(self) -> Result<Generator2d, Generator2dError> {
        match self {
            Generator2dData::ApplyToX(data) => match data.spec_try_convert() {
                Ok(g) => Ok(Generator2d::ApplyToX(g)),
                Err(e) => Err(Generator2dError::Generator1d(e)),
            },
            Generator2dData::ApplyToY(data) => match data.spec_try_convert() {
                Ok(g) => Ok(Generator2d::ApplyToY(g)),
                Err(e) => Err(Generator2dError::Generator1d(e)),
            },
            Generator2dData::ApplyToDistance { generator, center_x, center_y } => match generator
                .spec_try_convert() {
                Ok(g) => Ok(
                    Generator2d::ApplyToDistance { generator: g, center_x, center_y },
                ),
                Err(e) => Err(Generator2dError::Generator1d(e)),
            },
            Generator2dData::IndexGenerator(size) => Ok(Generator2d::IndexGenerator(size)),
            Generator2dData::Noise(data) => match Noise::spec_new(data) {
                Ok(n) => Ok(Generator2d::Noise(n)),
                Err(e) => Err(Generator2dError::Noise(e)),
            },
        }
    }

    /// Validates the record into a runtime generator. Fails exactly when a
    /// wrapped generator or noise record is invalid, propagating that error.
    pub fn try_convert(self) -> (r: Result<Generator2d, Generator2dError>)
        ensures
            r == self.spec_try_convert(),
            r is Ok <==> self.is_valid(),
    {
        match self {
            Generator2dData::ApplyToX(data) => match data.try_convert() {
                Ok(g) => Ok(Generator2d::ApplyToX(g)),
                Err(e) => Err(Generator2dError::Generator1d(e)),
            },
            Generator2dData::ApplyToY(data) => match data.try_convert() {
                Ok(g) => Ok(Generator2d::ApplyToY(g)),
                Err(e) => Err(Generator2dError::Generator1d(e)),
            },
            Generator2dData::ApplyToDistance { generator, center_x, center_y } => match generator
                .try_convert() {
                Ok(g) => Ok(
                    Generator2d::ApplyToDistance { generator: g, center_x, center_y },
                ),
                Err(e) => Err(Generator2dError::Generator1d(e)),
            },
            Generator2dData::IndexGenerator(size) => Ok(Generator2d::IndexGenerator(size)),
            Generator2dData::Noise(data) => match Noise::new(data) {
                Ok(n) => Ok(Generator2d::Noise(n)),
                Err(e) => Err(Generator2dError::Noise(e)),
            },
        }
    }
}

impl Generator2d {
    /// The record describing this generator.
    pub open spec fn spec_convert(self) -> Generator2dData {
        match self {
            Generator2d::ApplyToX(g) => Generator2dData::ApplyToX(g.spec_convert()),
            Generator2d::ApplyToY(g) => Generator2dData::ApplyToY(g.spec_convert()),
            Generator2d::ApplyToDistance { generator, center_x, center_y } => {
                Generator2dData::ApplyToDistance {
                    generator: generator.spec_convert(),
                    center_x,
                    center_y,
                }
            },
            Generator2d::IndexGenerator(size) => Generator2dData::IndexGenerator(size),
            Generator2d::Noise(n) => Generator2dData::Noise(n.spec_to_data()),
        }
    }

    /// Converts the generator back into its plain record.
    pub fn convert(&self) -> (d: Generator2dData)
        ensures
            d == self.spec_convert(),
    {
        match self {
            Generator2d::ApplyToX(g) => Generator2dData::ApplyToX(g.convert()),
            Generator2d::ApplyToY(g) => Generator2dData::ApplyToY(g.convert()),
            Generator2d::ApplyToDistance { generator, center_x, center_y } => {
                Generator2dData::ApplyToDistance {
                    generator: generator.convert(),
                    center_x: *center_x,
                    center_y: *center_y,
                }
            },
            Generator2d::IndexGenerator(size) => Generator2dData::IndexGenerator(*size),
            Generator2d::Noise(n) => Generator2dData::Noise(n.to_data()),
        }
    }
}

/// Validating a record and converting the generator back gives the record
/// again, and converting a generator and validating the result gives the
/// generator again: the conversion loses nothing in either direction.
pub proof fn lemma_generator2d_round_trip(data: Generator2dData, g: Generator2d)
    ensures
        data.is_valid() ==> (data.spec_try_convert() matches Ok(g2) && g2.spec_convert() == data),
        g.spec_convert().is_valid() ==> g.spec_convert().spec_try_convert() == Ok::<
            Generator2d,
            Generator2dError,
        >(g),
{
    match data {
        Generator2dData::ApplyToX(d) => lemma_generator1d_round_trip(d, arbitrary()),
        Generator2dData::ApplyToY(d) => lemma_generator1d_round_trip(d, arbitrary()),
        Generator2dData::ApplyToDistance { generator, .. } => lemma_generator1d_round_trip(
            generator,
            arbitrary(),
        ),
        Generator2dData::IndexGenerator(_) => (),
        Generator2dData::Noise(d) => lemma_noise_round_trip(d, arbitrary()),
    }
    match g {
        Generator2d::ApplyToX(g1) => lemma_generator1d_round_trip(arbitrary(), g1),
        Generator2d::ApplyToY(g1) => lemma_generator1d_round_trip(arbitrary(), g1),
        Generator2d::ApplyToDistance { generator, .. } => lemma_generator1d_round_trip(
            arbitrary(),
            generator,
        ),
        Generator2d::IndexGenerator(_) => (),
        Generator2d::Noise(n) => lemma_noise_round_trip(arbitrary(), n),
    }
}

/// Checks at compile time that validating a record and converting the
/// generator back reproduces the record exactly.
pub fn assert_eq(data: Generator2dData)
    requires
        data.is_valid(),
{
    proof {
        lemma_generator2d_round_trip(data, arbitrary());
    }
    let generator: Generator2d = match data.try_convert() {
        Ok(g) => g,
        Err(_) => unreached(),
    };
    let result: Generator2dData = generator.convert();
    assert(result == data);
}

} // verus!
