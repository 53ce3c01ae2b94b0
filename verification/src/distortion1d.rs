//! A generation step that shifts each row or column of an attribute by an
//! amount taken from a 1d generator.

use crate::attribute::Attribute;
use crate::generator1d::lemma_generator1d_round_trip;
use crate::generator1d::Generator1d;
use crate::generator1d::Generator1dData;
use crate::map2d::Map2d;
use crate::size2d::Size2d;
use crate::step::get_attribute_id;
use crate::step::lemma_find_name;
use crate::step::spec_find_name;
use crate::step::GenerationStepError;
use vstd::arithmetic::div_mod::lemma_fundamental_div_mod_converse;
use vstd::prelude::*;

verus! {

/// One row of the distorted grid: the first `shift` cells repeat the row's
/// original first value, the rest copy the original row from its start, and
/// whatever would scroll past the row's end is dropped.
pub open spec fn spec_distorted_row(values: Seq<u8>, start: int, width: int, shift: int) -> Seq<
    u8,
> {
    Seq::new(
        width as nat,
        |k: int|
            if k < shift {
                values[start]
            } else {
                values[start + k - shift]
            },
    )
}

/// The whole grid with every row `y` shifted right by `generator(y)` cells,
/// the vacated left edge filled with the row's original first value.
pub open spec fn spec_distort_x(generator: Generator1d, size: Size2d, values: Seq<u8>) -> Seq<u8>
    recommends
        values.len() == size.spec_area(),
{
    Seq::new(
        values.len(),
        |i: int|
            {
                let w = size.width as int;
                let y = i / w;
                let k = i % w;
                let shift = generator.spec_generate(y as u32) as int;
                if k < shift {
                    values[y * w]
                } else {
                    values[i - shift]
                }
            },
    )
}

/// The whole grid with every column `x` shifted down by `generator(x)` cells,
/// the vacated top edge filled with the column's original first value.
pub open spec fn spec_distort_y(generator: Generator1d, size: Size2d, values: Seq<u8>) -> Seq<u8>
    recommends
        values.len() == size.spec_area(),
{
    Seq::new(
        values.len(),
        |i: int|
            {
                let w = size.width as int;
                let y = i / w;
                let x = i % w;
                let shift = generator.spec_generate(x as u32) as int;
                if y < shift {
                    values[x]
                } else {
                    values[i - shift * w]
                }
            },
    )
}

/// Shifts each column or row of an [`Attribute`] based on a [`Generator1d`].
#[derive(Clone, Copy, Debug)]
pub struct Distortion1d {
    pub attribute_id: usize,
    pub generator: Generator1d,
}

impl Distortion1d {
    pub fn new(attribute_id: usize, generator: Generator1d) -> (step: Distortion1d)
        ensures
            step == (Distortion1d { attribute_id, generator }),
    {
        Distortion1d { attribute_id, generator }
    }

    /// Appends row `y`, shifted right by `shift` cells, to `values`.
    fn distort_row(&self, y: u32, shift: u8, attribute: &Attribute, values: &mut Vec<u8>)
        requires
            attribute.wf(),
            0 < attribute.spec_size().width,
            y < attribute.spec_size().height,
        ensures
            final(values)@ == old(values)@ + spec_distorted_row(
                attribute.spec_values(),
                y as int * attribute.spec_size().width as int,
                attribute.spec_size().width as int,
                shift as int,
            ),
    {
        let size = attribute.get_size();
        let width = size.width();
        proof {
            crate::size2d::lemma_index_in_area(size, 0, y as int);
            assert((y + 1) * (width as int) <= (size.height as int) * (width as int))
                by (nonlinear_arith)
                requires
                    y < size.height && width >= 0,
            ;
            assert((y + 1) * (width as int) == y as int * width as int + width as int)
                by (nonlinear_arith);
        }
        let start = size.to_index_risky(0, y);
        let start_value = attribute.get(start);
        let ghost row = spec_distorted_row(
            attribute.spec_values(),
            start as int,
            width as int,
            shift as int,
        );
        let mut k: u32 = 0;
        while k < width
            invariant
                k <= width,
                row == spec_distorted_row(
                    attribute.spec_values(),
                    start as int,
                    width as int,
                    shift as int,
                ),
                attribute.wf(),
                start == y as int * width as int,
                width == attribute.spec_size().width,
                start + width <= attribute.spec_values().len(),
                start_value == attribute.spec_values()[start as int],
                values@ == old(values)@ + row.take(k as int),
            decreases width - k,
        {
            if k < shift as u32 {
                values.push(start_value);
            } else {
                values.push(attribute.get(start + (k - shift as u32) as usize));
            }
            proof {
                assert(values@.last() == row[k as int]);
                assert(values@ =~= old(values)@ + row.take(k as int + 1));
            }
            k += 1;
        }
        proof {
            assert(row.take(width as int) =~= row);
        }
    }

    /// Computes the whole grid with every row shifted.
    fn distort_map_along_x(&self, map: &Map2d) -> (values: Vec<u8>)
        requires
            map.wf(),
            self.attribute_id < map.spec_attributes().len(),
        ensures
            values@ == spec_distort_x(
                self.generator,
                map.spec_size(),
                map.spec_attributes()[self.attribute_id as int].spec_values(),
            ),
    {
        let attribute = map.get_attribute(self.attribute_id);
        let size = attribute.get_size();
        let width = size.width();
        let height = size.height();
        let ghost grid = attribute.spec_values();
        let ghost distorted = spec_distort_x(self.generator, map.spec_size(), grid);
        let mut values: Vec<u8> = Vec::new();
        if width == 0 {
            proof {
                assert(values@ =~= distorted);
            }
            return values;
        }
        let mut y: u32 = 0;
        while y < height
            invariant
                y <= height,
                map.wf(),
                self.attribute_id < map.spec_attributes().len(),
                attribute == map.spec_attributes()[self.attribute_id as int],
                attribute.wf(),
                0 < width == size.width && height == size.height && size
                    == attribute.spec_size(),
                grid == attribute.spec_values(),
                distorted == spec_distort_x(self.generator, map.spec_size(), grid),
                map.spec_size() == size,
                values@.len() == y as int * width as int,
                forall|i: int| 0 <= i < values@.len() ==> values@[i] == distorted[i],
            decreases height - y,
        {
            let shift = self.generator.generate(y);
            let ghost len_before = values@.len() as int;
            self.distort_row(y, shift, attribute, &mut values);
            proof {
                assert((y + 1) * (width as int) == y as int * width as int + width as int)
                    by (nonlinear_arith);
                assert forall|i: int| len_before <= i < values@.len() implies values@[i]
                    == distorted[i] by {
                    let k = i - len_before;
                    lemma_fundamental_div_mod_converse(i, width as int, y as int, k);
                    assert((y + 1) * (width as int) <= (height as int) * (width as int))
                        by (nonlinear_arith)
                        requires
                            y < height && width >= 0,
                    ;
                }
            }
            y += 1;
        }
        proof {
            assert((height as int) * (width as int) == (width as int) * (height as int))
                by (nonlinear_arith);
            assert(values@ =~= distorted);
        }
        values
    }

    /// Shifts each row along the x-axis based on a [`Generator1d`].
    ///
    /// The step reads the whole attribute, computes the distorted grid and
    /// replaces the attribute's values atomically; name, size and all other
    /// attributes stay untouched.
    pub fn distort_along_x(&self, map: &mut Map2d)
        requires
            old(map).wf(),
            self.attribute_id < old(map).spec_attributes().len(),
        ensures
            final(map).wf(),
            final(map).spec_name() == old(map).spec_name(),
            final(map).spec_size() == old(map).spec_size(),
            final(map).spec_attributes().len() == old(map).spec_attributes().len(),
            forall|j: int|
                0 <= j < old(map).spec_attributes().len() && j != self.attribute_id
                    ==> final(map).spec_attributes()[j] == old(map).spec_attributes()[j],
            final(map).spec_attributes()[self.attribute_id as int].spec_name() == old(
                map,
            ).spec_attributes()[self.attribute_id as int].spec_name(),
            final(map).spec_attributes()[self.attribute_id as int].spec_size() == old(
                map,
            ).spec_size(),
            final(map).spec_attributes()[self.attribute_id as int].spec_values()
                == spec_distort_x(
                self.generator,
                old(map).spec_size(),
                old(map).spec_attributes()[self.attribute_id as int].spec_values(),
            ),
    {
        let values = self.distort_map_along_x(map);
        let attribute = map.get_attribute_mut(self.attribute_id);
        attribute.replace_all(values);
    }

    /// Computes the whole grid with every column shifted.
    fn distort_map_along_y(&self, map: &Map2d) -> (values: Vec<u8>)
        requires
            map.wf(),
            self.attribute_id < map.spec_attributes().len(),
        ensures
            values@ == spec_distort_y(
                self.generator,
                map.spec_size(),
                map.spec_attributes()[self.attribute_id as int].spec_values(),
            ),
    {
        let attribute = map.get_attribute(self.attribute_id);
        let size = attribute.get_size();
        let width = size.width();
        let height = size.height();
        let ghost grid = attribute.spec_values();
        let ghost distorted = spec_distort_y(self.generator, map.spec_size(), grid);

        // One shift per column, each queried once, as a row of the generator.
        let mut shifts: Vec<u8> = Vec::new();
        let mut x: u32 = 0;
        while x < width
            invariant
                x <= width,
                shifts@.len() == x,
                forall|j: int|
                    0 <= j < x ==> shifts@[j] == self.generator.spec_generate(j as u32),
            decreases width - x,
        {
            shifts.push(self.generator.generate(x));
            x += 1;
        }

        let mut values: Vec<u8> = Vec::new();
        if width == 0 {
            proof {
                assert((size.width as int) * (size.height as int) == 0) by (nonlinear_arith)
                    requires
                        size.width == 0,
                ;
                assert(values@ =~= distorted);
            }
            return values;
        }
        let mut y: u32 = 0;
        while y < height
            invariant
                y <= height,
                attribute.wf(),
                0 < width == size.width && height == size.height && size
                    == attribute.spec_size(),
                grid == attribute.spec_values(),
                distorted == spec_distort_y(self.generator, map.spec_size(), grid),
                map.spec_size() == size,
                shifts@.len() == width,
                forall|j: int|
                    0 <= j < width ==> shifts@[j] == self.generator.spec_generate(
                        j as u32,
                    ),
                values@.len() == y as int * width as int,
                forall|i: int| 0 <= i < values@.len() ==> values@[i] == distorted[i],
            decreases height - y,
        {
            proof {
                assert((y + 1) * (width as int) == y as int * width as int + width as int)
                    by (nonlinear_arith);
                assert((y + 1) * (width as int) <= (height as int) * (width as int))
                    by (nonlinear_arith)
                    requires
                        y < height && width >= 0,
                ;
            }
            let mut x: u32 = 0;
            while x < width
                invariant
                    x <= width,
                    y < height,
                    attribute.wf(),
                    0 < width == size.width && height == size.height && size
                        == attribute.spec_size(),
                    grid == attribute.spec_values(),
                    distorted == spec_distort_y(self.generator, map.spec_size(), grid),
                    map.spec_size() == size,
                    shifts@.len() == width,
                    forall|j: int|
                        0 <= j < width ==> shifts@[j] == self.generator.spec_generate(
                            j as u32,
                        ),
                    values@.len() == y as int * width as int + x as int,
                    (y as int + 1) * width as int <= grid.len(),
                    forall|i: int| 0 <= i < values@.len() ==> values@[i] == distorted[i],
                decreases width - x,
            {
                let shift = shifts[x as usize];
                let ghost i = values@.len() as int;
                proof {
                    assert((y as int + 1) * (width as int) == y as int * width as int
                        + width as int) by (nonlinear_arith);
                    assert((width as int) <= (y as int + 1) * (width as int)) by (nonlinear_arith)
                        requires
                            y >= 0 && width >= 0,
                    ;
                    lemma_fundamental_div_mod_converse(i, width as int, y as int, x as int);
                }
                if (y as u64) < (shift as u64) {
                    values.push(attribute.get(x as usize));
                } else {
                    proof {
                        assert((shift as int) * (width as int) <= (y as int) * (width as int))
                            by (nonlinear_arith)
                            requires
                                shift <= y && width >= 0,
                        ;
                    }
                    let index = values.len() - (shift as usize) * (width as usize);
                    values.push(attribute.get(index));
                }
                x += 1;
            }
            y += 1;
        }
        proof {
            assert((height as int) * (width as int) == (width as int) * (height as int))
                by (nonlinear_arith);
            assert(values@ =~= distorted);
        }
        values
    }

    /// Shifts each column along the y-axis based on a [`Generator1d`].
    ///
    /// The step reads the whole attribute, computes the distorted grid and
    /// replaces the attribute's values atomically; name, size and all other
    /// attributes stay untouched.
    pub fn distort_along_y(&self, map: &mut Map2d)
        requires
            old(map).wf(),
            self.attribute_id < old(map).spec_attributes().len(),
        ensures
            final(map).wf(),
            final(map).spec_name() == old(map).spec_name(),
            final(map).spec_size() == old(map).spec_size(),
            final(map).spec_attributes().len() == old(map).spec_attributes().len(),
            forall|j: int|
                0 <= j < old(map).spec_attributes().len() && j != self.attribute_id
                    ==> final(map).spec_attributes()[j] == old(map).spec_attributes()[j],
            final(map).spec_attributes()[self.attribute_id as int].spec_name() == old(
                map,
            ).spec_attributes()[self.attribute_id as int].spec_name(),
            final(map).spec_attributes()[self.attribute_id as int].spec_size() == old(
                map,
            ).spec_size(),
            final(map).spec_attributes()[self.attribute_id as int].spec_values()
                == spec_distort_y(
                self.generator,
                old(map).spec_size(),
                old(map).spec_attributes()[self.attribute_id as int].spec_values(),
            ),
    {
        let values = self.distort_map_along_y(map);
        let attribute = map.get_attribute_mut(self.attribute_id);
        attribute.replace_all(values);
    }
}

/// The plain record for serializing, deserializing & validating a
/// [`Distortion1d`]: it references the attribute by name.
#[derive(Clone, Debug, PartialEq, Eq)]
pub struct Distortion1dData {
    pub attribute: String,
    pub generator: Generator1dData,
}

impl Distortion1dData {
    pub fn new(attribute: String, generator: Generator1dData) -> (d: Distortion1dData)
        ensures
            d.attribute == attribute,
            d.generator == generator,
    {
        Distortion1dData { attribute, generator }
    }

    /// The record describes a step for the attribute list: the name is
    /// present and the generator record is valid.
    pub open spec fn is_valid(self, attributes: Seq<String>) -> bool {
        spec_find_name(attributes, self.attribute@) >= 0 && self.generator.is_valid()
    }

    /// What validating this record against the attribute list yields.
    pub open spec fn spec_try_convert(self, attributes: Seq<String>) -> Result<
        Distortion1d,
        GenerationStepError,
    > {
        if spec_find_name(attributes, self.attribute@) < 0 {
            Err(GenerationStepError::UnknownAttribute(self.attribute))
        } else {
            match self.generator.spec_try_convert() {
                Ok(g) => Ok(
                    Distortion1d {
                        attribute_id: spec_find_name(attributes, self.attribute@) as usize,
                        generator: g,
                    },
                ),
                Err(e) => Err(GenerationStepError::Generator1d(e)),
            }
        }
    }

    /// Validates the record into a runtime step bound to the referenced
    /// attribute's id. Fails exactly when the name is absent from the list
    /// or the generator record is invalid, naming the offender.
    pub fn try_convert(self, attributes: &[String]) -> (r: Result<
        Distortion1d,
        GenerationStepError,
    >)
        ensures
            r == self.spec_try_convert(attributes@),
            r is Ok <==> self.is_valid(attributes@),
            r matches Ok(step) ==> step.attribute_id < attributes@.len(),
    {
        let id = match get_attribute_id(&self.attribute, attributes) {
            Ok(id) => id,
            Err(e) => {
                return Err(e);
            },
        };
        match self.generator.try_convert() {
            Ok(generator) => Ok(Distortion1d { attribute_id: id, generator }),
            Err(e) => Err(GenerationStepError::Generator1d(e)),
        }
    }
}

impl Distortion1d {
    /// The record describing this step for the attribute list.
    pub open spec fn spec_convert(self, attributes: Seq<String>) -> Distortion1dData
        recommends
            self.attribute_id < attributes.len(),
    {
        Distortion1dData {
            attribute: attributes[self.attribute_id as int],
            generator: self.generator.spec_convert(),
        }
    }

    /// Converts the step back into its plain record, resolving the attribute
    /// id to its name.
    pub fn convert(&self, attributes: &[String]) -> (d: Distortion1dData)
        requires
            self.attribute_id < attributes@.len(),
        ensures
            d == self.spec_convert(attributes@),
    {
        let attribute = attributes[self.attribute_id].clone();
        Distortion1dData::new(attribute, self.generator.convert())
    }
}

/// Validating a record and converting the step back reproduces the record's
/// meaning (the same name characters and the same generator record), and
/// converting a step and validating the result gives the step again whenever
/// the step's id is the first position of its name in the list.
pub proof fn lemma_distortion1d_round_trip(
    data: Distortion1dData,
    step: Distortion1d,
    attributes: Seq<String>,
)
    ensures
        data.is_valid(attributes) && attributes.len() <= usize::MAX ==> (data.spec_try_convert(
            attributes,
        ) matches Ok(s) && {
            let back = s.spec_convert(attributes);
            back.attribute@ == data.attribute@ && back.generator == data.generator
        }),
        (step.attribute_id < attributes.len() && step.generator.spec_convert()
            .is_valid() && spec_find_name(
            attributes,
            attributes[step.attribute_id as int]@,
        ) == step.attribute_id) ==> step.spec_convert(attributes).spec_try_convert(
            attributes,
        ) == Ok::<Distortion1d, GenerationStepError>(step),
{
    lemma_find_name(attributes, data.attribute@);
    lemma_generator1d_round_trip(data.generator, arbitrary());
    lemma_generator1d_round_trip(arbitrary(), step.generator);
}

} // verus!
