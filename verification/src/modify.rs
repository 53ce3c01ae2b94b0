//! A generation step that recomputes a target attribute as a blend of itself
//! and a source attribute.

use crate::map2d::Map2d;
use crate::step::get_attribute_id;
use crate::step::lemma_find_name;
use crate::step::spec_find_name;
use crate::step::GenerationStepError;
use vstd::prelude::*;

verus! {

/// Modifies one attribute of a map with another, transformed one.
///
/// Per cell, the source's contribution above the noise floor `minimum` is
/// scaled by `percentage / 100` and added to the target; the sum is clamped
/// to the byte range. A negative percentage decreases the target.
#[derive(Clone, Copy, Debug)]
pub struct ModifyWithAttribute {
    pub source_id: usize,
    pub target_id: usize,
    pub percentage: i32,
    pub minimum: u8,
}

impl ModifyWithAttribute {
    pub fn new(source_id: usize, target_id: usize, percentage: i32, minimum: u8) -> (step:
        ModifyWithAttribute)
        ensures
            step == (ModifyWithAttribute { source_id, target_id, percentage, minimum }),
    {
        ModifyWithAttribute { source_id, target_id, percentage, minimum }
    }

    /// The blended cell value: `target + (max(source, minimum) - minimum)
    /// * percentage / 100`, the division truncating towards zero and the sum
    /// clamped to the byte range.
    pub open spec fn spec_calculate_value(self, source: u8, target: u8) -> u8 {
        let diff = if source > self.minimum {
            source - self.minimum
        } else {
            0
        };
        let scaled = if self.percentage >= 0 {
            diff * self.percentage / 100
        } else {
            -(diff * -(self.percentage as int) / 100)
        };
        let raw = target + scaled;
        if raw < 0 {
            0
        } else if raw > 255 {
            255
        } else {
            raw as u8
        }
    }

    /// The whole blended buffer, cell by cell.
    pub open spec fn spec_calculate_values(self, source: Seq<u8>, target: Seq<u8>) -> Seq<u8> {
        Seq::new(target.len(), |i: int| self.spec_calculate_value(source[i], target[i]))
    }

    fn calculate_value(&self, source: u8, target: u8) -> (r: u8)
        ensures
            r == self.spec_calculate_value(source, target),
    {
        let diff: i64 = if source > self.minimum {
            (source - self.minimum) as i64
        } else {
            0
        };
        let percentage = self.percentage as i64;
        let scaled: i64 = if percentage >= 0 {
            proof {
                assert(0 <= diff * percentage <= 255 * 0x8000_0000i64) by (nonlinear_arith)
                    requires
                        0 <= diff <= 255 && 0 <= percentage <= 0x8000_0000i64,
                ;
            }
            diff * percentage / 100
        } else {
            proof {
                assert(0 <= diff * -percentage <= 255 * 0x8000_0000i64) by (nonlinear_arith)
                    requires
                        0 <= diff <= 255 && -0x8000_0000i64 <= percentage < 0,
                ;
            }
            -(diff * -percentage / 100)
        };
        let raw = (target as i64) + scaled;
        if raw < 0 {
            0
        } else if raw > 255 {
            255
        } else {
            raw as u8
        }
    }

    /// Computes the whole blended buffer from the map's current attributes.
    fn calculate_values(&self, map: &Map2d) -> (values: Vec<u8>)
        requires
            map.wf(),
            self.source_id < map.spec_attributes().len(),
            self.target_id < map.spec_attributes().len(),
        ensures
            values@ == self.spec_calculate_values(
                map.spec_attributes()[self.source_id as int].spec_values(),
                map.spec_attributes()[self.target_id as int].spec_values(),
            ),
    {
        let source_attribute = map.get_attribute(self.source_id);
        let target_attribute = map.get_attribute(self.target_id);
        let ghost blended = self.spec_calculate_values(
            source_attribute.spec_values(),
            target_attribute.spec_values(),
        );
        let length = target_attribute.get_all().len();
        let mut values: Vec<u8> = Vec::new();
        let mut index: usize = 0;
        while index < length
            invariant
                index <= length,
                map.wf(),
                self.source_id < map.spec_attributes().len(),
                self.target_id < map.spec_attributes().len(),
                source_attribute == map.spec_attributes()[self.source_id as int],
                target_attribute == map.spec_attributes()[self.target_id as int],
                length == target_attribute.spec_values().len(),
                length == source_attribute.spec_values().len(),
                blended == self.spec_calculate_values(
                    source_attribute.spec_values(),
                    target_attribute.spec_values(),
                ),
                values@ == blended.take(index as int),
            decreases length - index,
        {
            let source = source_attribute.get(index);
            let target = target_attribute.get(index);
            values.push(self.calculate_value(source, target));
            proof {
                assert(values@ =~= blended.take(index as int + 1));
            }
            index += 1;
        }
        proof {
            assert(values@ =~= blended);
        }
        values
    }

    /// Runs the step: recomputes the target attribute from the source and
    /// target attributes and replaces its values atomically; name, size and
    /// all other attributes stay untouched.
    pub fn run(&self, map: &mut Map2d)
        requires
            old(map).wf(),
            self.source_id < old(map).spec_attributes().len(),
            self.target_id < old(map).spec_attributes().len(),
        ensures
            final(map).wf(),
            final(map).spec_name() == old(map).spec_name(),
            final(map).spec_size() == old(map).spec_size(),
            final(map).spec_attributes().len() == old(map).spec_attributes().len(),
            forall|j: int|
                0 <= j < old(map).spec_attributes().len() && j != self.target_id
                    ==> final(map).spec_attributes()[j] == old(map).spec_attributes()[j],
            final(map).spec_attributes()[self.target_id as int].spec_name()
                == old(map).spec_attributes()[self.target_id as int].spec_name(),
            final(map).spec_attributes()[self.target_id as int].spec_size()
                == old(map).spec_size(),
            final(map).spec_attributes()[self.target_id as int].spec_values()
                == self.spec_calculate_values(
                old(map).spec_attributes()[self.source_id as int].spec_values(),
                old(map).spec_attributes()[self.target_id as int].spec_values(),
            ),
    {
        let values = self.calculate_values(map);
        let attribute = map.get_attribute_mut(self.target_id);
        attribute.replace_all(values);
    }
}

/// The plain record for serializing, deserializing & validating a
/// [`ModifyWithAttribute`]: it references both attributes by name.
#[derive(Clone, Debug, PartialEq, Eq)]
pub struct ModifyWithAttributeData {
    pub source: String,
    pub target: String,
    pub percentage: i32,
    pub minimum: u8,
}

impl ModifyWithAttributeData {
    pub fn new(source: String, target: String, percentage: i32, minimum: u8) -> (d:
        ModifyWithAttributeData)
        ensures
            d.source == source,
            d.target == target,
            d.percentage == percentage,
            d.minimum == minimum,
    {
        ModifyWithAttributeData { source, target, percentage, minimum }
    }

    /// The record describes a step for the attribute list: both names are
    /// present.
    pub open spec fn is_valid(self, attributes: Seq<String>) -> bool {
        spec_find_name(attributes, self.source@) >= 0 && spec_find_name(attributes, self.target@)
            >= 0
    }

    /// What validating this record against the attribute list yields.
    pub open spec fn spec_try_convert(self, attributes: Seq<String>) -> Result<
        ModifyWithAttribute,
        GenerationStepError,
    > {
        if spec_find_name(attributes, self.source@) < 0 {
            Err(GenerationStepError::UnknownAttribute(self.source))
        } else if spec_find_name(attributes, self.target@) < 0 {
            Err(GenerationStepError::UnknownAttribute(self.target))
        } else {
            Ok(
                ModifyWithAttribute {
                    source_id: spec_find_name(attributes, self.source@) as usize,
                    target_id: spec_find_name(attributes, self.target@) as usize,
                    percentage: self.percentage,
                    minimum: self.minimum,
                },
            )
        }
    }

    /// Validates the record into a runtime step bound to the referenced
    /// attributes' ids. Fails exactly when a name is absent from the list,
    /// naming the offender; the source is checked first.
    pub fn try_convert(self, attributes: &[String]) -> (r: Result<
        ModifyWithAttribute,
        GenerationStepError,
    >)
        ensures
            r == self.spec_try_convert(attributes@),
            r is Ok <==> self.is_valid(attributes@),
            r matches Ok(step) ==> step.source_id < attributes@.len() && step.target_id
                < attributes@.len(),
    {
        let source_id = match get_attribute_id(&self.source, attributes) {
            Ok(id) => id,
            Err(e) => {
                return Err(e);
            },
        };
        let target_id = match get_attribute_id(&self.target, attributes) {
            Ok(id) => id,
            Err(e) => {
                return Err(e);
            },
        };
        Ok(
            ModifyWithAttribute {
                source_id,
                target_id,
                percentage: self.percentage,
                minimum: self.minimum,
            },
        )
    }
}

impl ModifyWithAttribute {
    /// The record describing this step for the attribute list.
    pub open spec fn spec_convert(self, attributes: Seq<String>) -> ModifyWithAttributeData
        recommends
            self.source_id < attributes.len(),
            self.target_id < attributes.len(),
    {
        ModifyWithAttributeData {
            source: attributes[self.source_id as int],
            target: attributes[self.target_id as int],
            percentage: self.percentage,
            minimum: self.minimum,
        }
    }

    /// Converts the step back into its plain record, resolving both attribute
    /// ids to their names.
    pub fn convert(&self, attributes: &[String]) -> (d: ModifyWithAttributeData)
        requires
            self.source_id < attributes@.len(),
            self.target_id < attributes@.len(),
        ensures
            d == self.spec_convert(attributes@),
    {
        let source = attributes[self.source_id].clone();
        let target = attributes[self.target_id].clone();
        ModifyWithAttributeData::new(source, target, self.percentage, self.minimum)
    }
}

/// Validating a record and converting the step back reproduces the record's
/// meaning (the same name characters and the same numeric parameters), and
/// converting a step and validating the result gives the step again whenever
/// each id is the first position of its name in the list.
pub proof fn lemma_modify_round_trip(
    data: ModifyWithAttributeData,
    step: ModifyWithAttribute,
    attributes: Seq<String>,
)
    ensures
        data.is_valid(attributes) && attributes.len() <= usize::MAX ==> (data.spec_try_convert(
            attributes,
        ) matches Ok(s) && {
            let back = s.spec_convert(attributes);
            &&& back.source@ == data.source@
            &&& back.target@ == data.target@
            &&& back.percentage == data.percentage
            &&& back.minimum == data.minimum
        }),
        (step.source_id < attributes.len() && step.target_id < attributes.len() && spec_find_name(
            attributes,
            attributes[step.source_id as int]@,
        ) == step.source_id && spec_find_name(attributes, attributes[step.target_id as int]@)
            == step.target_id) ==> step.spec_convert(attributes).spec_try_convert(attributes)
            == Ok::<ModifyWithAttribute, GenerationStepError>(step),
{
    lemma_find_name(attributes, data.source@);
    lemma_find_name(attributes, data.target@);
}

} // verus!
