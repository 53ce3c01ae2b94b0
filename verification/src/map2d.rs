//! The map that owns a collection of named, grid-shaped attributes.

use crate::attribute::Attribute;
use crate::size2d::Size2d;
use vstd::prelude::*;

verus! {

broadcast use vstd::string::group_string_axioms;

/// Why creating an attribute failed.
#[derive(Clone, Copy, Debug, PartialEq, Eq, Structural)]
pub enum AttributeCreationError {
    /// The value buffer's length disagrees with the map's area; the payload
    /// carries the buffer's length and the expected area.
    SizeMismatch { actual: usize, expected: u64 },
    /// An attribute with the name already exists; the payload carries its id.
    NameExists(usize),
}

/// A 2d map of a fixed size that owns an ordered collection of attributes.
///
/// An attribute's identity is its stable numeric id: its position in the
/// collection, established at creation and never reused or reassigned.
/// All attributes share the map's size.
pub struct Map2d {
    name: String,
    size: Size2d,
    attributes: Vec<Attribute>,
}

impl Map2d {
    /// The map's name.
    pub closed spec fn spec_name(self) -> Seq<char> {
        self.name@
    }

    /// The map's size, shared by every attribute.
    pub closed spec fn spec_size(self) -> Size2d {
        self.size
    }

    /// The map's attributes, in creation order.
    pub closed spec fn spec_attributes(self) -> Seq<Attribute> {
        self.attributes@
    }

    /// Every attribute covers the map's grid exactly.
    pub open spec fn wf(self) -> bool {
        forall|i: int|
            0 <= i < self.spec_attributes().len() ==> (#[trigger] self.spec_attributes()[i]).wf()
                && self.spec_attributes()[i].spec_size() == self.spec_size()
    }

    /// Whether some attribute carries the name.
    pub open spec fn spec_has_attribute(self, name: Seq<char>) -> bool {
        exists|i: int|
            0 <= i < self.spec_attributes().len() && (#[trigger] self.spec_attributes()[
                i
            ]).spec_name() == name
    }

    /// Creates an empty map of the size.
    pub fn new(size: Size2d) -> (m: Map2d)
        ensures
            m.wf(),
            m.spec_name() == "map"@,
            m.spec_size() == size,
            m.spec_attributes() == Seq::<Attribute>::empty(),
    {
        let attributes: Vec<Attribute> = Vec::new();
        proof {
            assert(attributes@ =~= Seq::<Attribute>::empty());
        }
        Map2d { name: "map".to_string(), size, attributes }
    }

    pub fn get_name(&self) -> (r: &str)
        ensures
            r@ == self.spec_name(),
    {
        self.name.as_str()
    }

    pub fn get_size(&self) -> (s: Size2d)
        ensures
            s == self.spec_size(),
    {
        self.size
    }

    /// The number of attributes; also the id the next created attribute gets.
    pub fn get_attribute_count(&self) -> (n: usize)
        ensures
            n == self.spec_attributes().len(),
    {
        self.attributes.len()
    }

    /// Returns the attribute with the id.
    pub fn get_attribute(&self, id: usize) -> (r: &Attribute)
        requires
            id < self.spec_attributes().len(),
        ensures
            *r == self.spec_attributes()[id as int],
    {
        &self.attributes[id]
    }

    /// Returns the attribute with the id for mutation. The map afterwards
    /// holds whatever the caller leaves behind the reference, with the other
    /// attributes untouched.
    pub fn get_attribute_mut(&mut self, id: usize) -> (r: &mut Attribute)
        requires
            id < old(self).spec_attributes().len(),
        ensures
            *r == old(self).spec_attributes()[id as int],
            final(self).spec_attributes() == old(self).spec_attributes().update(
                id as int,
                *final(r),
            ),
            final(self).spec_name() == old(self).spec_name(),
            final(self).spec_size() == old(self).spec_size(),
    {
        &mut self.attributes[id]
    }

    /// Creates a new attribute from a value buffer and returns its id.
    ///
    /// Fails with the matching error, leaving the map untouched, if the
    /// buffer's length disagrees with the map's area or the name is already
    /// taken; otherwise the attribute is appended after the existing ones.
    pub fn create_attribute_from(&mut self, name: &str, values: Vec<u8>) -> (r: Result<
        usize,
        AttributeCreationError,
    >)
        requires
            old(self).wf(),
        ensures
            final(self).wf(),
            final(self).spec_name() == old(self).spec_name(),
            final(self).spec_size() == old(self).spec_size(),
            match r {
                Ok(id) => {
                    &&& values@.len() == old(self).spec_size().spec_area()
                    &&& !old(self).spec_has_attribute(name@)
                    &&& id == old(self).spec_attributes().len()
                    &&& final(self).spec_attributes().len() == old(self).spec_attributes().len()
                        + 1
                    &&& final(self).spec_attributes().drop_last() == old(self).spec_attributes()
                    &&& final(self).spec_attributes().last().spec_name() == name@
                    &&& final(self).spec_attributes().last().spec_size() == old(self).spec_size()
                    &&& final(self).spec_attributes().last().spec_values() == values@
                },
                Err(e) => {
                    &&& *final(self) == *old(self)
                    &&& match e {
                        AttributeCreationError::SizeMismatch { actual, expected } => {
                            &&& actual == values@.len()
                            &&& expected == old(self).spec_size().spec_area()
                            &&& actual != expected
                        },
                        AttributeCreationError::NameExists(id) => {
                            &&& values@.len() == old(self).spec_size().spec_area()
                            &&& 0 <= id < old(self).spec_attributes().len()
                            &&& old(self).spec_attributes()[id as int].spec_name() == name@
                        },
                    }
                },
            },
    {
        let area = self.size.get_area();
        if (values.len() as u64) != area {
            return Err(AttributeCreationError::SizeMismatch { actual: values.len(), expected: area });
        }
        let owned: String = name.to_string();
        let count = self.attributes.len();
        let mut i: usize = 0;
        while i < count
            invariant
                *self == *old(self),
                old(self).wf(),
                values@.len() == old(self).spec_size().spec_area(),
                count == self.spec_attributes().len(),
                i <= count,
                forall|j: int|
                    0 <= j < i ==> (#[trigger] self.spec_attributes()[j]).spec_name() != name@,
                owned@ == name@,
            decreases count - i,
        {
            if self.attributes[i].has_name(&owned) {
                return Err(AttributeCreationError::NameExists(i));
            }
            i += 1;
        }
        let id = count;
        let attribute = Attribute::new(owned, self.size, values);
        self.attributes.push(attribute);
        proof {
            assert(self.attributes@.drop_last() =~= old(self).attributes@);
        }
        Ok(id)
    }
}

} // verus!
