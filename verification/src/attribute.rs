//! A named, dense grid of byte values covering every cell of a map.

use crate::size2d::Size2d;
use vstd::prelude::*;

verus! {

/// A named 2d grid of byte values, one for every cell of its size.
///
/// An attribute is owned by a map and is mutated only by replacing its whole
/// value buffer, never element by element.
pub struct Attribute {
    name: String,
    size: Size2d,
    values: Vec<u8>,
}

impl Attribute {
    /// The attribute's name.
    pub closed spec fn spec_name(self) -> Seq<char> {
        self.name@
    }

    /// The attribute's size, shared with the owning map.
    pub closed spec fn spec_size(self) -> Size2d {
        self.size
    }

    /// The attribute's values in row-major order.
    pub closed spec fn spec_values(self) -> Seq<u8> {
        self.values@
    }

    /// The value buffer covers the grid exactly: one byte per cell.
    pub open spec fn wf(self) -> bool {
        &&& self.spec_values().len() == self.spec_size().spec_area()
        &&& self.spec_values().len() <= usize::MAX
    }

    /// Creates an attribute from a value buffer that covers `size` exactly.
    pub fn new(name: String, size: Size2d, values: Vec<u8>) -> (a: Attribute)
        requires
            values@.len() == size.spec_area(),
        ensures
            a.wf(),
            a.spec_name() == name@,
            a.spec_size() == size,
            a.spec_values() == values@,
    {
        proof {
            assert(values.len() == values@.len());
        }
        Attribute { name, size, values }
    }

    pub fn get_name(&self) -> (r: &str)
        ensures
            r@ == self.spec_name(),
    {
        self.name.as_str()
    }

    /// Whether the attribute carries the name.
    pub fn has_name(&self, name: &String) -> (r: bool)
        ensures
            r == (self.spec_name() == name@),
    {
        self.name == *name
    }

    pub fn get_size(&self) -> (s: Size2d)
        ensures
            s == self.spec_size(),
    {
        self.size
    }

    /// Returns the value at the linear `index`.
    pub fn get(&self, index: usize) -> (r: u8)
        requires
            index < self.spec_values().len(),
        ensures
            r == self.spec_values()[index as int],
    {
        self.values[index]
    }

    /// Returns all values in row-major order.
    pub fn get_all(&self) -> (r: &Vec<u8>)
        ensures
            r@ == self.spec_values(),
    {
        &self.values
    }

    /// Replaces the whole value buffer atomically. The new buffer must cover
    /// the grid exactly; name and size stay untouched.
    pub fn replace_all(&mut self, values: Vec<u8>)
        requires
            values@.len() == old(self).spec_size().spec_area(),
        ensures
            final(self).wf(),
            final(self).spec_name() == old(self).spec_name(),
            final(self).spec_size() == old(self).spec_size(),
            final(self).spec_values() == values@,
    {
        proof {
            assert(values.len() == values@.len());
        }
        self.values = values;
    }
}

} // verus!
