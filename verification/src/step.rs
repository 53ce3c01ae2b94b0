//! Validation shared by every generation step: resolving an attribute name to
//! its positional id.

use crate::generator1d::Generator1dError;
use vstd::prelude::*;

verus! {

broadcast use vstd::string::group_string_axioms;

/// Why validating a step's plain record failed.
#[derive(Clone, Debug, PartialEq, Eq)]
pub enum GenerationStepError {
    /// The record references an attribute name absent from the list; the
    /// payload carries the offending name.
    UnknownAttribute(String),
    /// A wrapped generator record is invalid.
    Generator1d(Generator1dError),
}

/// The position of the first list entry whose characters equal `name`, or -1
/// if no entry matches.
pub open spec fn spec_find_name(names: Seq<String>, name: Seq<char>) -> int
    decreases names.len(),
{
    if names.len() == 0 {
        -1
    } else if names[0]@ == name {
        0
    } else {
        let r = spec_find_name(names.drop_first(), name);
        if r < 0 {
            -1
        } else {
            r + 1
        }
    }
}

/// `spec_find_name` finds exactly the first match: a non-negative result is
/// the position of a match that no earlier entry precedes, and -1 means that
/// no entry matches.
pub proof fn lemma_find_name(names: Seq<String>, name: Seq<char>)
    ensures
        spec_find_name(names, name) >= 0 ==> {
            let r = spec_find_name(names, name);
            &&& r < names.len()
            &&& names[r]@ == name
            &&& forall|j: int| 0 <= j < r ==> (#[trigger] names[j])@ != name
        },
        spec_find_name(names, name) == -1 <==> (forall|j: int|
            0 <= j < names.len() ==> (#[trigger] names[j])@ != name),
        spec_find_name(names, name) >= -1,
    decreases names.len(),
{
    if names.len() > 0 && names[0]@ != name {
        let d = names.drop_first();
        lemma_find_name(d, name);
        let rd = spec_find_name(d, name);
        if rd >= 0 {
            assert(names[rd + 1] == d[rd]);
            assert forall|j: int| 0 <= j < rd + 1 implies (#[trigger] names[j])@ != name by {
                if j > 0 {
                    assert(names[j] == d[j - 1]);
                }
            }
        } else {
            assert forall|j: int| 0 <= j < names.len() implies (#[trigger] names[j])@ != name by {
                if j > 0 {
                    assert(names[j] == d[j - 1]);
                }
            }
        }
        if forall|j: int| 0 <= j < names.len() ==> (#[trigger] names[j])@ != name {
            assert forall|j: int| 0 <= j < d.len() implies (#[trigger] d[j])@ != name by {
                assert(d[j] == names[j + 1]);
            }
        }
    }
}

/// Looks a name up in the ordered attribute-name list and returns its
/// positional id, or the error carrying the offending name if it is absent.
pub fn get_attribute_id(name: &String, attributes: &[String]) -> (r: Result<
    usize,
    GenerationStepError,
>)
    ensures
        match r {
            Ok(id) => {
                &&& id == spec_find_name(attributes@, name@)
                &&& id < attributes@.len()
                &&& attributes@[id as int]@ == name@
            },
            Err(e) => {
                &&& spec_find_name(attributes@, name@) == -1
                &&& e == GenerationStepError::UnknownAttribute(*name)
            },
        },
{
    proof {
        lemma_find_name(attributes@, name@);
    }
    let count = attributes.len();
    let mut i: usize = 0;
    while i < count
        invariant
            count == attributes@.len(),
            i <= count,
            forall|j: int| 0 <= j < i ==> (#[trigger] attributes@[j])@ != name@,
            spec_find_name(attributes@, name@) >= 0 ==> spec_find_name(attributes@, name@)
                < attributes@.len() && attributes@[spec_find_name(attributes@, name@)]@ == name@
                && (forall|j: int|
                0 <= j < spec_find_name(attributes@, name@) ==> (#[trigger] attributes@[j])@
                    != name@),
            spec_find_name(attributes@, name@) == -1 <==> (forall|j: int|
                0 <= j < attributes@.len() ==> (#[trigger] attributes@[j])@ != name@),
            spec_find_name(attributes@, name@) >= -1,
        decreases count - i,
    {
        if attributes[i] == *name {
            return Ok(i);
        }
        i += 1;
    }
    Err(GenerationStepError::UnknownAttribute(name.clone()))
}

} // verus!
