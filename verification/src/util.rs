//! Validation of the values inside a container.

use vstd::prelude::*;
use crate::schema::{Schema, ValidationError};

verus! {

/// Whether `i` is the place of the first item that is not valid.
pub open spec fn is_first_invalid<T: Schema>(items: Seq<T>, i: int) -> bool {
    &&& 0 <= i < items.len()
    &&& !items[i].valid()
    &&& forall|j: int| 0 <= j < i ==> (#[trigger] items[j]).valid()
}

/// Validates each item of a list, in order: `Ok` where all are valid; else
/// the error of the first item that is not.
pub fn dive_vec<T: Schema>(items: &Vec<T>) -> (r: Result<(), ValidationError>)
    ensures
        r is Ok <==> (forall|i: int| 0 <= i < items@.len() ==> (#[trigger] items@[i]).valid()),
        r matches Err(e) ==> exists|i: int| #[trigger]
            is_first_invalid(items@, i) && e.message@ == items@[i].violation(),
{
    let mut i: usize = 0;
    while i < items.len()
        invariant
            i <= items.len(),
            forall|j: int| 0 <= j < i ==> (#[trigger] items@[j]).valid(),
        decreases items.len() - i,
    {
        match items[i].validate() {
            Ok(()) => {},
            Err(e) => {
                assert(is_first_invalid(items@, i as int));
                return Err(e);
            },
        }
        i = i + 1;
    }
    Ok(())
}

/// Validates the value inside an option: `Ok` where there is none or it is
/// valid; else its error.
pub fn dive_option<T: Schema>(value: &Option<T>) -> (r: Result<(), ValidationError>)
    ensures
        r is Ok <==> (value matches Some(v) ==> v.valid()),
        r matches Err(e) ==> value matches Some(v) && e.message@ == v.violation(),
{
    match value {
        Some(v) => v.validate(),
        None => Ok(()),
    }
}

} // verus!
