//! The "no value" sentinel of a slot.

use vstd::prelude::*;

verus! {

/// Tells whether a slot type is the designated "no value" type, and builds
/// that value where it is.
///
/// Only the unit type is void. The pipeline never reads a request part for a
/// void slot: it hands the sentinel to the handler instead.
pub trait Void: Sized {
    /// Whether this type is the void sentinel.
    spec fn spec_is_void() -> bool;

    /// Whether this type is the void sentinel.
    fn is_void() -> (r: bool)
        ensures
            r == Self::spec_is_void(),
    ;

    /// The sentinel value: `Some` exactly for the void type, `None` for every
    /// other type, which has no such value.
    fn void() -> (r: Option<Self>)
        ensures
            r is Some <==> Self::spec_is_void(),
    ;
}

impl Void for () {
    open spec fn spec_is_void() -> bool {
        true
    }

    fn is_void() -> (r: bool) {
        true
    }

    fn void() -> (r: Option<Self>) {
        Some(())
    }
}

} // verus!
