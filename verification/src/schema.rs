//! What every slot type can do.

use vstd::prelude::*;
use crate::void::Void;

verus! {

/// Why a value is not valid, in words.
#[derive(Debug)]
pub struct ValidationError {
    pub message: String,
}

/// The capabilities of a slot type that the core relies on: it can tell
/// whether it is the void sentinel, and it can validate a value of itself.
/// (Encoding, the JSON schema and the type text of a type are attached
/// where the type meets the transport.)
pub trait Schema: Void {
    /// Whether the value meets the rules of its type.
    spec fn valid(&self) -> bool;

    /// What is wrong with a value that is not valid.
    spec fn violation(&self) -> Seq<char>;

    /// Validates the value: `Ok` exactly for a valid value; for any other,
    /// the error that says what is wrong.
    fn validate(&self) -> (r: Result<(), ValidationError>)
        ensures
            r is Ok <==> self.valid(),
            r matches Err(e) ==> e.message@ == self.violation(),
    ;
}

impl Schema for () {
    open spec fn valid(&self) -> bool {
        true
    }

    open spec fn violation(&self) -> Seq<char> {
        Seq::empty()
    }

    fn validate(&self) -> (r: Result<(), ValidationError>) {
        Ok(())
    }
}

} // verus!
