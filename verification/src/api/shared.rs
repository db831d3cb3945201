//! Types that the endpoints share: a page of items, and the two numbers
//! that ask for one.

use vstd::prelude::*;
use vstd::string::*;
use crate::schema::{Schema, ValidationError};
use crate::util::{dive_vec, is_first_invalid};
use crate::void::Void;

verus! {

/// How many records a query returns at most, unless it says otherwise.
pub const DEFAULT_LIMIT: u64 = 200;

/// How many records a query skips, unless it says otherwise.
pub const DEFAULT_SKIP: u64 = 0;

/// How many records a query returns at most, unless it says otherwise.
pub fn default_limit() -> (r: u64)
    ensures
        r == DEFAULT_LIMIT,
{
    DEFAULT_LIMIT
}

/// How many records a query skips, unless it says otherwise.
pub fn default_skip() -> (r: u64)
    ensures
        r == DEFAULT_SKIP,
{
    DEFAULT_SKIP
}

/// A page of items: the items from `skip` on, at most `limit` of them, out
/// of `total` records. The page holds the items that were found, which may
/// be fewer than `limit`.
#[derive(Debug)]
pub struct Page<T> {
    pub skip: u64,
    pub limit: u64,
    pub total: u64,
    pub items: Vec<T>,
}

impl<T> Void for Page<T> {
    open spec fn spec_is_void() -> bool {
        false
    }

    fn is_void() -> (r: bool) {
        false
    }

    fn void() -> (r: Option<Self>) {
        None
    }
}

impl<T: Schema> Schema for Page<T> {
    /// The limit is at least 1, and each item is valid.
    open spec fn valid(&self) -> bool {
        &&& self.limit >= 1
        &&& forall|i: int| 0 <= i < self.items@.len() ==> (#[trigger] self.items@[i]).valid()
    }

    open spec fn violation(&self) -> Seq<char> {
        if self.limit < 1 {
            "limit: lower than 1"@
        } else {
            self.items@[choose|i: int| is_first_invalid(self.items@, i)].violation()
        }
    }

    fn validate(&self) -> (r: Result<(), ValidationError>) {
        if self.limit < 1 {
            return Err(ValidationError { message: String::from_str("limit: lower than 1") });
        }
        let r = dive_vec(&self.items);
        proof {
            if r is Err {
                let message = r->Err_0.message@;
                let i = choose|i: int| #[trigger]
                    is_first_invalid(self.items@, i) && message == self.items@[i].violation();
                let j = choose|j: int| is_first_invalid(self.items@, j);
                assert(is_first_invalid(self.items@, j));
                assert(i == j) by {
                    if i < j {
                        assert(self.items@[i].valid());
                    }
                    if j < i {
                        assert(self.items@[j].valid());
                    }
                }
            }
        }
        r
    }
}

/// How many records to return at most: from 1 to 200.
#[derive(Debug, Clone, Copy)]
pub struct Limit(pub u64);

impl Default for Limit {
    fn default() -> (r: Limit)
        ensures
            r.0 == DEFAULT_LIMIT,
    {
        Limit(DEFAULT_LIMIT)
    }
}

impl Void for Limit {
    open spec fn spec_is_void() -> bool {
        false
    }

    fn is_void() -> (r: bool) {
        false
    }

    fn void() -> (r: Option<Self>) {
        None
    }
}

impl Schema for Limit {
    open spec fn valid(&self) -> bool {
        1 <= self.0 <= 200
    }

    open spec fn violation(&self) -> Seq<char> {
        if self.0 < 1 {
            "lower than 1"@
        } else {
            "greater than 200"@
        }
    }

    fn validate(&self) -> (r: Result<(), ValidationError>) {
        if self.0 < 1 {
            Err(ValidationError { message: String::from_str("lower than 1") })
        } else if self.0 > 200 {
            Err(ValidationError { message: String::from_str("greater than 200") })
        } else {
            Ok(())
        }
    }
}

/// How many records to skip: any number.
#[derive(Debug, Clone, Copy)]
pub struct Skip(pub u64);

impl Default for Skip {
    fn default() -> (r: Skip)
        ensures
            r.0 == DEFAULT_SKIP,
    {
        Skip(DEFAULT_SKIP)
    }
}

impl Void for Skip {
    open spec fn spec_is_void() -> bool {
        false
    }

    fn is_void() -> (r: bool) {
        false
    }

    fn void() -> (r: Option<Self>) {
        None
    }
}

impl Schema for Skip {
    open spec fn valid(&self) -> bool {
        true
    }

    open spec fn violation(&self) -> Seq<char> {
        Seq::empty()
    }

    fn validate(&self) -> (r: Result<(), ValidationError>) {
        Ok(())
    }
}

} // verus!
