//! The endpoint that returns a page of users.

use vstd::prelude::*;
use vstd::string::*;
use crate::api::shared::{Limit, Page, Skip, DEFAULT_LIMIT, DEFAULT_SKIP};
use crate::api::users::User;
use crate::endpoint::{Endpoint, ParsedRequest, DEFAULT_MAX_PAYLOAD_SIZE};
use crate::error::ApiError;
use crate::method::Method;
use crate::schema::{Schema, ValidationError};
use crate::util::dive_option;
use crate::void::Void;

verus! {

/// `GET /users`.
#[derive(Debug, Clone, Copy)]
pub struct E;

/// The query: where the page starts and how long it is at most.
#[derive(Debug)]
pub struct Query {
    pub skip: Option<Skip>,
    pub limit: Option<Limit>,
}

impl Void for Query {
    open spec fn spec_is_void() -> bool {
        false
    }

    fn is_void() -> (r: bool) {
        false
    }

    fn void() -> (r: Option<Self>) {
        None
    }
}

impl Schema for Query {
    /// The limit, where there is one, is valid. (Every skip is.)
    open spec fn valid(&self) -> bool {
        self.limit matches Some(limit) ==> limit.valid()
    }

    open spec fn violation(&self) -> Seq<char> {
        match self.limit {
            Some(limit) => limit.violation(),
            None => Seq::empty(),
        }
    }

    fn validate(&self) -> (r: Result<(), ValidationError>) {
        match dive_option(&self.skip) {
            Ok(()) => dive_option(&self.limit),
            Err(e) => Err(e),
        }
    }
}

impl Endpoint for E {
    type Ctx = ();

    type Params = ();

    type Query = Query;

    type Payload = ();

    type Output = Page<User>;

    open spec fn spec_path(&self) -> Seq<char> {
        "/users"@
    }

    open spec fn spec_method(&self) -> Method {
        Method::Get
    }

    open spec fn spec_max_payload_size(&self) -> usize {
        DEFAULT_MAX_PAYLOAD_SIZE
    }

    fn path(&self) -> (r: String) {
        String::from_str("/users")
    }

    fn method(&self) -> (r: Method) {
        Method::Get
    }

    fn max_payload_size(&self) -> (r: usize) {
        DEFAULT_MAX_PAYLOAD_SIZE
    }
}

/// The skip that a query asks for: its own, or the default.
pub open spec fn skip_of(query: Query) -> u64 {
    match query.skip {
        Some(skip) => skip.0,
        None => DEFAULT_SKIP,
    }
}

/// The limit that a query asks for: its own, or the default.
pub open spec fn limit_of(query: Query) -> u64 {
    match query.limit {
        Some(limit) => limit.0,
        None => DEFAULT_LIMIT,
    }
}

impl E {
    /// The page that the query asks for, of a store that holds no records:
    /// the query's skip and limit, or their defaults, and no items.
    pub fn run(&self, request: ParsedRequest<(), (), Query, ()>) -> (r: Result<Page<User>, ApiError>)
        ensures
            r matches Ok(page) && page.skip == skip_of(request.query) && page.limit == limit_of(
                request.query,
            ) && page.total == 0 && page.items@.len() == 0,
    {
        let skip = match request.query.skip {
            Some(skip) => skip,
            None => Skip::default(),
        };
        let limit = match request.query.limit {
            Some(limit) => limit,
            None => Limit::default(),
        };
        Ok(Page { skip: skip.0, limit: limit.0, total: 0, items: Vec::new() })
    }
}

} // verus!
