//! The endpoint that returns one user.

use vstd::prelude::*;
use vstd::string::*;
use crate::api::users::{check_id, is_id, User};
use crate::endpoint::{Endpoint, ParsedRequest, DEFAULT_MAX_PAYLOAD_SIZE};
use crate::error::ApiError;
use crate::method::Method;
use crate::schema::{Schema, ValidationError};
use crate::void::Void;

verus! {

/// `GET /users/:id`.
#[derive(Debug, Clone, Copy)]
pub struct E;

/// The path parameters: the id of the user.
#[derive(Debug)]
pub struct Params {
    pub id: String,
}

impl Void for Params {
    open spec fn spec_is_void() -> bool {
        false
    }

    fn is_void() -> (r: bool) {
        false
    }

    fn void() -> (r: Option<Self>) {
        None
    }
}

impl Schema for Params {
    open spec fn valid(&self) -> bool {
        is_id(self.id@)
    }

    open spec fn violation(&self) -> Seq<char> {
        "id: does not match pattern /^[a-z0-9]+$/"@
    }

    fn validate(&self) -> (r: Result<(), ValidationError>) {
        if check_id(self.id.as_str()) {
            Ok(())
        } else {
            Err(
                ValidationError {
                    message: String::from_str("id: does not match pattern /^[a-z0-9]+$/"),
                },
            )
        }
    }
}

impl Endpoint for E {
    type Ctx = ();

    type Params = Params;

    type Query = ();

    type Payload = ();

    type Output = User;

    open spec fn spec_path(&self) -> Seq<char> {
        "/users/:id"@
    }

    open spec fn spec_method(&self) -> Method {
        Method::Get
    }

    open spec fn spec_max_payload_size(&self) -> usize {
        DEFAULT_MAX_PAYLOAD_SIZE
    }

    fn path(&self) -> (r: String) {
        String::from_str("/users/:id")
    }

    fn method(&self) -> (r: Method) {
        Method::Get
    }

    fn max_payload_size(&self) -> (r: usize) {
        DEFAULT_MAX_PAYLOAD_SIZE
    }
}

impl E {
    /// The user: a fixed record, whatever the id.
    pub fn run(&self, request: ParsedRequest<(), Params, (), ()>) -> (r: Result<User, ApiError>)
        ensures
            r matches Ok(user) && user.id@ == "123"@ && user.email@ == "test@test.com"@,
    {
        Ok(User { id: String::from_str("123"), email: String::from_str("test@test.com") })
    }
}

} // verus!
