//! The error model: one closed set of failure kinds, and the one shape in
//! which every failure reaches the client.

use vstd::prelude::*;
use vstd::string::*;
use crate::json::{members_view, Json, JsonView, Number, NumberView};
use crate::schema::{Schema, ValidationError};
use crate::void::Void;

verus! {

/// What went wrong. `Internal` is the server's fault; every other kind is
/// caused by the request.
#[derive(Debug, Clone, Copy, PartialEq, Eq, Structural, Hash)]
pub enum ApiErrorKind {
    Internal,
    ResourceNotFound,
    RecordNotFound,
    InvalidParamsParse,
    InvalidParamsValidate,
    InvalidQueryParse,
    InvalidQueryValidate,
    PayloadRead,
    PayloadContentType,
    InvalidPayloadParse,
    InvalidPayloadValidate,
}

impl ApiErrorKind {
    /// The kind's name on the wire.
    pub open spec fn spec_name(self) -> Seq<char> {
        match self {
            ApiErrorKind::Internal => "INTERNAL"@,
            ApiErrorKind::ResourceNotFound => "RESOURCE_NOT_FOUND"@,
            ApiErrorKind::RecordNotFound => "RECORD_NOT_FOUND"@,
            ApiErrorKind::InvalidParamsParse => "INVALID_PARAMS_PARSE"@,
            ApiErrorKind::InvalidParamsValidate => "INVALID_PARAMS_VALIDATE"@,
            ApiErrorKind::InvalidQueryParse => "INVALID_QUERY_PARSE"@,
            ApiErrorKind::InvalidQueryValidate => "INVALID_QUERY_VALIDATE"@,
            ApiErrorKind::PayloadRead => "PAYLOAD_READ"@,
            ApiErrorKind::PayloadContentType => "PAYLOAD_CONTENT_TYPE"@,
            ApiErrorKind::InvalidPayloadParse => "INVALID_PAYLOAD_PARSE"@,
            ApiErrorKind::InvalidPayloadValidate => "INVALID_PAYLOAD_VALIDATE"@,
        }
    }

    /// Whether the failure is the server's own.
    pub open spec fn spec_is_server(self) -> bool {
        self is Internal
    }

    /// The kind's name on the wire.
    pub fn name(&self) -> (r: &'static str)
        ensures
            r@ == self.spec_name(),
    {
        match self {
            ApiErrorKind::Internal => "INTERNAL",
            ApiErrorKind::ResourceNotFound => "RESOURCE_NOT_FOUND",
            ApiErrorKind::RecordNotFound => "RECORD_NOT_FOUND",
            ApiErrorKind::InvalidParamsParse => "INVALID_PARAMS_PARSE",
            ApiErrorKind::InvalidParamsValidate => "INVALID_PARAMS_VALIDATE",
            ApiErrorKind::InvalidQueryParse => "INVALID_QUERY_PARSE",
            ApiErrorKind::InvalidQueryValidate => "INVALID_QUERY_VALIDATE",
            ApiErrorKind::PayloadRead => "PAYLOAD_READ",
            ApiErrorKind::PayloadContentType => "PAYLOAD_CONTENT_TYPE",
            ApiErrorKind::InvalidPayloadParse => "INVALID_PAYLOAD_PARSE",
            ApiErrorKind::InvalidPayloadValidate => "INVALID_PAYLOAD_VALIDATE",
        }
    }

    /// Whether the failure is the server's own.
    pub fn is_server(&self) -> (r: bool)
        ensures
            r == self.spec_is_server(),
    {
        match self {
            ApiErrorKind::Internal => true,
            _ => false,
        }
    }
}

/// A failure as the client sees it.
#[derive(Debug, Clone)]
pub struct ApiError {
    pub status: u16,
    pub kind: ApiErrorKind,
    pub message: String,
}

impl PartialEq for ApiError {
    fn eq(&self, other: &Self) -> (r: bool) {
        self.status == other.status && self.kind == other.kind && self.message == other.message
    }
}

impl Eq for ApiError {

}

impl vstd::std_specs::cmp::PartialEqSpecImpl for ApiError {
    open spec fn obeys_eq_spec() -> bool {
        true
    }

    open spec fn eq_spec(&self, other: &Self) -> bool {
        self.status == other.status && self.kind == other.kind && self.message@ == other.message@
    }
}

/// What `str::trim` leaves of a text.
pub uninterp spec fn trimmed(s: Seq<char>) -> Seq<char>;

/// `str::trim` of the standard library: the text without the white space at
/// its start and at its end. The contract names that text and says nothing
/// more of it.
#[verifier::external_body]
fn trim(s: &str) -> (r: String)
    ensures
        r@ == trimmed(s@),
{
    s.trim().to_string()
}

impl ApiError {
    /// The status is an error status.
    pub open spec fn spec_valid(&self) -> bool {
        400 <= self.status <= 599
    }

    /// The status is of the class that the kind calls for: 5xx for a failure
    /// of the server, 4xx for one caused by the request.
    pub open spec fn consistent(&self) -> bool {
        if self.kind.spec_is_server() {
            500 <= self.status <= 599
        } else {
            400 <= self.status <= 499
        }
    }

    /// A failure of class 400 caused by the request.
    pub fn bad_request(kind: ApiErrorKind, message: String) -> (r: ApiError)
        ensures
            r.status == 400,
            r.kind == kind,
            r.message@ == message@,
            !kind.spec_is_server() ==> r.consistent(),
    {
        ApiError { status: 400, kind, message }
    }

    /// A failure of the server, with status 500.
    pub fn internal(message: String) -> (r: ApiError)
        ensures
            r.status == 500,
            r.kind == ApiErrorKind::Internal,
            r.message@ == message@,
            r.consistent(),
    {
        ApiError { status: 500, kind: ApiErrorKind::Internal, message }
    }

    /// Whether the status is an error status.
    pub fn is_valid(&self) -> (r: bool)
        ensures
            r == self.spec_valid(),
    {
        400 <= self.status && self.status <= 599
    }

    /// Whether the status is of the class that the kind calls for.
    pub fn is_consistent(&self) -> (r: bool)
        ensures
            r == self.consistent(),
    {
        if self.kind.is_server() {
            500 <= self.status && self.status <= 599
        } else {
            400 <= self.status && self.status <= 499
        }
    }

    /// Removes the white space around the message.
    pub fn normalize(&mut self)
        ensures
            final(self).status == old(self).status,
            final(self).kind == old(self).kind,
            final(self).message@ == trimmed(old(self).message@),
    {
        self.message = trim(self.message.as_str());
    }

    /// The members of the error object: status, kind and message.
    pub open spec fn spec_json(&self) -> JsonView {
        JsonView::Object(
            seq![
                ("status"@, JsonView::Number(NumberView::Unsigned(self.status as u64))),
                ("kind"@, JsonView::Text(self.kind.spec_name())),
                ("message"@, JsonView::Text(self.message@)),
            ],
        )
    }

    /// The error as a JSON object.
    pub fn to_json(&self) -> (r: Json)
        ensures
            r@ == self.spec_json(),
    {
        let mut members: Vec<(String, Json)> = Vec::new();
        members.push((String::from_str("status"), Json::Number(Number::Unsigned(self.status as u64))));
        members.push((String::from_str("kind"), Json::text(self.kind.name())));
        members.push((String::from_str("message"), Json::text(self.message.as_str())));
        assert(members_view(members@) =~= self.spec_json()->Object_0);
        Json::object(members)
    }
}

impl Void for ApiError {
    open spec fn spec_is_void() -> bool {
        false
    }

    fn is_void() -> (r: bool) {
        false
    }

    fn void() -> (r: Option<Self>) {
        None
    }
}

impl Schema for ApiError {
    /// The status is an error status.
    open spec fn valid(&self) -> bool {
        self.spec_valid()
    }

    open spec fn violation(&self) -> Seq<char> {
        if self.status < 400 {
            "status: lower than 400"@
        } else {
            "status: greater than 599"@
        }
    }

    fn validate(&self) -> (r: Result<(), ValidationError>) {
        if self.status < 400 {
            Err(ValidationError { message: String::from_str("status: lower than 400") })
        } else if self.status > 599 {
            Err(ValidationError { message: String::from_str("status: greater than 599") })
        } else {
            Ok(())
        }
    }
}

/// Turns a failure of the business logic into the one that the client sees.
/// This is the single seam through which such failures enter the response
/// format.
pub trait IntoApiError {
    fn into_api_error(self: Box<Self>) -> ApiError;
}

/// The body of every response that is not a success: the error in an
/// envelope with the single member `error`.
#[derive(Debug, Clone)]
pub struct ApiErrorPayload {
    pub error: ApiError,
}

impl Void for ApiErrorPayload {
    open spec fn spec_is_void() -> bool {
        false
    }

    fn is_void() -> (r: bool) {
        false
    }

    fn void() -> (r: Option<Self>) {
        None
    }
}

impl Schema for ApiErrorPayload {
    /// The error is valid.
    open spec fn valid(&self) -> bool {
        self.error.valid()
    }

    open spec fn violation(&self) -> Seq<char> {
        self.error.violation()
    }

    fn validate(&self) -> (r: Result<(), ValidationError>) {
        self.error.validate()
    }
}

impl ApiErrorPayload {
    /// The envelope around the error object.
    pub open spec fn spec_json(&self) -> JsonView {
        JsonView::Object(seq![("error"@, self.error.spec_json())])
    }

    /// The envelope as a JSON object.
    pub fn to_json(&self) -> (r: Json)
        ensures
            r@ == self.spec_json(),
    {
        let mut members: Vec<(String, Json)> = Vec::new();
        members.push((String::from_str("error"), self.error.to_json()));
        assert(members_view(members@) =~= self.spec_json()->Object_0);
        Json::object(members)
    }
}

} // verus!
