//! Responses, as the transport sends them.

use vstd::prelude::*;
use vstd::string::*;
use crate::error::{trimmed, ApiError, ApiErrorKind, ApiErrorPayload};
use crate::json::{Json, JsonView, NumberView};

verus! {

/// The body of a response: bytes that are already encoded, or a JSON
/// document that the transport encodes.
#[derive(Debug)]
pub enum Body {
    Raw(Vec<u8>),
    Document(Json),
}

/// The mathematical value of a [`Body`].
pub enum BodyView {
    Raw(Seq<u8>),
    Document(JsonView),
}

impl View for Body {
    type V = BodyView;

    open spec fn view(&self) -> BodyView {
        match self {
            Body::Raw(bytes) => BodyView::Raw(bytes@),
            Body::Document(json) => BodyView::Document(json@),
        }
    }
}

/// A response. Its content type is always the JSON media type.
#[derive(Debug)]
pub struct Response {
    pub status: u16,
    pub body: Body,
}

/// The mathematical value of a [`Response`].
pub struct ResponseView {
    pub status: u16,
    pub body: BodyView,
}

impl View for Response {
    type V = ResponseView;

    open spec fn view(&self) -> ResponseView {
        ResponseView { status: self.status, body: self.body@ }
    }
}

/// The response that reports a failure: the failure's status, and the error
/// envelope with the message trimmed.
pub open spec fn error_response(status: u16, kind: ApiErrorKind, message: Seq<char>) -> ResponseView {
    ResponseView {
        status,
        body: BodyView::Document(
            JsonView::Object(
                seq![
                    (
                        "error"@,
                        JsonView::Object(
                            seq![
                                ("status"@, JsonView::Number(NumberView::Unsigned(status as u64))),
                                ("kind"@, JsonView::Text(kind.spec_name())),
                                ("message"@, JsonView::Text(trimmed(message))),
                            ],
                        ),
                    ),
                ],
            ),
        ),
    }
}

/// The response that carries an encoded output.
pub open spec fn success_response(bytes: Seq<u8>) -> ResponseView {
    ResponseView { status: 200, body: BodyView::Raw(bytes) }
}

/// The response to a handler's result: the encoded output with status 200;
/// an internal error where the output could not be encoded; the failure's
/// own response where the handler failed.
pub open spec fn spec_to_response(result: Result<Option<Vec<u8>>, ApiError>) -> ResponseView {
    match result {
        Ok(Some(bytes)) => success_response(bytes@),
        Ok(None) => error_response(500, ApiErrorKind::Internal, "error serializing response"@),
        Err(e) => error_response(e.status, e.kind, e.message@),
    }
}

impl Response {
    /// The media type of every response.
    pub fn content_type(&self) -> (r: &'static str)
        ensures
            r@ == "application/json"@,
    {
        "application/json"
    }
}

impl ApiError {
    /// The response that reports this failure.
    pub fn into_response(self) -> (r: Response)
        ensures
            r@ == error_response(self.status, self.kind, self.message@),
    {
        let status = self.status;
        let mut payload = ApiErrorPayload { error: self };
        payload.error.normalize();
        Response { status, body: Body::Document(payload.to_json()) }
    }
}

/// Turns a handler's result into a response. `Ok(Some(bytes))` is an output
/// that was encoded, `Ok(None)` one that could not be.
pub fn to_response(result: Result<Option<Vec<u8>>, ApiError>) -> (r: Response)
    ensures
        r@ == spec_to_response(result),
{
    match result {
        Ok(Some(bytes)) => Response { status: 200, body: Body::Raw(bytes) },
        Ok(None) => ApiError::internal(String::from_str("error serializing response")).into_response(),
        Err(e) => e.into_response(),
    }
}

} // verus!
