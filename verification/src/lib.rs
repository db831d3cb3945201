//! A typed API-registration and request-pipeline layer.
//!
//! An endpoint declares its path, its method and the shape of its four slots
//! (path parameters, query, payload, output). From that single declaration the
//! crate derives the request pipeline, the OpenAPI document and the
//! client type definitions, so that the three cannot drift apart.
//!
//! The crate sits between a transport and the business logic. It decides;
//! the transport reads, writes and waits.

pub mod api;
pub mod definitions;
pub mod docs;
pub mod endpoint;
pub mod error;
pub mod index;
pub mod json;
pub mod method;
pub mod openapi;
pub mod path;
pub mod pipeline;
pub mod policy;
pub mod registry;
pub mod response;
pub mod schema;
pub mod text;
pub mod ts;
pub mod util;
pub mod void;

pub use endpoint::{Endpoint, EndpointError, ParsedRequest};
pub use error::{ApiError, ApiErrorKind, ApiErrorPayload, IntoApiError};
pub use registry::Registry;
pub use schema::Schema;
pub use void::Void;
