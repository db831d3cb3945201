use auto_api::api::users::get::{Params, E as GetUser};
use auto_api::api::users::list::{Query, E as ListUsers};
use auto_api::api::shared::Limit;
use auto_api::endpoint::{ParsedRequest, RequestHead};
use auto_api::error::{ApiError, ApiErrorKind};
use auto_api::json::{Json, Number};
use auto_api::pipeline::{config_of, source_of, Action, Event, Pipeline, PipelineConfig, Source, Stage};
use auto_api::response::{Body, Response};
use auto_api::schema::Schema;

fn config(params_void: bool, query_void: bool, payload_void: bool, max: usize) -> PipelineConfig {
    PipelineConfig { params_void, query_void, payload_void, max_payload_size: max }
}

fn head(content_type: Option<&str>) -> RequestHead {
    RequestHead { query: None, content_type: content_type.map(|s| s.to_string()) }
}

fn step(p: &mut Pipeline, event: Event) -> Action {
    assert!(p.accepts(&event), "{:?} does not accept {:?}", p.current_stage(), event);
    p.step(event)
}

fn expect_error(action: Action, status: u16, kind: &str, message: &str) {
    match action {
        Action::Respond(Response { status: s, body: Body::Document(json) }) => {
            assert_eq!(s, status);
            assert_eq!(
                json,
                Json::Object(vec![(
                    "error".to_string(),
                    Json::Object(vec![
                        ("status".to_string(), Json::Number(Number::Unsigned(status as u64))),
                        ("kind".to_string(), Json::Text(kind.to_string())),
                        ("message".to_string(), Json::Text(message.to_string())),
                    ]),
                )])
            );
        }
        other => panic!("{:?}", other),
    }
}

#[test]
fn pipeline_begins_with_the_context() {
    let (p, action) = Pipeline::start(config(false, false, false, 10), &head(None));
    assert!(matches!(action, Action::DeriveContext));
    assert_eq!(p.current_stage(), Stage::Context);
    assert!(!p.is_done());
}

#[test]
fn stages_run_in_order_for_an_endpoint_with_all_slots() {
    let (mut p, _) =
        Pipeline::start(config(false, false, false, 100), &head(Some("application/json")));
    assert!(matches!(step(&mut p, Event::ContextDerived), Action::ParseParams));
    assert!(matches!(step(&mut p, Event::Parsed), Action::ValidateParams));
    assert!(matches!(step(&mut p, Event::Validated), Action::ParseQuery));
    assert!(matches!(step(&mut p, Event::Parsed), Action::ValidateQuery));
    assert!(matches!(step(&mut p, Event::Validated), Action::ReadChunk));
    assert!(matches!(step(&mut p, Event::Chunk(b"{\"a\"".to_vec())), Action::ReadChunk));
    assert!(matches!(step(&mut p, Event::Chunk(b":1}".to_vec())), Action::ReadChunk));
    match step(&mut p, Event::EndOfBody) {
        Action::ParsePayload(bytes) => assert_eq!(bytes, b"{\"a\":1}".to_vec()),
        other => panic!("{:?}", other),
    }
    assert!(matches!(step(&mut p, Event::Parsed), Action::ValidatePayload));
    match step(&mut p, Event::Validated) {
        Action::Invoke { params, query, payload } => {
            assert_eq!(params, Source::Parsed);
            assert_eq!(query, Source::Parsed);
            assert_eq!(payload, Source::Parsed);
        }
        other => panic!("{:?}", other),
    }
    assert!(matches!(step(&mut p, Event::Invoked), Action::Serialize));
    match step(&mut p, Event::Serialized(b"[]".to_vec())) {
        Action::Respond(Response { status: 200, body: Body::Raw(bytes) }) => {
            assert_eq!(bytes, b"[]".to_vec())
        }
        other => panic!("{:?}", other),
    }
    assert!(p.is_done());
    assert!(!p.accepts(&Event::Invoked));
    assert!(!p.accepts(&Event::ContextDerived));
}

#[test]
fn void_slots_are_skipped_and_handed_over_as_void() {
    let (mut p, _) = Pipeline::start(config(true, true, true, 100), &head(Some("text/plain")));
    match step(&mut p, Event::ContextDerived) {
        Action::Invoke { params, query, payload } => {
            assert_eq!(params, Source::Void);
            assert_eq!(query, Source::Void);
            assert_eq!(payload, Source::Void);
        }
        other => panic!("{:?}", other),
    }
    assert_eq!(p.current_stage(), Stage::Invoke);
}

#[test]
fn void_params_go_straight_to_the_query() {
    let (mut p, _) = Pipeline::start(config(true, false, true, 100), &head(None));
    assert!(matches!(step(&mut p, Event::ContextDerived), Action::ParseQuery));
    assert!(matches!(step(&mut p, Event::Parsed), Action::ValidateQuery));
    match step(&mut p, Event::Validated) {
        Action::Invoke { params, query, payload } => {
            assert_eq!(params, Source::Void);
            assert_eq!(query, Source::Parsed);
            assert_eq!(payload, Source::Void);
        }
        other => panic!("{:?}", other),
    }
}

#[test]
fn void_query_goes_straight_to_the_payload() {
    let (mut p, _) =
        Pipeline::start(config(false, true, false, 100), &head(Some("application/json")));
    assert!(matches!(step(&mut p, Event::ContextDerived), Action::ParseParams));
    assert!(matches!(step(&mut p, Event::Parsed), Action::ValidateParams));
    assert!(matches!(step(&mut p, Event::Validated), Action::ReadChunk));
}

#[test]
fn context_failure_ends_the_pipeline_with_its_error() {
    let (mut p, _) = Pipeline::start(config(false, false, false, 100), &head(None));
    let e = ApiError {
        status: 404,
        kind: ApiErrorKind::ResourceNotFound,
        message: "no such tenant".to_string(),
    };
    expect_error(step(&mut p, Event::ContextFailed(e)), 404, "RESOURCE_NOT_FOUND", "no such tenant");
    assert!(p.is_done());
}

#[test]
fn params_parse_failure_is_invalid_params_parse() {
    let (mut p, _) = Pipeline::start(config(false, false, false, 100), &head(None));
    step(&mut p, Event::ContextDerived);
    expect_error(
        step(&mut p, Event::ParseFailed("missing field `id`".to_string())),
        400,
        "INVALID_PARAMS_PARSE",
        "error parsing path parameters: missing field `id`",
    );
    assert!(p.is_done());
}

#[test]
fn params_validation_failure_is_invalid_params_validate() {
    let (mut p, _) = Pipeline::start(config_of(&GetUser), &head(None));
    assert!(matches!(step(&mut p, Event::ContextDerived), Action::ParseParams));
    assert!(matches!(step(&mut p, Event::Parsed), Action::ValidateParams));
    let params = Params { id: "ABC".to_string() };
    let detail = match params.validate() {
        Err(e) => e.message,
        Ok(()) => panic!("ABC is no id"),
    };
    let action = step(&mut p, Event::ValidationFailed(detail));
    expect_error(
        action,
        400,
        "INVALID_PARAMS_VALIDATE",
        "error validating path parameters: id: does not match pattern /^[a-z0-9]+$/",
    );
    assert!(p.is_done());
}

#[test]
fn query_failures_have_their_own_kinds() {
    let (mut p, _) = Pipeline::start(config(true, false, true, 100), &head(None));
    step(&mut p, Event::ContextDerived);
    expect_error(
        step(&mut p, Event::ParseFailed("bad".to_string())),
        400,
        "INVALID_QUERY_PARSE",
        "error parsing query parameters: bad",
    );
    let (mut p, _) = Pipeline::start(config(true, false, true, 100), &head(None));
    step(&mut p, Event::ContextDerived);
    step(&mut p, Event::Parsed);
    expect_error(
        step(&mut p, Event::ValidationFailed("limit: greater than 200".to_string())),
        400,
        "INVALID_QUERY_VALIDATE",
        "error validating query parameters: limit: greater than 200",
    );
}

#[test]
fn payload_with_wrong_content_type_is_refused_before_the_body_is_read() {
    let (mut p, _) = Pipeline::start(config(true, true, false, 100), &head(Some("text/plain")));
    expect_error(
        step(&mut p, Event::ContextDerived),
        400,
        "PAYLOAD_CONTENT_TYPE",
        "content-type of request must be application/json",
    );
    assert!(p.is_done());
    assert!(!p.accepts(&Event::Chunk(vec![1])));
    assert!(!p.accepts(&Event::EndOfBody));
}

#[test]
fn payload_without_content_type_is_refused() {
    let (mut p, _) = Pipeline::start(config(true, true, false, 100), &head(None));
    expect_error(
        step(&mut p, Event::ContextDerived),
        400,
        "PAYLOAD_CONTENT_TYPE",
        "content-type of request must be application/json",
    );
}

#[test]
fn body_over_the_limit_ends_the_pipeline_with_payload_read() {
    let (mut p, _) =
        Pipeline::start(config(true, true, false, 8), &head(Some("application/json")));
    assert!(matches!(step(&mut p, Event::ContextDerived), Action::ReadChunk));
    assert!(matches!(step(&mut p, Event::Chunk(vec![0u8; 8])), Action::ReadChunk));
    expect_error(
        step(&mut p, Event::Chunk(vec![0u8; 1])),
        400,
        "PAYLOAD_READ",
        "error reading payload: body max size of 8 bytes exceeded",
    );
    assert!(p.is_done());
    assert!(!p.accepts(&Event::Chunk(vec![])));
}

#[test]
fn body_of_exactly_the_limit_is_read() {
    let (mut p, _) =
        Pipeline::start(config(true, true, false, 4), &head(Some("application/json")));
    step(&mut p, Event::ContextDerived);
    assert!(matches!(step(&mut p, Event::Chunk(b"null".to_vec())), Action::ReadChunk));
    match step(&mut p, Event::EndOfBody) {
        Action::ParsePayload(bytes) => assert_eq!(bytes, b"null".to_vec()),
        other => panic!("{:?}", other),
    }
}

#[test]
fn transport_failure_while_reading_is_payload_read() {
    let (mut p, _) =
        Pipeline::start(config(true, true, false, 100), &head(Some("application/json")));
    step(&mut p, Event::ContextDerived);
    expect_error(
        step(&mut p, Event::BodyFailed("connection reset".to_string())),
        400,
        "PAYLOAD_READ",
        "error reading payload: connection reset",
    );
}

#[test]
fn payload_failures_have_their_own_kinds() {
    let (mut p, _) =
        Pipeline::start(config(true, true, false, 100), &head(Some("application/json")));
    step(&mut p, Event::ContextDerived);
    step(&mut p, Event::EndOfBody);
    expect_error(
        step(&mut p, Event::ParseFailed("EOF while parsing".to_string())),
        400,
        "INVALID_PAYLOAD_PARSE",
        "error parsing payload: EOF while parsing",
    );
    let (mut p, _) =
        Pipeline::start(config(true, true, false, 100), &head(Some("application/json")));
    step(&mut p, Event::ContextDerived);
    step(&mut p, Event::EndOfBody);
    step(&mut p, Event::Parsed);
    expect_error(
        step(&mut p, Event::ValidationFailed("name: too short".to_string())),
        400,
        "INVALID_PAYLOAD_VALIDATE",
        "error validating payload: name: too short",
    );
}

#[test]
fn handler_failure_ends_the_pipeline_with_its_error() {
    let (mut p, _) = Pipeline::start(config(true, true, true, 100), &head(None));
    step(&mut p, Event::ContextDerived);
    let e = ApiError {
        status: 404,
        kind: ApiErrorKind::RecordNotFound,
        message: "no such user".to_string(),
    };
    expect_error(step(&mut p, Event::InvokeFailed(e)), 404, "RECORD_NOT_FOUND", "no such user");
    assert!(p.is_done());
}

#[test]
fn output_that_cannot_be_encoded_is_internal() {
    let (mut p, _) = Pipeline::start(config(true, true, true, 100), &head(None));
    step(&mut p, Event::ContextDerived);
    step(&mut p, Event::Invoked);
    expect_error(
        step(&mut p, Event::SerializeFailed),
        500,
        "INTERNAL",
        "error serializing response",
    );
    assert!(p.is_done());
}

#[test]
fn events_of_other_stages_are_not_accepted() {
    let (mut p, _) = Pipeline::start(config(false, false, false, 100), &head(None));
    assert!(!p.accepts(&Event::Parsed));
    assert!(!p.accepts(&Event::Chunk(vec![])));
    assert!(!p.accepts(&Event::Serialized(vec![])));
    step(&mut p, Event::ContextDerived);
    assert!(!p.accepts(&Event::ContextDerived));
    assert!(!p.accepts(&Event::Validated));
    assert!(p.accepts(&Event::Parsed));
    assert!(p.accepts(&Event::ParseFailed(String::new())));
}

#[test]
fn configuration_follows_the_slot_types() {
    let c = config_of(&ListUsers);
    assert!(c.params_void);
    assert!(!c.query_void);
    assert!(c.payload_void);
    assert_eq!(c.max_payload_size, 2 * 1024 * 1024);
    let c = config_of(&GetUser);
    assert!(!c.params_void);
    assert!(c.query_void);
    assert!(c.payload_void);
}

#[test]
fn source_of_a_slot() {
    assert_eq!(source_of(true), Source::Void);
    assert_eq!(source_of(false), Source::Parsed);
}

#[test]
fn list_users_with_limit_and_no_skip_uses_the_default_skip() {
    let (mut p, _) = Pipeline::start(config_of(&ListUsers), &head(None));
    assert!(matches!(step(&mut p, Event::ContextDerived), Action::ParseQuery));
    let query = Query { skip: None, limit: Some(Limit(10)) };
    assert!(matches!(step(&mut p, Event::Parsed), Action::ValidateQuery));
    assert!(query.validate().is_ok());
    match step(&mut p, Event::Validated) {
        Action::Invoke { params, query: q, payload } => {
            assert_eq!(params, Source::Void);
            assert_eq!(q, Source::Parsed);
            assert_eq!(payload, Source::Void);
        }
        other => panic!("{:?}", other),
    }
    let request = ParsedRequest { context: (), params: (), query, payload: () };
    let page = match ListUsers.run(request) {
        Ok(page) => page,
        Err(e) => panic!("{:?}", e),
    };
    assert_eq!(page.skip, 0);
    assert_eq!(page.limit, 10);
    assert_eq!(page.total, 0);
    assert!(page.items.is_empty());
    assert!(matches!(step(&mut p, Event::Invoked), Action::Serialize));
}
