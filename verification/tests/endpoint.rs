use auto_api::endpoint::{
    is_content_type_json, is_json_essence, read_body, BodyReader, ParsedRequest, ReadBodyError,
    RequestHead, DEFAULT_MAX_PAYLOAD_SIZE,
};
use auto_api::error::ApiErrorKind;

fn head(content_type: Option<&str>) -> RequestHead {
    RequestHead { query: None, content_type: content_type.map(|s| s.to_string()) }
}

#[test]
fn default_max_payload_size_is_two_mebibytes() {
    assert_eq!(DEFAULT_MAX_PAYLOAD_SIZE, 2 * 1024 * 1024);
}

#[test]
fn json_content_type_is_recognised() {
    assert!(is_content_type_json(&head(Some("application/json"))));
}

#[test]
fn json_content_type_with_parameters_is_recognised() {
    assert!(is_content_type_json(&head(Some("application/json; charset=utf-8"))));
    assert!(is_content_type_json(&head(Some("application/json;charset=utf-8"))));
}

#[test]
fn json_content_type_in_upper_case_is_recognised() {
    assert!(is_content_type_json(&head(Some("Application/JSON"))));
}

#[test]
fn other_content_types_are_not_json() {
    assert!(!is_content_type_json(&head(Some("text/plain"))));
    assert!(!is_content_type_json(&head(Some("application/xml"))));
    assert!(!is_content_type_json(&head(Some("application/jsonx"))));
    assert!(!is_content_type_json(&head(Some("application/vnd.api+json"))));
}

#[test]
fn missing_or_malformed_content_type_is_not_json() {
    assert!(!is_content_type_json(&head(None)));
    assert!(!is_content_type_json(&head(Some(""))));
    assert!(!is_content_type_json(&head(Some("json"))));
    assert!(!is_content_type_json(&head(Some("application/"))));
    assert!(!is_content_type_json(&head(Some("/json"))));
}

#[test]
fn only_the_json_essence_is_json() {
    assert!(is_json_essence(&Some("application/json".to_string())));
    assert!(!is_json_essence(&Some("application/json; charset=utf-8".to_string())));
    assert!(!is_json_essence(&Some("text/plain".to_string())));
    assert!(!is_json_essence(&None));
}

#[test]
fn query_text_is_empty_without_a_query() {
    assert_eq!(head(None).query_text(), "");
    let h = RequestHead { query: Some("limit=10".to_string()), content_type: None };
    assert_eq!(h.query_text(), "limit=10");
}

#[test]
fn body_within_the_limit_is_read_whole() {
    let chunks = vec![Ok(b"hello ".to_vec()), Ok(b"".to_vec()), Ok(b"world".to_vec())];
    match read_body(11, &chunks) {
        Ok(bytes) => assert_eq!(bytes, b"hello world".to_vec()),
        Err(e) => panic!("{:?}", e),
    }
}

#[test]
fn empty_body_is_read_with_any_limit() {
    match read_body(0, &vec![]) {
        Ok(bytes) => assert!(bytes.is_empty()),
        Err(e) => panic!("{:?}", e),
    }
    match read_body(0, &vec![Ok(vec![])]) {
        Ok(bytes) => assert!(bytes.is_empty()),
        Err(e) => panic!("{:?}", e),
    }
}

#[test]
fn body_over_the_limit_is_refused() {
    let chunks = vec![Ok(b"hello ".to_vec()), Ok(b"world".to_vec())];
    match read_body(10, &chunks) {
        Err(ReadBodyError::MaxSizeExceeded(10)) => {}
        other => panic!("{:?}", other),
    }
}

#[test]
fn reading_stops_at_the_chunk_that_goes_over_the_limit() {
    let chunks = vec![Ok(vec![0u8; 4]), Ok(vec![0u8; 4]), Err("never reached".to_string())];
    match read_body(7, &chunks) {
        Err(ReadBodyError::MaxSizeExceeded(7)) => {}
        other => panic!("{:?}", other),
    }
}

#[test]
fn transport_failure_ends_the_reading() {
    let chunks = vec![Ok(vec![1u8, 2]), Err("connection reset".to_string()), Ok(vec![0u8; 100])];
    match read_body(10, &chunks) {
        Err(ReadBodyError::Read(message)) => assert_eq!(message, "connection reset"),
        other => panic!("{:?}", other),
    }
}

#[test]
fn reader_refuses_a_chunk_and_keeps_what_it_has() {
    let mut reader = BodyReader::new(5);
    assert!(reader.push(b"abc").is_ok());
    match reader.push(b"def") {
        Err(ReadBodyError::MaxSizeExceeded(5)) => {}
        other => panic!("{:?}", other),
    }
    assert!(reader.push(b"de").is_ok());
    assert_eq!(reader.finish(), b"abcde".to_vec());
}

#[test]
fn read_error_messages() {
    assert_eq!(
        ReadBodyError::MaxSizeExceeded(2097152).message(),
        "body max size of 2097152 bytes exceeded"
    );
    assert_eq!(ReadBodyError::Read("broken pipe".to_string()).message(), "broken pipe");
}

#[test]
fn read_error_becomes_payload_read() {
    let e = ReadBodyError::MaxSizeExceeded(10).into_api_error();
    assert_eq!(e.status, 400);
    assert_eq!(e.kind, ApiErrorKind::PayloadRead);
    assert_eq!(e.message, "error reading payload: body max size of 10 bytes exceeded");
    let e = ReadBodyError::Read("broken pipe".to_string()).into_api_error();
    assert_eq!(e.status, 400);
    assert_eq!(e.kind, ApiErrorKind::PayloadRead);
    assert_eq!(e.message, "error reading payload: broken pipe");
}

#[test]
fn parsed_request_holds_the_four_values() {
    let r = ParsedRequest { context: 1u8, params: "p", query: (), payload: vec![1u8] };
    assert_eq!(r.context, 1);
    assert_eq!(r.params, "p");
    assert_eq!(r.query, ());
    assert_eq!(r.payload, vec![1]);
}
