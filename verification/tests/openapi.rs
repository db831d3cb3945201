use auto_api::json::Json;
use auto_api::method::Method;
use auto_api::registry::{Descriptor, EndpointDecl, Registry};

fn object(members: Vec<(&str, Json)>) -> Json {
    Json::Object(members.into_iter().map(|(k, v)| (k.to_string(), v)).collect())
}

fn text(s: &str) -> Json {
    Json::Text(s.to_string())
}

fn descriptor(schema: Json, shape: &str) -> Descriptor {
    Descriptor { schema, shape: shape.to_string() }
}

fn string_schema() -> Json {
    object(vec![("type", text("string"))])
}

fn integer_schema() -> Json {
    object(vec![("type", text("integer"))])
}

fn id_schema() -> Json {
    object(vec![
        ("type", text("object")),
        ("properties", object(vec![("id", string_schema())])),
    ])
}

fn page_query_schema() -> Json {
    object(vec![
        ("type", text("object")),
        ("properties", object(vec![("skip", integer_schema()), ("limit", integer_schema())])),
    ])
}

fn user_schema() -> Json {
    object(vec![("title", text("User"))])
}

fn error_schema() -> Json {
    object(vec![("title", text("ErrorPayload"))])
}

fn decl(path: &str, method: Method) -> EndpointDecl {
    EndpointDecl {
        path: path.to_string(),
        method,
        params: None,
        query: None,
        payload: None,
        output: descriptor(user_schema(), "User"),
        handler: 0,
    }
}

fn register(registry: &mut Registry, endpoint: EndpointDecl) {
    assert!(endpoint.is_well_formed());
    assert!(!registry.contains(&endpoint.path, endpoint.method));
    registry.register(endpoint);
}

fn error_reference() -> Json {
    object(vec![("$ref", text("#/components/schemas/ErrorPayload"))])
}

fn response(description: &str, schema: Json) -> Json {
    object(vec![
        ("description", text(description)),
        ("content", object(vec![("application/json", object(vec![("schema", schema)]))])),
    ])
}

fn responses(output: Json) -> Json {
    object(vec![
        ("200", response("A successful response", output)),
        ("4XX", response("A client error", error_reference())),
        ("5XX", response("A server error", error_reference())),
    ])
}

fn get<'a>(json: &'a Json, key: &str) -> &'a Json {
    match json.lookup(key) {
        Some(j) => j,
        None => panic!("no member {key} in {json:?}"),
    }
}

#[test]
fn document_of_an_empty_registry() {
    let r = Registry::new(descriptor(error_schema(), "E"));
    let doc = r.openapi_spec();
    assert_eq!(
        doc,
        object(vec![
            ("openapi", text("3.0.3")),
            (
                "info",
                object(vec![
                    ("title", text("Some API")),
                    ("summary", text("This is the Some API summary")),
                    ("description", text("This is the Some API description")),
                    ("termsOfService", text("http://example.test/terms/")),
                    (
                        "contact",
                        object(vec![
                            ("name", text("Some API Support")),
                            ("url", text("http://example.test")),
                            ("email", text("support@example.test")),
                        ]),
                    ),
                    ("version", text("0.1.0")),
                    (
                        "license",
                        object(vec![("name", text("Apache 2.0")), ("identifier", text("Apache-2.0"))]),
                    ),
                ]),
            ),
            (
                "servers",
                Json::Array(vec![object(vec![
                    ("url", text("/")),
                    ("description", text("This server")),
                ])]),
            ),
            ("paths", object(vec![])),
            (
                "components",
                object(vec![("schemas", object(vec![("ErrorPayload", error_schema())]))]),
            ),
        ])
    );
}

#[test]
fn placeholder_path_appears_in_braces_with_a_required_path_parameter() {
    let mut r = Registry::new(descriptor(error_schema(), "E"));
    let mut endpoint = decl("/users/:id", Method::Get);
    endpoint.params = Some(descriptor(id_schema(), "{ id: string }"));
    register(&mut r, endpoint);
    let doc = r.openapi_spec();
    let paths = get(&doc, "paths");
    assert_eq!(paths.lookup("/users/:id"), None);
    let operation = get(get(paths, "/users/{id}"), "get");
    assert_eq!(
        operation,
        &object(vec![
            (
                "parameters",
                Json::Array(vec![object(vec![
                    ("in", text("path")),
                    ("name", text("id")),
                    ("required", Json::Bool(true)),
                    ("schema", string_schema()),
                ])]),
            ),
            ("responses", responses(user_schema())),
        ])
    );
}

#[test]
fn query_properties_become_deep_object_parameters() {
    let mut r = Registry::new(descriptor(error_schema(), "E"));
    let mut endpoint = decl("/users", Method::Get);
    endpoint.query = Some(descriptor(page_query_schema(), "Q"));
    register(&mut r, endpoint);
    let doc = r.openapi_spec();
    let operation = get(get(get(&doc, "paths"), "/users"), "get");
    assert_eq!(
        get(operation, "parameters"),
        &Json::Array(vec![
            object(vec![
                ("in", text("query")),
                ("name", text("skip")),
                ("style", text("deepObject")),
                ("schema", integer_schema()),
            ]),
            object(vec![
                ("in", text("query")),
                ("name", text("limit")),
                ("style", text("deepObject")),
                ("schema", integer_schema()),
            ]),
        ])
    );
    assert_eq!(operation.lookup("requestBody"), None);
}

#[test]
fn path_parameters_come_before_query_parameters() {
    let mut r = Registry::new(descriptor(error_schema(), "E"));
    let mut endpoint = decl("/users/:id/posts", Method::Get);
    endpoint.params = Some(descriptor(id_schema(), "P"));
    endpoint.query = Some(descriptor(page_query_schema(), "Q"));
    register(&mut r, endpoint);
    let doc = r.openapi_spec();
    let operation = get(get(get(&doc, "paths"), "/users/{id}/posts"), "get");
    let places: Vec<Json> = match get(operation, "parameters") {
        Json::Array(items) => items.iter().map(|p| get(p, "in").duplicate()).collect(),
        other => panic!("{:?}", other),
    };
    assert_eq!(places, vec![text("path"), text("query"), text("query")]);
}

#[test]
fn payload_becomes_the_request_body() {
    let mut r = Registry::new(descriptor(error_schema(), "E"));
    let mut endpoint = decl("/users", Method::Post);
    endpoint.payload = Some(descriptor(user_schema(), "User"));
    register(&mut r, endpoint);
    let doc = r.openapi_spec();
    let operation = get(get(get(&doc, "paths"), "/users"), "post");
    assert_eq!(
        operation,
        &object(vec![
            (
                "requestBody",
                object(vec![(
                    "content",
                    object(vec![("application/json", object(vec![("schema", user_schema())]))]),
                )]),
            ),
            ("responses", responses(user_schema())),
        ])
    );
}

#[test]
fn endpoint_without_inputs_has_responses_only() {
    let mut r = Registry::new(descriptor(error_schema(), "E"));
    register(&mut r, decl("/ping", Method::Head));
    let doc = r.openapi_spec();
    let operation = get(get(get(&doc, "paths"), "/ping"), "head");
    assert_eq!(operation, &object(vec![("responses", responses(user_schema()))]));
}

#[test]
fn schema_with_no_properties_gives_no_parameters_member() {
    let mut r = Registry::new(descriptor(error_schema(), "E"));
    let mut endpoint = decl("/x", Method::Get);
    endpoint.query = Some(descriptor(object(vec![("properties", object(vec![]))]), "Q"));
    register(&mut r, endpoint);
    let doc = r.openapi_spec();
    let operation = get(get(get(&doc, "paths"), "/x"), "get");
    assert_eq!(operation.lookup("parameters"), None);
}

#[test]
fn each_endpoint_has_one_entry_under_its_method() {
    let mut r = Registry::new(descriptor(error_schema(), "E"));
    register(&mut r, decl("/users", Method::Get));
    register(&mut r, decl("/users/:id", Method::Get));
    register(&mut r, decl("/users", Method::Post));
    register(&mut r, decl("/users/:id", Method::Delete));
    let doc = r.openapi_spec();
    let keys = |json: &Json| -> Vec<String> {
        match json {
            Json::Object(members) => members.iter().map(|(k, _)| k.clone()).collect(),
            other => panic!("{:?}", other),
        }
    };
    let paths = get(&doc, "paths");
    assert_eq!(keys(paths), vec!["/users", "/users/{id}"]);
    assert_eq!(keys(get(paths, "/users")), vec!["get", "post"]);
    assert_eq!(keys(get(paths, "/users/{id}")), vec!["get", "delete"]);
}

#[test]
fn paths_with_one_brace_form_share_one_member() {
    let mut r = Registry::new(descriptor(error_schema(), "E"));
    register(&mut r, decl("/a/:x", Method::Get));
    register(&mut r, decl("/b", Method::Get));
    register(&mut r, decl("/a/{x}", Method::Post));
    let doc = r.openapi_spec();
    match get(&doc, "paths") {
        Json::Object(members) => {
            let keys: Vec<&str> = members.iter().map(|(k, _)| k.as_str()).collect();
            assert_eq!(keys, vec!["/a/{x}", "/b"]);
            assert_eq!(members[0].1.lookup("get"), None);
            assert!(members[0].1.lookup("post").is_some());
        }
        other => panic!("{:?}", other),
    }
}

#[test]
fn error_schema_stands_once_and_is_referred_to() {
    let mut r = Registry::new(descriptor(error_schema(), "E"));
    register(&mut r, decl("/users", Method::Get));
    let doc = r.openapi_spec();
    assert_eq!(
        get(get(get(&doc, "components"), "schemas"), "ErrorPayload"),
        &error_schema()
    );
    let operation = get(get(get(&doc, "paths"), "/users"), "get");
    let responses = get(operation, "responses");
    for class in ["4XX", "5XX"] {
        let schema =
            get(get(get(get(responses, class), "content"), "application/json"), "schema");
        assert_eq!(schema, &error_reference());
    }
}

#[test]
fn the_same_registry_gives_the_same_documents() {
    let mut r = Registry::new(descriptor(error_schema(), "E"));
    let mut endpoint = decl("/users/:id", Method::Get);
    endpoint.params = Some(descriptor(id_schema(), "{ id: string }"));
    register(&mut r, endpoint);
    register(&mut r, decl("/users", Method::Get));
    assert_eq!(r.openapi_spec(), r.openapi_spec());
    assert_eq!(r.ts_definitions(), r.ts_definitions());
}
