use auto_api::api::users::get::E as GetUser;
use auto_api::api::users::list::E as ListUsers;
use auto_api::json::{Json, Number};
use auto_api::method::Method;
use auto_api::registry::{declare, Descriptor, Descriptors, EndpointDecl, Registry, Resolution};

fn object(members: Vec<(&str, Json)>) -> Json {
    Json::Object(members.into_iter().map(|(k, v)| (k.to_string(), v)).collect())
}

fn text(s: &str) -> Json {
    Json::Text(s.to_string())
}

fn descriptor(schema: Json, shape: &str) -> Descriptor {
    Descriptor { schema, shape: shape.to_string() }
}

fn id_schema() -> Json {
    object(vec![
        ("type", text("object")),
        ("properties", object(vec![("id", object(vec![("type", text("string"))]))])),
        ("required", Json::Array(vec![text("id")])),
    ])
}

fn user_schema() -> Json {
    object(vec![("type", text("object"))])
}

fn error_payload() -> Descriptor {
    descriptor(object(vec![("type", text("object"))]), "{ error: ApiError }")
}

fn decl(path: &str, method: Method, handler: usize) -> EndpointDecl {
    EndpointDecl {
        path: path.to_string(),
        method,
        params: None,
        query: None,
        payload: None,
        output: descriptor(user_schema(), "User"),
        handler,
    }
}

fn register(registry: &mut Registry, endpoint: EndpointDecl) {
    assert!(endpoint.is_well_formed());
    assert!(!registry.contains(&endpoint.path, endpoint.method), "duplicate endpoint");
    registry.register(endpoint);
}

#[test]
fn new_registry_has_no_groups() {
    let r = Registry::new(error_payload());
    assert!(r.groups().is_empty());
    assert_eq!(r.error_payload_shape(), "{ error: ApiError }");
    assert_eq!(r.error_payload_schema(), &object(vec![("type", text("object"))]));
    assert!(!r.contains("/users", Method::Get));
    assert!(matches!(r.resolve("/users", Method::Get), Resolution::UnknownPath));
}

#[test]
fn registered_pair_is_contained() {
    let mut r = Registry::new(error_payload());
    register(&mut r, decl("/users", Method::Get, 0));
    assert!(r.contains("/users", Method::Get));
    assert!(!r.contains("/users", Method::Post));
    assert!(!r.contains("/users/:id", Method::Get));
}

#[test]
fn second_endpoint_under_a_registered_pair_is_detected() {
    let mut r = Registry::new(error_payload());
    register(&mut r, decl("/users", Method::Get, 0));
    register(&mut r, decl("/users", Method::Post, 1));
    register(&mut r, decl("/users/:id", Method::Get, 2));
    let again = decl("/users", Method::Get, 3);
    assert!(r.contains(&again.path, again.method));
    let again = decl("/users", Method::Post, 3);
    assert!(r.contains(&again.path, again.method));
    let again = decl("/users/:id", Method::Get, 3);
    assert!(r.contains(&again.path, again.method));
    assert_eq!(r.groups().len(), 2);
    assert_eq!(r.groups()[0].items().len(), 2);
    assert_eq!(r.groups()[1].items().len(), 1);
}

#[test]
fn endpoints_are_grouped_by_path_in_registration_order() {
    let mut r = Registry::new(error_payload());
    register(&mut r, decl("/b", Method::Get, 0));
    register(&mut r, decl("/a", Method::Post, 1));
    register(&mut r, decl("/b", Method::Delete, 2));
    register(&mut r, decl("/a", Method::Get, 3));
    let groups = r.groups();
    assert_eq!(groups.len(), 2);
    assert_eq!(groups[0].path(), "/b");
    assert_eq!(groups[1].path(), "/a");
    let handlers = |g: usize| -> Vec<(Method, usize)> {
        groups[g].items().iter().map(|i| (i.method, i.handler)).collect()
    };
    assert_eq!(handlers(0), vec![(Method::Get, 0), (Method::Delete, 2)]);
    assert_eq!(handlers(1), vec![(Method::Post, 1), (Method::Get, 3)]);
    for g in groups {
        for item in g.items() {
            assert_eq!(item.path, g.path());
        }
    }
}

#[test]
fn unknown_method_is_told_apart_from_unknown_path() {
    let mut r = Registry::new(error_payload());
    register(&mut r, decl("/users", Method::Get, 7));
    match r.resolve("/users", Method::Get) {
        Resolution::Endpoint(item) => {
            assert_eq!(item.handler, 7);
            assert_eq!(item.path, "/users");
            assert_eq!(item.method, Method::Get);
        }
        other => panic!("{:?}", other),
    }
    assert!(matches!(r.resolve("/users", Method::Post), Resolution::UnknownMethod));
    assert!(matches!(r.resolve("/user", Method::Get), Resolution::UnknownPath));
    assert!(matches!(r.resolve("/users/", Method::Get), Resolution::UnknownPath));
}

#[test]
fn every_method_can_be_registered_under_one_path() {
    let all = [
        Method::Head,
        Method::Get,
        Method::Post,
        Method::Put,
        Method::Patch,
        Method::Delete,
        Method::Options,
        Method::Connect,
        Method::Trace,
    ];
    let mut r = Registry::new(error_payload());
    for (i, m) in all.iter().enumerate() {
        register(&mut r, decl("/x", *m, i));
    }
    assert_eq!(r.groups().len(), 1);
    for (i, m) in all.iter().enumerate() {
        match r.resolve("/x", *m) {
            Resolution::Endpoint(item) => assert_eq!(item.handler, i),
            other => panic!("{:?}", other),
        }
    }
}

#[test]
fn item_keeps_schema_and_shape_of_each_slot_that_is_not_void() {
    let mut r = Registry::new(error_payload());
    let endpoint = EndpointDecl {
        path: "/users/:id".to_string(),
        method: Method::Put,
        params: Some(descriptor(id_schema(), "{ id: string }")),
        query: None,
        payload: Some(descriptor(user_schema(), "User")),
        output: descriptor(Json::Number(Number::Unsigned(1)), "number"),
        handler: 4,
    };
    register(&mut r, endpoint);
    let item = &r.groups()[0].items()[0];
    assert_eq!(item.params, Some(id_schema()));
    assert_eq!(item.params_shape, Some("{ id: string }".to_string()));
    assert_eq!(item.query, None);
    assert_eq!(item.query_shape, None);
    assert_eq!(item.payload, Some(user_schema()));
    assert_eq!(item.payload_shape, Some("User".to_string()));
    assert_eq!(item.output, Json::Number(Number::Unsigned(1)));
    assert_eq!(item.output_shape, "number");
    assert_eq!(item.handler, 4);
}

#[test]
fn declaration_is_well_formed_when_parameters_can_be_listed() {
    let mut d = decl("/x", Method::Get, 0);
    assert!(d.is_well_formed());
    d.params = Some(descriptor(id_schema(), "P"));
    d.query = Some(descriptor(id_schema(), "Q"));
    assert!(d.is_well_formed());
    d.params = Some(descriptor(object(vec![("type", text("string"))]), "string"));
    assert!(!d.is_well_formed());
    d.params = None;
    d.query = Some(descriptor(object(vec![("properties", Json::Array(vec![]))]), "Q"));
    assert!(!d.is_well_formed());
    d.query = Some(descriptor(Json::Null, "null"));
    assert!(!d.is_well_formed());
    d.query = None;
    d.payload = Some(descriptor(Json::Null, "null"));
    assert!(d.is_well_formed());
}

#[test]
fn declare_drops_the_descriptors_of_void_slots() {
    let descriptors = || Descriptors {
        params: descriptor(id_schema(), "P"),
        query: descriptor(id_schema(), "Q"),
        payload: descriptor(user_schema(), "B"),
        output: descriptor(user_schema(), "O"),
    };
    let d = declare(&GetUser, descriptors(), 5);
    assert_eq!(d.path, "/users/:id");
    assert_eq!(d.method, Method::Get);
    assert_eq!(d.params.map(|d| d.shape), Some("P".to_string()));
    assert!(d.query.is_none());
    assert!(d.payload.is_none());
    assert_eq!(d.output.shape, "O");
    assert_eq!(d.handler, 5);
    let d = declare(&ListUsers, descriptors(), 6);
    assert_eq!(d.path, "/users");
    assert!(d.params.is_none());
    assert_eq!(d.query.map(|d| d.shape), Some("Q".to_string()));
    assert!(d.payload.is_none());
}

#[test]
fn into_item_splits_each_descriptor() {
    let endpoint = EndpointDecl {
        path: "/p".to_string(),
        method: Method::Patch,
        params: None,
        query: Some(descriptor(id_schema(), "Q")),
        payload: None,
        output: descriptor(user_schema(), "O"),
        handler: 9,
    };
    let item = endpoint.into_item();
    assert_eq!(item.path, "/p");
    assert_eq!(item.method, Method::Patch);
    assert_eq!(item.params, None);
    assert_eq!(item.params_shape, None);
    assert_eq!(item.query, Some(id_schema()));
    assert_eq!(item.query_shape, Some("Q".to_string()));
    assert_eq!(item.payload, None);
    assert_eq!(item.output, user_schema());
    assert_eq!(item.output_shape, "O");
    assert_eq!(item.handler, 9);
}
