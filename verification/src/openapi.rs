//! The OpenAPI export: one JSON document that describes every
//! registered endpoint.
//!
//! Each path of the route table becomes a member of `paths`, under its
//! brace form; each of its endpoints becomes an operation under the method's
//! lower-case token. The properties of the parameters' schema become path
//! parameters, those of the query's schema become query parameters of style
//! `deepObject`. The error payload's schema stands once, under
//! `components.schemas.ErrorPayload`, and every operation refers to it.

use vstd::prelude::*;
use vstd::string::*;
use crate::json::{
    items_view, lemma_object_view, members_view, set_member, with_member, Json, JsonView,
};
use crate::path::{spec_openapi_path, to_openapi_path};
use crate::registry::{
    groups_seq, items_seq, GroupView, ItemView, PathGroup, Registry, RegistryItem, RegistryView,
};

verus! {

/// The members of a schema's `properties`; none, where the schema has no such
/// member or it is not an object.
pub open spec fn properties(schema: JsonView) -> Seq<(Seq<char>, JsonView)> {
    match schema.lookup("properties"@) {
        Some(p) => p.members(),
        None => Seq::empty(),
    }
}

/// The descriptor of a path parameter: required, located in the path.
pub open spec fn path_parameter(name: Seq<char>, schema: JsonView) -> JsonView {
    JsonView::Object(
        seq![
            ("in"@, JsonView::Text("path"@)),
            ("name"@, JsonView::Text(name)),
            ("required"@, JsonView::Bool(true)),
            ("schema"@, schema),
        ],
    )
}

/// The descriptor of a query parameter, of style `deepObject`.
pub open spec fn query_parameter(name: Seq<char>, schema: JsonView) -> JsonView {
    JsonView::Object(
        seq![
            ("in"@, JsonView::Text("query"@)),
            ("name"@, JsonView::Text(name)),
            ("style"@, JsonView::Text("deepObject"@)),
            ("schema"@, schema),
        ],
    )
}

/// One descriptor for each property, in the properties' order.
pub open spec fn parameters_of(props: Seq<(Seq<char>, JsonView)>, in_path: bool) -> Seq<JsonView> {
    Seq::new(
        props.len(),
        |i: int|
            if in_path {
                path_parameter(props[i].0, props[i].1)
            } else {
                query_parameter(props[i].0, props[i].1)
            },
    )
}

/// The descriptors that a slot's schema gives; none for a void slot.
pub open spec fn slot_parameters(schema: Option<JsonView>, in_path: bool) -> Seq<JsonView> {
    match schema {
        Some(j) => parameters_of(properties(j), in_path),
        None => Seq::empty(),
    }
}

/// The parameters of an endpoint: those of the path, then those of the query.
pub open spec fn parameters(item: ItemView) -> Seq<JsonView> {
    slot_parameters(item.params, true) + slot_parameters(item.query, false)
}

/// A body of the JSON media type with the given schema.
pub open spec fn json_content(schema: JsonView) -> JsonView {
    JsonView::Object(
        seq![("application/json"@, JsonView::Object(seq![("schema"@, schema)]))],
    )
}

/// A response with a description and a JSON body.
pub open spec fn response(description: Seq<char>, schema: JsonView) -> JsonView {
    JsonView::Object(
        seq![("description"@, JsonView::Text(description)), ("content"@, json_content(schema))],
    )
}

/// The reference to the shared schema of the error payload.
pub open spec fn error_reference() -> JsonView {
    JsonView::Object(seq![("$ref"@, JsonView::Text("#/components/schemas/ErrorPayload"@))])
}

/// The responses of an endpoint: its output under `200`, the error payload
/// under `4XX` and `5XX`.
pub open spec fn responses(item: ItemView) -> JsonView {
    JsonView::Object(
        seq![
            ("200"@, response("A successful response"@, item.output)),
            ("4XX"@, response("A client error"@, error_reference())),
            ("5XX"@, response("A server error"@, error_reference())),
        ],
    )
}

/// The members of an endpoint's operation: `parameters` where there are any,
/// `requestBody` where the payload is not void, and `responses`.
pub open spec fn operation_members(item: ItemView) -> Seq<(Seq<char>, JsonView)> {
    (if parameters(item).len() > 0 {
        seq![("parameters"@, JsonView::Array(parameters(item)))]
    } else {
        Seq::empty()
    }) + (match item.payload {
        Some(p) => seq![
            ("requestBody"@, JsonView::Object(seq![("content"@, json_content(p))])),
        ],
        None => Seq::empty(),
    }) + seq![("responses"@, responses(item))]
}

/// The operation of an endpoint.
pub open spec fn operation(item: ItemView) -> JsonView {
    JsonView::Object(operation_members(item))
}

/// The operations of a path, each bound to the lower-case token of its method.
pub open spec fn operations(items: Seq<ItemView>) -> Seq<(Seq<char>, JsonView)>
    decreases items.len(),
{
    if items.len() == 0 {
        Seq::empty()
    } else {
        with_member(
            operations(items.drop_last()),
            items.last().method.spec_lowercase(),
            operation(items.last()),
        )
    }
}

/// The member `paths`: the operations of each group, bound to the brace form
/// of the group's path. Where two paths have the same brace form, the later
/// group takes the place of the earlier.
pub open spec fn paths(groups: Seq<GroupView>) -> Seq<(Seq<char>, JsonView)>
    decreases groups.len(),
{
    if groups.len() == 0 {
        Seq::empty()
    } else {
        with_member(
            paths(groups.drop_last()),
            spec_openapi_path(groups.last().path),
            JsonView::Object(operations(groups.last().items)),
        )
    }
}

/// The member `info`.
pub open spec fn info() -> JsonView {
    JsonView::Object(
        seq![
            ("title"@, JsonView::Text("Some API"@)),
            ("summary"@, JsonView::Text("This is the Some API summary"@)),
            ("description"@, JsonView::Text("This is the Some API description"@)),
            ("termsOfService"@, JsonView::Text("http://example.test/terms/"@)),
            (
                "contact"@,
                JsonView::Object(
                    seq![
                        ("name"@, JsonView::Text("Some API Support"@)),
                        ("url"@, JsonView::Text("http://example.test"@)),
                        ("email"@, JsonView::Text("support@example.test"@)),
                    ],
                ),
            ),
            ("version"@, JsonView::Text("0.1.0"@)),
            (
                "license"@,
                JsonView::Object(
                    seq![
                        ("name"@, JsonView::Text("Apache 2.0"@)),
                        ("identifier"@, JsonView::Text("Apache-2.0"@)),
                    ],
                ),
            ),
        ],
    )
}

/// The member `servers`: this server.
pub open spec fn servers() -> JsonView {
    JsonView::Array(
        seq![
            JsonView::Object(
                seq![
                    ("url"@, JsonView::Text("/"@)),
                    ("description"@, JsonView::Text("This server"@)),
                ],
            ),
        ],
    )
}

/// The OpenAPI document of a registry.
pub open spec fn spec_openapi(r: RegistryView) -> JsonView {
    JsonView::Object(
        seq![
            ("openapi"@, JsonView::Text("3.0.3"@)),
            ("info"@, info()),
            ("servers"@, servers()),
            ("paths"@, JsonView::Object(paths(r.groups))),
            (
                "components"@,
                JsonView::Object(
                    seq![
                        (
                            "schemas"@,
                            JsonView::Object(seq![("ErrorPayload"@, r.error_payload_schema)]),
                        ),
                    ],
                ),
            ),
        ],
    )
}

/// A member with the given key and value.
fn entry(key: &str, value: Json) -> (r: (String, Json))
    ensures
        r.0@ == key@,
        r.1@ == value@,
{
    (String::from_str(key), value)
}

/// The object with one member.
fn object1(key: &str, value: Json) -> (r: Json)
    ensures
        r@ == JsonView::Object(seq![(key@, value@)]),
{
    let mut members: Vec<(String, Json)> = Vec::new();
    members.push(entry(key, value));
    assert(members_view(members@) =~= seq![(key@, value@)]);
    Json::object(members)
}

/// The object with two members.
fn object2(k0: &str, v0: Json, k1: &str, v1: Json) -> (r: Json)
    ensures
        r@ == JsonView::Object(seq![(k0@, v0@), (k1@, v1@)]),
{
    let mut members: Vec<(String, Json)> = Vec::new();
    members.push(entry(k0, v0));
    members.push(entry(k1, v1));
    assert(members_view(members@) =~= seq![(k0@, v0@), (k1@, v1@)]);
    Json::object(members)
}

/// The object with three members.
fn object3(k0: &str, v0: Json, k1: &str, v1: Json, k2: &str, v2: Json) -> (r: Json)
    ensures
        r@ == JsonView::Object(seq![(k0@, v0@), (k1@, v1@), (k2@, v2@)]),
{
    let mut members: Vec<(String, Json)> = Vec::new();
    members.push(entry(k0, v0));
    members.push(entry(k1, v1));
    members.push(entry(k2, v2));
    assert(members_view(members@) =~= seq![(k0@, v0@), (k1@, v1@), (k2@, v2@)]);
    Json::object(members)
}

/// The descriptor of one parameter.
fn parameter(name: &str, schema: &Json, in_path: bool) -> (r: Json)
    ensures
        r@ == (if in_path {
            path_parameter(name@, schema@)
        } else {
            query_parameter(name@, schema@)
        }),
{
    let mut members: Vec<(String, Json)> = Vec::new();
    if in_path {
        members.push(entry("in", Json::text("path")));
        members.push(entry("name", Json::text(name)));
        members.push(entry("required", Json::Bool(true)));
        members.push(entry("schema", schema.duplicate()));
        assert(members_view(members@) =~= path_parameter(name@, schema@)->Object_0);
    } else {
        members.push(entry("in", Json::text("query")));
        members.push(entry("name", Json::text(name)));
        members.push(entry("style", Json::text("deepObject")));
        members.push(entry("schema", schema.duplicate()));
        assert(members_view(members@) =~= query_parameter(name@, schema@)->Object_0);
    }
    Json::object(members)
}

/// Adds one descriptor for each property of the schema.
fn push_parameters(out: &mut Vec<Json>, schema: &Option<Json>, in_path: bool)
    ensures
        items_view(final(out)@) == items_view(old(out)@) + slot_parameters(
            crate::registry::schema_view(*schema),
            in_path,
        ),
{
    let ghost before = items_view(out@);
    match schema {
        Some(j) => match j.lookup("properties") {
            Some(Json::Object(props)) => {
                proof {
                    lemma_object_view(*props);
                }
                let ghost wanted = parameters_of(members_view(props@), in_path);
                let mut i: usize = 0;
                while i < props.len()
                    invariant
                        i <= props.len(),
                        wanted == parameters_of(members_view(props@), in_path),
                        items_view(out@) == before + wanted.take(i as int),
                    decreases props.len() - i,
                {
                    let p = parameter(props[i].0.as_str(), &props[i].1, in_path);
                    let ghost prev = items_view(out@);
                    proof {
                        assert(members_view(props@)[i as int] == (props@[i as int].0@, props@[i as int].1@));
                        assert(wanted[i as int] == p@);
                    }
                    out.push(p);
                    proof {
                        assert(items_view(out@) =~= prev.push(p@));
                        assert(wanted.take(i + 1) =~= wanted.take(i as int).push(wanted[i as int]));
                        assert(items_view(out@) =~= before + wanted.take(i + 1));
                    }
                    i = i + 1;
                }
                assert(wanted.take(i as int) =~= wanted);
            },
            Some(_) => {
                assert(items_view(out@) =~= before + Seq::<JsonView>::empty());
            },
            None => {
                assert(items_view(out@) =~= before + Seq::<JsonView>::empty());
            },
        },
        None => {
            assert(items_view(out@) =~= before + Seq::<JsonView>::empty());
        },
    }
}

/// A response with a description and a JSON body.
fn response_of(description: &str, schema: Json) -> (r: Json)
    ensures
        r@ == response(description@, schema@),
{
    let content = object1("application/json", object1("schema", schema));
    object2("description", Json::text(description), "content", content)
}

/// The reference to the shared schema of the error payload.
fn error_reference_of() -> (r: Json)
    ensures
        r@ == error_reference(),
{
    object1("$ref", Json::text("#/components/schemas/ErrorPayload"))
}

/// The operation of an endpoint.
fn operation_of(item: &RegistryItem) -> (r: Json)
    ensures
        r@ == operation(item@),
{
    let mut members: Vec<(String, Json)> = Vec::new();
    let mut params: Vec<Json> = Vec::new();
    push_parameters(&mut params, &item.params, true);
    push_parameters(&mut params, &item.query, false);
    assert(items_view(params@) =~= parameters(item@));
    if params.len() > 0 {
        members.push(entry("parameters", Json::array(params)));
    }
    match &item.payload {
        Some(p) => {
            let content = object1("application/json", object1("schema", p.duplicate()));
            members.push(entry("requestBody", object1("content", content)));
        },
        None => {},
    }
    let responses = object3(
        "200",
        response_of("A successful response", item.output.duplicate()),
        "4XX",
        response_of("A client error", error_reference_of()),
        "5XX",
        response_of("A server error", error_reference_of()),
    );
    members.push(entry("responses", responses));
    assert(members_view(members@) =~= operation_members(item@));
    Json::object(members)
}

/// The operations of a path.
fn operations_of(items: &Vec<RegistryItem>) -> (r: Vec<(String, Json)>)
    ensures
        members_view(r@) == operations(items_seq(items@)),
{
    let mut out: Vec<(String, Json)> = Vec::new();
    let mut i: usize = 0;
    assert(members_view(out@) =~= operations(items_seq(items@).take(0)));
    while i < items.len()
        invariant
            i <= items.len(),
            members_view(out@) == operations(items_seq(items@).take(i as int)),
        decreases items.len() - i,
    {
        let op = operation_of(&items[i]);
        proof {
            let next = items_seq(items@).take(i + 1);
            assert(next.drop_last() =~= items_seq(items@).take(i as int));
            assert(next.last() == items@[i as int]@);
        }
        set_member(&mut out, String::from_str(items[i].method.lowercase()), op);
        i = i + 1;
    }
    assert(items_seq(items@).take(i as int) =~= items_seq(items@));
    out
}

/// The member `paths`.
fn paths_of(groups: &Vec<PathGroup>) -> (r: Vec<(String, Json)>)
    ensures
        members_view(r@) == paths(groups_seq(groups@)),
{
    let mut out: Vec<(String, Json)> = Vec::new();
    let mut g: usize = 0;
    assert(members_view(out@) =~= paths(groups_seq(groups@).take(0)));
    while g < groups.len()
        invariant
            g <= groups.len(),
            members_view(out@) == paths(groups_seq(groups@).take(g as int)),
        decreases groups.len() - g,
    {
        let ops = Json::object(operations_of(groups[g].items()));
        let key = to_openapi_path(groups[g].path());
        proof {
            let next = groups_seq(groups@).take(g + 1);
            assert(next.drop_last() =~= groups_seq(groups@).take(g as int));
            assert(next.last() == groups@[g as int]@);
        }
        set_member(&mut out, key, ops);
        g = g + 1;
    }
    assert(groups_seq(groups@).take(g as int) =~= groups_seq(groups@));
    out
}

/// The member `info`.
fn info_of() -> (r: Json)
    ensures
        r@ == info(),
{
    let contact = object3(
        "name",
        Json::text("Some API Support"),
        "url",
        Json::text("http://example.test"),
        "email",
        Json::text("support@example.test"),
    );
    let license = object2("name", Json::text("Apache 2.0"), "identifier", Json::text("Apache-2.0"));
    let mut members: Vec<(String, Json)> = Vec::new();
    members.push(entry("title", Json::text("Some API")));
    members.push(entry("summary", Json::text("This is the Some API summary")));
    members.push(entry("description", Json::text("This is the Some API description")));
    members.push(entry("termsOfService", Json::text("http://example.test/terms/")));
    members.push(entry("contact", contact));
    members.push(entry("version", Json::text("0.1.0")));
    members.push(entry("license", license));
    assert(members_view(members@) =~= info()->Object_0);
    Json::object(members)
}

/// The member `servers`.
fn servers_of() -> (r: Json)
    ensures
        r@ == servers(),
{
    let mut items: Vec<Json> = Vec::new();
    items.push(object2("url", Json::text("/"), "description", Json::text("This server")));
    assert(items_view(items@) =~= servers()->Array_0);
    Json::array(items)
}

/// Every endpoint of a path contributes exactly one operation: where no two
/// endpoints of the list have the same method, the operations are as many as
/// the endpoints, and each stands at its endpoint's place, under the
/// lower-case token of its method.
pub proof fn lemma_one_operation_for_each_endpoint(items: Seq<ItemView>)
    requires
        forall|i: int, j: int|
            0 <= i < j < items.len() ==> (#[trigger] items[i]).method != (#[trigger] items[j]).method,
    ensures
        operations(items).len() == items.len(),
        forall|i: int|
            0 <= i < items.len() ==> (#[trigger] operations(items)[i]) == (
                items[i].method.spec_lowercase(),
                operation(items[i]),
            ),
    decreases items.len(),
{
    if items.len() > 0 {
        let rest = items.drop_last();
        let last = items.last();
        lemma_one_operation_for_each_endpoint(rest);
        let before = operations(rest);
        let key = last.method.spec_lowercase();
        assert forall|j: int| 0 <= j < before.len() implies (#[trigger] before[j]).0 != key by {
            if before[j].0 == key {
                crate::method::lemma_lowercase_injective(rest[j].method, last.method);
                assert(rest[j] == items[j]);
            }
        }
        crate::json::lemma_position_is(before, key, before.len() as int);
        assert forall|i: int| 0 <= i < items.len() implies (#[trigger] operations(items)[i]) == (
            items[i].method.spec_lowercase(),
            operation(items[i]),
        ) by {
            if i < rest.len() {
                assert(rest[i] == items[i]);
                assert(operations(items)[i] == before[i]);
            }
        }
    }
}

/// The documents are stable: whatever two documents are made of one registry
/// are equal, and so are whatever two modules of type definitions.
pub proof fn lemma_documents_are_stable(
    r: RegistryView,
    first: JsonView,
    second: JsonView,
    first_text: Seq<char>,
    second_text: Seq<char>,
)
    requires
        first == spec_openapi(r),
        second == spec_openapi(r),
        first_text == crate::definitions::spec_ts_definitions(r),
        second_text == crate::definitions::spec_ts_definitions(r),
    ensures
        first == second,
        first_text == second_text,
{
}

impl Registry {
    /// The OpenAPI document: `openapi`, `info`, `servers`, `paths` and
    /// `components.schemas.ErrorPayload`. It is a function of the registry's
    /// value alone: the same registry gives the same document.
    pub fn openapi_spec(&self) -> (r: Json)
        requires
            self.wf(),
        ensures
            r@ == spec_openapi(self@),
    {
        let schemas = object1("ErrorPayload", self.error_payload_schema().duplicate());
        let components = object1("schemas", schemas);
        let paths = Json::object(paths_of(self.groups()));
        let mut members: Vec<(String, Json)> = Vec::new();
        members.push(entry("openapi", Json::text("3.0.3")));
        members.push(entry("info", info_of()));
        members.push(entry("servers", servers_of()));
        members.push(entry("paths", paths));
        members.push(entry("components", components));
        assert(members_view(members@) =~= spec_openapi(self@)->Object_0);
        Json::object(members)
    }
}

} // verus!
