//! The registry: every endpoint of the API, grouped by path and then by
//! method, with the schema and the type text of each slot.
//!
//! Endpoints are registered once, at start. The route table is then read and
//! never changed: by the dispatcher, by the OpenAPI export and by the
//! client type export.

use vstd::prelude::*;
use vstd::string::*;
use indexmap::IndexMap;
use crate::index::{
    method_index, method_index_get, method_index_insert, method_index_new, path_index,
    path_index_get, path_index_insert, path_index_new,
};
use crate::endpoint::Endpoint;
use crate::json::{Json, JsonView};
use crate::void::Void;
use crate::method::Method;

verus! {

/// What a slot's type says of itself: its JSON schema and its type text.
#[derive(Debug)]
pub struct Descriptor {
    pub schema: Json,
    pub shape: String,
}

/// The mathematical value of a [`Descriptor`].
pub struct DescriptorView {
    pub schema: JsonView,
    pub shape: Seq<char>,
}

impl View for Descriptor {
    type V = DescriptorView;

    open spec fn view(&self) -> DescriptorView {
        DescriptorView { schema: self.schema@, shape: self.shape@ }
    }
}

/// An endpoint as its author declares it. A slot that is `None` is void: the
/// endpoint takes no value of that kind.
#[derive(Debug)]
pub struct EndpointDecl {
    pub path: String,
    pub method: Method,
    pub params: Option<Descriptor>,
    pub query: Option<Descriptor>,
    pub payload: Option<Descriptor>,
    pub output: Descriptor,
    /// Names the handler in the transport's own table.
    pub handler: usize,
}

/// What the types of an endpoint's four slots say of themselves.
#[derive(Debug)]
pub struct Descriptors {
    pub params: Descriptor,
    pub query: Descriptor,
    pub payload: Descriptor,
    pub output: Descriptor,
}

/// The descriptor of a slot as its declaration keeps it: none for a void
/// slot.
pub open spec fn kept(void: bool, descriptor: Descriptor) -> Option<Descriptor> {
    if void {
        None
    } else {
        Some(descriptor)
    }
}

/// The descriptor of a slot as its declaration keeps it.
fn keep(void: bool, descriptor: Descriptor) -> (r: Option<Descriptor>)
    ensures
        r == kept(void, descriptor),
{
    if void {
        None
    } else {
        Some(descriptor)
    }
}

/// Declares an endpoint for the registry: its path and method, the
/// descriptor of each input slot that is not void, and the descriptor of
/// its output.
pub fn declare<E: Endpoint>(endpoint: &E, descriptors: Descriptors, handler: usize) -> (r:
    EndpointDecl)
    ensures
        r.path@ == endpoint.spec_path(),
        r.method == endpoint.spec_method(),
        r.params == kept(E::Params::spec_is_void(), descriptors.params),
        r.query == kept(E::Query::spec_is_void(), descriptors.query),
        r.payload == kept(E::Payload::spec_is_void(), descriptors.payload),
        r.output == descriptors.output,
        r.handler == handler,
{
    EndpointDecl {
        path: endpoint.path(),
        method: endpoint.method(),
        params: keep(E::Params::is_void(), descriptors.params),
        query: keep(E::Query::is_void(), descriptors.query),
        payload: keep(E::Payload::is_void(), descriptors.payload),
        output: descriptors.output,
        handler,
    }
}

/// What the registry keeps of an endpoint.
#[derive(Debug)]
pub struct RegistryItem {
    pub path: String,
    pub method: Method,
    pub params: Option<Json>,
    pub query: Option<Json>,
    pub payload: Option<Json>,
    pub output: Json,
    pub params_shape: Option<String>,
    pub query_shape: Option<String>,
    pub payload_shape: Option<String>,
    pub output_shape: String,
    /// Names the handler in the transport's own table.
    pub handler: usize,
}

/// The mathematical value of a [`RegistryItem`].
pub struct ItemView {
    pub path: Seq<char>,
    pub method: Method,
    pub params: Option<JsonView>,
    pub query: Option<JsonView>,
    pub payload: Option<JsonView>,
    pub output: JsonView,
    pub params_shape: Option<Seq<char>>,
    pub query_shape: Option<Seq<char>>,
    pub payload_shape: Option<Seq<char>>,
    pub output_shape: Seq<char>,
    pub handler: usize,
}

/// The value of an optional schema.
pub open spec fn schema_view(schema: Option<Json>) -> Option<JsonView> {
    match schema {
        Some(j) => Some(j@),
        None => None,
    }
}

/// The value of an optional type text.
pub open spec fn shape_view(shape: Option<String>) -> Option<Seq<char>> {
    match shape {
        Some(s) => Some(s@),
        None => None,
    }
}

/// The schema of an optional descriptor.
pub open spec fn schema_of(slot: Option<Descriptor>) -> Option<JsonView> {
    match slot {
        Some(d) => Some(d.schema@),
        None => None,
    }
}

/// The type text of an optional descriptor.
pub open spec fn shape_of(slot: Option<Descriptor>) -> Option<Seq<char>> {
    match slot {
        Some(d) => Some(d.shape@),
        None => None,
    }
}

impl View for RegistryItem {
    type V = ItemView;

    open spec fn view(&self) -> ItemView {
        ItemView {
            path: self.path@,
            method: self.method,
            params: schema_view(self.params),
            query: schema_view(self.query),
            payload: schema_view(self.payload),
            output: self.output@,
            params_shape: shape_view(self.params_shape),
            query_shape: shape_view(self.query_shape),
            payload_shape: shape_view(self.payload_shape),
            output_shape: self.output_shape@,
            handler: self.handler,
        }
    }
}

impl View for EndpointDecl {
    type V = ItemView;

    /// The item that registering the declaration stores: a void slot has
    /// neither schema nor type text.
    open spec fn view(&self) -> ItemView {
        ItemView {
            path: self.path@,
            method: self.method,
            params: schema_of(self.params),
            query: schema_of(self.query),
            payload: schema_of(self.payload),
            output: self.output.schema@,
            params_shape: shape_of(self.params),
            query_shape: shape_of(self.query),
            payload_shape: shape_of(self.payload),
            output_shape: self.output.shape@,
            handler: self.handler,
        }
    }
}

/// Whether a schema can be read as a list of parameters: it is absent, or an
/// object whose member `properties` is an object.
pub open spec fn lists_parameters(schema: Option<JsonView>) -> bool {
    match schema {
        Some(j) => j.lookup("properties"@) matches Some(p) && p.is_object(),
        None => true,
    }
}

impl ItemView {
    /// The schemas of the path parameters and of the query can be read as
    /// lists of parameters.
    pub open spec fn wf(self) -> bool {
        lists_parameters(self.params) && lists_parameters(self.query)
    }
}

/// The endpoints of one path, in the order of their registration.
pub struct GroupView {
    pub path: Seq<char>,
    pub items: Seq<ItemView>,
}

/// The mathematical value of a [`Registry`].
pub struct RegistryView {
    pub error_payload_schema: JsonView,
    pub error_payload_shape: Seq<char>,
    pub groups: Seq<GroupView>,
}

impl RegistryView {
    /// Whether any endpoint is registered under the path.
    pub open spec fn has_path(self, path: Seq<char>) -> bool {
        exists|g: int| 0 <= g < self.groups.len() && (#[trigger] self.groups[g]).path == path
    }

    /// The place of the group of a path that has one.
    pub open spec fn group_index(self, path: Seq<char>) -> int {
        choose|g: int| 0 <= g < self.groups.len() && (#[trigger] self.groups[g]).path == path
    }

    /// Whether an endpoint is registered under the path and the method.
    pub open spec fn contains(self, path: Seq<char>, method: Method) -> bool {
        exists|g: int, i: int|
            0 <= g < self.groups.len() && 0 <= i < self.groups[g].items.len()
                && self.groups[g].path == path && (#[trigger] self.groups[g].items[i]).method
                == method
    }

    /// Whether the item is one of the registry's items.
    pub open spec fn holds(self, item: ItemView) -> bool {
        exists|g: int, i: int|
            0 <= g < self.groups.len() && 0 <= i < self.groups[g].items.len() && (
            #[trigger] self.groups[g].items[i]) == item
    }

    /// No path has two groups; no group is empty; every item stands in the
    /// group of its path; no group has two items of one method; every item is
    /// well formed.
    pub open spec fn wf(self) -> bool {
        &&& forall|g: int, h: int|
            0 <= g < h < self.groups.len() ==> (#[trigger] self.groups[g]).path != (
            #[trigger] self.groups[h]).path
        &&& forall|g: int| 0 <= g < self.groups.len() ==> (#[trigger] self.groups[g]).items.len() > 0
        &&& forall|g: int, i: int|
            0 <= g < self.groups.len() && 0 <= i < self.groups[g].items.len() ==> {
                &&& (#[trigger] self.groups[g].items[i]).path == self.groups[g].path
                &&& self.groups[g].items[i].wf()
            }
        &&& forall|g: int, i: int, j: int|
            0 <= g < self.groups.len() && 0 <= i < j < self.groups[g].items.len() ==> (
            #[trigger] self.groups[g].items[i]).method != (#[trigger] self.groups[g].items[j]).method
    }

    /// The registry with one more endpoint: at the end of the group of its
    /// path, or, where the path is new, alone in a new group at the end.
    pub open spec fn with(self, item: ItemView) -> RegistryView {
        if self.has_path(item.path) {
            let g = self.group_index(item.path);
            RegistryView {
                error_payload_schema: self.error_payload_schema,
                error_payload_shape: self.error_payload_shape,
                groups: self.groups.update(
                    g,
                    GroupView { path: item.path, items: self.groups[g].items.push(item) },
                ),
            }
        } else {
            RegistryView {
                error_payload_schema: self.error_payload_schema,
                error_payload_shape: self.error_payload_shape,
                groups: self.groups.push(GroupView { path: item.path, items: seq![item] }),
            }
        }
    }
}

/// The values of a list of items.
pub open spec fn items_seq(items: Seq<RegistryItem>) -> Seq<ItemView> {
    Seq::new(items.len(), |i: int| items[i]@)
}

/// The endpoints of one path, with the index that finds them by method.
pub struct PathGroup {
    path: String,
    items: Vec<RegistryItem>,
    methods: IndexMap<u8, usize>,
}

impl View for PathGroup {
    type V = GroupView;

    closed spec fn view(&self) -> GroupView {
        GroupView { path: self.path@, items: items_seq(self.items@) }
    }
}

impl PathGroup {
    /// The index binds the code of each item's method to the item's place,
    /// and nothing else.
    pub closed spec fn wf(&self) -> bool {
        &&& forall|i: int|
            0 <= i < self.items@.len() ==> {
                &&& method_index(self.methods).dom().contains(
                    (#[trigger] self.items@[i]).method.spec_code(),
                )
                &&& method_index(self.methods)[self.items@[i].method.spec_code()] == i
            }
        &&& forall|c: u8| #[trigger]
            method_index(self.methods).dom().contains(c) ==> {
                &&& method_index(self.methods)[c] < self.items@.len()
                &&& self.items@[method_index(self.methods)[c] as int].method.spec_code() == c
            }
    }

    /// The path that the endpoints of the group share.
    pub fn path(&self) -> (r: &str)
        ensures
            r@ == self@.path,
    {
        self.path.as_str()
    }

    /// The endpoints of the group, in the order of their registration.
    pub fn items(&self) -> (r: &Vec<RegistryItem>)
        ensures
            items_seq(r@) == self@.items,
    {
        &self.items
    }

    /// The place of the item with the given method, if the group has one.
    fn find(&self, method: Method) -> (r: Option<usize>)
        requires
            self.wf(),
        ensures
            match r {
                Some(i) => i < self.items@.len() && self.items@[i as int].method == method,
                None => forall|i: int|
                    0 <= i < self.items@.len() ==> (#[trigger] self.items@[i]).method != method,
            },
    {
        let r = method_index_get(&self.methods, method.code());
        proof {
            if let Some(i) = r {
                crate::method::lemma_code_injective(self.items@[i as int].method, method);
            }
        }
        r
    }

    /// A group that holds one item.
    fn single(item: RegistryItem) -> (r: PathGroup)
        ensures
            r.wf(),
            r@ == (GroupView { path: item@.path, items: seq![item@] }),
    {
        let mut methods = method_index_new();
        method_index_insert(&mut methods, item.method.code(), 0);
        let path = item.path.clone();
        let mut items: Vec<RegistryItem> = Vec::new();
        items.push(item);
        let r = PathGroup { path, items, methods };
        proof {
            assert(r@.items =~= seq![item@]);
            assert forall|c: u8| #[trigger]
                method_index(r.methods).dom().contains(c) implies method_index(r.methods)[c]
                < r.items@.len() && r.items@[method_index(r.methods)[c] as int].method.spec_code()
                == c by {}
        }
        r
    }

    /// Adds an item whose method the group does not have yet.
    fn add(&mut self, item: RegistryItem)
        requires
            old(self).wf(),
            forall|i: int|
                0 <= i < old(self).items@.len() ==> (#[trigger] old(self).items@[i]).method
                    != item.method,
        ensures
            final(self).wf(),
            final(self)@ == (GroupView {
                path: old(self)@.path,
                items: old(self)@.items.push(item@),
            }),
    {
        let at = self.items.len();
        let code = item.method.code();
        proof {
            if method_index(self.methods).dom().contains(code) {
                let j = method_index(self.methods)[code] as int;
                crate::method::lemma_code_injective(self.items@[j].method, item.method);
            }
        }
        method_index_insert(&mut self.methods, code, at);
        self.items.push(item);
        proof {
            assert(self@.items =~= old(self)@.items.push(item@));
            assert forall|i: int| 0 <= i < self.items@.len() implies method_index(
                self.methods,
            ).dom().contains((#[trigger] self.items@[i]).method.spec_code()) && method_index(
                self.methods,
            )[self.items@[i].method.spec_code()] == i by {
                if i < at {
                    assert(self.items@[i] == old(self).items@[i]);
                    if self.items@[i].method.spec_code() == code {
                        crate::method::lemma_code_injective(self.items@[i].method, item.method);
                    }
                }
            }
            assert forall|c: u8| #[trigger]
                method_index(self.methods).dom().contains(c) implies method_index(self.methods)[c]
                < self.items@.len() && self.items@[method_index(
                self.methods,
            )[c] as int].method.spec_code() == c by {
                if c != code {
                    assert(method_index(old(self).methods).dom().contains(c));
                }
            }
        }
    }
}

/// The values of a list of groups.
pub open spec fn groups_seq(groups: Seq<PathGroup>) -> Seq<GroupView> {
    Seq::new(groups.len(), |g: int| groups[g]@)
}

/// What a lookup of a path and a method finds. A path that is known under
/// other methods only is told apart from a path that is not known at all.
#[derive(Debug)]
pub enum Resolution<'a> {
    Endpoint(&'a RegistryItem),
    UnknownMethod,
    UnknownPath,
}

/// Every endpoint of the API.
pub struct Registry {
    error_payload_schema: Json,
    error_payload_shape: String,
    groups: Vec<PathGroup>,
    paths: IndexMap<String, usize>,
}

impl View for Registry {
    type V = RegistryView;

    closed spec fn view(&self) -> RegistryView {
        RegistryView {
            error_payload_schema: self.error_payload_schema@,
            error_payload_shape: self.error_payload_shape@,
            groups: groups_seq(self.groups@),
        }
    }
}

impl Registry {
    /// The registry's value is well formed, each group's index is sound, and
    /// the path index binds the path of each group to the group's place, and
    /// nothing else.
    pub closed spec fn wf(&self) -> bool {
        &&& self@.wf()
        &&& forall|g: int| 0 <= g < self.groups@.len() ==> (#[trigger] self.groups@[g]).wf()
        &&& forall|g: int|
            0 <= g < self.groups@.len() ==> {
                &&& path_index(self.paths).dom().contains((#[trigger] self.groups@[g]).path@)
                &&& path_index(self.paths)[self.groups@[g].path@] == g
            }
        &&& forall|p: Seq<char>| #[trigger]
            path_index(self.paths).dom().contains(p) ==> {
                &&& path_index(self.paths)[p] < self.groups@.len()
                &&& self.groups@[path_index(self.paths)[p] as int].path@ == p
            }
    }

    /// A registry without endpoints. The schema and the type text of the
    /// error payload are fixed here, once, for every endpoint.
    pub fn new(error_payload: Descriptor) -> (r: Registry)
        ensures
            r.wf(),
            r@.groups.len() == 0,
            r@.error_payload_schema == error_payload.schema@,
            r@.error_payload_shape == error_payload.shape@,
    {
        let r = Registry {
            error_payload_schema: error_payload.schema,
            error_payload_shape: error_payload.shape,
            groups: Vec::new(),
            paths: path_index_new(),
        };
        r
    }

    /// The schema of the error payload.
    pub fn error_payload_schema(&self) -> (r: &Json)
        ensures
            r@ == self@.error_payload_schema,
    {
        &self.error_payload_schema
    }

    /// The type text of the error payload.
    pub fn error_payload_shape(&self) -> (r: &str)
        ensures
            r@ == self@.error_payload_shape,
    {
        self.error_payload_shape.as_str()
    }

    /// The groups of the route table, one for each path, in the order in
    /// which the paths were first registered.
    pub fn groups(&self) -> (r: &Vec<PathGroup>)
        ensures
            groups_seq(r@) == self@.groups,
    {
        &self.groups
    }

    /// The place of the group of the path, if the path is known.
    fn find_group(&self, path: &str) -> (r: Option<usize>)
        requires
            self.wf(),
        ensures
            match r {
                Some(g) => g < self.groups@.len() && self.groups@[g as int].path@ == path@
                    && self@.has_path(path@) && self@.group_index(path@) == g,
                None => !self@.has_path(path@),
            },
    {
        let r = path_index_get(&self.paths, path);
        proof {
            match r {
                Some(g) => {
                    assert(self@.groups[g as int].path == path@);
                    let h = self@.group_index(path@);
                    assert(0 <= h < self@.groups.len() && self@.groups[h].path == path@);
                    if h != g {
                        assert(self@.groups[h].path == self@.groups[g as int].path);
                    }
                },
                None => {
                    if self@.has_path(path@) {
                        let h = self@.group_index(path@);
                        assert(self@.groups[h] == self.groups@[h]@);
                        assert(path_index(self.paths).dom().contains(self.groups@[h].path@));
                    }
                },
            }
        }
        r
    }

    /// Looks up the pattern `path` and the method.
    pub fn resolve(&self, path: &str, method: Method) -> (r: Resolution<'_>)
        requires
            self.wf(),
        ensures
            match r {
                Resolution::Endpoint(item) => item@.path == path@ && item@.method == method
                    && self@.contains(path@, method) && self@.holds(item@),
                Resolution::UnknownMethod => self@.has_path(path@) && !self@.contains(
                    path@,
                    method,
                ),
                Resolution::UnknownPath => !self@.has_path(path@),
            },
    {
        match self.find_group(path) {
            None => Resolution::UnknownPath,
            Some(g) => {
                let group = &self.groups[g];
                match group.find(method) {
                    Some(i) => {
                        proof {
                            assert(self@.groups[g as int].items[i as int] == group.items@[i as int]@);
                            assert(self@.holds(group.items@[i as int]@));
                        }
                        Resolution::Endpoint(&group.items[i])
                    },
                    None => {
                        proof {
                            self.lemma_group_decides(g as int, path@, method);
                        }
                        Resolution::UnknownMethod
                    },
                }
            },
        }
    }

    /// Where the group of a path has no item of a method, the registry has no
    /// endpoint under that path and method.
    proof fn lemma_group_decides(&self, g: int, path: Seq<char>, method: Method)
        requires
            self.wf(),
            0 <= g < self.groups@.len(),
            self.groups@[g].path@ == path,
            forall|i: int|
                0 <= i < self.groups@[g].items@.len() ==> (#[trigger] self.groups@[g].items@[i]).method
                    != method,
        ensures
            !self@.contains(path, method),
    {
        if self@.contains(path, method) {
            let (h, i) = choose|h: int, i: int|
                0 <= h < self@.groups.len() && 0 <= i < self@.groups[h].items.len()
                    && self@.groups[h].path == path && (#[trigger] self@.groups[h].items[i]).method
                    == method;
            assert(self@.groups[g].path == path);
            if h != g {
                assert(self@.groups[h].path == self@.groups[g].path);
            }
            assert(self@.groups[g].items[i] == self.groups@[g].items@[i]@);
        }
    }

    /// Registers an endpoint: stores, for each slot that is not void, its
    /// schema and its type text, and puts the endpoint at the end of the
    /// group of its path. The pair of path and method must be new: a second
    /// endpoint under a registered pair is an error of the program, to be
    /// caught at start.
    pub fn register(&mut self, endpoint: EndpointDecl)
        requires
            old(self).wf(),
            endpoint@.wf(),
            !old(self)@.contains(endpoint.path@, endpoint.method),
        ensures
            final(self).wf(),
            final(self)@ == old(self)@.with(endpoint@),
            final(self)@.contains(endpoint.path@, endpoint.method),
    {
        let ghost before = self@;
        let ghost added = endpoint@;
        let item = endpoint.into_item();
        match self.find_group(item.path.as_str()) {
            Some(g) => {
                proof {
                    assert forall|i: int| 0 <= i < self.groups@[g as int].items@.len() implies (
                    #[trigger] self.groups@[g as int].items@[i]).method != item.method by {
                        assert(self@.groups[g as int].items[i] == self.groups@[g as int].items@[i]@);
                    }
                }
                self.groups[g].add(item);
                proof {
                    assert(self@.groups =~= before.with(added).groups);
                    assert(self@.groups[g as int].items[before.groups[g as int].items.len() as int]
                        == added);
                    assert forall|h: int| 0 <= h < self.groups@.len() implies (
                    #[trigger] self.groups@[h]).wf() by {
                        if h != g {
                            assert(self.groups@[h] == old(self).groups@[h]);
                        }
                    }
                    assert forall|h: int| 0 <= h < self.groups@.len() implies path_index(
                        self.paths,
                    ).dom().contains((#[trigger] self.groups@[h]).path@) && path_index(
                        self.paths,
                    )[self.groups@[h].path@] == h by {
                        assert(self.groups@[h]@.path == old(self).groups@[h]@.path);
                    }
                    assert forall|p: Seq<char>| #[trigger]
                        path_index(self.paths).dom().contains(p) implies path_index(self.paths)[p]
                        < self.groups@.len() && self.groups@[path_index(
                        self.paths,
                    )[p] as int].path@ == p by {
                        let h = path_index(self.paths)[p] as int;
                        assert(self.groups@[h]@.path == old(self).groups@[h]@.path);
                    }
                    lemma_with_keeps_wf(before, added);
                }
            },
            None => {
                let at = self.groups.len();
                let path = item.path.clone();
                let group = PathGroup::single(item);
                self.groups.push(group);
                path_index_insert(&mut self.paths, path, at);
                proof {
                    assert(self@.groups =~= before.with(added).groups);
                    assert(self@.groups[at as int].items[0] == added);
                    assert forall|h: int| 0 <= h < self.groups@.len() implies (
                    #[trigger] self.groups@[h]).wf() by {
                        if h != at {
                            assert(self.groups@[h] == old(self).groups@[h]);
                        }
                    }
                    assert forall|h: int| 0 <= h < self.groups@.len() implies path_index(
                        self.paths,
                    ).dom().contains((#[trigger] self.groups@[h]).path@) && path_index(
                        self.paths,
                    )[self.groups@[h].path@] == h by {
                        if h != at {
                            assert(self.groups@[h] == old(self).groups@[h]);
                            assert(before.groups[h].path == self.groups@[h].path@);
                        }
                    }
                    assert forall|p: Seq<char>| #[trigger]
                        path_index(self.paths).dom().contains(p) implies path_index(self.paths)[p]
                        < self.groups@.len() && self.groups@[path_index(
                        self.paths,
                    )[p] as int].path@ == p by {
                        if p != added.path {
                            let h = path_index(self.paths)[p] as int;
                            assert(self.groups@[h] == old(self).groups@[h]);
                        }
                    }
                    lemma_with_keeps_wf(before, added);
                }
            },
        }
    }

    /// Whether an endpoint is registered under the path and the method.
    pub fn contains(&self, path: &str, method: Method) -> (r: bool)
        requires
            self.wf(),
        ensures
            r == self@.contains(path@, method),
    {
        match self.resolve(path, method) {
            Resolution::Endpoint(_) => true,
            Resolution::UnknownMethod => false,
            Resolution::UnknownPath => {
                proof {
                    if self@.contains(path@, method) {
                        let (h, i) = choose|h: int, i: int|
                            0 <= h < self@.groups.len() && 0 <= i < self@.groups[h].items.len()
                                && self@.groups[h].path == path@ && (
                            #[trigger] self@.groups[h].items[i]).method == method;
                        assert(self@.groups[h].path == path@);
                    }
                }
                false
            },
        }
    }
}

/// Whether a schema can be read as a list of parameters.
fn can_list_parameters(schema: &Option<Descriptor>) -> (r: bool)
    ensures
        r == lists_parameters(schema_of(*schema)),
{
    match schema {
        Some(d) => match d.schema.lookup("properties") {
            Some(p) => p.is_object(),
            None => false,
        },
        None => true,
    }
}

impl EndpointDecl {
    /// Whether the declaration can be registered: the schemas of its path
    /// parameters and of its query can be read as lists of parameters.
    pub fn is_well_formed(&self) -> (r: bool)
        ensures
            r == self@.wf(),
    {
        can_list_parameters(&self.params) && can_list_parameters(&self.query)
    }

    /// What the registry keeps of the declaration.
    pub fn into_item(self) -> (r: RegistryItem)
        ensures
            r@ == self@,
    {
        let (params, params_shape) = split(self.params);
        let (query, query_shape) = split(self.query);
        let (payload, payload_shape) = split(self.payload);
        RegistryItem {
            path: self.path,
            method: self.method,
            params,
            query,
            payload,
            output: self.output.schema,
            params_shape,
            query_shape,
            payload_shape,
            output_shape: self.output.shape,
            handler: self.handler,
        }
    }
}

/// The schema and the type text of a slot; neither, for a void slot.
fn split(slot: Option<Descriptor>) -> (r: (Option<Json>, Option<String>))
    ensures
        schema_view(r.0) == schema_of(slot),
        shape_view(r.1) == shape_of(slot),
{
    match slot {
        Some(d) => (Some(d.schema), Some(d.shape)),
        None => (None, None),
    }
}

/// A registered pair stays registered: whatever endpoint is registered
/// next, an endpoint that the registry holds under a path and a method is
/// still held under them. So a second endpoint under a registered pair can
/// never meet what `register` requires.
pub proof fn lemma_registered_pair_stays(
    r: RegistryView,
    item: ItemView,
    path: Seq<char>,
    method: Method,
)
    requires
        r.contains(path, method),
    ensures
        r.with(item).contains(path, method),
{
    let n = r.with(item);
    let (g, i) = choose|g: int, i: int|
        0 <= g < r.groups.len() && 0 <= i < r.groups[g].items.len() && r.groups[g].path == path
            && (#[trigger] r.groups[g].items[i]).method == method;
    if r.has_path(item.path) {
        let h = r.group_index(item.path);
        if h == g {
            assert(n.groups[g].items[i] == r.groups[g].items[i]);
            assert(n.groups[g].path == path);
        } else {
            assert(n.groups[g] == r.groups[g]);
            assert(n.groups[g].items[i].method == method);
        }
    } else {
        assert(n.groups[g] == r.groups[g]);
        assert(n.groups[g].items[i].method == method);
    }
}

/// Registering a well-formed endpoint under a new pair of path and method
/// keeps the registry well formed, and the pair is registered afterwards.
pub proof fn lemma_with_keeps_wf(r: RegistryView, item: ItemView)
    requires
        r.wf(),
        item.wf(),
        !r.contains(item.path, item.method),
    ensures
        r.with(item).wf(),
        r.with(item).contains(item.path, item.method),
{
    let n = r.with(item);
    if r.has_path(item.path) {
        let g = r.group_index(item.path);
        let at = r.groups[g].items.len() as int;
        assert(n.groups[g].items[at] == item);
        assert forall|i: int| 0 <= i < at implies (#[trigger] r.groups[g].items[i]).method
            != item.method by {}
        assert forall|h: int, i: int|
            0 <= h < n.groups.len() && 0 <= i < n.groups[h].items.len() implies (
        #[trigger] n.groups[h].items[i]).path == n.groups[h].path && n.groups[h].items[i].wf() by {
            if h == g {
                if i < at {
                    assert(n.groups[h].items[i] == r.groups[g].items[i]);
                }
            } else {
                assert(n.groups[h] == r.groups[h]);
            }
        }
        assert forall|h: int, i: int, j: int|
            0 <= h < n.groups.len() && 0 <= i < j < n.groups[h].items.len() implies (
        #[trigger] n.groups[h].items[i]).method != (#[trigger] n.groups[h].items[j]).method by {
            if h == g {
                assert(n.groups[h].items[i] == r.groups[g].items[i]);
                if j < at {
                    assert(n.groups[h].items[j] == r.groups[g].items[j]);
                }
            } else {
                assert(n.groups[h] == r.groups[h]);
            }
        }
        assert forall|h: int, k: int| 0 <= h < k < n.groups.len() implies (
        #[trigger] n.groups[h]).path != (#[trigger] n.groups[k]).path by {
            assert(n.groups[h].path == r.groups[h].path);
            assert(n.groups[k].path == r.groups[k].path);
        }
        assert forall|h: int| 0 <= h < n.groups.len() implies (#[trigger] n.groups[h]).items.len()
            > 0 by {
            if h != g {
                assert(n.groups[h] == r.groups[h]);
            }
        }
    } else {
        let at = r.groups.len() as int;
        assert(n.groups[at].items[0] == item);
        assert forall|h: int, k: int| 0 <= h < k < n.groups.len() implies (
        #[trigger] n.groups[h]).path != (#[trigger] n.groups[k]).path by {
            assert(n.groups[h] == r.groups[h]);
            if k < at {
                assert(n.groups[k] == r.groups[k]);
            }
        }
        assert forall|h: int| 0 <= h < n.groups.len() implies (#[trigger] n.groups[h]).items.len()
            > 0 by {
            if h < at {
                assert(n.groups[h] == r.groups[h]);
            }
        }
        assert forall|h: int, i: int|
            0 <= h < n.groups.len() && 0 <= i < n.groups[h].items.len() implies (
        #[trigger] n.groups[h].items[i]).path == n.groups[h].path && n.groups[h].items[i].wf() by {
            if h < at {
                assert(n.groups[h] == r.groups[h]);
            }
        }
        assert forall|h: int, i: int, j: int|
            0 <= h < n.groups.len() && 0 <= i < j < n.groups[h].items.len() implies (
        #[trigger] n.groups[h].items[i]).method != (#[trigger] n.groups[h].items[j]).method by {
            if h < at {
                assert(n.groups[h] == r.groups[h]);
            }
        }
    }
}

} // verus!
