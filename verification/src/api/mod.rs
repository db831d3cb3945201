//! A small API that shows the contract at work: a list of users and a single
//! user.

pub mod shared;
pub mod users;

use vstd::prelude::*;
use vstd::string::*;
use crate::method::Method;
use crate::registry::{declare, lists_parameters, Descriptor, Descriptors, Registry};

verus! {

/// The registry of the sample API: the list of users, then the single user.
/// The descriptors are those of the slot types of the two endpoints; the
/// handlers are named 0 and 1.
pub fn get_registry(error_payload: Descriptor, list: Descriptors, get: Descriptors) -> (r: Registry)
    requires
        lists_parameters(Some(list.query.schema@)),
        lists_parameters(Some(get.params.schema@)),
    ensures
        r.wf(),
        r@.error_payload_schema == error_payload.schema@,
        r@.error_payload_shape == error_payload.shape@,
        r@.groups.len() == 2,
        r@.groups[0].path == "/users"@,
        r@.groups[0].items.len() == 1,
        r@.groups[0].items[0].method == Method::Get,
        r@.groups[0].items[0].params is None,
        r@.groups[0].items[0].query == Some(list.query.schema@),
        r@.groups[0].items[0].payload is None,
        r@.groups[0].items[0].output == list.output.schema@,
        r@.groups[0].items[0].handler == 0,
        r@.groups[1].path == "/users/:id"@,
        r@.groups[1].items.len() == 1,
        r@.groups[1].items[0].method == Method::Get,
        r@.groups[1].items[0].params == Some(get.params.schema@),
        r@.groups[1].items[0].query is None,
        r@.groups[1].items[0].payload is None,
        r@.groups[1].items[0].output == get.output.schema@,
        r@.groups[1].items[0].handler == 1,
{
    proof {
        reveal_strlit("/users");
        reveal_strlit("/users/:id");
    }
    let mut registry = Registry::new(error_payload);
    let first = declare(&users::list::E, list, 0);
    let ghost empty = registry@;
    assert(!empty.contains(first.path@, first.method));
    registry.register(first);
    let ghost one = registry@;
    assert(!empty.has_path(first.path@));
    assert(one.groups.len() == 1);
    let second = declare(&users::get::E, get, 1);
    assert(second.path@.len() == 10);
    assert(one.groups[0].path.len() == 6);
    assert(!one.has_path(second.path@));
    assert(!one.contains(second.path@, second.method));
    registry.register(second);
    registry
}

} // verus!
