//! The hash indexes of the route table.
//!
//! The table keeps its groups and items in vectors, in registration order, and
//! finds them again through two `IndexMap`s: one from a path to the place of
//! its group, one from a method's code to the place of its item in a group.
//! The maps are used as maps only: nothing here depends on their order.

use vstd::prelude::*;
use indexmap::IndexMap;

verus! {

#[verifier::external_type_specification]
#[verifier::external_body]
#[verifier::reject_recursive_types(K)]
#[verifier::reject_recursive_types(V)]
#[verifier::reject_recursive_types(S)]
pub struct ExIndexMap<K, V, S>(IndexMap<K, V, S>);

/// What a path index holds: the place bound to each path.
pub uninterp spec fn path_index(m: IndexMap<String, usize>) -> Map<Seq<char>, usize>;

/// What a method index holds: the place bound to each method code.
pub uninterp spec fn method_index(m: IndexMap<u8, usize>) -> Map<u8, usize>;

/// The path index that binds no path.
pub open spec fn empty_path_index() -> Map<Seq<char>, usize> {
    Map::empty()
}

/// The method index that binds no method.
pub open spec fn empty_method_index() -> Map<u8, usize> {
    Map::empty()
}

/// `IndexMap::new`: a map that holds nothing.
#[verifier::external_body]
pub(crate) fn path_index_new() -> (r: IndexMap<String, usize>)
    ensures
        path_index(r) == empty_path_index(),
{
    IndexMap::new()
}

/// `IndexMap::get`: the value stored for the key, if the key is present.
#[verifier::external_body]
pub(crate) fn path_index_get(m: &IndexMap<String, usize>, path: &str) -> (r: Option<usize>)
    ensures
        r == (if path_index(*m).dom().contains(path@) {
            Some(path_index(*m)[path@])
        } else {
            None
        }),
{
    m.get(path).copied()
}

/// `IndexMap::insert`: binds the key to the value, whether or not the key was
/// present; every other key keeps its value.
#[verifier::external_body]
pub(crate) fn path_index_insert(m: &mut IndexMap<String, usize>, path: String, at: usize)
    ensures
        path_index(*final(m)) == path_index(*old(m)).insert(path@, at),
{
    m.insert(path, at);
}

/// `IndexMap::new`: a map that holds nothing.
#[verifier::external_body]
pub(crate) fn method_index_new() -> (r: IndexMap<u8, usize>)
    ensures
        method_index(r) == empty_method_index(),
{
    IndexMap::new()
}

/// `IndexMap::get`: the value stored for the key, if the key is present.
#[verifier::external_body]
pub(crate) fn method_index_get(m: &IndexMap<u8, usize>, code: u8) -> (r: Option<usize>)
    ensures
        r == (if method_index(*m).dom().contains(code) {
            Some(method_index(*m)[code])
        } else {
            None
        }),
{
    m.get(&code).copied()
}

/// `IndexMap::insert`: binds the key to the value, whether or not the key was
/// present; every other key keeps its value.
#[verifier::external_body]
pub(crate) fn method_index_insert(m: &mut IndexMap<u8, usize>, code: u8, at: usize)
    ensures
        method_index(*final(m)) == method_index(*old(m)).insert(code, at),
{
    m.insert(code, at);
}

} // verus!
