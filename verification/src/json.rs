//! JSON values as plain data.
//!
//! Schemas and the OpenAPI document are JSON trees. The crate keeps them
//! in a type of its own, so that the documents it assembles can be stated and
//! proved node by node. An object is an ordered list of members; `set_member`
//! keeps each key at most once.

use vstd::prelude::*;
use vstd::string::*;
use crate::text::same_text;

verus! {

/// A JSON number: an unsigned or signed integer, or the decimal text of a
/// number that is not an integer.
#[derive(Debug, PartialEq, Eq)]
pub enum Number {
    Unsigned(u64),
    Signed(i64),
    Decimal(String),
}

/// A JSON value.
#[derive(Debug, PartialEq, Eq)]
pub enum Json {
    Null,
    Bool(bool),
    Number(Number),
    Text(String),
    Array(Vec<Json>),
    Object(Vec<(String, Json)>),
}

/// The mathematical value of a [`Number`].
pub enum NumberView {
    Unsigned(u64),
    Signed(i64),
    Decimal(Seq<char>),
}

/// The mathematical value of a [`Json`]: the same tree over sequences.
pub enum JsonView {
    Null,
    Bool(bool),
    Number(NumberView),
    Text(Seq<char>),
    Array(Seq<JsonView>),
    Object(Seq<(Seq<char>, JsonView)>),
}

impl View for Number {
    type V = NumberView;

    open spec fn view(&self) -> NumberView {
        match self {
            Number::Unsigned(n) => NumberView::Unsigned(*n),
            Number::Signed(n) => NumberView::Signed(*n),
            Number::Decimal(s) => NumberView::Decimal(s@),
        }
    }
}

impl Json {
    /// The mathematical value of the tree.
    pub open spec fn value(self) -> JsonView
        decreases self,
    {
        match self {
            Json::Null => JsonView::Null,
            Json::Bool(b) => JsonView::Bool(b),
            Json::Number(n) => JsonView::Number(n@),
            Json::Text(s) => JsonView::Text(s@),
            Json::Array(items) => JsonView::Array(
                Seq::new(
                    items@.len(),
                    |i: int|
                        if 0 <= i < items@.len() {
                            items@[i].value()
                        } else {
                            JsonView::Null
                        },
                ),
            ),
            Json::Object(members) => JsonView::Object(
                Seq::new(
                    members@.len(),
                    |i: int|
                        if 0 <= i < members@.len() {
                            (members@[i].0@, members@[i].1.value())
                        } else {
                            (Seq::empty(), JsonView::Null)
                        },
                ),
            ),
        }
    }
}

impl View for Json {
    type V = JsonView;

    open spec fn view(&self) -> JsonView {
        self.value()
    }
}

/// The members of an object, as values: the view of each key and of each value.
pub open spec fn members_view(members: Seq<(String, Json)>) -> Seq<(Seq<char>, JsonView)> {
    Seq::new(members.len(), |i: int| (members[i].0@, members[i].1@))
}

/// The items of an array, as values.
pub open spec fn items_view(items: Seq<Json>) -> Seq<JsonView> {
    Seq::new(items.len(), |i: int| items[i]@)
}

/// The index of the first member with the key `key`, or the number of members
/// where no member has that key.
pub open spec fn position<V>(members: Seq<(Seq<char>, V)>, key: Seq<char>) -> int
    decreases members.len(),
{
    if members.len() == 0 {
        0
    } else if members[0].0 == key {
        0
    } else {
        1 + position(members.drop_first(), key)
    }
}

/// The members after `key` is bound to `value`: the first member with that
/// key is replaced where it stands; without one, the pair is added at the end.
pub open spec fn with_member<V>(members: Seq<(Seq<char>, V)>, key: Seq<char>, value: V) -> Seq<
    (Seq<char>, V),
> {
    let p = position(members, key);
    if p < members.len() {
        members.update(p, (key, value))
    } else {
        members.push((key, value))
    }
}

impl JsonView {
    /// Whether the value is an object.
    pub open spec fn is_object(self) -> bool {
        self is Object
    }

    /// The members of an object; no members for any other value.
    pub open spec fn members(self) -> Seq<(Seq<char>, JsonView)> {
        match self {
            JsonView::Object(m) => m,
            _ => Seq::empty(),
        }
    }

    /// The value bound to `key` in an object, if there is one.
    pub open spec fn lookup(self, key: Seq<char>) -> Option<JsonView> {
        let m = self.members();
        let p = position(m, key);
        if p < m.len() {
            Some(m[p].1)
        } else {
            None
        }
    }
}

/// An index that no member with the key precedes, and that either holds the
/// key or is the end, is the `position` of the key.
pub proof fn lemma_position_is<V>(members: Seq<(Seq<char>, V)>, key: Seq<char>, i: int)
    requires
        0 <= i <= members.len(),
        forall|j: int| 0 <= j < i ==> (#[trigger] members[j]).0 != key,
        i < members.len() ==> members[i].0 == key,
    ensures
        position(members, key) == i,
    decreases members.len(),
{
    if members.len() != 0 {
        if i == 0 {
        } else {
            assert(members[0].0 != key);
            let rest = members.drop_first();
            assert forall|j: int| 0 <= j < i - 1 implies (#[trigger] rest[j]).0 != key by {
                assert(rest[j] == members[j + 1]);
            }
            lemma_position_is(rest, key, i - 1);
        }
    }
}

/// The view of an object is the view of its members.
pub proof fn lemma_object_view(members: Vec<(String, Json)>)
    ensures
        Json::Object(members)@ == JsonView::Object(members_view(members@)),
{
    let v = Json::Object(members)@;
    assert(v is Object);
    assert(v->Object_0.len() == members@.len());
    assert forall|i: int| 0 <= i < members@.len() implies v->Object_0[i] == members_view(
        members@,
    )[i] by {}
    assert(v->Object_0 =~= members_view(members@));
}

/// The view of an array is the view of its items.
pub proof fn lemma_array_view(items: Vec<Json>)
    ensures
        Json::Array(items)@ == JsonView::Array(items_view(items@)),
{
    let v = Json::Array(items)@;
    assert(v is Array);
    assert(v->Array_0.len() == items@.len());
    assert(v->Array_0 =~= items_view(items@));
}

impl Number {
    /// A copy of the number.
    pub fn duplicate(&self) -> (r: Number)
        ensures
            r@ == self@,
    {
        match self {
            Number::Unsigned(n) => Number::Unsigned(*n),
            Number::Signed(n) => Number::Signed(*n),
            Number::Decimal(s) => Number::Decimal(s.clone()),
        }
    }
}

impl Json {
    /// The JSON string with the characters of `s`.
    pub fn text(s: &str) -> (r: Json)
        ensures
            r@ == JsonView::Text(s@),
    {
        Json::Text(String::from_str(s))
    }

    /// The object with the given members, in their order.
    pub fn object(members: Vec<(String, Json)>) -> (r: Json)
        ensures
            r@ == JsonView::Object(members_view(members@)),
    {
        proof {
            lemma_object_view(members);
        }
        Json::Object(members)
    }

    /// The array with the given items, in their order.
    pub fn array(items: Vec<Json>) -> (r: Json)
        ensures
            r@ == JsonView::Array(items_view(items@)),
    {
        proof {
            lemma_array_view(items);
        }
        Json::Array(items)
    }

    /// Whether the value is an object.
    pub fn is_object(&self) -> (r: bool)
        ensures
            r == self@.is_object(),
    {
        match self {
            Json::Object(_) => true,
            _ => false,
        }
    }

    /// The value bound to `key`, where `self` is an object that has such a
    /// member; the first one, where the key occurs more than once.
    pub fn lookup(&self, key: &str) -> (r: Option<&Json>)
        ensures
            match r {
                Some(j) => self@.lookup(key@) == Some(j@),
                None => self@.lookup(key@) is None,
            },
    {
        match self {
            Json::Object(members) => {
                proof {
                    lemma_object_view(*members);
                }
                let i = find_member(members, key);
                if i < members.len() {
                    Some(&members[i].1)
                } else {
                    None
                }
            },
            _ => None,
        }
    }

    /// A copy of the whole tree.
    pub fn duplicate(&self) -> (r: Json)
        ensures
            r@ == self@,
        decreases self, 1nat,
    {
        match self {
            Json::Null => Json::Null,
            Json::Bool(b) => Json::Bool(*b),
            Json::Number(n) => Json::Number(n.duplicate()),
            Json::Text(s) => Json::Text(s.clone()),
            Json::Array(items) => {
                let copy = duplicate_items(items);
                proof {
                    lemma_array_view(*items);
                    lemma_array_view(copy);
                }
                Json::Array(copy)
            },
            Json::Object(members) => {
                let copy = duplicate_members(members);
                proof {
                    lemma_object_view(*members);
                    lemma_object_view(copy);
                }
                Json::Object(copy)
            },
        }
    }
}

/// A copy of each item, in order.
pub fn duplicate_items(items: &Vec<Json>) -> (copy: Vec<Json>)
    ensures
        items_view(copy@) == items_view(items@),
    decreases items, 0nat,
{
    let mut copy: Vec<Json> = Vec::new();
    let mut i: usize = 0;
    while i < items.len()
        invariant
            i <= items.len(),
            copy.len() == i,
            forall|j: int| 0 <= j < i ==> (#[trigger] copy[j])@ == items[j]@,
        decreases items.len() - i,
    {
        proof {
            vstd::std_specs::vec::axiom_vec_index_decreases(*items, i as int);
        }
        let item = items[i].duplicate();
        copy.push(item);
        i = i + 1;
    }
    assert(items_view(copy@) =~= items_view(items@));
    copy
}

/// A copy of each member, in order.
pub fn duplicate_members(members: &Vec<(String, Json)>) -> (copy: Vec<(String, Json)>)
    ensures
        members_view(copy@) == members_view(members@),
    decreases members, 0nat,
{
    let mut copy: Vec<(String, Json)> = Vec::new();
    let mut i: usize = 0;
    while i < members.len()
        invariant
            i <= members.len(),
            copy.len() == i,
            forall|j: int|
                0 <= j < i ==> (#[trigger] copy[j]).0@ == members[j].0@ && copy[j].1@
                    == members[j].1@,
        decreases members.len() - i,
    {
        proof {
            vstd::std_specs::vec::axiom_vec_index_decreases(*members, i as int);
        }
        let value = members[i].1.duplicate();
        copy.push((members[i].0.clone(), value));
        i = i + 1;
    }
    assert(members_view(copy@) =~= members_view(members@));
    copy
}

/// The index of the first member with the key `key`, or the number of members
/// where there is none.
pub fn find_member(members: &Vec<(String, Json)>, key: &str) -> (r: usize)
    ensures
        r == position(members_view(members@), key@),
        r <= members.len(),
{
    let mut i: usize = 0;
    while i < members.len()
        invariant
            i <= members.len(),
            forall|j: int| 0 <= j < i ==> (#[trigger] members_view(members@)[j]).0 != key@,
        decreases members.len() - i,
    {
        if same_text(members[i].0.as_str(), key) {
            proof {
                lemma_position_is(members_view(members@), key@, i as int);
            }
            return i;
        }
        i = i + 1;
    }
    proof {
        lemma_position_is(members_view(members@), key@, i as int);
    }
    i
}

/// Binds `key` to `value`: replaces the first member with that key where it
/// stands, or adds the pair at the end.
pub fn set_member(members: &mut Vec<(String, Json)>, key: String, value: Json)
    ensures
        members_view(final(members)@) == with_member(members_view(old(members)@), key@, value@),
{
    let i = find_member(members, key.as_str());
    if i < members.len() {
        members.set(i, (key, value));
    } else {
        members.push((key, value));
    }
    assert(members_view(members@) =~= with_member(members_view(old(members)@), key@, value@));
}

} // verus!
