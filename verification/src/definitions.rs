//! The client type export: one self-contained text module with the shape of
//! an endpoint, the error payload, and one entry for each path and method.
//!
//! A slot that is void is written as `Empty`, never left out, so that every
//! entry has the same shape.

use vstd::prelude::*;
use vstd::string::*;
use crate::registry::{
    groups_seq, items_seq, GroupView, ItemView, PathGroup, Registry, RegistryItem, RegistryView,
};

verus! {

/// A text as a JSON string literal: in double quotes, with the escapes that
/// `serde_json` writes.
pub uninterp spec fn json_quoted(text: Seq<char>) -> Seq<char>;

/// `serde_json::to_string` on a string slice: the text as a JSON string
/// literal. Encoding a string slice does not fail. The contract names the
/// literal as a function of the text and says nothing more of it.
#[verifier::external_body]
fn quote(text: &str) -> (r: String)
    ensures
        r@ == json_quoted(text@),
{
    match serde_json::to_string(text) {
        Ok(quoted) => quoted,
        Err(_) => String::new(),
    }
}

/// The module up to the type of the error payload.
pub open spec fn prologue() -> Seq<char> {
    "/// the types of the API, endpoint by endpoint\n\nexport type Method = \"HEAD\" | \"GET\" | \"POST\" | \"PUT\" | \"PATCH\" | \"DELETE\" | \"OPTIONS\" | \"CONNECT\" | \"TRACE\";\ntype _Method = Method;\n\nexport type Empty = Record<string, never>;\n\nexport type Endpoint<\n  Method extends _Method,\n  Path extends string,\n  Params,\n  Query,\n  Payload,\n  Output\n> = {\n  method: Method,\n  path: Path,\n  // this $ types are never constructed, only used as a template\n  $params?: Params,\n  $query?: Query,\n  $payload?: Payload\n  $output?: Output\n};\n\ntype ApiDefinition = Partial<Record<string, Partial<Record<Method, Endpoint<any, any, any, any, any, any>>>>>;\n\nexport type ErrorPayload = "@
}

/// The type text of a slot: `Empty` for a void slot.
pub open spec fn slot_text(shape: Option<Seq<char>>) -> Seq<char> {
    match shape {
        Some(s) => s,
        None => "Empty"@,
    }
}

/// The entry of one endpoint: its method and path as literals, and the type
/// text of its four slots.
pub open spec fn entry_text(item: ItemView) -> Seq<char> {
    let method = json_quoted(item.method.spec_name());
    let path = json_quoted(item.path);
    "\n    "@ + method + ": { method: "@ + method + ", path: "@ + path + " } as Endpoint<"@ + method
        + ", "@ + path + ", "@ + slot_text(item.params_shape) + ", "@ + slot_text(item.query_shape)
        + ", "@ + slot_text(item.payload_shape) + ", "@ + item.output_shape + ">,"@
}

/// The entries of a list of endpoints, in order.
pub open spec fn entries_text(items: Seq<ItemView>) -> Seq<char>
    decreases items.len(),
{
    if items.len() == 0 {
        Seq::empty()
    } else {
        entries_text(items.drop_last()) + entry_text(items.last())
    }
}

/// The entries of one path, under the path as a literal.
pub open spec fn group_text(group: GroupView) -> Seq<char> {
    "\n  "@ + json_quoted(group.path) + ": {"@ + entries_text(group.items) + "\n  },"@
}

/// The entries of a list of groups, in order.
pub open spec fn groups_text(groups: Seq<GroupView>) -> Seq<char>
    decreases groups.len(),
{
    if groups.len() == 0 {
        Seq::empty()
    } else {
        groups_text(groups.drop_last()) + group_text(groups.last())
    }
}

/// The type-definitions module of a registry.
pub open spec fn spec_ts_definitions(r: RegistryView) -> Seq<char> {
    prologue() + r.error_payload_shape + ";\n\nexport const Api = {"@ + groups_text(r.groups)
        + "\n} satisfies ApiDefinition;"@
}

/// The type text of a slot.
fn slot_text_of(shape: &Option<String>) -> (r: &str)
    ensures
        r@ == slot_text(crate::registry::shape_view(*shape)),
{
    match shape {
        Some(s) => s.as_str(),
        None => "Empty",
    }
}

/// Writes the entry of one endpoint.
fn push_entry(out: &mut String, item: &RegistryItem)
    ensures
        final(out)@ == old(out)@ + entry_text(item@),
{
    let method = quote(item.method.as_str());
    let path = quote(item.path.as_str());
    let mut text = String::from_str("\n    ");
    text.append(method.as_str());
    text.append(": { method: ");
    text.append(method.as_str());
    text.append(", path: ");
    text.append(path.as_str());
    text.append(" } as Endpoint<");
    text.append(method.as_str());
    text.append(", ");
    text.append(path.as_str());
    text.append(", ");
    text.append(slot_text_of(&item.params_shape));
    text.append(", ");
    text.append(slot_text_of(&item.query_shape));
    text.append(", ");
    text.append(slot_text_of(&item.payload_shape));
    text.append(", ");
    text.append(item.output_shape.as_str());
    text.append(">,");
    assert(text@ == entry_text(item@));
    out.append(text.as_str());
}

/// Writes the entries of one path.
fn push_group(out: &mut String, group: &PathGroup)
    ensures
        final(out)@ == old(out)@ + group_text(group@),
{
    let items = group.items();
    let mut text = String::from_str("\n  ");
    text.append(quote(group.path()).as_str());
    text.append(": {");
    let ghost head = text@;
    let mut i: usize = 0;
    assert(text@ =~= head + entries_text(items_seq(items@).take(0)));
    while i < items.len()
        invariant
            i <= items.len(),
            text@ == head + entries_text(items_seq(items@).take(i as int)),
        decreases items.len() - i,
    {
        let ghost before = text@;
        push_entry(&mut text, &items[i]);
        proof {
            let next = items_seq(items@).take(i + 1);
            assert(next.drop_last() =~= items_seq(items@).take(i as int));
            assert(next.last() == items@[i as int]@);
            assert(text@ =~= head + entries_text(next));
        }
        i = i + 1;
    }
    assert(items_seq(items@).take(i as int) =~= items_seq(items@));
    text.append("\n  },");
    assert(text@ == group_text(group@));
    out.append(text.as_str());
}

impl Registry {
    /// The type-definitions module. It is a function of the registry's value
    /// alone: the same registry gives the same text.
    pub fn ts_definitions(&self) -> (r: String)
        ensures
            r@ == spec_ts_definitions(self@),
    {
        let groups = self.groups();
        let mut text = String::from_str(
            "/// the types of the API, endpoint by endpoint\n\nexport type Method = \"HEAD\" | \"GET\" | \"POST\" | \"PUT\" | \"PATCH\" | \"DELETE\" | \"OPTIONS\" | \"CONNECT\" | \"TRACE\";\ntype _Method = Method;\n\nexport type Empty = Record<string, never>;\n\nexport type Endpoint<\n  Method extends _Method,\n  Path extends string,\n  Params,\n  Query,\n  Payload,\n  Output\n> = {\n  method: Method,\n  path: Path,\n  // this $ types are never constructed, only used as a template\n  $params?: Params,\n  $query?: Query,\n  $payload?: Payload\n  $output?: Output\n};\n\ntype ApiDefinition = Partial<Record<string, Partial<Record<Method, Endpoint<any, any, any, any, any, any>>>>>;\n\nexport type ErrorPayload = ",
        );
        text.append(self.error_payload_shape());
        text.append(";\n\nexport const Api = {");
        let ghost head = text@;
        let mut g: usize = 0;
        assert(text@ =~= head + groups_text(groups_seq(groups@).take(0)));
        while g < groups.len()
            invariant
                g <= groups.len(),
                text@ == head + groups_text(groups_seq(groups@).take(g as int)),
            decreases groups.len() - g,
        {
            push_group(&mut text, &groups[g]);
            proof {
                let next = groups_seq(groups@).take(g + 1);
                assert(next.drop_last() =~= groups_seq(groups@).take(g as int));
                assert(next.last() == groups@[g as int]@);
                assert(text@ =~= head + groups_text(next));
            }
            g = g + 1;
        }
        assert(groups_seq(groups@).take(g as int) =~= groups_seq(groups@));
        text.append("\n} satisfies ApiDefinition;");
        text
    }
}

} // verus!
