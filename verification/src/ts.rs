//! Type text with the named types written out.
//!
//! A type's own text names the types it depends on and its generic
//! parameters. `inline` writes, in place of each such name, the text of the
//! type that it stands for, so that the result is self-contained. Each name
//! is resolved once: a visitor keeps one text for a name.

use vstd::prelude::*;
use vstd::string::*;
use crate::json::{lemma_position_is, with_member};
use crate::text::same_text;

verus! {

/// The text with every character that has a meaning in a regular expression
/// escaped, as `regex::escape` writes it.
pub uninterp spec fn regex_escaped(text: Seq<char>) -> Seq<char>;

/// `regex::escape`: the text as a literal of a regular expression. The
/// contract names the outcome as a function of the text and says nothing
/// more of it.
#[verifier::external_body]
fn escape(text: &str) -> (r: String)
    ensures
        r@ == regex_escaped(text@),
{
    regex::escape(text)
}

/// The target with each match of the pattern replaced by the match's first
/// and second group, the text `inline`, and the match's third and fourth
/// group; `None` where the pattern is not a regular expression.
pub uninterp spec fn name_substituted(
    pattern: Seq<char>,
    target: Seq<char>,
    inline: Seq<char>,
) -> Option<Seq<char>>;

/// What stands in place of one match: what was matched around the name, with
/// the text `inline` where the name stood.
pub fn splice(before: &str, gap: &str, inline: &str, space: &str, after: &str) -> (r: String)
    ensures
        r@ == before@ + gap@ + inline@ + space@ + after@,
{
    let mut r = String::from_str(before);
    r.append(gap);
    r.append(inline);
    r.append(space);
    r.append(after);
    r
}

/// `Regex::new` on the pattern, then `Regex::replace_all` on the target:
/// every match, from the left and without overlap, is replaced by `splice` of
/// its groups one to four around `inline`. `None` where `Regex::new` refuses
/// the pattern. The contract names the outcome as a function of the three
/// texts and says nothing more of it.
#[verifier::external_body]
fn substitute(pattern: &str, target: &str, inline: &str) -> (r: Option<String>)
    ensures
        (match r {
            Some(text) => Some(text@),
            None => None,
        }) == name_substituted(pattern@, target@, inline@),
{
    match regex::Regex::new(pattern) {
        Ok(re) => {
            let text = re.replace_all(target, |c: &regex::Captures<'_>| {
                splice(c.get(1).map_or("", |m| m.as_str()), c.get(2).map_or("", |m| m.as_str()), inline,
                    c.get(3).map_or("", |m| m.as_str()), c.get(4).map_or("", |m| m.as_str()))
            });
            Some(text.into_owned())
        },
        Err(_) => None,
    }
}

/// The number of characters from index `i` on that stand before the first
/// `<`.
pub open spec fn plain_len(name: Seq<char>, i: int) -> int
    decreases name.len() - i,
{
    if 0 <= i < name.len() && name[i] != '<' {
        1 + plain_len(name, i + 1)
    } else {
        0
    }
}

/// A type's name without its generic arguments: what stands before the first
/// `<`.
pub open spec fn base_name(name: Seq<char>) -> Seq<char> {
    name.subrange(0, plain_len(name, 0))
}

/// A type's name without its generic arguments.
pub fn base_name_of(name: &str) -> (r: String)
    ensures
        r@ == base_name(name@),
{
    let len = name.unicode_len();
    let mut j: usize = 0;
    while j < len && name.get_char(j) != '<'
        invariant
            len == name@.len(),
            j <= len,
            plain_len(name@, 0) == j + plain_len(name@, j as int),
        decreases len - j,
    {
        j = j + 1;
    }
    String::from_str(name.substring_char(0, j))
}

/// The values of a list of names and texts.
pub open spec fn pairs_view(pairs: Seq<(String, String)>) -> Seq<(Seq<char>, Seq<char>)> {
    Seq::new(pairs.len(), |i: int| (pairs[i].0@, pairs[i].1@))
}

/// Collects the types that a type names: each name with the text that
/// stands for it, in the order in which the names were first seen.
#[derive(Debug)]
pub struct Visitor {
    pub map: Vec<(String, String)>,
}

impl View for Visitor {
    type V = Seq<(Seq<char>, Seq<char>)>;

    open spec fn view(&self) -> Seq<(Seq<char>, Seq<char>)> {
        pairs_view(self.map@)
    }
}

impl Visitor {
    /// A visitor that has seen nothing.
    pub fn new() -> (r: Visitor)
        ensures
            r@ == Seq::<(Seq<char>, Seq<char>)>::empty(),
    {
        let r = Visitor { map: Vec::new() };
        assert(r@ =~= Seq::<(Seq<char>, Seq<char>)>::empty());
        r
    }

    /// Takes note of a type: binds its name, without generic arguments, to
    /// its text. A name seen before keeps its place and gets the new text.
    pub fn visit(&mut self, name: &str, inline: String)
        ensures
            final(self)@ == with_member(old(self)@, base_name(name@), inline@),
    {
        let key = base_name_of(name);
        let mut i: usize = 0;
        let mut found = false;
        while i < self.map.len() && !found
            invariant
                i <= self.map.len(),
                self.map == old(self).map,
                forall|j: int| 0 <= j < i ==> (#[trigger] self@[j]).0 != key@,
                found ==> i < self.map.len() && self@[i as int].0 == key@,
            decreases self.map.len() - i, (if found { 0nat } else { 1nat }),
        {
            if same_text(self.map[i].0.as_str(), key.as_str()) {
                found = true;
            } else {
                i = i + 1;
            }
        }
        proof {
            lemma_position_is(self@, key@, i as int);
        }
        if i < self.map.len() {
            self.map.set(i, (key, inline));
        } else {
            self.map.push((key, inline));
        }
        assert(self@ =~= with_member(old(self)@, base_name(name@), inline@));
    }
}

/// The regular expression that finds a type's name where a type may stand:
/// before a comma or an angle bracket, and after an optional bracket, comma
/// or colon.
pub open spec fn name_pattern(name: Seq<char>) -> Seq<char> {
    "([<,:]?)(\\s*)"@ + regex_escaped(name) + "(\\s*)([,><])"@
}

/// The text after one name is written out. The name `Array` is left as it
/// is. `None` stays `None`.
pub open spec fn written_out(target: Option<Seq<char>>, name: Seq<char>, inline: Seq<char>) -> Option<
    Seq<char>,
> {
    match target {
        Some(text) => if name == "Array"@ {
            Some(text)
        } else {
            name_substituted(name_pattern(name), text, inline)
        },
        None => None,
    }
}

/// The text after each name of the list is written out, in the list's order.
pub open spec fn all_written_out(
    target: Option<Seq<char>>,
    types: Seq<(Seq<char>, Seq<char>)>,
) -> Option<Seq<char>>
    decreases types.len(),
{
    if types.len() == 0 {
        target
    } else {
        written_out(all_written_out(target, types.drop_last()), types.last().0, types.last().1)
    }
}

/// A type's text with its generic parameters written out, then the types
/// it depends on.
pub open spec fn spec_inline(
    target: Seq<char>,
    generics: Seq<(Seq<char>, Seq<char>)>,
    dependencies: Seq<(Seq<char>, Seq<char>)>,
) -> Option<Seq<char>> {
    all_written_out(all_written_out(Some(target), generics), dependencies)
}

/// The value of an optional text.
pub open spec fn text_view(text: Option<String>) -> Option<Seq<char>> {
    match text {
        Some(t) => Some(t@),
        None => None,
    }
}

/// Writes out one name in the text.
pub fn write_out(target: Option<String>, name: &str, inline: &str) -> (r: Option<String>)
    ensures
        text_view(r) == written_out(text_view(target), name@, inline@),
{
    match target {
        Some(text) => {
            if same_text(name, "Array") {
                Some(text)
            } else {
                let mut pattern = String::from_str("([<,:]?)(\\s*)");
                pattern.append(escape(name).as_str());
                pattern.append("(\\s*)([,><])");
                substitute(pattern.as_str(), text.as_str(), inline)
            }
        },
        None => None,
    }
}

/// Writes out each name of the list in the text.
fn write_out_all(target: Option<String>, types: &Vec<(String, String)>) -> (r: Option<String>)
    ensures
        text_view(r) == all_written_out(text_view(target), pairs_view(types@)),
{
    let mut text = target;
    let mut i: usize = 0;
    assert(pairs_view(types@).take(0) =~= Seq::<(Seq<char>, Seq<char>)>::empty());
    while i < types.len()
        invariant
            i <= types.len(),
            text_view(text) == all_written_out(
                text_view(target),
                pairs_view(types@).take(i as int),
            ),
        decreases types.len() - i,
    {
        proof {
            let next = pairs_view(types@).take(i + 1);
            assert(next.drop_last() =~= pairs_view(types@).take(i as int));
            assert(next.last() == (types@[i as int].0@, types@[i as int].1@));
        }
        text = write_out(text, types[i].0.as_str(), types[i].1.as_str());
        i = i + 1;
    }
    assert(pairs_view(types@).take(i as int) =~= pairs_view(types@));
    text
}

/// A type's text with every name that the visitors saw written out: first
/// the generic parameters, then the types it depends on. `None` where a
/// name yields a pattern that is not a regular expression.
pub fn inline(target: &str, generics: &Visitor, dependencies: &Visitor) -> (r: Option<String>)
    ensures
        text_view(r) == spec_inline(target@, generics@, dependencies@),
{
    let text = write_out_all(Some(String::from_str(target)), &generics.map);
    write_out_all(text, &dependencies.map)
}

} // verus!
