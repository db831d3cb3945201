//! Path patterns.
//!
//! A pattern names a placeholder with a colon and a name, as in `/users/:id`.
//! A name is a non-empty run of ASCII letters, digits and underscores, taken as
//! long as possible. The OpenAPI document writes the same placeholder
//! in braces: `/users/{id}`.

use vstd::prelude::*;
use vstd::string::*;

verus! {

/// Whether `c` may stand in a placeholder's name.
pub open spec fn is_name_char(c: char) -> bool {
    ('a' <= c && c <= 'z') || ('A' <= c && c <= 'Z') || ('0' <= c && c <= '9') || c == '_'
}

/// The pattern from index `i` on, with each placeholder written in braces.
/// `in_name` says that a placeholder's name is being read, whose opening brace
/// is already written.
pub open spec fn braced_from(s: Seq<char>, i: int, in_name: bool) -> Seq<char>
    decreases s.len() - i, (if in_name { 1nat } else { 0nat }),
{
    if i < 0 || i >= s.len() {
        if in_name {
            seq!['}']
        } else {
            Seq::empty()
        }
    } else if in_name {
        if is_name_char(s[i]) {
            seq![s[i]] + braced_from(s, i + 1, true)
        } else {
            seq!['}'] + braced_from(s, i, false)
        }
    } else if s[i] == ':' && i + 1 < s.len() && is_name_char(s[i + 1]) {
        seq!['{'] + braced_from(s, i + 1, true)
    } else {
        seq![s[i]] + braced_from(s, i + 1, false)
    }
}

/// The pattern with each `:name` written as `{name}`, where a name is the
/// longest run of name characters after the colon and is not empty; every
/// other character stays as it is.
pub open spec fn spec_openapi_path(s: Seq<char>) -> Seq<char> {
    braced_from(s, 0, false)
}

/// Whether `c` may stand in a placeholder's name.
pub fn name_char(c: char) -> (r: bool)
    ensures
        r == is_name_char(c),
{
    ('a' <= c && c <= 'z') || ('A' <= c && c <= 'Z') || ('0' <= c && c <= '9') || c == '_'
}

/// Writes each placeholder `:name` of the pattern as `{name}`.
pub fn to_openapi_path(path: &str) -> (r: String)
    ensures
        r@ == spec_openapi_path(path@),
{
    let len = path.unicode_len();
    let mut out = String::new();
    let mut i: usize = 0;
    let mut in_name = false;
    proof {
        reveal_strlit("{");
        reveal_strlit("}");
    }
    while i < len
        invariant
            len == path@.len(),
            i <= len,
            out@ + braced_from(path@, i as int, in_name) == spec_openapi_path(path@),
            "{"@ == seq!['{'],
            "}"@ == seq!['}'],
        decreases len - i, (if in_name { 1nat } else { 0nat }),
    {
        let c = path.get_char(i);
        let ghost before = out@;
        let ghost rest = braced_from(path@, i as int, in_name);
        if in_name {
            if name_char(c) {
                out.append(path.substring_char(i, i + 1));
                assert(path@.subrange(i as int, i + 1) =~= seq![c]);
                i = i + 1;
            } else {
                out.append("}");
                in_name = false;
            }
        } else if c == ':' && i + 1 < len && name_char(path.get_char(i + 1)) {
            out.append("{");
            in_name = true;
            i = i + 1;
        } else {
            out.append(path.substring_char(i, i + 1));
            assert(path@.subrange(i as int, i + 1) =~= seq![c]);
            i = i + 1;
        }
        assert(out@ + braced_from(path@, i as int, in_name) =~= before + rest);
    }
    if in_name {
        out.append("}");
    }
    assert(out@ =~= spec_openapi_path(path@));
    out
}

} // verus!
