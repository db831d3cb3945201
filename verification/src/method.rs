//! The request methods an endpoint can be bound to.

use vstd::prelude::*;

verus! {

/// A request method. These nine are the ones the dispatch table routes.
#[derive(Debug, Clone, Copy, PartialEq, Eq, Structural, Hash)]
pub enum Method {
    Head,
    Get,
    Post,
    Put,
    Patch,
    Delete,
    Options,
    Connect,
    Trace,
}

impl Method {
    /// The method's token as it stands on the wire, in upper case.
    pub open spec fn spec_name(self) -> Seq<char> {
        match self {
            Method::Head => "HEAD"@,
            Method::Get => "GET"@,
            Method::Post => "POST"@,
            Method::Put => "PUT"@,
            Method::Patch => "PATCH"@,
            Method::Delete => "DELETE"@,
            Method::Options => "OPTIONS"@,
            Method::Connect => "CONNECT"@,
            Method::Trace => "TRACE"@,
        }
    }

    /// The method's token in lower case, the key of an operation in the
    /// OpenAPI document.
    pub open spec fn spec_lowercase(self) -> Seq<char> {
        match self {
            Method::Head => "head"@,
            Method::Get => "get"@,
            Method::Post => "post"@,
            Method::Put => "put"@,
            Method::Patch => "patch"@,
            Method::Delete => "delete"@,
            Method::Options => "options"@,
            Method::Connect => "connect"@,
            Method::Trace => "trace"@,
        }
    }

    /// A small number that stands for the method: its place in the list above.
    pub open spec fn spec_code(self) -> u8 {
        match self {
            Method::Head => 0,
            Method::Get => 1,
            Method::Post => 2,
            Method::Put => 3,
            Method::Patch => 4,
            Method::Delete => 5,
            Method::Options => 6,
            Method::Connect => 7,
            Method::Trace => 8,
        }
    }

    /// The method's token as it stands on the wire, in upper case.
    pub fn as_str(&self) -> (r: &'static str)
        ensures
            r@ == self.spec_name(),
    {
        match self {
            Method::Head => "HEAD",
            Method::Get => "GET",
            Method::Post => "POST",
            Method::Put => "PUT",
            Method::Patch => "PATCH",
            Method::Delete => "DELETE",
            Method::Options => "OPTIONS",
            Method::Connect => "CONNECT",
            Method::Trace => "TRACE",
        }
    }

    /// The method's token in lower case.
    pub fn lowercase(&self) -> (r: &'static str)
        ensures
            r@ == self.spec_lowercase(),
    {
        match self {
            Method::Head => "head",
            Method::Get => "get",
            Method::Post => "post",
            Method::Put => "put",
            Method::Patch => "patch",
            Method::Delete => "delete",
            Method::Options => "options",
            Method::Connect => "connect",
            Method::Trace => "trace",
        }
    }

    /// The number that stands for the method.
    pub fn code(&self) -> (r: u8)
        ensures
            r == self.spec_code(),
            r < 9,
    {
        match self {
            Method::Head => 0,
            Method::Get => 1,
            Method::Post => 2,
            Method::Put => 3,
            Method::Patch => 4,
            Method::Delete => 5,
            Method::Options => 6,
            Method::Connect => 7,
            Method::Trace => 8,
        }
    }

    /// The method with the given upper-case token, if it is one of the nine.
    pub fn parse(token: &str) -> (r: Option<Method>)
        ensures
            match r {
                Some(m) => m.spec_name() == token@,
                None => forall|m: Method| m.spec_name() != token@,
            },
    {
        let all = [
            Method::Head,
            Method::Get,
            Method::Post,
            Method::Put,
            Method::Patch,
            Method::Delete,
            Method::Options,
            Method::Connect,
            Method::Trace,
        ];
        let mut i: usize = 0;
        while i < 9
            invariant
                i <= 9,
                all@.len() == 9,
                forall|m: Method| #[trigger] all@[m.spec_code() as int] == m,
                forall|j: int| 0 <= j < i ==> (#[trigger] all@[j]).spec_name() != token@,
            decreases 9 - i,
        {
            if crate::text::same_text(all[i].as_str(), token) {
                return Some(all[i]);
            }
            i = i + 1;
        }
        assert forall|m: Method| m.spec_name() != token@ by {
            assert(all@[m.spec_code() as int] == m);
        }
        None
    }
}

/// Two methods with the same lower-case token are the same method.
pub proof fn lemma_lowercase_injective(a: Method, b: Method)
    requires
        a.spec_lowercase() == b.spec_lowercase(),
    ensures
        a == b,
{
    reveal_strlit("head");
    reveal_strlit("get");
    reveal_strlit("post");
    reveal_strlit("put");
    reveal_strlit("patch");
    reveal_strlit("delete");
    reveal_strlit("options");
    reveal_strlit("connect");
    reveal_strlit("trace");
    let x = a.spec_lowercase();
    let y = b.spec_lowercase();
    assert(x.len() == y.len());
    assert(x[0] == y[0]);
    assert(x[1] == y[1]);
}

/// Two methods with the same code are the same method.
pub proof fn lemma_code_injective(a: Method, b: Method)
    requires
        a.spec_code() == b.spec_code(),
    ensures
        a == b,
{
}

} // verus!
