//! The users of the sample API.

pub mod get;
pub mod list;

use vstd::prelude::*;
use vstd::string::*;
use crate::schema::{Schema, ValidationError};
use crate::void::Void;

verus! {

/// Whether `c` may stand in an id: a lower-case ASCII letter or a digit.
pub open spec fn is_id_char(c: char) -> bool {
    ('a' <= c && c <= 'z') || ('0' <= c && c <= '9')
}

/// Whether a text is an id: not empty, and made of id characters alone.
pub open spec fn is_id(text: Seq<char>) -> bool {
    text.len() > 0 && forall|i: int| 0 <= i < text.len() ==> is_id_char(#[trigger] text[i])
}

/// Whether a text is an id.
pub fn check_id(text: &str) -> (r: bool)
    ensures
        r == is_id(text@),
{
    let len = text.unicode_len();
    if len == 0 {
        return false;
    }
    let mut i: usize = 0;
    while i < len
        invariant
            len == text@.len(),
            i <= len,
            forall|j: int| 0 <= j < i ==> is_id_char(#[trigger] text@[j]),
        decreases len - i,
    {
        let c = text.get_char(i);
        if !(('a' <= c && c <= 'z') || ('0' <= c && c <= '9')) {
            return false;
        }
        i = i + 1;
    }
    true
}

/// Whether `garde` takes a text for an email address.
pub uninterp spec fn email_accepted(text: Seq<char>) -> bool;

/// `garde::rules::email::parse_email`: whether the text is an email
/// address by the rules of that crate. The contract names the answer as a
/// function of the text and says nothing more of it.
#[verifier::external_body]
fn check_email(text: &str) -> (r: bool)
    ensures
        r == email_accepted(text@),
{
    garde::rules::email::parse_email(text).is_ok()
}

/// The number of bytes of a text in UTF-8.
pub open spec fn byte_len(text: Seq<char>) -> nat {
    vstd::utf8::encode_utf8(text).len()
}

/// A user record.
#[derive(Debug)]
pub struct User {
    /// The unique id of the user.
    pub id: String,
    /// The email address of the user.
    pub email: String,
}

impl Void for User {
    open spec fn spec_is_void() -> bool {
        false
    }

    fn is_void() -> (r: bool) {
        false
    }

    fn void() -> (r: Option<Self>) {
        None
    }
}

impl Schema for User {
    /// The id is an id; the email is an email address of at most 100 bytes.
    open spec fn valid(&self) -> bool {
        &&& is_id(self.id@)
        &&& email_accepted(self.email@)
        &&& byte_len(self.email@) <= 100
    }

    open spec fn violation(&self) -> Seq<char> {
        if !is_id(self.id@) {
            "id: does not match pattern /^[a-z0-9]+$/"@
        } else if !email_accepted(self.email@) {
            "email: not a valid email"@
        } else {
            "email: length is greater than 100"@
        }
    }

    fn validate(&self) -> (r: Result<(), ValidationError>) {
        if !check_id(self.id.as_str()) {
            Err(
                ValidationError {
                    message: String::from_str("id: does not match pattern /^[a-z0-9]+$/"),
                },
            )
        } else if !check_email(self.email.as_str()) {
            Err(ValidationError { message: String::from_str("email: not a valid email") })
        } else if self.email.as_str().as_bytes().len() > 100 {
            Err(ValidationError { message: String::from_str("email: length is greater than 100") })
        } else {
            Ok(())
        }
    }
}

} // verus!
