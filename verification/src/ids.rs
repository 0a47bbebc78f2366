//! User identifiers: 128-bit values with a canonical textual form.

use vstd::prelude::*;

verus! {

/// The value that `uuid::Uuid::parse_str` reads from a text, if it accepts the text.
pub uninterp spec fn uuid_of_text(s: Seq<char>) -> Option<u128>;

/// The hyphenated lower-case text that `uuid::Uuid` displays for a value.
pub uninterp spec fn uuid_text(value: u128) -> Seq<char>;

/// Whether `c` may stand in the text of an identifier: a digit, a letter from
/// `a` to `f`, or a hyphen.
pub open spec fn uuid_char(c: char) -> bool {
    ||| '0' <= c <= '9'
    ||| 'a' <= c <= 'f'
    ||| c == '-'
}

/// Whether `s` has the length and the characters of an identifier's text.
pub open spec fn uuid_shaped(s: Seq<char>) -> bool {
    &&& s.len() == 36
    &&& forall|i: int| 0 <= i < s.len() ==> uuid_char(#[trigger] s[i])
}

/// `uuid::Error`, which is carried along and never looked into.
#[verifier::external_type_specification]
#[verifier::external_body]
pub struct ExUuidError(uuid::Error);

/// `uuid::Uuid::parse_str`, with the identifier handed back as its 128-bit value
/// (`Uuid::as_u128`). Which texts are accepted, and with what value, is the
/// crate's matter: the contract only names it.
#[verifier::external_body]
fn parse_uuid(s: &str) -> (r: Result<u128, uuid::Error>)
    ensures
        r is Ok <==> uuid_of_text(s@) is Some,
        r matches Ok(v) ==> uuid_of_text(s@) == Some(v),
{
    match uuid::Uuid::parse_str(s) {
        Ok(id) => Ok(id.as_u128()),
        Err(e) => Err(e),
    }
}

/// `Display` of a `uuid::Error`: the crate's words for why a text is no UUID.
/// Nothing is claimed of them.
#[verifier::external_body]
pub(crate) fn describe_uuid_error(e: &uuid::Error) -> String {
    e.to_string()
}

/// `Display` of `uuid::Uuid::from_u128(value)`: the hyphenated form, 36
/// characters of lower-case hexadecimal digits and hyphens.
#[verifier::external_body]
fn format_uuid(value: u128) -> (r: String)
    ensures
        r@ == uuid_text(value),
        uuid_shaped(r@),
{
    uuid::Uuid::from_u128(value).to_string()
}

/// A 128-bit identifier: of a user, and with it of the user's profile row, or
/// of a post.
#[derive(Clone, Copy, Debug, PartialEq, Eq, Structural, Hash)]
pub struct Uuid {
    pub value: u128,
}

impl View for Uuid {
    type V = u128;

    open spec fn view(&self) -> u128 {
        self.value
    }
}

impl Uuid {
    /// Reads an identifier from its textual form.
    pub fn parse_str(s: &str) -> (r: Result<Uuid, uuid::Error>)
        ensures
            r is Ok <==> uuid_of_text(s@) is Some,
            r matches Ok(id) ==> uuid_of_text(s@) == Some(id.value),
    {
        match parse_uuid(s) {
            Ok(value) => Ok(Uuid { value }),
            Err(e) => Err(e),
        }
    }

    /// The canonical text of the identifier.
    pub fn to_text(&self) -> (r: String)
        ensures
            r@ == uuid_text(self.value),
            uuid_shaped(r@),
    {
        format_uuid(self.value)
    }
}

} // verus!
