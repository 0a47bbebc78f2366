//! The shape of an e-mail address.

use vstd::prelude::*;

verus! {

/// What the `regex` crate says of a pattern and a text: whether the pattern
/// matches somewhere in the text, or nothing where the pattern does not compile.
pub uninterp spec fn regex_match(pattern: Seq<char>, text: Seq<char>) -> Option<bool>;

/// `regex::Regex::new(pattern)` followed by `Regex::is_match(text)`.
#[verifier::external_body]
fn regex_is_match(pattern: &str, text: &str) -> (r: Option<bool>)
    ensures
        r == regex_match(pattern@, text@),
{
    match regex::Regex::new(pattern) {
        Ok(re) => Some(re.is_match(text)),
        Err(_) => None,
    }
}

/// An address is a local part of letters, digits and `._%+-`, an `@`, a domain
/// of letters, digits, dots and hyphens, a dot, and a top-level name of two or
/// more letters; letters in either case.
pub const EMAIL_PATTERN: &'static str = r"(?i)^[A-Z0-9._%+-]+@[A-Z0-9.-]+\.[A-Z]{2,}$";

/// Whether `s` has the shape of an e-mail address.
pub open spec fn email_shaped(s: Seq<char>) -> bool {
    regex_match(EMAIL_PATTERN@, s) == Some(true)
}

/// Whether `email` has the shape of an e-mail address.
pub fn looks_like_email(email: &str) -> (r: bool)
    ensures
        r == email_shaped(email@),
{
    match regex_is_match(EMAIL_PATTERN, email) {
        Some(b) => b,
        None => false,
    }
}

} // verus!
