//! Who is calling: the user named in a bearer token.
//!
//! The token's payload is read as it stands. Its signature is not checked, nor
//! its expiry, issuer or audience: whoever presents a well-formed token is
//! taken to be the user that its `sub` names.

use crate::encoding::{decode_segment, opt_bytes, segment_bytes};
use crate::ids::{uuid_of_text, Uuid};
use crate::json::{json_of_text, Json};
use crate::reply::HTTP_UNAUTHORIZED;
use crate::text::{
    lemma_first_index_is, owned, split, split_on, starts_with, trim, trim_start_matches, trimmed,
    utf8_text, without_leading,
};
use vstd::prelude::*;
use vstd::utf8::{decode_utf8, valid_utf8};

verus! {

/// Why a token names no user.
#[derive(Clone, Copy, Debug, PartialEq, Eq, Structural)]
pub enum TokenFault {
    /// The token has not exactly three segments between dots.
    Format,
    /// The middle segment is base64 in neither alphabet.
    Base64,
    /// The decoded payload is not UTF-8.
    Utf8,
    /// The payload is not JSON.
    Json,
    /// The payload has no `sub` that is a string.
    MissingSub,
    /// The `sub` is not a UUID.
    InvalidUuid,
}

/// The user that the claims of a payload name, given what the payload parses to.
pub open spec fn claims_user(parsed: Result<Json, String>) -> Result<u128, TokenFault> {
    match parsed {
        Err(_) => Err(TokenFault::Json),
        Ok(claims) => match claims.member_text("sub"@) {
            None => Err(TokenFault::MissingSub),
            Some(sub) => match uuid_of_text(sub) {
                None => Err(TokenFault::InvalidUuid),
                Some(id) => Ok(id),
            },
        },
    }
}

/// The user that a payload names, given the bytes that it decodes to.
pub open spec fn payload_user(decoded: Option<Seq<u8>>) -> Result<u128, TokenFault> {
    match decoded {
        None => Err(TokenFault::Base64),
        Some(bytes) => if !valid_utf8(bytes) {
            Err(TokenFault::Utf8)
        } else {
            claims_user(json_of_text(decode_utf8(bytes)))
        },
    }
}

/// The user that the middle segment of a token names.
pub open spec fn segment_user(segment: Seq<char>) -> Result<u128, TokenFault> {
    payload_user(segment_bytes(segment))
}

/// The user that a token names: the one in the `sub` of its middle segment.
pub open spec fn token_user(token: Seq<char>) -> Result<u128, TokenFault> {
    let parts = split_on(token, '.');
    if parts.len() != 3 {
        Err(TokenFault::Format)
    } else {
        segment_user(parts[1])
    }
}

/// The view of what reading a token gives.
pub open spec fn user_view(r: Result<Uuid, TokenFault>) -> Result<u128, TokenFault> {
    match r {
        Ok(id) => Ok(id.value),
        Err(e) => Err(e),
    }
}

/// Reads the user out of the claims that a payload parsed to: the one that
/// `sub` names.
pub fn user_from_claims(parsed: &Result<Json, String>) -> (r: Result<Uuid, TokenFault>)
    ensures
        user_view(r) == claims_user(*parsed),
{
    let claims = match parsed {
        Ok(claims) => claims,
        Err(_) => {
            return Err(TokenFault::Json);
        },
    };
    let sub = match claims.get_str("sub") {
        Some(sub) => sub,
        None => {
            return Err(TokenFault::MissingSub);
        },
    };
    match Uuid::parse_str(sub) {
        Ok(id) => Ok(id),
        Err(_) => Err(TokenFault::InvalidUuid),
    }
}

/// Reads the user out of the bytes that a payload decoded to.
pub fn user_from_payload(decoded: Option<Vec<u8>>) -> (r: Result<Uuid, TokenFault>)
    ensures
        user_view(r) == payload_user(opt_bytes(decoded)),
{
    let bytes = match decoded {
        Some(bytes) => bytes,
        None => {
            return Err(TokenFault::Base64);
        },
    };
    let payload = match utf8_text(bytes) {
        Some(payload) => payload,
        None => {
            return Err(TokenFault::Utf8);
        },
    };
    let parsed = Json::parse(payload.as_str());
    user_from_claims(&parsed)
}

/// Reads the user out of a token's payload, without checking the signature.
pub fn extract_user_id_from_jwt(token: &str) -> (r: Result<Uuid, TokenFault>)
    ensures
        user_view(r) == token_user(token@),
{
    let parts = split(token, '.');
    if parts.len() != 3 {
        return Err(TokenFault::Format);
    }
    assert(parts.deep_view()[1] == parts@[1]@);
    user_from_payload(decode_segment(parts[1].as_str()))
}

/// Three segments with dots between them.
pub open spec fn dotted(header: Seq<char>, payload: Seq<char>, signature: Seq<char>) -> Seq<char> {
    header + seq!['.'] + payload + seq!['.'] + signature
}

/// A text without dots is its own single segment.
pub proof fn lemma_split_undotted(s: Seq<char>)
    requires
        !s.contains('.'),
    ensures
        split_on(s, '.') == seq![s],
{
    lemma_first_index_is(s, '.', s.len() as int);
}

/// A dot-free head before a dot is the first segment; the rest splits on.
pub proof fn lemma_split_first(head: Seq<char>, rest: Seq<char>)
    requires
        !head.contains('.'),
    ensures
        split_on(head + seq!['.'] + rest, '.') == seq![head] + split_on(rest, '.'),
{
    let whole = head + seq!['.'] + rest;
    lemma_first_index_is(whole, '.', head.len() as int);
    assert(whole.take(head.len() as int) == head);
    assert(whole.skip(head.len() as int + 1) == rest);
}

/// Three dot-free segments joined by dots split into just these segments.
pub proof fn lemma_split_dotted(header: Seq<char>, payload: Seq<char>, signature: Seq<char>)
    requires
        !header.contains('.'),
        !payload.contains('.'),
        !signature.contains('.'),
    ensures
        split_on(dotted(header, payload, signature), '.') == seq![header, payload, signature],
{
    let tail = payload + seq!['.'] + signature;
    assert(dotted(header, payload, signature) == header + seq!['.'] + tail);
    lemma_split_first(header, tail);
    lemma_split_first(payload, signature);
    lemma_split_undotted(signature);
}

/// The signature is not checked: a token names the user in its payload
/// whatever its header and signature are. Two tokens with the same payload
/// name the same user.
pub proof fn lemma_signature_not_checked(
    header: Seq<char>,
    payload: Seq<char>,
    signature: Seq<char>,
    other_header: Seq<char>,
    other_signature: Seq<char>,
)
    requires
        !header.contains('.'),
        !payload.contains('.'),
        !signature.contains('.'),
        !other_header.contains('.'),
        !other_signature.contains('.'),
    ensures
        token_user(dotted(header, payload, signature)) == segment_user(payload),
        token_user(dotted(header, payload, signature)) == token_user(
            dotted(other_header, payload, other_signature),
        ),
{
    lemma_split_dotted(header, payload, signature);
    lemma_split_dotted(other_header, payload, other_signature);
}

/// A token whose payload decodes to a JSON object with a `sub` that is a UUID
/// names that user, whatever stands in its other segments.
pub proof fn lemma_sub_is_believed(
    header: Seq<char>,
    payload: Seq<char>,
    signature: Seq<char>,
    bytes: Seq<u8>,
    claims: Json,
    sub: Seq<char>,
    id: u128,
)
    requires
        !header.contains('.'),
        !payload.contains('.'),
        !signature.contains('.'),
        segment_bytes(payload) == Some(bytes),
        valid_utf8(bytes),
        json_of_text(decode_utf8(bytes)) == Ok::<Json, String>(claims),
        claims.member_text("sub"@) == Some(sub),
        uuid_of_text(sub) == Some(id),
    ensures
        token_user(dotted(header, payload, signature)) == Ok::<u128, TokenFault>(id),
{
    lemma_split_dotted(header, payload, signature);
}

/// The `Authorization` header of a request, as far as it could be read.
#[derive(Debug)]
pub enum AuthorizationHeader {
    /// The request has no such header.
    Missing,
    /// The header is there but is no text.
    Unreadable,
    /// The header's text.
    Value(String),
}

/// Why a request is turned away. The cause is kept for the logs: the client
/// gets 401 and the same words for every one of these.
#[derive(Clone, Copy, Debug, PartialEq, Eq, Structural)]
pub enum AuthRejection {
    MissingHeader,
    UnreadableHeader,
    /// The header does not begin with `Bearer `.
    NotBearer,
    /// The token names no user; the client is not told why.
    InvalidToken(TokenFault),
}

impl AuthRejection {
    /// What the client is told: the same whatever the cause, so that the
    /// answer does not show which step failed.
    pub open spec fn text(self) -> Seq<char> {
        "Invalid token"@
    }

    /// What the client is told.
    pub fn message(self) -> (r: String)
        ensures
            r@ == self.text(),
    {
        owned("Invalid token")
    }

    /// The HTTP status of the refusal.
    pub fn status(self) -> (r: u16)
        ensures
            r == HTTP_UNAUTHORIZED,
    {
        HTTP_UNAUTHORIZED
    }
}

/// The token in a header's text: what follows the leading `Bearer `, trimmed.
pub open spec fn bearer_token(header: Seq<char>) -> Seq<char> {
    trimmed(without_leading(header, "Bearer "@))
}

/// Who a request with the given header comes from.
pub open spec fn caller(header: AuthorizationHeader) -> Result<u128, AuthRejection> {
    match header {
        AuthorizationHeader::Missing => Err(AuthRejection::MissingHeader),
        AuthorizationHeader::Unreadable => Err(AuthRejection::UnreadableHeader),
        AuthorizationHeader::Value(text) => if !"Bearer "@.is_prefix_of(text@) {
            Err(AuthRejection::NotBearer)
        } else {
            match token_user(bearer_token(text@)) {
                Ok(id) => Ok(id),
                Err(fault) => Err(AuthRejection::InvalidToken(fault)),
            }
        },
    }
}

/// A caller who presented a token that names a user.
#[derive(Clone, Copy, Debug, PartialEq, Eq, Structural)]
pub struct AuthenticatedUser {
    pub user_id: Uuid,
}

impl AuthenticatedUser {
    /// Finds the caller of a request from its `Authorization` header.
    pub fn from_request(header: &AuthorizationHeader) -> (r: Result<AuthenticatedUser, AuthRejection>)
        ensures
            match r {
                Ok(user) => caller(*header) == Ok::<u128, AuthRejection>(user.user_id.value),
                Err(e) => caller(*header) == Err::<u128, AuthRejection>(e),
            },
    {
        match header {
            AuthorizationHeader::Missing => Err(AuthRejection::MissingHeader),
            AuthorizationHeader::Unreadable => Err(AuthRejection::UnreadableHeader),
            AuthorizationHeader::Value(text) => {
                if !starts_with(text.as_str(), "Bearer ") {
                    return Err(AuthRejection::NotBearer);
                }
                let rest = trim_start_matches(text.as_str(), "Bearer ");
                let token = trim(rest.as_str());
                match extract_user_id_from_jwt(token.as_str()) {
                    Ok(user_id) => Ok(AuthenticatedUser { user_id }),
                    Err(fault) => Err(AuthRejection::InvalidToken(fault)),
                }
            },
        }
    }
}

/// Two requests that are turned away get the same status and the same words,
/// whatever their causes.
pub proof fn lemma_refusals_look_alike(one: AuthRejection, other: AuthRejection)
    ensures
        one.text() == other.text(),
{
}

/// A header whose token has not exactly three segments is turned away as an
/// invalid token.
pub proof fn lemma_malformed_token_rejected(text: String)
    requires
        "Bearer "@.is_prefix_of(text@),
        split_on(bearer_token(text@), '.').len() != 3,
    ensures
        caller(AuthorizationHeader::Value(text)) == Err::<u128, AuthRejection>(
            AuthRejection::InvalidToken(TokenFault::Format),
        ),
{
}

} // verus!
