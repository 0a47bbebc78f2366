//! Requests to, and responses from, the backend's REST and auth endpoints, as
//! plain data. Sending them is the caller's part.

use crate::dtos::opt_text;
use crate::ids::Uuid;
use crate::text::{join2, owned};
use vstd::prelude::*;

verus! {

/// The HTTP methods in use.
#[derive(Clone, Copy, Debug, PartialEq, Eq, Structural)]
pub enum Method {
    Get,
    Post,
    Patch,
    Delete,
}

/// The JSON body of a request, field by field.
#[derive(Debug)]
#[allow(inconsistent_fields)]
pub enum RequestBody {
    Empty,
    /// `{"email", "password"}`
    Credentials { email: String, password: String },
    /// A profile row with every column as text and the role set.
    ProfileRow {
        id: String,
        date_of_birth: String,
        primary_skill: String,
        skill_to_learn: String,
        bio: String,
        role: String,
    },
    /// A profile row whose date of birth may be null.
    ProfileFields {
        id: Uuid,
        date_of_birth: Option<String>,
        primary_skill: String,
        skill_to_learn: String,
        bio: String,
    },
    /// `{"profile_picture_url"}`, null to clear it.
    PictureUrl { profile_picture_url: Option<String> },
    /// `{"user_id", "content", "image_url"}`
    NewPost { user_id: Uuid, content: String, image_url: Option<String> },
}

/// The view of `RequestBody`: its texts as sequences of characters.
#[allow(inconsistent_fields)]
pub enum RequestBodyView {
    Empty,
    Credentials { email: Seq<char>, password: Seq<char> },
    ProfileRow {
        id: Seq<char>,
        date_of_birth: Seq<char>,
        primary_skill: Seq<char>,
        skill_to_learn: Seq<char>,
        bio: Seq<char>,
        role: Seq<char>,
    },
    ProfileFields {
        id: u128,
        date_of_birth: Option<Seq<char>>,
        primary_skill: Seq<char>,
        skill_to_learn: Seq<char>,
        bio: Seq<char>,
    },
    PictureUrl { profile_picture_url: Option<Seq<char>> },
    NewPost { user_id: u128, content: Seq<char>, image_url: Option<Seq<char>> },
}

impl View for RequestBody {
    type V = RequestBodyView;

    open spec fn view(&self) -> RequestBodyView {
        match *self {
            RequestBody::Empty => RequestBodyView::Empty,
            RequestBody::Credentials { email, password } => RequestBodyView::Credentials {
                email: email@,
                password: password@,
            },
            RequestBody::ProfileRow {
                id,
                date_of_birth,
                primary_skill,
                skill_to_learn,
                bio,
                role,
            } => RequestBodyView::ProfileRow {
                id: id@,
                date_of_birth: date_of_birth@,
                primary_skill: primary_skill@,
                skill_to_learn: skill_to_learn@,
                bio: bio@,
                role: role@,
            },
            RequestBody::ProfileFields {
                id,
                date_of_birth,
                primary_skill,
                skill_to_learn,
                bio,
            } => RequestBodyView::ProfileFields {
                id: id.value,
                date_of_birth: opt_text(date_of_birth),
                primary_skill: primary_skill@,
                skill_to_learn: skill_to_learn@,
                bio: bio@,
            },
            RequestBody::PictureUrl { profile_picture_url } => RequestBodyView::PictureUrl {
                profile_picture_url: opt_text(profile_picture_url),
            },
            RequestBody::NewPost { user_id, content, image_url } => RequestBodyView::NewPost {
                user_id: user_id.value,
                content: content@,
                image_url: opt_text(image_url),
            },
        }
    }
}

/// The characters of a list of name and value pairs.
pub open spec fn pairs_view(pairs: Seq<(String, String)>) -> Seq<(Seq<char>, Seq<char>)> {
    Seq::new(pairs.len(), |i: int| (pairs[i].0@, pairs[i].1@))
}

/// One request. Query pairs are given unencoded and follow the URL.
#[derive(Debug)]
pub struct BaasRequest {
    pub method: Method,
    pub url: String,
    pub headers: Vec<(String, String)>,
    pub query: Vec<(String, String)>,
    pub body: RequestBody,
}

/// The view of `BaasRequest`: its texts as sequences of characters.
pub struct BaasRequestView {
    pub method: Method,
    pub url: Seq<char>,
    pub headers: Seq<(Seq<char>, Seq<char>)>,
    pub query: Seq<(Seq<char>, Seq<char>)>,
    pub body: RequestBodyView,
}

impl View for BaasRequest {
    type V = BaasRequestView;

    open spec fn view(&self) -> BaasRequestView {
        BaasRequestView {
            method: self.method,
            url: self.url@,
            headers: pairs_view(self.headers@),
            query: pairs_view(self.query@),
            body: self.body@,
        }
    }
}

/// What came back: the status code, the status line as the HTTP client prints
/// it (code and reason), and the body text.
#[derive(Debug)]
pub struct BaasResponse {
    pub status: u16,
    pub status_text: String,
    pub body: String,
}

/// The view of `BaasResponse`: its texts as sequences of characters.
pub struct BaasResponseView {
    pub status: u16,
    pub status_text: Seq<char>,
    pub body: Seq<char>,
}

impl View for BaasResponse {
    type V = BaasResponseView;

    open spec fn view(&self) -> BaasResponseView {
        BaasResponseView { status: self.status, status_text: self.status_text@, body: self.body@ }
    }
}

/// A name and value pair.
pub fn pair(name: &str, value: &str) -> (r: (String, String))
    ensures
        r.0@ == name@,
        r.1@ == value@,
{
    (owned(name), owned(value))
}

/// The value of an `Authorization` header that carries `key` as bearer token.
pub open spec fn bearer(key: Seq<char>) -> Seq<char> {
    "Bearer "@ + key
}

/// The value of an `Authorization` header that carries `key` as bearer token.
pub fn bearer_value(key: &str) -> (r: String)
    ensures
        r@ == bearer(key@),
{
    join2("Bearer ", key)
}

/// The headers of a call made with the service role: the key as `apikey` and
/// as bearer token, then `extra`.
pub open spec fn service_headers(
    apikey: Seq<char>,
    service_key: Seq<char>,
    extra: Seq<(Seq<char>, Seq<char>)>,
) -> Seq<(Seq<char>, Seq<char>)> {
    seq![("apikey"@, apikey), ("Authorization"@, bearer(service_key))] + extra
}

} // verus!
