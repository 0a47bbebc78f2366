//! The calls to the auth backend and to its `profiles` table: what is asked,
//! and what each answer means.

use crate::dtos::{
    opt_text, result_view, CreatePersonalDTO, CreatePersonalView, LoginIn, LoginInView,
    PersonalDataOut, PersonalDataView, SessionOut, SessionView, SignupIn,
};
use crate::http::{
    bearer_value, pair, service_headers, BaasRequest, BaasRequestView, BaasResponse,
    BaasResponseView, Method, RequestBody, RequestBodyView,
};
use crate::ids::{uuid_of_text, uuid_text, Uuid};
use crate::json::{json_of_text, json_rows_of_text, parse_rows, Json};
use crate::reply::{is_success_status, success_status};
use crate::text::{
    join2, join4, owned, same_text, trim, trim_end_matches, trimmed, without_trailing,
};
use vstd::prelude::*;

verus! {

/// What can go wrong in a call to the backend.
#[derive(Debug)]
pub enum AuthError {
    /// The request did not go through; the text says why.
    Http(String),
    /// The backend answered, but not with what was asked for.
    Supabase(String),
    InvalidToken,
    /// An identifier in the answer is not a UUID.
    UuidError(uuid::Error),
    UserNotFound,
    ProfileNotFound,
    Other(String),
}

/// The view of `AuthError`: its texts as sequences of characters.
pub enum AuthErrorView {
    Http(Seq<char>),
    Supabase(Seq<char>),
    InvalidToken,
    UuidError,
    UserNotFound,
    ProfileNotFound,
    Other(Seq<char>),
}

impl View for AuthError {
    type V = AuthErrorView;

    open spec fn view(&self) -> AuthErrorView {
        match *self {
            AuthError::Http(s) => AuthErrorView::Http(s@),
            AuthError::Supabase(s) => AuthErrorView::Supabase(s@),
            AuthError::InvalidToken => AuthErrorView::InvalidToken,
            AuthError::UuidError(_) => AuthErrorView::UuidError,
            AuthError::UserNotFound => AuthErrorView::UserNotFound,
            AuthError::ProfileNotFound => AuthErrorView::ProfileNotFound,
            AuthError::Other(s) => AuthErrorView::Other(s@),
        }
    }
}

/// The line that describes an error.
pub open spec fn error_text(e: AuthErrorView) -> Seq<char> {
    match e {
        AuthErrorView::Http(s) => "http error: "@ + s,
        AuthErrorView::Supabase(s) => "supabase error: "@ + s,
        AuthErrorView::InvalidToken => "invalid token"@,
        AuthErrorView::UuidError => "parse uuid error"@,
        AuthErrorView::UserNotFound => "user not found"@,
        AuthErrorView::ProfileNotFound => "profile not found"@,
        AuthErrorView::Other(s) => "other: "@ + s,
    }
}

impl AuthError {
    /// The line that describes the error.
    pub fn message(&self) -> (r: String)
        ensures
            r@ == error_text(self@),
    {
        match self {
            AuthError::Http(s) => join2("http error: ", s.as_str()),
            AuthError::Supabase(s) => join2("supabase error: ", s.as_str()),
            AuthError::InvalidToken => owned("invalid token"),
            AuthError::UuidError(_) => owned("parse uuid error"),
            AuthError::UserNotFound => owned("user not found"),
            AuthError::ProfileNotFound => owned("profile not found"),
            AuthError::Other(s) => join2("other: ", s.as_str()),
        }
    }
}

/// Reads an identifier; a text that is none becomes `UuidError`.
pub fn parse_user_id(s: &str) -> (r: Result<Uuid, AuthError>)
    ensures
        result_view(r) == user_id_of(s@),
{
    match Uuid::parse_str(s) {
        Ok(id) => Ok(id),
        Err(e) => Err(AuthError::UuidError(e)),
    }
}

/// The identifier that a text names, or `UuidError`.
pub open spec fn user_id_of(s: Seq<char>) -> Result<u128, AuthErrorView> {
    match uuid_of_text(s) {
        Some(v) => Ok(v),
        None => Err(AuthErrorView::UuidError),
    }
}

/// `a` where it holds a value, else `b`.
pub open spec fn or_else(a: Option<Json>, b: Option<Json>) -> Option<Json> {
    if a is Some {
        a
    } else {
        b
    }
}

/// The base URL without trailing slashes.
pub open spec fn base_url(url: Seq<char>) -> Seq<char> {
    without_trailing(url, '/')
}

/// The address, keys and nothing else: what every call to the backend needs.
#[derive(Clone, Debug)]
pub struct AuthService {
    pub supabase_url: String,
    pub supabase_anon_key: String,
    pub supabase_service_role_key: String,
}

/// The view of `AuthService`: its texts as sequences of characters.
pub struct AuthServiceView {
    pub supabase_url: Seq<char>,
    pub supabase_anon_key: Seq<char>,
    pub supabase_service_role_key: Seq<char>,
}

impl View for AuthService {
    type V = AuthServiceView;

    open spec fn view(&self) -> AuthServiceView {
        AuthServiceView {
            supabase_url: self.supabase_url@,
            supabase_anon_key: self.supabase_anon_key@,
            supabase_service_role_key: self.supabase_service_role_key@,
        }
    }
}

/// The request that creates an account.
pub open spec fn signup_request(svc: AuthServiceView, email: Seq<char>, password: Seq<char>) -> BaasRequestView {
    BaasRequestView {
        method: Method::Post,
        url: base_url(svc.supabase_url) + "/auth/v1/signup"@,
        headers: seq![
            ("apikey"@, svc.supabase_anon_key),
            ("Content-Type"@, "application/json"@),
        ],
        query: seq![],
        body: RequestBodyView::Credentials { email: trimmed(email), password },
    }
}

/// The message of a failed call: what was attempted, the status line, the body.
pub open spec fn failure_text(what: Seq<char>, sep: Seq<char>, resp: BaasResponseView) -> Seq<char> {
    what + resp.status_text + sep + resp.body
}

/// The identifier in the answer to a signup, read from `user.id` or else from `id`.
pub open spec fn signup_user_id(doc: Json) -> Result<u128, AuthErrorView> {
    let nested = match doc.member("user"@) {
        Some(u) => u.member("id"@),
        None => None,
    };
    match or_else(nested, doc.member("id"@)) {
        Some(v) => match v.text() {
            Some(t) => user_id_of(t),
            None => Err(AuthErrorView::Supabase("signup returned no user id"@)),
        },
        None => Err(AuthErrorView::Supabase("signup returned no user id"@)),
    }
}

/// The reason that the backend gives for refusing a signup, if its answer has
/// a `msg` or `message` member.
pub open spec fn signup_refusal(body: Result<Json, String>) -> Option<Seq<char>> {
    match body {
        Ok(doc) => match or_else(doc.member("msg"@), doc.member("message"@)) {
            Some(m) => Some(
                match m.text() {
                    Some(t) => t,
                    None => "Signup failed"@,
                },
            ),
            None => None,
        },
        Err(_) => None,
    }
}

/// What the answer to a signup means, given what its body parses to.
pub open spec fn signup_outcome_with(resp: BaasResponseView, body: Result<Json, String>) -> Result<u128, AuthErrorView> {
    if !success_status(resp.status) {
        match signup_refusal(body) {
            Some(reason) => Err(AuthErrorView::Supabase(reason)),
            None => Err(AuthErrorView::Supabase(failure_text("signup failed: "@, " "@, resp))),
        }
    } else {
        match body {
            Err(e) => Err(AuthErrorView::Supabase("invalid json: "@ + e@)),
            Ok(doc) => signup_user_id(doc),
        }
    }
}

/// What the answer to a signup means.
pub open spec fn signup_outcome(resp: BaasResponseView) -> Result<u128, AuthErrorView> {
    signup_outcome_with(resp, json_of_text(resp.body))
}


/// The successful answer of the token endpoint, as far as it is read.
#[derive(Debug)]
pub struct TokenResponse {
    pub access_token: String,
    pub refresh_token: Option<String>,
    pub expires_in: Option<i64>,
    pub token_type: Option<String>,
    pub user: Option<TokenUser>,
}

/// The user object inside a token answer.
#[derive(Debug)]
pub struct TokenUser {
    pub id: String,
}

impl TokenResponse {
    /// The session that the answer carries.
    pub open spec fn session(self) -> SessionView {
        SessionView {
            access_token: self.access_token@,
            refresh_token: opt_text(self.refresh_token),
            expires_in: self.expires_in,
            token_type: opt_text(self.token_type),
        }
    }
}

/// The request that logs in with a password.
pub open spec fn login_request(svc: AuthServiceView, input: LoginInView) -> BaasRequestView {
    BaasRequestView {
        method: Method::Post,
        url: base_url(svc.supabase_url) + "/auth/v1/token?grant_type=password"@,
        headers: seq![
            ("apikey"@, svc.supabase_anon_key),
            ("Content-Type"@, "application/json"@),
        ],
        query: seq![],
        body: RequestBodyView::Credentials { email: input.email, password: input.password },
    }
}

/// What the answer to a login means, given what its body decodes to: only
/// status 200 with a user object whose `id` is a UUID is a login.
pub open spec fn login_outcome(
    resp: BaasResponseView,
    decoded: Result<TokenResponse, String>,
) -> Result<(SessionView, u128), AuthErrorView> {
    if resp.status != 200 {
        Err(AuthErrorView::Supabase(failure_text("login failed: "@, " "@, resp)))
    } else {
        match decoded {
            Err(e) => Err(AuthErrorView::Supabase("invalid json in login response: "@ + e@)),
            Ok(token) => match token.user {
                None => Err(AuthErrorView::Supabase("No user info in login response"@)),
                Some(user) => match uuid_of_text(user.id@) {
                    None => Err(AuthErrorView::UuidError),
                    Some(id) => Ok((token.session(), id)),
                },
            },
        }
    }
}

/// The view of what a login gives.
pub open spec fn login_view(r: Result<(SessionOut, Uuid), AuthError>) -> Result<
    (SessionView, u128),
    AuthErrorView,
> {
    match r {
        Ok((session, id)) => Ok((session@, id.value)),
        Err(e) => Err(e@),
    }
}

/// The request that writes a profile row, merging with the row that is there.
pub open spec fn add_personal_request(svc: AuthServiceView, user_id: u128, dto: CreatePersonalView) -> BaasRequestView {
    BaasRequestView {
        method: Method::Post,
        url: base_url(svc.supabase_url) + "/rest/v1/profiles"@,
        headers: service_headers(
            svc.supabase_service_role_key,
            svc.supabase_service_role_key,
            seq![
                ("Content-Type"@, "application/json"@),
                ("Prefer"@, "resolution=merge-duplicates,return=representation"@),
            ],
        ),
        query: seq![],
        body: RequestBodyView::ProfileRow {
            id: uuid_text(user_id),
            date_of_birth: dto.date_of_birth,
            primary_skill: dto.primary_skill,
            skill_to_learn: dto.skill_to_learn,
            bio: dto.bio,
            role: "user"@,
        },
    }
}

/// The text of a column, empty where the column is missing or no string.
pub open spec fn column_text(row: Json, key: Seq<char>) -> Seq<char> {
    match row.member_text(key) {
        Some(t) => t,
        None => Seq::empty(),
    }
}

/// The profile in a row of the `profiles` table. The row's `id` is both the
/// profile's and the user's identifier; `missing_id` is the complaint about a
/// row without one.
pub open spec fn profile_of_row(row: Json, missing_id: Seq<char>) -> Result<PersonalDataView, AuthErrorView> {
    match row.member_text("id"@) {
        None => Err(AuthErrorView::Supabase(missing_id)),
        Some(t) => match uuid_of_text(t) {
            None => Err(AuthErrorView::UuidError),
            Some(id) => Ok(
                PersonalDataView {
                    id,
                    user_id: id,
                    date_of_birth: column_text(row, "date_of_birth"@),
                    primary_skill: column_text(row, "primary_skill"@),
                    skill_to_learn: column_text(row, "skill_to_learn"@),
                    bio: column_text(row, "bio"@),
                    profile_picture_url: row.member_text("profile_picture_url"@),
                },
            ),
        },
    }
}

/// The first item of a document that is an array.
pub open spec fn first_row(doc: Json) -> Option<Json> {
    match doc.items() {
        Some(rows) => if rows.len() > 0 {
            Some(rows[0])
        } else {
            None
        },
        None => None,
    }
}

/// What the answer to a profile write means, given what its body parses to.
pub open spec fn add_personal_outcome_with(resp: BaasResponseView, body: Result<Json, String>) -> Result<PersonalDataView, AuthErrorView> {
    if !success_status(resp.status) {
        Err(AuthErrorView::Supabase(failure_text("add_personal failed: "@, " - Response: "@, resp)))
    } else {
        match body {
            Err(e) => Err(AuthErrorView::Supabase("invalid json: "@ + e@ + " - Body: "@ + resp.body)),
            Ok(doc) => match first_row(doc) {
                None => Err(
                    AuthErrorView::Supabase("invalid response from profiles upsert: "@ + resp.body),
                ),
                Some(row) => profile_of_row(row, "missing id in upsert response"@),
            },
        }
    }
}

/// What the answer to a profile write means: the stored profile, or why there
/// is none.
pub open spec fn add_personal_outcome(resp: BaasResponseView) -> Result<PersonalDataView, AuthErrorView> {
    add_personal_outcome_with(resp, json_of_text(resp.body))
}

/// The request that reads `columns` of one user's profile row.
pub open spec fn profile_query(svc: AuthServiceView, user_id: u128, columns: Seq<char>) -> BaasRequestView {
    BaasRequestView {
        method: Method::Get,
        url: base_url(svc.supabase_url) + "/rest/v1/profiles?id=eq."@ + uuid_text(user_id)
            + "&select="@ + columns,
        headers: service_headers(svc.supabase_anon_key, svc.supabase_service_role_key, seq![]),
        query: seq![],
        body: RequestBodyView::Empty,
    }
}

/// What the answer to a profile read means, given what its body parses to. An
/// empty array is no error: the user has no profile yet.
pub open spec fn get_profile_outcome_with(resp: BaasResponseView, body: Result<Json, String>) -> Result<Option<PersonalDataView>, AuthErrorView> {
    if !success_status(resp.status) {
        Err(AuthErrorView::Supabase(failure_text("get_user_profile failed: "@, " "@, resp)))
    } else {
        match body {
            Err(e) => Err(AuthErrorView::Supabase("invalid json: "@ + e@)),
            Ok(doc) => match doc.items() {
                None => Err(AuthErrorView::Supabase("expected array response"@)),
                Some(rows) => if rows.len() == 0 {
                    Ok(None)
                } else {
                    match profile_of_row(rows[0], "missing id in profile response"@) {
                        Ok(p) => Ok(Some(p)),
                        Err(e) => Err(e),
                    }
                },
            },
        }
    }
}

/// What the answer to a profile read means.
pub open spec fn get_profile_outcome(resp: BaasResponseView) -> Result<Option<PersonalDataView>, AuthErrorView> {
    get_profile_outcome_with(resp, json_of_text(resp.body))
}

/// The view of what a profile read gives.
pub open spec fn found_profile_view(r: Result<Option<PersonalDataOut>, AuthError>) -> Result<
    Option<PersonalDataView>,
    AuthErrorView,
> {
    match r {
        Ok(Some(p)) => Ok(Some(p@)),
        Ok(None) => Ok(None),
        Err(e) => Err(e@),
    }
}

/// What the answer to a role read means, given what its body parses to:
/// whether the first row's `role` is `user`.
pub open spec fn role_outcome_with(resp: BaasResponseView, body: Result<Json, String>) -> Result<bool, AuthErrorView> {
    if !success_status(resp.status) {
        Err(AuthErrorView::Supabase(failure_text("is_role_user failed: "@, " "@, resp)))
    } else {
        match body {
            Err(e) => Err(AuthErrorView::Supabase("invalid json: "@ + e@)),
            Ok(doc) => Ok(
                match first_row(doc) {
                    Some(row) => row.member_text("role"@) == Some("user"@),
                    None => false,
                },
            ),
        }
    }
}

/// What the answer to a role read means.
pub open spec fn role_outcome(resp: BaasResponseView) -> Result<bool, AuthErrorView> {
    role_outcome_with(resp, json_of_text(resp.body))
}

/// The view of what a role read gives.
pub open spec fn flag_view(r: Result<bool, AuthError>) -> Result<bool, AuthErrorView> {
    match r {
        Ok(b) => Ok(b),
        Err(e) => Err(e@),
    }
}

/// The request that sets, or with `None` clears, a profile's picture URL.
pub open spec fn picture_request(svc: AuthServiceView, user_id: u128, url: Option<Seq<char>>) -> BaasRequestView {
    BaasRequestView {
        method: Method::Patch,
        url: svc.supabase_url + "/rest/v1/profiles"@,
        headers: service_headers(
            svc.supabase_service_role_key,
            svc.supabase_service_role_key,
            seq![("Content-Type"@, "application/json"@), ("Prefer"@, "return=minimal"@)],
        ),
        query: seq![("id"@, "eq."@ + uuid_text(user_id))],
        body: RequestBodyView::PictureUrl { profile_picture_url: url },
    }
}

/// The request that reads one user's row of the `personals` table.
pub open spec fn personals_request(svc: AuthServiceView, user_id: u128) -> BaasRequestView {
    BaasRequestView {
        method: Method::Get,
        url: svc.supabase_url + "/rest/v1/personals"@,
        headers: service_headers(svc.supabase_anon_key, svc.supabase_service_role_key, seq![]),
        query: seq![("user_id"@, "eq."@ + uuid_text(user_id)), ("select"@, "*"@)],
        body: RequestBodyView::Empty,
    }
}

/// What the rows of the answer to a read of the `personals` table mean, given
/// what the decoder makes of the first row's `id` and `user_id`: the profile
/// in the first row with these identifiers and the row's columns, none for an
/// empty array, or the first complaint.
pub open spec fn personals_outcome_with(
    resp: BaasResponseView,
    rows: Result<Vec<Json>, String>,
    id: Result<Uuid, String>,
    user_id: Result<Uuid, String>,
) -> Result<Option<PersonalDataView>, Seq<char>> {
    if !success_status(resp.status) {
        Err("Failed to fetch profile: "@ + resp.status_text)
    } else {
        match rows {
            Err(e) => Err(e@),
            Ok(rows) => if rows@.len() == 0 {
                Ok(None)
            } else {
                match id {
                    Err(e) => Err(e@),
                    Ok(id) => match user_id {
                        Err(e) => Err(e@),
                        Ok(user_id) => Ok(
                            Some(
                                PersonalDataView {
                                    id: id.value,
                                    user_id: user_id.value,
                                    date_of_birth: column_text(rows@[0], "date_of_birth"@),
                                    primary_skill: column_text(rows@[0], "primary_skill"@),
                                    skill_to_learn: column_text(rows@[0], "skill_to_learn"@),
                                    bio: column_text(rows@[0], "bio"@),
                                    profile_picture_url: rows@[0].member_text(
                                        "profile_picture_url"@,
                                    ),
                                },
                            ),
                        ),
                    },
                }
            },
        }
    }
}

/// The view of what a read of the `personals` table gives.
pub open spec fn picture_profile_view(r: Result<Option<PersonalDataOut>, String>) -> Result<
    Option<PersonalDataView>,
    Seq<char>,
> {
    match r {
        Ok(Some(p)) => Ok(Some(p@)),
        Ok(None) => Ok(None),
        Err(e) => Err(e@),
    }
}

/// The first item of an array document.
fn first_item(doc: &Json) -> (r: Option<&Json>)
    ensures
        match r {
            Some(row) => first_row(*doc) == Some(*row),
            None => first_row(*doc) is None,
        },
{
    match doc.as_array() {
        Some(rows) => if rows.len() > 0 {
            Some(&rows[0])
        } else {
            None
        },
        None => None,
    }
}

/// The text of a column, empty where the column is missing or no string.
pub fn column(row: &Json, key: &str) -> (r: String)
    ensures
        r@ == column_text(*row, key@),
{
    match row.get_str(key) {
        Some(t) => owned(t),
        None => String::new(),
    }
}

/// The profile in a row of the `profiles` table.
pub fn profile_from_row(row: &Json, missing_id: &str) -> (r: Result<PersonalDataOut, AuthError>)
    ensures
        result_view(r) == profile_of_row(*row, missing_id@),
{
    let id_text = match row.get_str("id") {
        Some(t) => t,
        None => {
            return Err(AuthError::Supabase(owned(missing_id)));
        },
    };
    let id = match Uuid::parse_str(id_text) {
        Ok(id) => id,
        Err(e) => {
            return Err(AuthError::UuidError(e));
        },
    };
    let picture = match row.get_str("profile_picture_url") {
        Some(t) => Some(owned(t)),
        None => None,
    };
    Ok(
        PersonalDataOut {
            id,
            user_id: id,
            date_of_birth: column(row, "date_of_birth"),
            primary_skill: column(row, "primary_skill"),
            skill_to_learn: column(row, "skill_to_learn"),
            bio: column(row, "bio"),
            profile_picture_url: picture,
        },
    )
}

impl AuthService {
    /// A service for the backend at `supabase_url`, with its two keys. All
    /// three are required, and are trimmed.
    pub fn new(supabase_url: &str, supabase_anon_key: &str, supabase_service_role_key: &str) -> (r: AuthService)
        ensures
            r.supabase_url@ == trimmed(supabase_url@),
            r.supabase_anon_key@ == trimmed(supabase_anon_key@),
            r.supabase_service_role_key@ == trimmed(supabase_service_role_key@),
    {
        AuthService {
            supabase_url: trim(supabase_url),
            supabase_anon_key: trim(supabase_anon_key),
            supabase_service_role_key: trim(supabase_service_role_key),
        }
    }

    /// The request that creates an account for `input`.
    pub fn signup_only_request(&self, input: &SignupIn) -> (r: BaasRequest)
        ensures
            r@ == signup_request(self@, input.email@, input.password@),
    {
        let base = trim_end_matches(self.supabase_url.as_str(), '/');
        let headers = vec![
            pair("apikey", self.supabase_anon_key.as_str()),
            pair("Content-Type", "application/json"),
        ];
        let r = BaasRequest {
            method: Method::Post,
            url: join2(base.as_str(), "/auth/v1/signup"),
            headers,
            query: Vec::new(),
            body: RequestBody::Credentials {
                email: trim(input.email.as_str()),
                password: input.password.clone(),
            },
        };
        assert(r@.headers =~= signup_request(self@, input.email@, input.password@).headers);
        assert(r@.query =~= signup_request(self@, input.email@, input.password@).query);
        r
    }

    /// What the parsed body of a signup answer means.
    pub fn signup_only_outcome_with(resp: &BaasResponse, body: &Result<Json, String>) -> (r: Result<Uuid, AuthError>)
        ensures
            result_view(r) == signup_outcome_with(resp@, *body),
    {
        if !is_success_status(resp.status) {
            if let Ok(doc) = body {
                let found = match doc.get("msg") {
                    Some(m) => Some(m),
                    None => doc.get("message"),
                };
                if let Some(m) = found {
                    let reason = match m.as_str() {
                        Some(t) => owned(t),
                        None => owned("Signup failed"),
                    };
                    return Err(AuthError::Supabase(reason));
                }
            }
            return Err(
                AuthError::Supabase(
                    join4("signup failed: ", resp.status_text.as_str(), " ", resp.body.as_str()),
                ),
            );
        }
        match body {
            Err(e) => Err(AuthError::Supabase(join2("invalid json: ", e.as_str()))),
            Ok(doc) => {
                let nested = match doc.get("user") {
                    Some(u) => u.get("id"),
                    None => None,
                };
                let found = match nested {
                    Some(v) => Some(v),
                    None => doc.get("id"),
                };
                let text = match found {
                    Some(v) => v.as_str(),
                    None => None,
                };
                match text {
                    Some(t) => parse_user_id(t),
                    None => Err(AuthError::Supabase(owned("signup returned no user id"))),
                }
            },
        }
    }

    /// What the answer to a signup means: the new user's identifier, or why
    /// there is none.
    pub fn signup_only_outcome(resp: &BaasResponse) -> (r: Result<Uuid, AuthError>)
        ensures
            result_view(r) == signup_outcome(resp@),
    {
        let body = Json::parse(resp.body.as_str());
        Self::signup_only_outcome_with(resp, &body)
    }

    /// The request that logs `input` in.
    pub fn login_with_user_id_request(&self, input: &LoginIn) -> (r: BaasRequest)
        ensures
            r@ == login_request(self@, input@),
    {
        let base = trim_end_matches(self.supabase_url.as_str(), '/');
        let headers = vec![
            pair("apikey", self.supabase_anon_key.as_str()),
            pair("Content-Type", "application/json"),
        ];
        let r = BaasRequest {
            method: Method::Post,
            url: join2(base.as_str(), "/auth/v1/token?grant_type=password"),
            headers,
            query: Vec::new(),
            body: RequestBody::Credentials {
                email: input.email.clone(),
                password: input.password.clone(),
            },
        };
        assert(r@.headers =~= login_request(self@, input@).headers);
        assert(r@.query =~= login_request(self@, input@).query);
        r
    }

    /// What the answer to a login means: the session and the user's
    /// identifier, which is read from the answer's user object and not from
    /// the token.
    pub fn login_with_user_id_outcome(resp: &BaasResponse, decoded: Result<TokenResponse, String>) -> (r: Result<(SessionOut, Uuid), AuthError>)
        ensures
            login_view(r) == login_outcome(resp@, decoded),
    {
        if resp.status != 200 {
            return Err(
                AuthError::Supabase(
                    join4("login failed: ", resp.status_text.as_str(), " ", resp.body.as_str()),
                ),
            );
        }
        let token = match decoded {
            Ok(token) => token,
            Err(e) => {
                return Err(
                    AuthError::Supabase(join2("invalid json in login response: ", e.as_str())),
                );
            },
        };
        let user_id = match &token.user {
            Some(user) => match Uuid::parse_str(user.id.as_str()) {
                Ok(id) => id,
                Err(e) => {
                    return Err(AuthError::UuidError(e));
                },
            },
            None => {
                return Err(AuthError::Supabase(owned("No user info in login response")));
            },
        };
        let session = SessionOut {
            access_token: token.access_token,
            refresh_token: token.refresh_token,
            expires_in: token.expires_in,
            token_type: token.token_type,
        };
        Ok((session, user_id))
    }

    /// What the answer to a login means, for a caller that wants the session only.
    pub fn login_sb_outcome(resp: &BaasResponse, decoded: Result<TokenResponse, String>) -> (r: Result<SessionOut, AuthError>)
        ensures
            result_view(r) == match login_outcome(resp@, decoded) {
                Ok((session, _)) => Ok(session),
                Err(e) => Err(e),
            },
    {
        match Self::login_with_user_id_outcome(resp, decoded) {
            Ok((session, _)) => Ok(session),
            Err(e) => Err(e),
        }
    }

    /// The request that writes the profile row of `user_id`.
    pub fn add_personal_sb_request(&self, user_id: Uuid, dto: &CreatePersonalDTO) -> (r: BaasRequest)
        ensures
            r@ == add_personal_request(self@, user_id.value, dto@),
    {
        let base = trim_end_matches(self.supabase_url.as_str(), '/');
        let key = self.supabase_service_role_key.as_str();
        let headers = vec![
            pair("apikey", key),
            (owned("Authorization"), bearer_value(key)),
            pair("Content-Type", "application/json"),
            pair("Prefer", "resolution=merge-duplicates,return=representation"),
        ];
        let r = BaasRequest {
            method: Method::Post,
            url: join2(base.as_str(), "/rest/v1/profiles"),
            headers,
            query: Vec::new(),
            body: RequestBody::ProfileRow {
                id: user_id.to_text(),
                date_of_birth: dto.date_of_birth.clone(),
                primary_skill: dto.primary_skill.clone(),
                skill_to_learn: dto.skill_to_learn.clone(),
                bio: dto.bio.clone(),
                role: owned("user"),
            },
        };
        assert(r@.headers =~= add_personal_request(self@, user_id.value, dto@).headers);
        assert(r@.query =~= add_personal_request(self@, user_id.value, dto@).query);
        r
    }

    /// What the parsed body of the answer to a profile write means.
    pub fn add_personal_sb_outcome_with(resp: &BaasResponse, body: &Result<Json, String>) -> (r: Result<PersonalDataOut, AuthError>)
        ensures
            result_view(r) == add_personal_outcome_with(resp@, *body),
    {
        if !is_success_status(resp.status) {
            return Err(
                AuthError::Supabase(
                    join4(
                        "add_personal failed: ",
                        resp.status_text.as_str(),
                        " - Response: ",
                        resp.body.as_str(),
                    ),
                ),
            );
        }
        match body {
            Err(e) => Err(
                AuthError::Supabase(
                    join4("invalid json: ", e.as_str(), " - Body: ", resp.body.as_str()),
                ),
            ),
            Ok(doc) => match first_item(doc) {
                None => Err(
                    AuthError::Supabase(
                        join2("invalid response from profiles upsert: ", resp.body.as_str()),
                    ),
                ),
                Some(row) => profile_from_row(row, "missing id in upsert response"),
            },
        }
    }

    /// What the answer to a profile write means: the stored profile, or why
    /// there is none.
    pub fn add_personal_sb_outcome(resp: &BaasResponse) -> (r: Result<PersonalDataOut, AuthError>)
        ensures
            result_view(r) == add_personal_outcome(resp@),
    {
        let body = Json::parse(resp.body.as_str());
        Self::add_personal_sb_outcome_with(resp, &body)
    }

    /// The request that reads `columns` of the profile row of `user_id`.
    fn profile_query_request(&self, user_id: Uuid, columns: &str) -> (r: BaasRequest)
        ensures
            r@ == profile_query(self@, user_id.value, columns@),
    {
        let base = trim_end_matches(self.supabase_url.as_str(), '/');
        let id = user_id.to_text();
        let url = join4(base.as_str(), "/rest/v1/profiles?id=eq.", id.as_str(), "&select=");
        let headers = vec![
            pair("apikey", self.supabase_anon_key.as_str()),
            (owned("Authorization"), bearer_value(self.supabase_service_role_key.as_str())),
        ];
        let r = BaasRequest {
            method: Method::Get,
            url: join2(url.as_str(), columns),
            headers,
            query: Vec::new(),
            body: RequestBody::Empty,
        };
        assert(r@.headers =~= profile_query(self@, user_id.value, columns@).headers);
        assert(r@.query =~= profile_query(self@, user_id.value, columns@).query);
        r
    }

    /// The request that reads the profile of `user_id`.
    pub fn get_user_profile_request(&self, user_id: Uuid) -> (r: BaasRequest)
        ensures
            r@ == profile_query(self@, user_id.value, "*"@),
    {
        self.profile_query_request(user_id, "*")
    }

    /// What the parsed body of the answer to a profile read means.
    pub fn get_user_profile_outcome_with(resp: &BaasResponse, body: &Result<Json, String>) -> (r: Result<Option<PersonalDataOut>, AuthError>)
        ensures
            found_profile_view(r) == get_profile_outcome_with(resp@, *body),
    {
        if !is_success_status(resp.status) {
            return Err(
                AuthError::Supabase(
                    join4(
                        "get_user_profile failed: ",
                        resp.status_text.as_str(),
                        " ",
                        resp.body.as_str(),
                    ),
                ),
            );
        }
        let doc = match body {
            Ok(doc) => doc,
            Err(e) => {
                return Err(AuthError::Supabase(join2("invalid json: ", e.as_str())));
            },
        };
        let rows = match doc.as_array() {
            Some(rows) => rows,
            None => {
                return Err(AuthError::Supabase(owned("expected array response")));
            },
        };
        if rows.len() == 0 {
            return Ok(None);
        }
        match profile_from_row(&rows[0], "missing id in profile response") {
            Ok(p) => Ok(Some(p)),
            Err(e) => Err(e),
        }
    }

    /// What the answer to a profile read means: the profile, none where the
    /// user has not completed one, or an error.
    pub fn get_user_profile_outcome(resp: &BaasResponse) -> (r: Result<Option<PersonalDataOut>, AuthError>)
        ensures
            found_profile_view(r) == get_profile_outcome(resp@),
    {
        let body = Json::parse(resp.body.as_str());
        Self::get_user_profile_outcome_with(resp, &body)
    }

    /// The request that reads the role of `user_id`.
    pub fn is_role_user_request(&self, user_id: Uuid) -> (r: BaasRequest)
        ensures
            r@ == profile_query(self@, user_id.value, "role"@),
    {
        self.profile_query_request(user_id, "role")
    }

    /// What the parsed body of the answer to a role read means.
    pub fn is_role_user_outcome_with(resp: &BaasResponse, body: &Result<Json, String>) -> (r: Result<bool, AuthError>)
        ensures
            flag_view(r) == role_outcome_with(resp@, *body),
    {
        if !is_success_status(resp.status) {
            return Err(
                AuthError::Supabase(
                    join4("is_role_user failed: ", resp.status_text.as_str(), " ", resp.body.as_str()),
                ),
            );
        }
        match body {
            Err(e) => Err(AuthError::Supabase(join2("invalid json: ", e.as_str()))),
            Ok(doc) => {
                let role = match first_item(doc) {
                    Some(row) => row.get_str("role"),
                    None => None,
                };
                Ok(
                    match role {
                        Some(t) => same_text(t, "user"),
                        None => false,
                    },
                )
            },
        }
    }

    /// What the answer to a role read means: whether the user's role is `user`.
    pub fn is_role_user_outcome(resp: &BaasResponse) -> (r: Result<bool, AuthError>)
        ensures
            flag_view(r) == role_outcome(resp@),
    {
        let body = Json::parse(resp.body.as_str());
        Self::is_role_user_outcome_with(resp, &body)
    }

    /// The request that stores `profile_picture_url` for `user_id`.
    pub fn update_profile_picture_request(&self, user_id: Uuid, profile_picture_url: Option<String>) -> (r: BaasRequest)
        ensures
            r@ == picture_request(self@, user_id.value, opt_text(profile_picture_url)),
    {
        let key = self.supabase_service_role_key.as_str();
        let id = user_id.to_text();
        let headers = vec![
            pair("apikey", key),
            (owned("Authorization"), bearer_value(key)),
            pair("Content-Type", "application/json"),
            pair("Prefer", "return=minimal"),
        ];
        let query = vec![(owned("id"), join2("eq.", id.as_str()))];
        let r = BaasRequest {
            method: Method::Patch,
            url: join2(self.supabase_url.as_str(), "/rest/v1/profiles"),
            headers,
            query,
            body: RequestBody::PictureUrl { profile_picture_url },
        };
        assert(r@.headers =~= picture_request(self@, user_id.value, opt_text(profile_picture_url)).headers);
        assert(r@.query =~= picture_request(self@, user_id.value, opt_text(profile_picture_url)).query);
        r
    }

    /// What the answer to a picture update means: done, or the complaint.
    pub fn update_profile_picture_outcome(resp: &BaasResponse) -> (r: Result<(), String>)
        ensures
            match r {
                Ok(_) => success_status(resp.status),
                Err(e) => !success_status(resp.status) && e@ == failure_text(
                    "Failed to update profile picture: "@,
                    " - "@,
                    resp@,
                ),
            },
    {
        if !is_success_status(resp.status) {
            return Err(
                join4(
                    "Failed to update profile picture: ",
                    resp.status_text.as_str(),
                    " - ",
                    resp.body.as_str(),
                ),
            );
        }
        Ok(())
    }

    /// The request that reads the `personals` row of `user_id`.
    pub fn get_user_profile_with_picture_request(&self, user_id: Uuid) -> (r: BaasRequest)
        ensures
            r@ == personals_request(self@, user_id.value),
    {
        let id = user_id.to_text();
        let headers = vec![
            pair("apikey", self.supabase_anon_key.as_str()),
            (owned("Authorization"), bearer_value(self.supabase_service_role_key.as_str())),
        ];
        let query = vec![(owned("user_id"), join2("eq.", id.as_str())), pair("select", "*")];
        let r = BaasRequest {
            method: Method::Get,
            url: join2(self.supabase_url.as_str(), "/rest/v1/personals"),
            headers,
            query,
            body: RequestBody::Empty,
        };
        assert(r@.headers =~= personals_request(self@, user_id.value).headers);
        assert(r@.query =~= personals_request(self@, user_id.value).query);
        r
    }

    /// What the rows of the answer to a read of the `personals` table mean.
    /// `id` and `user_id` are what the JSON decoder makes of the first row's
    /// members of these names: an identifier, or its complaint. They are
    /// looked at only where there is a first row.
    pub fn get_user_profile_with_picture_outcome_with(
        resp: &BaasResponse,
        rows: &Result<Vec<Json>, String>,
        id: Result<Uuid, String>,
        user_id: Result<Uuid, String>,
    ) -> (r: Result<Option<PersonalDataOut>, String>)
        ensures
            picture_profile_view(r) == personals_outcome_with(resp@, *rows, id, user_id),
    {
        if !is_success_status(resp.status) {
            return Err(join2("Failed to fetch profile: ", resp.status_text.as_str()));
        }
        let rows = match rows {
            Ok(rows) => rows,
            Err(e) => {
                return Err(e.clone());
            },
        };
        if rows.len() == 0 {
            return Ok(None);
        }
        let row = &rows[0];
        let id = match id {
            Ok(id) => id,
            Err(e) => {
                return Err(e);
            },
        };
        let user_id = match user_id {
            Ok(user_id) => user_id,
            Err(e) => {
                return Err(e);
            },
        };
        let picture = match row.get_str("profile_picture_url") {
            Some(t) => Some(owned(t)),
            None => None,
        };
        Ok(
            Some(
                PersonalDataOut {
                    id,
                    user_id,
                    date_of_birth: column(row, "date_of_birth"),
                    primary_skill: column(row, "primary_skill"),
                    skill_to_learn: column(row, "skill_to_learn"),
                    bio: column(row, "bio"),
                    profile_picture_url: picture,
                },
            ),
        )
    }

    /// What the answer to a read of the `personals` table means: the profile
    /// in its first row, none for an empty array, or the complaint.
    pub fn get_user_profile_with_picture_outcome(
        resp: &BaasResponse,
        id: Result<Uuid, String>,
        user_id: Result<Uuid, String>,
    ) -> (r: Result<Option<PersonalDataOut>, String>)
        ensures
            picture_profile_view(r) == personals_outcome_with(
                resp@,
                json_rows_of_text(resp.body@),
                id,
                user_id,
            ),
    {
        let rows = parse_rows(resp.body.as_str());
        Self::get_user_profile_with_picture_outcome_with(resp, &rows, id, user_id)
    }
}

} // verus!
