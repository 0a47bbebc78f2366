//! The `profiles` table behind the backend's REST interface: one request per
//! operation, and what each answer means.

use crate::dtos::{CreatePersonalDTO, CreatePersonalView};
use crate::http::{
    bearer, bearer_value, pair, BaasRequest, BaasRequestView, BaasResponse, BaasResponseView,
    Method, RequestBody, RequestBodyView,
};
use crate::ids::{uuid_text, Uuid};
use crate::json::{json_rows_of_text, parse_rows, Json};
use crate::personal::Personal;
use crate::reply::{is_success_status, success_status};
use crate::text::{
    decimal, decimal_text, ends_with, join2, join3, join4, owned, trim_end_matches,
    without_trailing,
};
use vstd::prelude::*;
use vstd::utf8::encode_utf8;

verus! {

/// Whether a byte stands for itself in a percent-encoded text: letters,
/// digits, `-`, `.`, `_` and `~`.
pub open spec fn unreserved(b: u8) -> bool {
    ||| 0x30 <= b <= 0x39
    ||| 0x41 <= b <= 0x5a
    ||| 0x61 <= b <= 0x7a
    ||| b == 0x2d
    ||| b == 0x2e
    ||| b == 0x5f
    ||| b == 0x7e
}

/// The upper-case hexadecimal digit for a value below sixteen.
pub open spec fn hex_upper(d: u8) -> char {
    if d < 10 {
        (0x30 + d) as u8 as char
    } else {
        (0x41 + d - 10) as u8 as char
    }
}

/// One byte, percent-encoded.
pub open spec fn encoded_byte(b: u8) -> Seq<char> {
    if unreserved(b) {
        seq![b as char]
    } else {
        seq!['%', hex_upper(b / 16), hex_upper(b % 16)]
    }
}

/// Bytes, percent-encoded one after the other.
pub open spec fn percent_encoded_bytes(bytes: Seq<u8>) -> Seq<char>
    decreases bytes.len(),
{
    if bytes.len() == 0 {
        Seq::empty()
    } else {
        encoded_byte(bytes[0]) + percent_encoded_bytes(bytes.drop_first())
    }
}

/// A text, percent-encoded byte by byte in its UTF-8 form.
pub open spec fn percent_encoded(s: Seq<char>) -> Seq<char> {
    percent_encoded_bytes(encode_utf8(s))
}

/// Whether a character stands for itself in a percent-encoded text.
pub open spec fn plain_char(c: char) -> bool {
    '\0' <= c <= '\u{7f}' && unreserved(c as u8)
}

proof fn lemma_plain_bytes(bytes: Seq<u8>, s: Seq<char>)
    requires
        bytes.len() == s.len(),
        forall|i: int| 0 <= i < s.len() ==> plain_char(#[trigger] s[i]) && bytes[i] == s[i] as u8,
    ensures
        percent_encoded_bytes(bytes) == s,
    decreases bytes.len(),
{
    if bytes.len() > 0 {
        assert(plain_char(s[0]));
        lemma_plain_bytes(bytes.drop_first(), s.drop_first());
        assert(encoded_byte(bytes[0]) == seq![s[0]]);
        assert(seq![s[0]] + s.drop_first() == s);
    } else {
        assert(s == Seq::<char>::empty());
    }
}

/// A text of letters, digits, `-`, `.`, `_` and `~` is its own percent-encoded
/// form.
pub proof fn lemma_percent_encoded_plain(s: Seq<char>)
    requires
        forall|i: int| 0 <= i < s.len() ==> plain_char(#[trigger] s[i]),
    ensures
        percent_encoded(s) == s,
{
    assert(vstd::utf8::is_ascii_chars(s));
    vstd::utf8::is_ascii_chars_encode_utf8(s);
    lemma_plain_bytes(encode_utf8(s), s);
}

/// The text of an identifier is its own percent-encoded form.
pub proof fn lemma_percent_encoded_uuid(s: Seq<char>)
    requires
        crate::ids::uuid_shaped(s),
    ensures
        percent_encoded(s) == s,
{
    assert forall|i: int| 0 <= i < s.len() implies plain_char(#[trigger] s[i]) by {
        assert(crate::ids::uuid_char(s[i]));
    }
    lemma_percent_encoded_plain(s);
}

/// `urlencoding::encode`: every byte of the text but letters, digits, `-`,
/// `.`, `_` and `~` becomes `%` and two upper-case hexadecimal digits.
#[verifier::external_body]
fn percent_encode(s: &str) -> (r: String)
    ensures
        r@ == percent_encoded(s@),
{
    urlencoding::encode(s).into_owned()
}

/// What can go wrong in a call to the `profiles` table.
#[derive(Debug)]
pub enum RepoError {
    /// The request did not go through; the text says why.
    Http(String),
    /// The answer's body is not what it should be; the text says why.
    Serde(String),
    /// The backend answered with a failure status.
    Supabase(String),
    NotFound,
    Other(String),
}

/// The view of `RepoError`: its texts as sequences of characters.
pub enum RepoErrorView {
    Http(Seq<char>),
    Serde(Seq<char>),
    Supabase(Seq<char>),
    NotFound,
    Other(Seq<char>),
}

impl View for RepoError {
    type V = RepoErrorView;

    open spec fn view(&self) -> RepoErrorView {
        match *self {
            RepoError::Http(s) => RepoErrorView::Http(s@),
            RepoError::Serde(s) => RepoErrorView::Serde(s@),
            RepoError::Supabase(s) => RepoErrorView::Supabase(s@),
            RepoError::NotFound => RepoErrorView::NotFound,
            RepoError::Other(s) => RepoErrorView::Other(s@),
        }
    }
}

/// The line that describes an error.
pub open spec fn repo_error_text(e: RepoErrorView) -> Seq<char> {
    match e {
        RepoErrorView::Http(s) => "http error: "@ + s,
        RepoErrorView::Serde(s) => "serde error: "@ + s,
        RepoErrorView::Supabase(s) => "supabase error: "@ + s,
        RepoErrorView::NotFound => "not found"@,
        RepoErrorView::Other(s) => "other: "@ + s,
    }
}

impl RepoError {
    /// The line that describes the error.
    pub fn message(&self) -> (r: String)
        ensures
            r@ == repo_error_text(self@),
    {
        match self {
            RepoError::Http(s) => join2("http error: ", s.as_str()),
            RepoError::Serde(s) => join2("serde error: ", s.as_str()),
            RepoError::Supabase(s) => join2("supabase error: ", s.as_str()),
            RepoError::NotFound => owned("not found"),
            RepoError::Other(s) => join2("other: ", s.as_str()),
        }
    }
}

/// The REST root under a backend address: the address itself where it ends in
/// `/rest/v1`, else the address with `/rest/v1` added; trailing slashes go.
pub open spec fn rest_root(supabase_url: Seq<char>) -> Seq<char> {
    if "/rest/v1"@.is_suffix_of(supabase_url) {
        without_trailing(supabase_url, '/')
    } else {
        without_trailing(supabase_url, '/') + "/rest/v1"@
    }
}

/// The complaint about a failure status: the code, an arrow, the body.
pub open spec fn refusal(resp: BaasResponseView) -> RepoErrorView {
    RepoErrorView::Supabase(decimal(resp.status as nat) + " -> "@ + resp.body)
}

fn refused(resp: &BaasResponse) -> (r: RepoError)
    ensures
        r@ == refusal(resp@),
{
    let code = decimal_text(resp.status as u64);
    RepoError::Supabase(join3(code.as_str(), " -> ", resp.body.as_str()))
}

/// Access to the `profiles` table with the service role.
#[derive(Clone, Debug)]
pub struct ProfileSupabaseRepo {
    base_rest_url: String,
    service_role_key: String,
    anon_key: Option<String>,
}

/// The view of `ProfileSupabaseRepo`: its texts as sequences of characters.
pub struct ProfileRepoView {
    pub base_rest_url: Seq<char>,
    pub service_role_key: Seq<char>,
    pub anon_key: Option<Seq<char>>,
}

impl View for ProfileSupabaseRepo {
    type V = ProfileRepoView;

    closed spec fn view(&self) -> ProfileRepoView {
        ProfileRepoView {
            base_rest_url: self.base_rest_url@,
            service_role_key: self.service_role_key@,
            anon_key: crate::dtos::opt_text(self.anon_key),
        }
    }
}

/// The address of the table.
pub open spec fn table_url(repo: ProfileRepoView) -> Seq<char> {
    without_trailing(repo.base_rest_url, '/') + "/profiles"@
}

/// The headers of every call: the content type, the anonymous key as
/// `apikey` where there is one, and the service key as bearer token.
pub open spec fn repo_headers(repo: ProfileRepoView) -> Seq<(Seq<char>, Seq<char>)> {
    let first = seq![("Content-Type"@, "application/json"@)];
    let key = match repo.anon_key {
        Some(k) => seq![("apikey"@, k)],
        None => seq![],
    };
    first + key + seq![("Authorization"@, bearer(repo.service_role_key))]
}

/// The address of the rows of `user_id`, with `tail` behind the filter. The
/// identifier stands there as it is: percent-encoding leaves it unchanged.
pub open spec fn row_url(repo: ProfileRepoView, user_id: u128, tail: Seq<char>) -> Seq<char> {
    table_url(repo) + "?id=eq."@ + uuid_text(user_id) + tail
}

/// The request that writes a profile row, merging with the row that is there.
pub open spec fn repo_upsert_request(repo: ProfileRepoView, user_id: u128, dto: CreatePersonalView) -> BaasRequestView {
    BaasRequestView {
        method: Method::Post,
        url: table_url(repo),
        headers: repo_headers(repo) + seq![
            ("Prefer"@, "resolution=merge-duplicates,return=representation"@),
        ],
        query: seq![],
        body: RequestBodyView::ProfileRow {
            id: uuid_text(user_id),
            date_of_birth: dto.date_of_birth,
            primary_skill: dto.primary_skill,
            skill_to_learn: dto.skill_to_learn,
            bio: dto.bio,
            role: "user"@,
        },
    }
}

/// A request on the rows of one user.
pub open spec fn repo_row_request(repo: ProfileRepoView, method: Method, user_id: u128, tail: Seq<char>, extra: Seq<(Seq<char>, Seq<char>)>) -> BaasRequestView {
    BaasRequestView {
        method,
        url: row_url(repo, user_id, tail),
        headers: repo_headers(repo) + extra,
        query: seq![],
        body: RequestBodyView::Empty,
    }
}

/// What the answer to a write means, given what its first row decodes to
/// (nothing where the body is an empty array; the decoder's complaint where
/// the body is no array or the row no profile).
pub open spec fn repo_upsert_outcome(resp: BaasResponseView, decoded: Result<Option<Personal>, String>) -> Result<Personal, RepoErrorView> {
    if !success_status(resp.status) {
        Err(refusal(resp))
    } else {
        match decoded {
            Err(e) => Err(RepoErrorView::Serde(e@)),
            Ok(None) => Err(RepoErrorView::Other("empty response from upsert"@)),
            Ok(Some(p)) => Ok(p),
        }
    }
}

/// What the answer to a read means, given what its first row decodes to.
pub open spec fn repo_get_outcome(resp: BaasResponseView, decoded: Result<Option<Personal>, String>) -> Result<Personal, RepoErrorView> {
    if !success_status(resp.status) {
        Err(refusal(resp))
    } else {
        match decoded {
            Err(e) => Err(RepoErrorView::Serde(e@)),
            Ok(None) => Err(RepoErrorView::NotFound),
            Ok(Some(p)) => Ok(p),
        }
    }
}

/// The view of what a profile read or write gives.
pub open spec fn personal_view(r: Result<Personal, RepoError>) -> Result<Personal, RepoErrorView> {
    match r {
        Ok(p) => Ok(p),
        Err(e) => Err(e@),
    }
}

/// What the answer to a role read means, given the rows that its body parses
/// to: the first row's `role` where it is a string.
pub open spec fn repo_role_outcome_with(resp: BaasResponseView, rows: Result<Vec<Json>, String>) -> Result<Option<Seq<char>>, RepoErrorView> {
    if !success_status(resp.status) {
        Err(refusal(resp))
    } else {
        match rows {
            Err(e) => Err(RepoErrorView::Serde(e@)),
            Ok(rows) => if rows@.len() > 0 {
                Ok(rows@[0].member_text("role"@))
            } else {
                Ok(None)
            },
        }
    }
}

/// The view of what a role read gives.
pub open spec fn role_view(r: Result<Option<String>, RepoError>) -> Result<
    Option<Seq<char>>,
    RepoErrorView,
> {
    match r {
        Ok(role) => Ok(crate::dtos::opt_text(role)),
        Err(e) => Err(e@),
    }
}

impl ProfileSupabaseRepo {
    /// Access to the table of the backend at `supabase_url`.
    pub fn new(supabase_url: &str, service_role_key: &str, anon_key: Option<&str>) -> (r: Self)
        ensures
            r@ == (ProfileRepoView {
                base_rest_url: rest_root(supabase_url@),
                service_role_key: service_role_key@,
                anon_key: crate::dtos::opt_str(anon_key),
            }),
    {
        let trimmed_url = trim_end_matches(supabase_url, '/');
        let base_rest_url = if ends_with(supabase_url, "/rest/v1") {
            trimmed_url
        } else {
            join2(trimmed_url.as_str(), "/rest/v1")
        };
        let anon_key = match anon_key {
            Some(k) => Some(owned(k)),
            None => None,
        };
        ProfileSupabaseRepo { base_rest_url, service_role_key: owned(service_role_key), anon_key }
    }

    /// The address of the table.
    pub fn profiles_url(&self) -> (r: String)
        ensures
            r@ == table_url(self@),
    {
        let root = trim_end_matches(self.base_rest_url.as_str(), '/');
        join2(root.as_str(), "/profiles")
    }

    /// The headers of every call.
    pub fn headers(&self) -> (r: Vec<(String, String)>)
        ensures
            crate::http::pairs_view(r@) == repo_headers(self@),
    {
        let mut r: Vec<(String, String)> = Vec::new();
        r.push(pair("Content-Type", "application/json"));
        match &self.anon_key {
            Some(k) => {
                r.push(pair("apikey", k.as_str()));
            },
            None => {},
        }
        r.push((owned("Authorization"), bearer_value(self.service_role_key.as_str())));
        assert(crate::http::pairs_view(r@) =~= repo_headers(self@));
        r
    }

    fn row_request(&self, method: Method, user_id: Uuid, tail: &str, extra: Option<(String, String)>) -> (r:
        BaasRequest)
        ensures
            r@ == repo_row_request(
                self@,
                method,
                user_id.value,
                tail@,
                match extra {
                    Some(h) => seq![(h.0@, h.1@)],
                    None => seq![],
                },
            ),
    {
        let id = user_id.to_text();
        let encoded = percent_encode(id.as_str());
        proof {
            lemma_percent_encoded_uuid(id@);
        }
        let table = self.profiles_url();
        let url = join4(table.as_str(), "?id=eq.", encoded.as_str(), tail);
        let mut headers = self.headers();
        let ghost before = crate::http::pairs_view(headers@);
        match extra {
            Some(h) => {
                headers.push(h);
                assert(crate::http::pairs_view(headers@) =~= before + seq![(h.0@, h.1@)]);
            },
            None => {
                assert(crate::http::pairs_view(headers@) =~= before + seq![]);
            },
        }
        let r = BaasRequest { method, url, headers, query: Vec::new(), body: RequestBody::Empty };
        assert(r@.query =~= Seq::<(Seq<char>, Seq<char>)>::empty());
        r
    }

    /// The request that writes the profile row of `user_id`; the date of
    /// birth is expected as `YYYY-MM-DD`.
    pub fn upsert_profile_request(&self, user_id: Uuid, dto: CreatePersonalDTO) -> (r: BaasRequest)
        ensures
            r@ == repo_upsert_request(self@, user_id.value, dto@),
    {
        let mut headers = self.headers();
        let ghost before = crate::http::pairs_view(headers@);
        headers.push(pair("Prefer", "resolution=merge-duplicates,return=representation"));
        assert(crate::http::pairs_view(headers@) =~= before + seq![
            ("Prefer"@, "resolution=merge-duplicates,return=representation"@),
        ]);
        let r = BaasRequest {
            method: Method::Post,
            url: self.profiles_url(),
            headers,
            query: Vec::new(),
            body: RequestBody::ProfileRow {
                id: user_id.to_text(),
                date_of_birth: dto.date_of_birth,
                primary_skill: dto.primary_skill,
                skill_to_learn: dto.skill_to_learn,
                bio: dto.bio,
                role: owned("user"),
            },
        };
        assert(r@.query =~= Seq::<(Seq<char>, Seq<char>)>::empty());
        r
    }

    /// What the answer to a write means: the stored profile, or why there is
    /// none.
    pub fn upsert_profile_outcome(resp: &BaasResponse, decoded: Result<Option<Personal>, String>) -> (r:
        Result<Personal, RepoError>)
        ensures
            personal_view(r) == repo_upsert_outcome(resp@, decoded),
    {
        if !is_success_status(resp.status) {
            return Err(refused(resp));
        }
        match decoded {
            Err(e) => Err(RepoError::Serde(e)),
            Ok(None) => Err(RepoError::Other(owned("empty response from upsert"))),
            Ok(Some(p)) => Ok(p),
        }
    }

    /// The request that reads the profile row of `user_id`.
    pub fn get_by_user_id_request(&self, user_id: Uuid) -> (r: BaasRequest)
        ensures
            r@ == repo_row_request(self@, Method::Get, user_id.value, "&select=*"@, seq![]),
    {
        self.row_request(Method::Get, user_id, "&select=*", None)
    }

    /// What the answer to a read means: the profile, `NotFound` where there
    /// is no row, or another error.
    pub fn get_by_user_id_outcome(resp: &BaasResponse, decoded: Result<Option<Personal>, String>) -> (r:
        Result<Personal, RepoError>)
        ensures
            personal_view(r) == repo_get_outcome(resp@, decoded),
    {
        if !is_success_status(resp.status) {
            return Err(refused(resp));
        }
        match decoded {
            Err(e) => Err(RepoError::Serde(e)),
            Ok(None) => Err(RepoError::NotFound),
            Ok(Some(p)) => Ok(p),
        }
    }

    /// The request that reads the role of `user_id`.
    pub fn get_role_by_user_id_request(&self, user_id: Uuid) -> (r: BaasRequest)
        ensures
            r@ == repo_row_request(self@, Method::Get, user_id.value, "&select=role"@, seq![]),
    {
        self.row_request(Method::Get, user_id, "&select=role", None)
    }

    /// What the rows of the answer to a role read mean.
    pub fn get_role_by_user_id_outcome_with(resp: &BaasResponse, rows: &Result<Vec<Json>, String>) -> (r:
        Result<Option<String>, RepoError>)
        ensures
            role_view(r) == repo_role_outcome_with(resp@, *rows),
    {
        if !is_success_status(resp.status) {
            return Err(refused(resp));
        }
        match rows {
            Err(e) => Err(RepoError::Serde(e.clone())),
            Ok(rows) => {
                if rows.len() > 0 {
                    match rows[0].get_str("role") {
                        Some(role) => Ok(Some(owned(role))),
                        None => Ok(None),
                    }
                } else {
                    Ok(None)
                }
            },
        }
    }

    /// What the answer to a role read means: the role, none where there is no
    /// row or no role in it, or an error.
    pub fn get_role_by_user_id_outcome(resp: &BaasResponse) -> (r: Result<Option<String>, RepoError>)
        ensures
            role_view(r) == repo_role_outcome_with(resp@, json_rows_of_text(resp.body@)),
    {
        let rows = parse_rows(resp.body.as_str());
        Self::get_role_by_user_id_outcome_with(resp, &rows)
    }

    /// The request that deletes the profile row of `user_id`.
    pub fn delete_by_user_id_request(&self, user_id: Uuid) -> (r: BaasRequest)
        ensures
            r@ == repo_row_request(
                self@,
                Method::Delete,
                user_id.value,
                Seq::empty(),
                seq![("Prefer"@, "return=representation"@)],
            ),
    {
        let empty = String::new();
        self.row_request(
            Method::Delete,
            user_id,
            empty.as_str(),
            Some(pair("Prefer", "return=representation")),
        )
    }

    /// What the answer to a delete means: done on any success status, else
    /// the refusal.
    pub fn delete_by_user_id_outcome(resp: &BaasResponse) -> (r: Result<bool, RepoError>)
        ensures
            match r {
                Ok(done) => done && success_status(resp.status),
                Err(e) => !success_status(resp.status) && e@ == refusal(resp@),
            },
    {
        if is_success_status(resp.status) {
            Ok(true)
        } else {
            Err(refused(resp))
        }
    }
}

} // verus!
