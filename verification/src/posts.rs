//! Posts: the queries against the `posts` table and what their answers mean.

use crate::dtos::{opt_text, CreatePostDTO, PostOut};
use crate::http::{
    bearer_value, pair, service_headers, BaasRequest, BaasRequestView, BaasResponse,
    BaasResponseView, Method, RequestBody, RequestBodyView,
};
use crate::ids::{uuid_text, Uuid};
use crate::reply::{is_success_status, success_status};
use crate::text::{decimal, decimal_text, join2, join3, join4, owned};
use vstd::prelude::*;

verus! {

/// The profile columns that come with a post where the join succeeds.
#[derive(Debug)]
pub struct ProfileData {
    pub full_name: Option<String>,
    pub primary_skill: Option<String>,
    pub bio: Option<String>,
    pub profile_picture_url: Option<String>,
    pub role: Option<String>,
}

/// The view of `ProfileData`: its texts as sequences of characters.
pub struct ProfileDataView {
    pub full_name: Option<Seq<char>>,
    pub primary_skill: Option<Seq<char>>,
    pub bio: Option<Seq<char>>,
    pub profile_picture_url: Option<Seq<char>>,
    pub role: Option<Seq<char>>,
}

impl View for ProfileData {
    type V = ProfileDataView;

    open spec fn view(&self) -> ProfileDataView {
        ProfileDataView {
            full_name: opt_text(self.full_name),
            primary_skill: opt_text(self.primary_skill),
            bio: opt_text(self.bio),
            profile_picture_url: opt_text(self.profile_picture_url),
            role: opt_text(self.role),
        }
    }
}

/// A post row with the owner's profile columns, where the join found them.
#[derive(Debug)]
pub struct PostWithProfile {
    pub id: String,
    pub user_id: String,
    pub content: Option<String>,
    pub image_url: Option<String>,
    pub created_at: Option<String>,
    pub updated_at: Option<String>,
    pub profiles: Option<ProfileData>,
}

/// The view of `PostWithProfile`: its texts as sequences of characters.
pub struct PostWithProfileView {
    pub id: Seq<char>,
    pub user_id: Seq<char>,
    pub content: Option<Seq<char>>,
    pub image_url: Option<Seq<char>>,
    pub created_at: Option<Seq<char>>,
    pub updated_at: Option<Seq<char>>,
    pub profiles: Option<ProfileDataView>,
}

impl View for PostWithProfile {
    type V = PostWithProfileView;

    open spec fn view(&self) -> PostWithProfileView {
        PostWithProfileView {
            id: self.id@,
            user_id: self.user_id@,
            content: opt_text(self.content),
            image_url: opt_text(self.image_url),
            created_at: opt_text(self.created_at),
            updated_at: opt_text(self.updated_at),
            profiles: match self.profiles {
                Some(p) => Some(p@),
                None => None,
            },
        }
    }
}

/// The profile columns that a joined query asks for.
pub open spec fn profile_columns() -> Seq<char> {
    "(full_name,primary_skill,bio,profile_picture_url,role)"@
}

/// The tail of every listing: newest first, at most `limit` rows.
pub open spec fn newest_first(limit: u32) -> Seq<char> {
    "&order=created_at.desc&limit="@ + decimal(limit as nat)
}

/// Headers of a read from the `posts` table.
pub open spec fn read_headers(service_key: Seq<char>) -> Seq<(Seq<char>, Seq<char>)> {
    service_headers(service_key, service_key, seq![])
}

/// A read from the `posts` table at `url`.
pub open spec fn posts_read(url: Seq<char>, service_key: Seq<char>) -> BaasRequestView {
    BaasRequestView {
        method: Method::Get,
        url,
        headers: read_headers(service_key),
        query: seq![],
        body: RequestBodyView::Empty,
    }
}

/// The address of the listing that joins the profile through the named
/// foreign key.
pub open spec fn joined_url(supabase_url: Seq<char>, limit: u32) -> Seq<char> {
    supabase_url + "/rest/v1/posts?select=*,profiles!posts_user_id_fkey"@ + profile_columns()
        + newest_first(limit)
}

/// The address of the listing that joins the profile without naming a key.
pub open spec fn plain_join_url(supabase_url: Seq<char>, limit: u32) -> Seq<char> {
    supabase_url + "/rest/v1/posts?select=*,profiles"@ + profile_columns() + newest_first(limit)
}

/// The address of the listing of one user's posts with the profile joined.
pub open spec fn user_posts_url(supabase_url: Seq<char>, user_id: u128, limit: u32) -> Seq<char> {
    supabase_url + "/rest/v1/posts?user_id=eq."@ + uuid_text(user_id) + "&select=*,profiles"@
        + profile_columns() + newest_first(limit)
}

/// The address of the listing without any join.
pub open spec fn basic_url(supabase_url: Seq<char>, limit: u32) -> Seq<char> {
    supabase_url + "/rest/v1/posts?order=created_at.desc&limit="@ + decimal(limit as nat)
}

/// The request that stores a post of `user_id`.
pub open spec fn create_request(
    supabase_url: Seq<char>,
    service_key: Seq<char>,
    user_id: u128,
    content: Seq<char>,
    image_url: Option<Seq<char>>,
) -> BaasRequestView {
    BaasRequestView {
        method: Method::Post,
        url: supabase_url + "/rest/v1/posts"@,
        headers: service_headers(
            service_key,
            service_key,
            seq![("Content-Type"@, "application/json"@), ("Prefer"@, "return=representation"@)],
        ),
        query: seq![],
        body: RequestBodyView::NewPost { user_id, content, image_url },
    }
}

/// The complaint about an answer with a failure status.
pub open spec fn status_complaint(what: Seq<char>, resp: BaasResponseView) -> Seq<char> {
    what + resp.status_text + " - "@ + resp.body
}

/// The complaint about a body that does not decode.
pub open spec fn decode_complaint(what: Seq<char>, error: Seq<char>, body: Seq<char>) -> Seq<char> {
    what + error + " - Body: "@ + body
}

/// What the answer to a listing means, given what its body decodes to: the
/// rows, or a complaint that starts with `failed` for a failure status and
/// with `undecoded` for a body that does not decode.
pub open spec fn is_listing_outcome<T>(
    resp: BaasResponseView,
    decoded: Result<Vec<T>, String>,
    failed: Seq<char>,
    undecoded: Seq<char>,
    r: Result<Vec<T>, String>,
) -> bool {
    if !success_status(resp.status) {
        r matches Err(e) && e@ == status_complaint(failed, resp)
    } else {
        match decoded {
            Err(error) => r matches Err(e) && e@ == decode_complaint(undecoded, error@, resp.body),
            Ok(rows) => r == Ok::<Vec<T>, String>(rows),
        }
    }
}

fn listing_outcome<T>(
    resp: &BaasResponse,
    decoded: Result<Vec<T>, String>,
    failed: &str,
    undecoded: &str,
) -> (r: Result<Vec<T>, String>)
    ensures
        is_listing_outcome(resp@, decoded, failed@, undecoded@, r),
{
    if !is_success_status(resp.status) {
        return Err(join4(failed, resp.status_text.as_str(), " - ", resp.body.as_str()));
    }
    match decoded {
        Err(error) => Err(join4(undecoded, error.as_str(), " - Body: ", resp.body.as_str())),
        Ok(rows) => Ok(rows),
    }
}

fn read_request(url: String, service_key: &str) -> (r: BaasRequest)
    ensures
        r@ == posts_read(url@, service_key@),
{
    let headers = vec![pair("apikey", service_key), (owned("Authorization"), bearer_value(service_key))];
    let r = BaasRequest { method: Method::Get, url, headers, query: Vec::new(), body: RequestBody::Empty };
    assert(r@.headers =~= read_headers(service_key@));
    assert(r@.query =~= Seq::<(Seq<char>, Seq<char>)>::empty());
    r
}

fn listing_tail(limit: u32) -> (r: String)
    ensures
        r@ == newest_first(limit),
{
    let n = decimal_text(limit as u64);
    join2("&order=created_at.desc&limit=", n.as_str())
}

/// The queries against the `posts` table.
pub struct PostRepository;

impl PostRepository {
    /// The request that stores `post_data` as a post of `user_id`.
    pub fn create_post_request(supabase_url: &str, service_key: &str, user_id: Uuid, post_data: CreatePostDTO) -> (r:
        BaasRequest)
        ensures
            r@ == create_request(
                supabase_url@,
                service_key@,
                user_id.value,
                post_data.content@,
                opt_text(post_data.image_url),
            ),
    {
        let headers = vec![
            pair("apikey", service_key),
            (owned("Authorization"), bearer_value(service_key)),
            pair("Content-Type", "application/json"),
            pair("Prefer", "return=representation"),
        ];
        let r = BaasRequest {
            method: Method::Post,
            url: join2(supabase_url, "/rest/v1/posts"),
            headers,
            query: Vec::new(),
            body: RequestBody::NewPost {
                user_id,
                content: post_data.content,
                image_url: post_data.image_url,
            },
        };
        let ghost want = create_request(
            supabase_url@,
            service_key@,
            user_id.value,
            post_data.content@,
            opt_text(post_data.image_url),
        );
        assert(r@.headers =~= want.headers);
        assert(r@.query =~= want.query);
        r
    }

    /// What the answer to a post creation means, given what its body decodes
    /// to: the first row, or a complaint.
    pub fn create_post_outcome(resp: &BaasResponse, decoded: Result<Vec<PostOut>, String>) -> (r: Result<
        PostOut,
        String,
    >)
        ensures
            if !success_status(resp.status) {
                r matches Err(e) && e@ == status_complaint("Failed to create post: "@, resp@)
            } else {
                match decoded {
                    Err(error) => r matches Err(e) && e@ == error@,
                    Ok(rows) => if rows@.len() == 0 {
                        r matches Err(e) && e@ == "No post returned from creation"@
                    } else {
                        r == Ok::<PostOut, String>(rows@[0])
                    },
                }
            },
    {
        if !is_success_status(resp.status) {
            return Err(
                join4(
                    "Failed to create post: ",
                    resp.status_text.as_str(),
                    " - ",
                    resp.body.as_str(),
                ),
            );
        }
        match decoded {
            Err(error) => Err(error),
            Ok(rows) => {
                let mut rows = rows;
                if rows.len() == 0 {
                    Err(owned("No post returned from creation"))
                } else {
                    Ok(rows.swap_remove(0))
                }
            },
        }
    }

    /// The listing that joins each post's profile through the named foreign key.
    pub fn list_posts_with_profiles_request(supabase_url: &str, service_key: &str, limit: u32) -> (r:
        BaasRequest)
        ensures
            r@ == posts_read(joined_url(supabase_url@, limit), service_key@),
    {
        let tail = listing_tail(limit);
        let url = join4(
            supabase_url,
            "/rest/v1/posts?select=*,profiles!posts_user_id_fkey",
            "(full_name,primary_skill,bio,profile_picture_url,role)",
            tail.as_str(),
        );
        read_request(url, service_key)
    }

    /// The listing to try where the first one failed: the same join without
    /// the name of the foreign key.
    pub fn list_posts_with_profiles_retry_request(supabase_url: &str, service_key: &str, limit: u32) -> (r:
        BaasRequest)
        ensures
            r@ == posts_read(plain_join_url(supabase_url@, limit), service_key@),
    {
        let tail = listing_tail(limit);
        let url = join4(
            supabase_url,
            "/rest/v1/posts?select=*,profiles",
            "(full_name,primary_skill,bio,profile_picture_url,role)",
            tail.as_str(),
        );
        read_request(url, service_key)
    }

    /// Whether the first joined listing failed, so that the second is to be tried.
    pub fn list_posts_with_profiles_must_retry(first: &BaasResponse) -> (r: bool)
        ensures
            r == !success_status(first.status),
    {
        !is_success_status(first.status)
    }

    /// What the last answer to a joined listing means, given what its body
    /// decodes to. The last answer is the first where that succeeded, else the
    /// one to the second listing.
    pub fn list_posts_with_profiles_outcome(last: &BaasResponse, decoded: Result<Vec<PostWithProfile>, String>) -> (r:
        Result<Vec<PostWithProfile>, String>)
        ensures
            is_listing_outcome(
                last@,
                decoded,
                "Failed to fetch posts: "@,
                "Failed to parse posts response: "@,
                r,
            ),
    {
        listing_outcome(last, decoded, "Failed to fetch posts: ", "Failed to parse posts response: ")
    }

    /// The listing of the posts of `user_id` with the profile joined.
    pub fn get_user_posts_with_profile_request(supabase_url: &str, service_key: &str, user_id: Uuid, limit: u32) -> (r:
        BaasRequest)
        ensures
            r@ == posts_read(user_posts_url(supabase_url@, user_id.value, limit), service_key@),
    {
        let tail = listing_tail(limit);
        let id = user_id.to_text();
        let head = join4(supabase_url, "/rest/v1/posts?user_id=eq.", id.as_str(), "&select=*,profiles");
        let url = join3(
            head.as_str(),
            "(full_name,primary_skill,bio,profile_picture_url,role)",
            tail.as_str(),
        );
        read_request(url, service_key)
    }

    /// What the answer to a listing of one user's posts means.
    pub fn get_user_posts_with_profile_outcome(resp: &BaasResponse, decoded: Result<Vec<PostWithProfile>, String>) -> (r:
        Result<Vec<PostWithProfile>, String>)
        ensures
            is_listing_outcome(
                resp@,
                decoded,
                "Failed to fetch user posts: "@,
                "Failed to parse user posts response: "@,
                r,
            ),
    {
        listing_outcome(
            resp,
            decoded,
            "Failed to fetch user posts: ",
            "Failed to parse user posts response: ",
        )
    }

    /// The listing without any join.
    pub fn list_posts_request(supabase_url: &str, service_key: &str, limit: u32) -> (r: BaasRequest)
        ensures
            r@ == posts_read(basic_url(supabase_url@, limit), service_key@),
    {
        let n = decimal_text(limit as u64);
        let url = join3(supabase_url, "/rest/v1/posts?order=created_at.desc&limit=", n.as_str());
        read_request(url, service_key)
    }

    /// What the answer to a listing without join means, given what its body
    /// decodes to: the rows, or a complaint.
    pub fn list_posts_outcome(resp: &BaasResponse, decoded: Result<Vec<PostOut>, String>) -> (r: Result<
        Vec<PostOut>,
        String,
    >)
        ensures
            if !success_status(resp.status) {
                r matches Err(e) && e@ == status_complaint("Failed to fetch posts: "@, resp@)
            } else {
                match decoded {
                    Err(error) => r matches Err(e) && e@ == error@,
                    Ok(rows) => r == Ok::<Vec<PostOut>, String>(rows),
                }
            },
    {
        if !is_success_status(resp.status) {
            return Err(
                join4("Failed to fetch posts: ", resp.status_text.as_str(), " - ", resp.body.as_str()),
            );
        }
        decoded
    }
}

} // verus!
