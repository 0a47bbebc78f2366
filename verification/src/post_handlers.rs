//! Creating and listing posts: how rows become what the client sees.

use crate::dtos::{opt_str, opt_text, PostOut, PostView};
use crate::posts::{PostWithProfile, PostWithProfileView};
use crate::reply::{Reply, HTTP_INTERNAL_ERROR, HTTP_OK};
use crate::text::{blank, is_blank, join2, owned, same_text};
use vstd::prelude::*;

verus! {

/// A post as the client sees it, with its author filled in.
#[derive(Debug)]
pub struct EnhancedPostOut {
    pub id: String,
    pub user_id: String,
    pub content: Option<String>,
    pub image_url: Option<String>,
    pub created_at: Option<String>,
    pub updated_at: Option<String>,
    pub author_name: String,
    pub author_avatar: Option<String>,
    pub author_role: String,
    pub author_primary_skill: Option<String>,
    pub is_own_post: bool,
}

/// The view of `EnhancedPostOut`: its texts as sequences of characters.
pub struct EnhancedPostView {
    pub id: Seq<char>,
    pub user_id: Seq<char>,
    pub content: Option<Seq<char>>,
    pub image_url: Option<Seq<char>>,
    pub created_at: Option<Seq<char>>,
    pub updated_at: Option<Seq<char>>,
    pub author_name: Seq<char>,
    pub author_avatar: Option<Seq<char>>,
    pub author_role: Seq<char>,
    pub author_primary_skill: Option<Seq<char>>,
    pub is_own_post: bool,
}

impl View for EnhancedPostOut {
    type V = EnhancedPostView;

    open spec fn view(&self) -> EnhancedPostView {
        EnhancedPostView {
            id: self.id@,
            user_id: self.user_id@,
            content: opt_text(self.content),
            image_url: opt_text(self.image_url),
            created_at: opt_text(self.created_at),
            updated_at: opt_text(self.updated_at),
            author_name: self.author_name@,
            author_avatar: opt_text(self.author_avatar),
            author_role: self.author_role@,
            author_primary_skill: opt_text(self.author_primary_skill),
            is_own_post: self.is_own_post,
        }
    }
}

/// A text that is there and not blank.
pub open spec fn kept(o: Option<Seq<char>>) -> Option<Seq<char>> {
    match o {
        Some(s) => if blank(s) {
            None
        } else {
            Some(s)
        },
        None => None,
    }
}

/// `a` where it is there, else `b`.
pub open spec fn first_text(a: Option<Seq<char>>, b: Option<Seq<char>>) -> Option<Seq<char>> {
    match a {
        Some(s) => Some(s),
        None => b,
    }
}

/// A joined post as `current` sees it. The author's name is the profile's
/// full name, else `You` on the reader's own posts and `Anonymous User` on
/// others; the role is the profile's role, else its primary skill, else
/// `User`. A blank text counts as missing.
pub open spec fn enhanced_post(post: PostWithProfileView, current: Option<Seq<char>>) -> EnhancedPostView {
    let own = current == Some(post.user_id);
    let full_name = match post.profiles {
        Some(p) => p.full_name,
        None => None,
    };
    let role = match post.profiles {
        Some(p) => p.role,
        None => None,
    };
    let skill = match post.profiles {
        Some(p) => p.primary_skill,
        None => None,
    };
    let picture = match post.profiles {
        Some(p) => p.profile_picture_url,
        None => None,
    };
    EnhancedPostView {
        id: post.id,
        user_id: post.user_id,
        content: post.content,
        image_url: post.image_url,
        created_at: post.created_at,
        updated_at: post.updated_at,
        author_name: match kept(full_name) {
            Some(name) => name,
            None => if own {
                "You"@
            } else {
                "Anonymous User"@
            },
        },
        author_avatar: kept(picture),
        author_role: match kept(first_text(kept(role), skill)) {
            Some(r) => r,
            None => "User"@,
        },
        author_primary_skill: kept(skill),
        is_own_post: own,
    }
}

/// A post without profile data as `current` sees it: `You` on the reader's
/// own posts, `Member` on others. A post without owner is nobody's own.
pub open spec fn basic_post(post: PostView, current: Option<Seq<char>>) -> EnhancedPostView {
    let owner = match post.user_id {
        Some(id) => id,
        None => Seq::empty(),
    };
    let own = current == Some(owner) && owner.len() > 0;
    EnhancedPostView {
        id: post.id,
        user_id: owner,
        content: post.content,
        image_url: post.image_url,
        created_at: post.created_at,
        updated_at: post.updated_at,
        author_name: if own {
            "You"@
        } else {
            "Member"@
        },
        author_avatar: None,
        author_role: "User"@,
        author_primary_skill: None,
        is_own_post: own,
    }
}

fn keep(o: Option<String>) -> (r: Option<String>)
    ensures
        opt_text(r) == kept(opt_text(o)),
{
    match o {
        Some(s) => if is_blank(s.as_str()) {
            None
        } else {
            Some(s)
        },
        None => None,
    }
}

fn is_reader(current: Option<&str>, owner: &str) -> (r: bool)
    ensures
        r == (opt_str(current) == Some(owner@)),
{
    match current {
        Some(c) => same_text(c, owner),
        None => false,
    }
}

/// Fills in the author of a joined post for the reader `current_user_id`.
pub fn transform_post_with_profile(post: PostWithProfile, current_user_id: Option<&str>) -> (r:
    EnhancedPostOut)
    ensures
        r@ == enhanced_post(post@, opt_str(current_user_id)),
{
    let is_own_post = is_reader(current_user_id, post.user_id.as_str());
    let (full_name, role, skill, picture) = match post.profiles {
        Some(p) => (p.full_name, p.role, p.primary_skill, p.profile_picture_url),
        None => (None, None, None, None),
    };
    let author_name = match keep(full_name) {
        Some(name) => name,
        None => if is_own_post {
            owned("You")
        } else {
            owned("Anonymous User")
        },
    };
    let skill_again = crate::dtos::clone_opt(&skill);
    let role_or_skill = match keep(role) {
        Some(r) => Some(r),
        None => skill_again,
    };
    let author_role = match keep(role_or_skill) {
        Some(r) => r,
        None => owned("User"),
    };
    EnhancedPostOut {
        id: post.id,
        user_id: post.user_id,
        content: post.content,
        image_url: post.image_url,
        created_at: post.created_at,
        updated_at: post.updated_at,
        author_name,
        author_avatar: keep(picture),
        author_role,
        author_primary_skill: keep(skill),
        is_own_post,
    }
}

/// Fills in a placeholder author for a post without profile data.
pub fn transform_basic_post(post: PostOut, current_user_id: Option<&str>) -> (r: EnhancedPostOut)
    ensures
        r@ == basic_post(post@, opt_str(current_user_id)),
{
    let owner = match post.user_id {
        Some(id) => id,
        None => String::new(),
    };
    let is_own_post = is_reader(current_user_id, owner.as_str()) && owner.as_str().unicode_len() > 0;
    EnhancedPostOut {
        id: post.id,
        user_id: owner,
        content: post.content,
        image_url: post.image_url,
        created_at: post.created_at,
        updated_at: post.updated_at,
        author_name: if is_own_post {
            owned("You")
        } else {
            owned("Member")
        },
        author_avatar: None,
        author_role: owned("User"),
        author_primary_skill: None,
        is_own_post,
    }
}

/// The answer to a post creation: 200 with the stored post, or 500 with the
/// complaint.
pub fn create_post_reply(stored: Result<PostOut, String>) -> (r: Reply<PostOut>)
    ensures
        match stored {
            Ok(post) => r.is_success(HTTP_OK, "Post created successfully"@, true) && r.body.data
                == Some(post),
            Err(e) => r.is_error(HTTP_INTERNAL_ERROR, "Failed to create post: "@ + e@),
        },
{
    match stored {
        Ok(post) => Reply::success(HTTP_OK, "Post created successfully", Some(post)),
        Err(e) => {
            let complaint = join2("Failed to create post: ", e.as_str());
            Reply::error(HTTP_INTERNAL_ERROR, complaint.as_str())
        },
    }
}

/// Whether `out` shows the joined `posts`, one for one and in order, as
/// `current` sees them.
pub open spec fn shows_joined(
    out: Seq<EnhancedPostOut>,
    posts: Seq<PostWithProfile>,
    current: Option<Seq<char>>,
) -> bool {
    &&& out.len() == posts.len()
    &&& forall|i: int| 0 <= i < out.len() ==> (#[trigger] out[i])@ == enhanced_post(posts[i]@, current)
}

/// Whether `out` shows the plain `posts`, one for one and in order, as
/// `current` sees them.
pub open spec fn shows_basic(
    out: Seq<EnhancedPostOut>,
    posts: Seq<PostOut>,
    current: Option<Seq<char>>,
) -> bool {
    &&& out.len() == posts.len()
    &&& forall|i: int| 0 <= i < out.len() ==> (#[trigger] out[i])@ == basic_post(posts[i]@, current)
}

/// The answer to a listing where the joined query has replied: 200 with the
/// posts and their authors. Where the joined query failed there is no answer
/// yet: the listing without join is to be tried.
pub fn list_posts_joined_reply(joined: Result<Vec<PostWithProfile>, String>, current_user_id: Option<&str>) -> (r:
    Option<Reply<Vec<EnhancedPostOut>>>)
    ensures
        match joined {
            Ok(posts) => {
                &&& r matches Some(reply)
                &&& reply.is_success(HTTP_OK, "Posts retrieved successfully"@, true)
                &&& reply.body.data matches Some(out)
                &&& shows_joined(out@, posts@, opt_str(current_user_id))
            },
            Err(_) => r is None,
        },
{
    match joined {
        Ok(posts) => {
            let ghost all = posts@;
            let mut rest = posts;
            let mut out: Vec<EnhancedPostOut> = Vec::new();
            while rest.len() > 0
                invariant
                    out.len() + rest.len() == all.len(),
                    forall|i: int| 0 <= i < rest.len() ==> rest@[i] == all[out.len() + i],
                    forall|i: int|
                        0 <= i < out.len() ==> (#[trigger] out@[i])@ == enhanced_post(
                            all[i]@,
                            opt_str(current_user_id),
                        ),
                decreases rest.len(),
            {
                let post = rest.remove(0);
                out.push(transform_post_with_profile(post, current_user_id));
            }
            Some(Reply::success(HTTP_OK, "Posts retrieved successfully", Some(out)))
        },
        Err(_) => None,
    }
}

/// The answer to a listing where the query without join has replied: 200
/// with the posts under placeholder authors, or 500 where this query failed
/// too.
pub fn list_posts_basic_reply(basic: Result<Vec<PostOut>, String>, current_user_id: Option<&str>) -> (r:
    Reply<Vec<EnhancedPostOut>>)
    ensures
        match basic {
            Ok(posts) => {
                &&& r.is_success(HTTP_OK, "Posts retrieved successfully (basic mode)"@, true)
                &&& r.body.data matches Some(out)
                &&& shows_basic(out@, posts@, opt_str(current_user_id))
            },
            Err(_) => r.is_error(HTTP_INTERNAL_ERROR, "Failed to retrieve posts"@),
        },
{
    match basic {
        Ok(posts) => {
            let ghost all = posts@;
            let mut rest = posts;
            let mut out: Vec<EnhancedPostOut> = Vec::new();
            while rest.len() > 0
                invariant
                    out.len() + rest.len() == all.len(),
                    forall|i: int| 0 <= i < rest.len() ==> rest@[i] == all[out.len() + i],
                    forall|i: int|
                        0 <= i < out.len() ==> (#[trigger] out@[i])@ == basic_post(
                            all[i]@,
                            opt_str(current_user_id),
                        ),
                decreases rest.len(),
            {
                let post = rest.remove(0);
                out.push(transform_basic_post(post, current_user_id));
            }
            Reply::success(HTTP_OK, "Posts retrieved successfully (basic mode)", Some(out))
        },
        Err(_) => Reply::error(HTTP_INTERNAL_ERROR, "Failed to retrieve posts"),
    }
}

/// In a listing that fell back to plain rows, every author is `You` or
/// `Member`: `You` exactly on the reader's own posts, and never for a reader
/// who is not logged in.
pub proof fn lemma_placeholder_authors(post: PostView, current: Option<Seq<char>>)
    ensures
        basic_post(post, current).author_name == if basic_post(post, current).is_own_post {
            "You"@
        } else {
            "Member"@
        },
        basic_post(post, current).author_role == "User"@,
        basic_post(post, current).author_avatar is None,
        current is None ==> !basic_post(post, current).is_own_post,
{
}

} // verus!
