//! Request and response records of the HTTP surface, each with its view.

use crate::ids::Uuid;
use vstd::prelude::*;

verus! {

/// The characters of an optional text.
pub open spec fn opt_text(o: Option<String>) -> Option<Seq<char>> {
    match o {
        Some(s) => Some(s@),
        None => None,
    }
}

/// The view of a result: the view of whichever side it holds.
pub open spec fn result_view<T: View, E: View>(r: Result<T, E>) -> Result<T::V, E::V> {
    match r {
        Ok(t) => Ok(t@),
        Err(e) => Err(e@),
    }
}

/// The characters of an optional borrowed text.
pub open spec fn opt_str(o: Option<&str>) -> Option<Seq<char>> {
    match o {
        Some(s) => Some(s@),
        None => None,
    }
}

/// An owned copy of an optional text.
pub fn clone_opt(o: &Option<String>) -> (r: Option<String>)
    ensures
        opt_text(r) == opt_text(*o),
{
    match o {
        Some(s) => Some(s.clone()),
        None => None,
    }
}

/// What a client sends to sign up.
#[derive(Debug)]
pub struct SignupIn {
    pub email: String,
    pub password: String,
    pub username: Option<String>,
}

/// The view of `SignupIn`: its texts as sequences of characters.
pub struct SignupInView {
    pub email: Seq<char>,
    pub password: Seq<char>,
    pub username: Option<Seq<char>>,
}

impl View for SignupIn {
    type V = SignupInView;

    open spec fn view(&self) -> SignupInView {
        SignupInView {
            email: self.email@,
            password: self.password@,
            username: opt_text(self.username),
        }
    }
}

/// What a client sends to log in.
#[derive(Debug)]
pub struct LoginIn {
    pub email: String,
    pub password: String,
}

/// The view of `LoginIn`: its texts as sequences of characters.
pub struct LoginInView {
    pub email: Seq<char>,
    pub password: Seq<char>,
}

impl View for LoginIn {
    type V = LoginInView;

    open spec fn view(&self) -> LoginInView {
        LoginInView { email: self.email@, password: self.password@ }
    }
}

/// A session as the auth backend issues it.
#[derive(Debug)]
pub struct SessionOut {
    pub access_token: String,
    pub refresh_token: Option<String>,
    pub expires_in: Option<i64>,
    pub token_type: Option<String>,
}

/// The view of `SessionOut`: its texts as sequences of characters.
pub struct SessionView {
    pub access_token: Seq<char>,
    pub refresh_token: Option<Seq<char>>,
    pub expires_in: Option<i64>,
    pub token_type: Option<Seq<char>>,
}

impl View for SessionOut {
    type V = SessionView;

    open spec fn view(&self) -> SessionView {
        SessionView {
            access_token: self.access_token@,
            refresh_token: opt_text(self.refresh_token),
            expires_in: self.expires_in,
            token_type: opt_text(self.token_type),
        }
    }
}

/// Profile fields as the client sends them: the date of birth as text.
#[derive(Debug)]
pub struct CreatePersonalDTO {
    pub date_of_birth: String,
    pub primary_skill: String,
    pub skill_to_learn: String,
    pub bio: String,
}

/// The view of `CreatePersonalDTO`: its texts as sequences of characters.
pub struct CreatePersonalView {
    pub date_of_birth: Seq<char>,
    pub primary_skill: Seq<char>,
    pub skill_to_learn: Seq<char>,
    pub bio: Seq<char>,
}

impl View for CreatePersonalDTO {
    type V = CreatePersonalView;

    open spec fn view(&self) -> CreatePersonalView {
        CreatePersonalView {
            date_of_birth: self.date_of_birth@,
            primary_skill: self.primary_skill@,
            skill_to_learn: self.skill_to_learn@,
            bio: self.bio@,
        }
    }
}

/// What a client sends to complete its profile: its credentials once more, and
/// the profile.
#[derive(Debug)]
pub struct CompleteProfileRequest {
    pub email: String,
    pub password: String,
    pub profile: CreatePersonalDTO,
}

/// A stored profile as it is returned to the client: the date of birth in
/// `YYYY-MM-DD`.
#[derive(Debug)]
pub struct PersonalDataOut {
    pub id: Uuid,
    pub user_id: Uuid,
    pub date_of_birth: String,
    pub primary_skill: String,
    pub skill_to_learn: String,
    pub bio: String,
    pub profile_picture_url: Option<String>,
}

/// The view of `PersonalDataOut`: its texts as sequences of characters.
pub struct PersonalDataView {
    pub id: u128,
    pub user_id: u128,
    pub date_of_birth: Seq<char>,
    pub primary_skill: Seq<char>,
    pub skill_to_learn: Seq<char>,
    pub bio: Seq<char>,
    pub profile_picture_url: Option<Seq<char>>,
}

impl View for PersonalDataOut {
    type V = PersonalDataView;

    open spec fn view(&self) -> PersonalDataView {
        PersonalDataView {
            id: self.id.value,
            user_id: self.user_id.value,
            date_of_birth: self.date_of_birth@,
            primary_skill: self.primary_skill@,
            skill_to_learn: self.skill_to_learn@,
            bio: self.bio@,
            profile_picture_url: opt_text(self.profile_picture_url),
        }
    }
}

/// What a signup answers with.
#[derive(Debug)]
pub struct SignupResponse {
    pub user_id: Uuid,
    pub message: String,
    pub next_step: String,
}

/// What a profile completion answers with.
#[derive(Debug)]
pub struct ProfileCompleteResponse {
    pub session: SessionOut,
    pub profile: PersonalDataOut,
    pub message: String,
    pub next_step: String,
}

/// What a login answers with where the user has a profile.
#[derive(Debug)]
pub struct LoginWithProfileResponse {
    pub session: SessionOut,
    pub profile: PersonalDataOut,
    pub message: String,
    pub next_step: String,
}

/// What a login answers with where the user has no profile yet.
#[derive(Debug)]
pub struct LoginNoProfileResponse {
    pub session: SessionOut,
    pub message: String,
    pub next_step: String,
}

/// What a client sends to post.
#[derive(Debug)]
pub struct CreatePostDTO {
    pub content: String,
    pub image_url: Option<String>,
}

/// A post row without author data.
#[derive(Debug)]
pub struct PostOut {
    pub id: String,
    pub user_id: Option<String>,
    pub content: Option<String>,
    pub image_url: Option<String>,
    pub created_at: Option<String>,
    pub updated_at: Option<String>,
}

/// The view of `PostOut`: its texts as sequences of characters.
pub struct PostView {
    pub id: Seq<char>,
    pub user_id: Option<Seq<char>>,
    pub content: Option<Seq<char>>,
    pub image_url: Option<Seq<char>>,
    pub created_at: Option<Seq<char>>,
    pub updated_at: Option<Seq<char>>,
}

impl View for PostOut {
    type V = PostView;

    open spec fn view(&self) -> PostView {
        PostView {
            id: self.id@,
            user_id: opt_text(self.user_id),
            content: opt_text(self.content),
            image_url: opt_text(self.image_url),
            created_at: opt_text(self.created_at),
            updated_at: opt_text(self.updated_at),
        }
    }
}

/// What a client sends to upload a picture: the image in base64, with or
/// without a data-URL prefix.
#[derive(Debug)]
pub struct UploadProfilePictureRequest {
    pub image_data: String,
    pub file_name: String,
    pub content_type: String,
}

/// What an upload answers with.
#[derive(Debug)]
pub struct ProfilePictureResponse {
    pub profile_picture_url: String,
    pub message: String,
}

/// What skipping the picture answers with.
#[derive(Debug)]
pub struct SkipProfilePictureResponse {
    pub message: String,
    pub next_step: String,
}

} // verus!
