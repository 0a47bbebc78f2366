//! Rows and claims that the service knows of beyond profiles.

use crate::ids::Uuid;
use vstd::prelude::*;

verus! {

/// A post as it is stored.
#[derive(Debug)]
pub struct Post {
    pub id: Uuid,
    pub user_id: Uuid,
    pub content: String,
    pub image_url: Option<String>,
    pub created_at: chrono::NaiveDateTime,
    pub updated_at: Option<chrono::NaiveDateTime>,
}

/// A user as the application sees one. The password is not here: the auth
/// backend keeps it.
#[derive(Debug)]
pub struct User {
    pub id: Uuid,
    pub email: String,
    pub username: Option<String>,
    pub full_name: Option<String>,
    pub role: String,
    pub is_active: bool,
    pub created_at: Option<chrono::NaiveDateTime>,
    pub updated_at: Option<chrono::NaiveDateTime>,
}

/// A user that is about to be stored.
#[derive(Debug)]
pub struct NewUser {
    pub id: Uuid,
    pub email: String,
    pub username: Option<String>,
    pub full_name: Option<String>,
    pub role: String,
}

/// What of a user is shown to others.
#[derive(Debug)]
pub struct UserPublic {
    pub id: Uuid,
    pub username: Option<String>,
    pub full_name: Option<String>,
    pub role: String,
}

/// The claims of a token, as far as they are known.
#[derive(Debug)]
pub struct JwtClaims {
    pub sub: String,
    pub aud: Option<String>,
    pub exp: Option<u64>,
    pub iat: Option<u64>,
    pub role: Option<String>,
    pub email: Option<String>,
}

} // verus!
