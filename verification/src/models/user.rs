//! User records, the requests that create and authenticate them, and the
//! session that remembers a login.

use crate::clock::Timestamp;
use vstd::prelude::*;
use vstd::std_specs::convert::FromSpecImpl;

verus! {

/// One row of the user table.
#[derive(Debug, PartialEq, Eq)]
pub struct User {
    pub id: u128,
    pub username: String,
    /// The password hash in PHC string form, never the password itself.
    pub password: String,
    pub email: String,
    pub created_at: Timestamp,
    pub updated_at: Timestamp,
}

/// The mathematical value of a `User`.
pub struct UserView {
    pub id: u128,
    pub username: Seq<char>,
    pub password: Seq<char>,
    pub email: Seq<char>,
    pub created_at: Timestamp,
    pub updated_at: Timestamp,
}

impl View for User {
    type V = UserView;

    open spec fn view(&self) -> UserView {
        UserView {
            id: self.id,
            username: self.username@,
            password: self.password@,
            email: self.email@,
            created_at: self.created_at,
            updated_at: self.updated_at,
        }
    }
}

/// What a client sees of a user: no hash, no timestamps.
#[derive(Debug, PartialEq, Eq)]
pub struct UserResponse {
    pub id: u128,
    pub username: String,
    pub email: String,
}

/// The mathematical value of a `UserResponse`.
pub struct UserResponseView {
    pub id: u128,
    pub username: Seq<char>,
    pub email: Seq<char>,
}

impl View for UserResponse {
    type V = UserResponseView;

    open spec fn view(&self) -> UserResponseView {
        UserResponseView { id: self.id, username: self.username@, email: self.email@ }
    }
}

/// The public face of a user record.
pub open spec fn public_face(user: UserView) -> UserResponseView {
    UserResponseView { id: user.id, username: user.username, email: user.email }
}

impl From<User> for UserResponse {
    fn from(user: User) -> (response: UserResponse) {
        UserResponse { id: user.id, username: user.username, email: user.email }
    }
}

impl FromSpecImpl<User> for UserResponse {
    open spec fn obeys_from_spec() -> bool {
        true
    }

    open spec fn from_spec(user: User) -> UserResponse {
        UserResponse { id: user.id, username: user.username, email: user.email }
    }
}

impl<'a> From<&'a User> for UserResponse {
    fn from(user: &'a User) -> (response: UserResponse) {
        UserResponse {
            id: user.id,
            username: user.username.clone(),
            email: user.email.clone(),
        }
    }
}

impl<'a> FromSpecImpl<&'a User> for UserResponse {
    open spec fn obeys_from_spec() -> bool {
        true
    }

    open spec fn from_spec(user: &'a User) -> UserResponse {
        UserResponse { id: user.id, username: user.username, email: user.email }
    }
}

/// A user's public face with the addresses of the user's images.
#[derive(Debug, PartialEq, Eq)]
pub struct UserWithImages {
    pub user: UserResponse,
    pub image_urls: Vec<String>,
}

/// The credentials a user logs in with.
#[derive(Debug, PartialEq, Eq)]
pub struct LoginRequest {
    pub email: String,
    pub raw_password: String,
}

/// What a new user signs up with.
#[derive(Debug, PartialEq, Eq)]
pub struct SignupRequest {
    pub username: String,
    pub email: String,
    pub raw_password: String,
}

/// A login that is remembered until `expires_at`.
#[derive(Clone, Copy, Debug, PartialEq, Eq, Structural)]
pub struct UserSession {
    pub user_id: u128,
    pub expires_at: Timestamp,
}

impl UserSession {
    /// A session of `user_id` that ends at `expires_at`.
    pub fn new(user_id: u128, expires_at: Timestamp) -> (session: UserSession)
        ensures
            session == (UserSession { user_id, expires_at }),
    {
        UserSession { user_id, expires_at }
    }

    /// The session still stands at `now`: `now` lies strictly before its end.
    pub open spec fn live_at(self, now: Timestamp) -> bool {
        now.precedes(self.expires_at)
    }

    /// Whether the session still stands at `now`.
    pub fn is_live_at(&self, now: &Timestamp) -> (live: bool)
        ensures
            live == self.live_at(*now),
    {
        now.is_before(&self.expires_at)
    }
}

impl Clone for User {
    fn clone(&self) -> (copy: User)
        ensures
            copy == *self,
    {
        User {
            id: self.id,
            username: self.username.clone(),
            password: self.password.clone(),
            email: self.email.clone(),
            created_at: self.created_at,
            updated_at: self.updated_at,
        }
    }
}

impl Clone for UserResponse {
    fn clone(&self) -> (copy: UserResponse)
        ensures
            copy == *self,
    {
        UserResponse {
            id: self.id,
            username: self.username.clone(),
            email: self.email.clone(),
        }
    }
}

impl Clone for UserWithImages {
    fn clone(&self) -> (copy: UserWithImages)
        ensures
            copy.user == self.user,
            copy.image_urls@ == self.image_urls@,
    {
        UserWithImages { user: self.user.clone(), image_urls: self.image_urls.clone() }
    }
}

impl Clone for LoginRequest {
    fn clone(&self) -> (copy: LoginRequest)
        ensures
            copy == *self,
    {
        LoginRequest { email: self.email.clone(), raw_password: self.raw_password.clone() }
    }
}

impl Clone for SignupRequest {
    fn clone(&self) -> (copy: SignupRequest)
        ensures
            copy == *self,
    {
        SignupRequest {
            username: self.username.clone(),
            email: self.email.clone(),
            raw_password: self.raw_password.clone(),
        }
    }
}

} // verus!
