//! The logged-in user of a request, as recorded in its session.
use vstd::prelude::*;
use crate::error::AppError;
use crate::user::User;

verus! {

pub const SESSION_NOT_FOUND: &'static str = "Session not found";
pub const NOT_LOGGED_IN: &'static str = "Unauthorized";

/// What a logged-in user is known by, in mathematical terms.
pub struct AuthUserView {
    pub id: u128,
    pub username: Seq<char>,
}

/// The user that a request is made by.
#[derive(Debug, Clone)]
pub struct AuthUser {
    id: u128,
    username: String,
}

impl View for AuthUser {
    type V = AuthUserView;

    closed spec fn view(&self) -> AuthUserView {
        AuthUserView { id: self.id, username: self.username@ }
    }
}

/// What looking for the user in the session of a request found.
pub enum SessionLookup {
    /// The request has no session.
    NoSession,
    /// Reading the session failed; the text describes the failure.
    Failed(String),
    /// The session records no user.
    NoUser,
    /// The session records this user.
    Found(User),
}

impl AuthUser {
    pub fn new(user: User) -> (auth_user: Self)
        ensures
            auth_user@ == (AuthUserView { id: user@.id, username: user@.username }),
    {
        AuthUser { id: user.id(), username: user.username().to_string() }
    }

    pub fn id(&self) -> (id: u128)
        ensures
            id == self@.id,
    {
        self.id
    }

    pub fn username(&self) -> (username: &str)
        ensures
            username@ == self@.username,
    {
        self.username.as_str()
    }

    /// Whether the user's name is `name`.
    pub fn is_named(&self, name: &String) -> (same: bool)
        ensures
            same == (self@.username == name@),
    {
        self.username == *name
    }

    /// The user of a request, from what its session holds: a request without a
    /// session is an internal error, a failure to read the session is a
    /// session error, and a session without a user is unauthorized.
    pub fn from_session(lookup: SessionLookup) -> (user: Result<Self, AppError>)
        ensures
            match lookup {
                SessionLookup::NoSession => (user matches Err(e) && e == AppError::InternalServerError(SESSION_NOT_FOUND)),
                SessionLookup::Failed(text) => (user matches Err(e) && e == AppError::SessionError(text)),
                SessionLookup::NoUser => (user matches Err(e) && e == AppError::Unauthorized(NOT_LOGGED_IN)),
                SessionLookup::Found(u) => (user matches Ok(a) && a@ == AuthUserView { id: u@.id, username: u@.username }),
            },
    {
        match lookup {
            SessionLookup::NoSession => Err(AppError::InternalServerError(SESSION_NOT_FOUND)),
            SessionLookup::Failed(text) => Err(AppError::SessionError(text)),
            SessionLookup::NoUser => Err(AppError::Unauthorized(NOT_LOGGED_IN)),
            SessionLookup::Found(user) => Ok(AuthUser::new(user)),
        }
    }
}

} // verus!
