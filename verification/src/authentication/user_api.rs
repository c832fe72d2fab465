//! The decisions of registration and login. The server around this crate
//! stores users, reads them back and keeps sessions; between those steps it
//! asks these functions what to do next.
use vstd::prelude::*;
use crate::error::{AppError, DbError};
use crate::user::{credentials_check, CredentialsView, User, UserCredentials};

verus! {

pub const PASSWORD_MISMATCH: &'static str = "Bad Request: Password confirmation must match password!";
pub const USER_CREATED: &'static str = "User created successfully";
pub const USER_NOT_CREATED: &'static str = "Internal Server Error: Could not create user!";

pub const REDIRECT_HOME: &'static str = "/";
pub const REDIRECT_INTERNAL_ERROR: &'static str = "/login?error=internal_error";
pub const REDIRECT_WRONG_CREDENTIALS: &'static str = "/login?error=wrong_credentials";
pub const REDIRECT_LOOKUP_FAILED: &'static str = "/login?error=unable_to_lookup_user";

/// The fields of the login form.
pub struct LoginFormData {
    pub username: String,
    pub password: String,
}

impl LoginFormData {
    /// The credentials that the form submits.
    pub fn into_credentials(self) -> (credentials: UserCredentials)
        ensures
            credentials@ == (CredentialsView { username: self.username@, password: self.password@ }),
    {
        UserCredentials::new(self.username, self.password)
    }
}

/// The fields of the registration form.
pub struct UserCreationFormData {
    pub username: String,
    pub password: String,
    pub password_confirmation: String,
}

/// What a registration does next.
pub enum RegisterAction {
    /// Create a user with this name and password.
    CreateUser { username: String, password: String },
    /// Answer with this status and message.
    Respond(u16, &'static str),
}

/// The first step of a registration: a password whose confirmation differs is
/// refused with 400; otherwise the user is created with the submitted name and
/// password.
pub fn register_action(form: UserCreationFormData) -> (action: RegisterAction)
    ensures
        form.password@ != form.password_confirmation@ ==> action == RegisterAction::Respond(400, PASSWORD_MISMATCH),
        form.password@ == form.password_confirmation@ ==> (action matches RegisterAction::CreateUser {
            username,
            password,
        } && username@ == form.username@ && password@ == form.password@),
{
    if !(form.password == form.password_confirmation) {
        return RegisterAction::Respond(400, PASSWORD_MISMATCH);
    }
    RegisterAction::CreateUser { username: form.username, password: form.password }
}

/// The answer to a registration once creating the user succeeded or failed.
pub fn register_response(created: bool) -> (answer: (u16, &'static str))
    ensures
        created ==> answer == (201u16, USER_CREATED),
        !created ==> answer == (500u16, USER_NOT_CREATED),
{
    if created {
        (201, USER_CREATED)
    } else {
        (500, USER_NOT_CREATED)
    }
}

/// What a login does next.
pub enum LoginAction {
    /// Record this user in the session.
    SaveSession(User),
    /// Redirect the browser here.
    Redirect(&'static str),
    /// End the request with this error.
    Fail(AppError),
}

/// The step of a login once the user named in the form has been looked up: a
/// failed lookup redirects to the login page with `unable_to_lookup_user`;
/// credentials that do not match redirect there with `wrong_credentials`; a
/// stored hash that cannot be read ends the request with a user handling
/// error; matching credentials put the user in the session.
pub fn login_after_lookup(form: LoginFormData, lookup: Result<User, DbError>) -> (action: LoginAction)
    ensures
        match lookup {
            Err(_) => action == LoginAction::Redirect(REDIRECT_LOOKUP_FAILED),
            Ok(user) => match credentials_check(
                user@,
                CredentialsView { username: form.username@, password: form.password@ },
            ) {
                Some(true) => action matches LoginAction::SaveSession(u) && u@ == user@,
                Some(false) => action == LoginAction::Redirect(REDIRECT_WRONG_CREDENTIALS),
                None => action matches LoginAction::Fail(AppError::User(_)),
            },
        },
{
    match lookup {
        Err(_) => LoginAction::Redirect(REDIRECT_LOOKUP_FAILED),
        Ok(user) => {
            let credentials = form.into_credentials();
            match user.credentials_is(credentials) {
                Ok(true) => LoginAction::SaveSession(user),
                Ok(false) => LoginAction::Redirect(REDIRECT_WRONG_CREDENTIALS),
                Err(error) => LoginAction::Fail(AppError::User(error)),
            }
        },
    }
}

/// Where a login ends once the session was saved, or could not be.
pub fn login_after_session_save(saved: bool) -> (target: &'static str)
    ensures
        saved ==> target == REDIRECT_HOME,
        !saved ==> target == REDIRECT_INTERNAL_ERROR,
{
    if saved {
        REDIRECT_HOME
    } else {
        REDIRECT_INTERNAL_ERROR
    }
}

/// Where logging out ends.
pub fn logout_target() -> (target: &'static str)
    ensures
        target == REDIRECT_HOME,
{
    REDIRECT_HOME
}

} // verus!
