//! User accounts and their credentials.
//!
//! A user is stored with an Argon2 hash of the password in PHC string form.
//! The hashing and the checking of a password against a hash are done by the
//! `argon2` crate; this module decides what a login attempt means.
use argon2::password_hash::rand_core::OsRng;
use argon2::password_hash::SaltString;
use argon2::{Argon2, PasswordHash, PasswordHasher, PasswordVerifier};
use vstd::prelude::*;
use crate::ids::{is_random_uuid, lemma_random_id_is_not_nil, new_random_id};

verus! {

/// The error type of the `password-hash` crate, carried through unchanged.
#[verifier::external_type_specification]
#[verifier::external_body]
pub struct ExPasswordHashError(argon2::password_hash::Error);

/// Whether `PasswordHash::new` (crate `password-hash`) parses `hash` as a PHC string.
pub uninterp spec fn phc_string_parses(hash: Seq<char>) -> bool;

/// Whether `Argon2::default().verify_password(password, &PasswordHash::new(hash))`
/// succeeds, that is, whether hashing `password` again with the algorithm,
/// parameters and salt recorded in `hash` gives the output recorded there.
pub uninterp spec fn argon2_accepts(hash: Seq<char>, password: Seq<char>) -> bool;

/// The longest password, in bytes of UTF-8, that Argon2 hashes.
pub const MAX_PASSWORD_BYTES: u64 = 0xFFFF_FFFF;

/// Whether Argon2 takes `password`: its UTF-8 encoding is at most
/// `MAX_PASSWORD_BYTES` bytes long.
pub open spec fn password_fits(password: Seq<char>) -> bool {
    vstd::utf8::encode_utf8(password).len() <= MAX_PASSWORD_BYTES
}

/// The start of the PHC string of a hash made with `Argon2::default()`:
/// algorithm Argon2id, version 19, 19456 KiB of memory, 2 passes, 1 lane.
pub const ARGON2_DEFAULT_PHC_PREFIX: &'static str = "$argon2id$v=19$m=19456,t=2,p=1$";

/// The length of such a PHC string: the prefix, 22 characters of salt, `$`
/// and 43 characters of output.
pub const ARGON2_DEFAULT_PHC_LENGTH: usize = 97;

/// Whether `hash` has the form of a PHC string made with `Argon2::default()`
/// and a 16-byte salt.
pub open spec fn is_default_argon2_phc_form(hash: Seq<char>) -> bool {
    &&& hash.len() == ARGON2_DEFAULT_PHC_LENGTH
    &&& hash.subrange(0, 31) == ARGON2_DEFAULT_PHC_PREFIX@
    &&& hash[53] == '$'
}

/// Hashes `password` with `Argon2::default()` and a salt that
/// `SaltString::generate(&mut OsRng)` draws at random, and gives the PHC string
/// of the hash (`PasswordHash::to_string`).
/// Claimed: a hash that comes back parses again as a PHC string, and checking the
/// same password against it succeeds (`verify_password` recomputes the hash with
/// the recorded salt and parameters, and the computation is deterministic).
/// Claimed too, as the source of `argon2` 0.5 shows: with the default
/// parameters (32-byte output) and a 16-byte generated salt, the only check
/// that can fail is `verify_inputs`'s bound on the password, `MAX_PWD_LEN`
/// (`0xFFFFFFFF`) bytes, so hashing fails exactly when the UTF-8 encoding of
/// the password is longer than that.
/// Claimed of the form of the text, as `PasswordHash`'s `Display` writes the
/// fields that `Argon2::hash_password` fills in: `$argon2id`, `$v=19`, the
/// default parameters `$m=19456,t=2,p=1`, then `$` and the 22 base64 characters
/// of the 16-byte salt, and `$` and the 43 base64 characters of the 32-byte
/// output, 97 characters in all. Nothing is claimed of the salt's value.
#[verifier::external_body]
fn argon2_hash_with_random_salt(password: &str) -> (hash: Result<String, argon2::password_hash::Error>)
    ensures
        hash is Ok <==> password_fits(password@),
        hash matches Ok(h) ==> phc_string_parses(h@) && argon2_accepts(h@, password@),
        hash matches Ok(h) ==> is_default_argon2_phc_form(h@),
{
    let salt = SaltString::generate(&mut OsRng);
    match Argon2::default().hash_password(password.as_bytes(), &salt) {
        Ok(parsed) => Ok(parsed.to_string()),
        Err(error) => Err(error),
    }
}

/// Parses `hash` with `PasswordHash::new` and, when that succeeds, checks
/// `password` against it with `Argon2::default().verify_password`, any error of
/// the check counting as a mismatch.
/// Claimed: the result is an error exactly when the parse fails, and otherwise
/// tells whether the check succeeded.
#[verifier::external_body]
fn argon2_check_password(hash: &str, password: &str) -> (matches: Result<bool, argon2::password_hash::Error>)
    ensures
        matches is Ok <==> phc_string_parses(hash@),
        matches matches Ok(m) ==> m == argon2_accepts(hash@, password@),
{
    match PasswordHash::new(hash) {
        Ok(parsed) => Ok(Argon2::default().verify_password(password.as_bytes(), &parsed).is_ok()),
        Err(error) => Err(error),
    }
}

/// Describes an error of the `password-hash` crate with its `Display` impl.
/// Nothing is claimed of the text.
#[verifier::external_body]
fn describe_password_hash_error(error: &argon2::password_hash::Error) -> (text: String) {
    error.to_string()
}

/// The outcome of checking credentials against a user: `Some(false)` when the
/// user names differ; otherwise `None` when the stored hash is not a PHC string,
/// and else whether Argon2 accepts the password.
pub open spec fn credentials_check(user: UserView, credentials: CredentialsView) -> Option<bool> {
    if user.username != credentials.username {
        Some(false)
    } else if !phc_string_parses(user.hashed_password) {
        None
    } else {
        Some(argon2_accepts(user.hashed_password, credentials.password))
    }
}

/// What `User::new(username, password)` promises of the user it creates.
pub open spec fn created_from(user: UserView, username: Seq<char>, password: Seq<char>) -> bool {
    &&& is_random_uuid(user.id)
    &&& user.username == username
    &&& is_default_argon2_phc_form(user.hashed_password)
    &&& phc_string_parses(user.hashed_password)
    &&& argon2_accepts(user.hashed_password, password)
}

/// What a user account holds, in mathematical terms.
pub struct UserView {
    pub id: u128,
    pub username: Seq<char>,
    pub hashed_password: Seq<char>,
}

/// A user account: an identifier, a user name and the PHC string of the
/// Argon2 hash of the password (the database column is named `password`).
#[derive(Debug, Clone)]
pub struct User {
    id: u128,
    username: String,
    hashed_password: String,
}

impl View for User {
    type V = UserView;

    closed spec fn view(&self) -> UserView {
        UserView { id: self.id, username: self.username@, hashed_password: self.hashed_password@ }
    }
}

/// Errors in the handling of passwords.
#[derive(Debug)]
pub enum UserError {
    HashingError(argon2::password_hash::Error),
}

impl UserError {
    /// The text that the error is reported with: `Error hashing password: ` and
    /// the description of the underlying error.
    pub fn message(&self) -> (text: String)
        ensures
            text@.len() >= 24,
            text@.subrange(0, 24) == "Error hashing password: "@,
    {
        match self {
            UserError::HashingError(error) => {
                let prefix = "Error hashing password: ";
                proof {
                    reveal_strlit("Error hashing password: ");
                }
                let mut text = String::from_str(prefix);
                let detail = describe_password_hash_error(error);
                text.append(detail.as_str());
                assert(text@.subrange(0, 24) =~= prefix@);
                text
            },
        }
    }
}

/// Hashes a password with Argon2 and a fresh random salt; fails exactly when
/// the password is too long for Argon2.
pub fn hash_password(password: String) -> (hash: Result<String, UserError>)
    ensures
        hash is Ok <==> password_fits(password@),
        hash matches Ok(h) ==> phc_string_parses(h@) && argon2_accepts(h@, password@),
        hash matches Ok(h) ==> is_default_argon2_phc_form(h@),
{
    match argon2_hash_with_random_salt(password.as_str()) {
        Ok(hash) => Ok(hash),
        Err(error) => Err(UserError::HashingError(error)),
    }
}

impl User {
    /// Rebuilds a user from what is stored of it.
    pub fn from_parts(id: u128, username: String, hashed_password: String) -> (user: User)
        ensures
            user@ == (UserView { id, username: username@, hashed_password: hashed_password@ }),
    {
        User { id, username, hashed_password }
    }

    pub fn id(&self) -> (id: u128)
        ensures
            id == self@.id,
    {
        self.id
    }

    /// Creates a user with a fresh random identifier, storing an Argon2 hash of
    /// `password`; fails only when hashing fails, that is, exactly when the
    /// password is too long for Argon2.
    pub fn new(username: String, password: String) -> (user: Result<User, UserError>)
        ensures
            user is Ok <==> password_fits(password@),
            user matches Ok(u) ==> created_from(u@, username@, password@),
            user matches Ok(u) ==> is_random_uuid(u@.id),
    {
        let hashed_password = match hash_password(password) {
            Ok(hash) => hash,
            Err(error) => return Err(error),
        };
        Ok(User { id: new_random_id(), username, hashed_password })
    }

    /// Whether `credentials` are this user's: the user names must be equal and
    /// the password must pass the Argon2 check against the stored hash. Fails
    /// when the names are equal and the stored hash is not a PHC string.
    pub fn credentials_is(&self, credentials: UserCredentials) -> (is: Result<bool, UserError>)
        ensures
            match credentials_check(self@, credentials@) {
                Some(b) => is == Ok::<bool, UserError>(b),
                None => is is Err,
            },
    {
        if !(self.username == credentials.username) {
            return Ok(false);
        }
        match self.password_matches(credentials.password.as_str()) {
            Ok(does_match) => Ok(does_match),
            Err(error) => Err(error),
        }
    }

    /// Checks `password` against the stored hash.
    pub fn password_matches(&self, password: &str) -> (matches: Result<bool, UserError>)
        ensures
            matches is Ok <==> phc_string_parses(self@.hashed_password),
            matches matches Ok(m) ==> m == argon2_accepts(self@.hashed_password, password@),
    {
        match argon2_check_password(self.hashed_password.as_str(), password) {
            Ok(does_match) => Ok(does_match),
            Err(error) => Err(UserError::HashingError(error)),
        }
    }

    pub fn username(&self) -> (name: &str)
        ensures
            name@ == self@.username,
    {
        self.username.as_str()
    }

    pub fn hashed_password(&self) -> (hash: &str)
        ensures
            hash@ == self@.hashed_password,
    {
        self.hashed_password.as_str()
    }
}

/// A user name and a password as submitted in a login form.
pub struct UserCredentials {
    username: String,
    password: String,
}

/// What a set of credentials holds, in mathematical terms.
pub struct CredentialsView {
    pub username: Seq<char>,
    pub password: Seq<char>,
}

impl View for UserCredentials {
    type V = CredentialsView;

    closed spec fn view(&self) -> CredentialsView {
        CredentialsView { username: self.username@, password: self.password@ }
    }
}

impl UserCredentials {
    pub fn new(username: String, password: String) -> (credentials: Self)
        ensures
            credentials@ == (CredentialsView { username: username@, password: password@ }),
    {
        Self { username, password }
    }
}

/// A user created from a user name and a password accepts exactly those
/// credentials: checking them gives `Ok(true)`.
pub proof fn lemma_new_user_accepts_its_credentials(user: UserView, username: Seq<char>, password: Seq<char>)
    requires
        created_from(user, username, password),
    ensures
        credentials_check(user, CredentialsView { username, password }) == Some(true),
{
}

/// A created user's identifier is a freshly drawn random UUID: it carries the
/// version 4 mark, so it is never the nil UUID (nor any identifier without
/// that mark), whatever the user name and the password.
pub proof fn lemma_new_user_id_is_random(user: UserView, username: Seq<char>, password: Seq<char>, other: u128)
    requires
        created_from(user, username, password),
        !is_random_uuid(other),
    ensures
        user.id != 0,
        (user.id >> 76u128) & 0xfu128 == 4,
        user.id != other,
{
    lemma_random_id_is_not_nil(user.id);
}

/// Credentials that name another user are refused, whatever the password:
/// checking them gives `Ok(false)`, never an error.
pub proof fn lemma_other_user_name_is_refused(user: UserView, credentials: CredentialsView)
    requires
        user.username != credentials.username,
    ensures
        credentials_check(user, credentials) == Some(false),
{
}

/// A stored hash is never empty, and it differs from the password unless the
/// password itself has the form of such a hash.
pub proof fn lemma_stored_hash_is_not_the_password(hash: Seq<char>, password: Seq<char>)
    requires
        is_default_argon2_phc_form(hash),
        !is_default_argon2_phc_form(password),
    ensures
        hash.len() > 0,
        hash != password,
{
}

} // verus!
