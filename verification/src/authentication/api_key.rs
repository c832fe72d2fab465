//! API keys: named tokens that a user creates to let a sensor put records.
use vstd::prelude::*;
use crate::authentication::token::{is_token_text, Token};
use crate::authentication::user_auth::{AuthUser, AuthUserView};
use crate::ids::{is_random_uuid, lemma_random_id_is_not_nil, new_random_id};

verus! {

pub const OWNER_MISMATCH: &'static str = "Creation of keys owner by other users is not allowed.";
pub const CREATION_FAILED: &'static str = "Internal Server Error: Could not create token!";

/// What an API key holds, in mathematical terms.
pub struct ApiKeyView {
    pub id: u128,
    pub name: Seq<char>,
    pub owner: Seq<char>,
    pub token: Seq<char>,
}

/// An API key: an identifier, a name, the user name of its owner and its token.
#[derive(Debug, Clone)]
pub struct ApiKey {
    id: u128,
    name: String,
    owner: String,
    token: String,
}

impl View for ApiKey {
    type V = ApiKeyView;

    closed spec fn view(&self) -> ApiKeyView {
        ApiKeyView { id: self.id, name: self.name@, owner: self.owner@, token: self.token@ }
    }
}

/// The fields of the form that asks for a new API key.
pub struct ApiKeyFormData {
    pub name: String,
    pub owner: String,
}

impl ApiKey {
    /// A new key with a fresh random identifier and a fresh token.
    pub fn new(name: &str, owner: &str) -> (key: Self)
        ensures
            key@.name == name@,
            key@.owner == owner@,
            is_token_text(key@.token),
            is_random_uuid(key@.id),
    {
        let id = new_random_id();
        let name = name.to_string();
        let owner = owner.to_string();
        let token = Token::new().into_string();
        Self { id, name, owner, token }
    }

    /// A key as read back from storage.
    pub fn from_parts(id: u128, name: String, owner: String, token: String) -> (key: Self)
        ensures
            key@ == (ApiKeyView { id, name: name@, owner: owner@, token: token@ }),
    {
        Self { id, name, owner, token }
    }

    /// A new key named and owned as the form says.
    pub fn from_form(form_data: ApiKeyFormData) -> (key: Self)
        ensures
            key@.name == form_data.name@,
            key@.owner == form_data.owner@,
            is_token_text(key@.token),
            is_random_uuid(key@.id),
    {
        ApiKey::new(form_data.name.as_str(), form_data.owner.as_str())
    }

    pub fn id(&self) -> (id: u128)
        ensures
            id == self@.id,
    {
        self.id
    }

    pub fn name(&self) -> (name: &str)
        ensures
            name@ == self@.name,
    {
        self.name.as_str()
    }

    pub fn owner(&self) -> (owner: &str)
        ensures
            owner@ == self@.owner,
    {
        self.owner.as_str()
    }

    pub fn token(&self) -> (token: String)
        ensures
            token@ == self@.token,
    {
        self.token.clone()
    }

    /// What a request for a new key gets: a user may only create keys that
    /// they own, and is refused with 403 otherwise; a key that may be created
    /// is a fresh key named and owned as the form says.
    pub fn request(user: &AuthUser, form_data: ApiKeyFormData) -> (outcome: Result<ApiKey, (u16, &'static str)>)
        ensures
            user@.username != form_data.owner@ ==> outcome == Err::<ApiKey, (u16, &'static str)>((403u16, OWNER_MISMATCH)),
            user@.username == form_data.owner@ ==> (outcome matches Ok(key) && key@.name == form_data.name@
                && key@.owner == user@.username && is_token_text(key@.token)),
            outcome matches Ok(key) ==> requested_key(key@, user@, form_data.name@),
    {
        if !user.is_named(&form_data.owner) {
            return Err((403, OWNER_MISMATCH));
        }
        Ok(ApiKey::from_form(form_data))
    }
}

/// What `ApiKey::request` promises of a key it creates for `user` from
/// `form_data`: the name of the form, the user as owner, a token of URL-safe
/// base64 text and a freshly drawn random identifier.
pub open spec fn requested_key(key: ApiKeyView, user: AuthUserView, form_name: Seq<char>) -> bool {
    &&& key.name == form_name
    &&& key.owner == user.username
    &&& is_token_text(key.token)
    &&& is_random_uuid(key.id)
}

/// The identifier of a requested key is drawn afresh, not taken from the user:
/// it carries the version 4 mark, so it is never the nil UUID, and it differs
/// from the user's identifier whenever that one lacks the mark.
pub proof fn lemma_requested_key_id_is_fresh(key: ApiKeyView, user: AuthUserView, form_name: Seq<char>)
    requires
        requested_key(key, user, form_name),
    ensures
        key.id != 0,
        (key.id >> 76u128) & 0xfu128 == 4,
        !is_random_uuid(user.id) ==> key.id != user.id,
{
    lemma_random_id_is_not_nil(key.id);
}

/// The answer to a request whose key could not be stored.
pub fn creation_failed() -> (answer: (u16, &'static str))
    ensures
        answer == (500u16, CREATION_FAILED),
{
    (500, CREATION_FAILED)
}

/// The `Cache-Control` value of the page that shows a new key: the token is
/// shown once and must not be kept by any cache.
pub const NO_STORE: &'static str = "no-store";

/// How the page that shows a stored key is answered: its status and its
/// `Cache-Control` header.
pub struct KeyCreated {
    pub status: u16,
    pub cache_control: &'static str,
}

/// The answer once storing a new key succeeded or failed: the key's page with
/// 201 and `Cache-Control: no-store`, or 500 with its message.
pub fn key_stored_answer(stored: bool) -> (answer: Result<KeyCreated, (u16, &'static str)>)
    ensures
        stored ==> (answer matches Ok(page) && page.status == 201 && page.cache_control == NO_STORE),
        !stored ==> (answer matches Err(failure) && failure == (500u16, CREATION_FAILED)),
{
    if stored {
        Ok(KeyCreated { status: 201, cache_control: NO_STORE })
    } else {
        Err(creation_failed())
    }
}

} // verus!
