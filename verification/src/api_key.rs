//! API keys whose secret value is the hyphenated text of a random UUID
//! (those of `authentication::api_key` carry a base64 token instead).
use vstd::prelude::*;
use crate::ids::{id_to_string, is_random_uuid, new_random_id, uuid_text};

verus! {

/// What such a key holds, in mathematical terms.
pub struct ApiKeyView {
    pub id: u128,
    pub name: Seq<char>,
    pub owner: Seq<char>,
    pub value: Seq<char>,
}

/// An API key whose value is the hyphenated text of a random UUID.
#[derive(Debug, Clone)]
pub struct ApiKey {
    id: u128,
    name: String,
    owner: String,
    value: String,
}

impl View for ApiKey {
    type V = ApiKeyView;

    closed spec fn view(&self) -> ApiKeyView {
        ApiKeyView { id: self.id, name: self.name@, owner: self.owner@, value: self.value@ }
    }
}

impl ApiKey {
    /// A new key with a fresh random identifier, whose value is the text of
    /// another fresh random UUID.
    pub fn new(name: &str, owner: &str) -> (key: Self)
        ensures
            key@.name == name@,
            key@.owner == owner@,
            exists|v: u128| key@.value == #[trigger] uuid_text(v),
            exists|v: u128| is_random_uuid(v) && key@.value == #[trigger] uuid_text(v),
            is_random_uuid(key@.id),
    {
        let id = new_random_id();
        let name = name.to_string();
        let owner = owner.to_string();
        let secret = new_random_id();
        let value = id_to_string(secret);
        Self { id, name, owner, value }
    }

    pub fn id(&self) -> (id: u128)
        ensures
            id == self@.id,
    {
        self.id
    }

    pub fn name(&self) -> (name: &str)
        ensures
            name@ == self@.name,
    {
        self.name.as_str()
    }

    pub fn owner(&self) -> (owner: &str)
        ensures
            owner@ == self@.owner,
    {
        self.owner.as_str()
    }

    pub fn value(&self) -> (value: &str)
        ensures
            value@ == self@.value,
    {
        self.value.as_str()
    }
}

} // verus!
