//! Authentication: tokens, API keys, logged-in users and the login and
//! registration flows.
pub mod api_key;
pub mod token;
pub mod user_api;
pub mod user_auth;
