//! Herodot: a server that persists sensor readings.
//!
//! This crate holds the verified core of the server: parsing of the
//! `Authorization` header, the error taxonomy and its mapping to HTTP
//! responses, the security headers, the record model, the decisions that
//! the request handlers take between database calls, and the handling of
//! passwords, tokens and API keys.

pub mod ids;
pub mod user;
pub mod error;
pub mod api;
pub mod http_security_headers;
pub mod reading;
pub mod record;
pub mod repository;
pub mod authentication;
pub mod api_key;
pub mod status;
pub mod web;
