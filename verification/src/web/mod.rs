//! What the web pages show of records.
pub mod record_display;
pub mod record_view;
