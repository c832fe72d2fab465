//! A record as the records page lists it: three texts.
use vstd::prelude::*;
use crate::ids::{id_to_string, uuid_text};
use crate::record::{utc_text, Record};

verus! {

/// A record as texts: its identifier, its timestamp and its reading.
pub struct RecordDisplay {
    pub id: String,
    pub timestamp: String,
    pub reading: String,
}

impl RecordDisplay {
    /// The texts of `record`: the hyphenated identifier, the timestamp as
    /// `chrono` displays it, and `reading_text`, the text of its reading
    /// (which goes through floating-point formatting and is made by the caller).
    pub fn from_record(record: &Record, reading_text: String) -> (display: Self)
        ensures
            display.id@ == uuid_text(record@.id),
            display.timestamp@ == utc_text(record@.timestamp.spec_seconds(), record@.timestamp.spec_nanoseconds()),
            display.reading@ == reading_text@,
    {
        Self {
            id: id_to_string(record.id()),
            timestamp: record.timestamp().to_string(),
            reading: reading_text,
        }
    }
}

} // verus!
