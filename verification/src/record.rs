//! Records: a reading annotated with the moment of its capture and a unique
//! identifier.
use vstd::prelude::*;
use crate::reading::{Reading, ReadingData};

verus! {

/// Whether `chrono::DateTime::<Utc>::from_timestamp(seconds, nanoseconds)`
/// gives a date and time, that is, whether the pair is a moment that `chrono`
/// can represent.
pub uninterp spec fn utc_representable(seconds: i64, nanoseconds: u32) -> bool;

/// The text of that moment as `chrono` displays a `DateTime<Utc>`.
pub uninterp spec fn utc_text(seconds: i64, nanoseconds: u32) -> Seq<char>;

/// Asks `chrono::DateTime::from_timestamp` whether the pair is a moment it can
/// represent.
#[verifier::external_body]
fn utc_from_timestamp_is_some(seconds: i64, nanoseconds: u32) -> (representable: bool)
    ensures
        representable == utc_representable(seconds, nanoseconds),
{
    chrono::DateTime::from_timestamp(seconds, nanoseconds).is_some()
}

/// Displays the moment with `chrono`'s `Display` impl of `DateTime<Utc>`, which
/// writes the date and time and then `" UTC"` (the offset of `Utc`).
/// Claimed: the text is a function of the pair and ends with `" UTC"`.
#[verifier::external_body]
fn utc_to_string(seconds: i64, nanoseconds: u32) -> (text: String)
    requires
        utc_representable(seconds, nanoseconds),
    ensures
        text@ == utc_text(seconds, nanoseconds),
        text@.len() >= 4,
        text@.subrange(text@.len() - 4, text@.len() as int) == " UTC"@,
{
    match chrono::DateTime::from_timestamp(seconds, nanoseconds) {
        Some(moment) => moment.to_string(),
        None => String::new(),
    }
}

/// A moment in UTC: seconds since the Unix epoch and nanoseconds within the
/// second (beyond 10^9 only for a leap second, as in `chrono`).
#[derive(Debug, Clone, Copy, PartialEq, Eq)]
pub struct Timestamp {
    seconds: i64,
    nanoseconds: u32,
}

impl Timestamp {
    /// Only moments that `chrono` can represent are timestamps.
    #[verifier::type_invariant]
    spec fn representable(self) -> bool {
        utc_representable(self.seconds, self.nanoseconds)
    }

    pub closed spec fn spec_seconds(self) -> i64 {
        self.seconds
    }

    pub closed spec fn spec_nanoseconds(self) -> u32 {
        self.nanoseconds
    }

    /// The moment `seconds` and `nanoseconds` after the Unix epoch, if `chrono`
    /// can represent it.
    pub fn new(seconds: i64, nanoseconds: u32) -> (timestamp: Option<Timestamp>)
        ensures
            timestamp is Some <==> utc_representable(seconds, nanoseconds),
            timestamp matches Some(t) ==> t.spec_seconds() == seconds && t.spec_nanoseconds() == nanoseconds,
    {
        if utc_from_timestamp_is_some(seconds, nanoseconds) {
            Some(Timestamp { seconds, nanoseconds })
        } else {
            None
        }
    }

    pub fn seconds(&self) -> (seconds: i64)
        ensures
            seconds == self.spec_seconds(),
    {
        self.seconds
    }

    pub fn nanoseconds(&self) -> (nanoseconds: u32)
        ensures
            nanoseconds == self.spec_nanoseconds(),
    {
        self.nanoseconds
    }

    /// The moment as `chrono` displays it.
    pub fn to_string(&self) -> (text: String)
        ensures
            text@ == utc_text(self.spec_seconds(), self.spec_nanoseconds()),
    {
        proof {
            use_type_invariant(self);
        }
        utc_to_string(self.seconds, self.nanoseconds)
    }
}

/// What a record holds, in mathematical terms.
pub struct RecordData {
    pub id: u128,
    pub timestamp: Timestamp,
    pub reading: ReadingData,
}

/// A single reading with the moment of its capture and a unique identifier.
#[derive(Debug, Clone)]
pub struct Record {
    id: u128,
    timestamp: Timestamp,
    reading: Reading,
}

impl View for Record {
    type V = RecordData;

    closed spec fn view(&self) -> RecordData {
        RecordData { id: self.id, timestamp: self.timestamp, reading: self.reading@ }
    }
}

impl Record {
    pub fn new(id: u128, timestamp: Timestamp, reading: Reading) -> (record: Self)
        ensures
            record@ == (RecordData { id, timestamp, reading: reading@ }),
    {
        Self { id, timestamp, reading }
    }

    pub fn id(&self) -> (id: u128)
        ensures
            id == self@.id,
    {
        self.id
    }

    pub fn timestamp(&self) -> (timestamp: Timestamp)
        ensures
            timestamp == self@.timestamp,
    {
        self.timestamp
    }

    pub fn reading(&self) -> (reading: &Reading)
        ensures
            reading@ == self@.reading,
    {
        &self.reading
    }
}

} // verus!
