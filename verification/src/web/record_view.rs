//! Records as the pages of one kind of sensor show them.
use vstd::prelude::*;
use crate::ids::{id_to_string, uuid_text};
use crate::reading::{Reading, ReadingData};
use crate::record::{utc_text, Record, Timestamp};

verus! {

/// A record as texts: its identifier, its timestamp and its reading.
pub struct RecordView {
    pub id: String,
    pub timestamp: String,
    pub reading: String,
}

impl RecordView {
    /// The texts of `record`: the hyphenated identifier, the timestamp as
    /// `chrono` displays it, and `reading_text`, the text of its reading
    /// (which goes through floating-point formatting and is made by the caller).
    pub fn from_record(record: &Record, reading_text: String) -> (view: Self)
        ensures
            view.id@ == uuid_text(record@.id),
            view.timestamp@ == utc_text(record@.timestamp.spec_seconds(), record@.timestamp.spec_nanoseconds()),
            view.reading@ == reading_text@,
    {
        Self {
            id: id_to_string(record.id()),
            timestamp: record.timestamp().to_string(),
            reading: reading_text,
        }
    }
}

/// A BME280 record with its values in separate fields (bit patterns of `f32`).
#[derive(Debug, Clone, Copy)]
pub struct Bme280RecordView {
    pub id: u128,
    pub temperature: u32,
    pub pressure: u32,
    pub humidity: u32,
    pub timestamp: Timestamp,
}

/// A DS18B20 record with its values in separate fields.
#[derive(Debug, Clone)]
pub struct Ds18b20RecordView {
    pub id: u128,
    pub device_name: String,
    pub raw_reading: i32,
    pub timestamp: Timestamp,
}

impl Bme280RecordView {
    /// The fields of a BME280 record; a record of another kind has none.
    pub fn try_from_record(record: Record) -> (view: Result<Self, ()>)
        ensures
            match record@.reading {
                ReadingData::BME280 { temperature, pressure, humidity } => view == Ok::<Self, ()>(
                    Bme280RecordView {
                        id: record@.id,
                        temperature,
                        pressure,
                        humidity,
                        timestamp: record@.timestamp,
                    },
                ),
                _ => view is Err,
            },
    {
        match record.reading() {
            Reading::BME280(reading) => Ok(
                Bme280RecordView {
                    id: record.id(),
                    temperature: reading.temperature(),
                    pressure: reading.pressure(),
                    humidity: reading.humidity(),
                    timestamp: record.timestamp(),
                },
            ),
            _ => Err(()),
        }
    }
}

impl Ds18b20RecordView {
    /// The fields of a DS18B20 record; a record of another kind has none.
    pub fn try_from_record(record: Record) -> (view: Result<Self, ()>)
        ensures
            match record@.reading {
                ReadingData::DS18B20 { device_name, raw_reading } => view matches Ok(v) && v.id == record@.id
                    && v.device_name@ == device_name && v.raw_reading == raw_reading && v.timestamp
                    == record@.timestamp,
                _ => view is Err,
            },
    {
        match record.reading() {
            Reading::DS18B20(reading) => Ok(
                Ds18b20RecordView {
                    id: record.id(),
                    device_name: reading.device_name().to_string(),
                    raw_reading: reading.raw_reading(),
                    timestamp: record.timestamp(),
                },
            ),
            _ => Err(()),
        }
    }
}

} // verus!
