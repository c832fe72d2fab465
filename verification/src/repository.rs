//! The decisions of the record repository: how many records a query may
//! return, which table a record is stored in, how the rows of the two tables
//! become records, and in which order a record is looked for by identifier.
//! The statements themselves are run by the server around this crate.
use vstd::prelude::*;
use crate::reading::{Reading, ReadingData, BME280, DS18B20};
use crate::record::{Record, RecordData, Timestamp};

verus! {

pub const DEFAULT_LIMIT: usize = 100;
pub const HARD_LIMIT: usize = 5000;

/// How many records a query returns: the default when none is asked for, and
/// never more than the hard limit.
pub fn limit(max_length: Option<usize>) -> (limit: usize)
    ensures
        limit <= HARD_LIMIT,
        match max_length {
            None => limit == DEFAULT_LIMIT,
            Some(n) => limit == if n < HARD_LIMIT { n } else { HARD_LIMIT },
        },
{
    match max_length {
        None => DEFAULT_LIMIT,
        Some(max_length) => if max_length < HARD_LIMIT {
            max_length
        } else {
            HARD_LIMIT
        },
    }
}

/// A row of the table `records.ds18b20`.
#[derive(Debug, Clone)]
pub struct Ds18b20Record {
    pub id: u128,
    pub device_name: String,
    pub raw_reading: i32,
    pub timestamp: Timestamp,
}

/// A row of the table `records.bme280`; the three values are bit patterns of
/// `f32` numbers.
#[derive(Debug, Clone, Copy)]
pub struct Bme280Record {
    pub id: u128,
    pub temperature: u32,
    pub pressure: u32,
    pub humidity: u32,
    pub timestamp: Timestamp,
}

/// The record that a row of `records.ds18b20` stands for.
pub open spec fn ds18b20_record_data(row: Ds18b20Record) -> RecordData {
    RecordData {
        id: row.id,
        timestamp: row.timestamp,
        reading: ReadingData::DS18B20 { device_name: row.device_name@, raw_reading: row.raw_reading },
    }
}

/// The record that a row of `records.bme280` stands for.
pub open spec fn bme280_record_data(row: Bme280Record) -> RecordData {
    RecordData {
        id: row.id,
        timestamp: row.timestamp,
        reading: ReadingData::BME280 {
            temperature: row.temperature,
            pressure: row.pressure,
            humidity: row.humidity,
        },
    }
}

impl Ds18b20Record {
    /// The record that the row stands for: the row's identifier and timestamp,
    /// and a DS18B20 reading with the row's device name and raw reading.
    pub fn into_record(self) -> (record: Record)
        ensures
            record@ == ds18b20_record_data(self),
            record@.id == self.id,
            record@.timestamp == self.timestamp,
            record@.reading matches ReadingData::DS18B20 { device_name, raw_reading } && device_name
                == self.device_name@ && raw_reading == self.raw_reading,
    {
        Record::new(self.id, self.timestamp, Reading::DS18B20(DS18B20::new(self.device_name, self.raw_reading)))
    }
}

impl Bme280Record {
    /// The record that the row stands for: the row's identifier and timestamp,
    /// and a BME280 reading whose temperature, pressure and humidity are the
    /// values of the columns of those names.
    pub fn into_record(self) -> (record: Record)
        ensures
            record@ == bme280_record_data(self),
            record@.id == self.id,
            record@.timestamp == self.timestamp,
            record@.reading matches ReadingData::BME280 { temperature, pressure, humidity } && temperature
                == self.temperature && pressure == self.pressure && humidity == self.humidity,
    {
        Record::new(
            self.id,
            self.timestamp,
            Reading::BME280(BME280::new(self.temperature, self.pressure, self.humidity)),
        )
    }
}

/// All records of both tables: first those of `records.bme280`, then those of
/// `records.ds18b20`, each in the order the rows came.
pub fn merge_records(bme280_rows: Vec<Bme280Record>, ds18b20_rows: Vec<Ds18b20Record>) -> (records: Vec<Record>)
    ensures
        records@.len() == bme280_rows@.len() + ds18b20_rows@.len(),
        forall|i: int| 0 <= i < bme280_rows@.len() ==> (#[trigger] records@[i])@ == bme280_record_data(bme280_rows@[i]),
        forall|j: int| 0 <= j < ds18b20_rows@.len() ==> records@[bme280_rows@.len() + j]@ == ds18b20_record_data(
            #[trigger] ds18b20_rows@[j],
        ),
{
    let mut records: Vec<Record> = Vec::new();
    let mut i: usize = 0;
    while i < bme280_rows.len()
        invariant
            i <= bme280_rows@.len(),
            records@.len() == i,
            forall|k: int| 0 <= k < i ==> (#[trigger] records@[k])@ == bme280_record_data(bme280_rows@[k]),
        decreases bme280_rows@.len() - i,
    {
        let row = bme280_rows[i];
        records.push(row.into_record());
        i = i + 1;
    }
    let mut j: usize = 0;
    while j < ds18b20_rows.len()
        invariant
            j <= ds18b20_rows@.len(),
            records@.len() == bme280_rows@.len() + j,
            forall|k: int| 0 <= k < bme280_rows@.len() ==> (#[trigger] records@[k])@ == bme280_record_data(bme280_rows@[k]),
            forall|k: int| 0 <= k < j ==> records@[bme280_rows@.len() + k]@ == ds18b20_record_data(
                #[trigger] ds18b20_rows@[k],
            ),
        decreases ds18b20_rows@.len() - j,
    {
        let row = &ds18b20_rows[j];
        let copy = Ds18b20Record {
            id: row.id,
            device_name: row.device_name.clone(),
            raw_reading: row.raw_reading,
            timestamp: row.timestamp,
        };
        records.push(copy.into_record());
        j = j + 1;
    }
    records
}

pub const INSERT_BME280: &'static str = "INSERT INTO records.bme280 (id, temperature, pressure, humidity, timestamp) VALUES ($1, $2, $3, $4, $5)";
pub const INSERT_DS18B20: &'static str = "INSERT INTO records.ds18b20 (id, device_name, raw_reading, timestamp) VALUES ($1, $2, $3, $4)";

/// The row that storing a record inserts, in the table of its kind of reading.
#[derive(Debug)]
pub enum RecordInsert {
    Bme280(Bme280Record),
    Ds18b20(Ds18b20Record),
}

impl RecordInsert {
    /// The statement that inserts the row, its parameters being the fields of
    /// the row in their order of declaration.
    pub fn statement(&self) -> (sql: &'static str)
        ensures
            self is Bme280 ==> sql@ == INSERT_BME280@,
            self is Ds18b20 ==> sql@ == INSERT_DS18B20@,
    {
        match self {
            RecordInsert::Bme280(_) => INSERT_BME280,
            RecordInsert::Ds18b20(_) => INSERT_DS18B20,
        }
    }
}

/// What storing `record` inserts: a row of `records.bme280` for a BME280
/// reading, a row of `records.ds18b20` for a DS18B20 reading, holding the
/// record's identifier, timestamp and values. Once the row is inserted, the
/// record's identifier is what the request answers with.
pub fn record_insert(record: &Record) -> (insert: RecordInsert)
    ensures
        match insert {
            RecordInsert::Bme280(row) => bme280_record_data(row) == record@,
            RecordInsert::Ds18b20(row) => ds18b20_record_data(row) == record@,
        },
        record@.reading matches ReadingData::BME280 { temperature, pressure, humidity } ==> (insert matches RecordInsert::Bme280(row)
            && row.id == record@.id && row.timestamp == record@.timestamp && row.temperature == temperature
            && row.pressure == pressure && row.humidity == humidity),
        record@.reading matches ReadingData::DS18B20 { device_name, raw_reading } ==> (insert matches RecordInsert::Ds18b20(row)
            && row.id == record@.id && row.timestamp == record@.timestamp && row.device_name@ == device_name
            && row.raw_reading == raw_reading),
{
    let id = record.id();
    let timestamp = record.timestamp();
    match record.reading() {
        Reading::BME280(reading) => RecordInsert::Bme280(
            Bme280Record {
                id,
                temperature: reading.temperature(),
                pressure: reading.pressure(),
                humidity: reading.humidity(),
                timestamp,
            },
        ),
        Reading::DS18B20(reading) => {
            let device_name = reading.device_name().to_string();
            RecordInsert::Ds18b20(
                Ds18b20Record { id, device_name, raw_reading: reading.raw_reading(), timestamp },
            )
        },
    }
}

/// What the lookup of a record by identifier has learnt so far.
pub enum LookupEvent {
    /// The lookup begins.
    Start,
    /// The table `records.bme280` answered.
    Bme280Found(Option<Bme280Record>),
    /// The table `records.ds18b20` answered.
    Ds18b20Found(Option<Ds18b20Record>),
}

/// What the lookup of a record does next.
pub enum LookupAction {
    /// Look for the identifier in `records.bme280`.
    QueryBme280(u128),
    /// Look for the identifier in `records.ds18b20`.
    QueryDs18b20(u128),
    /// The lookup ends with this record, or with none.
    Finish(Option<Record>),
}

/// A step of the lookup in mathematical terms.
pub enum LookupStep {
    QueryBme280(u128),
    QueryDs18b20(u128),
    Finish(Option<RecordData>),
}

/// The next step of looking up a record by identifier: the table
/// `records.bme280` is asked first; only when it has no such row is
/// `records.ds18b20` asked; the lookup ends with the first row found, as a
/// record, or with none.
pub open spec fn lookup_step(record_id: u128, event: LookupEvent) -> LookupStep {
    match event {
        LookupEvent::Start => LookupStep::QueryBme280(record_id),
        LookupEvent::Bme280Found(Some(row)) => LookupStep::Finish(Some(bme280_record_data(row))),
        LookupEvent::Bme280Found(None) => LookupStep::QueryDs18b20(record_id),
        LookupEvent::Ds18b20Found(Some(row)) => LookupStep::Finish(Some(ds18b20_record_data(row))),
        LookupEvent::Ds18b20Found(None) => LookupStep::Finish(None),
    }
}

impl LookupAction {
    pub open spec fn step(&self) -> LookupStep {
        match self {
            LookupAction::QueryBme280(id) => LookupStep::QueryBme280(*id),
            LookupAction::QueryDs18b20(id) => LookupStep::QueryDs18b20(*id),
            LookupAction::Finish(Some(r)) => LookupStep::Finish(Some(r@)),
            LookupAction::Finish(None) => LookupStep::Finish(None),
        }
    }
}

/// The next step of looking up a record by identifier (see `lookup_step`).
pub fn next_lookup_action(record_id: u128, event: LookupEvent) -> (action: LookupAction)
    ensures
        action.step() == lookup_step(record_id, event),
{
    match event {
        LookupEvent::Start => LookupAction::QueryBme280(record_id),
        LookupEvent::Bme280Found(Some(row)) => LookupAction::Finish(Some(row.into_record())),
        LookupEvent::Bme280Found(None) => LookupAction::QueryDs18b20(record_id),
        LookupEvent::Ds18b20Found(Some(row)) => LookupAction::Finish(Some(row.into_record())),
        LookupEvent::Ds18b20Found(None) => LookupAction::Finish(None),
    }
}

/// The record found by a lookup, given what the two tables hold under the
/// identifier: the BME280 row when there is one, else the DS18B20 row.
pub open spec fn looked_up_record(bme280: Option<Bme280Record>, ds18b20: Option<Ds18b20Record>) -> Option<RecordData> {
    match bme280 {
        Some(row) => Some(bme280_record_data(row)),
        None => match ds18b20 {
            Some(row) => Some(ds18b20_record_data(row)),
            None => None,
        },
    }
}

/// Driving the lookup with the answers of the two tables ends with the record
/// that they hold under the identifier, the BME280 row taking precedence; the
/// first step asks `records.bme280` for that identifier, and `records.ds18b20`
/// is asked, for the same identifier, exactly when the first answer is empty.
pub proof fn lemma_lookup_finds_the_stored_record(
    record_id: u128,
    bme280: Option<Bme280Record>,
    ds18b20: Option<Ds18b20Record>,
)
    ensures
        lookup_step(record_id, LookupEvent::Start) == LookupStep::QueryBme280(record_id),
        bme280 is Some ==> lookup_step(record_id, LookupEvent::Bme280Found(bme280)) == LookupStep::Finish(
            looked_up_record(bme280, ds18b20),
        ),
        bme280 is None ==> {
            &&& lookup_step(record_id, LookupEvent::Bme280Found(bme280)) == LookupStep::QueryDs18b20(record_id)
            &&& lookup_step(record_id, LookupEvent::Ds18b20Found(ds18b20)) == LookupStep::Finish(
                looked_up_record(bme280, ds18b20),
            )
        },
{
}

/// A stored record is found again: when the table of its kind gives back the
/// row that storing it inserted (and, for a DS18B20 record, `records.bme280`
/// holds nothing under its identifier), the lookup ends with that record,
/// whatever `records.ds18b20` holds for a BME280 record.
pub proof fn lemma_stored_record_is_found(record: RecordData, insert: RecordInsert, ds18b20: Option<Ds18b20Record>)
    requires
        match insert {
            RecordInsert::Bme280(row) => bme280_record_data(row) == record,
            RecordInsert::Ds18b20(row) => ds18b20_record_data(row) == record,
        },
    ensures
        insert matches RecordInsert::Bme280(row) ==> looked_up_record(Some(row), ds18b20) == Some(record),
        insert matches RecordInsert::Ds18b20(row) ==> looked_up_record(None, Some(row)) == Some(record),
{
}

/// A BME280 row read back is the record whose reading holds the row's
/// columns under the same names: a record with a BME280 reading, stored as the
/// row that holds its identifier, timestamp, temperature, pressure and
/// humidity in the columns of those names, is read back as that very record.
pub proof fn lemma_bme280_row_reads_back_as_stored(record: RecordData, row: Bme280Record)
    requires
        record.reading matches ReadingData::BME280 { temperature, pressure, humidity } && row.temperature
            == temperature && row.pressure == pressure && row.humidity == humidity,
        row.id == record.id,
        row.timestamp == record.timestamp,
    ensures
        bme280_record_data(row) == record,
        bme280_record_data(row).reading matches ReadingData::BME280 { temperature, pressure, humidity }
            && temperature == row.temperature && pressure == row.pressure && humidity == row.humidity,
{
}

/// A DS18B20 row read back is the record whose reading holds the row's device
/// name and raw reading: a record with a DS18B20 reading, stored as the row
/// that holds its identifier, timestamp, device name and raw reading, is read
/// back as that very record.
pub proof fn lemma_ds18b20_row_reads_back_as_stored(record: RecordData, row: Ds18b20Record)
    requires
        record.reading matches ReadingData::DS18B20 { device_name, raw_reading } && row.device_name@
            == device_name && row.raw_reading == raw_reading,
        row.id == record.id,
        row.timestamp == record.timestamp,
    ensures
        ds18b20_record_data(row) == record,
{
}

} // verus!
