use herodot::reading::{Reading, DS18B20};
use herodot::record::{Record, Timestamp};
use herodot::repository::{
    limit, merge_records, next_lookup_action, record_insert, Bme280Record, Ds18b20Record, LookupAction,
    LookupEvent, RecordInsert, DEFAULT_LIMIT, HARD_LIMIT, INSERT_BME280, INSERT_DS18B20,
};

fn moment() -> Timestamp {
    Timestamp::new(1700000000, 5).unwrap()
}

fn bme(id: u128) -> Bme280Record {
    Bme280Record { id, temperature: 1, pressure: 2, humidity: 3, timestamp: moment() }
}

fn ds(id: u128, name: &str) -> Ds18b20Record {
    Ds18b20Record { id, device_name: name.to_string(), raw_reading: 21000, timestamp: moment() }
}

#[test]
fn limits() {
    assert_eq!(limit(None), DEFAULT_LIMIT);
    assert_eq!(limit(None), 100);
    assert_eq!(limit(Some(10)), 10);
    assert_eq!(limit(Some(5000)), 5000);
    assert_eq!(limit(Some(5001)), HARD_LIMIT);
    assert_eq!(limit(Some(usize::MAX)), 5000);
    assert_eq!(limit(Some(0)), 0);
}

#[test]
fn merged_records_keep_order_bme280_first() {
    let records = merge_records(vec![bme(1), bme(2)], vec![ds(3, "a"), ds(4, "b")]);
    let ids: Vec<u128> = records.iter().map(|r| r.id()).collect();
    assert_eq!(ids, vec![1, 2, 3, 4]);
    match records[3].reading() {
        Reading::DS18B20(r) => assert_eq!(r.device_name(), "b"),
        _ => panic!("expected a DS18B20 reading"),
    }
    assert!(matches!(records[0].reading(), Reading::BME280(_)));
    assert!(merge_records(vec![], vec![]).is_empty());
}

#[test]
fn records_go_to_the_table_of_their_kind() {
    let record = Record::new(9, moment(), Reading::DS18B20(DS18B20::new("dev".to_string(), 42)));
    let insert = record_insert(&record);
    assert_eq!(insert.statement(), INSERT_DS18B20);
    match insert {
        RecordInsert::Ds18b20(row) => {
            assert_eq!(row.id, 9);
            assert_eq!(row.device_name, "dev");
            assert_eq!(row.raw_reading, 42);
            assert_eq!(row.timestamp, moment());
        }
        other => panic!("unexpected {:?}", other),
    }
    let record = bme(5).into_record();
    let insert = record_insert(&record);
    assert_eq!(insert.statement(), INSERT_BME280);
    assert!(matches!(insert, RecordInsert::Bme280(row) if row.id == 5 && row.pressure == 2));
}

#[test]
fn lookup_asks_bme280_first() {
    assert!(matches!(next_lookup_action(7, LookupEvent::Start), LookupAction::QueryBme280(7)));
    match next_lookup_action(7, LookupEvent::Bme280Found(Some(bme(7)))) {
        LookupAction::Finish(Some(record)) => assert_eq!(record.id(), 7),
        _ => panic!("expected the BME280 record"),
    }
    assert!(matches!(next_lookup_action(7, LookupEvent::Bme280Found(None)), LookupAction::QueryDs18b20(7)));
    match next_lookup_action(7, LookupEvent::Ds18b20Found(Some(ds(7, "x")))) {
        LookupAction::Finish(Some(record)) => assert_eq!(record.id(), 7),
        _ => panic!("expected the DS18B20 record"),
    }
    assert!(matches!(next_lookup_action(7, LookupEvent::Ds18b20Found(None)), LookupAction::Finish(None)));
}
