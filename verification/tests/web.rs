use herodot::http_security_headers::security_headers;
use herodot::reading::{Reading, BME280, DS18B20};
use herodot::record::{Record, Timestamp};
use herodot::status::status_report;
use herodot::web::record_display::RecordDisplay;
use herodot::web::record_view::{Bme280RecordView, Ds18b20RecordView, RecordView};

#[test]
fn security_headers_are_exact() {
    let headers = security_headers();
    assert_eq!(
        headers,
        vec![
            (
                "content-security-policy",
                "default-src 'self'; base-uri 'self'; object-src 'none'; frame-ancestors 'none'"
            ),
            ("x-content-type-options", "nosniff"),
            ("referrer-policy", "strict-origin-when-cross-origin"),
            (
                "permissions-policy",
                "camera=(), microphone=(), geolocation=(), payment=(), usb=(), bluetooth=()"
            ),
        ]
    );
}

fn with_id(id: u128) -> String {
    let record = Record::new(id, Timestamp::new(0, 0).unwrap(), Reading::DS18B20(DS18B20::new("d".to_string(), 1)));
    RecordDisplay::from_record(&record, String::new()).id
}

#[test]
fn identifiers_are_hyphenated_lower_case() {
    assert_eq!(with_id(0x7e9b1a33_05fb_48e3_86b6_21ddc873c06f), "7e9b1a33-05fb-48e3-86b6-21ddc873c06f");
    assert_eq!(with_id(0), "00000000-0000-0000-0000-000000000000");
    assert_eq!(with_id(u128::MAX), "ffffffff-ffff-ffff-ffff-ffffffffffff");
    assert_eq!(with_id(0xABCDEF), "00000000-0000-0000-0000-000000abcdef");
}

#[test]
fn timestamps_display_as_chrono_does() {
    let moment = Timestamp::new(1431648000, 0).unwrap();
    assert_eq!(moment.to_string(), "2015-05-15 00:00:00 UTC");
    assert!(Timestamp::new(i64::MAX, 0).is_none());
    assert!(Timestamp::new(0, 2_000_000_000).is_none());
}

fn ds18b20_record() -> Record {
    Record::new(
        0x7e9b1a33_05fb_48e3_86b6_21ddc873c06f,
        Timestamp::new(1772184765, 0).unwrap(),
        Reading::DS18B20(DS18B20::new("0000003e33d5".to_string(), 22123)),
    )
}

#[test]
fn record_display_texts() {
    let record = ds18b20_record();
    let display = RecordDisplay::from_record(&record, "0000003e33d5: 22.123 °C".to_string());
    assert_eq!(display.id, "7e9b1a33-05fb-48e3-86b6-21ddc873c06f");
    assert_eq!(display.timestamp, "2026-02-27 09:32:45 UTC");
    assert_eq!(display.reading, "0000003e33d5: 22.123 °C");
    let view = RecordView::from_record(&record, "r".to_string());
    assert_eq!(view.id, display.id);
    assert_eq!(view.timestamp, display.timestamp);
}

#[test]
fn typed_views_take_only_their_kind() {
    let record = ds18b20_record();
    let ds = Ds18b20RecordView::try_from_record(record.clone()).unwrap();
    assert_eq!(ds.device_name, "0000003e33d5");
    assert_eq!(ds.raw_reading, 22123);
    assert!(Bme280RecordView::try_from_record(record).is_err());

    let bme = Record::new(
        1,
        Timestamp::new(0, 0).unwrap(),
        Reading::BME280(BME280::new(22.625f32.to_bits(), 101325.0f32.to_bits(), 35.0f32.to_bits())),
    );
    let view = Bme280RecordView::try_from_record(bme.clone()).unwrap();
    assert_eq!(f32::from_bits(view.temperature), 22.625);
    assert_eq!(f32::from_bits(view.pressure), 101325.0);
    assert_eq!(f32::from_bits(view.humidity), 35.0);
    assert!(Ds18b20RecordView::try_from_record(bme).is_err());
}

#[test]
fn reading_getters() {
    let reading = DS18B20::new("28-000000000000".to_string(), -22625);
    assert_eq!(reading.device_name(), "28-000000000000");
    assert_eq!(reading.raw_reading(), -22625);
}

#[test]
fn status_report_is_ok() {
    let report = status_report("0.1.0");
    assert_eq!(report.status, "ok");
    assert_eq!(report.message, "server is running");
    assert_eq!(report.version, "0.1.0");
}
