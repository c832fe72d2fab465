use herodot::api::{
    found_record, get_record_step, put_record_step, AuthTokenValue, GetRecordAction, GetRecordEvent,
    PutRecordAction, PutRecordEvent, EMPTY_ACCESS_KEY, EMPTY_TOKEN, MISSING_AUTHORIZATION, NOT_ASCII,
    NOT_BEARER_FORMAT, NOT_BEARER_SCHEME, RECORD_NOT_FOUND, RECORD_SAVED, UNKNOWN_TOKEN,
};
use herodot::error::{AppError, DbError, DbErrorKind, DbFailure};
use herodot::reading::{Reading, DS18B20};
use herodot::record::{Record, Timestamp};

fn parse(header: &[u8]) -> Result<AuthTokenValue, AppError> {
    AuthTokenValue::from_authorization_header(Some(header))
}

fn bad_request(result: Result<AuthTokenValue, AppError>) -> &'static str {
    match result {
        Err(AppError::BadRequest(message)) => message,
        other => panic!("expected a bad request, got {:?}", other),
    }
}

#[test]
fn bearer_token_is_read() {
    let token = parse(b"Bearer abc123").unwrap();
    assert_eq!(token.value(), "abc123");
}

#[test]
fn bearer_scheme_is_case_insensitive() {
    assert_eq!(parse(b"bEaReR tok").unwrap().value(), "tok");
    assert_eq!(parse(b"BEARER tok").unwrap().value(), "tok");
}

#[test]
fn token_is_trimmed() {
    assert_eq!(parse(b"Bearer   tok en \t").unwrap().value(), "tok en");
}

#[test]
fn missing_header_is_unauthorized() {
    match AuthTokenValue::from_authorization_header(None) {
        Err(AppError::Unauthorized(message)) => assert_eq!(message, MISSING_AUTHORIZATION),
        other => panic!("unexpected {:?}", other),
    }
}

#[test]
fn non_visible_bytes_are_refused() {
    assert_eq!(bad_request(parse(b"Bearer t\xc3\xa9")), NOT_ASCII);
    assert_eq!(bad_request(parse(b"Bearer a\nb")), NOT_ASCII);
}

#[test]
fn header_without_space_is_refused() {
    assert_eq!(bad_request(parse(b"Bearertoken")), NOT_BEARER_FORMAT);
    assert_eq!(bad_request(parse(b"")), NOT_BEARER_FORMAT);
}

#[test]
fn other_scheme_is_refused() {
    assert_eq!(bad_request(parse(b"Basic dXNlcjpwdw==")), NOT_BEARER_SCHEME);
    assert_eq!(bad_request(parse(b"Bearers tok")), NOT_BEARER_SCHEME);
    assert_eq!(bad_request(parse(b" Bearer tok")), NOT_BEARER_SCHEME);
}

#[test]
fn empty_token_is_refused() {
    assert_eq!(bad_request(parse(b"Bearer ")), EMPTY_TOKEN);
    assert_eq!(bad_request(parse(b"Bearer \t  ")), EMPTY_TOKEN);
}

#[test]
fn known_token_is_let_through() {
    let token = AuthTokenValue::new("t".to_string());
    assert!(token.validate(Ok(())).is_ok());
}

#[test]
fn unknown_token_is_unauthorized() {
    let token = AuthTokenValue::new("t".to_string());
    let missing = DbError { failure: DbFailure::RowNotFound, message: "no rows".to_string() };
    match token.validate(Err(missing)) {
        Err(AppError::Unauthorized(message)) => assert_eq!(message, UNKNOWN_TOKEN),
        other => panic!("unexpected {:?}", other),
    }
}

#[test]
fn failed_token_lookup_is_a_database_error() {
    let token = AuthTokenValue::new("t".to_string());
    let failure = DbError { failure: DbFailure::Other, message: "connection reset".to_string() };
    match token.validate(Err(failure)) {
        Err(AppError::SqlxError(error)) => assert_eq!(error.message, "connection reset"),
        other => panic!("unexpected {:?}", other),
    }
}

#[test]
fn absent_record_is_not_found() {
    match found_record(None) {
        Err(AppError::NotFound(message)) => assert_eq!(message, RECORD_NOT_FOUND),
        other => panic!("unexpected {:?}", other.map(|r| r.id())),
    }
}

#[test]
fn api_key_token_round_trips_through_the_header() {
    let key = herodot::authentication::api_key::ApiKey::new("sensor", "alice");
    let header = format!("Bearer {}", key.token());
    let parsed = parse(header.as_bytes()).unwrap();
    assert_eq!(parsed.value(), key.token());
}

#[test]
fn access_key_header_carries_the_token() {
    let token = AuthTokenValue::from_request_headers(None, Some(b"99ea32d6-e0dc-4b2c-9802-6eaeaf55bbac")).unwrap();
    assert_eq!(token.value(), "99ea32d6-e0dc-4b2c-9802-6eaeaf55bbac");
    let trimmed = AuthTokenValue::from_access_key_header(b"  abc \t").unwrap();
    assert_eq!(trimmed.value(), "abc");
}

#[test]
fn authorization_header_takes_precedence_over_access_key() {
    let token = AuthTokenValue::from_request_headers(Some(b"Bearer first"), Some(b"second")).unwrap();
    assert_eq!(token.value(), "first");
    match AuthTokenValue::from_request_headers(Some(b"Basic x"), Some(b"second")) {
        Err(AppError::BadRequest(message)) => assert_eq!(message, NOT_BEARER_SCHEME),
        other => panic!("unexpected {:?}", other),
    }
}

#[test]
fn bad_access_keys_are_refused() {
    assert_eq!(bad_request(AuthTokenValue::from_access_key_header(b"  ")), EMPTY_ACCESS_KEY);
    assert_eq!(bad_request(AuthTokenValue::from_access_key_header(b"a\x7fb")), NOT_ASCII);
    match AuthTokenValue::from_request_headers(None, None) {
        Err(AppError::Unauthorized(message)) => assert_eq!(message, MISSING_AUTHORIZATION),
        other => panic!("unexpected {:?}", other),
    }
}

#[test]
fn api_key_token_round_trips_through_access_key() {
    let key = herodot::authentication::api_key::ApiKey::new("sensor", "alice");
    let token = key.token();
    let parsed = AuthTokenValue::from_request_headers(None, Some(token.as_bytes())).unwrap();
    assert_eq!(parsed.value(), token);
}

fn sample_record() -> Record {
    Record::new(
        0x7e9b1a33_05fb_48e3_86b6_21ddc873c06f,
        Timestamp::new(1772184765, 0).unwrap(),
        Reading::DS18B20(DS18B20::new("0000003e33d5".to_string(), 22123)),
    )
}

#[test]
fn storing_a_record_steps() {
    let id = 0x7e9b1a33_05fb_48e3_86b6_21ddc873c06f;
    assert!(matches!(put_record_step(id, PutRecordEvent::Validated(Ok(()))), PutRecordAction::Commit));
    match put_record_step(id, PutRecordEvent::Validated(Err(AppError::Unauthorized(UNKNOWN_TOKEN)))) {
        PutRecordAction::Answer(Err(AppError::Unauthorized(m))) => assert_eq!(m, UNKNOWN_TOKEN),
        _ => panic!("a refused token must end the request"),
    }
    match put_record_step(id, PutRecordEvent::Committed(Ok(()))) {
        PutRecordAction::Answer(Ok(saved)) => {
            assert_eq!(saved.status, 201);
            assert_eq!(saved.message, RECORD_SAVED);
            assert_eq!(saved.message, "record saved successfully");
            assert_eq!(saved.record_id, id);
        }
        _ => panic!("expected the record to be saved"),
    }
    let duplicate = DbError { failure: DbFailure::Database(DbErrorKind::UniqueViolation), message: "dup".to_string() };
    match put_record_step(id, PutRecordEvent::Committed(Err(duplicate))) {
        PutRecordAction::Answer(Err(AppError::Conflict(m))) => assert_eq!(m, "record already exist"),
        _ => panic!("expected a conflict"),
    }
}

#[test]
fn getting_a_record_steps() {
    assert!(matches!(get_record_step(GetRecordEvent::Validated(Ok(()))), GetRecordAction::LookUp));
    assert!(matches!(
        get_record_step(GetRecordEvent::Validated(Err(AppError::Unauthorized(UNKNOWN_TOKEN)))),
        GetRecordAction::Answer(Err(AppError::Unauthorized(_)))
    ));
    match get_record_step(GetRecordEvent::LookedUp(Ok(Some(sample_record())))) {
        GetRecordAction::Answer(Ok(found)) => {
            assert_eq!(found.status, 200);
            assert_eq!(found.record.id(), 0x7e9b1a33_05fb_48e3_86b6_21ddc873c06f);
        }
        _ => panic!("expected the record"),
    }
    match get_record_step(GetRecordEvent::LookedUp(Ok(None))) {
        GetRecordAction::Answer(Err(error)) => assert_eq!(error.status_code(), 404),
        _ => panic!("expected not found"),
    }
    let failure = DbError { failure: DbFailure::Other, message: "down".to_string() };
    match get_record_step(GetRecordEvent::LookedUp(Err(failure))) {
        GetRecordAction::Answer(Err(AppError::SqlxError(e))) => assert_eq!(e.message, "down"),
        _ => panic!("expected a database error"),
    }
}
