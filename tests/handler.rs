use book_api::handler::{fetch_outcome, parse_id};
use book_api::responses::{ApiError, CreateResponse, CustomError, ErrorKind};

#[test]
fn parse_id_accepts_signs() {
    assert_eq!(parse_id("+7"), Ok(7));
    assert_eq!(parse_id("-5"), Ok(-5));
    assert_eq!(parse_id("007"), Ok(7));
}

#[test]
fn parse_id_rejects_malformed_text() {
    for s in ["", "-", "+", " 1", "1 ", "12a", "--1", "١"] {
        let e = parse_id(s).unwrap_err();
        assert_eq!(e.kind, ErrorKind::Validation, "{}", s);
    }
}

#[test]
fn parse_id_range_edges() {
    assert_eq!(parse_id("9223372036854775807"), Ok(i64::MAX));
    assert_eq!(parse_id("-9223372036854775808"), Ok(i64::MIN));
    assert_eq!(parse_id("9223372036854775808").unwrap_err().kind, ErrorKind::Validation);
    assert_eq!(parse_id("-9223372036854775809").unwrap_err().kind, ErrorKind::Validation);
    assert_eq!(parse_id("99999999999999999999999").unwrap_err().kind, ErrorKind::Validation);
}

#[test]
fn store_errors_map_to_kinds() {
    let e = ApiError::from_store(false, "database is locked".to_string());
    assert_eq!(e.kind, ErrorKind::Store);
    assert_eq!(e.status(), 500);
    assert_eq!(e.message, "database is locked");
    let e = ApiError::from_store(true, "no rows".to_string());
    assert_eq!(e.kind, ErrorKind::NotFound);
    assert_eq!(e.status(), 404);
}

#[test]
fn error_envelope_keeps_message() {
    let e = ApiError::from_store(false, "disk I/O error".to_string());
    assert_eq!(CustomError::new(e).message, "disk I/O error");
}

#[test]
fn malformed_body_is_bad_request() {
    let e = ApiError::validation("expected value at line 1 column 1".to_string());
    assert_eq!(e.status(), 400);
    assert_ne!(e.status(), 500);
}

#[test]
fn fetched_row_is_returned() {
    assert_eq!(fetch_outcome(Some(3u8)), Ok(3u8));
    assert_eq!(CreateResponse { id: 1 }.id, 1);
}
