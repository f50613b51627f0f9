//! Checks of the structured error value.

use sqlite_handle::codes;
use sqlite_handle::{Error, ResultCode};

#[test]
fn new_keeps_the_custom_message() {
    let rc = ResultCode::from_raw(codes::SQLITE_CONSTRAINT);
    let err = Error::new(rc, String::from("UNIQUE constraint failed: t.x"));
    assert_eq!(err.result_code(), rc);
    assert_eq!(err.message(), "UNIQUE constraint failed: t.x");
    assert_eq!(err.error_offset(), None);
}

#[test]
fn new_with_empty_message_falls_back_to_canned_text() {
    let err = Error::new(ResultCode::from_raw(codes::SQLITE_BUSY), String::new());
    assert_eq!(err.message(), "database is locked");
    assert!(!err.message().is_empty());
}

#[test]
fn from_handle_report_returns_none_on_success() {
    let ok = ResultCode::from_raw(codes::SQLITE_OK);
    assert!(Error::from_handle_report(ok, String::from("ignored"), 3).is_none());
    let row = ResultCode::from_raw(codes::SQLITE_ROW);
    assert!(Error::from_handle_report(row, String::new(), -1).is_none());
}

#[test]
fn from_handle_report_records_the_diagnostic_state() {
    let rc = ResultCode::from_raw(codes::SQLITE_ERROR);
    let err = Error::from_handle_report(rc, String::from("near \"SELEC\": syntax error"), 0)
        .expect("a failure code yields an error");
    assert_eq!(err.result_code(), rc);
    assert_eq!(err.message(), "near \"SELEC\": syntax error");
    assert_eq!(err.error_offset(), Some(0));
}

#[test]
fn from_handle_report_drops_a_negative_offset() {
    let rc = ResultCode::from_raw(codes::SQLITE_IOERR_WRITE);
    let err = Error::from_handle_report(rc, String::from("disk I/O error"), -1).unwrap();
    assert_eq!(err.error_offset(), None);
}

#[test]
fn clear_error_offset_keeps_code_and_message() {
    let rc = ResultCode::from_raw(codes::SQLITE_ERROR);
    let mut err = Error::from_handle_report(rc, String::from("syntax error"), 12).unwrap();
    assert_eq!(err.error_offset(), Some(12));
    err.clear_error_offset();
    assert_eq!(err.error_offset(), None);
    assert_eq!(err.result_code(), rc);
    assert_eq!(err.message(), "syntax error");
}

#[test]
fn display_string_equals_message() {
    let err = Error::new(ResultCode::from_raw(codes::SQLITE_NOMEM), String::new());
    assert_eq!(err.display_string(), err.message());
    assert_eq!(err.display_string(), "out of memory");
}
