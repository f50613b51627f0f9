//! Point checks of status-code classification and rendering.

use sqlite_handle::codes;
use sqlite_handle::ResultCode;

#[test]
fn ok_row_done_are_success() {
    assert!(ResultCode::from_raw(codes::SQLITE_OK).is_success());
    assert!(ResultCode::from_raw(codes::SQLITE_ROW).is_success());
    assert!(ResultCode::from_raw(codes::SQLITE_DONE).is_success());
}

#[test]
fn plain_failures_are_not_success() {
    assert!(!ResultCode::from_raw(codes::SQLITE_ERROR).is_success());
    assert!(!ResultCode::from_raw(codes::SQLITE_BUSY).is_success());
    assert!(!ResultCode::from_raw(codes::SQLITE_MISUSE).is_success());
    assert!(!ResultCode::from_raw(codes::SQLITE_IOERR_READ).is_success());
}

#[test]
fn extended_ok_codes_are_success() {
    // Extended codes whose primary category is ok count as success.
    assert!(ResultCode::from_raw(codes::SQLITE_OK_LOAD_PERMANENTLY).is_success());
    assert!(ResultCode::from_raw(codes::SQLITE_OK_SYMLINK).is_success());
}

#[test]
fn to_primary_strips_the_extended_part() {
    let extended = ResultCode::from_raw(codes::SQLITE_IOERR_READ);
    assert_eq!(extended.to_primary(), ResultCode::from_raw(codes::SQLITE_IOERR));
    let busy = ResultCode::from_raw(codes::SQLITE_BUSY_TIMEOUT);
    assert_eq!(busy.to_primary(), ResultCode::from_raw(codes::SQLITE_BUSY));
}

#[test]
fn canned_messages_match_the_engine_table() {
    assert_eq!(ResultCode::from_raw(codes::SQLITE_OK).message(), "not an error");
    assert_eq!(ResultCode::from_raw(codes::SQLITE_ERROR).message(), "SQL logic error");
    assert_eq!(ResultCode::from_raw(codes::SQLITE_BUSY).message(), "database is locked");
    assert_eq!(ResultCode::from_raw(codes::SQLITE_NOMEM).message(), "out of memory");
    assert_eq!(ResultCode::from_raw(codes::SQLITE_ROW).message(), "another row available");
    assert_eq!(ResultCode::from_raw(codes::SQLITE_DONE).message(), "no more rows available");
    assert_eq!(
        ResultCode::from_raw(codes::SQLITE_ABORT_ROLLBACK).message(),
        "abort due to ROLLBACK"
    );
}

#[test]
fn extended_codes_fall_back_to_their_primary_text() {
    assert_eq!(
        ResultCode::from_raw(codes::SQLITE_IOERR_FSYNC).message(),
        "disk I/O error"
    );
    assert_eq!(
        ResultCode::from_raw(codes::SQLITE_READONLY_DBMOVED).message(),
        "attempt to write a readonly database"
    );
}

#[test]
fn codes_without_canned_text_render_generically() {
    assert_eq!(ResultCode::from_raw(codes::SQLITE_INTERNAL).message(), "unknown error");
    assert_eq!(ResultCode::from_raw(codes::SQLITE_EMPTY).message(), "unknown error");
    assert_eq!(ResultCode::from_raw(codes::SQLITE_FORMAT).message(), "unknown error");
    // Primary category 99 has no table entry at all.
    assert_eq!(ResultCode::from_raw(99).message(), "unknown error");
}

#[test]
fn debug_string_uses_the_symbolic_name_when_known() {
    assert_eq!(ResultCode::from_raw(codes::SQLITE_OK).debug_string(), "SQLITE_OK");
    assert_eq!(ResultCode::from_raw(codes::SQLITE_BUSY).debug_string(), "SQLITE_BUSY");
    assert_eq!(
        ResultCode::from_raw(codes::SQLITE_CONSTRAINT_UNIQUE).debug_string(),
        "SQLITE_CONSTRAINT_UNIQUE"
    );
}

#[test]
fn debug_string_tags_unknown_codes_numerically() {
    assert_eq!(ResultCode::from_raw(999).symbolic_name(), None);
    assert_eq!(ResultCode::from_raw(999).debug_string(), "ResultCode(999)");
    assert_eq!(ResultCode::from_raw(-5).debug_string(), "ResultCode(-5)");
    assert_eq!(ResultCode::from_raw(12345).debug_string(), "ResultCode(12345)");
    assert_eq!(ResultCode::from_raw(i32::MIN).debug_string(), "ResultCode(-2147483648)");
    assert_eq!(ResultCode::from_raw(i32::MAX).debug_string(), "ResultCode(2147483647)");
}

#[test]
fn to_result_passes_success_through() {
    let rc = ResultCode::from_raw(codes::SQLITE_ROW);
    assert_eq!(rc.to_result().unwrap(), rc);
}

#[test]
fn to_result_wraps_failures() {
    let rc = ResultCode::from_raw(codes::SQLITE_CANTOPEN);
    let err = rc.to_result().unwrap_err();
    assert_eq!(err.result_code(), rc);
    assert_eq!(err.error_offset(), None);
    // No custom message was recorded, so the canned text is used.
    assert_eq!(err.message(), "unable to open database file");
}

#[test]
fn default_code_is_ok() {
    let rc: ResultCode = Default::default();
    assert_eq!(rc.raw(), codes::SQLITE_OK);
    assert!(rc.is_success());
}

#[test]
fn raw_round_trips() {
    assert_eq!(ResultCode::from_raw(517).raw(), 517);
    assert_eq!(ResultCode::from_raw(-1).raw(), -1);
}
