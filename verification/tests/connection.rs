//! Checks of the connection core: flags, lifecycle decisions, probe
//! interpretation, and the ownership model.

use sqlite_handle::codes;
use sqlite_handle::connection::{
    self, OpenStep, DBCONFIG_QUERY, OPEN_CREATE, OPEN_MEMORY, OPEN_NOMUTEX, OPEN_PRIVATECACHE,
    OPEN_READONLY, OPEN_READWRITE, OPEN_URI,
};
use sqlite_handle::{ConfigFlag, Connection, OpenFlags, ResultCode, TransactionState};

#[test]
fn default_flags_are_readwrite_create_uri() {
    let flags: OpenFlags = Default::default();
    assert_eq!(flags.bits(), OPEN_READWRITE | OPEN_CREATE | OPEN_URI);
}

#[test]
fn flag_union_and_contains() {
    let flags = OpenFlags::readonly().union(OpenFlags::memory());
    assert_eq!(flags.bits(), OPEN_READONLY | OPEN_MEMORY);
    assert!(flags.contains(OpenFlags::readonly()));
    assert!(flags.contains(OpenFlags::memory()));
    assert!(!flags.contains(OpenFlags::create()));
    assert!(flags.contains(OpenFlags::empty()));
}

#[test]
fn effective_flags_force_nomutex_and_private_cache() {
    let flags = OpenFlags::readonly();
    assert_eq!(
        connection::effective_open_flags(flags),
        OPEN_READONLY | OPEN_NOMUTEX | OPEN_PRIVATECACHE
    );
    let defaults: OpenFlags = Default::default();
    assert_eq!(
        connection::effective_open_flags(defaults),
        OPEN_READWRITE | OPEN_CREATE | OPEN_URI | OPEN_NOMUTEX | OPEN_PRIVATECACHE
    );
}

#[test]
fn config_flags_carry_their_engine_identifiers() {
    assert_eq!(ConfigFlag::EnableFKey.as_raw(), 1002);
    assert_eq!(ConfigFlag::EnableTrigger.as_raw(), 1003);
    assert_eq!(ConfigFlag::FTS3Tokenizer.as_raw(), 1004);
    assert_eq!(ConfigFlag::EnableLoadExtension.as_raw(), 1005);
    assert_eq!(ConfigFlag::NoCheckpointOnClose.as_raw(), 1006);
    assert_eq!(ConfigFlag::EnableQueryPlannerStabilityGuarantee.as_raw(), 1007);
    assert_eq!(ConfigFlag::TriggerExplainQueryPlan.as_raw(), 1008);
    assert_eq!(ConfigFlag::ResetDatabase.as_raw(), 1009);
    assert_eq!(ConfigFlag::Defensive.as_raw(), 1010);
    assert_eq!(ConfigFlag::WritableSchema.as_raw(), 1011);
    assert_eq!(ConfigFlag::LegacyAlterTable.as_raw(), 1012);
    assert_eq!(ConfigFlag::DoubleQuotedStringDML.as_raw(), 1013);
    assert_eq!(ConfigFlag::DoubleQuotedStringDDL.as_raw(), 1014);
    assert_eq!(ConfigFlag::EnableView.as_raw(), 1015);
    assert_eq!(ConfigFlag::LegacyFileFormat.as_raw(), 1016);
    assert_eq!(ConfigFlag::TrustedSchema.as_raw(), 1017);
    assert_eq!(ConfigFlag::StmtScanStatus.as_raw(), 1018);
    assert_eq!(ConfigFlag::ReverseScanOrder.as_raw(), 1019);
    assert_eq!(DBCONFIG_QUERY, -1);
}

#[test]
fn open_step_classifies_outcomes() {
    let ok = ResultCode::from_raw(codes::SQLITE_OK);
    let cantopen = ResultCode::from_raw(codes::SQLITE_CANTOPEN);
    assert_eq!(connection::open_step(ok, 0), OpenStep::OutOfMemory);
    assert_eq!(connection::open_step(cantopen, 0), OpenStep::OutOfMemory);
    assert_eq!(connection::open_step(cantopen, 0x1000), OpenStep::Diagnose);
    assert_eq!(connection::open_step(ok, 0x1000), OpenStep::Normalize);
}

#[test]
fn out_of_memory_error_is_canned() {
    let err = connection::out_of_memory_error();
    assert_eq!(err.result_code(), ResultCode::from_raw(codes::SQLITE_NOMEM));
    assert_eq!(err.message(), "out of memory");
    assert_eq!(err.error_offset(), None);
}

#[test]
fn normalization_clears_dml_then_ddl() {
    let (first, second) = connection::open_normalization_flags();
    assert_eq!(first, ConfigFlag::DoubleQuotedStringDML);
    assert_eq!(second, ConfigFlag::DoubleQuotedStringDDL);
}

#[test]
fn config_write_outcomes() {
    let ok = ResultCode::from_raw(codes::SQLITE_OK);
    assert!(connection::interpret_config_write(ok).is_ok());
    let misuse = ResultCode::from_raw(codes::SQLITE_MISUSE);
    let err = connection::interpret_config_write(misuse).unwrap_err();
    assert_eq!(err.result_code(), misuse);
    assert_eq!(err.message(), "bad parameter or other API misuse");
}

#[test]
fn config_read_outcomes() {
    let ok = ResultCode::from_raw(codes::SQLITE_OK);
    assert_eq!(connection::interpret_config_read(ok, 1).unwrap(), true);
    assert_eq!(connection::interpret_config_read(ok, 0).unwrap(), false);
    assert_eq!(connection::interpret_config_read(ok, 7).unwrap(), true);
    let error = ResultCode::from_raw(codes::SQLITE_ERROR);
    let err = connection::interpret_config_read(error, 0).unwrap_err();
    assert_eq!(err.result_code(), error);
}

#[test]
fn readonly_probe_interpretation() {
    assert_eq!(connection::interpret_readonly(-1), None);
    assert_eq!(connection::interpret_readonly(0), Some(false));
    assert_eq!(connection::interpret_readonly(1), Some(true));
}

#[test]
fn txn_state_probe_interpretation() {
    assert_eq!(connection::interpret_txn_state(-1), None);
    assert_eq!(connection::interpret_txn_state(0), Some(TransactionState::NoTransaction));
    assert_eq!(connection::interpret_txn_state(1), Some(TransactionState::Read));
    assert_eq!(connection::interpret_txn_state(2), Some(TransactionState::Write));
}

#[test]
fn autocommit_probe_interpretation() {
    assert!(connection::interpret_autocommit(1));
    assert!(connection::interpret_autocommit(-7));
    assert!(!connection::interpret_autocommit(0));
}

#[test]
fn release_outcome_classification() {
    assert!(!connection::release_must_abort(ResultCode::from_raw(codes::SQLITE_OK)));
    assert!(connection::release_must_abort(ResultCode::from_raw(codes::SQLITE_BUSY)));
    // Even a nominally successful-but-not-ok code is out of contract here.
    assert!(connection::release_must_abort(ResultCode::from_raw(codes::SQLITE_ROW)));
}

#[test]
fn ownership_is_consumed_exactly_once() {
    let conn = Connection::from_raw(0x2000);
    assert_eq!(conn.raw_handle(), 0x2000);
    let view = conn.as_conn();
    assert_eq!(view.raw_handle(), 0x2000);
    // Releasing consumes the owned handle; only the returned address and
    // authorizer remain. A second release cannot even be written.
    let (addr, authorizer) = conn.release();
    assert_eq!(addr, 0x2000);
    assert_eq!(authorizer, None);
}

#[test]
fn authorizer_slot_is_installed_and_retired() {
    let mut conn = Connection::from_raw(0x3000);
    assert_eq!(conn.install_authorizer(0x4000), None);
    // Installing a replacement hands back the previous callback to retire.
    assert_eq!(conn.install_authorizer(0x5000), Some(0x4000));
    assert_eq!(conn.clear_authorizer(), Some(0x5000));
    // Clearing is idempotent.
    assert_eq!(conn.clear_authorizer(), None);
    let (_, authorizer) = conn.release();
    assert_eq!(authorizer, None);
}

#[test]
fn release_reports_a_still_installed_authorizer() {
    let mut conn = Connection::from_raw(0x6000);
    conn.install_authorizer(0x7000);
    let (addr, authorizer) = conn.release();
    assert_eq!(addr, 0x6000);
    assert_eq!(authorizer, Some(0x7000));
}
