//! Table-driven checks of the status-code taxonomy: success
//! classification, primary-code idempotence, and the rendering tables.

use sqlite_handle::codes;
use sqlite_handle::ResultCode;

fn all_known_codes() -> Vec<i32> {
    vec![
        codes::SQLITE_OK,
        codes::SQLITE_ERROR,
        codes::SQLITE_INTERNAL,
        codes::SQLITE_PERM,
        codes::SQLITE_ABORT,
        codes::SQLITE_BUSY,
        codes::SQLITE_LOCKED,
        codes::SQLITE_NOMEM,
        codes::SQLITE_READONLY,
        codes::SQLITE_INTERRUPT,
        codes::SQLITE_IOERR,
        codes::SQLITE_CORRUPT,
        codes::SQLITE_NOTFOUND,
        codes::SQLITE_FULL,
        codes::SQLITE_CANTOPEN,
        codes::SQLITE_PROTOCOL,
        codes::SQLITE_EMPTY,
        codes::SQLITE_SCHEMA,
        codes::SQLITE_TOOBIG,
        codes::SQLITE_CONSTRAINT,
        codes::SQLITE_MISMATCH,
        codes::SQLITE_MISUSE,
        codes::SQLITE_NOLFS,
        codes::SQLITE_AUTH,
        codes::SQLITE_FORMAT,
        codes::SQLITE_RANGE,
        codes::SQLITE_NOTADB,
        codes::SQLITE_NOTICE,
        codes::SQLITE_WARNING,
        codes::SQLITE_ROW,
        codes::SQLITE_DONE,
        codes::SQLITE_IOERR_READ,
        codes::SQLITE_IOERR_SHORT_READ,
        codes::SQLITE_IOERR_WRITE,
        codes::SQLITE_IOERR_FSYNC,
        codes::SQLITE_IOERR_DIR_FSYNC,
        codes::SQLITE_IOERR_TRUNCATE,
        codes::SQLITE_IOERR_FSTAT,
        codes::SQLITE_IOERR_UNLOCK,
        codes::SQLITE_IOERR_RDLOCK,
        codes::SQLITE_IOERR_DELETE,
        codes::SQLITE_IOERR_BLOCKED,
        codes::SQLITE_IOERR_NOMEM,
        codes::SQLITE_IOERR_ACCESS,
        codes::SQLITE_IOERR_CHECKRESERVEDLOCK,
        codes::SQLITE_IOERR_LOCK,
        codes::SQLITE_IOERR_CLOSE,
        codes::SQLITE_IOERR_DIR_CLOSE,
        codes::SQLITE_IOERR_SHMOPEN,
        codes::SQLITE_IOERR_SHMSIZE,
        codes::SQLITE_IOERR_SHMLOCK,
        codes::SQLITE_IOERR_SHMMAP,
        codes::SQLITE_IOERR_SEEK,
        codes::SQLITE_IOERR_DELETE_NOENT,
        codes::SQLITE_IOERR_MMAP,
        codes::SQLITE_IOERR_GETTEMPPATH,
        codes::SQLITE_IOERR_CONVPATH,
        codes::SQLITE_IOERR_VNODE,
        codes::SQLITE_IOERR_AUTH,
        codes::SQLITE_LOCKED_SHAREDCACHE,
        codes::SQLITE_BUSY_RECOVERY,
        codes::SQLITE_BUSY_SNAPSHOT,
        codes::SQLITE_CANTOPEN_NOTEMPDIR,
        codes::SQLITE_CANTOPEN_ISDIR,
        codes::SQLITE_CANTOPEN_FULLPATH,
        codes::SQLITE_CANTOPEN_CONVPATH,
        codes::SQLITE_CORRUPT_VTAB,
        codes::SQLITE_READONLY_RECOVERY,
        codes::SQLITE_READONLY_CANTLOCK,
        codes::SQLITE_READONLY_ROLLBACK,
        codes::SQLITE_READONLY_DBMOVED,
        codes::SQLITE_ABORT_ROLLBACK,
        codes::SQLITE_CONSTRAINT_CHECK,
        codes::SQLITE_CONSTRAINT_COMMITHOOK,
        codes::SQLITE_CONSTRAINT_FOREIGNKEY,
        codes::SQLITE_CONSTRAINT_FUNCTION,
        codes::SQLITE_CONSTRAINT_NOTNULL,
        codes::SQLITE_CONSTRAINT_PRIMARYKEY,
        codes::SQLITE_CONSTRAINT_TRIGGER,
        codes::SQLITE_CONSTRAINT_UNIQUE,
        codes::SQLITE_CONSTRAINT_VTAB,
        codes::SQLITE_CONSTRAINT_ROWID,
        codes::SQLITE_NOTICE_RECOVER_WAL,
        codes::SQLITE_NOTICE_RECOVER_ROLLBACK,
        codes::SQLITE_WARNING_AUTOINDEX,
        codes::SQLITE_AUTH_USER,
        codes::SQLITE_OK_LOAD_PERMANENTLY,
        codes::SQLITE_ERROR_MISSING_COLLSEQ,
        codes::SQLITE_ERROR_RETRY,
        codes::SQLITE_ERROR_SNAPSHOT,
        codes::SQLITE_IOERR_BEGIN_ATOMIC,
        codes::SQLITE_IOERR_COMMIT_ATOMIC,
        codes::SQLITE_IOERR_ROLLBACK_ATOMIC,
        codes::SQLITE_IOERR_DATA,
        codes::SQLITE_IOERR_CORRUPTFS,
        codes::SQLITE_LOCKED_VTAB,
        codes::SQLITE_BUSY_TIMEOUT,
        codes::SQLITE_CANTOPEN_DIRTYWAL,
        codes::SQLITE_CANTOPEN_SYMLINK,
        codes::SQLITE_CORRUPT_SEQUENCE,
        codes::SQLITE_CORRUPT_INDEX,
        codes::SQLITE_READONLY_CANTINIT,
        codes::SQLITE_READONLY_DIRECTORY,
        codes::SQLITE_CONSTRAINT_PINNED,
        codes::SQLITE_CONSTRAINT_DATATYPE,
        codes::SQLITE_NOTICE_RBU,
        codes::SQLITE_OK_SYMLINK,
    ]
}

#[test]
fn success_is_decided_by_primary_over_the_whole_table() {
    for code in all_known_codes() {
        let rc = ResultCode::from_raw(code);
        let primary = code & 0xff;
        let expected = primary == codes::SQLITE_OK || primary == codes::SQLITE_ROW
            || primary == codes::SQLITE_DONE;
        assert_eq!(rc.is_success(), expected, "code {}", code);
        assert_eq!(rc.to_primary().raw(), primary, "code {}", code);
    }
}

#[test]
fn primary_is_idempotent_over_the_whole_table() {
    for code in all_known_codes() {
        let once = ResultCode::from_raw(code).to_primary();
        let twice = once.to_primary();
        assert_eq!(once, twice, "code {}", code);
    }
}

#[test]
fn every_known_code_has_a_unique_debug_name() {
    let table = all_known_codes();
    let mut names: Vec<String> = Vec::new();
    for &code in &table {
        let name = ResultCode::from_raw(code)
            .symbolic_name()
            .expect("every code of the table has a symbolic name");
        assert!(!name.is_empty(), "code {}", code);
        assert_eq!(ResultCode::from_raw(code).debug_string(), name, "code {}", code);
        names.push(name.to_string());
    }
    for i in 0..names.len() {
        for j in (i + 1)..names.len() {
            assert_ne!(names[i], names[j], "codes {} and {}", table[i], table[j]);
        }
    }
}

#[test]
fn every_known_code_has_a_nonempty_display_text() {
    for code in all_known_codes() {
        let rc = ResultCode::from_raw(code);
        assert!(!rc.message().is_empty(), "code {}", code);
    }
}
