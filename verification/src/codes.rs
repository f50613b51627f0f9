//! The numeric status-code domain: the well-known code values, success
//! classification, and the rendering tables that turn a code into its
//! symbolic name or its canned English description.

use vstd::prelude::*;

verus! {

// Primary result codes.
pub const SQLITE_OK: i32 = 0;
pub const SQLITE_ERROR: i32 = 1;
pub const SQLITE_INTERNAL: i32 = 2;
pub const SQLITE_PERM: i32 = 3;
pub const SQLITE_ABORT: i32 = 4;
pub const SQLITE_BUSY: i32 = 5;
pub const SQLITE_LOCKED: i32 = 6;
pub const SQLITE_NOMEM: i32 = 7;
pub const SQLITE_READONLY: i32 = 8;
pub const SQLITE_INTERRUPT: i32 = 9;
pub const SQLITE_IOERR: i32 = 10;
pub const SQLITE_CORRUPT: i32 = 11;
pub const SQLITE_NOTFOUND: i32 = 12;
pub const SQLITE_FULL: i32 = 13;
pub const SQLITE_CANTOPEN: i32 = 14;
pub const SQLITE_PROTOCOL: i32 = 15;
pub const SQLITE_EMPTY: i32 = 16;
pub const SQLITE_SCHEMA: i32 = 17;
pub const SQLITE_TOOBIG: i32 = 18;
pub const SQLITE_CONSTRAINT: i32 = 19;
pub const SQLITE_MISMATCH: i32 = 20;
pub const SQLITE_MISUSE: i32 = 21;
pub const SQLITE_NOLFS: i32 = 22;
pub const SQLITE_AUTH: i32 = 23;
pub const SQLITE_FORMAT: i32 = 24;
pub const SQLITE_RANGE: i32 = 25;
pub const SQLITE_NOTADB: i32 = 26;
pub const SQLITE_NOTICE: i32 = 27;
pub const SQLITE_WARNING: i32 = 28;
pub const SQLITE_ROW: i32 = 100;
pub const SQLITE_DONE: i32 = 101;

// Extended result codes.
pub const SQLITE_IOERR_READ: i32 = 266;
pub const SQLITE_IOERR_SHORT_READ: i32 = 522;
pub const SQLITE_IOERR_WRITE: i32 = 778;
pub const SQLITE_IOERR_FSYNC: i32 = 1034;
pub const SQLITE_IOERR_DIR_FSYNC: i32 = 1290;
pub const SQLITE_IOERR_TRUNCATE: i32 = 1546;
pub const SQLITE_IOERR_FSTAT: i32 = 1802;
pub const SQLITE_IOERR_UNLOCK: i32 = 2058;
pub const SQLITE_IOERR_RDLOCK: i32 = 2314;
pub const SQLITE_IOERR_DELETE: i32 = 2570;
pub const SQLITE_IOERR_BLOCKED: i32 = 2826;
pub const SQLITE_IOERR_NOMEM: i32 = 3082;
pub const SQLITE_IOERR_ACCESS: i32 = 3338;
pub const SQLITE_IOERR_CHECKRESERVEDLOCK: i32 = 3594;
pub const SQLITE_IOERR_LOCK: i32 = 3850;
pub const SQLITE_IOERR_CLOSE: i32 = 4106;
pub const SQLITE_IOERR_DIR_CLOSE: i32 = 4362;
pub const SQLITE_IOERR_SHMOPEN: i32 = 4618;
pub const SQLITE_IOERR_SHMSIZE: i32 = 4874;
pub const SQLITE_IOERR_SHMLOCK: i32 = 5130;
pub const SQLITE_IOERR_SHMMAP: i32 = 5386;
pub const SQLITE_IOERR_SEEK: i32 = 5642;
pub const SQLITE_IOERR_DELETE_NOENT: i32 = 5898;
pub const SQLITE_IOERR_MMAP: i32 = 6154;
pub const SQLITE_IOERR_GETTEMPPATH: i32 = 6410;
pub const SQLITE_IOERR_CONVPATH: i32 = 6666;
pub const SQLITE_IOERR_VNODE: i32 = 6922;
pub const SQLITE_IOERR_AUTH: i32 = 7178;
pub const SQLITE_LOCKED_SHAREDCACHE: i32 = 262;
pub const SQLITE_BUSY_RECOVERY: i32 = 261;
pub const SQLITE_BUSY_SNAPSHOT: i32 = 517;
pub const SQLITE_CANTOPEN_NOTEMPDIR: i32 = 270;
pub const SQLITE_CANTOPEN_ISDIR: i32 = 526;
pub const SQLITE_CANTOPEN_FULLPATH: i32 = 782;
pub const SQLITE_CANTOPEN_CONVPATH: i32 = 1038;
pub const SQLITE_CORRUPT_VTAB: i32 = 267;
pub const SQLITE_READONLY_RECOVERY: i32 = 264;
pub const SQLITE_READONLY_CANTLOCK: i32 = 520;
pub const SQLITE_READONLY_ROLLBACK: i32 = 776;
pub const SQLITE_READONLY_DBMOVED: i32 = 1032;
pub const SQLITE_ABORT_ROLLBACK: i32 = 516;
pub const SQLITE_CONSTRAINT_CHECK: i32 = 275;
pub const SQLITE_CONSTRAINT_COMMITHOOK: i32 = 531;
pub const SQLITE_CONSTRAINT_FOREIGNKEY: i32 = 787;
pub const SQLITE_CONSTRAINT_FUNCTION: i32 = 1043;
pub const SQLITE_CONSTRAINT_NOTNULL: i32 = 1299;
pub const SQLITE_CONSTRAINT_PRIMARYKEY: i32 = 1555;
pub const SQLITE_CONSTRAINT_TRIGGER: i32 = 1811;
pub const SQLITE_CONSTRAINT_UNIQUE: i32 = 2067;
pub const SQLITE_CONSTRAINT_VTAB: i32 = 2323;
pub const SQLITE_CONSTRAINT_ROWID: i32 = 2579;
pub const SQLITE_NOTICE_RECOVER_WAL: i32 = 283;
pub const SQLITE_NOTICE_RECOVER_ROLLBACK: i32 = 539;
pub const SQLITE_WARNING_AUTOINDEX: i32 = 284;
pub const SQLITE_AUTH_USER: i32 = 279;
pub const SQLITE_OK_LOAD_PERMANENTLY: i32 = 256;
pub const SQLITE_ERROR_MISSING_COLLSEQ: i32 = 257;
pub const SQLITE_ERROR_RETRY: i32 = 513;
pub const SQLITE_ERROR_SNAPSHOT: i32 = 769;
pub const SQLITE_IOERR_BEGIN_ATOMIC: i32 = 7434;
pub const SQLITE_IOERR_COMMIT_ATOMIC: i32 = 7690;
pub const SQLITE_IOERR_ROLLBACK_ATOMIC: i32 = 7946;
pub const SQLITE_IOERR_DATA: i32 = 8202;
pub const SQLITE_IOERR_CORRUPTFS: i32 = 8458;
pub const SQLITE_LOCKED_VTAB: i32 = 518;
pub const SQLITE_BUSY_TIMEOUT: i32 = 773;
pub const SQLITE_CANTOPEN_DIRTYWAL: i32 = 1294;
pub const SQLITE_CANTOPEN_SYMLINK: i32 = 1550;
pub const SQLITE_CORRUPT_SEQUENCE: i32 = 523;
pub const SQLITE_CORRUPT_INDEX: i32 = 779;
pub const SQLITE_READONLY_CANTINIT: i32 = 1288;
pub const SQLITE_READONLY_DIRECTORY: i32 = 1544;
pub const SQLITE_CONSTRAINT_PINNED: i32 = 2835;
pub const SQLITE_CONSTRAINT_DATATYPE: i32 = 3091;
pub const SQLITE_NOTICE_RBU: i32 = 795;
pub const SQLITE_OK_SYMLINK: i32 = 512;

/// The primary category of a raw status code: its low 8 bits.
pub open spec fn spec_primary_of(code: i32) -> i32 {
    code & 0xff
}

/// A raw status code reports success exactly when its primary category is
/// one of `SQLITE_OK`, `SQLITE_ROW`, or `SQLITE_DONE`.
pub open spec fn spec_is_success_code(code: i32) -> bool {
    spec_primary_of(code) == SQLITE_OK || spec_primary_of(code) == SQLITE_ROW
        || spec_primary_of(code) == SQLITE_DONE
}

/// Taking the primary category of a code is idempotent.
pub proof fn lemma_primary_idempotent(code: i32)
    ensures
        spec_primary_of(spec_primary_of(code)) == spec_primary_of(code),
{
    assert((code & 0xff) & 0xff == code & 0xff) by (bit_vector);
}

/// The primary category always lies in the single-byte range.
pub proof fn lemma_primary_range(code: i32)
    ensures
        0 <= spec_primary_of(code) < 256,
{
    assert(0 <= code & 0xff < 256) by (bit_vector);
}

/// The symbolic constant name of a well-known code, if the code is in the
/// rendering table.
pub open spec fn spec_symbolic_name(code: i32) -> Option<Seq<char>> {
    if code == SQLITE_ERROR_MISSING_COLLSEQ {
        Some("SQLITE_ERROR_MISSING_COLLSEQ"@)
    } else if code == SQLITE_ERROR_RETRY {
        Some("SQLITE_ERROR_RETRY"@)
    } else if code == SQLITE_ERROR_SNAPSHOT {
        Some("SQLITE_ERROR_SNAPSHOT"@)
    } else if code == SQLITE_IOERR_BEGIN_ATOMIC {
        Some("SQLITE_IOERR_BEGIN_ATOMIC"@)
    } else if code == SQLITE_IOERR_COMMIT_ATOMIC {
        Some("SQLITE_IOERR_COMMIT_ATOMIC"@)
    } else if code == SQLITE_IOERR_ROLLBACK_ATOMIC {
        Some("SQLITE_IOERR_ROLLBACK_ATOMIC"@)
    } else if code == SQLITE_IOERR_DATA {
        Some("SQLITE_IOERR_DATA"@)
    } else if code == SQLITE_IOERR_CORRUPTFS {
        Some("SQLITE_IOERR_CORRUPTFS"@)
    } else if code == SQLITE_LOCKED_VTAB {
        Some("SQLITE_LOCKED_VTAB"@)
    } else if code == SQLITE_BUSY_TIMEOUT {
        Some("SQLITE_BUSY_TIMEOUT"@)
    } else if code == SQLITE_CANTOPEN_DIRTYWAL {
        Some("SQLITE_CANTOPEN_DIRTYWAL"@)
    } else if code == SQLITE_CANTOPEN_SYMLINK {
        Some("SQLITE_CANTOPEN_SYMLINK"@)
    } else if code == SQLITE_CORRUPT_SEQUENCE {
        Some("SQLITE_CORRUPT_SEQUENCE"@)
    } else if code == SQLITE_CORRUPT_INDEX {
        Some("SQLITE_CORRUPT_INDEX"@)
    } else if code == SQLITE_READONLY_CANTINIT {
        Some("SQLITE_READONLY_CANTINIT"@)
    } else if code == SQLITE_READONLY_DIRECTORY {
        Some("SQLITE_READONLY_DIRECTORY"@)
    } else if code == SQLITE_CONSTRAINT_PINNED {
        Some("SQLITE_CONSTRAINT_PINNED"@)
    } else if code == SQLITE_CONSTRAINT_DATATYPE {
        Some("SQLITE_CONSTRAINT_DATATYPE"@)
    } else if code == SQLITE_NOTICE_RBU {
        Some("SQLITE_NOTICE_RBU"@)
    } else if code == SQLITE_OK_SYMLINK {
        Some("SQLITE_OK_SYMLINK"@)
    } else if code == SQLITE_OK {
        Some("SQLITE_OK"@)
    } else if code == SQLITE_ERROR {
        Some("SQLITE_ERROR"@)
    } else if code == SQLITE_INTERNAL {
        Some("SQLITE_INTERNAL"@)
    } else if code == SQLITE_PERM {
        Some("SQLITE_PERM"@)
    } else if code == SQLITE_ABORT {
        Some("SQLITE_ABORT"@)
    } else if code == SQLITE_BUSY {
        Some("SQLITE_BUSY"@)
    } else if code == SQLITE_LOCKED {
        Some("SQLITE_LOCKED"@)
    } else if code == SQLITE_NOMEM {
        Some("SQLITE_NOMEM"@)
    } else if code == SQLITE_READONLY {
        Some("SQLITE_READONLY"@)
    } else if code == SQLITE_INTERRUPT {
        Some("SQLITE_INTERRUPT"@)
    } else if code == SQLITE_IOERR {
        Some("SQLITE_IOERR"@)
    } else if code == SQLITE_CORRUPT {
        Some("SQLITE_CORRUPT"@)
    } else if code == SQLITE_NOTFOUND {
        Some("SQLITE_NOTFOUND"@)
    } else if code == SQLITE_FULL {
        Some("SQLITE_FULL"@)
    } else if code == SQLITE_CANTOPEN {
        Some("SQLITE_CANTOPEN"@)
    } else if code == SQLITE_PROTOCOL {
        Some("SQLITE_PROTOCOL"@)
    } else if code == SQLITE_EMPTY {
        Some("SQLITE_EMPTY"@)
    } else if code == SQLITE_SCHEMA {
        Some("SQLITE_SCHEMA"@)
    } else if code == SQLITE_TOOBIG {
        Some("SQLITE_TOOBIG"@)
    } else if code == SQLITE_CONSTRAINT {
        Some("SQLITE_CONSTRAINT"@)
    } else if code == SQLITE_MISMATCH {
        Some("SQLITE_MISMATCH"@)
    } else if code == SQLITE_MISUSE {
        Some("SQLITE_MISUSE"@)
    } else if code == SQLITE_NOLFS {
        Some("SQLITE_NOLFS"@)
    } else if code == SQLITE_AUTH {
        Some("SQLITE_AUTH"@)
    } else if code == SQLITE_FORMAT {
        Some("SQLITE_FORMAT"@)
    } else if code == SQLITE_RANGE {
        Some("SQLITE_RANGE"@)
    } else if code == SQLITE_NOTADB {
        Some("SQLITE_NOTADB"@)
    } else if code == SQLITE_NOTICE {
        Some("SQLITE_NOTICE"@)
    } else if code == SQLITE_WARNING {
        Some("SQLITE_WARNING"@)
    } else if code == SQLITE_ROW {
        Some("SQLITE_ROW"@)
    } else if code == SQLITE_DONE {
        Some("SQLITE_DONE"@)
    } else if code == SQLITE_IOERR_READ {
        Some("SQLITE_IOERR_READ"@)
    } else if code == SQLITE_IOERR_SHORT_READ {
        Some("SQLITE_IOERR_SHORT_READ"@)
    } else if code == SQLITE_IOERR_WRITE {
        Some("SQLITE_IOERR_WRITE"@)
    } else if code == SQLITE_IOERR_FSYNC {
        Some("SQLITE_IOERR_FSYNC"@)
    } else if code == SQLITE_IOERR_DIR_FSYNC {
        Some("SQLITE_IOERR_DIR_FSYNC"@)
    } else if code == SQLITE_IOERR_TRUNCATE {
        Some("SQLITE_IOERR_TRUNCATE"@)
    } else if code == SQLITE_IOERR_FSTAT {
        Some("SQLITE_IOERR_FSTAT"@)
    } else if code == SQLITE_IOERR_UNLOCK {
        Some("SQLITE_IOERR_UNLOCK"@)
    } else if code == SQLITE_IOERR_RDLOCK {
        Some("SQLITE_IOERR_RDLOCK"@)
    } else if code == SQLITE_IOERR_DELETE {
        Some("SQLITE_IOERR_DELETE"@)
    } else if code == SQLITE_IOERR_BLOCKED {
        Some("SQLITE_IOERR_BLOCKED"@)
    } else if code == SQLITE_IOERR_NOMEM {
        Some("SQLITE_IOERR_NOMEM"@)
    } else if code == SQLITE_IOERR_ACCESS {
        Some("SQLITE_IOERR_ACCESS"@)
    } else if code == SQLITE_IOERR_CHECKRESERVEDLOCK {
        Some("SQLITE_IOERR_CHECKRESERVEDLOCK"@)
    } else if code == SQLITE_IOERR_LOCK {
        Some("SQLITE_IOERR_LOCK"@)
    } else if code == SQLITE_IOERR_CLOSE {
        Some("SQLITE_IOERR_CLOSE"@)
    } else if code == SQLITE_IOERR_DIR_CLOSE {
        Some("SQLITE_IOERR_DIR_CLOSE"@)
    } else if code == SQLITE_IOERR_SHMOPEN {
        Some("SQLITE_IOERR_SHMOPEN"@)
    } else if code == SQLITE_IOERR_SHMSIZE {
        Some("SQLITE_IOERR_SHMSIZE"@)
    } else if code == SQLITE_IOERR_SHMLOCK {
        Some("SQLITE_IOERR_SHMLOCK"@)
    } else if code == SQLITE_IOERR_SHMMAP {
        Some("SQLITE_IOERR_SHMMAP"@)
    } else if code == SQLITE_IOERR_SEEK {
        Some("SQLITE_IOERR_SEEK"@)
    } else if code == SQLITE_IOERR_DELETE_NOENT {
        Some("SQLITE_IOERR_DELETE_NOENT"@)
    } else if code == SQLITE_IOERR_MMAP {
        Some("SQLITE_IOERR_MMAP"@)
    } else if code == SQLITE_IOERR_GETTEMPPATH {
        Some("SQLITE_IOERR_GETTEMPPATH"@)
    } else if code == SQLITE_IOERR_CONVPATH {
        Some("SQLITE_IOERR_CONVPATH"@)
    } else if code == SQLITE_IOERR_VNODE {
        Some("SQLITE_IOERR_VNODE"@)
    } else if code == SQLITE_IOERR_AUTH {
        Some("SQLITE_IOERR_AUTH"@)
    } else if code == SQLITE_LOCKED_SHAREDCACHE {
        Some("SQLITE_LOCKED_SHAREDCACHE"@)
    } else if code == SQLITE_BUSY_RECOVERY {
        Some("SQLITE_BUSY_RECOVERY"@)
    } else if code == SQLITE_BUSY_SNAPSHOT {
        Some("SQLITE_BUSY_SNAPSHOT"@)
    } else if code == SQLITE_CANTOPEN_NOTEMPDIR {
        Some("SQLITE_CANTOPEN_NOTEMPDIR"@)
    } else if code == SQLITE_CANTOPEN_ISDIR {
        Some("SQLITE_CANTOPEN_ISDIR"@)
    } else if code == SQLITE_CANTOPEN_FULLPATH {
        Some("SQLITE_CANTOPEN_FULLPATH"@)
    } else if code == SQLITE_CANTOPEN_CONVPATH {
        Some("SQLITE_CANTOPEN_CONVPATH"@)
    } else if code == SQLITE_CORRUPT_VTAB {
        Some("SQLITE_CORRUPT_VTAB"@)
    } else if code == SQLITE_READONLY_RECOVERY {
        Some("SQLITE_READONLY_RECOVERY"@)
    } else if code == SQLITE_READONLY_CANTLOCK {
        Some("SQLITE_READONLY_CANTLOCK"@)
    } else if code == SQLITE_READONLY_ROLLBACK {
        Some("SQLITE_READONLY_ROLLBACK"@)
    } else if code == SQLITE_READONLY_DBMOVED {
        Some("SQLITE_READONLY_DBMOVED"@)
    } else if code == SQLITE_ABORT_ROLLBACK {
        Some("SQLITE_ABORT_ROLLBACK"@)
    } else if code == SQLITE_CONSTRAINT_CHECK {
        Some("SQLITE_CONSTRAINT_CHECK"@)
    } else if code == SQLITE_CONSTRAINT_COMMITHOOK {
        Some("SQLITE_CONSTRAINT_COMMITHOOK"@)
    } else if code == SQLITE_CONSTRAINT_FOREIGNKEY {
        Some("SQLITE_CONSTRAINT_FOREIGNKEY"@)
    } else if code == SQLITE_CONSTRAINT_FUNCTION {
        Some("SQLITE_CONSTRAINT_FUNCTION"@)
    } else if code == SQLITE_CONSTRAINT_NOTNULL {
        Some("SQLITE_CONSTRAINT_NOTNULL"@)
    } else if code == SQLITE_CONSTRAINT_PRIMARYKEY {
        Some("SQLITE_CONSTRAINT_PRIMARYKEY"@)
    } else if code == SQLITE_CONSTRAINT_TRIGGER {
        Some("SQLITE_CONSTRAINT_TRIGGER"@)
    } else if code == SQLITE_CONSTRAINT_UNIQUE {
        Some("SQLITE_CONSTRAINT_UNIQUE"@)
    } else if code == SQLITE_CONSTRAINT_VTAB {
        Some("SQLITE_CONSTRAINT_VTAB"@)
    } else if code == SQLITE_CONSTRAINT_ROWID {
        Some("SQLITE_CONSTRAINT_ROWID"@)
    } else if code == SQLITE_NOTICE_RECOVER_WAL {
        Some("SQLITE_NOTICE_RECOVER_WAL"@)
    } else if code == SQLITE_NOTICE_RECOVER_ROLLBACK {
        Some("SQLITE_NOTICE_RECOVER_ROLLBACK"@)
    } else if code == SQLITE_WARNING_AUTOINDEX {
        Some("SQLITE_WARNING_AUTOINDEX"@)
    } else if code == SQLITE_AUTH_USER {
        Some("SQLITE_AUTH_USER"@)
    } else if code == SQLITE_OK_LOAD_PERMANENTLY {
        Some("SQLITE_OK_LOAD_PERMANENTLY"@)
    } else {
        None
    }
}

/// Looks up the symbolic constant name of a well-known code.
pub fn symbolic_name(code: i32) -> (r: Option<&'static str>)
    ensures
        r is Some <==> spec_symbolic_name(code) is Some,
        r matches Some(s) ==> spec_symbolic_name(code) == Some(s@),
{
    if code == SQLITE_ERROR_MISSING_COLLSEQ {
        Some("SQLITE_ERROR_MISSING_COLLSEQ")
    } else if code == SQLITE_ERROR_RETRY {
        Some("SQLITE_ERROR_RETRY")
    } else if code == SQLITE_ERROR_SNAPSHOT {
        Some("SQLITE_ERROR_SNAPSHOT")
    } else if code == SQLITE_IOERR_BEGIN_ATOMIC {
        Some("SQLITE_IOERR_BEGIN_ATOMIC")
    } else if code == SQLITE_IOERR_COMMIT_ATOMIC {
        Some("SQLITE_IOERR_COMMIT_ATOMIC")
    } else if code == SQLITE_IOERR_ROLLBACK_ATOMIC {
        Some("SQLITE_IOERR_ROLLBACK_ATOMIC")
    } else if code == SQLITE_IOERR_DATA {
        Some("SQLITE_IOERR_DATA")
    } else if code == SQLITE_IOERR_CORRUPTFS {
        Some("SQLITE_IOERR_CORRUPTFS")
    } else if code == SQLITE_LOCKED_VTAB {
        Some("SQLITE_LOCKED_VTAB")
    } else if code == SQLITE_BUSY_TIMEOUT {
        Some("SQLITE_BUSY_TIMEOUT")
    } else if code == SQLITE_CANTOPEN_DIRTYWAL {
        Some("SQLITE_CANTOPEN_DIRTYWAL")
    } else if code == SQLITE_CANTOPEN_SYMLINK {
        Some("SQLITE_CANTOPEN_SYMLINK")
    } else if code == SQLITE_CORRUPT_SEQUENCE {
        Some("SQLITE_CORRUPT_SEQUENCE")
    } else if code == SQLITE_CORRUPT_INDEX {
        Some("SQLITE_CORRUPT_INDEX")
    } else if code == SQLITE_READONLY_CANTINIT {
        Some("SQLITE_READONLY_CANTINIT")
    } else if code == SQLITE_READONLY_DIRECTORY {
        Some("SQLITE_READONLY_DIRECTORY")
    } else if code == SQLITE_CONSTRAINT_PINNED {
        Some("SQLITE_CONSTRAINT_PINNED")
    } else if code == SQLITE_CONSTRAINT_DATATYPE {
        Some("SQLITE_CONSTRAINT_DATATYPE")
    } else if code == SQLITE_NOTICE_RBU {
        Some("SQLITE_NOTICE_RBU")
    } else if code == SQLITE_OK_SYMLINK {
        Some("SQLITE_OK_SYMLINK")
    } else if code == SQLITE_OK {
        Some("SQLITE_OK")
    } else if code == SQLITE_ERROR {
        Some("SQLITE_ERROR")
    } else if code == SQLITE_INTERNAL {
        Some("SQLITE_INTERNAL")
    } else if code == SQLITE_PERM {
        Some("SQLITE_PERM")
    } else if code == SQLITE_ABORT {
        Some("SQLITE_ABORT")
    } else if code == SQLITE_BUSY {
        Some("SQLITE_BUSY")
    } else if code == SQLITE_LOCKED {
        Some("SQLITE_LOCKED")
    } else if code == SQLITE_NOMEM {
        Some("SQLITE_NOMEM")
    } else if code == SQLITE_READONLY {
        Some("SQLITE_READONLY")
    } else if code == SQLITE_INTERRUPT {
        Some("SQLITE_INTERRUPT")
    } else if code == SQLITE_IOERR {
        Some("SQLITE_IOERR")
    } else if code == SQLITE_CORRUPT {
        Some("SQLITE_CORRUPT")
    } else if code == SQLITE_NOTFOUND {
        Some("SQLITE_NOTFOUND")
    } else if code == SQLITE_FULL {
        Some("SQLITE_FULL")
    } else if code == SQLITE_CANTOPEN {
        Some("SQLITE_CANTOPEN")
    } else if code == SQLITE_PROTOCOL {
        Some("SQLITE_PROTOCOL")
    } else if code == SQLITE_EMPTY {
        Some("SQLITE_EMPTY")
    } else if code == SQLITE_SCHEMA {
        Some("SQLITE_SCHEMA")
    } else if code == SQLITE_TOOBIG {
        Some("SQLITE_TOOBIG")
    } else if code == SQLITE_CONSTRAINT {
        Some("SQLITE_CONSTRAINT")
    } else if code == SQLITE_MISMATCH {
        Some("SQLITE_MISMATCH")
    } else if code == SQLITE_MISUSE {
        Some("SQLITE_MISUSE")
    } else if code == SQLITE_NOLFS {
        Some("SQLITE_NOLFS")
    } else if code == SQLITE_AUTH {
        Some("SQLITE_AUTH")
    } else if code == SQLITE_FORMAT {
        Some("SQLITE_FORMAT")
    } else if code == SQLITE_RANGE {
        Some("SQLITE_RANGE")
    } else if code == SQLITE_NOTADB {
        Some("SQLITE_NOTADB")
    } else if code == SQLITE_NOTICE {
        Some("SQLITE_NOTICE")
    } else if code == SQLITE_WARNING {
        Some("SQLITE_WARNING")
    } else if code == SQLITE_ROW {
        Some("SQLITE_ROW")
    } else if code == SQLITE_DONE {
        Some("SQLITE_DONE")
    } else if code == SQLITE_IOERR_READ {
        Some("SQLITE_IOERR_READ")
    } else if code == SQLITE_IOERR_SHORT_READ {
        Some("SQLITE_IOERR_SHORT_READ")
    } else if code == SQLITE_IOERR_WRITE {
        Some("SQLITE_IOERR_WRITE")
    } else if code == SQLITE_IOERR_FSYNC {
        Some("SQLITE_IOERR_FSYNC")
    } else if code == SQLITE_IOERR_DIR_FSYNC {
        Some("SQLITE_IOERR_DIR_FSYNC")
    } else if code == SQLITE_IOERR_TRUNCATE {
        Some("SQLITE_IOERR_TRUNCATE")
    } else if code == SQLITE_IOERR_FSTAT {
        Some("SQLITE_IOERR_FSTAT")
    } else if code == SQLITE_IOERR_UNLOCK {
        Some("SQLITE_IOERR_UNLOCK")
    } else if code == SQLITE_IOERR_RDLOCK {
        Some("SQLITE_IOERR_RDLOCK")
    } else if code == SQLITE_IOERR_DELETE {
        Some("SQLITE_IOERR_DELETE")
    } else if code == SQLITE_IOERR_BLOCKED {
        Some("SQLITE_IOERR_BLOCKED")
    } else if code == SQLITE_IOERR_NOMEM {
        Some("SQLITE_IOERR_NOMEM")
    } else if code == SQLITE_IOERR_ACCESS {
        Some("SQLITE_IOERR_ACCESS")
    } else if code == SQLITE_IOERR_CHECKRESERVEDLOCK {
        Some("SQLITE_IOERR_CHECKRESERVEDLOCK")
    } else if code == SQLITE_IOERR_LOCK {
        Some("SQLITE_IOERR_LOCK")
    } else if code == SQLITE_IOERR_CLOSE {
        Some("SQLITE_IOERR_CLOSE")
    } else if code == SQLITE_IOERR_DIR_CLOSE {
        Some("SQLITE_IOERR_DIR_CLOSE")
    } else if code == SQLITE_IOERR_SHMOPEN {
        Some("SQLITE_IOERR_SHMOPEN")
    } else if code == SQLITE_IOERR_SHMSIZE {
        Some("SQLITE_IOERR_SHMSIZE")
    } else if code == SQLITE_IOERR_SHMLOCK {
        Some("SQLITE_IOERR_SHMLOCK")
    } else if code == SQLITE_IOERR_SHMMAP {
        Some("SQLITE_IOERR_SHMMAP")
    } else if code == SQLITE_IOERR_SEEK {
        Some("SQLITE_IOERR_SEEK")
    } else if code == SQLITE_IOERR_DELETE_NOENT {
        Some("SQLITE_IOERR_DELETE_NOENT")
    } else if code == SQLITE_IOERR_MMAP {
        Some("SQLITE_IOERR_MMAP")
    } else if code == SQLITE_IOERR_GETTEMPPATH {
        Some("SQLITE_IOERR_GETTEMPPATH")
    } else if code == SQLITE_IOERR_CONVPATH {
        Some("SQLITE_IOERR_CONVPATH")
    } else if code == SQLITE_IOERR_VNODE {
        Some("SQLITE_IOERR_VNODE")
    } else if code == SQLITE_IOERR_AUTH {
        Some("SQLITE_IOERR_AUTH")
    } else if code == SQLITE_LOCKED_SHAREDCACHE {
        Some("SQLITE_LOCKED_SHAREDCACHE")
    } else if code == SQLITE_BUSY_RECOVERY {
        Some("SQLITE_BUSY_RECOVERY")
    } else if code == SQLITE_BUSY_SNAPSHOT {
        Some("SQLITE_BUSY_SNAPSHOT")
    } else if code == SQLITE_CANTOPEN_NOTEMPDIR {
        Some("SQLITE_CANTOPEN_NOTEMPDIR")
    } else if code == SQLITE_CANTOPEN_ISDIR {
        Some("SQLITE_CANTOPEN_ISDIR")
    } else if code == SQLITE_CANTOPEN_FULLPATH {
        Some("SQLITE_CANTOPEN_FULLPATH")
    } else if code == SQLITE_CANTOPEN_CONVPATH {
        Some("SQLITE_CANTOPEN_CONVPATH")
    } else if code == SQLITE_CORRUPT_VTAB {
        Some("SQLITE_CORRUPT_VTAB")
    } else if code == SQLITE_READONLY_RECOVERY {
        Some("SQLITE_READONLY_RECOVERY")
    } else if code == SQLITE_READONLY_CANTLOCK {
        Some("SQLITE_READONLY_CANTLOCK")
    } else if code == SQLITE_READONLY_ROLLBACK {
        Some("SQLITE_READONLY_ROLLBACK")
    } else if code == SQLITE_READONLY_DBMOVED {
        Some("SQLITE_READONLY_DBMOVED")
    } else if code == SQLITE_ABORT_ROLLBACK {
        Some("SQLITE_ABORT_ROLLBACK")
    } else if code == SQLITE_CONSTRAINT_CHECK {
        Some("SQLITE_CONSTRAINT_CHECK")
    } else if code == SQLITE_CONSTRAINT_COMMITHOOK {
        Some("SQLITE_CONSTRAINT_COMMITHOOK")
    } else if code == SQLITE_CONSTRAINT_FOREIGNKEY {
        Some("SQLITE_CONSTRAINT_FOREIGNKEY")
    } else if code == SQLITE_CONSTRAINT_FUNCTION {
        Some("SQLITE_CONSTRAINT_FUNCTION")
    } else if code == SQLITE_CONSTRAINT_NOTNULL {
        Some("SQLITE_CONSTRAINT_NOTNULL")
    } else if code == SQLITE_CONSTRAINT_PRIMARYKEY {
        Some("SQLITE_CONSTRAINT_PRIMARYKEY")
    } else if code == SQLITE_CONSTRAINT_TRIGGER {
        Some("SQLITE_CONSTRAINT_TRIGGER")
    } else if code == SQLITE_CONSTRAINT_UNIQUE {
        Some("SQLITE_CONSTRAINT_UNIQUE")
    } else if code == SQLITE_CONSTRAINT_VTAB {
        Some("SQLITE_CONSTRAINT_VTAB")
    } else if code == SQLITE_CONSTRAINT_ROWID {
        Some("SQLITE_CONSTRAINT_ROWID")
    } else if code == SQLITE_NOTICE_RECOVER_WAL {
        Some("SQLITE_NOTICE_RECOVER_WAL")
    } else if code == SQLITE_NOTICE_RECOVER_ROLLBACK {
        Some("SQLITE_NOTICE_RECOVER_ROLLBACK")
    } else if code == SQLITE_WARNING_AUTOINDEX {
        Some("SQLITE_WARNING_AUTOINDEX")
    } else if code == SQLITE_AUTH_USER {
        Some("SQLITE_AUTH_USER")
    } else if code == SQLITE_OK_LOAD_PERMANENTLY {
        Some("SQLITE_OK_LOAD_PERMANENTLY")
    } else {
        None
    }
}

/// The canned description of a primary category, mirroring the engine's
/// own message table; categories with no entry fall back to a generic text.
pub open spec fn spec_primary_text(primary: i32) -> Seq<char> {
    if primary == SQLITE_OK {
        "not an error"@
    } else if primary == SQLITE_ERROR {
        "SQL logic error"@
    } else if primary == SQLITE_PERM {
        "access permission denied"@
    } else if primary == SQLITE_ABORT {
        "query aborted"@
    } else if primary == SQLITE_BUSY {
        "database is locked"@
    } else if primary == SQLITE_LOCKED {
        "database table is locked"@
    } else if primary == SQLITE_NOMEM {
        "out of memory"@
    } else if primary == SQLITE_READONLY {
        "attempt to write a readonly database"@
    } else if primary == SQLITE_INTERRUPT {
        "interrupted"@
    } else if primary == SQLITE_IOERR {
        "disk I/O error"@
    } else if primary == SQLITE_CORRUPT {
        "database disk image is malformed"@
    } else if primary == SQLITE_NOTFOUND {
        "unknown operation"@
    } else if primary == SQLITE_FULL {
        "database or disk is full"@
    } else if primary == SQLITE_CANTOPEN {
        "unable to open database file"@
    } else if primary == SQLITE_PROTOCOL {
        "locking protocol"@
    } else if primary == SQLITE_SCHEMA {
        "database schema has changed"@
    } else if primary == SQLITE_TOOBIG {
        "string or blob too big"@
    } else if primary == SQLITE_CONSTRAINT {
        "constraint failed"@
    } else if primary == SQLITE_MISMATCH {
        "datatype mismatch"@
    } else if primary == SQLITE_MISUSE {
        "bad parameter or other API misuse"@
    } else if primary == SQLITE_AUTH {
        "authorization denied"@
    } else if primary == SQLITE_RANGE {
        "column index out of range"@
    } else if primary == SQLITE_NOTADB {
        "file is not a database"@
    } else if primary == SQLITE_NOTICE {
        "notification message"@
    } else if primary == SQLITE_WARNING {
        "warning message"@
    } else {
        "unknown error"@
    }
}

/// The canned English description of a raw status code: a few extended
/// codes carry their own text, every other code is described by its
/// primary category.
pub open spec fn spec_canned_text(code: i32) -> Seq<char> {
    if code == SQLITE_ABORT_ROLLBACK {
        "abort due to ROLLBACK"@
    } else if code == SQLITE_ROW {
        "another row available"@
    } else if code == SQLITE_DONE {
        "no more rows available"@
    } else {
        spec_primary_text(spec_primary_of(code))
    }
}

/// Renders the canned English description of a raw status code.
pub fn canned_text(code: i32) -> (r: &'static str)
    ensures
        r@ == spec_canned_text(code),
{
    if code == SQLITE_ABORT_ROLLBACK {
        "abort due to ROLLBACK"
    } else if code == SQLITE_ROW {
        "another row available"
    } else if code == SQLITE_DONE {
        "no more rows available"
    } else {
        let primary: i32 = code & 0xff;
        if primary == SQLITE_OK {
            "not an error"
        } else if primary == SQLITE_ERROR {
            "SQL logic error"
        } else if primary == SQLITE_PERM {
            "access permission denied"
        } else if primary == SQLITE_ABORT {
            "query aborted"
        } else if primary == SQLITE_BUSY {
            "database is locked"
        } else if primary == SQLITE_LOCKED {
            "database table is locked"
        } else if primary == SQLITE_NOMEM {
            "out of memory"
        } else if primary == SQLITE_READONLY {
            "attempt to write a readonly database"
        } else if primary == SQLITE_INTERRUPT {
            "interrupted"
        } else if primary == SQLITE_IOERR {
            "disk I/O error"
        } else if primary == SQLITE_CORRUPT {
            "database disk image is malformed"
        } else if primary == SQLITE_NOTFOUND {
            "unknown operation"
        } else if primary == SQLITE_FULL {
            "database or disk is full"
        } else if primary == SQLITE_CANTOPEN {
            "unable to open database file"
        } else if primary == SQLITE_PROTOCOL {
            "locking protocol"
        } else if primary == SQLITE_SCHEMA {
            "database schema has changed"
        } else if primary == SQLITE_TOOBIG {
            "string or blob too big"
        } else if primary == SQLITE_CONSTRAINT {
            "constraint failed"
        } else if primary == SQLITE_MISMATCH {
            "datatype mismatch"
        } else if primary == SQLITE_MISUSE {
            "bad parameter or other API misuse"
        } else if primary == SQLITE_AUTH {
            "authorization denied"
        } else if primary == SQLITE_RANGE {
            "column index out of range"
        } else if primary == SQLITE_NOTADB {
            "file is not a database"
        } else if primary == SQLITE_NOTICE {
            "notification message"
        } else if primary == SQLITE_WARNING {
            "warning message"
        } else {
            "unknown error"
        }
    }
}

/// Every canned description is a non-empty string.
pub proof fn lemma_canned_text_nonempty(code: i32)
    ensures
        spec_canned_text(code).len() > 0,
{
    reveal_strlit("abort due to ROLLBACK");
    reveal_strlit("another row available");
    reveal_strlit("no more rows available");
    reveal_strlit("not an error");
    reveal_strlit("SQL logic error");
    reveal_strlit("access permission denied");
    reveal_strlit("query aborted");
    reveal_strlit("database is locked");
    reveal_strlit("database table is locked");
    reveal_strlit("out of memory");
    reveal_strlit("attempt to write a readonly database");
    reveal_strlit("interrupted");
    reveal_strlit("disk I/O error");
    reveal_strlit("database disk image is malformed");
    reveal_strlit("unknown operation");
    reveal_strlit("database or disk is full");
    reveal_strlit("unable to open database file");
    reveal_strlit("locking protocol");
    reveal_strlit("database schema has changed");
    reveal_strlit("string or blob too big");
    reveal_strlit("constraint failed");
    reveal_strlit("datatype mismatch");
    reveal_strlit("bad parameter or other API misuse");
    reveal_strlit("authorization denied");
    reveal_strlit("column index out of range");
    reveal_strlit("file is not a database");
    reveal_strlit("notification message");
    reveal_strlit("warning message");
    reveal_strlit("unknown error");
}

/// Every symbolic name in the rendering table is a non-empty string.
#[verifier::rlimit(100)]
pub proof fn lemma_symbolic_name_nonempty(code: i32)
    requires
        spec_symbolic_name(code) is Some,
    ensures
        spec_symbolic_name(code)->Some_0.len() > 0,
{
    reveal_strlit("SQLITE_OK");
    reveal_strlit("SQLITE_ERROR");
    reveal_strlit("SQLITE_INTERNAL");
    reveal_strlit("SQLITE_PERM");
    reveal_strlit("SQLITE_ABORT");
    reveal_strlit("SQLITE_BUSY");
    reveal_strlit("SQLITE_LOCKED");
    reveal_strlit("SQLITE_NOMEM");
    reveal_strlit("SQLITE_READONLY");
    reveal_strlit("SQLITE_INTERRUPT");
    reveal_strlit("SQLITE_IOERR");
    reveal_strlit("SQLITE_CORRUPT");
    reveal_strlit("SQLITE_NOTFOUND");
    reveal_strlit("SQLITE_FULL");
    reveal_strlit("SQLITE_CANTOPEN");
    reveal_strlit("SQLITE_PROTOCOL");
    reveal_strlit("SQLITE_EMPTY");
    reveal_strlit("SQLITE_SCHEMA");
    reveal_strlit("SQLITE_TOOBIG");
    reveal_strlit("SQLITE_CONSTRAINT");
    reveal_strlit("SQLITE_MISMATCH");
    reveal_strlit("SQLITE_MISUSE");
    reveal_strlit("SQLITE_NOLFS");
    reveal_strlit("SQLITE_AUTH");
    reveal_strlit("SQLITE_FORMAT");
    reveal_strlit("SQLITE_RANGE");
    reveal_strlit("SQLITE_NOTADB");
    reveal_strlit("SQLITE_NOTICE");
    reveal_strlit("SQLITE_WARNING");
    reveal_strlit("SQLITE_ROW");
    reveal_strlit("SQLITE_DONE");
    reveal_strlit("SQLITE_IOERR_READ");
    reveal_strlit("SQLITE_IOERR_SHORT_READ");
    reveal_strlit("SQLITE_IOERR_WRITE");
    reveal_strlit("SQLITE_IOERR_FSYNC");
    reveal_strlit("SQLITE_IOERR_DIR_FSYNC");
    reveal_strlit("SQLITE_IOERR_TRUNCATE");
    reveal_strlit("SQLITE_IOERR_FSTAT");
    reveal_strlit("SQLITE_IOERR_UNLOCK");
    reveal_strlit("SQLITE_IOERR_RDLOCK");
    reveal_strlit("SQLITE_IOERR_DELETE");
    reveal_strlit("SQLITE_IOERR_BLOCKED");
    reveal_strlit("SQLITE_IOERR_NOMEM");
    reveal_strlit("SQLITE_IOERR_ACCESS");
    reveal_strlit("SQLITE_IOERR_CHECKRESERVEDLOCK");
    reveal_strlit("SQLITE_IOERR_LOCK");
    reveal_strlit("SQLITE_IOERR_CLOSE");
    reveal_strlit("SQLITE_IOERR_DIR_CLOSE");
    reveal_strlit("SQLITE_IOERR_SHMOPEN");
    reveal_strlit("SQLITE_IOERR_SHMSIZE");
    reveal_strlit("SQLITE_IOERR_SHMLOCK");
    reveal_strlit("SQLITE_IOERR_SHMMAP");
    reveal_strlit("SQLITE_IOERR_SEEK");
    reveal_strlit("SQLITE_IOERR_DELETE_NOENT");
    reveal_strlit("SQLITE_IOERR_MMAP");
    reveal_strlit("SQLITE_IOERR_GETTEMPPATH");
    reveal_strlit("SQLITE_IOERR_CONVPATH");
    reveal_strlit("SQLITE_IOERR_VNODE");
    reveal_strlit("SQLITE_IOERR_AUTH");
    reveal_strlit("SQLITE_LOCKED_SHAREDCACHE");
    reveal_strlit("SQLITE_BUSY_RECOVERY");
    reveal_strlit("SQLITE_BUSY_SNAPSHOT");
    reveal_strlit("SQLITE_CANTOPEN_NOTEMPDIR");
    reveal_strlit("SQLITE_CANTOPEN_ISDIR");
    reveal_strlit("SQLITE_CANTOPEN_FULLPATH");
    reveal_strlit("SQLITE_CANTOPEN_CONVPATH");
    reveal_strlit("SQLITE_CORRUPT_VTAB");
    reveal_strlit("SQLITE_READONLY_RECOVERY");
    reveal_strlit("SQLITE_READONLY_CANTLOCK");
    reveal_strlit("SQLITE_READONLY_ROLLBACK");
    reveal_strlit("SQLITE_READONLY_DBMOVED");
    reveal_strlit("SQLITE_ABORT_ROLLBACK");
    reveal_strlit("SQLITE_CONSTRAINT_CHECK");
    reveal_strlit("SQLITE_CONSTRAINT_COMMITHOOK");
    reveal_strlit("SQLITE_CONSTRAINT_FOREIGNKEY");
    reveal_strlit("SQLITE_CONSTRAINT_FUNCTION");
    reveal_strlit("SQLITE_CONSTRAINT_NOTNULL");
    reveal_strlit("SQLITE_CONSTRAINT_PRIMARYKEY");
    reveal_strlit("SQLITE_CONSTRAINT_TRIGGER");
    reveal_strlit("SQLITE_CONSTRAINT_UNIQUE");
    reveal_strlit("SQLITE_CONSTRAINT_VTAB");
    reveal_strlit("SQLITE_CONSTRAINT_ROWID");
    reveal_strlit("SQLITE_NOTICE_RECOVER_WAL");
    reveal_strlit("SQLITE_NOTICE_RECOVER_ROLLBACK");
    reveal_strlit("SQLITE_WARNING_AUTOINDEX");
    reveal_strlit("SQLITE_AUTH_USER");
    reveal_strlit("SQLITE_OK_LOAD_PERMANENTLY");
    reveal_strlit("SQLITE_ERROR_MISSING_COLLSEQ");
    reveal_strlit("SQLITE_ERROR_RETRY");
    reveal_strlit("SQLITE_ERROR_SNAPSHOT");
    reveal_strlit("SQLITE_IOERR_BEGIN_ATOMIC");
    reveal_strlit("SQLITE_IOERR_COMMIT_ATOMIC");
    reveal_strlit("SQLITE_IOERR_ROLLBACK_ATOMIC");
    reveal_strlit("SQLITE_IOERR_DATA");
    reveal_strlit("SQLITE_IOERR_CORRUPTFS");
    reveal_strlit("SQLITE_LOCKED_VTAB");
    reveal_strlit("SQLITE_BUSY_TIMEOUT");
    reveal_strlit("SQLITE_CANTOPEN_DIRTYWAL");
    reveal_strlit("SQLITE_CANTOPEN_SYMLINK");
    reveal_strlit("SQLITE_CORRUPT_SEQUENCE");
    reveal_strlit("SQLITE_CORRUPT_INDEX");
    reveal_strlit("SQLITE_READONLY_CANTINIT");
    reveal_strlit("SQLITE_READONLY_DIRECTORY");
    reveal_strlit("SQLITE_CONSTRAINT_PINNED");
    reveal_strlit("SQLITE_CONSTRAINT_DATATYPE");
    reveal_strlit("SQLITE_NOTICE_RBU");
    reveal_strlit("SQLITE_OK_SYMLINK");
}

/// The rendering table is one-to-one: two codes that carry the same
/// symbolic name are the same code.
#[verifier::rlimit(100)]
pub proof fn lemma_symbolic_name_unique(c1: i32, c2: i32)
    requires
        spec_symbolic_name(c1) is Some,
        spec_symbolic_name(c1) == spec_symbolic_name(c2),
    ensures
        c1 == c2,
{
    reveal_strlit("SQLITE_OK");
    reveal_strlit("SQLITE_ERROR");
    reveal_strlit("SQLITE_INTERNAL");
    reveal_strlit("SQLITE_PERM");
    reveal_strlit("SQLITE_ABORT");
    reveal_strlit("SQLITE_BUSY");
    reveal_strlit("SQLITE_LOCKED");
    reveal_strlit("SQLITE_NOMEM");
    reveal_strlit("SQLITE_READONLY");
    reveal_strlit("SQLITE_INTERRUPT");
    reveal_strlit("SQLITE_IOERR");
    reveal_strlit("SQLITE_CORRUPT");
    reveal_strlit("SQLITE_NOTFOUND");
    reveal_strlit("SQLITE_FULL");
    reveal_strlit("SQLITE_CANTOPEN");
    reveal_strlit("SQLITE_PROTOCOL");
    reveal_strlit("SQLITE_EMPTY");
    reveal_strlit("SQLITE_SCHEMA");
    reveal_strlit("SQLITE_TOOBIG");
    reveal_strlit("SQLITE_CONSTRAINT");
    reveal_strlit("SQLITE_MISMATCH");
    reveal_strlit("SQLITE_MISUSE");
    reveal_strlit("SQLITE_NOLFS");
    reveal_strlit("SQLITE_AUTH");
    reveal_strlit("SQLITE_FORMAT");
    reveal_strlit("SQLITE_RANGE");
    reveal_strlit("SQLITE_NOTADB");
    reveal_strlit("SQLITE_NOTICE");
    reveal_strlit("SQLITE_WARNING");
    reveal_strlit("SQLITE_ROW");
    reveal_strlit("SQLITE_DONE");
    reveal_strlit("SQLITE_IOERR_READ");
    reveal_strlit("SQLITE_IOERR_SHORT_READ");
    reveal_strlit("SQLITE_IOERR_WRITE");
    reveal_strlit("SQLITE_IOERR_FSYNC");
    reveal_strlit("SQLITE_IOERR_DIR_FSYNC");
    reveal_strlit("SQLITE_IOERR_TRUNCATE");
    reveal_strlit("SQLITE_IOERR_FSTAT");
    reveal_strlit("SQLITE_IOERR_UNLOCK");
    reveal_strlit("SQLITE_IOERR_RDLOCK");
    reveal_strlit("SQLITE_IOERR_DELETE");
    reveal_strlit("SQLITE_IOERR_BLOCKED");
    reveal_strlit("SQLITE_IOERR_NOMEM");
    reveal_strlit("SQLITE_IOERR_ACCESS");
    reveal_strlit("SQLITE_IOERR_CHECKRESERVEDLOCK");
    reveal_strlit("SQLITE_IOERR_LOCK");
    reveal_strlit("SQLITE_IOERR_CLOSE");
    reveal_strlit("SQLITE_IOERR_DIR_CLOSE");
    reveal_strlit("SQLITE_IOERR_SHMOPEN");
    reveal_strlit("SQLITE_IOERR_SHMSIZE");
    reveal_strlit("SQLITE_IOERR_SHMLOCK");
    reveal_strlit("SQLITE_IOERR_SHMMAP");
    reveal_strlit("SQLITE_IOERR_SEEK");
    reveal_strlit("SQLITE_IOERR_DELETE_NOENT");
    reveal_strlit("SQLITE_IOERR_MMAP");
    reveal_strlit("SQLITE_IOERR_GETTEMPPATH");
    reveal_strlit("SQLITE_IOERR_CONVPATH");
    reveal_strlit("SQLITE_IOERR_VNODE");
    reveal_strlit("SQLITE_IOERR_AUTH");
    reveal_strlit("SQLITE_LOCKED_SHAREDCACHE");
    reveal_strlit("SQLITE_BUSY_RECOVERY");
    reveal_strlit("SQLITE_BUSY_SNAPSHOT");
    reveal_strlit("SQLITE_CANTOPEN_NOTEMPDIR");
    reveal_strlit("SQLITE_CANTOPEN_ISDIR");
    reveal_strlit("SQLITE_CANTOPEN_FULLPATH");
    reveal_strlit("SQLITE_CANTOPEN_CONVPATH");
    reveal_strlit("SQLITE_CORRUPT_VTAB");
    reveal_strlit("SQLITE_READONLY_RECOVERY");
    reveal_strlit("SQLITE_READONLY_CANTLOCK");
    reveal_strlit("SQLITE_READONLY_ROLLBACK");
    reveal_strlit("SQLITE_READONLY_DBMOVED");
    reveal_strlit("SQLITE_ABORT_ROLLBACK");
    reveal_strlit("SQLITE_CONSTRAINT_CHECK");
    reveal_strlit("SQLITE_CONSTRAINT_COMMITHOOK");
    reveal_strlit("SQLITE_CONSTRAINT_FOREIGNKEY");
    reveal_strlit("SQLITE_CONSTRAINT_FUNCTION");
    reveal_strlit("SQLITE_CONSTRAINT_NOTNULL");
    reveal_strlit("SQLITE_CONSTRAINT_PRIMARYKEY");
    reveal_strlit("SQLITE_CONSTRAINT_TRIGGER");
    reveal_strlit("SQLITE_CONSTRAINT_UNIQUE");
    reveal_strlit("SQLITE_CONSTRAINT_VTAB");
    reveal_strlit("SQLITE_CONSTRAINT_ROWID");
    reveal_strlit("SQLITE_NOTICE_RECOVER_WAL");
    reveal_strlit("SQLITE_NOTICE_RECOVER_ROLLBACK");
    reveal_strlit("SQLITE_WARNING_AUTOINDEX");
    reveal_strlit("SQLITE_AUTH_USER");
    reveal_strlit("SQLITE_OK_LOAD_PERMANENTLY");
    reveal_strlit("SQLITE_ERROR_MISSING_COLLSEQ");
    reveal_strlit("SQLITE_ERROR_RETRY");
    reveal_strlit("SQLITE_ERROR_SNAPSHOT");
    reveal_strlit("SQLITE_IOERR_BEGIN_ATOMIC");
    reveal_strlit("SQLITE_IOERR_COMMIT_ATOMIC");
    reveal_strlit("SQLITE_IOERR_ROLLBACK_ATOMIC");
    reveal_strlit("SQLITE_IOERR_DATA");
    reveal_strlit("SQLITE_IOERR_CORRUPTFS");
    reveal_strlit("SQLITE_LOCKED_VTAB");
    reveal_strlit("SQLITE_BUSY_TIMEOUT");
    reveal_strlit("SQLITE_CANTOPEN_DIRTYWAL");
    reveal_strlit("SQLITE_CANTOPEN_SYMLINK");
    reveal_strlit("SQLITE_CORRUPT_SEQUENCE");
    reveal_strlit("SQLITE_CORRUPT_INDEX");
    reveal_strlit("SQLITE_READONLY_CANTINIT");
    reveal_strlit("SQLITE_READONLY_DIRECTORY");
    reveal_strlit("SQLITE_CONSTRAINT_PINNED");
    reveal_strlit("SQLITE_CONSTRAINT_DATATYPE");
    reveal_strlit("SQLITE_NOTICE_RBU");
    reveal_strlit("SQLITE_OK_SYMLINK");
    assert(("SQLITE_OK"@).len() == 9);
    assert(("SQLITE_ERROR"@).len() == 12);
    assert(("SQLITE_INTERNAL"@).len() == 15);
    assert(("SQLITE_PERM"@).len() == 11);
    assert(("SQLITE_ABORT"@).len() == 12);
    assert(("SQLITE_BUSY"@).len() == 11);
    assert(("SQLITE_LOCKED"@).len() == 13);
    assert(("SQLITE_NOMEM"@).len() == 12);
    assert(("SQLITE_READONLY"@).len() == 15);
    assert(("SQLITE_INTERRUPT"@).len() == 16);
    assert(("SQLITE_IOERR"@).len() == 12);
    assert(("SQLITE_CORRUPT"@).len() == 14);
    assert(("SQLITE_NOTFOUND"@).len() == 15);
    assert(("SQLITE_FULL"@).len() == 11);
    assert(("SQLITE_CANTOPEN"@).len() == 15);
    assert(("SQLITE_PROTOCOL"@).len() == 15);
    assert(("SQLITE_EMPTY"@).len() == 12);
    assert(("SQLITE_SCHEMA"@).len() == 13);
    assert(("SQLITE_TOOBIG"@).len() == 13);
    assert(("SQLITE_CONSTRAINT"@).len() == 17);
    assert(("SQLITE_MISMATCH"@).len() == 15);
    assert(("SQLITE_MISUSE"@).len() == 13);
    assert(("SQLITE_NOLFS"@).len() == 12);
    assert(("SQLITE_AUTH"@).len() == 11);
    assert(("SQLITE_FORMAT"@).len() == 13);
    assert(("SQLITE_RANGE"@).len() == 12);
    assert(("SQLITE_NOTADB"@).len() == 13);
    assert(("SQLITE_NOTICE"@).len() == 13);
    assert(("SQLITE_WARNING"@).len() == 14);
    assert(("SQLITE_ROW"@).len() == 10);
    assert(("SQLITE_DONE"@).len() == 11);
    assert(("SQLITE_IOERR_READ"@).len() == 17);
    assert(("SQLITE_IOERR_SHORT_READ"@).len() == 23);
    assert(("SQLITE_IOERR_WRITE"@).len() == 18);
    assert(("SQLITE_IOERR_FSYNC"@).len() == 18);
    assert(("SQLITE_IOERR_DIR_FSYNC"@).len() == 22);
    assert(("SQLITE_IOERR_TRUNCATE"@).len() == 21);
    assert(("SQLITE_IOERR_FSTAT"@).len() == 18);
    assert(("SQLITE_IOERR_UNLOCK"@).len() == 19);
    assert(("SQLITE_IOERR_RDLOCK"@).len() == 19);
    assert(("SQLITE_IOERR_DELETE"@).len() == 19);
    assert(("SQLITE_IOERR_BLOCKED"@).len() == 20);
    assert(("SQLITE_IOERR_NOMEM"@).len() == 18);
    assert(("SQLITE_IOERR_ACCESS"@).len() == 19);
    assert(("SQLITE_IOERR_CHECKRESERVEDLOCK"@).len() == 30);
    assert(("SQLITE_IOERR_LOCK"@).len() == 17);
    assert(("SQLITE_IOERR_CLOSE"@).len() == 18);
    assert(("SQLITE_IOERR_DIR_CLOSE"@).len() == 22);
    assert(("SQLITE_IOERR_SHMOPEN"@).len() == 20);
    assert(("SQLITE_IOERR_SHMSIZE"@).len() == 20);
    assert(("SQLITE_IOERR_SHMLOCK"@).len() == 20);
    assert(("SQLITE_IOERR_SHMMAP"@).len() == 19);
    assert(("SQLITE_IOERR_SEEK"@).len() == 17);
    assert(("SQLITE_IOERR_DELETE_NOENT"@).len() == 25);
    assert(("SQLITE_IOERR_MMAP"@).len() == 17);
    assert(("SQLITE_IOERR_GETTEMPPATH"@).len() == 24);
    assert(("SQLITE_IOERR_CONVPATH"@).len() == 21);
    assert(("SQLITE_IOERR_VNODE"@).len() == 18);
    assert(("SQLITE_IOERR_AUTH"@).len() == 17);
    assert(("SQLITE_LOCKED_SHAREDCACHE"@).len() == 25);
    assert(("SQLITE_BUSY_RECOVERY"@).len() == 20);
    assert(("SQLITE_BUSY_SNAPSHOT"@).len() == 20);
    assert(("SQLITE_CANTOPEN_NOTEMPDIR"@).len() == 25);
    assert(("SQLITE_CANTOPEN_ISDIR"@).len() == 21);
    assert(("SQLITE_CANTOPEN_FULLPATH"@).len() == 24);
    assert(("SQLITE_CANTOPEN_CONVPATH"@).len() == 24);
    assert(("SQLITE_CORRUPT_VTAB"@).len() == 19);
    assert(("SQLITE_READONLY_RECOVERY"@).len() == 24);
    assert(("SQLITE_READONLY_CANTLOCK"@).len() == 24);
    assert(("SQLITE_READONLY_ROLLBACK"@).len() == 24);
    assert(("SQLITE_READONLY_DBMOVED"@).len() == 23);
    assert(("SQLITE_ABORT_ROLLBACK"@).len() == 21);
    assert(("SQLITE_CONSTRAINT_CHECK"@).len() == 23);
    assert(("SQLITE_CONSTRAINT_COMMITHOOK"@).len() == 28);
    assert(("SQLITE_CONSTRAINT_FOREIGNKEY"@).len() == 28);
    assert(("SQLITE_CONSTRAINT_FUNCTION"@).len() == 26);
    assert(("SQLITE_CONSTRAINT_NOTNULL"@).len() == 25);
    assert(("SQLITE_CONSTRAINT_PRIMARYKEY"@).len() == 28);
    assert(("SQLITE_CONSTRAINT_TRIGGER"@).len() == 25);
    assert(("SQLITE_CONSTRAINT_UNIQUE"@).len() == 24);
    assert(("SQLITE_CONSTRAINT_VTAB"@).len() == 22);
    assert(("SQLITE_CONSTRAINT_ROWID"@).len() == 23);
    assert(("SQLITE_NOTICE_RECOVER_WAL"@).len() == 25);
    assert(("SQLITE_NOTICE_RECOVER_ROLLBACK"@).len() == 30);
    assert(("SQLITE_WARNING_AUTOINDEX"@).len() == 24);
    assert(("SQLITE_AUTH_USER"@).len() == 16);
    assert(("SQLITE_OK_LOAD_PERMANENTLY"@).len() == 26);
    assert(("SQLITE_ERROR_MISSING_COLLSEQ"@).len() == 28);
    assert(("SQLITE_ERROR_RETRY"@).len() == 18);
    assert(("SQLITE_ERROR_SNAPSHOT"@).len() == 21);
    assert(("SQLITE_IOERR_BEGIN_ATOMIC"@).len() == 25);
    assert(("SQLITE_IOERR_COMMIT_ATOMIC"@).len() == 26);
    assert(("SQLITE_IOERR_ROLLBACK_ATOMIC"@).len() == 28);
    assert(("SQLITE_IOERR_DATA"@).len() == 17);
    assert(("SQLITE_IOERR_CORRUPTFS"@).len() == 22);
    assert(("SQLITE_LOCKED_VTAB"@).len() == 18);
    assert(("SQLITE_BUSY_TIMEOUT"@).len() == 19);
    assert(("SQLITE_CANTOPEN_DIRTYWAL"@).len() == 24);
    assert(("SQLITE_CANTOPEN_SYMLINK"@).len() == 23);
    assert(("SQLITE_CORRUPT_SEQUENCE"@).len() == 23);
    assert(("SQLITE_CORRUPT_INDEX"@).len() == 20);
    assert(("SQLITE_READONLY_CANTINIT"@).len() == 24);
    assert(("SQLITE_READONLY_DIRECTORY"@).len() == 25);
    assert(("SQLITE_CONSTRAINT_PINNED"@).len() == 24);
    assert(("SQLITE_CONSTRAINT_DATATYPE"@).len() == 26);
    assert(("SQLITE_NOTICE_RBU"@).len() == 17);
    assert(("SQLITE_OK_SYMLINK"@).len() == 17);
    assert(("SQLITE_ABORT"@)[7] == 'A');
    assert(("SQLITE_ABORT_ROLLBACK"@)[7] == 'A');
    assert(("SQLITE_AUTH"@)[7] == 'A');
    assert(("SQLITE_AUTH_USER"@)[7] == 'A');
    assert(("SQLITE_BUSY"@)[7] == 'B');
    assert(("SQLITE_BUSY_RECOVERY"@)[7] == 'B');
    assert(("SQLITE_BUSY_RECOVERY"@)[12] == 'R');
    assert(("SQLITE_BUSY_SNAPSHOT"@)[7] == 'B');
    assert(("SQLITE_BUSY_SNAPSHOT"@)[12] == 'S');
    assert(("SQLITE_BUSY_TIMEOUT"@)[7] == 'B');
    assert(("SQLITE_CANTOPEN"@)[7] == 'C');
    assert(("SQLITE_CANTOPEN_CONVPATH"@)[7] == 'C');
    assert(("SQLITE_CANTOPEN_CONVPATH"@)[8] == 'A');
    assert(("SQLITE_CANTOPEN_CONVPATH"@)[16] == 'C');
    assert(("SQLITE_CANTOPEN_DIRTYWAL"@)[7] == 'C');
    assert(("SQLITE_CANTOPEN_DIRTYWAL"@)[8] == 'A');
    assert(("SQLITE_CANTOPEN_DIRTYWAL"@)[16] == 'D');
    assert(("SQLITE_CANTOPEN_FULLPATH"@)[7] == 'C');
    assert(("SQLITE_CANTOPEN_FULLPATH"@)[8] == 'A');
    assert(("SQLITE_CANTOPEN_FULLPATH"@)[16] == 'F');
    assert(("SQLITE_CANTOPEN_ISDIR"@)[7] == 'C');
    assert(("SQLITE_CANTOPEN_NOTEMPDIR"@)[7] == 'C');
    assert(("SQLITE_CANTOPEN_NOTEMPDIR"@)[8] == 'A');
    assert(("SQLITE_CANTOPEN_SYMLINK"@)[7] == 'C');
    assert(("SQLITE_CANTOPEN_SYMLINK"@)[8] == 'A');
    assert(("SQLITE_CONSTRAINT"@)[7] == 'C');
    assert(("SQLITE_CONSTRAINT_CHECK"@)[7] == 'C');
    assert(("SQLITE_CONSTRAINT_CHECK"@)[8] == 'O');
    assert(("SQLITE_CONSTRAINT_CHECK"@)[9] == 'N');
    assert(("SQLITE_CONSTRAINT_CHECK"@)[18] == 'C');
    assert(("SQLITE_CONSTRAINT_COMMITHOOK"@)[7] == 'C');
    assert(("SQLITE_CONSTRAINT_COMMITHOOK"@)[18] == 'C');
    assert(("SQLITE_CONSTRAINT_DATATYPE"@)[7] == 'C');
    assert(("SQLITE_CONSTRAINT_DATATYPE"@)[18] == 'D');
    assert(("SQLITE_CONSTRAINT_FOREIGNKEY"@)[7] == 'C');
    assert(("SQLITE_CONSTRAINT_FOREIGNKEY"@)[18] == 'F');
    assert(("SQLITE_CONSTRAINT_FUNCTION"@)[7] == 'C');
    assert(("SQLITE_CONSTRAINT_FUNCTION"@)[18] == 'F');
    assert(("SQLITE_CONSTRAINT_NOTNULL"@)[7] == 'C');
    assert(("SQLITE_CONSTRAINT_NOTNULL"@)[8] == 'O');
    assert(("SQLITE_CONSTRAINT_NOTNULL"@)[18] == 'N');
    assert(("SQLITE_CONSTRAINT_PINNED"@)[7] == 'C');
    assert(("SQLITE_CONSTRAINT_PINNED"@)[8] == 'O');
    assert(("SQLITE_CONSTRAINT_PINNED"@)[18] == 'P');
    assert(("SQLITE_CONSTRAINT_PRIMARYKEY"@)[7] == 'C');
    assert(("SQLITE_CONSTRAINT_PRIMARYKEY"@)[18] == 'P');
    assert(("SQLITE_CONSTRAINT_ROWID"@)[7] == 'C');
    assert(("SQLITE_CONSTRAINT_ROWID"@)[8] == 'O');
    assert(("SQLITE_CONSTRAINT_ROWID"@)[9] == 'N');
    assert(("SQLITE_CONSTRAINT_ROWID"@)[18] == 'R');
    assert(("SQLITE_CONSTRAINT_TRIGGER"@)[7] == 'C');
    assert(("SQLITE_CONSTRAINT_TRIGGER"@)[8] == 'O');
    assert(("SQLITE_CONSTRAINT_TRIGGER"@)[18] == 'T');
    assert(("SQLITE_CONSTRAINT_UNIQUE"@)[7] == 'C');
    assert(("SQLITE_CONSTRAINT_UNIQUE"@)[8] == 'O');
    assert(("SQLITE_CONSTRAINT_UNIQUE"@)[18] == 'U');
    assert(("SQLITE_CONSTRAINT_VTAB"@)[7] == 'C');
    assert(("SQLITE_CORRUPT"@)[7] == 'C');
    assert(("SQLITE_CORRUPT_INDEX"@)[7] == 'C');
    assert(("SQLITE_CORRUPT_SEQUENCE"@)[7] == 'C');
    assert(("SQLITE_CORRUPT_SEQUENCE"@)[8] == 'O');
    assert(("SQLITE_CORRUPT_SEQUENCE"@)[9] == 'R');
    assert(("SQLITE_CORRUPT_VTAB"@)[7] == 'C');
    assert(("SQLITE_DONE"@)[7] == 'D');
    assert(("SQLITE_EMPTY"@)[7] == 'E');
    assert(("SQLITE_EMPTY"@)[8] == 'M');
    assert(("SQLITE_ERROR"@)[7] == 'E');
    assert(("SQLITE_ERROR"@)[8] == 'R');
    assert(("SQLITE_ERROR_MISSING_COLLSEQ"@)[7] == 'E');
    assert(("SQLITE_ERROR_RETRY"@)[7] == 'E');
    assert(("SQLITE_ERROR_SNAPSHOT"@)[7] == 'E');
    assert(("SQLITE_FORMAT"@)[7] == 'F');
    assert(("SQLITE_FULL"@)[7] == 'F');
    assert(("SQLITE_INTERNAL"@)[7] == 'I');
    assert(("SQLITE_INTERRUPT"@)[7] == 'I');
    assert(("SQLITE_IOERR"@)[7] == 'I');
    assert(("SQLITE_IOERR_ACCESS"@)[7] == 'I');
    assert(("SQLITE_IOERR_ACCESS"@)[13] == 'A');
    assert(("SQLITE_IOERR_AUTH"@)[7] == 'I');
    assert(("SQLITE_IOERR_AUTH"@)[13] == 'A');
    assert(("SQLITE_IOERR_BEGIN_ATOMIC"@)[7] == 'I');
    assert(("SQLITE_IOERR_BEGIN_ATOMIC"@)[13] == 'B');
    assert(("SQLITE_IOERR_BLOCKED"@)[7] == 'I');
    assert(("SQLITE_IOERR_BLOCKED"@)[13] == 'B');
    assert(("SQLITE_IOERR_CHECKRESERVEDLOCK"@)[7] == 'I');
    assert(("SQLITE_IOERR_CLOSE"@)[7] == 'I');
    assert(("SQLITE_IOERR_CLOSE"@)[13] == 'C');
    assert(("SQLITE_IOERR_COMMIT_ATOMIC"@)[7] == 'I');
    assert(("SQLITE_IOERR_CONVPATH"@)[7] == 'I');
    assert(("SQLITE_IOERR_CONVPATH"@)[13] == 'C');
    assert(("SQLITE_IOERR_CORRUPTFS"@)[7] == 'I');
    assert(("SQLITE_IOERR_CORRUPTFS"@)[13] == 'C');
    assert(("SQLITE_IOERR_DATA"@)[7] == 'I');
    assert(("SQLITE_IOERR_DATA"@)[13] == 'D');
    assert(("SQLITE_IOERR_DELETE"@)[7] == 'I');
    assert(("SQLITE_IOERR_DELETE"@)[13] == 'D');
    assert(("SQLITE_IOERR_DELETE_NOENT"@)[7] == 'I');
    assert(("SQLITE_IOERR_DELETE_NOENT"@)[13] == 'D');
    assert(("SQLITE_IOERR_DIR_CLOSE"@)[7] == 'I');
    assert(("SQLITE_IOERR_DIR_CLOSE"@)[13] == 'D');
    assert(("SQLITE_IOERR_DIR_CLOSE"@)[17] == 'C');
    assert(("SQLITE_IOERR_DIR_FSYNC"@)[7] == 'I');
    assert(("SQLITE_IOERR_DIR_FSYNC"@)[13] == 'D');
    assert(("SQLITE_IOERR_DIR_FSYNC"@)[17] == 'F');
    assert(("SQLITE_IOERR_FSTAT"@)[7] == 'I');
    assert(("SQLITE_IOERR_FSTAT"@)[13] == 'F');
    assert(("SQLITE_IOERR_FSTAT"@)[15] == 'T');
    assert(("SQLITE_IOERR_FSYNC"@)[7] == 'I');
    assert(("SQLITE_IOERR_FSYNC"@)[13] == 'F');
    assert(("SQLITE_IOERR_FSYNC"@)[15] == 'Y');
    assert(("SQLITE_IOERR_GETTEMPPATH"@)[7] == 'I');
    assert(("SQLITE_IOERR_LOCK"@)[7] == 'I');
    assert(("SQLITE_IOERR_LOCK"@)[13] == 'L');
    assert(("SQLITE_IOERR_MMAP"@)[7] == 'I');
    assert(("SQLITE_IOERR_MMAP"@)[13] == 'M');
    assert(("SQLITE_IOERR_NOMEM"@)[7] == 'I');
    assert(("SQLITE_IOERR_NOMEM"@)[13] == 'N');
    assert(("SQLITE_IOERR_RDLOCK"@)[7] == 'I');
    assert(("SQLITE_IOERR_RDLOCK"@)[13] == 'R');
    assert(("SQLITE_IOERR_READ"@)[7] == 'I');
    assert(("SQLITE_IOERR_READ"@)[13] == 'R');
    assert(("SQLITE_IOERR_ROLLBACK_ATOMIC"@)[7] == 'I');
    assert(("SQLITE_IOERR_SEEK"@)[7] == 'I');
    assert(("SQLITE_IOERR_SEEK"@)[13] == 'S');
    assert(("SQLITE_IOERR_SHMLOCK"@)[7] == 'I');
    assert(("SQLITE_IOERR_SHMLOCK"@)[13] == 'S');
    assert(("SQLITE_IOERR_SHMLOCK"@)[16] == 'L');
    assert(("SQLITE_IOERR_SHMMAP"@)[7] == 'I');
    assert(("SQLITE_IOERR_SHMMAP"@)[13] == 'S');
    assert(("SQLITE_IOERR_SHMOPEN"@)[7] == 'I');
    assert(("SQLITE_IOERR_SHMOPEN"@)[13] == 'S');
    assert(("SQLITE_IOERR_SHMOPEN"@)[16] == 'O');
    assert(("SQLITE_IOERR_SHMSIZE"@)[7] == 'I');
    assert(("SQLITE_IOERR_SHMSIZE"@)[13] == 'S');
    assert(("SQLITE_IOERR_SHMSIZE"@)[16] == 'S');
    assert(("SQLITE_IOERR_SHORT_READ"@)[7] == 'I');
    assert(("SQLITE_IOERR_TRUNCATE"@)[7] == 'I');
    assert(("SQLITE_IOERR_TRUNCATE"@)[13] == 'T');
    assert(("SQLITE_IOERR_UNLOCK"@)[7] == 'I');
    assert(("SQLITE_IOERR_UNLOCK"@)[13] == 'U');
    assert(("SQLITE_IOERR_VNODE"@)[7] == 'I');
    assert(("SQLITE_IOERR_VNODE"@)[13] == 'V');
    assert(("SQLITE_IOERR_WRITE"@)[7] == 'I');
    assert(("SQLITE_IOERR_WRITE"@)[13] == 'W');
    assert(("SQLITE_LOCKED"@)[7] == 'L');
    assert(("SQLITE_LOCKED_SHAREDCACHE"@)[7] == 'L');
    assert(("SQLITE_LOCKED_VTAB"@)[7] == 'L');
    assert(("SQLITE_MISMATCH"@)[7] == 'M');
    assert(("SQLITE_MISUSE"@)[7] == 'M');
    assert(("SQLITE_NOLFS"@)[7] == 'N');
    assert(("SQLITE_NOLFS"@)[9] == 'L');
    assert(("SQLITE_NOMEM"@)[7] == 'N');
    assert(("SQLITE_NOMEM"@)[9] == 'M');
    assert(("SQLITE_NOTADB"@)[7] == 'N');
    assert(("SQLITE_NOTADB"@)[10] == 'A');
    assert(("SQLITE_NOTFOUND"@)[7] == 'N');
    assert(("SQLITE_NOTICE"@)[7] == 'N');
    assert(("SQLITE_NOTICE"@)[10] == 'I');
    assert(("SQLITE_NOTICE_RBU"@)[7] == 'N');
    assert(("SQLITE_NOTICE_RECOVER_ROLLBACK"@)[7] == 'N');
    assert(("SQLITE_NOTICE_RECOVER_WAL"@)[7] == 'N');
    assert(("SQLITE_OK_LOAD_PERMANENTLY"@)[7] == 'O');
    assert(("SQLITE_OK_SYMLINK"@)[7] == 'O');
    assert(("SQLITE_PERM"@)[7] == 'P');
    assert(("SQLITE_PROTOCOL"@)[7] == 'P');
    assert(("SQLITE_RANGE"@)[7] == 'R');
    assert(("SQLITE_READONLY"@)[7] == 'R');
    assert(("SQLITE_READONLY_CANTINIT"@)[7] == 'R');
    assert(("SQLITE_READONLY_CANTINIT"@)[16] == 'C');
    assert(("SQLITE_READONLY_CANTINIT"@)[20] == 'I');
    assert(("SQLITE_READONLY_CANTLOCK"@)[7] == 'R');
    assert(("SQLITE_READONLY_CANTLOCK"@)[16] == 'C');
    assert(("SQLITE_READONLY_CANTLOCK"@)[20] == 'L');
    assert(("SQLITE_READONLY_DBMOVED"@)[7] == 'R');
    assert(("SQLITE_READONLY_DIRECTORY"@)[7] == 'R');
    assert(("SQLITE_READONLY_RECOVERY"@)[7] == 'R');
    assert(("SQLITE_READONLY_RECOVERY"@)[16] == 'R');
    assert(("SQLITE_READONLY_RECOVERY"@)[17] == 'E');
    assert(("SQLITE_READONLY_ROLLBACK"@)[7] == 'R');
    assert(("SQLITE_READONLY_ROLLBACK"@)[16] == 'R');
    assert(("SQLITE_READONLY_ROLLBACK"@)[17] == 'O');
    assert(("SQLITE_SCHEMA"@)[7] == 'S');
    assert(("SQLITE_TOOBIG"@)[7] == 'T');
    assert(("SQLITE_WARNING"@)[7] == 'W');
    assert(("SQLITE_WARNING_AUTOINDEX"@)[7] == 'W');
}


/// The success classification, checked over the whole table of
/// well-known codes: the three plain success codes and the extended
/// codes in the ok category report success, every other well-known code
/// reports failure.
pub proof fn lemma_table_success_classification()
    ensures
        spec_is_success_code(SQLITE_OK),
        !spec_is_success_code(SQLITE_ERROR),
        !spec_is_success_code(SQLITE_INTERNAL),
        !spec_is_success_code(SQLITE_PERM),
        !spec_is_success_code(SQLITE_ABORT),
        !spec_is_success_code(SQLITE_BUSY),
        !spec_is_success_code(SQLITE_LOCKED),
        !spec_is_success_code(SQLITE_NOMEM),
        !spec_is_success_code(SQLITE_READONLY),
        !spec_is_success_code(SQLITE_INTERRUPT),
        !spec_is_success_code(SQLITE_IOERR),
        !spec_is_success_code(SQLITE_CORRUPT),
        !spec_is_success_code(SQLITE_NOTFOUND),
        !spec_is_success_code(SQLITE_FULL),
        !spec_is_success_code(SQLITE_CANTOPEN),
        !spec_is_success_code(SQLITE_PROTOCOL),
        !spec_is_success_code(SQLITE_EMPTY),
        !spec_is_success_code(SQLITE_SCHEMA),
        !spec_is_success_code(SQLITE_TOOBIG),
        !spec_is_success_code(SQLITE_CONSTRAINT),
        !spec_is_success_code(SQLITE_MISMATCH),
        !spec_is_success_code(SQLITE_MISUSE),
        !spec_is_success_code(SQLITE_NOLFS),
        !spec_is_success_code(SQLITE_AUTH),
        !spec_is_success_code(SQLITE_FORMAT),
        !spec_is_success_code(SQLITE_RANGE),
        !spec_is_success_code(SQLITE_NOTADB),
        !spec_is_success_code(SQLITE_NOTICE),
        !spec_is_success_code(SQLITE_WARNING),
        spec_is_success_code(SQLITE_ROW),
        spec_is_success_code(SQLITE_DONE),
        !spec_is_success_code(SQLITE_IOERR_READ),
        !spec_is_success_code(SQLITE_IOERR_SHORT_READ),
        !spec_is_success_code(SQLITE_IOERR_WRITE),
        !spec_is_success_code(SQLITE_IOERR_FSYNC),
        !spec_is_success_code(SQLITE_IOERR_DIR_FSYNC),
        !spec_is_success_code(SQLITE_IOERR_TRUNCATE),
        !spec_is_success_code(SQLITE_IOERR_FSTAT),
        !spec_is_success_code(SQLITE_IOERR_UNLOCK),
        !spec_is_success_code(SQLITE_IOERR_RDLOCK),
        !spec_is_success_code(SQLITE_IOERR_DELETE),
        !spec_is_success_code(SQLITE_IOERR_BLOCKED),
        !spec_is_success_code(SQLITE_IOERR_NOMEM),
        !spec_is_success_code(SQLITE_IOERR_ACCESS),
        !spec_is_success_code(SQLITE_IOERR_CHECKRESERVEDLOCK),
        !spec_is_success_code(SQLITE_IOERR_LOCK),
        !spec_is_success_code(SQLITE_IOERR_CLOSE),
        !spec_is_success_code(SQLITE_IOERR_DIR_CLOSE),
        !spec_is_success_code(SQLITE_IOERR_SHMOPEN),
        !spec_is_success_code(SQLITE_IOERR_SHMSIZE),
        !spec_is_success_code(SQLITE_IOERR_SHMLOCK),
        !spec_is_success_code(SQLITE_IOERR_SHMMAP),
        !spec_is_success_code(SQLITE_IOERR_SEEK),
        !spec_is_success_code(SQLITE_IOERR_DELETE_NOENT),
        !spec_is_success_code(SQLITE_IOERR_MMAP),
        !spec_is_success_code(SQLITE_IOERR_GETTEMPPATH),
        !spec_is_success_code(SQLITE_IOERR_CONVPATH),
        !spec_is_success_code(SQLITE_IOERR_VNODE),
        !spec_is_success_code(SQLITE_IOERR_AUTH),
        !spec_is_success_code(SQLITE_LOCKED_SHAREDCACHE),
        !spec_is_success_code(SQLITE_BUSY_RECOVERY),
        !spec_is_success_code(SQLITE_BUSY_SNAPSHOT),
        !spec_is_success_code(SQLITE_CANTOPEN_NOTEMPDIR),
        !spec_is_success_code(SQLITE_CANTOPEN_ISDIR),
        !spec_is_success_code(SQLITE_CANTOPEN_FULLPATH),
        !spec_is_success_code(SQLITE_CANTOPEN_CONVPATH),
        !spec_is_success_code(SQLITE_CORRUPT_VTAB),
        !spec_is_success_code(SQLITE_READONLY_RECOVERY),
        !spec_is_success_code(SQLITE_READONLY_CANTLOCK),
        !spec_is_success_code(SQLITE_READONLY_ROLLBACK),
        !spec_is_success_code(SQLITE_READONLY_DBMOVED),
        !spec_is_success_code(SQLITE_ABORT_ROLLBACK),
        !spec_is_success_code(SQLITE_CONSTRAINT_CHECK),
        !spec_is_success_code(SQLITE_CONSTRAINT_COMMITHOOK),
        !spec_is_success_code(SQLITE_CONSTRAINT_FOREIGNKEY),
        !spec_is_success_code(SQLITE_CONSTRAINT_FUNCTION),
        !spec_is_success_code(SQLITE_CONSTRAINT_NOTNULL),
        !spec_is_success_code(SQLITE_CONSTRAINT_PRIMARYKEY),
        !spec_is_success_code(SQLITE_CONSTRAINT_TRIGGER),
        !spec_is_success_code(SQLITE_CONSTRAINT_UNIQUE),
        !spec_is_success_code(SQLITE_CONSTRAINT_VTAB),
        !spec_is_success_code(SQLITE_CONSTRAINT_ROWID),
        !spec_is_success_code(SQLITE_NOTICE_RECOVER_WAL),
        !spec_is_success_code(SQLITE_NOTICE_RECOVER_ROLLBACK),
        !spec_is_success_code(SQLITE_WARNING_AUTOINDEX),
        !spec_is_success_code(SQLITE_AUTH_USER),
        spec_is_success_code(SQLITE_OK_LOAD_PERMANENTLY),
        !spec_is_success_code(SQLITE_ERROR_MISSING_COLLSEQ),
        !spec_is_success_code(SQLITE_ERROR_RETRY),
        !spec_is_success_code(SQLITE_ERROR_SNAPSHOT),
        !spec_is_success_code(SQLITE_IOERR_BEGIN_ATOMIC),
        !spec_is_success_code(SQLITE_IOERR_COMMIT_ATOMIC),
        !spec_is_success_code(SQLITE_IOERR_ROLLBACK_ATOMIC),
        !spec_is_success_code(SQLITE_IOERR_DATA),
        !spec_is_success_code(SQLITE_IOERR_CORRUPTFS),
        !spec_is_success_code(SQLITE_LOCKED_VTAB),
        !spec_is_success_code(SQLITE_BUSY_TIMEOUT),
        !spec_is_success_code(SQLITE_CANTOPEN_DIRTYWAL),
        !spec_is_success_code(SQLITE_CANTOPEN_SYMLINK),
        !spec_is_success_code(SQLITE_CORRUPT_SEQUENCE),
        !spec_is_success_code(SQLITE_CORRUPT_INDEX),
        !spec_is_success_code(SQLITE_READONLY_CANTINIT),
        !spec_is_success_code(SQLITE_READONLY_DIRECTORY),
        !spec_is_success_code(SQLITE_CONSTRAINT_PINNED),
        !spec_is_success_code(SQLITE_CONSTRAINT_DATATYPE),
        !spec_is_success_code(SQLITE_NOTICE_RBU),
        spec_is_success_code(SQLITE_OK_SYMLINK),
{
    assert({
        0i32 & 0xff == 0 &&
        1i32 & 0xff == 1 &&
        2i32 & 0xff == 2 &&
        3i32 & 0xff == 3 &&
        4i32 & 0xff == 4 &&
        5i32 & 0xff == 5 &&
        6i32 & 0xff == 6 &&
        7i32 & 0xff == 7 &&
        8i32 & 0xff == 8 &&
        9i32 & 0xff == 9 &&
        10i32 & 0xff == 10 &&
        11i32 & 0xff == 11 &&
        12i32 & 0xff == 12 &&
        13i32 & 0xff == 13 &&
        14i32 & 0xff == 14 &&
        15i32 & 0xff == 15 &&
        16i32 & 0xff == 16 &&
        17i32 & 0xff == 17 &&
        18i32 & 0xff == 18 &&
        19i32 & 0xff == 19 &&
        20i32 & 0xff == 20 &&
        21i32 & 0xff == 21 &&
        22i32 & 0xff == 22 &&
        23i32 & 0xff == 23 &&
        24i32 & 0xff == 24 &&
        25i32 & 0xff == 25 &&
        26i32 & 0xff == 26 &&
        27i32 & 0xff == 27 &&
        28i32 & 0xff == 28 &&
        100i32 & 0xff == 100 &&
        101i32 & 0xff == 101 &&
        266i32 & 0xff == 10 &&
        522i32 & 0xff == 10 &&
        778i32 & 0xff == 10 &&
        1034i32 & 0xff == 10 &&
        1290i32 & 0xff == 10 &&
        1546i32 & 0xff == 10 &&
        1802i32 & 0xff == 10 &&
        2058i32 & 0xff == 10 &&
        2314i32 & 0xff == 10 &&
        2570i32 & 0xff == 10 &&
        2826i32 & 0xff == 10 &&
        3082i32 & 0xff == 10 &&
        3338i32 & 0xff == 10 &&
        3594i32 & 0xff == 10 &&
        3850i32 & 0xff == 10 &&
        4106i32 & 0xff == 10 &&
        4362i32 & 0xff == 10 &&
        4618i32 & 0xff == 10 &&
        4874i32 & 0xff == 10 &&
        5130i32 & 0xff == 10 &&
        5386i32 & 0xff == 10 &&
        5642i32 & 0xff == 10 &&
        5898i32 & 0xff == 10 &&
        6154i32 & 0xff == 10 &&
        6410i32 & 0xff == 10 &&
        6666i32 & 0xff == 10 &&
        6922i32 & 0xff == 10 &&
        7178i32 & 0xff == 10 &&
        262i32 & 0xff == 6 &&
        261i32 & 0xff == 5 &&
        517i32 & 0xff == 5 &&
        270i32 & 0xff == 14 &&
        526i32 & 0xff == 14 &&
        782i32 & 0xff == 14 &&
        1038i32 & 0xff == 14 &&
        267i32 & 0xff == 11 &&
        264i32 & 0xff == 8 &&
        520i32 & 0xff == 8 &&
        776i32 & 0xff == 8 &&
        1032i32 & 0xff == 8 &&
        516i32 & 0xff == 4 &&
        275i32 & 0xff == 19 &&
        531i32 & 0xff == 19 &&
        787i32 & 0xff == 19 &&
        1043i32 & 0xff == 19 &&
        1299i32 & 0xff == 19 &&
        1555i32 & 0xff == 19 &&
        1811i32 & 0xff == 19 &&
        2067i32 & 0xff == 19 &&
        2323i32 & 0xff == 19 &&
        2579i32 & 0xff == 19 &&
        283i32 & 0xff == 27 &&
        539i32 & 0xff == 27 &&
        284i32 & 0xff == 28 &&
        279i32 & 0xff == 23 &&
        256i32 & 0xff == 0 &&
        257i32 & 0xff == 1 &&
        513i32 & 0xff == 1 &&
        769i32 & 0xff == 1 &&
        7434i32 & 0xff == 10 &&
        7690i32 & 0xff == 10 &&
        7946i32 & 0xff == 10 &&
        8202i32 & 0xff == 10 &&
        8458i32 & 0xff == 10 &&
        518i32 & 0xff == 6 &&
        773i32 & 0xff == 5 &&
        1294i32 & 0xff == 14 &&
        1550i32 & 0xff == 14 &&
        523i32 & 0xff == 11 &&
        779i32 & 0xff == 11 &&
        1288i32 & 0xff == 8 &&
        1544i32 & 0xff == 8 &&
        2835i32 & 0xff == 19 &&
        3091i32 & 0xff == 19 &&
        795i32 & 0xff == 27 &&
        512i32 & 0xff == 0
    }) by (bit_vector);
}

} // verus!
