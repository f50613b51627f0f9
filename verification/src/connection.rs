//! The connection core: open flags, configuration flags, the owned handle
//! and its borrowed view, and the decision logic of the connection
//! lifecycle.
//!
//! The native engine is reached only from an unverified shell. The shell
//! performs each call and hands its raw outcome (a status code, an integer
//! probe result, a handle address) to the functions here, which make every
//! decision: how the flag set is completed, how an open outcome is
//! classified, how a probe result is read, and in what order teardown
//! proceeds.

use vstd::prelude::*;
use crate::codes::{SQLITE_OK, SQLITE_NOMEM};
use crate::error::Error;
use crate::status::ResultCode;

verus! {

// Open flags, combinable by bitwise or.
pub const OPEN_READONLY: i32 = 1;
pub const OPEN_READWRITE: i32 = 2;
pub const OPEN_CREATE: i32 = 4;
pub const OPEN_URI: i32 = 64;
pub const OPEN_MEMORY: i32 = 128;
pub const OPEN_NOMUTEX: i32 = 32768;
pub const OPEN_PRIVATECACHE: i32 = 262144;

// Boolean configuration options, by their numeric identifiers.
pub const DBCONFIG_ENABLE_FKEY: i32 = 1002;
pub const DBCONFIG_ENABLE_TRIGGER: i32 = 1003;
pub const DBCONFIG_ENABLE_FTS3_TOKENIZER: i32 = 1004;
pub const DBCONFIG_ENABLE_LOAD_EXTENSION: i32 = 1005;
pub const DBCONFIG_NO_CKPT_ON_CLOSE: i32 = 1006;
pub const DBCONFIG_ENABLE_QPSG: i32 = 1007;
pub const DBCONFIG_TRIGGER_EQP: i32 = 1008;
pub const DBCONFIG_RESET_DATABASE: i32 = 1009;
pub const DBCONFIG_DEFENSIVE: i32 = 1010;
pub const DBCONFIG_WRITABLE_SCHEMA: i32 = 1011;
pub const DBCONFIG_LEGACY_ALTER_TABLE: i32 = 1012;
pub const DBCONFIG_DQS_DML: i32 = 1013;
pub const DBCONFIG_DQS_DDL: i32 = 1014;
pub const DBCONFIG_ENABLE_VIEW: i32 = 1015;
pub const DBCONFIG_LEGACY_FILE_FORMAT: i32 = 1016;
pub const DBCONFIG_TRUSTED_SCHEMA: i32 = 1017;
pub const DBCONFIG_STMT_SCANSTATUS: i32 = 1018;
pub const DBCONFIG_REVERSE_SCANORDER: i32 = 1019;

/// The sentinel value written to a configuration option to read its current
/// value instead of changing it.
pub const DBCONFIG_QUERY: i32 = -1;

/// Options for opening a database, combinable bit flags.
#[derive(Clone, Copy, Debug, PartialEq, Eq, Hash, Structural)]
pub struct OpenFlags {
    pub bits: i32,
}

impl OpenFlags {
    /// No flags set.
    pub fn empty() -> (r: OpenFlags)
        ensures
            r.bits == 0,
    {
        OpenFlags { bits: 0 }
    }

    /// Open in read-only mode; the database must already exist.
    pub fn readonly() -> (r: OpenFlags)
        ensures
            r.bits == OPEN_READONLY,
    {
        OpenFlags { bits: OPEN_READONLY }
    }

    /// Open for reading and writing if possible; the database must already
    /// exist.
    pub fn readwrite() -> (r: OpenFlags)
        ensures
            r.bits == OPEN_READWRITE,
    {
        OpenFlags { bits: OPEN_READWRITE }
    }

    /// Create the database if it does not exist; must be combined with
    /// [`OpenFlags::readwrite`].
    pub fn create() -> (r: OpenFlags)
        ensures
            r.bits == OPEN_CREATE,
    {
        OpenFlags { bits: OPEN_CREATE }
    }

    /// Interpret the open target as a URI.
    pub fn uri() -> (r: OpenFlags)
        ensures
            r.bits == OPEN_URI,
    {
        OpenFlags { bits: OPEN_URI }
    }

    /// Open an in-memory database; the open target's text is ignored.
    pub fn memory() -> (r: OpenFlags)
        ensures
            r.bits == OPEN_MEMORY,
    {
        OpenFlags { bits: OPEN_MEMORY }
    }

    /// Builds a flag set from raw bits.
    pub fn from_bits(bits: i32) -> (r: OpenFlags)
        ensures
            r.bits == bits,
    {
        OpenFlags { bits }
    }

    /// Returns the raw bits of this flag set.
    pub fn bits(self) -> (r: i32)
        ensures
            r == self.bits,
    {
        self.bits
    }

    /// The combination of this flag set with another.
    pub fn union(self, other: OpenFlags) -> (r: OpenFlags)
        ensures
            r.bits == self.bits | other.bits,
    {
        OpenFlags { bits: self.bits | other.bits }
    }

    /// Reports whether every flag of `other` is set in this flag set.
    pub fn contains(self, other: OpenFlags) -> (r: bool)
        ensures
            r == (self.bits & other.bits == other.bits),
    {
        self.bits & other.bits == other.bits
    }
}

impl Default for OpenFlags {
    /// The default combination: read-write, create-if-missing, and URI
    /// interpretation.
    fn default() -> (r: Self)
        ensures
            r.bits == OPEN_READWRITE | OPEN_CREATE | OPEN_URI,
    {
        OpenFlags { bits: OPEN_READWRITE | OPEN_CREATE | OPEN_URI }
    }
}

/// The flag set actually handed to the engine's open routine: the caller's
/// flags with no-internal-mutex and private-cache semantics forced on, since
/// this core manages its own thread exclusion and wants no shared caching.
pub fn effective_open_flags(flags: OpenFlags) -> (r: i32)
    ensures
        r == flags.bits | OPEN_NOMUTEX | OPEN_PRIVATECACHE,
{
    flags.bits | OPEN_NOMUTEX | OPEN_PRIVATECACHE
}

/// Enumeration of the boolean connection configuration options.
#[derive(Clone, Copy, Debug, PartialEq, Eq, Hash, Structural)]
pub enum ConfigFlag {
    EnableFKey,
    EnableTrigger,
    EnableView,
    FTS3Tokenizer,
    EnableLoadExtension,
    NoCheckpointOnClose,
    EnableQueryPlannerStabilityGuarantee,
    TriggerExplainQueryPlan,
    ResetDatabase,
    Defensive,
    WritableSchema,
    LegacyAlterTable,
    DoubleQuotedStringDDL,
    DoubleQuotedStringDML,
    LegacyFileFormat,
    TrustedSchema,
    StmtScanStatus,
    ReverseScanOrder,
}

impl ConfigFlag {
    /// The numeric identifier of this option in the engine's configuration
    /// interface.
    pub open spec fn spec_raw(self) -> i32 {
        match self {
            ConfigFlag::EnableFKey => DBCONFIG_ENABLE_FKEY,
            ConfigFlag::EnableTrigger => DBCONFIG_ENABLE_TRIGGER,
            ConfigFlag::EnableView => DBCONFIG_ENABLE_VIEW,
            ConfigFlag::FTS3Tokenizer => DBCONFIG_ENABLE_FTS3_TOKENIZER,
            ConfigFlag::EnableLoadExtension => DBCONFIG_ENABLE_LOAD_EXTENSION,
            ConfigFlag::NoCheckpointOnClose => DBCONFIG_NO_CKPT_ON_CLOSE,
            ConfigFlag::EnableQueryPlannerStabilityGuarantee => DBCONFIG_ENABLE_QPSG,
            ConfigFlag::TriggerExplainQueryPlan => DBCONFIG_TRIGGER_EQP,
            ConfigFlag::ResetDatabase => DBCONFIG_RESET_DATABASE,
            ConfigFlag::Defensive => DBCONFIG_DEFENSIVE,
            ConfigFlag::WritableSchema => DBCONFIG_WRITABLE_SCHEMA,
            ConfigFlag::LegacyAlterTable => DBCONFIG_LEGACY_ALTER_TABLE,
            ConfigFlag::DoubleQuotedStringDDL => DBCONFIG_DQS_DDL,
            ConfigFlag::DoubleQuotedStringDML => DBCONFIG_DQS_DML,
            ConfigFlag::LegacyFileFormat => DBCONFIG_LEGACY_FILE_FORMAT,
            ConfigFlag::TrustedSchema => DBCONFIG_TRUSTED_SCHEMA,
            ConfigFlag::StmtScanStatus => DBCONFIG_STMT_SCANSTATUS,
            ConfigFlag::ReverseScanOrder => DBCONFIG_REVERSE_SCANORDER,
        }
    }

    /// Returns the numeric identifier of this option.
    pub fn as_raw(self) -> (r: i32)
        ensures
            r == self.spec_raw(),
    {
        match self {
            ConfigFlag::EnableFKey => DBCONFIG_ENABLE_FKEY,
            ConfigFlag::EnableTrigger => DBCONFIG_ENABLE_TRIGGER,
            ConfigFlag::EnableView => DBCONFIG_ENABLE_VIEW,
            ConfigFlag::FTS3Tokenizer => DBCONFIG_ENABLE_FTS3_TOKENIZER,
            ConfigFlag::EnableLoadExtension => DBCONFIG_ENABLE_LOAD_EXTENSION,
            ConfigFlag::NoCheckpointOnClose => DBCONFIG_NO_CKPT_ON_CLOSE,
            ConfigFlag::EnableQueryPlannerStabilityGuarantee => DBCONFIG_ENABLE_QPSG,
            ConfigFlag::TriggerExplainQueryPlan => DBCONFIG_TRIGGER_EQP,
            ConfigFlag::ResetDatabase => DBCONFIG_RESET_DATABASE,
            ConfigFlag::Defensive => DBCONFIG_DEFENSIVE,
            ConfigFlag::WritableSchema => DBCONFIG_WRITABLE_SCHEMA,
            ConfigFlag::LegacyAlterTable => DBCONFIG_LEGACY_ALTER_TABLE,
            ConfigFlag::DoubleQuotedStringDDL => DBCONFIG_DQS_DDL,
            ConfigFlag::DoubleQuotedStringDML => DBCONFIG_DQS_DML,
            ConfigFlag::LegacyFileFormat => DBCONFIG_LEGACY_FILE_FORMAT,
            ConfigFlag::TrustedSchema => DBCONFIG_TRUSTED_SCHEMA,
            ConfigFlag::StmtScanStatus => DBCONFIG_STMT_SCANSTATUS,
            ConfigFlag::ReverseScanOrder => DBCONFIG_REVERSE_SCANORDER,
        }
    }
}

/// Transaction state of a database file.
#[derive(Clone, Copy, Debug, PartialEq, Eq, Hash, Structural)]
pub enum TransactionState {
    NoTransaction,
    Read,
    Write,
}

/// What follows the engine's open call, decided from its raw outcome.
#[derive(Clone, Copy, Debug, PartialEq, Eq, Structural)]
pub enum OpenStep {
    /// The engine returned no handle at all: an allocation failure with
    /// nothing to diagnose. Fail with the canned out-of-memory error.
    OutOfMemory,
    /// The engine returned a handle together with a failure code: read the
    /// diagnostic from that handle, then release it — an open failure must
    /// not leak the partially opened resource.
    Diagnose,
    /// The open succeeded: run the fixed post-open normalization, then hand
    /// the handle out.
    Normalize,
}

/// Classifies the raw outcome of the engine's open call: the returned status
/// code and the returned handle address, zero when the engine produced no
/// handle.
pub fn open_step(code: ResultCode, handle: usize) -> (r: OpenStep)
    ensures
        handle == 0 ==> r == OpenStep::OutOfMemory,
        handle != 0 && code.code != SQLITE_OK ==> r == OpenStep::Diagnose,
        handle != 0 && code.code == SQLITE_OK ==> r == OpenStep::Normalize,
{
    if handle == 0 {
        OpenStep::OutOfMemory
    } else if code.raw() != SQLITE_OK {
        OpenStep::Diagnose
    } else {
        OpenStep::Normalize
    }
}

/// The canned failure used when the open call returns no handle: there is no
/// handle to ask for a diagnostic, so the error is synthesized from the
/// out-of-memory code alone.
pub fn out_of_memory_error() -> (r: Error)
    ensures
        r.spec_code().code == SQLITE_NOMEM,
        r.spec_msg().len() == 0,
        r.spec_offset() is None,
        r.wf(),
{
    let code = ResultCode::from_raw(SQLITE_NOMEM);
    proof {
        assert(7i32 & 0xff == 7) by (bit_vector);
    }
    Error::new(code, String::new())
}

/// The two legacy double-quoted-string compatibility options forced off as
/// the fixed post-open normalization step, in the order they are written.
pub fn open_normalization_flags() -> (r: (ConfigFlag, ConfigFlag))
    ensures
        r.0 == ConfigFlag::DoubleQuotedStringDML,
        r.1 == ConfigFlag::DoubleQuotedStringDDL,
{
    (ConfigFlag::DoubleQuotedStringDML, ConfigFlag::DoubleQuotedStringDDL)
}

/// Reads the outcome of a configuration write: a success code means the
/// write took effect, any other code becomes an error with the canned text
/// of its status code.
pub fn interpret_config_write(code: ResultCode) -> (r: Result<(), Error>)
    ensures
        code.spec_is_success() ==> r is Ok,
        !code.spec_is_success() ==> (r matches Err(e)
            && e.spec_code() == code
            && e.spec_msg().len() == 0
            && e.spec_offset() is None
            && e.wf()),
{
    match code.to_result() {
        Ok(_) => Ok(()),
        Err(e) => Err(e),
    }
}

/// Reads the outcome of a configuration read (a write of the query
/// sentinel): on success the option's current value is the returned integer
/// read as a boolean, any other code becomes an error with canned text.
pub fn interpret_config_read(code: ResultCode, value: i32) -> (r: Result<bool, Error>)
    ensures
        code.spec_is_success() ==> r == Ok::<bool, Error>(value != 0),
        !code.spec_is_success() ==> (r matches Err(e)
            && e.spec_code() == code
            && e.spec_msg().len() == 0
            && e.spec_offset() is None
            && e.wf()),
{
    match code.to_result() {
        Ok(_) => Ok(value != 0),
        Err(e) => Err(e),
    }
}

/// Reads the result of the read-only probe for an attached schema. The
/// engine's contract admits exactly three outcomes: minus one when the name
/// does not denote an attached schema, zero for writable, one for
/// read-only; anything else is an internal-consistency fault that the
/// precondition rules out.
pub fn interpret_readonly(raw: i32) -> (r: Option<bool>)
    requires
        -1 <= raw && raw <= 1,
    ensures
        (r is None) <==> raw == -1,
        r == Some(true) <==> raw == 1,
        r == Some(false) <==> raw == 0,
{
    if raw == -1 {
        None
    } else if raw == 0 {
        Some(false)
    } else {
        Some(true)
    }
}

/// Reads the result of the transaction-state probe: minus one for an
/// unrecognized schema name, otherwise one of the three documented states;
/// any other value is an internal-consistency fault that the precondition
/// rules out.
pub fn interpret_txn_state(raw: i32) -> (r: Option<TransactionState>)
    requires
        raw == -1 || raw == 0 || raw == 1 || raw == 2,
    ensures
        raw == -1 ==> r is None,
        raw == 0 ==> r == Some(TransactionState::NoTransaction),
        raw == 1 ==> r == Some(TransactionState::Read),
        raw == 2 ==> r == Some(TransactionState::Write),
{
    if raw == -1 {
        None
    } else if raw == 0 {
        Some(TransactionState::NoTransaction)
    } else if raw == 1 {
        Some(TransactionState::Read)
    } else {
        Some(TransactionState::Write)
    }
}

/// Reads the result of the autocommit probe, a plain boolean: nonzero means
/// the connection is in autocommit mode.
pub fn interpret_autocommit(raw: i32) -> (r: bool)
    ensures
        r == (raw != 0),
{
    raw != 0
}

/// Decides whether a release outcome is fatal: any code other than plain ok
/// from the close call means a collaborator leaked a child resource, an
/// unrecoverable internal-consistency fault rather than a reportable error.
pub fn release_must_abort(code: ResultCode) -> (r: bool)
    ensures
        r == (code.code != SQLITE_OK),
{
    code.raw() != SQLITE_OK
}

/// An owned connection handle: exclusive, unique ownership of the native
/// resource, held as its non-zero address, together with the single
/// authorizer-callback slot whose lifetime is bounded by the handle's.
///
/// There is no way to duplicate the ownership: the type is not clonable, and
/// [`Connection::release`] consumes it, so the resource can be released at
/// most once.
#[derive(Debug)]
pub struct Connection {
    handle: usize,
    authorizer: Option<usize>,
}

impl Connection {
    /// The address of the native resource.
    pub closed spec fn spec_handle(self) -> usize {
        self.handle
    }

    /// The address of the installed authorizer callback, if one is
    /// installed.
    pub closed spec fn spec_authorizer(self) -> Option<usize> {
        self.authorizer
    }

    /// A connection is well formed when its resource address is non-zero
    /// and an installed authorizer has a non-zero address. Construction
    /// establishes this and every method preserves it.
    pub open spec fn wf(self) -> bool {
        &&& self.spec_handle() != 0
        &&& (self.spec_authorizer() matches Some(a) ==> a != 0)
    }

    /// Takes ownership of a freshly opened native resource at the given
    /// non-zero address. No authorizer is installed yet.
    pub fn from_raw(handle: usize) -> (r: Connection)
        requires
            handle != 0,
        ensures
            r.spec_handle() == handle,
            r.spec_authorizer() is None,
            r.wf(),
    {
        Connection { handle, authorizer: None }
    }

    /// Returns the address of the native resource, for the shell to place
    /// native calls against.
    pub fn raw_handle(&self) -> (r: usize)
        requires
            self.wf(),
        ensures
            r == self.spec_handle(),
            r != 0,
    {
        self.handle
    }

    /// Returns the non-owning view of this connection: the same resource
    /// address, without the right to release it.
    pub fn as_conn(&self) -> (r: Conn)
        requires
            self.wf(),
        ensures
            r.spec_handle() == self.spec_handle(),
            r.wf(),
    {
        Conn { handle: self.handle }
    }

    /// Records that an authorizer callback at the given address is now
    /// installed, and returns the previously installed one, which must be
    /// retired by the shell.
    pub fn install_authorizer(&mut self, callback: usize) -> (r: Option<usize>)
        requires
            old(self).wf(),
            callback != 0,
        ensures
            r == old(self).spec_authorizer(),
            final(self).spec_authorizer() == Some(callback),
            final(self).spec_handle() == old(self).spec_handle(),
            final(self).wf(),
    {
        let previous = self.authorizer;
        self.authorizer = Some(callback);
        previous
    }

    /// Clears the authorizer slot and returns what was installed, for the
    /// shell to retire. Clearing is idempotent: on an empty slot it does
    /// nothing and returns nothing.
    pub fn clear_authorizer(&mut self) -> (r: Option<usize>)
        requires
            old(self).wf(),
        ensures
            r == old(self).spec_authorizer(),
            final(self).spec_authorizer() is None,
            final(self).spec_handle() == old(self).spec_handle(),
            final(self).wf(),
    {
        let previous = self.authorizer;
        self.authorizer = None;
        previous
    }

    /// Gives the resource up for teardown, consuming the ownership: this can
    /// happen at most once per connection. Returns the resource address and
    /// the still-installed authorizer, if any; the shell must retire the
    /// authorizer first (a failure there is swallowed) and then release the
    /// resource, treating any outcome other than plain ok as fatal — see
    /// [`release_must_abort`].
    pub fn release(self) -> (r: (usize, Option<usize>))
        requires
            self.wf(),
        ensures
            r.0 == self.spec_handle(),
            r.0 != 0,
            r.1 == self.spec_authorizer(),
    {
        (self.handle, self.authorizer)
    }
}

/// A non-owning view of a [`Connection`]: the same resource address, usable
/// for status queries, transaction-state queries and configuration reads,
/// but never for releasing the resource.
#[derive(Clone, Copy, Debug)]
pub struct Conn {
    handle: usize,
}

impl Conn {
    /// The address of the native resource this view refers to.
    pub closed spec fn spec_handle(self) -> usize {
        self.handle
    }

    /// A view is well formed when its resource address is non-zero.
    pub open spec fn wf(self) -> bool {
        self.spec_handle() != 0
    }

    /// Returns the address of the native resource, for the shell to place
    /// read-only native calls against.
    pub fn raw_handle(&self) -> (r: usize)
        requires
            self.wf(),
        ensures
            r == self.spec_handle(),
            r != 0,
    {
        self.handle
    }
}

} // verus!
