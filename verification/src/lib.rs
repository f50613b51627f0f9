//! A safety layer over a native SQLite database handle.
//!
//! The library holds the verified logic of a small connection core: the
//! status-code taxonomy with its success predicate and rendering tables, the
//! structured error value, open-flag handling, and the decision logic of the
//! connection lifecycle (acquisition, configuration, one-time release). The
//! native engine calls themselves are made by an unverified shell, which
//! feeds their raw outcomes to the verified decision functions here.

pub mod codes;
pub mod connection;
pub mod error;
pub mod status;

pub use connection::{Conn, Connection, ConfigFlag, OpenFlags, TransactionState};
pub use error::Error;
pub use status::ResultCode;
