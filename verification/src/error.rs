//! The backend-agnostic error taxonomy of the repository contract.

use vstd::prelude::*;

verus! {

/// A fault reported by the durable storage layer, reduced to the variant
/// the service distinguishes plus a human-readable message where the
/// storage layer supplies one. The process boundary to the store is
/// unverified, so the fault arrives here as plain data.
#[derive(Debug, PartialEq)]
pub enum SqlFault {
    Configuration(String),
    Database(String),
    Io(String),
    Tls(String),
    Protocol(String),
    /// The statement matched no row.
    RowNotFound,
    ColumnIndexOutOfBounds,
    ColumnNotFound(String),
    ColumnDecode,
    Decode(String),
    PoolTimedOut,
    PoolClosed,
    WorkerCrashed,
    Migrate(String),
    /// Any fault the service does not distinguish further.
    Other,
}

/// What a repository operation can fail with, independent of the backend.
#[derive(Debug, PartialEq)]
pub enum Error {
    /// No record carries the requested id.
    NotFound,
    /// Identifier allocation failed.
    IDGenerationError,
    /// A completion request hit a record whose flag is already set.
    AlreadyCompleted,
    /// The durable storage layer reported a fault.
    SQLError(SqlFault),
}

impl Error {
    /// Wraps a storage fault, as the durable backend does with every fault
    /// its store reports.
    pub fn from_fault(fault: SqlFault) -> (r: Error)
        ensures
            r == Error::SQLError(fault),
    {
        Error::SQLError(fault)
    }
}

} // verus!
