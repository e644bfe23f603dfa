//! The outward status vocabulary and the mapping from the repository
//! error taxonomy into it.
//!
//! The facade never hands a backend fault outward as it is: every fault
//! maps to a code of this vocabulary with a human-readable message, and
//! only a storage-level "no such row" narrows to the not-found code.

use vstd::prelude::*;
use crate::error::{Error, SqlFault};

verus! {

/// The outward status codes.
#[derive(Clone, Copy, PartialEq, Eq, Structural, Debug)]
pub enum Code {
    Okay,
    Cancelled,
    Unknown,
    InvalidArgument,
    DeadlineExceeded,
    NotFound,
    AlreadyExists,
    PermissionDenied,
    ResourceExhausted,
    FailedPrecondition,
    Aborted,
    OutOfRange,
    Unimplemented,
    Internal,
    Unavailable,
    DataLoss,
    Unauthenticated,
}

/// An outward status: a code with a human-readable message.
#[derive(Debug)]
pub struct Status {
    pub code: Code,
    pub message: String,
}

/// The mathematical shape of a [`Status`].
pub struct StatusView {
    pub code: Code,
    pub message: Seq<char>,
}

impl View for Status {
    type V = StatusView;

    open spec fn view(&self) -> StatusView {
        StatusView { code: self.code, message: self.message@ }
    }
}

/// The code a storage fault maps to: a "no such row" narrows to
/// not-found, everything else is internal.
pub open spec fn code_of_fault(f: SqlFault) -> Code {
    match f {
        SqlFault::RowNotFound => Code::NotFound,
        _ => Code::Internal,
    }
}

/// The message a storage fault maps to: the storage layer's own message
/// where it carries one, the variant's name otherwise.
pub open spec fn message_of_fault(f: SqlFault) -> Seq<char> {
    match f {
        SqlFault::Configuration(m) => m@,
        SqlFault::Database(m) => m@,
        SqlFault::Io(m) => m@,
        SqlFault::Tls(m) => m@,
        SqlFault::Protocol(m) => m@,
        SqlFault::RowNotFound => "todo not found"@,
        SqlFault::ColumnIndexOutOfBounds => "ColumnIndexOutOfBounds"@,
        SqlFault::ColumnNotFound(m) => m@,
        SqlFault::ColumnDecode => "ColumnDecode"@,
        SqlFault::Decode(m) => m@,
        SqlFault::PoolTimedOut => "PoolTimedOut"@,
        SqlFault::PoolClosed => "PoolClosed"@,
        SqlFault::WorkerCrashed => "WorkerCrashed"@,
        SqlFault::Migrate(m) => m@,
        SqlFault::Other => "unknown storage error"@,
    }
}

/// The status each repository error maps to: not-found for a missing
/// record, internal for a failed identifier allocation, invalid-argument
/// for a repeated completion, and [`code_of_fault`] for a storage fault.
pub open spec fn status_of_error(e: Error) -> StatusView {
    match e {
        Error::NotFound => StatusView { code: Code::NotFound, message: "todo not found"@ },
        Error::IDGenerationError => StatusView {
            code: Code::Internal,
            message: "failed to generate id"@,
        },
        Error::AlreadyCompleted => StatusView {
            code: Code::InvalidArgument,
            message: "todo already completed"@,
        },
        Error::SQLError(f) => StatusView { code: code_of_fault(f), message: message_of_fault(f) },
    }
}

impl Status {
    /// Maps a repository error to its outward status.
    pub fn from_error(e: Error) -> (r: Status)
        ensures
            r@ == status_of_error(e),
    {
        match e {
            Error::NotFound => Status { code: Code::NotFound, message: "todo not found".to_owned() },
            Error::IDGenerationError => Status {
                code: Code::Internal,
                message: "failed to generate id".to_owned(),
            },
            Error::AlreadyCompleted => Status {
                code: Code::InvalidArgument,
                message: "todo already completed".to_owned(),
            },
            Error::SQLError(f) => match f {
                SqlFault::Configuration(m) => Status { code: Code::Internal, message: m },
                SqlFault::Database(m) => Status { code: Code::Internal, message: m },
                SqlFault::Io(m) => Status { code: Code::Internal, message: m },
                SqlFault::Tls(m) => Status { code: Code::Internal, message: m },
                SqlFault::Protocol(m) => Status { code: Code::Internal, message: m },
                SqlFault::RowNotFound => Status {
                    code: Code::NotFound,
                    message: "todo not found".to_owned(),
                },
                SqlFault::ColumnIndexOutOfBounds => Status {
                    code: Code::Internal,
                    message: "ColumnIndexOutOfBounds".to_owned(),
                },
                SqlFault::ColumnNotFound(m) => Status { code: Code::Internal, message: m },
                SqlFault::ColumnDecode => Status {
                    code: Code::Internal,
                    message: "ColumnDecode".to_owned(),
                },
                SqlFault::Decode(m) => Status { code: Code::Internal, message: m },
                SqlFault::PoolTimedOut => Status {
                    code: Code::Internal,
                    message: "PoolTimedOut".to_owned(),
                },
                SqlFault::PoolClosed => Status {
                    code: Code::Internal,
                    message: "PoolClosed".to_owned(),
                },
                SqlFault::WorkerCrashed => Status {
                    code: Code::Internal,
                    message: "WorkerCrashed".to_owned(),
                },
                SqlFault::Migrate(m) => Status { code: Code::Internal, message: m },
                SqlFault::Other => Status {
                    code: Code::Internal,
                    message: "unknown storage error".to_owned(),
                },
            },
        }
    }
}

} // verus!
