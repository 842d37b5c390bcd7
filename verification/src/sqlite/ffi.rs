//! SQLite result codes and the errors built from them.
use vstd::prelude::*;

use crate::text::{append_decimal, append_str};

verus! {

/// Successful result.
pub const SQLITE_OK: i32 = 0;
/// Generic error.
pub const SQLITE_ERROR: i32 = 1;
pub const SQLITE_INTERNAL: i32 = 2;
pub const SQLITE_PERM: i32 = 3;
pub const SQLITE_ABORT: i32 = 4;
pub const SQLITE_BUSY: i32 = 5;
pub const SQLITE_LOCKED: i32 = 6;
pub const SQLITE_NOMEM: i32 = 7;
pub const SQLITE_READONLY: i32 = 8;
pub const SQLITE_INTERRUPT: i32 = 9;
pub const SQLITE_IOERR: i32 = 10;
pub const SQLITE_CORRUPT: i32 = 11;
pub const SQLITE_NOTFOUND: i32 = 12;
pub const SQLITE_FULL: i32 = 13;
pub const SQLITE_CANTOPEN: i32 = 14;
pub const SQLITE_PROTOCOL: i32 = 15;
pub const SQLITE_SCHEMA: i32 = 17;
pub const SQLITE_TOOBIG: i32 = 18;
pub const SQLITE_CONSTRAINT: i32 = 19;
pub const SQLITE_MISMATCH: i32 = 20;
pub const SQLITE_MISUSE: i32 = 21;
pub const SQLITE_NOLFS: i32 = 22;
pub const SQLITE_AUTH: i32 = 23;
pub const SQLITE_RANGE: i32 = 25;
pub const SQLITE_NOTADB: i32 = 26;

/// The SQLite version this library was built against, as a number.
pub const SQLITE_VERSION_NUMBER: i32 = 3034001;

/// The kinds of SQLite error, by primary result code.
#[derive(Clone, Copy, Debug, PartialEq, Eq, Structural)]
pub enum ErrorCode {
    /// Internal logic error in SQLite
    InternalMalfunction,
    /// Access permission denied
    PermissionDenied,
    /// Callback routine requested an abort
    OperationAborted,
    /// The database file is locked
    DatabaseBusy,
    /// A table in the database is locked
    DatabaseLocked,
    /// A `malloc()` failed
    OutOfMemory,
    /// Attempt to write a readonly database
    ReadOnly,
    /// Operation terminated by `sqlite3_interrupt()`
    OperationInterrupted,
    /// Some kind of disk I/O error occurred
    SystemIoFailure,
    /// The database disk image is malformed
    DatabaseCorrupt,
    /// Unknown opcode in `sqlite3_file_control()`
    NotFound,
    /// Insertion failed because database is full
    DiskFull,
    /// Unable to open the database file
    CannotOpen,
    /// Database lock protocol error
    FileLockingProtocolFailed,
    /// The database schema changed
    SchemaChanged,
    /// String or BLOB exceeds size limit
    TooBig,
    /// Abort due to constraint violation
    ConstraintViolation,
    /// Data type mismatch
    TypeMismatch,
    /// Library used incorrectly
    ApiMisuse,
    /// Uses OS features not supported on host
    NoLargeFileSupport,
    /// Authorization denied
    AuthorizationForStatementDenied,
    /// 2nd parameter to `sqlite3_bind` out of range
    ParameterOutOfRange,
    /// File opened that is not a database file
    NotADatabase,
    /// SQL error or missing database
    Unknown,
}

/// The kind of error of a primary result code (the low byte of a result
/// code).
pub open spec fn code_of_primary(p: i32) -> ErrorCode {
    if p == SQLITE_INTERNAL {
        ErrorCode::InternalMalfunction
    } else if p == SQLITE_PERM {
        ErrorCode::PermissionDenied
    } else if p == SQLITE_ABORT {
        ErrorCode::OperationAborted
    } else if p == SQLITE_BUSY {
        ErrorCode::DatabaseBusy
    } else if p == SQLITE_LOCKED {
        ErrorCode::DatabaseLocked
    } else if p == SQLITE_NOMEM {
        ErrorCode::OutOfMemory
    } else if p == SQLITE_READONLY {
        ErrorCode::ReadOnly
    } else if p == SQLITE_INTERRUPT {
        ErrorCode::OperationInterrupted
    } else if p == SQLITE_IOERR {
        ErrorCode::SystemIoFailure
    } else if p == SQLITE_CORRUPT {
        ErrorCode::DatabaseCorrupt
    } else if p == SQLITE_NOTFOUND {
        ErrorCode::NotFound
    } else if p == SQLITE_FULL {
        ErrorCode::DiskFull
    } else if p == SQLITE_CANTOPEN {
        ErrorCode::CannotOpen
    } else if p == SQLITE_PROTOCOL {
        ErrorCode::FileLockingProtocolFailed
    } else if p == SQLITE_SCHEMA {
        ErrorCode::SchemaChanged
    } else if p == SQLITE_TOOBIG {
        ErrorCode::TooBig
    } else if p == SQLITE_CONSTRAINT {
        ErrorCode::ConstraintViolation
    } else if p == SQLITE_MISMATCH {
        ErrorCode::TypeMismatch
    } else if p == SQLITE_MISUSE {
        ErrorCode::ApiMisuse
    } else if p == SQLITE_NOLFS {
        ErrorCode::NoLargeFileSupport
    } else if p == SQLITE_AUTH {
        ErrorCode::AuthorizationForStatementDenied
    } else if p == SQLITE_RANGE {
        ErrorCode::ParameterOutOfRange
    } else if p == SQLITE_NOTADB {
        ErrorCode::NotADatabase
    } else {
        ErrorCode::Unknown
    }
}

/// The primary result code of a kind of error; `Unknown` has none.
pub open spec fn primary_of(code: ErrorCode) -> Option<i32> {
    match code {
        ErrorCode::InternalMalfunction => Some(SQLITE_INTERNAL),
        ErrorCode::PermissionDenied => Some(SQLITE_PERM),
        ErrorCode::OperationAborted => Some(SQLITE_ABORT),
        ErrorCode::DatabaseBusy => Some(SQLITE_BUSY),
        ErrorCode::DatabaseLocked => Some(SQLITE_LOCKED),
        ErrorCode::OutOfMemory => Some(SQLITE_NOMEM),
        ErrorCode::ReadOnly => Some(SQLITE_READONLY),
        ErrorCode::OperationInterrupted => Some(SQLITE_INTERRUPT),
        ErrorCode::SystemIoFailure => Some(SQLITE_IOERR),
        ErrorCode::DatabaseCorrupt => Some(SQLITE_CORRUPT),
        ErrorCode::NotFound => Some(SQLITE_NOTFOUND),
        ErrorCode::DiskFull => Some(SQLITE_FULL),
        ErrorCode::CannotOpen => Some(SQLITE_CANTOPEN),
        ErrorCode::FileLockingProtocolFailed => Some(SQLITE_PROTOCOL),
        ErrorCode::SchemaChanged => Some(SQLITE_SCHEMA),
        ErrorCode::TooBig => Some(SQLITE_TOOBIG),
        ErrorCode::ConstraintViolation => Some(SQLITE_CONSTRAINT),
        ErrorCode::TypeMismatch => Some(SQLITE_MISMATCH),
        ErrorCode::ApiMisuse => Some(SQLITE_MISUSE),
        ErrorCode::NoLargeFileSupport => Some(SQLITE_NOLFS),
        ErrorCode::AuthorizationForStatementDenied => Some(SQLITE_AUTH),
        ErrorCode::ParameterOutOfRange => Some(SQLITE_RANGE),
        ErrorCode::NotADatabase => Some(SQLITE_NOTADB),
        ErrorCode::Unknown => None,
    }
}

/// An SQLite error: its kind and the full (extended) result code.
#[derive(Clone, Copy, Debug, PartialEq, Eq, Structural)]
pub struct Error {
    pub code: ErrorCode,
    pub extended_code: i32,
}

/// The error of a result code.
pub open spec fn error_of(result_code: i32) -> Error {
    Error { code: code_of_primary(result_code & 0xff), extended_code: result_code }
}

impl Error {
    /// The error of a result code: its kind comes from the code's low byte,
    /// and the code is kept whole.
    pub fn new(result_code: i32) -> (r: Self)
        ensures
            r.code == code_of_primary(result_code & 0xff),
            r.extended_code == result_code,
            r == error_of(result_code),
    {
        let code = match result_code & 0xff {
            SQLITE_INTERNAL => ErrorCode::InternalMalfunction,
            SQLITE_PERM => ErrorCode::PermissionDenied,
            SQLITE_ABORT => ErrorCode::OperationAborted,
            SQLITE_BUSY => ErrorCode::DatabaseBusy,
            SQLITE_LOCKED => ErrorCode::DatabaseLocked,
            SQLITE_NOMEM => ErrorCode::OutOfMemory,
            SQLITE_READONLY => ErrorCode::ReadOnly,
            SQLITE_INTERRUPT => ErrorCode::OperationInterrupted,
            SQLITE_IOERR => ErrorCode::SystemIoFailure,
            SQLITE_CORRUPT => ErrorCode::DatabaseCorrupt,
            SQLITE_NOTFOUND => ErrorCode::NotFound,
            SQLITE_FULL => ErrorCode::DiskFull,
            SQLITE_CANTOPEN => ErrorCode::CannotOpen,
            SQLITE_PROTOCOL => ErrorCode::FileLockingProtocolFailed,
            SQLITE_SCHEMA => ErrorCode::SchemaChanged,
            SQLITE_TOOBIG => ErrorCode::TooBig,
            SQLITE_CONSTRAINT => ErrorCode::ConstraintViolation,
            SQLITE_MISMATCH => ErrorCode::TypeMismatch,
            SQLITE_MISUSE => ErrorCode::ApiMisuse,
            SQLITE_NOLFS => ErrorCode::NoLargeFileSupport,
            SQLITE_AUTH => ErrorCode::AuthorizationForStatementDenied,
            SQLITE_RANGE => ErrorCode::ParameterOutOfRange,
            SQLITE_NOTADB => ErrorCode::NotADatabase,
            _ => ErrorCode::Unknown,
        };
        Self { code, extended_code: result_code }
    }

    /// The error's text, given SQLite's text for its code:
    /// `Error code {extended_code}: {code_text}`.
    pub fn display_with(&self, code_text: &str) -> (r: String)
        ensures
            r@ == "Error code "@ + crate::text::decimal(self.extended_code as int) + ": "@
                + code_text@,
    {
        let mut s = String::new();
        append_str(&mut s, "Error code ");
        append_decimal(&mut s, self.extended_code as i64);
        append_str(&mut s, ": ");
        append_str(&mut s, code_text);
        s
    }
}

/// Every kind of error but `Unknown` is the kind of exactly one primary
/// result code, and that code gives the kind back; a result code and its low
/// byte give errors of the same kind.
pub proof fn lemma_error_code_roundtrip(code: ErrorCode, result_code: i32)
    ensures
        primary_of(code) matches Some(p) ==> code_of_primary(p) == code && 0 <= p < 256,
        code != ErrorCode::Unknown ==> primary_of(code) is Some,
        code_of_primary(result_code & 0xff) == code_of_primary((result_code & 0xff) & 0xff),
        code_of_primary(result_code & 0xff) != ErrorCode::Unknown ==> primary_of(
            code_of_primary(result_code & 0xff),
        ) == Some(result_code & 0xff),
{
    assert((result_code & 0xff) & 0xff == result_code & 0xff) by (bit_vector);
}

/// Why a loadable extension could not be initialized.
#[derive(Clone, Copy, Debug, PartialEq, Eq, Structural)]
pub enum InitError {
    /// The SQLite library is older than the one the extension was built for.
    VersionMismatch { compile_time: i32, runtime: i32 },
    /// A required entry of the SQLite API table is missing.
    NullFunctionPointer,
}

impl InitError {
    /// The error's text.
    pub fn display(&self) -> (r: String)
        ensures
            self matches InitError::VersionMismatch { compile_time, runtime } ==> r@
                == "SQLite version mismatch: "@ + crate::text::decimal(runtime as int) + " < "@
                + crate::text::decimal(compile_time as int),
            self is NullFunctionPointer ==> r@ == "Some sqlite3_api_routines fields are null"@,
    {
        let mut s = String::new();
        match self {
            InitError::VersionMismatch { compile_time, runtime } => {
                append_str(&mut s, "SQLite version mismatch: ");
                append_decimal(&mut s, *runtime as i64);
                append_str(&mut s, " < ");
                append_decimal(&mut s, *compile_time as i64);
            },
            InitError::NullFunctionPointer => {
                append_str(&mut s, "Some sqlite3_api_routines fields are null");
            },
        }
        s
    }
}

/// Checks the SQLite library an extension is loaded into, given the library
/// version number its API table reports (`None` when the table has no
/// version entry): the library must be at least as new as the one this
/// library was built against.
pub fn check_library_version(libversion_number: Option<i32>) -> (r: Result<(), InitError>)
    ensures
        libversion_number is None ==> r == Err::<(), InitError>(InitError::NullFunctionPointer),
        libversion_number matches Some(v) ==> (v < SQLITE_VERSION_NUMBER ==> r == Err::<
            (),
            InitError,
        >(InitError::VersionMismatch { compile_time: SQLITE_VERSION_NUMBER, runtime: v })),
        libversion_number matches Some(v) ==> (v >= SQLITE_VERSION_NUMBER ==> r is Ok),
{
    match libversion_number {
        Some(version) => {
            if SQLITE_VERSION_NUMBER > version {
                return Err(
                    InitError::VersionMismatch {
                        compile_time: SQLITE_VERSION_NUMBER,
                        runtime: version,
                    },
                );
            }
            Ok(())
        },
        None => Err(InitError::NullFunctionPointer),
    }
}

} // verus!
