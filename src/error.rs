//! Typed errors, and their translation to and from the native error record.

use vstd::prelude::*;
use crate::c_api::{
    CBLError, CBL_DOMAIN, CBL_FLEECE_DOMAIN, CBL_NETWORK_DOMAIN, CBL_POSIX_DOMAIN,
    CBL_SQLITE_DOMAIN, CBL_WEBSOCKET_DOMAIN,
};

verus! {

/// Error codes of the native library's own domain.
#[derive(Clone, Copy, Debug, PartialEq, Eq, Structural)]
pub enum CouchbaseLiteError {
    AssertionFailed,
    Unimplemented,
    UnsupportedEncryption,
    BadRevisionID,
    CorruptRevisionData,
    NotOpen,
    NotFound,
    Conflict,
    InvalidParameter,
    UnexpectedError,
    CantOpenFile,
    IOError,
    MemoryError,
    NotWriteable,
    CorruptData,
    Busy,
    NotInTransaction,
    TransactionNotClosed,
    Unsupported,
    NotADatabaseFile,
    WrongFormat,
    Crypto,
    InvalidQuery,
    MissingIndex,
    InvalidQueryParam,
    RemoteError,
    DatabaseTooOld,
    DatabaseTooNew,
    BadDocID,
    CantUpgradeDatabase,
}

impl CouchbaseLiteError {
    /// The native code of each error (`kCBLError...`).
    pub open spec fn spec_code(self) -> i32 {
        match self {
            CouchbaseLiteError::AssertionFailed => 1,
            CouchbaseLiteError::Unimplemented => 2,
            CouchbaseLiteError::UnsupportedEncryption => 3,
            CouchbaseLiteError::BadRevisionID => 4,
            CouchbaseLiteError::CorruptRevisionData => 5,
            CouchbaseLiteError::NotOpen => 6,
            CouchbaseLiteError::NotFound => 7,
            CouchbaseLiteError::Conflict => 8,
            CouchbaseLiteError::InvalidParameter => 9,
            CouchbaseLiteError::UnexpectedError => 10,
            CouchbaseLiteError::CantOpenFile => 11,
            CouchbaseLiteError::IOError => 12,
            CouchbaseLiteError::MemoryError => 13,
            CouchbaseLiteError::NotWriteable => 14,
            CouchbaseLiteError::CorruptData => 15,
            CouchbaseLiteError::Busy => 16,
            CouchbaseLiteError::NotInTransaction => 17,
            CouchbaseLiteError::TransactionNotClosed => 18,
            CouchbaseLiteError::Unsupported => 19,
            CouchbaseLiteError::NotADatabaseFile => 20,
            CouchbaseLiteError::WrongFormat => 21,
            CouchbaseLiteError::Crypto => 22,
            CouchbaseLiteError::InvalidQuery => 23,
            CouchbaseLiteError::MissingIndex => 24,
            CouchbaseLiteError::InvalidQueryParam => 25,
            CouchbaseLiteError::RemoteError => 26,
            CouchbaseLiteError::DatabaseTooOld => 27,
            CouchbaseLiteError::DatabaseTooNew => 28,
            CouchbaseLiteError::BadDocID => 29,
            CouchbaseLiteError::CantUpgradeDatabase => 30,
        }
    }

    /// The error that a native code of this domain stands for, if any.
    pub open spec fn spec_from_code(code: i32) -> Option<CouchbaseLiteError> {
        match code {
            1 => Some(CouchbaseLiteError::AssertionFailed),
            2 => Some(CouchbaseLiteError::Unimplemented),
            3 => Some(CouchbaseLiteError::UnsupportedEncryption),
            4 => Some(CouchbaseLiteError::BadRevisionID),
            5 => Some(CouchbaseLiteError::CorruptRevisionData),
            6 => Some(CouchbaseLiteError::NotOpen),
            7 => Some(CouchbaseLiteError::NotFound),
            8 => Some(CouchbaseLiteError::Conflict),
            9 => Some(CouchbaseLiteError::InvalidParameter),
            10 => Some(CouchbaseLiteError::UnexpectedError),
            11 => Some(CouchbaseLiteError::CantOpenFile),
            12 => Some(CouchbaseLiteError::IOError),
            13 => Some(CouchbaseLiteError::MemoryError),
            14 => Some(CouchbaseLiteError::NotWriteable),
            15 => Some(CouchbaseLiteError::CorruptData),
            16 => Some(CouchbaseLiteError::Busy),
            17 => Some(CouchbaseLiteError::NotInTransaction),
            18 => Some(CouchbaseLiteError::TransactionNotClosed),
            19 => Some(CouchbaseLiteError::Unsupported),
            20 => Some(CouchbaseLiteError::NotADatabaseFile),
            21 => Some(CouchbaseLiteError::WrongFormat),
            22 => Some(CouchbaseLiteError::Crypto),
            23 => Some(CouchbaseLiteError::InvalidQuery),
            24 => Some(CouchbaseLiteError::MissingIndex),
            25 => Some(CouchbaseLiteError::InvalidQueryParam),
            26 => Some(CouchbaseLiteError::RemoteError),
            27 => Some(CouchbaseLiteError::DatabaseTooOld),
            28 => Some(CouchbaseLiteError::DatabaseTooNew),
            29 => Some(CouchbaseLiteError::BadDocID),
            30 => Some(CouchbaseLiteError::CantUpgradeDatabase),
            _ => None,
        }
    }

    /// The native code of this error.
    pub fn code(&self) -> (r: i32)
        ensures
            r == self.spec_code(),
    {
        match self {
            CouchbaseLiteError::AssertionFailed => 1,
            CouchbaseLiteError::Unimplemented => 2,
            CouchbaseLiteError::UnsupportedEncryption => 3,
            CouchbaseLiteError::BadRevisionID => 4,
            CouchbaseLiteError::CorruptRevisionData => 5,
            CouchbaseLiteError::NotOpen => 6,
            CouchbaseLiteError::NotFound => 7,
            CouchbaseLiteError::Conflict => 8,
            CouchbaseLiteError::InvalidParameter => 9,
            CouchbaseLiteError::UnexpectedError => 10,
            CouchbaseLiteError::CantOpenFile => 11,
            CouchbaseLiteError::IOError => 12,
            CouchbaseLiteError::MemoryError => 13,
            CouchbaseLiteError::NotWriteable => 14,
            CouchbaseLiteError::CorruptData => 15,
            CouchbaseLiteError::Busy => 16,
            CouchbaseLiteError::NotInTransaction => 17,
            CouchbaseLiteError::TransactionNotClosed => 18,
            CouchbaseLiteError::Unsupported => 19,
            CouchbaseLiteError::NotADatabaseFile => 20,
            CouchbaseLiteError::WrongFormat => 21,
            CouchbaseLiteError::Crypto => 22,
            CouchbaseLiteError::InvalidQuery => 23,
            CouchbaseLiteError::MissingIndex => 24,
            CouchbaseLiteError::InvalidQueryParam => 25,
            CouchbaseLiteError::RemoteError => 26,
            CouchbaseLiteError::DatabaseTooOld => 27,
            CouchbaseLiteError::DatabaseTooNew => 28,
            CouchbaseLiteError::BadDocID => 29,
            CouchbaseLiteError::CantUpgradeDatabase => 30,
        }
    }

    /// The error that a native code of this domain stands for, if any.
    pub fn from_code(code: i32) -> (r: Option<CouchbaseLiteError>)
        ensures
            r == Self::spec_from_code(code),
    {
        match code {
            1 => Some(CouchbaseLiteError::AssertionFailed),
            2 => Some(CouchbaseLiteError::Unimplemented),
            3 => Some(CouchbaseLiteError::UnsupportedEncryption),
            4 => Some(CouchbaseLiteError::BadRevisionID),
            5 => Some(CouchbaseLiteError::CorruptRevisionData),
            6 => Some(CouchbaseLiteError::NotOpen),
            7 => Some(CouchbaseLiteError::NotFound),
            8 => Some(CouchbaseLiteError::Conflict),
            9 => Some(CouchbaseLiteError::InvalidParameter),
            10 => Some(CouchbaseLiteError::UnexpectedError),
            11 => Some(CouchbaseLiteError::CantOpenFile),
            12 => Some(CouchbaseLiteError::IOError),
            13 => Some(CouchbaseLiteError::MemoryError),
            14 => Some(CouchbaseLiteError::NotWriteable),
            15 => Some(CouchbaseLiteError::CorruptData),
            16 => Some(CouchbaseLiteError::Busy),
            17 => Some(CouchbaseLiteError::NotInTransaction),
            18 => Some(CouchbaseLiteError::TransactionNotClosed),
            19 => Some(CouchbaseLiteError::Unsupported),
            20 => Some(CouchbaseLiteError::NotADatabaseFile),
            21 => Some(CouchbaseLiteError::WrongFormat),
            22 => Some(CouchbaseLiteError::Crypto),
            23 => Some(CouchbaseLiteError::InvalidQuery),
            24 => Some(CouchbaseLiteError::MissingIndex),
            25 => Some(CouchbaseLiteError::InvalidQueryParam),
            26 => Some(CouchbaseLiteError::RemoteError),
            27 => Some(CouchbaseLiteError::DatabaseTooOld),
            28 => Some(CouchbaseLiteError::DatabaseTooNew),
            29 => Some(CouchbaseLiteError::BadDocID),
            30 => Some(CouchbaseLiteError::CantUpgradeDatabase),
            _ => None,
        }
    }
}

/// Every error of the native domain is recovered from its code, and a code
/// that names an error is that error's code.
pub proof fn lemma_cbl_code_round_trip(e: CouchbaseLiteError, code: i32)
    ensures
        CouchbaseLiteError::spec_from_code(e.spec_code()) == Some(e),
        CouchbaseLiteError::spec_from_code(code) == Some(e) ==> e.spec_code() == code,
        CouchbaseLiteError::spec_from_code(code).is_some() <==> 1 <= code <= 30,
{
}

/// An error code, by native domain. Codes that no variant names keep their
/// domain and code as they came.
#[derive(Clone, Copy, Debug, PartialEq, Eq, Structural)]
pub enum ErrorCode {
    CouchbaseLite(CouchbaseLiteError),
    Posix(i32),
    SQLite(i32),
    Fleece(i32),
    Network(i32),
    WebSocket(i32),
    Untranslatable { domain: u8, code: i32 },
}

impl ErrorCode {
    /// The error code that a native (domain, code) pair stands for.
    pub open spec fn spec_new(domain: u8, code: i32) -> ErrorCode {
        if domain == CBL_DOMAIN && CouchbaseLiteError::spec_from_code(code).is_some() {
            ErrorCode::CouchbaseLite(CouchbaseLiteError::spec_from_code(code).unwrap())
        } else if domain == CBL_POSIX_DOMAIN {
            ErrorCode::Posix(code)
        } else if domain == CBL_SQLITE_DOMAIN {
            ErrorCode::SQLite(code)
        } else if domain == CBL_FLEECE_DOMAIN {
            ErrorCode::Fleece(code)
        } else if domain == CBL_NETWORK_DOMAIN {
            ErrorCode::Network(code)
        } else if domain == CBL_WEBSOCKET_DOMAIN {
            ErrorCode::WebSocket(code)
        } else {
            ErrorCode::Untranslatable { domain, code }
        }
    }

    /// The native domain of an error code.
    pub open spec fn spec_domain(self) -> u8 {
        match self {
            ErrorCode::CouchbaseLite(_) => CBL_DOMAIN,
            ErrorCode::Posix(_) => CBL_POSIX_DOMAIN,
            ErrorCode::SQLite(_) => CBL_SQLITE_DOMAIN,
            ErrorCode::Fleece(_) => CBL_FLEECE_DOMAIN,
            ErrorCode::Network(_) => CBL_NETWORK_DOMAIN,
            ErrorCode::WebSocket(_) => CBL_WEBSOCKET_DOMAIN,
            ErrorCode::Untranslatable { domain, .. } => domain,
        }
    }

    /// The native code of an error code.
    pub open spec fn spec_code(self) -> i32 {
        match self {
            ErrorCode::CouchbaseLite(e) => e.spec_code(),
            ErrorCode::Posix(c) => c,
            ErrorCode::SQLite(c) => c,
            ErrorCode::Fleece(c) => c,
            ErrorCode::Network(c) => c,
            ErrorCode::WebSocket(c) => c,
            ErrorCode::Untranslatable { code, .. } => code,
        }
    }

    /// An error code as `new` builds it: an untranslatable pair is one that no
    /// other variant covers.
    pub open spec fn wf(self) -> bool {
        match self {
            ErrorCode::Untranslatable { domain, code } => !(domain == CBL_DOMAIN
                && CouchbaseLiteError::spec_from_code(code).is_some()) && !(CBL_POSIX_DOMAIN
                <= domain <= CBL_WEBSOCKET_DOMAIN),
            _ => true,
        }
    }

    /// Translates a native (domain, code) pair.
    pub fn new(domain: u8, code: i32) -> (r: ErrorCode)
        ensures
            r == Self::spec_new(domain, code),
            r.wf(),
    {
        if domain == CBL_DOMAIN {
            if let Some(e) = CouchbaseLiteError::from_code(code) {
                return ErrorCode::CouchbaseLite(e);
            }
        }
        if domain == CBL_POSIX_DOMAIN {
            ErrorCode::Posix(code)
        } else if domain == CBL_SQLITE_DOMAIN {
            ErrorCode::SQLite(code)
        } else if domain == CBL_FLEECE_DOMAIN {
            ErrorCode::Fleece(code)
        } else if domain == CBL_NETWORK_DOMAIN {
            ErrorCode::Network(code)
        } else if domain == CBL_WEBSOCKET_DOMAIN {
            ErrorCode::WebSocket(code)
        } else {
            ErrorCode::Untranslatable { domain, code }
        }
    }

    /// The native domain of this code.
    pub fn domain(&self) -> (r: u8)
        ensures
            r == self.spec_domain(),
    {
        match self {
            ErrorCode::CouchbaseLite(_) => CBL_DOMAIN,
            ErrorCode::Posix(_) => CBL_POSIX_DOMAIN,
            ErrorCode::SQLite(_) => CBL_SQLITE_DOMAIN,
            ErrorCode::Fleece(_) => CBL_FLEECE_DOMAIN,
            ErrorCode::Network(_) => CBL_NETWORK_DOMAIN,
            ErrorCode::WebSocket(_) => CBL_WEBSOCKET_DOMAIN,
            ErrorCode::Untranslatable { domain, .. } => *domain,
        }
    }

    /// The native code of this code.
    pub fn code(&self) -> (r: i32)
        ensures
            r == self.spec_code(),
    {
        match self {
            ErrorCode::CouchbaseLite(e) => e.code(),
            ErrorCode::Posix(c) => *c,
            ErrorCode::SQLite(c) => *c,
            ErrorCode::Fleece(c) => *c,
            ErrorCode::Network(c) => *c,
            ErrorCode::WebSocket(c) => *c,
            ErrorCode::Untranslatable { code, .. } => *code,
        }
    }
}

/// A typed error: its code, and the native record's internal detail when the
/// error came from the native library.
#[derive(Clone, Copy, Debug, PartialEq, Eq)]
pub struct Error {
    pub code: ErrorCode,
    pub internal_info: Option<u32>,
}

/// The result of an operation of this library.
pub type CblResult<T> = core::result::Result<T, Error>;

/// The typed error that a native error record stands for.
pub open spec fn error_of(err: CBLError) -> Error {
    Error { code: ErrorCode::spec_new(err.domain, err.code), internal_info: Some(err.internal_info) }
}

/// The native record that a typed error is reported as.
pub open spec fn record_of(e: Error) -> CBLError {
    CBLError {
        domain: e.code.spec_domain(),
        code: e.code.spec_code(),
        internal_info: match e.internal_info {
            Some(i) => i,
            None => 0,
        },
    }
}

/// What a native outcome of "true, or false with an error record" means.
pub open spec fn bool_outcome(ok: bool, err: CBLError) -> CblResult<()> {
    if ok {
        Ok(())
    } else {
        Err(error_of(err))
    }
}

impl Error {
    /// Translates a native error record.
    pub fn new(err: &CBLError) -> (r: Error)
        ensures
            r == error_of(*err),
    {
        Error { code: ErrorCode::new(err.domain, err.code), internal_info: Some(err.internal_info) }
    }

    /// An error of the native library's own domain, raised by this library.
    pub fn cbl_error(e: CouchbaseLiteError) -> (r: Error)
        ensures
            r.code == ErrorCode::CouchbaseLite(e),
            r.internal_info.is_none(),
    {
        Error { code: ErrorCode::CouchbaseLite(e), internal_info: None }
    }

    /// The native record that reports this error.
    pub fn as_cbl_error(&self) -> (r: CBLError)
        ensures
            r == record_of(*self),
    {
        let internal_info = match self.internal_info {
            Some(i) => i,
            None => 0,
        };
        CBLError { domain: self.code.domain(), code: self.code.code(), internal_info }
    }
}

/// `Ok` exactly when the native record reports no error.
pub fn check_error(err: &CBLError) -> (r: CblResult<()>)
    ensures
        err.code == 0 ==> r == Ok::<(), Error>(()),
        err.code != 0 ==> r == Err::<(), Error>(error_of(*err)),
{
    if err.code == 0 {
        Ok(())
    } else {
        Err(Error::new(err))
    }
}

/// The failure that a native call reported in `err`.
pub fn failure<T>(err: &CBLError) -> (r: CblResult<T>)
    ensures
        r == Err::<T, Error>(error_of(*err)),
{
    Err(Error::new(err))
}

/// The result of a native call that returns `true` on success and fills
/// `err` otherwise.
pub fn check_bool(ok: bool, err: &CBLError) -> (r: CblResult<()>)
    ensures
        r == bool_outcome(ok, *err),
{
    if ok {
        Ok(())
    } else {
        failure(err)
    }
}

/// A native error record is reported back unchanged after translation.
pub proof fn lemma_record_round_trip(err: CBLError)
    ensures
        record_of(error_of(err)) == err,
{
    if err.domain == CBL_DOMAIN && CouchbaseLiteError::spec_from_code(err.code).is_some() {
        lemma_cbl_code_round_trip(CouchbaseLiteError::spec_from_code(err.code).unwrap(), err.code);
    }
}

/// A well-formed error code is recovered from its (domain, code) pair.
pub proof fn lemma_code_round_trip(c: ErrorCode)
    requires
        c.wf(),
    ensures
        ErrorCode::spec_new(c.spec_domain(), c.spec_code()) == c,
{
    if let ErrorCode::CouchbaseLite(e) = c {
        lemma_cbl_code_round_trip(e, e.spec_code());
    }
}

} // verus!
