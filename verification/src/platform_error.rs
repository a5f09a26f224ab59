use vstd::prelude::*;

verus! {

/// The kind of an I/O failure, as far as the error mappings look at it.
#[derive(Clone, Copy, Debug, PartialEq, Eq, Structural)]
pub enum IoFailureKind {
    PermissionDenied,
    NotFound,
    Other,
}

/// Why a platform operation failed. The text names the check or the field
/// concerned.
#[derive(Clone, Copy, Debug, PartialEq, Eq)]
pub enum PlatformError {
    InvalidInput(&'static str),
    Conflict(&'static str),
    Corrupt(&'static str),
    Keychain(&'static str),
    Unsupported(&'static str),
    Io(IoFailureKind),
    Json,
    LeaseLost,
    Sqlite,
}

pub type PlatformResult<T> = Result<T, PlatformError>;

} // verus!
