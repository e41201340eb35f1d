//! Structured failures of a disk-space query.
//!
//! Every failure is classified at its point of origin and returned as a
//! value; nothing is retried and nothing is converted to a zeroed result.

use vstd::prelude::*;

verus! {

/// Platform error information attached to some failures: the raw OS error
/// code (an errno on POSIX, a Win32 last-error value on Windows) and a
/// human-readable message resolved for that code.
#[derive(Debug, Clone)]
pub struct ErrorDetail {
    pub code: i64,
    pub message: String,
}

/// A failed disk-space query.
///
/// - `InvalidPath`: the input path was empty. No detail.
/// - `PathConversionFailed`: the path is not representable in the
///   platform-native encoding (Windows UTF-16 transcoding). No detail.
/// - `NotDirectory`: the target is not a directory, or the existence check
///   failed. On POSIX a failed metadata query attaches the errno detail; a
///   target that exists but is not a directory carries no detail.
/// - `PlatformStatFailed`: the POSIX statistics syscall failed; carries the
///   errno detail.
/// - `OsApiFailed`: a Windows API call failed; carries the last-error detail.
#[derive(Debug, Clone)]
pub enum QueryError {
    InvalidPath,
    PathConversionFailed,
    NotDirectory(Option<ErrorDetail>),
    PlatformStatFailed(ErrorDetail),
    OsApiFailed(ErrorDetail),
}

} // verus!
