//! Structured failures of the reveal operation.
//!
//! Launching the file manager can fail outside this library: the host may
//! be an unknown platform, the path may not be inspectable, or the external
//! program may be missing. The shell around the library reports each of
//! those as a value of [`RevealError`] instead of aborting the process.

use vstd::prelude::*;
use vstd::string::StringExecFns;

verus! {

/// Why a reveal request could not be carried out.
#[derive(Clone, Copy, Debug, PartialEq, Eq, Structural)]
pub enum RevealError {
    /// The host operating system is none of the supported families.
    UnsupportedPlatform,
    /// The path could not be inspected to decide whether it is a directory.
    PathInspectionFailed,
    /// The external file-manager command could not be started.
    SpawnFailed,
}

impl RevealError {
    /// The text shown to the UI layer for this failure.
    pub fn message(&self) -> (text: String)
        ensures
            *self == RevealError::UnsupportedPlatform ==> text@ == "unsupported platform"@,
            *self == RevealError::PathInspectionFailed ==> text@ == "path not found"@,
            *self == RevealError::SpawnFailed ==> text@ == "file manager unavailable"@,
    {
        match self {
            RevealError::UnsupportedPlatform => String::from_str("unsupported platform"),
            RevealError::PathInspectionFailed => String::from_str("path not found"),
            RevealError::SpawnFailed => String::from_str("file manager unavailable"),
        }
    }
}

} // verus!
