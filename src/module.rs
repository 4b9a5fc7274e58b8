//! Everything that decides around a loaded module: load options, the
//! meaning of native status codes, and the submodules for each group of
//! module queries.

use vstd::prelude::*;

pub mod ctls;
pub mod iteration;
pub mod metadata;
pub mod render;
pub mod stream;

verus! {

/// The effort levels for probing whether a stream might be openable.
#[derive(Debug, Clone, Copy, PartialEq, Eq, Structural)]
pub enum CouldOpenEffort {
    /// Does not even look at stream at all
    NoEffort,
    /// Only probe the header data of the module file
    ProbeFileHeader,
    /// Only verify the header data of the module file
    VerifyHeader,
    /// Loads the file from stream, but skips pattern and plugin data
    LoadWithoutPatternOrPluginData,
    /// Completely loads the file from stream
    LoadCompleteModule,
}

/// The native effort value of each level, in tenths.
pub open spec fn effort_tenths(e: CouldOpenEffort) -> u8 {
    match e {
        CouldOpenEffort::NoEffort => 0,
        CouldOpenEffort::ProbeFileHeader => 1,
        CouldOpenEffort::VerifyHeader => 2,
        CouldOpenEffort::LoadWithoutPatternOrPluginData => 6,
        CouldOpenEffort::LoadCompleteModule => 10,
    }
}

impl CouldOpenEffort {
    /// The native effort value, a fraction between 0 and 1, as a count of
    /// tenths.
    pub fn value_tenths(&self) -> (r: u8)
        ensures
            r == effort_tenths(*self),
            r <= 10,
    {
        match *self {
            CouldOpenEffort::NoEffort => 0,
            CouldOpenEffort::ProbeFileHeader => 1,
            CouldOpenEffort::VerifyHeader => 2,
            CouldOpenEffort::LoadWithoutPatternOrPluginData => 6,
            CouldOpenEffort::LoadCompleteModule => 10,
        }
    }
}

/// Where the native library sends its log messages.
#[derive(Debug, Clone, Copy, PartialEq, Eq, Structural)]
pub enum Logger {
    /// Log to the standard error stream.
    StdErr,
    /// Drop all log messages.
    Silent,
}

/// Reads a native status code that is 1 on success.
pub fn is_success(code: i32) -> (r: bool)
    ensures
        r == (code == 1),
{
    code == 1
}

/// Reads a native status code that is non-zero on success.
pub fn is_nonzero(code: i32) -> (r: bool)
    ensures
        r == (code != 0),
{
    code != 0
}

} // verus!
