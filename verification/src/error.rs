//! The ways in which a request can fail, and what the program does about each.

use vstd::prelude::*;

verus! {

/// Why no transcoder run came about, or why one did not succeed.
#[derive(Clone, Copy, Debug, PartialEq, Eq, Structural)]
pub enum Error {
    /// The command line does not name both an operation and a file.
    Usage,
    /// The operation selector is none of the known ones.
    UnknownCommand,
    /// The file path holds no `.` that parts a stem from an extension.
    InvalidPath,
    /// The transcoder ran and reported failure.
    ToolFailed,
}

impl Error {
    /// The status with which the program ends after this error: 1 for a
    /// faulty command line or path, 0 for everything else.
    pub open spec fn exit_status(self) -> int {
        match self {
            Error::Usage => 1,
            Error::InvalidPath => 1,
            Error::UnknownCommand => 0,
            Error::ToolFailed => 0,
        }
    }

    /// The status with which the program ends after this error.
    pub fn exit_code(self) -> (code: i32)
        ensures
            code == self.exit_status(),
    {
        match self {
            Error::Usage => 1,
            Error::InvalidPath => 1,
            Error::UnknownCommand => 0,
            Error::ToolFailed => 0,
        }
    }
}

} // verus!
