//! The transcoder as this library sees it: the program to launch, and what
//! to make of how it ended. Launching it is left to the caller.

use vstd::prelude::*;

use crate::error::Error;

verus! {

/// The name under which the transcoder is looked up on the search path.
pub open spec fn tool_text() -> Seq<char> {
    "ffmpeg"@
}

/// The name under which the transcoder is looked up on the search path.
pub fn tool() -> (result: &'static str)
    ensures
        result@ == tool_text(),
{
    "ffmpeg"
}

/// Judges a finished transcoder run by whether it reported success.
///
/// A run that failed is an error to report, [`Error::ToolFailed`], but none
/// that changes the status with which the program itself ends.
pub fn check_status(success: bool) -> (result: Result<(), Error>)
    ensures
        result is Ok <==> success,
        result matches Err(e) ==> e == Error::ToolFailed && e.exit_status() == 0,
{
    if success {
        Ok(())
    } else {
        Err(Error::ToolFailed)
    }
}

} // verus!
