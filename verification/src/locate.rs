//! The project locator's decision: interpreting what the build tool's
//! project-location subprocess produced. Location failure is fatal to the
//! whole invocation, with exit code 1.

use vstd::prelude::*;
use vstd::string::StringExecFns;
use crate::strings::spec_trim_end;
use crate::strings::trim_end;

verus! {

/// Why the project could not be located; either condition ends the
/// program.
#[derive(PartialEq, Eq, Structural, Clone, Copy, Debug)]
pub enum LocateError {
    /// The project-locate subprocess reported a non-zero exit status.
    CommandFailed,
    /// Its standard output was not valid text.
    InvalidOutput,
}

impl LocateError {
    /// The message reported to the user for this error.
    pub fn message(&self) -> (r: &'static str)
        ensures
            *self is CommandFailed ==> r@ == "failed to locate project"@,
            *self is InvalidOutput ==> r@ == "project locator produced invalid text"@,
    {
        match self {
            LocateError::CommandFailed => "failed to locate project",
            LocateError::InvalidOutput => "project locator produced invalid text",
        }
    }

    /// The exit code of the whole program when the project cannot be
    /// located.
    pub fn exit_code(&self) -> (c: i32)
        ensures
            c == 1,
    {
        1
    }
}

/// Interprets the project-locate subprocess's outcome: `success` is its
/// exit status, `output` its standard output when that was valid text.
/// On success the manifest path is the output with trailing whitespace
/// trimmed; any failure is fatal and no later stage may run.
pub fn locate_outcome(success: bool, output: Option<String>) -> (r: Result<String, LocateError>)
    ensures
        !success ==> r == Err::<String, LocateError>(LocateError::CommandFailed),
        success && output is None ==> r == Err::<String, LocateError>(LocateError::InvalidOutput),
        (success && output is Some) ==> (r is Ok && r->Ok_0@ == spec_trim_end(output->0@)),
{
    if !success {
        return Err(LocateError::CommandFailed);
    }
    match output {
        None => Err(LocateError::InvalidOutput),
        Some(text) => Ok(String::from_str(trim_end(text.as_str()))),
    }
}

} // verus!
