//! The elevated query that asks the system for the game client's command
//! line: the arguments it is launched with, and what the launch's return code
//! means.

use crate::extract::ExtractionError;
use crate::process::TARGET_PROCESS;
use vstd::prelude::*;
use vstd::string::*;

verus! {

/// Name of the transient file that the query writes, in the directory for
/// temporary files.
pub const ARTIFACT_NAME: &'static str = "lol_command.txt";

/// The arguments up to the target's executable name.
pub const QUERY_HEAD: &'static str =
    "-NoExit -Command \"Get-WmiObject -Query 'SELECT CommandLine FROM Win32_Process WHERE Name=''";

/// The arguments between the target's executable name and the output path.
pub const QUERY_MIDDLE: &'static str =
    "''' | Format-List CommandLine | Out-File -Width 9999 -Encoding UTF8 -FilePath '";

/// The arguments after the output path.
pub const QUERY_TAIL: &'static str = "'\"";

/// The arguments of the shell that runs the query and writes to `output_path`.
pub open spec fn query_text(output_path: Seq<char>) -> Seq<char> {
    QUERY_HEAD@ + TARGET_PROCESS@ + QUERY_MIDDLE@ + output_path + QUERY_TAIL@
}

/// Composes the arguments with which the elevated shell is launched: a query
/// for the command line of the process that has the target's executable
/// name, written to the file at `output_path`.
pub fn query_arguments(output_path: &str) -> (arguments: String)
    ensures
        arguments@ == query_text(output_path@),
{
    let mut arguments = QUERY_HEAD.to_owned();
    arguments.append(TARGET_PROCESS);
    arguments.append(QUERY_MIDDLE);
    arguments.append(output_path);
    arguments.append(QUERY_TAIL);
    arguments
}

/// Largest code with which the shell reports that a launch failed.
pub const LAUNCH_FAILURE_MAX: i32 = 32;

/// Code with which the shell reports that access was denied.
pub const LAUNCH_ACCESS_DENIED: i32 = 5;

/// What the code returned by the elevated launch means: every code above
/// `LAUNCH_FAILURE_MAX` is a launch; of the others, `LAUNCH_ACCESS_DENIED` is a
/// refusal of the privilege and the rest a failure of the query.
pub open spec fn launch_meaning(code: i32) -> Result<(), ExtractionError> {
    if code > LAUNCH_FAILURE_MAX {
        Ok(())
    } else if code == LAUNCH_ACCESS_DENIED {
        Err(ExtractionError::PrivilegeDenied)
    } else {
        Err(ExtractionError::QueryFailed)
    }
}

/// Reads the code that the elevated launch of the query returned.
pub fn launch_outcome(code: i32) -> (launched: Result<(), ExtractionError>)
    ensures
        launched == launch_meaning(code),
{
    if code > LAUNCH_FAILURE_MAX {
        Ok(())
    } else if code == LAUNCH_ACCESS_DENIED {
        Err(ExtractionError::PrivilegeDenied)
    } else {
        Err(ExtractionError::QueryFailed)
    }
}

} // verus!
