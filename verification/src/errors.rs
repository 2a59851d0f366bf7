//! The error taxonomy of one invocation: contract-level validation
//! failures, fatal runtime failures with their own exit code, and the
//! tool-level classification that dispatch surfaces to the process
//! boundary, together with the exit-code mapping of the three terminal
//! outcomes (success, soft failure, fatal error).

use vstd::prelude::*;

verus! {

/// Exit code of an invocation that ran and reported success.
pub const EXIT_SUCCESS: i32 = 0;

/// Exit code of an invocation that ran to completion but reported an
/// unsuccessful outcome (a soft failure, not an error).
pub const EXIT_FAILURE: i32 = 1;

/// Exit code of a fatal error whose classification supplies no code of
/// its own.
pub const EXIT_FATAL: i32 = 2;

/// A contract-level validation failure: the arguments were syntactically
/// well formed but semantically inconsistent for the subcommand.
#[derive(Debug)]
pub struct ValidationError {
    pub message: String,
}

/// A fatal failure during a subcommand's execution, carrying the exit
/// code its classification calls for.
#[derive(Debug)]
pub struct FatalError {
    pub exit_code: i32,
    pub message: String,
}

/// The tool-level classification of a failed invocation.
#[derive(Debug)]
pub enum ToolError {
    /// The raw arguments did not conform to the subcommand's usage
    /// grammar; carries the grammar that was being parsed against and the
    /// parser's own message.
    CliParse { usage: String, message: String },
    /// The subcommand's own validation of parsed arguments failed.
    Validation { message: String },
    /// The subcommand's execution failed, with its own exit code.
    Fatal { exit_code: i32, message: String },
    /// The first token of the invocation names no known subcommand.
    UnrecognizedCommand { token: String },
}

impl ToolError {
    /// The process exit code this error calls for: a fatal execution
    /// error carries its own code, every other kind takes the default
    /// fatal code.
    pub open spec fn spec_exit_code(self) -> i32 {
        match self {
            ToolError::Fatal { exit_code, .. } => exit_code,
            _ => EXIT_FATAL,
        }
    }

    /// The process exit code this error calls for.
    pub fn exit_code(&self) -> (r: i32)
        ensures
            r == self.spec_exit_code(),
    {
        match self {
            ToolError::Fatal { exit_code, .. } => *exit_code,
            _ => EXIT_FATAL,
        }
    }
}

/// The exit code of a finished invocation: success and soft failure map
/// to their fixed codes, a fatal error to the code its classification
/// calls for.
pub open spec fn spec_exit_disposition(r: Result<bool, ToolError>) -> i32 {
    match r {
        Ok(true) => EXIT_SUCCESS,
        Ok(false) => EXIT_FAILURE,
        Err(e) => e.spec_exit_code(),
    }
}

/// Maps the tri-state outcome of one dispatched invocation to the
/// process exit code.
pub fn exit_disposition(r: &Result<bool, ToolError>) -> (code: i32)
    ensures
        code == spec_exit_disposition(*r),
{
    match r {
        Ok(true) => EXIT_SUCCESS,
        Ok(false) => EXIT_FAILURE,
        Err(e) => e.exit_code(),
    }
}

/// The three terminal outcomes are told apart by their exit codes
/// whenever the fatal error's own code is none of the two reserved ones.
pub proof fn lemma_dispositions_distinct(e: ToolError)
    requires
        e.spec_exit_code() != EXIT_SUCCESS,
        e.spec_exit_code() != EXIT_FAILURE,
    ensures
        spec_exit_disposition(Ok(true)) != spec_exit_disposition(Ok(false)),
        spec_exit_disposition(Ok(true)) != spec_exit_disposition(Err(e)),
        spec_exit_disposition(Ok(false)) != spec_exit_disposition(Err(e)),
{
}

} // verus!
