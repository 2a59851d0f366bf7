//! One process invocation: the immutable snapshot of the raw arguments,
//! and the tool-level routing of its first token to a subcommand name.

use crate::errors::ToolError;
use crate::name::CommandName;
use vstd::prelude::*;

verus! {

/// The raw ordered argument sequence of one process invocation, the
/// tool's own name first. An immutable snapshot: dispatch only reads it.
pub struct Invocation {
    /// The full raw argument vector, as the process received it.
    pub argv: Vec<String>,
}

impl Invocation {
    /// Wraps a raw argument vector as one invocation.
    pub fn new(argv: Vec<String>) -> (r: Invocation)
        ensures
            r.argv == argv,
    {
        Invocation { argv }
    }

    /// The full raw argument vector, handed to the argument-parsing
    /// collaborator unchanged.
    pub fn full_argv(&self) -> (r: &Vec<String>)
        ensures
            r@ == self.argv@,
    {
        &self.argv
    }
}

/// Selects the subcommand of an invocation: the token right after the
/// tool's own name, matched exactly against the canonical names. A
/// missing token selects the help command; an unrecognized one is a
/// fatal tool-level error naming the offending token, and no subcommand
/// is selected.
pub fn route(inv: &Invocation) -> (r: Result<CommandName, ToolError>)
    ensures
        inv.argv@.len() < 2 ==> r == Result::<CommandName, ToolError>::Ok(CommandName::Help),
        inv.argv@.len() >= 2 ==> match CommandName::parse_token(inv.argv@[1]@) {
            Some(n) => r == Result::<CommandName, ToolError>::Ok(n),
            None => r matches Err(ToolError::UnrecognizedCommand { token })
                && token@ == inv.argv@[1]@,
        },
{
    if inv.argv.len() < 2 {
        Ok(CommandName::Help)
    } else {
        let token: &String = &inv.argv[1];
        match CommandName::parse(token.as_str()) {
            Some(n) => Ok(n),
            None => Err(ToolError::UnrecognizedCommand { token: token.clone() }),
        }
    }
}

} // verus!
