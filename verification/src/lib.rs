//! Command-dispatch core for a multi-subcommand command-line tool.
//!
//! The crate names the closed set of subcommands ([`name::CommandName`]),
//! defines the contract every subcommand implements ([`command::Command`]),
//! and drives one invocation from raw arguments to a process exit
//! disposition ([`command::dispatch`] and [`command::go`]), normalizing
//! "show help" requests into an ordinary execution path.

pub mod command;
pub mod docopt_args;
pub mod errors;
pub mod grammar;
pub mod invocation;
pub mod name;
