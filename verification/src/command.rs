//! The contract every subcommand implements, and the dispatch routine
//! that drives one invocation through it: classify the raw-argument
//! parse, normalize a help request into running the subcommand's own
//! help instance, validate, and execute against the shared session.

use crate::errors::{FatalError, ToolError, ValidationError};
use crate::invocation::Invocation;
use vstd::prelude::*;

verus! {

/// The classified outcome of parsing raw arguments against one
/// subcommand's usage grammar: a populated argument structure, a help
/// request the parser surfaced in place of a result, or a genuine
/// syntax error with the parser's message.
pub enum ArgvOutcome<A> {
    Success(A),
    HelpRequested,
    SyntaxError(String),
}

/// The capability contract of one subcommand. A value of an implementing
/// type exists only after successful validation (`parse`) — or as the
/// distinguished `help` instance — and is consumed exactly once by `run`.
///
/// The spec functions are the implementor's own model of the
/// operations: a validation failure is modeled by its message text, a
/// fatal run failure by its exit code and message text. The dispatch
/// contract is stated over these models, so whatever an implementation
/// proves of its model carries through dispatch unchanged.
pub trait Command: Sized {
    /// The intermediate, structurally-typed shape the argument-parsing
    /// collaborator populates from raw argv; `parse` promotes it.
    type Args;

    /// The mutable session state one `run` executes against, borrowed
    /// exclusively for the duration of that call.
    type Session;

    /// Model of `usage`: the usage text as a character sequence. An
    /// implementation overrides this with its own text; the default
    /// leaves it unspecified.
    open spec fn spec_usage() -> Seq<char> {
        arbitrary()
    }

    /// Model of `help`: the distinguished help instance. An
    /// implementation overrides this with its own model; the default
    /// leaves it unspecified.
    open spec fn spec_help() -> Self {
        arbitrary()
    }

    /// Model of `parse`: the validated command, or the message text of
    /// the validation error. An implementation overrides this with its
    /// own model; the default leaves it unspecified.
    open spec fn spec_parse(invocation: Invocation, args: Self::Args) -> Result<Self, Seq<char>> {
        arbitrary()
    }

    /// Model of `run`: the reported outcome — a boolean, or a fatal
    /// error's exit code and message text — and the session left behind,
    /// both as a function of the session the run was given. An
    /// implementation overrides this with its own model; the default
    /// leaves it unspecified.
    open spec fn spec_run(self, session: Self::Session) -> (Result<bool, (i32, Seq<char>)>, Self::Session) {
        arbitrary()
    }

    /// The usage grammar and help text of this subcommand; the single
    /// source of truth for the arguments its parser accepts.
    fn usage() -> (r: &'static str)
        ensures
            r@ == Self::spec_usage(),
    ;

    /// The distinguished instance that prints this subcommand's help and
    /// does nothing else; constructible with no parsed arguments at all.
    fn help() -> (r: Self)
        ensures
            r == Self::spec_help(),
    ;

    /// Promotes the loosely-typed argument structure into the validated
    /// command, or reports the contract-level inconsistency.
    fn parse(invocation: Invocation, args: Self::Args) -> (r: Result<Self, ValidationError>)
        ensures
            parse_matches::<Self>(r, Self::spec_parse(invocation, args)),
    ;

    /// Executes the subcommand against the session. `Ok(true)` reports
    /// success, `Ok(false)` a soft failure, and an error aborts the
    /// invocation with the error's own exit code.
    fn run(self, session: &mut Self::Session) -> (r: Result<bool, FatalError>)
        ensures
            ({
                let (run_r, run_s) = self.spec_run(*old(session));
                *final(session) == run_s && run_matches(r, run_r)
            }),
    ;

    /// The argument-parsing collaborator of this subcommand: parses raw
    /// argv against the usage grammar and classifies the outcome
    /// three ways. Nothing is promised of the classification itself;
    /// dispatch states what follows from every possible outcome.
    fn parse_argv(argv: &Vec<String>) -> ArgvOutcome<Self::Args>;
}

/// A parse result agrees with its model: a validated command is exactly
/// the modeled one, a validation error carries exactly the modeled
/// message text.
pub open spec fn parse_matches<C>(r: Result<C, ValidationError>, m: Result<C, Seq<char>>) -> bool {
    match r {
        Ok(cmd) => m == Ok::<C, Seq<char>>(cmd),
        Err(v) => m matches Err(text) && v.message@ == text,
    }
}

/// A run result agrees with its model: the boolean outcome is exactly
/// the modeled one, a fatal error carries exactly the modeled exit code
/// and message text.
pub open spec fn run_matches(r: Result<bool, FatalError>, m: Result<bool, (i32, Seq<char>)>) -> bool {
    match r {
        Ok(b) => m == Ok::<bool, (i32, Seq<char>)>(b),
        Err(f) => m matches Err(t) && f.exit_code == t.0 && f.message@ == t.1,
    }
}

/// A tool-level result agrees with a run model: the boolean outcome
/// passes through unchanged, a modeled fatal error surfaces as a
/// fatal-classified tool error with that exit code and message text.
pub open spec fn lifted_run_matches(r: Result<bool, ToolError>, m: Result<bool, (i32, Seq<char>)>) -> bool {
    match r {
        Ok(b) => m == Ok::<bool, (i32, Seq<char>)>(b),
        Err(e) => e matches ToolError::Fatal { exit_code, message } && (m matches Err(t)
            && exit_code == t.0 && message@ == t.1),
    }
}

fn lift_run(r: Result<bool, FatalError>) -> (t: Result<bool, ToolError>)
    ensures
        forall|m: Result<bool, (i32, Seq<char>)>| run_matches(r, m) ==> lifted_run_matches(t, m),
{
    match r {
        Ok(b) => Ok(b),
        Err(f) => Err(ToolError::Fatal { exit_code: f.exit_code, message: f.message }),
    }
}

/// Everything dispatch promises, given the classified outcome of the
/// raw-argument parse:
/// - a help request runs the subcommand's help instance — and only it —
///   through the ordinary run path, never touching validation;
/// - a populated argument structure is validated; the validated command
///   runs exactly once, its outcome passing through unchanged, while a
///   validation failure leaves the session untouched and surfaces as a
///   validation-classified fatal error with the model's message;
/// - a syntax error leaves the session untouched and surfaces as a
///   parse-classified fatal error wrapping the parser's message together
///   with the grammar that was being parsed against.
pub open spec fn dispatch_post<C: Command>(
    invocation: Invocation,
    outcome: ArgvOutcome<C::Args>,
    old_session: C::Session,
    new_session: C::Session,
    r: Result<bool, ToolError>,
) -> bool {
    match outcome {
        ArgvOutcome::Success(args) => match C::spec_parse(invocation, args) {
            Ok(cmd) => {
                let (run_r, run_s) = cmd.spec_run(old_session);
                new_session == run_s && lifted_run_matches(r, run_r)
            },
            Err(text) => new_session == old_session && (r matches Err(ToolError::Validation {
                message,
            }) && message@ == text),
        },
        ArgvOutcome::HelpRequested => {
            let (run_r, run_s) = C::spec_help().spec_run(old_session);
            new_session == run_s && lifted_run_matches(r, run_r)
        },
        ArgvOutcome::SyntaxError(msg) => new_session == old_session && (r matches Err(
            ToolError::CliParse { usage, message },
        ) && usage@ == C::spec_usage() && message == msg),
    }
}

/// Drives one subcommand over an already classified raw-argument parse:
/// help short-circuits to the help instance's run, success goes through
/// validation to exactly one run, and every failure is fatal with its
/// kind — nothing is retried.
pub fn dispatch<C: Command>(
    invocation: Invocation,
    outcome: ArgvOutcome<C::Args>,
    session: &mut C::Session,
) -> (r: Result<bool, ToolError>)
    ensures
        dispatch_post::<C>(invocation, outcome, *old(session), *final(session), r),
{
    match outcome {
        ArgvOutcome::Success(args) => match C::parse(invocation, args) {
            Ok(cmd) => lift_run(cmd.run(session)),
            Err(v) => Err(ToolError::Validation { message: v.message }),
        },
        ArgvOutcome::HelpRequested => lift_run(C::help().run(session)),
        ArgvOutcome::SyntaxError(message) => Err(
            ToolError::CliParse { usage: String::from_str(C::usage()), message },
        ),
    }
}

/// Takes one invocation through a subcommand from raw argv to the exit
/// disposition: the subcommand's own collaborator classifies the argv,
/// and dispatch does the rest. Whatever the classification came back
/// as, the result and the session are exactly what dispatch promises
/// of that outcome.
pub fn go<C: Command>(invocation: Invocation, session: &mut C::Session) -> (r: Result<
    bool,
    ToolError,
>)
    ensures
        exists|o: ArgvOutcome<C::Args>|
            dispatch_post::<C>(invocation, o, *old(session), *final(session), r),
{
    let outcome = C::parse_argv(invocation.full_argv());
    let ghost o = outcome;
    let r = dispatch::<C>(invocation, outcome, session);
    proof {
        assert(dispatch_post::<C>(invocation, o, *old(session), *session, r));
    }
    r
}

} // verus!
