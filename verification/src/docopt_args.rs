//! The docopt-backed argument-parsing collaborator: parses raw argv
//! against a subcommand's usage grammar and classifies the outcome three
//! ways — populated arguments, help requested, or a genuine syntax
//! error — as the dispatch routine expects it.

use crate::command::{dispatch, dispatch_post, ArgvOutcome, Command};
use crate::errors::ToolError;
use crate::grammar::{grammar_is_safe, safe_grammar};
use crate::invocation::Invocation;
use vstd::prelude::*;

verus! {

#[verifier::external_type_specification]
#[verifier::external_body]
pub struct ExArgvMap(docopt::ArgvMap);

/// The three ways docopt can classify raw argv against a usage grammar.
pub enum ArgvClass {
    /// The argv matched the grammar and populated an argument map.
    Success,
    /// The argv asked for help.
    Help,
    /// The argv did not conform to the grammar (or the grammar itself
    /// is malformed).
    Syntax,
}

/// How docopt classifies a usage grammar and raw argv. Docopt's parse
/// reads nothing but the two of them, so the classification is a
/// function of its arguments alone; its value on given texts is not
/// stated here, only named.
pub uninterp spec fn docopt_class(usage: Seq<char>, argv: Seq<Seq<char>>) -> ArgvClass;

/// What a subcommand whose usage grammar fails the safety screen is
/// told instead of being parsed.
pub const UNSAFE_GRAMMAR_MESSAGE: &'static str = "unsafe usage grammar: the text must be ASCII and no option description may redeclare a short flag";

/// Relies on docopt's `Docopt::new`, `Docopt::argv` and `Docopt::parse`:
/// matches raw argv (the program name first) against a usage grammar. A
/// help request — docopt's `Help` error, on its own or wrapped with the
/// program usage — is told apart from every genuine failure, whose
/// display text is kept as the syntax-error message. Which of the three
/// classes comes back depends on the grammar and the argv alone; the
/// syntax-error message text is not pinned, since docopt assembles it
/// from hash-ordered containers. The grammar must pass the safety
/// screen: on an admitted grammar docopt returns on every argv instead
/// of panicking — its byte-offset slicing of stacked short flags stays
/// on character boundaries because the text is ASCII, and no option
/// description re-binds a short flag that an earlier one registered as
/// a long flag's synonym.
#[verifier::external_body]
fn docopt_outcome(usage: &str, argv: &Vec<String>) -> (r: ArgvOutcome<docopt::ArgvMap>)
    requires
        safe_grammar(usage@),
    ensures
        (r is Success) == (docopt_class(usage@, argv.deep_view()) is Success),
        (r is HelpRequested) == (docopt_class(usage@, argv.deep_view()) is Help),
        (r is SyntaxError) == (docopt_class(usage@, argv.deep_view()) is Syntax),
{
    match docopt::Docopt::new(usage).and_then(|d| d.argv(argv).parse()) {
        Ok(map) => ArgvOutcome::Success(map),
        Err(docopt::Error::Help) => ArgvOutcome::HelpRequested,
        Err(docopt::Error::WithProgramUsage(b, _)) if matches!(*b, docopt::Error::Help) => {
            ArgvOutcome::HelpRequested
        },
        Err(err) => ArgvOutcome::SyntaxError(err.to_string()),
    }
}

/// Takes one invocation through a subcommand whose argument structure is
/// docopt's own map: the full raw argv is parsed against the
/// subcommand's own usage grammar — no other argument source and no
/// other grammar — and dispatch drives the classified outcome. A
/// grammar the safety screen refuses is reported as a parse-classified
/// fatal error before docopt ever sees it, the session untouched. On an
/// admitted grammar, each of docopt's three classifications of that
/// grammar and argv pins its path: help runs the help instance, success
/// goes through validation and one run of the validated command, a
/// syntax error is fatal with the usage attached. Only the payload
/// docopt built — the argument map, or the error's message text — is
/// left existential.
pub fn go_docopt<C: Command<Args = docopt::ArgvMap>>(
    invocation: Invocation,
    session: &mut C::Session,
) -> (r: Result<bool, ToolError>)
    ensures
        !safe_grammar(C::spec_usage()) ==> *final(session) == *old(session) && (r matches Err(
            ToolError::CliParse { usage, message },
        ) && usage@ == C::spec_usage() && message@ == UNSAFE_GRAMMAR_MESSAGE@),
        safe_grammar(C::spec_usage()) ==> match docopt_class(
            C::spec_usage(),
            invocation.argv.deep_view(),
        ) {
            ArgvClass::Help => dispatch_post::<C>(
                invocation,
                ArgvOutcome::HelpRequested,
                *old(session),
                *final(session),
                r,
            ),
            ArgvClass::Success => exists|args: docopt::ArgvMap|
                dispatch_post::<C>(
                    invocation,
                    ArgvOutcome::Success(args),
                    *old(session),
                    *final(session),
                    r,
                ),
            ArgvClass::Syntax => exists|message: String|
                dispatch_post::<C>(
                    invocation,
                    ArgvOutcome::SyntaxError(message),
                    *old(session),
                    *final(session),
                    r,
                ),
        },
{
    let usage_text = C::usage();
    if !grammar_is_safe(usage_text) {
        return Err(
            ToolError::CliParse {
                usage: String::from_str(usage_text),
                message: String::from_str(UNSAFE_GRAMMAR_MESSAGE),
            },
        );
    }
    let argv = invocation.full_argv();
    proof {
        assert(argv.deep_view() =~= invocation.argv.deep_view());
    }
    let outcome = docopt_outcome(usage_text, argv);
    let ghost o = outcome;
    let r = dispatch::<C>(invocation, outcome, session);
    proof {
        match o {
            ArgvOutcome::Success(args) => {
                assert(dispatch_post::<C>(
                    invocation,
                    ArgvOutcome::Success(args),
                    *old(session),
                    *session,
                    r,
                ));
            },
            ArgvOutcome::HelpRequested => {
                assert(dispatch_post::<C>(
                    invocation,
                    ArgvOutcome::HelpRequested,
                    *old(session),
                    *session,
                    r,
                ));
            },
            ArgvOutcome::SyntaxError(message) => {
                assert(dispatch_post::<C>(
                    invocation,
                    ArgvOutcome::SyntaxError(message),
                    *old(session),
                    *session,
                    r,
                ));
            },
        }
    }
    r
}

} // verus!

