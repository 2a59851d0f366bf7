use cli_dispatch::command::{ArgvOutcome, Command};
use cli_dispatch::docopt_args::{go_docopt, UNSAFE_GRAMMAR_MESSAGE};
use cli_dispatch::errors::{FatalError, ToolError, ValidationError};
use cli_dispatch::grammar::grammar_is_safe;
use cli_dispatch::invocation::{route, Invocation};
use cli_dispatch::name::CommandName;

const USE_USAGE: &str = "
Usage:
    tool use <version>
    tool use -h | --help

Options:
    -h, --help     Display this message
";

#[derive(Default)]
struct Recorder {
    runs: u32,
    help_runs: u32,
    last_version: Option<String>,
}

/// A version-selecting subcommand parsed by docopt.
enum UseCmd {
    Help,
    Select { version: String },
}

impl Command for UseCmd {
    type Args = docopt::ArgvMap;
    type Session = Recorder;

    fn usage() -> &'static str {
        USE_USAGE
    }

    fn help() -> Self {
        UseCmd::Help
    }

    fn parse(_invocation: Invocation, args: docopt::ArgvMap) -> Result<Self, ValidationError> {
        Ok(UseCmd::Select { version: args.get_str("<version>").to_string() })
    }

    fn run(self, session: &mut Recorder) -> Result<bool, FatalError> {
        match self {
            UseCmd::Help => {
                session.help_runs += 1;
                Ok(true)
            }
            UseCmd::Select { version } => {
                session.runs += 1;
                session.last_version = Some(version);
                Ok(true)
            }
        }
    }

    fn parse_argv(_argv: &Vec<String>) -> ArgvOutcome<docopt::ArgvMap> {
        panic!("this test drives the docopt-backed route");
    }
}

fn inv(args: &[&str]) -> Invocation {
    Invocation::new(args.iter().map(|a| a.to_string()).collect())
}

#[test]
fn use_help_flag_runs_the_help_instance() {
    let mut session = Recorder::default();
    let invocation = inv(&["tool", "use", "--help"]);
    assert!(matches!(route(&invocation), Ok(CommandName::Use)));
    let r = go_docopt::<UseCmd>(invocation, &mut session);
    assert!(matches!(r, Ok(true)));
    assert_eq!(session.help_runs, 1);
    assert_eq!(session.runs, 0);
}

#[test]
fn use_short_help_flag_runs_the_help_instance() {
    let mut session = Recorder::default();
    let r = go_docopt::<UseCmd>(inv(&["tool", "use", "-h"]), &mut session);
    assert!(matches!(r, Ok(true)));
    assert_eq!(session.help_runs, 1);
}

#[test]
fn use_with_version_parses_and_runs() {
    let mut session = Recorder::default();
    let r = go_docopt::<UseCmd>(inv(&["tool", "use", "1.2.3"]), &mut session);
    assert!(matches!(r, Ok(true)));
    assert_eq!(session.runs, 1);
    assert_eq!(session.last_version.as_deref(), Some("1.2.3"));
}

#[test]
fn use_with_unknown_flag_is_a_parse_error() {
    let mut session = Recorder::default();
    let r = go_docopt::<UseCmd>(inv(&["tool", "use", "--bogus"]), &mut session);
    match r {
        Err(ToolError::CliParse { usage, message }) => {
            assert_eq!(usage, USE_USAGE);
            assert!(!message.is_empty());
        }
        other => panic!("expected a parse-classified error, got {:?}", other.is_ok()),
    }
    assert_eq!(session.runs, 0);
    assert_eq!(session.help_runs, 0);
}

const REDECLARED_SHORT_USAGE: &str = "
Usage:
    tool wit

Options:
    -a, --alpha  the first declaration
    -a ARG       the second declaration
";

/// A subcommand whose usage grammar redeclares a short flag — a text
/// the vendored docopt panics on while reading it.
struct WitnessCmd;

impl Command for WitnessCmd {
    type Args = docopt::ArgvMap;
    type Session = Recorder;

    fn usage() -> &'static str {
        REDECLARED_SHORT_USAGE
    }

    fn help() -> Self {
        WitnessCmd
    }

    fn parse(_invocation: Invocation, _args: docopt::ArgvMap) -> Result<Self, ValidationError> {
        panic!("parse must not be reached for a refused grammar");
    }

    fn run(self, _session: &mut Recorder) -> Result<bool, FatalError> {
        panic!("run must not be reached for a refused grammar");
    }

    fn parse_argv(_argv: &Vec<String>) -> ArgvOutcome<docopt::ArgvMap> {
        panic!("this test drives the docopt-backed route");
    }
}

#[test]
fn grammar_screen_accepts_ordinary_usage_texts() {
    assert!(grammar_is_safe(USE_USAGE));
    assert!(grammar_is_safe("Usage: tool test [<arg>]"));
    assert!(grammar_is_safe(""));
}

#[test]
fn grammar_screen_refuses_panic_prone_texts() {
    assert!(!grammar_is_safe(REDECLARED_SHORT_USAGE));
    assert!(!grammar_is_safe("Options:\n    -\u{e9} ARG  a non-ASCII short flag"));
}

#[test]
fn unsafe_grammar_is_refused_before_docopt_runs() {
    let mut session = Recorder::default();
    let r = go_docopt::<WitnessCmd>(inv(&["tool", "wit"]), &mut session);
    match r {
        Err(ToolError::CliParse { usage, message }) => {
            assert_eq!(usage, REDECLARED_SHORT_USAGE);
            assert_eq!(message, UNSAFE_GRAMMAR_MESSAGE);
        }
        other => panic!("expected a parse-classified refusal, got {:?}", other.is_ok()),
    }
    assert_eq!(session.runs, 0);
    assert_eq!(session.help_runs, 0);
}

#[test]
fn use_without_version_is_a_parse_error() {
    let mut session = Recorder::default();
    let r = go_docopt::<UseCmd>(inv(&["tool", "use"]), &mut session);
    assert!(matches!(r, Err(ToolError::CliParse { .. })));
    assert_eq!(session.runs, 0);
    assert_eq!(session.help_runs, 0);
}
