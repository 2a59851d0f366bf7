use cli_dispatch::errors::ToolError;
use cli_dispatch::invocation::{route, Invocation};
use cli_dispatch::name::CommandName;

fn inv(args: &[&str]) -> Invocation {
    Invocation::new(args.iter().map(|a| a.to_string()).collect())
}

#[test]
fn route_selects_each_recognized_token() {
    assert!(matches!(route(&inv(&["tool", "install", "1.0.0"])), Ok(CommandName::Install)));
    assert!(matches!(route(&inv(&["tool", "uninstall"])), Ok(CommandName::Uninstall)));
    assert!(matches!(route(&inv(&["tool", "use", "--help"])), Ok(CommandName::Use)));
    assert!(matches!(route(&inv(&["tool", "config"])), Ok(CommandName::Config)));
    assert!(matches!(route(&inv(&["tool", "current"])), Ok(CommandName::Current)));
    assert!(matches!(route(&inv(&["tool", "deactivate"])), Ok(CommandName::Deactivate)));
    assert!(matches!(route(&inv(&["tool", "default"])), Ok(CommandName::Default)));
    assert!(matches!(route(&inv(&["tool", "shim"])), Ok(CommandName::Shim)));
    assert!(matches!(route(&inv(&["tool", "help"])), Ok(CommandName::Help)));
    assert!(matches!(route(&inv(&["tool", "version"])), Ok(CommandName::Version)));
}

#[test]
fn route_rejects_an_unrecognized_token() {
    match route(&inv(&["tool", "bogus"])) {
        Err(ToolError::UnrecognizedCommand { token }) => assert_eq!(token, "bogus"),
        other => panic!("expected an unrecognized-command error, got {:?}", other.is_ok()),
    }
}

#[test]
fn route_does_not_case_fold_or_prefix_match() {
    assert!(matches!(
        route(&inv(&["tool", "Install"])),
        Err(ToolError::UnrecognizedCommand { .. })
    ));
    assert!(matches!(
        route(&inv(&["tool", "instal"])),
        Err(ToolError::UnrecognizedCommand { .. })
    ));
}

#[test]
fn route_without_a_token_selects_help() {
    assert!(matches!(route(&inv(&["tool"])), Ok(CommandName::Help)));
    assert!(matches!(route(&inv(&[])), Ok(CommandName::Help)));
}

#[test]
fn full_argv_hands_back_the_snapshot() {
    let invocation = inv(&["tool", "use", "1.2.3"]);
    assert_eq!(invocation.full_argv(), &vec![
        "tool".to_string(),
        "use".to_string(),
        "1.2.3".to_string()
    ]);
}
