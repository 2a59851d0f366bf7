use cli_dispatch::name::CommandName;

const ALL_NAMES: [CommandName; 10] = [
    CommandName::Install,
    CommandName::Uninstall,
    CommandName::Use,
    CommandName::Config,
    CommandName::Current,
    CommandName::Deactivate,
    CommandName::Default,
    CommandName::Shim,
    CommandName::Help,
    CommandName::Version,
];

#[test]
fn display_parse_round_trip() {
    for name in ALL_NAMES {
        let token = name.display();
        assert_eq!(CommandName::parse(token.as_str()), Some(name));
    }
}

#[test]
fn display_is_the_canonical_token() {
    assert_eq!(CommandName::Install.display(), "install");
    assert_eq!(CommandName::Uninstall.display(), "uninstall");
    assert_eq!(CommandName::Use.display(), "use");
    assert_eq!(CommandName::Config.display(), "config");
    assert_eq!(CommandName::Current.display(), "current");
    assert_eq!(CommandName::Deactivate.display(), "deactivate");
    assert_eq!(CommandName::Default.display(), "default");
    assert_eq!(CommandName::Shim.display(), "shim");
    assert_eq!(CommandName::Help.display(), "help");
    assert_eq!(CommandName::Version.display(), "version");
}

#[test]
fn display_is_lowercase_ascii() {
    for name in ALL_NAMES {
        let token = name.display();
        assert!(token.chars().all(|c| c.is_ascii_lowercase()));
    }
}

#[test]
fn tokens_are_pairwise_distinct() {
    for (i, a) in ALL_NAMES.iter().enumerate() {
        for (j, b) in ALL_NAMES.iter().enumerate() {
            if i != j {
                assert_ne!(a.display(), b.display());
            }
        }
    }
}

#[test]
fn parse_rejects_non_tokens() {
    assert_eq!(CommandName::parse("Install"), None);
    assert_eq!(CommandName::parse("instal"), None);
    assert_eq!(CommandName::parse(""), None);
    assert_eq!(CommandName::parse("USE"), None);
    assert_eq!(CommandName::parse("use "), None);
    assert_eq!(CommandName::parse(" use"), None);
    assert_eq!(CommandName::parse("installx"), None);
    assert_eq!(CommandName::parse("bogus"), None);
}
