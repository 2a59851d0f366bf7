//! The closed set of subcommand names, with the canonical lowercase token
//! of each name and the exact (no prefix, no case-folding) reverse mapping.

use vstd::prelude::*;

verus! {

/// Identifies one of the ten subcommands the tool supports.
#[derive(Clone, Copy, PartialEq, Eq, Structural, Debug)]
pub enum CommandName {
    Install,
    Uninstall,
    Use,
    Config,
    Current,
    Deactivate,
    Default,
    Shim,
    Help,
    Version,
}

/// Relies on `str`'s `PartialEq`: two string slices are equal exactly when
/// their character sequences are equal.
#[verifier::external_body]
fn str_eq(a: &str, b: &str) -> (r: bool)
    ensures
        r == (a@ == b@),
{
    a == b
}

impl CommandName {
    /// The canonical lowercase token of this name.
    pub open spec fn token(self) -> Seq<char> {
        match self {
            CommandName::Install => "install"@,
            CommandName::Uninstall => "uninstall"@,
            CommandName::Use => "use"@,
            CommandName::Config => "config"@,
            CommandName::Current => "current"@,
            CommandName::Deactivate => "deactivate"@,
            CommandName::Default => "default"@,
            CommandName::Shim => "shim"@,
            CommandName::Help => "help"@,
            CommandName::Version => "version"@,
        }
    }

    /// What `parse` returns on a given character sequence: the name whose
    /// token the input matches exactly, or nothing.
    pub open spec fn parse_token(s: Seq<char>) -> Option<CommandName> {
        if s == "install"@ {
            Some(CommandName::Install)
        } else if s == "uninstall"@ {
            Some(CommandName::Uninstall)
        } else if s == "use"@ {
            Some(CommandName::Use)
        } else if s == "config"@ {
            Some(CommandName::Config)
        } else if s == "current"@ {
            Some(CommandName::Current)
        } else if s == "deactivate"@ {
            Some(CommandName::Deactivate)
        } else if s == "default"@ {
            Some(CommandName::Default)
        } else if s == "shim"@ {
            Some(CommandName::Shim)
        } else if s == "help"@ {
            Some(CommandName::Help)
        } else if s == "version"@ {
            Some(CommandName::Version)
        } else {
            None
        }
    }

    /// The canonical lowercase token of this name, for routing and messages.
    pub fn display(self) -> (r: String)
        ensures
            r@ == self.token(),
    {
        match self {
            CommandName::Install => String::from_str("install"),
            CommandName::Uninstall => String::from_str("uninstall"),
            CommandName::Use => String::from_str("use"),
            CommandName::Config => String::from_str("config"),
            CommandName::Current => String::from_str("current"),
            CommandName::Deactivate => String::from_str("deactivate"),
            CommandName::Default => String::from_str("default"),
            CommandName::Shim => String::from_str("shim"),
            CommandName::Help => String::from_str("help"),
            CommandName::Version => String::from_str("version"),
        }
    }

    /// Maps a raw token to the name it denotes; recognizes exactly the ten
    /// canonical tokens, by whole-string match.
    pub fn parse(s: &str) -> (r: Option<CommandName>)
        ensures
            r == Self::parse_token(s@),
    {
        if str_eq(s, "install") {
            Some(CommandName::Install)
        } else if str_eq(s, "uninstall") {
            Some(CommandName::Uninstall)
        } else if str_eq(s, "use") {
            Some(CommandName::Use)
        } else if str_eq(s, "config") {
            Some(CommandName::Config)
        } else if str_eq(s, "current") {
            Some(CommandName::Current)
        } else if str_eq(s, "deactivate") {
            Some(CommandName::Deactivate)
        } else if str_eq(s, "default") {
            Some(CommandName::Default)
        } else if str_eq(s, "shim") {
            Some(CommandName::Shim)
        } else if str_eq(s, "help") {
            Some(CommandName::Help)
        } else if str_eq(s, "version") {
            Some(CommandName::Version)
        } else {
            None
        }
    }
}

/// Every character of `s` is a lowercase ASCII letter.
pub open spec fn lowercase_ascii(s: Seq<char>) -> bool {
    forall|i: int| 0 <= i < s.len() ==> 'a' <= #[trigger] s[i] && s[i] <= 'z'
}

/// Round trip: parsing the displayed token of any name yields that same
/// name back.
pub proof fn lemma_display_parse_roundtrip(n: CommandName)
    ensures
        CommandName::parse_token(n.token()) == Some(n),
{
    reveal_strlit("install");
    reveal_strlit("uninstall");
    reveal_strlit("use");
    reveal_strlit("config");
    reveal_strlit("current");
    reveal_strlit("deactivate");
    reveal_strlit("default");
    reveal_strlit("shim");
    reveal_strlit("help");
    reveal_strlit("version");
    assert("install"@.len() == 7 && "install"@[0] == 'i');
    assert("uninstall"@.len() == 9 && "uninstall"@[0] == 'u');
    assert("use"@.len() == 3 && "use"@[0] == 'u');
    assert("config"@.len() == 6 && "config"@[0] == 'c');
    assert("current"@.len() == 7 && "current"@[0] == 'c');
    assert("deactivate"@.len() == 10 && "deactivate"@[0] == 'd');
    assert("default"@.len() == 7 && "default"@[0] == 'd');
    assert("shim"@.len() == 4 && "shim"@[0] == 's');
    assert("help"@.len() == 4 && "help"@[0] == 'h');
    assert("version"@.len() == 7 && "version"@[0] == 'v');
}

/// The string form is one-to-one: distinct names never share a token,
/// so the token mapping is a bijection between the ten names and the
/// ten canonical tokens.
pub proof fn lemma_token_injective(a: CommandName, b: CommandName)
    requires
        a.token() == b.token(),
    ensures
        a == b,
{
    lemma_display_parse_roundtrip(a);
    lemma_display_parse_roundtrip(b);
}

/// Parsing is exact: a recognized input is the token of the returned name,
/// and an input that is no name's token is rejected.
pub proof fn lemma_parse_exact(s: Seq<char>)
    ensures
        match CommandName::parse_token(s) {
            Some(n) => n.token() == s,
            None => forall|n: CommandName| n.token() != s,
        },
{
}

/// Every canonical token is pure lowercase ASCII.
pub proof fn lemma_tokens_lowercase(n: CommandName)
    ensures
        lowercase_ascii(n.token()),
{
    reveal_strlit("install");
    reveal_strlit("uninstall");
    reveal_strlit("use");
    reveal_strlit("config");
    reveal_strlit("current");
    reveal_strlit("deactivate");
    reveal_strlit("default");
    reveal_strlit("shim");
    reveal_strlit("help");
    reveal_strlit("version");
}

} // verus!
