use vstd::prelude::*;

verus! {

/// A client command, decoded from its wire tag at the transport boundary so
/// that the dispatcher never compares strings.
#[derive(Clone, Copy, Debug, PartialEq, Eq, Structural)]
pub enum Command {
    Restore,
    SplitLeft,
    SplitRight,
    Maximize,
    Save,
    Restart,
    Quit,
}

/// The key under which a message carries its command tag.
pub open spec fn spec_command_key() -> Seq<char> {
    "command"@
}

/// The wire tag of each command: the fixed client vocabulary.
pub open spec fn spec_tag(c: Command) -> Seq<char> {
    match c {
        Command::Restore => "restore"@,
        Command::SplitLeft => "splitleft"@,
        Command::SplitRight => "splitright"@,
        Command::Maximize => "maximize"@,
        Command::Save => "save"@,
        Command::Restart => "restart"@,
        Command::Quit => "quit"@,
    }
}

/// The command a tag names; a tag outside the vocabulary names none.
pub open spec fn spec_command_of_tag(s: Seq<char>) -> Option<Command> {
    if s == "restore"@ {
        Some(Command::Restore)
    } else if s == "splitleft"@ {
        Some(Command::SplitLeft)
    } else if s == "splitright"@ {
        Some(Command::SplitRight)
    } else if s == "maximize"@ {
        Some(Command::Maximize)
    } else if s == "save"@ {
        Some(Command::Save)
    } else if s == "restart"@ {
        Some(Command::Restart)
    } else if s == "quit"@ {
        Some(Command::Quit)
    } else {
        None
    }
}

pub fn command_key() -> (r: &'static str)
    ensures
        r@ == spec_command_key(),
{
    "command"
}

pub(crate) fn str_eq(a: &str, b: &str) -> (r: bool)
    ensures
        r == (a@ == b@),
{
    let sa: String = a.to_owned();
    let sb: String = b.to_owned();
    sa.eq(&sb)
}

impl Command {
    pub fn from_tag(tag: &str) -> (r: Option<Command>)
        ensures
            r == spec_command_of_tag(tag@),
    {
        if str_eq(tag, "restore") {
            Some(Command::Restore)
        } else if str_eq(tag, "splitleft") {
            Some(Command::SplitLeft)
        } else if str_eq(tag, "splitright") {
            Some(Command::SplitRight)
        } else if str_eq(tag, "maximize") {
            Some(Command::Maximize)
        } else if str_eq(tag, "save") {
            Some(Command::Save)
        } else if str_eq(tag, "restart") {
            Some(Command::Restart)
        } else if str_eq(tag, "quit") {
            Some(Command::Quit)
        } else {
            None
        }
    }

    pub fn tag(&self) -> (r: String)
        ensures
            r@ == spec_tag(*self),
    {
        match self {
            Command::Restore => "restore".to_owned(),
            Command::SplitLeft => "splitleft".to_owned(),
            Command::SplitRight => "splitright".to_owned(),
            Command::Maximize => "maximize".to_owned(),
            Command::Save => "save".to_owned(),
            Command::Restart => "restart".to_owned(),
            Command::Quit => "quit".to_owned(),
        }
    }
}

} // verus!
