//! From the name of an operation in a declaration to the operation.

use vstd::prelude::*;
use vstd::string::StringExecFns;
use crate::errors::{BrixError, BrixErrorKind};
use crate::text::{join2, lowercased, same_text, to_lowercase};

verus! {

/// The operations that a declaration can name.
#[derive(Debug, Clone, Copy, PartialEq, Eq, Structural)]
pub enum CommandKind {
    Copy,
    Exec,
    Mkdir,
    SearchReplace,
    Template,
}

impl CommandKind {
    /// The name under which a declaration asks for the operation.
    pub open spec fn spec_key(self) -> Seq<char> {
        match self {
            CommandKind::Copy => "copy"@,
            CommandKind::Exec => "exec"@,
            CommandKind::Mkdir => "mkdir"@,
            CommandKind::SearchReplace => "search_replace"@,
            CommandKind::Template => "template"@,
        }
    }

    /// The name under which a declaration asks for the operation.
    pub fn key(self) -> (k: &'static str)
        ensures
            k@ == self.spec_key(),
    {
        match self {
            CommandKind::Copy => "copy",
            CommandKind::Exec => "exec",
            CommandKind::Mkdir => "mkdir",
            CommandKind::SearchReplace => "search_replace",
            CommandKind::Template => "template",
        }
    }

    /// The name under which the operation's progress is reported.
    pub open spec fn spec_name(self) -> Seq<char> {
        match self {
            CommandKind::Copy => "copy"@,
            CommandKind::Exec => "exec"@,
            CommandKind::Mkdir => "mkdir"@,
            CommandKind::SearchReplace => "search and replace"@,
            CommandKind::Template => "template"@,
        }
    }

    /// The name under which the operation's progress is reported.
    pub fn name(self) -> (n: &'static str)
        ensures
            n@ == self.spec_name(),
    {
        match self {
            CommandKind::Copy => "copy",
            CommandKind::Exec => "exec",
            CommandKind::Mkdir => "mkdir",
            CommandKind::SearchReplace => "search and replace",
            CommandKind::Template => "template",
        }
    }
}

/// The operation that has the name `lowered`, a name in lower case.
pub open spec fn kind_of(lowered: Seq<char>) -> Option<CommandKind> {
    if lowered == "copy"@ {
        Some(CommandKind::Copy)
    } else if lowered == "exec"@ {
        Some(CommandKind::Exec)
    } else if lowered == "mkdir"@ {
        Some(CommandKind::Mkdir)
    } else if lowered == "search_replace"@ {
        Some(CommandKind::SearchReplace)
    } else if lowered == "template"@ {
        Some(CommandKind::Template)
    } else {
        None
    }
}

/// Finds the operation that has the name `lowered`, a name in lower case.
pub fn lookup(lowered: &str) -> (r: Option<CommandKind>)
    ensures
        r == kind_of(lowered@),
{
    if same_text(lowered, "copy") {
        Some(CommandKind::Copy)
    } else if same_text(lowered, "exec") {
        Some(CommandKind::Exec)
    } else if same_text(lowered, "mkdir") {
        Some(CommandKind::Mkdir)
    } else if same_text(lowered, "search_replace") {
        Some(CommandKind::SearchReplace)
    } else if same_text(lowered, "template") {
        Some(CommandKind::Template)
    } else {
        None
    }
}

/// Finds the operation that a declaration names, whatever the case of the
/// letters in the name.
pub fn dispatch(name: &str) -> (r: Option<CommandKind>)
    ensures
        r == kind_of(lowercased(name@)),
{
    let lowered = to_lowercase(name);
    lookup(lowered.as_str())
}

/// The names that a declaration can ask for, in the order in which a
/// closest name is looked for.
pub fn supported_commands() -> (names: Vec<String>)
    ensures
        names@.len() == 5,
        names@[0]@ == CommandKind::Copy.spec_key(),
        names@[1]@ == CommandKind::Exec.spec_key(),
        names@[2]@ == CommandKind::Mkdir.spec_key(),
        names@[3]@ == CommandKind::SearchReplace.spec_key(),
        names@[4]@ == CommandKind::Template.spec_key(),
{
    let mut names: Vec<String> = Vec::new();
    names.push(String::from_str(CommandKind::Copy.key()));
    names.push(String::from_str(CommandKind::Exec.key()));
    names.push(String::from_str(CommandKind::Mkdir.key()));
    names.push(String::from_str(CommandKind::SearchReplace.key()));
    names.push(String::from_str(CommandKind::Template.key()));
    names
}

/// The message for a name that no operation has, with the closest name that
/// one has, if any is close enough.
pub open spec fn unknown_message(name: Seq<char>, closest: Option<Seq<char>>) -> Seq<char> {
    match closest {
        Some(c) => "command '"@ + name + "' not found... did you mean '"@ + c + "'?"@,
        None => "command '"@ + name + "' not found"@,
    }
}

/// The error for a name that no operation has. `closest` is the supported
/// name that is most like `name`, where one is like enough to be suggested.
pub fn unknown_operation(name: &str, closest: Option<&str>) -> (e: BrixError)
    ensures
        e.kind == Some(BrixErrorKind::UnknownOperation),
        e.message@ == unknown_message(
            name@,
            match closest {
                Some(c) => Some(c@),
                None => None,
            },
        ),
{
    let message = match closest {
        Some(c) => join2("command '", name).concat("' not found... did you mean '").concat(
            c,
        ).concat("'?"),
        None => join2("command '", name).concat("' not found"),
    };
    BrixError { kind: Some(BrixErrorKind::UnknownOperation), message }
}

} // verus!
