//! The error type shared by every part of the pipeline.

use vstd::prelude::*;
use vstd::string::StringExecFns;

verus! {

/// The categories an error can fall into.
#[derive(Debug, Clone, Copy, PartialEq, Eq, Structural)]
pub enum BrixErrorKind {
    Io,
    Cli,
    Template,
    Validation,
    Parse,
    UnsupportedFormat,
    NotFound,
    UnknownOperation,
    Pattern,
    Execution,
}

/// An error with an optional category and a message for the user.
#[derive(Debug)]
pub struct BrixError {
    pub kind: Option<BrixErrorKind>,
    pub message: String,
}

impl BrixErrorKind {
    /// The word for the kind in messages.
    pub open spec fn spec_label(self) -> Seq<char> {
        match self {
            BrixErrorKind::Io => "IO"@,
            BrixErrorKind::Cli => "CLI"@,
            BrixErrorKind::Template => "Template"@,
            BrixErrorKind::Validation => "Validation"@,
            BrixErrorKind::Parse => "Parse"@,
            BrixErrorKind::UnsupportedFormat => "Format"@,
            BrixErrorKind::NotFound => "Lookup"@,
            BrixErrorKind::UnknownOperation => "Command"@,
            BrixErrorKind::Pattern => "Pattern"@,
            BrixErrorKind::Execution => "Execution"@,
        }
    }

    /// The word for the kind in messages.
    pub fn label(self) -> (l: &'static str)
        ensures
            l@ == self.spec_label(),
    {
        match self {
            BrixErrorKind::Io => "IO",
            BrixErrorKind::Cli => "CLI",
            BrixErrorKind::Template => "Template",
            BrixErrorKind::Validation => "Validation",
            BrixErrorKind::Parse => "Parse",
            BrixErrorKind::UnsupportedFormat => "Format",
            BrixErrorKind::NotFound => "Lookup",
            BrixErrorKind::UnknownOperation => "Command",
            BrixErrorKind::Pattern => "Pattern",
            BrixErrorKind::Execution => "Execution",
        }
    }
}

impl BrixError {
    /// The error as it is shown: the message, after the kind where there
    /// is one.
    pub open spec fn spec_display(&self) -> Seq<char> {
        match self.kind {
            Some(kind) => kind.spec_label() + " error: "@ + self.message@,
            None => self.message@,
        }
    }

    /// Writes the error as it is shown to the user.
    pub fn display(&self) -> (s: String)
        ensures
            s@ == self.spec_display(),
    {
        match self.kind {
            Some(kind) => String::from_str(kind.label()).concat(" error: ").concat(
                self.message.as_str(),
            ),
            None => self.message.clone(),
        }
    }

    /// An error that carries only a message.
    pub fn with(error: &str) -> (e: Self)
        ensures
            e.kind is None,
            e.message@ == error@,
    {
        BrixError { kind: None, message: String::from_str(error) }
    }
}

} // verus!
