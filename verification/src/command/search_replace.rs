//! Replacing every match of a pattern in a file's contents.

use vstd::prelude::*;
use vstd::string::StringExecFns;
use fancy_regex::Regex;
use crate::command::{
    missing_if, required_message, Command, ProcessedCommandParams, ValidationError,
};
use crate::errors::{BrixError, BrixErrorKind};

verus! {

/// The text of the error with which `fancy_regex::Regex::new` refuses
/// `pattern`; `None` where it accepts the pattern.
pub uninterp spec fn regex_compile_error(pattern: Seq<char>) -> Option<Seq<char>>;

/// Whether `pattern` compiles.
pub open spec fn regex_compiles(pattern: Seq<char>) -> bool {
    regex_compile_error(pattern) is None
}

/// What `fancy_regex::Regex::is_match` returns for the regex of `pattern`
/// on `text`: whether it matches anywhere, or the text of the error of a
/// run that failed.
pub uninterp spec fn regex_is_match(pattern: Seq<char>, text: Seq<char>) -> Result<bool, Seq<char>>;

/// What `fancy_regex::Regex::try_replacen` returns for the regex of
/// `pattern` on `text` with no limit and the replacement `rep`: the text
/// with every match replaced, or the text of the error of a run that
/// failed.
pub uninterp spec fn regex_replaced(pattern: Seq<char>, text: Seq<char>, rep: Seq<char>) -> Result<
    Seq<char>,
    Seq<char>,
>;

/// Calls `Regex::new` on `pattern` and `Regex::is_match` on the result with
/// `text`; an error comes back as the text that its `Display` writes. The
/// outcome of compiling is given the name `regex_compile_error`, that of
/// the match the name `regex_is_match`.
#[verifier::external_body]
fn is_match(pattern: &str, text: &str) -> (r: Result<bool, String>)
    ensures
        match regex_compile_error(pattern@) {
            Some(refusal) => r is Err && r->Err_0@ == refusal,
            None => match r {
                Ok(b) => regex_is_match(pattern@, text@) == Ok::<bool, Seq<char>>(b),
                Err(e) => regex_is_match(pattern@, text@) == Err::<bool, Seq<char>>(e@),
            },
        },
{
    let regex = Regex::new(pattern).map_err(|e| e.to_string())?;
    regex.is_match(text).map_err(|e| e.to_string())
}

/// Calls `Regex::new` on `pattern` and `Regex::try_replacen` on the result
/// with `text`, the limit 0, which stands for every match, and `rep`; an
/// error comes back as the text that its `Display` writes. The outcome of
/// the replacing is given the name `regex_replaced`.
#[verifier::external_body]
fn replace_all(pattern: &str, text: &str, rep: &str) -> (r: Result<String, String>)
    ensures
        match regex_compile_error(pattern@) {
            Some(refusal) => r is Err && r->Err_0@ == refusal,
            None => match r {
                Ok(s) => regex_replaced(pattern@, text@, rep@) == Ok::<Seq<char>, Seq<char>>(s@),
                Err(e) => regex_replaced(pattern@, text@, rep@) == Err::<Seq<char>, Seq<char>>(
                    e@,
                ),
            },
        },
{
    let regex = Regex::new(pattern).map_err(|e| e.to_string())?;
    regex.try_replacen(text, 0, rep).map(|s| s.into_owned()).map_err(|e| e.to_string())
}

/// The parameters of `search_replace`.
#[derive(Debug, PartialEq, Eq)]
pub struct SearchReplaceParams {
    pub destination: String,
    pub search: String,
    pub replace: String,
}

/// The `search_replace` operation.
#[derive(Debug)]
pub struct SearchReplaceCommand {}

/// The required fields of `search_replace` that `pcp` lacks.
pub open spec fn search_replace_missing(pcp: ProcessedCommandParams) -> Seq<Seq<char>> {
    missing_if(pcp.destination is None, "destination"@) + missing_if(
        pcp.search is None,
        "search"@,
    ) + missing_if(pcp.replace is None, "replace"@)
}

/// The new contents of a file whose contents are `data`: `data` itself
/// where the pattern matches nowhere, else `data` with every match
/// replaced; or the text of the error, where the pattern does not compile
/// or a run fails.
pub open spec fn replaced_contents(search: Seq<char>, replace: Seq<char>, data: Seq<char>) -> Result<
    Seq<char>,
    Seq<char>,
> {
    match regex_compile_error(search) {
        Some(refusal) => Err(refusal),
        None => match regex_is_match(search, data) {
            Ok(false) => Ok(data),
            Ok(true) => regex_replaced(search, data, replace),
            Err(failure) => Err(failure),
        },
    }
}

/// Replacing a pattern that matches nowhere leaves the contents as they
/// were.
pub proof fn lemma_no_match_keeps_contents(search: Seq<char>, replace: Seq<char>, data: Seq<char>)
    requires
        regex_compiles(search),
        regex_is_match(search, data) == Ok::<bool, Seq<char>>(false),
    ensures
        replaced_contents(search, replace, data) == Ok::<Seq<char>, Seq<char>>(data),
{
}

/// The error for a pattern that cannot be used, with the text of what went
/// wrong.
pub fn pattern_error(message: String) -> (e: BrixError)
    ensures
        e.kind == Some(BrixErrorKind::Pattern),
        e.message == message,
{
    BrixError { kind: Some(BrixErrorKind::Pattern), message }
}

impl SearchReplaceCommand {
    /// The operation `search_replace`.
    pub fn new() -> Self {
        SearchReplaceCommand {  }
    }

    /// Checks that destination, search and replace are given.
    pub fn from(&self, pcp: ProcessedCommandParams) -> (r: Result<
        SearchReplaceParams,
        ValidationError,
    >)
        ensures
            match r {
                Ok(p) => search_replace_missing(pcp).len() == 0 && pcp.destination == Some(
                    p.destination,
                ) && pcp.search == Some(p.search) && pcp.replace == Some(p.replace),
                Err(e) => e@ == search_replace_missing(pcp) && e@.len() > 0,
            },
    {
        let mut missing = ValidationError::new();
        missing.require(pcp.destination.is_none(), "destination");
        missing.require(pcp.search.is_none(), "search");
        missing.require(pcp.replace.is_none(), "replace");
        match (pcp.destination, pcp.search, pcp.replace) {
            (Some(destination), Some(search), Some(replace)) => Ok(
                SearchReplaceParams { destination, search, replace },
            ),
            _ => Err(missing),
        }
    }

    /// The contents that are written back to the destination, given the
    /// contents `data` that were read from it.
    pub fn apply(&self, params: &SearchReplaceParams, data: &str) -> (r: Result<String, BrixError>)
        ensures
            match r {
                Ok(s) => replaced_contents(params.search@, params.replace@, data@) == Ok::<
                    Seq<char>,
                    Seq<char>,
                >(s@),
                Err(e) => e.kind == Some(BrixErrorKind::Pattern) && replaced_contents(
                    params.search@,
                    params.replace@,
                    data@,
                ) == Err::<Seq<char>, Seq<char>>(e.message@),
            },
    {
        match is_match(params.search.as_str(), data) {
            Err(message) => Err(pattern_error(message)),
            Ok(false) => Ok(String::from_str(data)),
            Ok(true) => match replace_all(params.search.as_str(), data, params.replace.as_str()) {
                Ok(s) => Ok(s),
                Err(message) => Err(pattern_error(message)),
            },
        }
    }
}

/// What the operation does next.
#[derive(Debug)]
pub enum ReplaceAction {
    /// Read the file at `path` and come back with its contents.
    Read { path: String },
    /// Write `contents` to the file at `path`; the operation is then over.
    Write { path: String, contents: String },
    /// The operation failed.
    Fail { error: BrixError },
}

/// Whether `action` is what the operation with the parameters `pcp` does
/// next, `data` being the contents of the destination once they were read:
/// it fails with every missing field before anything is read; then it has
/// the destination read; then it has the new contents written back, which
/// are the old ones where the pattern matches nowhere, or fails with the
/// error of the pattern.
pub open spec fn replace_run_holds(
    pcp: ProcessedCommandParams,
    data: Option<Seq<char>>,
    action: ReplaceAction,
) -> bool {
    if search_replace_missing(pcp).len() > 0 {
        action is Fail && action->error.kind == Some(BrixErrorKind::Validation)
            && action->error.message@ == required_message(search_replace_missing(pcp))
    } else {
        match data {
            None => action is Read && action->Read_path@ == pcp.destination->0@,
            Some(contents) => match replaced_contents(
                pcp.search->0@,
                pcp.replace->0@,
                contents,
            ) {
                Ok(new) => action is Write && action->Write_path@ == pcp.destination->0@
                    && action->contents@ == new,
                Err(failure) => action is Fail && action->error.kind == Some(
                    BrixErrorKind::Pattern,
                ) && action->error.message@ == failure,
            },
        }
    }
}

impl SearchReplaceCommand {
    /// Takes the operation one step further. The caller starts without
    /// data, reads the file it is told to read, and comes back with its
    /// contents.
    pub fn run(&self, pcp: &ProcessedCommandParams, data: Option<&str>) -> (action: ReplaceAction)
        ensures
            replace_run_holds(
                *pcp,
                match data {
                    Some(d) => Some(d@),
                    None => None,
                },
                action,
            ),
    {
        let mut missing = ValidationError::new();
        missing.require(pcp.destination.is_none(), "destination");
        missing.require(pcp.search.is_none(), "search");
        missing.require(pcp.replace.is_none(), "replace");
        match (&pcp.destination, &pcp.search, &pcp.replace) {
            (Some(destination), Some(search), Some(replace)) => {
                match data {
                    None => ReplaceAction::Read { path: destination.clone() },
                    Some(contents) => {
                        let params = SearchReplaceParams {
                            destination: destination.clone(),
                            search: search.clone(),
                            replace: replace.clone(),
                        };
                        match self.apply(&params, contents) {
                            Ok(new) => ReplaceAction::Write {
                                path: params.destination,
                                contents: new,
                            },
                            Err(error) => ReplaceAction::Fail { error },
                        }
                    },
                }
            },
            _ => ReplaceAction::Fail { error: missing.into_error() },
        }
    }
}

impl Command for SearchReplaceCommand {
    open spec fn spec_name(&self) -> Seq<char> {
        "search and replace"@
    }

    fn name(&self) -> (n: String) {
        String::from_str("search and replace")
    }
}

} // verus!
