//! Making a directory and all its ancestors.

use vstd::prelude::*;
use vstd::string::StringExecFns;
use crate::command::{
    missing_if, required_message, Command, ProcessedCommandParams, ValidationError,
};
use crate::errors::{BrixError, BrixErrorKind};

verus! {

/// The parameters of `mkdir`.
#[derive(Debug, PartialEq, Eq)]
pub struct MkdirParams {
    pub destination: String,
}

/// The `mkdir` operation.
#[derive(Debug)]
pub struct MkdirCommand {}

/// The required fields of `mkdir` that `pcp` lacks.
pub open spec fn mkdir_missing(pcp: ProcessedCommandParams) -> Seq<Seq<char>> {
    missing_if(pcp.destination is None, "destination"@)
}

impl MkdirCommand {
    /// The operation `mkdir`.
    pub fn new() -> Self {
        MkdirCommand {  }
    }

    /// Checks that the destination is given.
    pub fn from(&self, pcp: ProcessedCommandParams) -> (r: Result<MkdirParams, ValidationError>)
        ensures
            match r {
                Ok(p) => mkdir_missing(pcp).len() == 0 && pcp.destination == Some(p.destination),
                Err(e) => e@ == mkdir_missing(pcp) && e@.len() > 0,
            },
    {
        let mut missing = ValidationError::new();
        missing.require(pcp.destination.is_none(), "destination");
        match pcp.destination {
            Some(destination) => Ok(MkdirParams { destination }),
            None => Err(missing),
        }
    }
}

impl MkdirCommand {
    /// The directory that the operation is to make; the caller makes it and
    /// all its ancestors, and is content where they are there already.
    pub fn run(&self, pcp: ProcessedCommandParams) -> (r: Result<String, BrixError>)
        ensures
            match r {
                Ok(dir) => pcp.destination == Some(dir),
                Err(e) => pcp.destination is None && e.kind == Some(BrixErrorKind::Validation)
                    && e.message@ == required_message(mkdir_missing(pcp)),
            },
    {
        match self.from(pcp) {
            Ok(params) => Ok(params.destination),
            Err(missing) => Err(missing.into_error()),
        }
    }
}

impl Command for MkdirCommand {
    open spec fn spec_name(&self) -> Seq<char> {
        "mkdir"@
    }

    fn name(&self) -> (n: String) {
        String::from_str("mkdir")
    }
}

} // verus!
