//! Copying a file.

use vstd::prelude::*;
use vstd::string::StringExecFns;
use crate::command::overwrite::OverwritableCommand;
use crate::command::{
    missing_if, Command, OverwritableParams, ProcessedCommandParams, ValidationError,
};

verus! {

/// The parameters of `copy`.
#[derive(Debug, PartialEq, Eq)]
pub struct CopyParams {
    pub source: String,
    pub destination: String,
    pub overwrite: Option<bool>,
}

impl OverwritableParams for CopyParams {
    open spec fn spec_source(&self) -> Seq<char> {
        self.source@
    }

    open spec fn spec_destination(&self) -> Seq<char> {
        self.destination@
    }

    open spec fn spec_overwrite(&self) -> Option<bool> {
        self.overwrite
    }

    fn source(&self) -> (s: String) {
        self.source.clone()
    }

    fn destination(&self) -> (d: String) {
        self.destination.clone()
    }

    fn overwrite(&self) -> (o: Option<bool>) {
        self.overwrite
    }
}

/// The `copy` operation.
#[derive(Debug)]
pub struct CopyCommand {}

/// The required fields of `copy` that `pcp` lacks.
pub open spec fn copy_missing(pcp: ProcessedCommandParams) -> Seq<Seq<char>> {
    missing_if(pcp.source is None, "source"@) + missing_if(
        pcp.destination is None,
        "destination"@,
    )
}

impl CopyCommand {
    /// The operation `copy`.
    pub fn new() -> Self {
        CopyCommand {  }
    }
}

impl OverwritableCommand for CopyCommand {
    type Params = CopyParams;

    open spec fn missing(&self, pcp: ProcessedCommandParams) -> Seq<Seq<char>> {
        copy_missing(pcp)
    }

    /// Checks that source and destination are given.
    fn from(&self, pcp: ProcessedCommandParams) -> (r: Result<CopyParams, ValidationError>)
        ensures
            match r {
                Ok(p) => copy_missing(pcp).len() == 0 && pcp.source == Some(p.source)
                    && pcp.destination == Some(p.destination) && p.overwrite == pcp.overwrite,
                Err(e) => e@ == copy_missing(pcp) && e@.len() > 0,
            },
    {
        let mut missing = ValidationError::new();
        missing.require(pcp.source.is_none(), "source");
        missing.require(pcp.destination.is_none(), "destination");
        match (pcp.source, pcp.destination) {
            (Some(source), Some(destination)) => Ok(
                CopyParams { source, destination, overwrite: pcp.overwrite },
            ),
            _ => Err(missing),
        }
    }
}

impl Command for CopyCommand {
    open spec fn spec_name(&self) -> Seq<char> {
        "copy"@
    }

    fn name(&self) -> (n: String) {
        String::from_str("copy")
    }
}

} // verus!
