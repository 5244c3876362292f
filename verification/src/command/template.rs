//! Rendering a file as a template.

use vstd::prelude::*;
use vstd::string::StringExecFns;
use crate::command::overwrite::OverwritableCommand;
use crate::command::{
    missing_if, Command, OverwritableParams, ProcessedCommandParams, ValidationError,
};
use crate::context::StdContext;
use crate::errors::{BrixError, BrixErrorKind};
use crate::processor::{has_marker, render_failure, rendered, ProcessorCore};

verus! {

/// The parameters of `template`.
#[derive(Debug)]
pub struct TemplateParams {
    pub source: String,
    pub destination: String,
    pub overwrite: Option<bool>,
    pub context: Option<StdContext>,
}

impl OverwritableParams for TemplateParams {
    open spec fn spec_source(&self) -> Seq<char> {
        self.source@
    }

    open spec fn spec_destination(&self) -> Seq<char> {
        self.destination@
    }

    open spec fn spec_overwrite(&self) -> Option<bool> {
        self.overwrite
    }

    fn source(&self) -> (s: String) {
        self.source.clone()
    }

    fn destination(&self) -> (d: String) {
        self.destination.clone()
    }

    fn overwrite(&self) -> (o: Option<bool>) {
        self.overwrite
    }
}

/// The `template` operation.
#[derive(Debug)]
pub struct TemplateCommand {}

/// The required fields of `template` that `pcp` lacks.
pub open spec fn template_missing(pcp: ProcessedCommandParams) -> Seq<Seq<char>> {
    missing_if(pcp.source is None, "source"@) + missing_if(
        pcp.destination is None,
        "destination"@,
    )
}

/// The context that a template is rendered against: the operation's own,
/// or an empty one where it has none.
pub open spec fn template_context(params: TemplateParams) -> Map<Seq<char>, Seq<char>> {
    match params.context {
        Some(c) => c@,
        None => Map::empty(),
    }
}

impl TemplateCommand {
    /// The operation `template`.
    pub fn new() -> Self {
        TemplateCommand {  }
    }
}

impl OverwritableCommand for TemplateCommand {
    type Params = TemplateParams;

    open spec fn missing(&self, pcp: ProcessedCommandParams) -> Seq<Seq<char>> {
        template_missing(pcp)
    }

    /// Checks that source and destination are given.
    fn from(&self, pcp: ProcessedCommandParams) -> (r: Result<TemplateParams, ValidationError>)
        ensures
            match r {
                Ok(p) => template_missing(pcp).len() == 0 && pcp.source == Some(p.source)
                    && pcp.destination == Some(p.destination) && p.overwrite == pcp.overwrite
                    && p.context == pcp.context,
                Err(e) => e@ == template_missing(pcp) && e@.len() > 0,
            },
    {
        let mut missing = ValidationError::new();
        missing.require(pcp.source.is_none(), "source");
        missing.require(pcp.destination.is_none(), "destination");
        match (pcp.source, pcp.destination) {
            (Some(source), Some(destination)) => Ok(
                TemplateParams {
                    source,
                    destination,
                    overwrite: pcp.overwrite,
                    context: pcp.context,
                },
            ),
            _ => Err(missing),
        }
    }

}

impl TemplateCommand {
    /// What is written to the destination: the contents of the source,
    /// rendered against the operation's context.
    pub fn render(&self, params: &TemplateParams, contents: &str, processor: &ProcessorCore) -> (r:
        Result<String, BrixError>)
        ensures
            match r {
                Ok(s) => rendered(contents@, template_context(*params)) == Some(s@),
                Err(e) => rendered(contents@, template_context(*params)) is None && e.kind
                    == Some(BrixErrorKind::Template) && e.message@ == render_failure(
                    contents@,
                    template_context(*params),
                ),
            },
            !has_marker(contents@) ==> r is Ok && r->Ok_0@ == contents@,
    {
        match &params.context {
            Some(context) => processor.process(contents, context),
            None => {
                let empty = StdContext::new();
                processor.process(contents, &empty)
            },
        }
    }
}

impl Command for TemplateCommand {
    open spec fn spec_name(&self) -> Seq<char> {
        "template"@
    }

    fn name(&self) -> (n: String) {
        String::from_str("template")
    }
}

} // verus!
