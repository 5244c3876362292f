//! From a declaration to the list of operations it asks for, each with its
//! parameters resolved.

use vstd::prelude::*;
use vstd::string::StringExecFns;
use crate::command::ProcessedCommandParams;
use crate::config::Config;
use crate::context::{cli_config_to_map, cli_tier, merged_tiers, ContextMap, StdContext};
use crate::dispatch::{dispatch, kind_of, CommandKind};
use crate::errors::{BrixError, BrixErrorKind};
use crate::declaration::{config_decoded, config_shaped, Node};
use crate::parsers::{parsed, ConfigParser};
use crate::paths::{join, joined};
use crate::processor::{render_failure, rendered, ProcessorCore};
use crate::resolver::{resolution_fails_with, resolve, resolved, tag_error, tag_of};
use crate::text::{clone_texts, join2, lowercased, replace, replaced};

verus! {

/// The parameters of one operation as the declaration gives them.
#[derive(Debug)]
pub struct RawCommandParams {
    pub source: Option<String>,
    pub destination: Option<String>,
    pub overwrite: Option<bool>,
    pub search: Option<String>,
    pub replace: Option<String>,
    pub commands: Option<Vec<String>>,
    pub stdout: Option<bool>,
    pub context: Option<StdContext>,
}

/// A declaration: an optional context for all operations, and the
/// operations by name, in the order in which they are to run.
#[derive(Debug)]
pub struct RawConfig {
    pub context: Option<StdContext>,
    pub commands: Vec<(String, RawCommandParams)>,
}

/// The view of an optional string.
pub open spec fn text_of(field: Option<String>) -> Option<Seq<char>> {
    match field {
        Some(s) => Some(s@),
        None => None,
    }
}

/// Whether a field, where it is given, renders against `ctx`.
pub open spec fn field_renders(field: Option<String>, ctx: Map<Seq<char>, Seq<char>>) -> bool {
    field is Some ==> rendered(field->0@, ctx) is Some
}

/// A field rendered against `ctx`.
pub open spec fn rendered_field(field: Option<String>, ctx: Map<Seq<char>, Seq<char>>) -> Option<
    Seq<char>,
> {
    match field {
        Some(s) => rendered(s@, ctx),
        None => None,
    }
}

/// Whether every command of a list, where one is given, renders.
pub open spec fn commands_render(commands: Option<Vec<String>>, ctx: Map<Seq<char>, Seq<char>>) -> bool {
    commands is Some ==> forall|i: int|
        0 <= i < commands->0@.len() ==> (#[trigger] rendered(commands->0@[i]@, ctx)) is Some
}

/// Whether `message` is the message for the first command of the list that
/// does not render: the message of that failure after the tag of
/// `commands`.
pub open spec fn command_blamed(
    commands: Option<Vec<String>>,
    ctx: Map<Seq<char>, Seq<char>>,
    message: Seq<char>,
) -> bool {
    commands is Some && exists|i: int|
        0 <= i < commands->0@.len() && rendered(commands->0@[i]@, ctx) is None && message
            == tag_of("commands"@) + #[trigger] render_failure(commands->0@[i]@, ctx)
            && forall|j: int|
            0 <= j < i ==> (#[trigger] rendered(commands->0@[j]@, ctx)) is Some
}

/// Whether `out` is `commands` with every command rendered.
pub open spec fn commands_rendered(
    commands: Option<Vec<String>>,
    ctx: Map<Seq<char>, Seq<char>>,
    out: Option<Vec<String>>,
) -> bool {
    match commands {
        Some(list) => out is Some && out->0@.len() == list@.len() && forall|i: int|
            0 <= i < list@.len() ==> rendered(list@[i]@, ctx) == Some((#[trigger] out->0@[i])@),
        None => out is None,
    }
}

/// `s` with the two characters backslash and `n` read as a line feed and
/// the two characters backslash and `t` read as a tab.
pub open spec fn unescaped(s: Seq<char>) -> Seq<char> {
    replaced(replaced(s, "\\n"@, "\n"@), "\\t"@, "\t"@)
}

/// Reads the written-out line feeds and tabs of `s`.
pub fn unescape(s: &str) -> (r: String)
    ensures
        r@ == unescaped(s@),
{
    let lines = replace(s, "\\n", "\n");
    replace(lines.as_str(), "\\t", "\t")
}

/// The local tier of an operation.
pub open spec fn local_tier(raw: RawCommandParams) -> Map<Seq<char>, Seq<char>> {
    match raw.context {
        Some(c) => c@,
        None => Map::empty(),
    }
}

/// The global tier of a declaration.
pub open spec fn global_tier(context: Option<StdContext>) -> Map<Seq<char>, Seq<char>> {
    match context {
        Some(c) => c@,
        None => Map::empty(),
    }
}

/// Whether every string of `raw` renders against `ctx`.
pub open spec fn params_render(raw: RawCommandParams, ctx: Map<Seq<char>, Seq<char>>) -> bool {
    &&& field_renders(raw.source, ctx)
    &&& field_renders(raw.destination, ctx)
    &&& field_renders(raw.search, ctx)
    &&& field_renders(raw.replace, ctx)
    &&& commands_render(raw.commands, ctx)
}

/// `f` applied to what an option holds.
pub open spec fn map_text(o: Option<Seq<char>>, f: spec_fn(Seq<char>) -> Seq<char>) -> Option<
    Seq<char>,
> {
    match o {
        Some(s) => Some(f(s)),
        None => None,
    }
}

/// Whether `out` holds the parameters `raw`, every string rendered against
/// `ctx`, the source seen from `config_dir`, the destination seen from
/// `workdir`, and the written-out line feeds and tabs of `search` and
/// `replace` read.
pub open spec fn params_processed(
    raw: RawCommandParams,
    ctx: Map<Seq<char>, Seq<char>>,
    config_dir: Seq<char>,
    workdir: Seq<char>,
    out: ProcessedCommandParams,
) -> bool {
    &&& text_of(out.source) == map_text(
        rendered_field(raw.source, ctx),
        |s: Seq<char>| joined(config_dir, s),
    )
    &&& text_of(out.destination) == map_text(
        rendered_field(raw.destination, ctx),
        |s: Seq<char>| joined(workdir, s),
    )
    &&& text_of(out.search) == map_text(
        rendered_field(raw.search, ctx),
        |s: Seq<char>| unescaped(s),
    )
    &&& text_of(out.replace) == map_text(
        rendered_field(raw.replace, ctx),
        |s: Seq<char>| unescaped(s),
    )
    &&& commands_rendered(raw.commands, ctx, out.commands)
    &&& out.overwrite == raw.overwrite
    &&& out.stdout == raw.stdout
}

fn render_field(
    field: &Option<String>,
    name: &str,
    context: &StdContext,
    processor: &ProcessorCore,
) -> (r: Result<Option<String>, BrixError>)
    ensures
        match r {
            Ok(out) => field_renders(*field, context@) && text_of(out) == rendered_field(
                *field,
                context@,
            ),
            Err(e) => !field_renders(*field, context@) && e.kind == Some(BrixErrorKind::Template)
                && e.message@ == tag_of(name@) + render_failure(field->0@, context@),
        },
{
    match field {
        Some(text) => match processor.process(text.as_str(), context) {
            Ok(out) => Ok(Some(out)),
            Err(err) => Err(tag_error(name, err)),
        },
        None => Ok(None),
    }
}

fn render_commands(
    commands: &Option<Vec<String>>,
    context: &StdContext,
    processor: &ProcessorCore,
) -> (r: Result<Option<Vec<String>>, BrixError>)
    ensures
        match r {
            Ok(out) => commands_render(*commands, context@) && commands_rendered(
                *commands,
                context@,
                out,
            ),
            Err(e) => !commands_render(*commands, context@) && e.kind == Some(
                BrixErrorKind::Template,
            ) && command_blamed(*commands, context@, e.message@),
        },
{
    match commands {
        Some(list) => {
            let mut out: Vec<String> = Vec::new();
            let mut i: usize = 0;
            while i < list.len()
                invariant
                    i <= list@.len(),
                    *commands == Some(*list),
                    out@.len() == i,
                    forall|j: int|
                        0 <= j < i ==> rendered(list@[j]@, context@) == Some(
                            (#[trigger] out@[j])@,
                        ),
                decreases list@.len() - i,
            {
                match processor.process(list[i].as_str(), context) {
                    Ok(text) => {
                        out.push(text);
                    },
                    Err(err) => {
                        assert(rendered(list@[i as int]@, context@) is None);
                        assert(!commands_render(*commands, context@));
                        let tagged_error = tag_error("commands", err);
                        proof {
                            assert forall|j: int| 0 <= j < i implies (#[trigger] rendered(
                                list@[j]@,
                                context@,
                            )) is Some by {
                                assert(rendered(list@[j]@, context@) == Some(out@[j]@));
                            }
                            assert(tagged_error.message@ == tag_of("commands"@) + render_failure(
                                list@[i as int]@,
                                context@,
                            ));
                            assert(command_blamed(*commands, context@, tagged_error.message@));
                        }
                        return Err(tagged_error);
                    },
                }
                i += 1;
            }
            assert forall|j: int| 0 <= j < list@.len() implies (#[trigger] rendered(
                list@[j]@,
                context@,
            )) is Some by {
                assert(rendered(list@[j]@, context@) == Some(out@[j]@));
            }
            Ok(Some(out))
        },
        None => Ok(None),
    }
}

/// What went wrong with a declaration's list of operations.
#[derive(Debug)]
pub enum ProcessFailure {
    /// The declaration names an operation that there is not. The caller may
    /// look for the supported name closest to it and report both.
    Unknown { name: String },
    /// A context or a parameter of an operation could not be rendered.
    Failed { error: BrixError },
}

/// The operations of a declaration with their parameters, in the order in
/// which they run.
pub type CommandList = Vec<(CommandKind, ProcessedCommandParams)>;

/// The context of the operation `raw` in a declaration with the context
/// `global`, before it is expanded.
pub open spec fn merged_context(config: Config, global: Option<StdContext>, raw: RawCommandParams) -> Map<
    Seq<char>,
    Seq<char>,
> {
    merged_tiers(cli_tier(config), global_tier(global), local_tier(raw))
}

/// Whether the operation `raw`, named `name`, can be processed: there is an
/// operation of that name, its context expands fully, and its strings
/// render against the expanded context.
pub open spec fn entry_ok(config: Config, global: Option<StdContext>, name: Seq<char>, raw: RawCommandParams) -> bool {
    &&& kind_of(lowercased(name)) is Some
    &&& resolved(merged_context(config, global, raw)) is Some
    &&& params_render(raw, resolved(merged_context(config, global, raw))->0)
}

/// Whether `out` is what processing the operation `raw`, named `name`,
/// gives.
pub open spec fn entry_processed(
    config: Config,
    global: Option<StdContext>,
    config_dir: Seq<char>,
    name: Seq<char>,
    raw: RawCommandParams,
    out: (CommandKind, ProcessedCommandParams),
) -> bool {
    &&& kind_of(lowercased(name)) == Some(out.0)
    &&& params_processed(
        raw,
        resolved(merged_context(config, global, raw))->0,
        config_dir,
        config.workdir@,
        out.1,
    )
    &&& out.1.context is Some
    &&& out.1.context->0@ == resolved(merged_context(config, global, raw))->0
}

/// Whether `message` is the message for the first of the fields of `raw`
/// that does not render against `ctx`: the message of that failure after
/// the tag of the field.
pub open spec fn field_blamed(
    raw: RawCommandParams,
    ctx: Map<Seq<char>, Seq<char>>,
    message: Seq<char>,
) -> bool {
    if !field_renders(raw.source, ctx) {
        message == tag_of("source"@) + render_failure(raw.source->0@, ctx)
    } else if !field_renders(raw.destination, ctx) {
        message == tag_of("destination"@) + render_failure(raw.destination->0@, ctx)
    } else if !field_renders(raw.search, ctx) {
        message == tag_of("search"@) + render_failure(raw.search->0@, ctx)
    } else if !field_renders(raw.replace, ctx) {
        message == tag_of("replace"@) + render_failure(raw.replace->0@, ctx)
    } else {
        command_blamed(raw.commands, ctx, message)
    }
}

/// Whether `failure` is what processing the operation `raw`, named `name`,
/// fails with: the name, where there is no operation of that name; else a
/// template error: that of the first field that does not render, after the
/// field's tag, or, where the context does not expand, the error of the
/// expansion.
pub open spec fn entry_failed(
    config: Config,
    global: Option<StdContext>,
    name: Seq<char>,
    raw: RawCommandParams,
    failure: ProcessFailure,
) -> bool {
    match failure {
        ProcessFailure::Unknown { name: unknown } => kind_of(lowercased(name)) is None
            && unknown@ == name,
        ProcessFailure::Failed { error } => kind_of(lowercased(name)) is Some && error.kind
            == Some(BrixErrorKind::Template) && if resolved(merged_context(config, global, raw))
            is Some {
            field_blamed(raw, resolved(merged_context(config, global, raw))->0, error.message@)
        } else {
            resolution_fails_with(merged_context(config, global, raw), error.message@)
        },
    }
}

/// Whether `r` is what processing the declaration `raw` gives: every
/// operation processed, in the declared order; or what the first operation
/// that cannot be processed fails with.
pub open spec fn process_holds(
    config: Config,
    config_dir: Seq<char>,
    raw: RawConfig,
    r: Result<CommandList, ProcessFailure>,
) -> bool {
    match r {
        Ok(list) => list@.len() == raw.commands@.len() && forall|i: int|
            0 <= i < list@.len() ==> entry_ok(
                config,
                raw.context,
                raw.commands@[i].0@,
                raw.commands@[i].1,
            ) && entry_processed(
                config,
                raw.context,
                config_dir,
                raw.commands@[i].0@,
                raw.commands@[i].1,
                #[trigger] list@[i],
            ),
        Err(failure) => exists|i: int|
            0 <= i < raw.commands@.len() && !entry_ok(
                config,
                raw.context,
                (#[trigger] raw.commands@[i]).0@,
                raw.commands@[i].1,
            ) && entry_failed(
                config,
                raw.context,
                raw.commands@[i].0@,
                raw.commands@[i].1,
                failure,
            ) && forall|j: int|
                0 <= j < i ==> entry_ok(
                    config,
                    raw.context,
                    (#[trigger] raw.commands@[j]).0@,
                    raw.commands@[j].1,
                ),
    }
}

fn duplicate_or_empty(context: &Option<StdContext>) -> (c: StdContext)
    ensures
        c@ == global_tier(*context),
{
    match context {
        Some(c) => c.duplicate(),
        None => StdContext::new(),
    }
}

/// A declaration file that was found, with the parts of its path.
#[derive(Debug)]
pub struct Candidate {
    /// The whole path.
    pub path: String,
    /// The directory that holds the file.
    pub parent: String,
    /// The name of the file in that directory.
    pub file_name: String,
    /// What follows the last dot of the name, if it has one.
    pub extension: Option<String>,
}

/// What remains to be done once the candidates were looked through.
#[derive(Debug)]
pub enum LoadStep {
    /// The declaration is the file at `path`.
    Chosen { path: String },
    /// More than one file can be read: the user picks one of `names`, and
    /// `select` is told the index.
    Select { names: Vec<String> },
}

/// Whether one of the parsers with these extensions reads `extension`.
pub open spec fn reads(extensions: Seq<Seq<Seq<char>>>, extension: Option<String>) -> bool {
    extension is Some && exists|i: int|
        0 <= i < extensions.len() && (#[trigger] extensions[i]).contains(extension->0@)
}

/// The candidates among `files` that a parser reads, in their order.
pub open spec fn readable(extensions: Seq<Seq<Seq<char>>>, files: Seq<Candidate>) -> Seq<Candidate>
    decreases files.len(),
{
    if files.len() == 0 {
        Seq::empty()
    } else if reads(extensions, files.last().extension) {
        readable(extensions, files.drop_last()).push(files.last())
    } else {
        readable(extensions, files.drop_last())
    }
}

/// The paths of `files`.
pub open spec fn paths_of(files: Seq<Candidate>) -> Seq<Seq<char>> {
    Seq::new(files.len(), |i: int| files[i].path@)
}

/// The file names of `files`.
pub open spec fn file_names_of(files: Seq<Candidate>) -> Seq<Seq<char>> {
    Seq::new(files.len(), |i: int| files[i].file_name@)
}

/// Finds the declaration among candidate files and turns it into
/// operations.
pub struct ConfigLoader<'a, P: ConfigParser> {
    parsers: Vec<P>,
    chosen: Option<Candidate>,
    config_dir: Option<String>,
    cli_config: &'a Config,
    possible: Vec<Candidate>,
}

impl<'a, P: ConfigParser> ConfigLoader<'a, P> {
    /// The extensions of each parser.
    pub closed spec fn extensions(&self) -> Seq<Seq<Seq<char>>> {
        Seq::new(self.parsers@.len(), |i: int| self.parsers@[i].spec_extensions())
    }

    /// The path of the declaration, once one was chosen.
    pub closed spec fn config_file(&self) -> Option<Seq<char>> {
        match self.chosen {
            Some(c) => Some(c.path@),
            None => None,
        }
    }

    /// The extension of the declaration, once one was chosen.
    pub closed spec fn config_extension(&self) -> Option<String> {
        match self.chosen {
            Some(c) => c.extension,
            None => None,
        }
    }

    /// The directory of the declaration, from which sources are seen; empty
    /// until candidates were loaded.
    pub closed spec fn config_dir(&self) -> Seq<char> {
        match self.config_dir {
            Some(d) => d@,
            None => Seq::empty(),
        }
    }

    /// The values of the invocation.
    pub closed spec fn config(&self) -> Config {
        *self.cli_config
    }

    /// The files among which the user can choose.
    pub closed spec fn possible(&self) -> Seq<Candidate> {
        self.possible@
    }

    /// A loader that has seen no file yet.
    pub fn new(parsers: Vec<P>, cli_config: &'a Config) -> (l: Self)
        ensures
            l.config() == *cli_config,
            l.config_file() is None,
            l.config_dir() == Seq::<char>::empty(),
            l.possible().len() == 0,
            l.extensions() == Seq::new(parsers@.len(), |i: int| parsers@[i].spec_extensions()),
    {
        ConfigLoader { parsers, cli_config, chosen: None, config_dir: None, possible: Vec::new() }
    }

    /// Whether a parser reads files with this extension.
    pub fn supports(&self, extension: &Option<String>) -> (r: bool)
        ensures
            r == reads(self.extensions(), *extension),
    {
        match extension {
            Some(ext) => {
                let mut i: usize = 0;
                while i < self.parsers.len()
                    invariant
                        i <= self.parsers@.len(),
                        *extension == Some(*ext),
                        forall|j: int|
                            0 <= j < i ==> !(#[trigger] self.extensions()[j]).contains(ext@),
                    decreases self.parsers@.len() - i,
                {
                    if self.parsers[i].matches(ext.as_str()) {
                        assert(self.extensions()[i as int].contains(ext@));
                        return true;
                    }
                    i += 1;
                }
                false
            },
            None => false,
        }
    }

    /// The index of the first parser that reads the chosen declaration.
    pub fn parser_for(&self) -> (r: Result<usize, BrixError>)
        ensures
            match r {
                Ok(i) => reads(self.extensions(), self.config_extension()) && i
                    < self.extensions().len() && self.extensions()[i as int].contains(
                    self.config_extension()->0@,
                ) && forall|j: int|
                    0 <= j < i ==> !(#[trigger] self.extensions()[j]).contains(
                        self.config_extension()->0@,
                    ),
                Err(e) => !reads(self.extensions(), self.config_extension()) && e.kind == Some(
                    BrixErrorKind::UnsupportedFormat,
                ) && e.message@ == unsupported_message(
                    match self.config_extension() {
                        Some(ext) => ext@,
                        None => Seq::empty(),
                    },
                ),
            },
    {
        let extension: &Option<String> = match &self.chosen {
            Some(c) => &c.extension,
            None => &None,
        };
        match extension {
            Some(ext) => {
                let mut i: usize = 0;
                while i < self.parsers.len()
                    invariant
                        i <= self.parsers@.len(),
                        self.config_extension() == Some(*ext),
                        forall|j: int|
                            0 <= j < i ==> !(#[trigger] self.extensions()[j]).contains(ext@),
                    decreases self.parsers@.len() - i,
                {
                    if self.parsers[i].matches(ext.as_str()) {
                        assert(self.extensions()[i as int].contains(ext@));
                        return Ok(i);
                    }
                    i += 1;
                }
                Err(unsupported(ext.as_str()))
            },
            None => {
                proof {
                    reveal_strlit("");
                }
                assert(""@ =~= Seq::<char>::empty());
                Err(unsupported(""))
            },
        }
    }
}

fn clone_text(field: &Option<String>) -> (r: Option<String>)
    ensures
        r == *field,
{
    match field {
        Some(s) => Some(s.clone()),
        None => None,
    }
}

/// A copy of a candidate.
pub fn clone_candidate(c: &Candidate) -> (r: Candidate)
    ensures
        r == *c,
{
    Candidate {
        path: c.path.clone(),
        parent: c.parent.clone(),
        file_name: c.file_name.clone(),
        extension: clone_text(&c.extension),
    }
}

impl<'a, P: ConfigParser> ConfigLoader<'a, P> {
    /// Looks through the files that were found for the declaration. The
    /// directory of the first is the one that sources are seen from. Of the
    /// files that a parser reads, the first is the declaration, unless
    /// there are several: then the user is to pick one.
    pub fn load(&mut self, config_files: Vec<Candidate>) -> (r: Result<LoadStep, BrixError>)
        ensures
            final(self).config() == old(self).config(),
            final(self).extensions() == old(self).extensions(),
            config_files@.len() == 0 ==> r is Err && r->Err_0.kind == Some(
                BrixErrorKind::NotFound,
            ) && r->Err_0.message@ == "no declaration file was given"@ && final(self).possible() == old(self).possible() && final(self).config_file()
                == old(self).config_file() && final(self).config_dir() == old(self).config_dir(),
            config_files@.len() > 0 ==> final(self).config_dir() == config_files@[0].parent@
                && final(self).possible() == readable(old(self).extensions(), config_files@),
            config_files@.len() > 0 ==> match r {
                Ok(LoadStep::Chosen { path }) => final(self).possible().len() == 1 && path@
                    == final(self).possible()[0].path@ && final(self).config_file() == Some(
                    path@,
                ),
                Ok(LoadStep::Select { names }) => final(self).possible().len() > 1
                    && crate::command::names_of(names@) == file_names_of(final(self).possible())
                    && final(self).config_file() == Some(final(self).possible()[0].path@),
                Err(e) => final(self).possible().len() == 0 && e.kind == Some(
                    BrixErrorKind::UnsupportedFormat,
                ) && e.message@ == unsupported_message(
                    match config_files@[0].extension {
                        Some(ext) => ext@,
                        None => Seq::empty(),
                    },
                ),
            },
    {
        if config_files.len() == 0 {
            return Err(
                BrixError {
                    kind: Some(BrixErrorKind::NotFound),
                    message: String::from_str("no declaration file was given"),
                },
            );
        }
        self.config_dir = Some(config_files[0].parent.clone());
        let mut possible: Vec<Candidate> = Vec::new();
        let mut names: Vec<String> = Vec::new();
        let mut i: usize = 0;
        let ghost exts = self.extensions();
        assert(config_files@.take(0) =~= Seq::<Candidate>::empty());
        while i < config_files.len()
            invariant
                i <= config_files@.len(),
                exts == self.extensions(),
                possible@ == readable(exts, config_files@.take(i as int)),
                names@.len() == possible@.len(),
                crate::command::names_of(names@) == file_names_of(possible@),
            decreases config_files@.len() - i,
        {
            proof {
                assert(config_files@.take(i + 1).drop_last() =~= config_files@.take(i as int));
                assert(config_files@.take(i + 1).last() == config_files@[i as int]);
            }
            if self.supports(&config_files[i].extension) {
                let ghost names_before = names@;
                let ghost possible_before = possible@;
                possible.push(clone_candidate(&config_files[i]));
                names.push(config_files[i].file_name.clone());
                assert forall|j: int| 0 <= j < names@.len() implies crate::command::names_of(
                    names@,
                )[j] == file_names_of(possible@)[j] by {
                    if j < names_before.len() {
                        assert(names@[j] == names_before[j]);
                        assert(possible@[j] == possible_before[j]);
                        assert(crate::command::names_of(names_before)[j] == file_names_of(
                            possible_before,
                        )[j]);
                    }
                }
                assert(crate::command::names_of(names@) =~= file_names_of(possible@));
            }
            i += 1;
        }
        assert(config_files@.take(config_files@.len() as int) =~= config_files@);
        if possible.len() == 0 {
            self.possible = possible;
            self.chosen = None;
            return Err(
                match &config_files[0].extension {
                    Some(ext) => unsupported(ext.as_str()),
                    None => {
                        let e = unsupported("");
                        assert(""@ =~= Seq::<char>::empty()) by {
                            reveal_strlit("");
                        }
                        e
                    },
                },
            );
        }
        let path = possible[0].path.clone();
        self.chosen = Some(clone_candidate(&possible[0]));
        let several = possible.len() > 1;
        self.possible = possible;
        if several {
            Ok(LoadStep::Select { names })
        } else {
            Ok(LoadStep::Chosen { path })
        }
    }

    /// Takes the file that the user picked among those that `load` offered.
    pub fn select(&mut self, index: usize) -> (r: Result<String, BrixError>)
        ensures
            final(self).config() == old(self).config(),
            final(self).extensions() == old(self).extensions(),
            final(self).config_dir() == old(self).config_dir(),
            final(self).possible() == old(self).possible(),
            index < old(self).possible().len() ==> r is Ok && r->Ok_0@ == old(
                self,
            ).possible()[index as int].path@ && final(self).config_file() == Some(r->Ok_0@),
            index >= old(self).possible().len() ==> r is Err && r->Err_0.kind == Some(
                BrixErrorKind::Cli,
            ) && r->Err_0.message@ == "no option selected!"@ && final(self).config_file() == old(
                self,
            ).config_file(),
    {
        if index < self.possible.len() {
            let path = self.possible[index].path.clone();
            self.chosen = Some(clone_candidate(&self.possible[index]));
            Ok(path)
        } else {
            Err(
                BrixError {
                    kind: Some(BrixErrorKind::Cli),
                    message: String::from_str("no option selected!"),
                },
            )
        }
    }
}

/// Whether `out` holds the parameters `raw` in their typed form: the source
/// seen from `config_dir`, the destination seen from `workdir`, the
/// written-out line feeds and tabs of `search` and `replace` read, and the
/// rest as it is.
pub open spec fn args_of(
    raw: RawCommandParams,
    config_dir: Seq<char>,
    workdir: Seq<char>,
    out: ProcessedCommandParams,
) -> bool {
    &&& text_of(out.source) == map_text(text_of(raw.source), |s: Seq<char>| joined(config_dir, s))
    &&& text_of(out.destination) == map_text(
        text_of(raw.destination),
        |s: Seq<char>| joined(workdir, s),
    )
    &&& text_of(out.search) == map_text(text_of(raw.search), |s: Seq<char>| unescaped(s))
    &&& text_of(out.replace) == map_text(text_of(raw.replace), |s: Seq<char>| unescaped(s))
    &&& match raw.commands {
        Some(list) => out.commands is Some && out.commands->0@.len() == list@.len() && forall|
            i: int,
        |
            0 <= i < list@.len() ==> (#[trigger] out.commands->0@[i])@ == list@[i]@,
        None => out.commands is None,
    }
    &&& out.overwrite == raw.overwrite
    &&& out.stdout == raw.stdout
    &&& match raw.context {
        Some(c) => out.context is Some && out.context->0@ == c@,
        None => out.context is None,
    }
}

impl<'a, P: ConfigParser> ConfigLoader<'a, P> {
    /// Puts the raw parameters of an operation into their typed form.
    pub fn create_processed_args(&self, raw: &RawCommandParams) -> (r: Result<
        ProcessedCommandParams,
        BrixError,
    >)
        ensures
            r is Ok,
            args_of(*raw, self.config_dir(), self.config().workdir@, r->Ok_0),
    {
        let source = match &raw.source {
            Some(s) => Some(
                match &self.config_dir {
                    Some(dir) => join(dir.as_str(), s.as_str()),
                    None => {
                        proof {
                            reveal_strlit("");
                        }
                        assert(""@ =~= Seq::<char>::empty());
                        join("", s.as_str())
                    },
                },
            ),
            None => None,
        };
        let destination = match &raw.destination {
            Some(d) => Some(join(self.cli_config.workdir.as_str(), d.as_str())),
            None => None,
        };
        let search = match &raw.search {
            Some(s) => Some(unescape(s.as_str())),
            None => None,
        };
        let replace = match &raw.replace {
            Some(s) => Some(unescape(s.as_str())),
            None => None,
        };
        let commands = match &raw.commands {
            Some(list) => Some(clone_texts(list)),
            None => None,
        };
        let context = match &raw.context {
            Some(c) => Some(c.duplicate()),
            None => None,
        };
        Ok(
            ProcessedCommandParams {
                source,
                destination,
                overwrite: raw.overwrite,
                search,
                replace,
                commands,
                stdout: raw.stdout,
                context,
            },
        )
    }

    /// Processes one operation of a declaration whose context is `global`.
    pub fn process_entry(
        &self,
        global: &Option<StdContext>,
        name: &String,
        raw: &RawCommandParams,
        processor: &ProcessorCore,
    ) -> (r: Result<(CommandKind, ProcessedCommandParams), ProcessFailure>)
        ensures
            match r {
                Ok(out) => entry_ok(self.config(), *global, name@, *raw) && entry_processed(
                    self.config(),
                    *global,
                    self.config_dir(),
                    name@,
                    *raw,
                    out,
                ),
                Err(failure) => !entry_ok(self.config(), *global, name@, *raw) && entry_failed(
                    self.config(),
                    *global,
                    name@,
                    *raw,
                    failure,
                ),
            },
    {
        let kind = match dispatch(name.as_str()) {
            Some(kind) => kind,
            None => {
                return Err(ProcessFailure::Unknown { name: name.clone() });
            },
        };
        let tiers = ContextMap {
            cli_positional: cli_config_to_map(self.cli_config),
            config_global: duplicate_or_empty(global),
            command_local: duplicate_or_empty(&raw.context),
        };
        let context = match resolve(&tiers, processor) {
            Ok(context) => context,
            Err(error) => {
                return Err(ProcessFailure::Failed { error });
            },
        };
        let source = match render_field(&raw.source, "source", &context, processor) {
            Ok(field) => field,
            Err(error) => {
                return Err(ProcessFailure::Failed { error });
            },
        };
        let destination = match render_field(&raw.destination, "destination", &context, processor) {
            Ok(field) => field,
            Err(error) => {
                return Err(ProcessFailure::Failed { error });
            },
        };
        let search = match render_field(&raw.search, "search", &context, processor) {
            Ok(field) => field,
            Err(error) => {
                return Err(ProcessFailure::Failed { error });
            },
        };
        let replace = match render_field(&raw.replace, "replace", &context, processor) {
            Ok(field) => field,
            Err(error) => {
                return Err(ProcessFailure::Failed { error });
            },
        };
        let commands = match render_commands(&raw.commands, &context, processor) {
            Ok(list) => list,
            Err(error) => {
                return Err(ProcessFailure::Failed { error });
            },
        };
        let rendered_raw = RawCommandParams {
            source,
            destination,
            overwrite: raw.overwrite,
            search,
            replace,
            commands,
            stdout: raw.stdout,
            context: None,
        };
        match self.create_processed_args(&rendered_raw) {
            Ok(mut args) => {
                args.context = Some(context);
                Ok((kind, args))
            },
            Err(error) => Err(ProcessFailure::Failed { error }),
        }
    }

    /// Turns a declaration into its operations, each with its parameters
    /// resolved, in the declared order. The first operation that cannot be
    /// processed ends it.
    pub fn process(&self, config: &RawConfig, processor: &ProcessorCore) -> (r: Result<
        CommandList,
        ProcessFailure,
    >)
        ensures
            process_holds(self.config(), self.config_dir(), *config, r),
    {
        let mut list: CommandList = Vec::new();
        let mut i: usize = 0;
        while i < config.commands.len()
            invariant
                i <= config.commands@.len(),
                list@.len() == i,
                forall|j: int|
                    0 <= j < i ==> entry_ok(
                        self.config(),
                        config.context,
                        (#[trigger] config.commands@[j]).0@,
                        config.commands@[j].1,
                    ),
                forall|j: int|
                    0 <= j < i ==> entry_processed(
                        self.config(),
                        config.context,
                        self.config_dir(),
                        config.commands@[j].0@,
                        config.commands@[j].1,
                        #[trigger] list@[j],
                    ),
            decreases config.commands@.len() - i,
        {
            let entry = &config.commands[i];
            match self.process_entry(&config.context, &entry.0, &entry.1, processor) {
                Ok(out) => {
                    list.push(out);
                },
                Err(failure) => {
                    assert(!entry_ok(
                        self.config(),
                        config.context,
                        config.commands@[i as int].0@,
                        config.commands@[i as int].1,
                    ));
                    return Err(failure);
                },
            }
            i += 1;
        }
        Ok(list)
    }
}

impl<'a, P: ConfigParser> ConfigLoader<'a, P> {
    /// The value that the text `contents` holds for the parser at `index`.
    pub closed spec fn document(&self, index: int, contents: Seq<char>) -> Result<
        Node,
        Seq<char>,
    > {
        self.parsers@[index].document(contents)
    }

    /// Reads the text of the chosen declaration with the first parser that
    /// reads its extension.
    pub fn parse(&self, contents: &str) -> (r: Result<RawConfig, BrixError>)
        ensures
            !reads(self.extensions(), self.config_extension()) ==> r is Err && r->Err_0.kind
                == Some(BrixErrorKind::UnsupportedFormat),
            reads(self.extensions(), self.config_extension()) ==> exists|i: int|
                #[trigger] first_reader(self.extensions(), self.config_extension(), i) && parsed(
                    self.document(i, contents@),
                    r,
                ),
    {
        match self.parser_for() {
            Ok(i) => {
                let r = self.parsers[i].parse(contents);
                assert(first_reader(self.extensions(), self.config_extension(), i as int));
                assert(parsed(self.document(i as int, contents@), r));
                r
            },
            Err(e) => Err(e),
        }
    }

    /// Reads the text of the chosen declaration and turns it into its
    /// operations.
    pub fn run(&self, contents: &str, processor: &ProcessorCore) -> (r: Result<
        CommandList,
        ProcessFailure,
    >)
        ensures
            !reads(self.extensions(), self.config_extension()) ==> r is Err && r->Err_0 is Failed
                && r->Err_0->error.kind == Some(BrixErrorKind::UnsupportedFormat),
            reads(self.extensions(), self.config_extension()) ==> exists|i: int|
                #[trigger] first_reader(self.extensions(), self.config_extension(), i)
                    && run_holds(
                    self.document(i, contents@),
                    self.config(),
                    self.config_dir(),
                    r,
                ),
    {
        match self.parse(contents) {
            Ok(config) => {
                let r = self.process(&config, processor);
                proof {
                    let i = choose|i: int|
                        #[trigger] first_reader(self.extensions(), self.config_extension(), i)
                            && parsed(
                            self.document(i, contents@),
                            Ok::<RawConfig, BrixError>(config),
                        );
                    assert(config_decoded(self.document(i, contents@)->Ok_0, config)
                        && process_holds(self.config(), self.config_dir(), config, r));
                    assert(run_holds(
                        self.document(i, contents@),
                        self.config(),
                        self.config_dir(),
                        r,
                    ));
                }
                r
            },
            Err(error) => {
                let r = Err(ProcessFailure::Failed { error });
                proof {
                    if reads(self.extensions(), self.config_extension()) {
                        let i = choose|i: int|
                            #[trigger] first_reader(
                                self.extensions(),
                                self.config_extension(),
                                i,
                            ) && parsed(
                                self.document(i, contents@),
                                Err::<RawConfig, BrixError>(error),
                            );
                        assert(run_holds(
                            self.document(i, contents@),
                            self.config(),
                            self.config_dir(),
                            r,
                        ));
                    }
                }
                r
            },
        }
    }
}

/// Whether the parser at `index` is the first that reads `extension`.
pub open spec fn first_reader(
    extensions: Seq<Seq<Seq<char>>>,
    extension: Option<String>,
    index: int,
) -> bool {
    &&& extension is Some
    &&& 0 <= index < extensions.len()
    &&& extensions[index].contains(extension->0@)
    &&& forall|j: int| 0 <= j < index ==> !(#[trigger] extensions[j]).contains(extension->0@)
}

/// Whether `r` is what running a declaration gives whose text holds the
/// value `document`, or is refused: a parse error where the text is
/// refused or the value has not the shape of a declaration, else what
/// processing the declaration gives.
pub open spec fn run_holds(
    document: Result<Node, Seq<char>>,
    config: Config,
    config_dir: Seq<char>,
    r: Result<CommandList, ProcessFailure>,
) -> bool {
    if document is Ok && config_shaped(document->Ok_0) {
        exists|raw: RawConfig|
            config_decoded(document->Ok_0, raw) && #[trigger] process_holds(
                config,
                config_dir,
                raw,
                r,
            )
    } else {
        r is Err && r->Err_0 is Failed && parsed(
            document,
            Err::<RawConfig, BrixError>(r->Err_0->error),
        )
    }
}

/// The message for a declaration whose extension no parser reads.
pub open spec fn unsupported_message(extension: Seq<char>) -> Seq<char> {
    "the file extension '."@ + extension + "' is not supported for configs"@
}

/// The error for a declaration whose extension no parser reads.
pub fn unsupported(extension: &str) -> (e: BrixError)
    ensures
        e.kind == Some(BrixErrorKind::UnsupportedFormat),
        e.message@ == unsupported_message(extension@),
{
    BrixError {
        kind: Some(BrixErrorKind::UnsupportedFormat),
        message: join2("the file extension '.", extension).concat(
            "' is not supported for configs",
        ),
    }
}

} // verus!
