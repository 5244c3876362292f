//! Finding the declaration files of a logical name: where to look, which
//! files of a directory count, and when to go on to the parent directory.

use vstd::prelude::*;
use vstd::string::StringExecFns;
use crate::config::Config;
use crate::errors::{BrixError, BrixErrorKind};
use crate::loader::{clone_candidate, Candidate};
use crate::paths::{display_path, displayed, join, joined};
use crate::text::{join2, same_text};

verus! {

/// One entry of a directory that was listed.
#[derive(Debug)]
pub struct DirEntry {
    /// The file with the parts of its path.
    pub file: Candidate,
    /// The name of the file without its last extension.
    pub stem: String,
    /// Whether the entry is a file.
    pub is_file: bool,
}

/// Whether an entry is a declaration of the logical name `name`: a file
/// whose stem is `name`, or `name` followed by `.brix`.
pub open spec fn declares(entry: DirEntry, name: Seq<char>) -> bool {
    entry.is_file && (entry.stem@ == name || entry.stem@ == name + ".brix"@)
}

/// The declarations of `name` among `entries`, in their order.
pub open spec fn declarations(entries: Seq<DirEntry>, name: Seq<char>) -> Seq<Candidate>
    decreases entries.len(),
{
    if entries.len() == 0 {
        Seq::empty()
    } else if declares(entries.last(), name) {
        declarations(entries.drop_last(), name).push(entries.last().file)
    } else {
        declarations(entries.drop_last(), name)
    }
}

/// Where the declarations of a logical name are looked for.
#[derive(Debug)]
pub struct Locator {
    /// The directory to start in.
    pub start: String,
    /// The directory after which the search gives up; without one, only the
    /// start is searched.
    pub boundary: Option<String>,
    /// The path, under each directory searched, of the directory that
    /// holds the declarations.
    pub relative: String,
    /// The logical name.
    pub name: String,
    /// The directory that is named where no declaration is found.
    pub shown: String,
}

/// What the search does next.
#[derive(Debug)]
pub enum LocateStep {
    /// These files are the declarations.
    Found { files: Vec<Candidate> },
    /// List the directory `relative` under `base` and come back with the
    /// entries.
    Search { base: String },
    /// There is no declaration.
    NotFound { error: BrixError },
}

/// The message for a logical name without a declaration.
pub open spec fn not_found_message(name: Seq<char>, shown: Seq<char>) -> Seq<char> {
    "Could not find module declaration for '"@ + name + "' in "@ + displayed(shown)
}

/// What follows from the listing of the directory under `base`: `entries`
/// are its entries, `None` where the directory is not there, and `parent`
/// is the directory above `base`, if there is one.
pub open spec fn locate_step_holds(
    locator: Locator,
    base: Seq<char>,
    entries: Option<Vec<DirEntry>>,
    parent: Option<String>,
    step: LocateStep,
) -> bool {
    let found = match entries {
        Some(list) => declarations(list@, locator.name@),
        None => Seq::empty(),
    };
    if found.len() > 0 {
        step is Found && step->files@ == found
    } else if locator.boundary is Some && locator.boundary->0@ != base && parent is Some {
        step is Search && step->base@ == parent->0@
    } else {
        step is NotFound && step->error.kind == Some(BrixErrorKind::NotFound)
            && step->error.message@ == not_found_message(locator.name@, locator.shown@)
    }
}

impl Locator {
    /// Where to look for the declarations that an invocation asks for. With
    /// a configuration directory, the language's directory in it is the
    /// only place. Without one, the search starts at the working directory
    /// and goes up to the home directory, and looks in each for
    /// `.config/brix` and the language's directory in that. Where nothing
    /// is found, the directory that was searched is named: in full with a
    /// configuration directory, else as it stands under each directory.
    pub fn new(config: &Config) -> (l: Locator)
        ensures
            l.name@ == config.config_name@,
            match config.config_dir {
                Some(dir) => l.start@ == dir@ && l.boundary is None && l.relative@
                    == config.language@ && l.shown@ == joined(dir@, config.language@),
                None => l.start@ == config.workdir@ && l.boundary == config.home_dir
                    && l.relative@ == joined(".config/brix"@, config.language@) && l.shown@
                    == l.relative@,
            },
    {
        match &config.config_dir {
            Some(dir) => Locator {
                start: dir.clone(),
                boundary: None,
                relative: config.language.clone(),
                name: config.config_name.clone(),
                shown: join(dir.as_str(), config.language.as_str()),
            },
            None => {
                let relative = join(".config/brix", config.language.as_str());
                Locator {
                    start: config.workdir.clone(),
                    boundary: match &config.home_dir {
                        Some(h) => Some(h.clone()),
                        None => None,
                    },
                    shown: relative.clone(),
                    relative,
                    name: config.config_name.clone(),
                }
            },
        }
    }

    /// The directory to list when the search has come to `base`.
    pub fn search_path(&self, base: &str) -> (p: String)
        ensures
            p@ == joined(base@, self.relative@),
    {
        join(base, self.relative.as_str())
    }

    /// The declarations among the entries of a directory.
    pub fn matching(&self, entries: &Vec<DirEntry>) -> (files: Vec<Candidate>)
        ensures
            files@ == declarations(entries@, self.name@),
    {
        let mut files: Vec<Candidate> = Vec::new();
        let with_suffix = join2(self.name.as_str(), ".brix");
        let mut i: usize = 0;
        assert(entries@.take(0) =~= Seq::<DirEntry>::empty());
        while i < entries.len()
            invariant
                i <= entries@.len(),
                with_suffix@ == self.name@ + ".brix"@,
                files@ == declarations(entries@.take(i as int), self.name@),
            decreases entries@.len() - i,
        {
            proof {
                assert(entries@.take(i + 1).drop_last() =~= entries@.take(i as int));
                assert(entries@.take(i + 1).last() == entries@[i as int]);
            }
            let entry = &entries[i];
            if entry.is_file && (same_text(entry.stem.as_str(), self.name.as_str()) || same_text(
                entry.stem.as_str(),
                with_suffix.as_str(),
            )) {
                files.push(clone_candidate(&entry.file));
            }
            i += 1;
        }
        assert(entries@.take(entries@.len() as int) =~= entries@);
        files
    }

    /// The error for a logical name without a declaration.
    pub fn not_found(&self) -> (e: BrixError)
        ensures
            e.kind == Some(BrixErrorKind::NotFound),
            e.message@ == not_found_message(self.name@, self.shown@),
    {
        let shown = display_path(self.shown.as_str());
        BrixError {
            kind: Some(BrixErrorKind::NotFound),
            message: join2("Could not find module declaration for '", self.name.as_str()).concat(
                "' in ",
            ).concat(shown.as_str()),
        }
    }

    /// Takes the search one step further. The caller starts by listing the
    /// directory under `start`, and lists again whenever it is told to
    /// search.
    pub fn step(&self, base: &str, entries: Option<Vec<DirEntry>>, parent: Option<String>) -> (step:
        LocateStep)
        ensures
            locate_step_holds(*self, base@, entries, parent, step),
    {
        let files = match &entries {
            Some(list) => self.matching(list),
            None => Vec::new(),
        };
        if files.len() > 0 {
            return LocateStep::Found { files };
        }
        let at_boundary = match &self.boundary {
            Some(b) => same_text(b.as_str(), base),
            None => true,
        };
        if at_boundary {
            LocateStep::NotFound { error: self.not_found() }
        } else {
            match parent {
                Some(p) => LocateStep::Search { base: p },
                None => LocateStep::NotFound { error: self.not_found() },
            }
        }
    }
}

} // verus!
