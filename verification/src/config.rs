//! What an invocation was given on the command line.

use vstd::prelude::*;
use vstd::string::StringExecFns;
use crate::text::{join2, same_text};

verus! {

/// How much is logged while a declaration runs.
#[derive(Debug, Clone, Copy, PartialEq, Eq, Structural)]
pub enum LogLevel {
    Off,
    Error,
    Warn,
    Info,
    Debug,
    Trace,
}

/// The values of one invocation.
#[derive(Debug)]
pub struct Config {
    pub language: String,
    pub config_name: String,
    pub project: String,
    pub module: String,
    pub config_dir: Option<String>,
    pub workdir: String,
    pub home_dir: Option<String>,
    pub log_level: LogLevel,
}

/// The level that a name stands for.
pub open spec fn level_of(level: Seq<char>) -> Option<LogLevel> {
    if level == "off"@ {
        Some(LogLevel::Off)
    } else if level == "error"@ {
        Some(LogLevel::Error)
    } else if level == "warn"@ {
        Some(LogLevel::Warn)
    } else if level == "info"@ {
        Some(LogLevel::Info)
    } else if level == "debug"@ {
        Some(LogLevel::Debug)
    } else if level == "trace"@ {
        Some(LogLevel::Trace)
    } else {
        None
    }
}

/// Finds the level that a name stands for.
pub fn parse_log_level(level: &str) -> (r: Option<LogLevel>)
    ensures
        r == level_of(level@),
{
    if same_text(level, "off") {
        Some(LogLevel::Off)
    } else if same_text(level, "error") {
        Some(LogLevel::Error)
    } else if same_text(level, "warn") {
        Some(LogLevel::Warn)
    } else if same_text(level, "info") {
        Some(LogLevel::Info)
    } else if same_text(level, "debug") {
        Some(LogLevel::Debug)
    } else if same_text(level, "trace") {
        Some(LogLevel::Trace)
    } else {
        None
    }
}

/// The level that one of the six names stands for.
pub fn log_level_to_struct(level: &str) -> (r: LogLevel)
    requires
        level_of(level@) is Some,
    ensures
        Some(r) == level_of(level@),
{
    match parse_log_level(level) {
        Some(l) => l,
        None => LogLevel::Off,
    }
}

/// What the command line gave: the four names, and the options that were
/// given.
#[derive(Debug)]
pub struct Arguments {
    pub language: String,
    pub config_name: String,
    pub project: String,
    pub module: String,
    pub config_dir: Option<String>,
    pub workdir: Option<String>,
    pub log_level: Option<String>,
}

/// The text of an optional path, as `None` or as `Some` and the path in
/// double quotes.
pub open spec fn shown_option(o: Option<String>) -> Seq<char> {
    match o {
        Some(s) => "Some(\""@ + s@ + "\")"@,
        None => "None"@,
    }
}

impl Config {
    /// The values of an invocation: what the command line gave, with the
    /// current directory as the working directory where none was given,
    /// and no logging where no level was given.
    pub fn new(home_dir: Option<String>, current_dir: String, arguments: Arguments) -> (c: Self)
        requires
            arguments.log_level is Some ==> level_of(arguments.log_level->0@) is Some,
        ensures
            c.language == arguments.language,
            c.config_name == arguments.config_name,
            c.project == arguments.project,
            c.module == arguments.module,
            c.config_dir == arguments.config_dir,
            c.home_dir == home_dir,
            c.workdir == (match arguments.workdir {
                Some(w) => w,
                None => current_dir,
            }),
            Some(c.log_level) == (match arguments.log_level {
                Some(l) => level_of(l@),
                None => Some(LogLevel::Off),
            }),
    {
        let log_level = match &arguments.log_level {
            Some(l) => log_level_to_struct(l.as_str()),
            None => LogLevel::Off,
        };
        let workdir = match arguments.workdir {
            Some(w) => w,
            None => current_dir,
        };
        Config {
            language: arguments.language,
            config_name: arguments.config_name,
            project: arguments.project,
            module: arguments.module,
            config_dir: arguments.config_dir,
            workdir,
            home_dir,
            log_level,
        }
    }

    /// An invocation without names, in the directory `workdir`.
    pub fn default_in(workdir: String) -> (c: Self)
        ensures
            c.language@.len() == 0,
            c.config_name@.len() == 0,
            c.project@.len() == 0,
            c.module@.len() == 0,
            c.config_dir is None,
            c.home_dir is None,
            c.workdir == workdir,
            c.log_level == LogLevel::Off,
    {
        Config {
            language: String::new(),
            config_name: String::new(),
            project: String::new(),
            module: String::new(),
            config_dir: None,
            workdir,
            home_dir: None,
            log_level: LogLevel::Off,
        }
    }

    /// The invocation on one line.
    pub open spec fn spec_describe(&self) -> Seq<char> {
        "[LANGUAGE: "@ + self.language@ + ", CONFIG_NAME: "@ + self.config_name@ + ", PROJECT: "@
            + self.project@ + ", MODULE: "@ + self.module@ + ", CONFIG_DIR: "@ + shown_option(
            self.config_dir,
        ) + "]"@
    }

    /// Writes the invocation on one line.
    pub fn describe(&self) -> (s: String)
        ensures
            s@ == self.spec_describe(),
    {
        let dir = match &self.config_dir {
            Some(d) => join2("Some(\"", d.as_str()).concat("\")"),
            None => String::from_str("None"),
        };
        join2("[LANGUAGE: ", self.language.as_str()).concat(", CONFIG_NAME: ").concat(
            self.config_name.as_str(),
        ).concat(", PROJECT: ").concat(self.project.as_str()).concat(", MODULE: ").concat(
            self.module.as_str(),
        ).concat(", CONFIG_DIR: ").concat(dir.as_str()).concat("]")
    }
}

} // verus!
