//! Running shell commands one after another.

use vstd::prelude::*;
use vstd::string::StringExecFns;
use crate::command::{
    missing_if, names_of, required_message, Command, ProcessedCommandParams, ValidationError,
};
use crate::text::clone_texts;
use crate::errors::{BrixError, BrixErrorKind};

verus! {

/// The parameters of `exec`.
#[derive(Debug, PartialEq, Eq)]
pub struct ExecParams {
    /// The commands, in the order in which they run; at least one.
    pub commands: Vec<String>,
    /// Whether what a command writes to its output is printed.
    pub stdout: bool,
}

/// The `exec` operation.
#[derive(Debug)]
pub struct ExecCommand {}

/// Whether `pcp` holds no command to run.
pub open spec fn no_commands(pcp: ProcessedCommandParams) -> bool {
    pcp.commands is None || pcp.commands->0@.len() == 0
}

/// The required fields of `exec` that `pcp` lacks.
pub open spec fn exec_missing(pcp: ProcessedCommandParams) -> Seq<Seq<char>> {
    missing_if(no_commands(pcp), "commands"@)
}

/// What a shell command left behind.
#[derive(Debug)]
pub struct ShellOutput {
    /// Whether the command ended with status zero.
    pub success: bool,
    /// What it wrote to its output.
    pub stdout: String,
    /// What it wrote to its error output.
    pub stderr: String,
}

/// What is to be done next.
#[derive(Debug)]
pub enum ExecAction {
    /// Run this command in the shell and come back with what it left.
    Run { command: String },
    /// Every command has run.
    Finish,
    /// A command failed; none of the rest runs.
    Fail { error: BrixError },
}

/// One step of an `exec` operation.
#[derive(Debug)]
pub struct ExecStep {
    /// What is to be printed before anything else is done.
    pub print: Option<String>,
    /// How many commands will have been started once `action` is done.
    pub started: usize,
    /// What is to be done next.
    pub action: ExecAction,
}

/// What is done next about the commands `commands`, of which `started`
/// were started, the last of them having left `finished`: what it wrote is
/// printed where `stdout` holds; after a command that failed the operation
/// fails with what the command wrote to its error output; else the next
/// command runs, or the operation finishes.
pub open spec fn exec_next(
    commands: Seq<Seq<char>>,
    stdout: bool,
    started: usize,
    finished: Option<ShellOutput>,
    step: ExecStep,
) -> bool {
    &&& match finished {
        Some(output) => if stdout {
            step.print is Some && step.print->0@ == output.stdout@
        } else {
            step.print is None
        },
        None => step.print is None,
    }
    &&& if finished is Some && !finished->0.success {
        &&& step.started == started
        &&& step.action is Fail
        &&& step.action->error.kind == Some(BrixErrorKind::Execution)
        &&& step.action->error.message@ == finished->0.stderr@
    } else if started < commands.len() {
        &&& step.started == started + 1
        &&& step.action is Run
        &&& step.action->command@ == commands[started as int]
    } else {
        &&& step.started == started
        &&& step.action is Finish
    }
}

/// What `step` returns for the given parameters.
pub open spec fn exec_step_holds(
    params: ExecParams,
    started: usize,
    finished: Option<ShellOutput>,
    step: ExecStep,
) -> bool {
    exec_next(names_of(params.commands@), params.stdout, started, finished, step)
}

impl ExecCommand {
    /// The operation `exec`.
    pub fn new() -> Self {
        ExecCommand {  }
    }

    /// Checks that there is at least one command; output is printed unless
    /// the declaration says otherwise.
    pub fn from(&self, pcp: ProcessedCommandParams) -> (r: Result<ExecParams, ValidationError>)
        ensures
            match r {
                Ok(p) => !no_commands(pcp) && pcp.commands == Some(p.commands) && p.stdout == (
                match pcp.stdout {
                    Some(b) => b,
                    None => true,
                }),
                Err(e) => no_commands(pcp) && e@ == exec_missing(pcp) && e@.len() > 0,
            },
    {
        let mut missing = ValidationError::new();
        let stdout = match pcp.stdout {
            Some(b) => b,
            None => true,
        };
        match pcp.commands {
            Some(commands) => {
                missing.require(commands.len() == 0, "commands");
                if commands.len() == 0 {
                    Err(missing)
                } else {
                    Ok(ExecParams { commands, stdout })
                }
            },
            None => {
                missing.require(true, "commands");
                Err(missing)
            },
        }
    }

    /// Takes the operation one step further. The caller starts with
    /// `started` at 0 and no output, runs each command it is handed, and
    /// comes back with what the command left, until it is told to finish or
    /// that the operation failed.
    pub fn step(&self, params: &ExecParams, started: usize, finished: Option<ShellOutput>) -> (step:
        ExecStep)
        ensures
            exec_step_holds(*params, started, finished, step),
    {
        let mut print: Option<String> = None;
        let mut failure: Option<String> = None;
        match finished {
            Some(output) => {
                if params.stdout {
                    print = Some(output.stdout);
                }
                if !output.success {
                    failure = Some(output.stderr);
                }
            },
            None => {},
        }
        match failure {
            Some(message) => ExecStep {
                print,
                started,
                action: ExecAction::Fail {
                    error: BrixError { kind: Some(BrixErrorKind::Execution), message },
                },
            },
            None => {
                if started < params.commands.len() {
                    ExecStep {
                        print,
                        started: started + 1,
                        action: ExecAction::Run { command: params.commands[started].clone() },
                    }
                } else {
                    ExecStep { print, started, action: ExecAction::Finish }
                }
            },
        }
    }
}

/// Whether `step` is what the operation with the parameters `pcp` does
/// next: it fails for want of commands before any command runs; else it
/// goes through the commands, printing unless `stdout` says otherwise.
pub open spec fn exec_run_holds(
    pcp: ProcessedCommandParams,
    started: usize,
    finished: Option<ShellOutput>,
    step: ExecStep,
) -> bool {
    if no_commands(pcp) {
        &&& step.print is None
        &&& step.started == started
        &&& step.action is Fail
        &&& step.action->error.kind == Some(BrixErrorKind::Validation)
        &&& step.action->error.message@ == required_message(exec_missing(pcp))
    } else {
        exec_next(
            names_of(pcp.commands->0@),
            match pcp.stdout {
                Some(b) => b,
                None => true,
            },
            started,
            finished,
            step,
        )
    }
}

impl ExecCommand {
    /// Takes the operation one step further. The caller starts with
    /// `started` at 0 and no output, runs each command it is handed, and
    /// comes back with what the command left, until it is told to finish or
    /// that the operation failed.
    pub fn run(&self, pcp: &ProcessedCommandParams, started: usize, finished: Option<ShellOutput>) -> (step:
        ExecStep)
        ensures
            exec_run_holds(*pcp, started, finished, step),
    {
        let stdout = match pcp.stdout {
            Some(b) => b,
            None => true,
        };
        match &pcp.commands {
            Some(commands) => {
                if commands.len() == 0 {
                    let mut missing = ValidationError::new();
                    missing.require(true, "commands");
                    ExecStep {
                        print: None,
                        started,
                        action: ExecAction::Fail { error: missing.into_error() },
                    }
                } else {
                    let params = ExecParams { commands: clone_texts(commands), stdout };
                    assert(names_of(params.commands@) =~= names_of(commands@));
                    self.step(&params, started, finished)
                }
            },
            None => {
                let mut missing = ValidationError::new();
                missing.require(true, "commands");
                ExecStep {
                    print: None,
                    started,
                    action: ExecAction::Fail { error: missing.into_error() },
                }
            },
        }
    }
}

impl Command for ExecCommand {
    open spec fn spec_name(&self) -> Seq<char> {
        "exec"@
    }

    fn name(&self) -> (n: String) {
        String::from_str("exec")
    }
}

} // verus!
