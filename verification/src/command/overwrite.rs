//! How an operation that writes to a destination goes about it: what it has
//! to find out, when it asks the user, and when it writes or skips.

use vstd::prelude::*;
use vstd::string::StringExecFns;
use crate::command::{Command, OverwritableParams, ProcessedCommandParams, ValidationError};
use crate::errors::{BrixError, BrixErrorKind};
use crate::text::join2;

verus! {

/// What is done about the destination.
#[derive(Debug, Clone, Copy, PartialEq, Eq, Structural)]
pub enum Decision {
    /// The destination is written.
    Write,
    /// The destination is left as it is; this is no error.
    Skip,
    /// The user is asked whether to replace the destination.
    Ask,
}

/// The decision for a destination, by the operation's `overwrite` and by
/// whether the destination exists.
pub open spec fn decision(overwrite: Option<bool>, destination_exists: bool) -> Decision {
    match overwrite {
        Some(true) => Decision::Write,
        Some(false) => if destination_exists {
            Decision::Skip
        } else {
            Decision::Write
        },
        None => if destination_exists {
            Decision::Ask
        } else {
            Decision::Write
        },
    }
}

/// The decision once the user was asked: only a plain yes writes; a no, or a
/// prompt that failed, skips.
pub open spec fn settled(answer: Option<bool>) -> Decision {
    if answer == Some(true) {
        Decision::Write
    } else {
        Decision::Skip
    }
}

/// Decides what is done about a destination.
pub fn decide(overwrite: Option<bool>, destination_exists: bool) -> (d: Decision)
    ensures
        d == decision(overwrite, destination_exists),
{
    match overwrite {
        Some(true) => Decision::Write,
        Some(false) => if destination_exists {
            Decision::Skip
        } else {
            Decision::Write
        },
        None => if destination_exists {
            Decision::Ask
        } else {
            Decision::Write
        },
    }
}

/// Decides what is done once the user was asked.
pub fn settle(answer: Option<bool>) -> (d: Decision)
    ensures
        d == settled(answer),
        d != Decision::Ask,
{
    match answer {
        Some(true) => Decision::Write,
        _ => Decision::Skip,
    }
}

/// Where the destination exists: with `overwrite` set, it is always
/// written; with `overwrite` unset to false, it is never written and the
/// operation skips; with no `overwrite`, the user is asked, and a no skips.
pub proof fn lemma_overwrite_semantics(answer: Option<bool>)
    ensures
        decision(Some(true), true) == Decision::Write,
        decision(Some(false), true) == Decision::Skip,
        decision(None, true) == Decision::Ask,
        answer != Some(true) ==> settled(answer) == Decision::Skip,
        settled(Some(true)) == Decision::Write,
{
}

/// Where the destination does not exist it is written, whatever `overwrite`
/// says, and nobody is asked.
pub proof fn lemma_new_destination_is_written(overwrite: Option<bool>)
    ensures
        decision(overwrite, false) == Decision::Write,
{
}

/// What was found out about the paths of an operation.
#[derive(Debug)]
pub struct Probe {
    /// Whether the source exists.
    pub source_exists: bool,
    /// The directory that holds the destination, if the destination has one.
    pub parent: Option<String>,
    /// Whether that directory exists.
    pub parent_exists: bool,
    /// Whether the destination exists.
    pub destination_exists: bool,
}

/// How far an operation has come.
#[derive(Debug, Clone, Copy, PartialEq, Eq, Structural)]
pub enum WriteStage {
    /// Nothing is known yet of the paths.
    Probing,
    /// The destination's directory is being made.
    CreatingParent { destination_exists: bool },
    /// The user is being asked.
    Asking,
    /// The destination is being written.
    Writing,
    /// The operation is over.
    Finished,
}

/// What came back from the last thing that was done.
#[derive(Debug)]
pub enum WriteEvent {
    /// The paths were looked at.
    Probed(Probe),
    /// The destination's directory was made.
    ParentCreated,
    /// The destination's directory, `path`, could not be made.
    ParentFailed { path: String, reason: String },
    /// The user answered, or the prompt failed.
    Answered(Option<bool>),
    /// The destination was written.
    Written,
    /// The destination could not be written; `error` is what the write
    /// failed with.
    WriteFailed { error: BrixError },
}

/// What is to be done next.
#[derive(Debug)]
pub enum WriteAction {
    /// Make the directory and all its ancestors.
    CreateDir { path: String },
    /// Ask the user, with this prompt and no as the default.
    Confirm { prompt: String },
    /// Write the destination.
    Write,
    /// The operation is over and has written the destination.
    DoneWritten,
    /// The operation is over and has left the destination as it was.
    DoneSkipped,
    /// The operation failed.
    Fail { error: BrixError },
}

/// The stage and the kind of action that follow from a decision.
pub open spec fn follows(d: Decision, stage: WriteStage, action: WriteAction, destination: Seq<char>) -> bool {
    match d {
        Decision::Write => stage == WriteStage::Writing && action is Write,
        Decision::Skip => stage == WriteStage::Finished && action is DoneSkipped,
        Decision::Ask => stage == WriteStage::Asking && action is Confirm && action->prompt@
            == "overwrite '"@ + destination + "'"@,
    }
}

/// Whether `action` fails with an error of the kind `kind` and the message
/// `message`.
pub open spec fn fails_with(action: WriteAction, kind: Option<BrixErrorKind>, message: Seq<char>) -> bool {
    action is Fail && action->error.kind == kind && action->error.message@ == message
}

/// What follows from `event` for an operation with the given source,
/// destination and `overwrite` that has come as far as `stage`.
pub open spec fn step_holds(
    source: Seq<char>,
    destination: Seq<char>,
    overwrite: Option<bool>,
    stage: WriteStage,
    event: WriteEvent,
    next: WriteStage,
    action: WriteAction,
) -> bool {
    match (stage, event) {
        (WriteStage::Probing, WriteEvent::Probed(probe)) => if !probe.source_exists {
            next == WriteStage::Finished && fails_with(
                action,
                Some(BrixErrorKind::Io),
                "source '"@ + source + "' does not exist"@,
            )
        } else if probe.parent is Some && !probe.parent_exists {
            next == (WriteStage::CreatingParent { destination_exists: probe.destination_exists })
                && action is CreateDir && action->path@ == probe.parent->0@
        } else {
            follows(decision(overwrite, probe.destination_exists), next, action, destination)
        },
        (WriteStage::CreatingParent { destination_exists }, WriteEvent::ParentCreated) => follows(
            decision(overwrite, destination_exists),
            next,
            action,
            destination,
        ),
        (WriteStage::CreatingParent { .. }, WriteEvent::ParentFailed { path, reason }) => next
            == WriteStage::Finished && fails_with(
            action,
            Some(BrixErrorKind::Io),
            "unable to create '"@ + path@ + "': "@ + reason@,
        ),
        (WriteStage::Asking, WriteEvent::Answered(answer)) => follows(
            settled(answer),
            next,
            action,
            destination,
        ),
        (WriteStage::Writing, WriteEvent::Written) => next == WriteStage::Finished
            && action is DoneWritten,
        (WriteStage::Writing, WriteEvent::WriteFailed { error }) => next == WriteStage::Finished
            && action is Fail && action->error == error,
        _ => next == WriteStage::Finished && fails_with(action, None, "unexpected event"@),
    }
}

/// An operation that writes ends with the result of the write: done where
/// the write went well, else failed with the very error of the write.
pub proof fn lemma_write_result_is_returned(
    source: Seq<char>,
    destination: Seq<char>,
    overwrite: Option<bool>,
    event: WriteEvent,
    next: WriteStage,
    action: WriteAction,
)
    requires
        event is Written || event is WriteFailed,
        step_holds(source, destination, overwrite, WriteStage::Writing, event, next, action),
    ensures
        next == WriteStage::Finished,
        event is Written ==> action is DoneWritten,
        event is WriteFailed ==> action is Fail && action->error == event->error,
{
}

/// Where the destination does not exist, the source does, and the
/// destination's directory is there or is made, the operation writes
/// without asking anybody.
pub proof fn lemma_absent_destination(
    source: Seq<char>,
    destination: Seq<char>,
    overwrite: Option<bool>,
    probe: Probe,
    next: WriteStage,
    action: WriteAction,
    after: WriteStage,
    then: WriteAction,
)
    requires
        probe.source_exists,
        !probe.destination_exists,
        step_holds(
            source,
            destination,
            overwrite,
            WriteStage::Probing,
            WriteEvent::Probed(probe),
            next,
            action,
        ),
        step_holds(source, destination, overwrite, next, WriteEvent::ParentCreated, after, then),
    ensures
        probe.parent is Some && !probe.parent_exists ==> action is CreateDir && after
            == WriteStage::Writing && then is Write,
        !(probe.parent is Some && !probe.parent_exists) ==> next == WriteStage::Writing
            && action is Write,
{
}

/// For an operation whose source and whose destination exist, and whose
/// destination has a directory that exists: with `overwrite` set, the first
/// step writes; with `overwrite` set to false, the first step ends the
/// operation as skipped; with no `overwrite`, the first step asks, and
/// after a no, or a prompt that failed, the next step ends the operation as
/// skipped.
pub proof fn lemma_existing_destination(
    source: Seq<char>,
    destination: Seq<char>,
    overwrite: Option<bool>,
    probe: Probe,
    next: WriteStage,
    action: WriteAction,
    answer: Option<bool>,
    last: WriteStage,
    outcome: WriteAction,
)
    requires
        probe.source_exists,
        probe.destination_exists,
        probe.parent is Some ==> probe.parent_exists,
        step_holds(
            source,
            destination,
            overwrite,
            WriteStage::Probing,
            WriteEvent::Probed(probe),
            next,
            action,
        ),
        step_holds(
            source,
            destination,
            overwrite,
            WriteStage::Asking,
            WriteEvent::Answered(answer),
            last,
            outcome,
        ),
    ensures
        overwrite == Some(true) ==> next == WriteStage::Writing && action is Write,
        overwrite == Some(false) ==> next == WriteStage::Finished && action is DoneSkipped,
        overwrite is None ==> next == WriteStage::Asking && action is Confirm,
        answer != Some(true) ==> last == WriteStage::Finished && outcome is DoneSkipped,
        answer == Some(true) ==> last == WriteStage::Writing && outcome is Write,
{
}

fn act<P: OverwritableParams>(params: &P, d: Decision) -> (r: (WriteStage, WriteAction))
    ensures
        follows(d, r.0, r.1, params.spec_destination()),
{
    match d {
        Decision::Write => (WriteStage::Writing, WriteAction::Write),
        Decision::Skip => (WriteStage::Finished, WriteAction::DoneSkipped),
        Decision::Ask => {
            let destination = params.destination();
            let prompt = join2("overwrite '", destination.as_str()).concat("'");
            (WriteStage::Asking, WriteAction::Confirm { prompt })
        },
    }
}

/// Takes an operation one step further: from the stage it has come to and
/// what came back from the last action, to the next stage and action. The
/// caller starts at `Probing` by looking at the paths, carries each action
/// out, and stops at `Finished`.
pub fn step<P: OverwritableParams>(params: &P, stage: WriteStage, event: WriteEvent) -> (r: (
    WriteStage,
    WriteAction,
))
    ensures
        step_holds(
            params.spec_source(),
            params.spec_destination(),
            params.spec_overwrite(),
            stage,
            event,
            r.0,
            r.1,
        ),
{
    match (stage, event) {
        (WriteStage::Probing, WriteEvent::Probed(probe)) => {
            if !probe.source_exists {
                let source = params.source();
                let message = join2("source '", source.as_str()).concat("' does not exist");
                (
                    WriteStage::Finished,
                    WriteAction::Fail {
                        error: BrixError { kind: Some(BrixErrorKind::Io), message },
                    },
                )
            } else {
                match probe.parent {
                    Some(path) => {
                        if !probe.parent_exists {
                            (
                                WriteStage::CreatingParent {
                                    destination_exists: probe.destination_exists,
                                },
                                WriteAction::CreateDir { path },
                            )
                        } else {
                            act(params, decide(params.overwrite(), probe.destination_exists))
                        }
                    },
                    None => act(params, decide(params.overwrite(), probe.destination_exists)),
                }
            }
        },
        (WriteStage::CreatingParent { destination_exists }, WriteEvent::ParentCreated) => act(
            params,
            decide(params.overwrite(), destination_exists),
        ),
        (WriteStage::CreatingParent { .. }, WriteEvent::ParentFailed { path, reason }) => {
            let message = join2("unable to create '", path.as_str()).concat("': ").concat(
                reason.as_str(),
            );
            (
                WriteStage::Finished,
                WriteAction::Fail { error: BrixError { kind: Some(BrixErrorKind::Io), message } },
            )
        },
        (WriteStage::Asking, WriteEvent::Answered(answer)) => act(params, settle(answer)),
        (WriteStage::Writing, WriteEvent::Written) => (
            WriteStage::Finished,
            WriteAction::DoneWritten,
        ),
        (WriteStage::Writing, WriteEvent::WriteFailed { error }) => (
            WriteStage::Finished,
            WriteAction::Fail { error },
        ),
        _ => (
            WriteStage::Finished,
            WriteAction::Fail { error: BrixError::with("unexpected event") },
        ),
    }
}

/// An operation that writes to a destination from a source.
pub trait OverwritableCommand: Command {
    /// The parameters of the operation.
    type Params: OverwritableParams;

    /// The required fields that `pcp` lacks.
    spec fn missing(&self, pcp: ProcessedCommandParams) -> Seq<Seq<char>>;

    /// Checks that the required fields are given.
    fn from(&self, pcp: ProcessedCommandParams) -> (r: Result<Self::Params, ValidationError>)
        ensures
            match r {
                Ok(p) => self.missing(pcp).len() == 0 && pcp.source is Some
                    && pcp.destination is Some && p.spec_source() == pcp.source->0@
                    && p.spec_destination() == pcp.destination->0@ && p.spec_overwrite()
                    == pcp.overwrite,
                Err(e) => e@ == self.missing(pcp) && e@.len() > 0,
            },
    ;

    /// Takes the operation with the parameters `params` one step further:
    /// from the stage it has come to and what came back from the last
    /// action, to the next stage and action. The caller starts at `Probing`
    /// by looking at the paths, carries each action out, and stops at
    /// `Finished`; a failed write ends the operation with the write's own
    /// error.
    fn run(&self, params: &Self::Params, stage: WriteStage, event: WriteEvent) -> (r: (
        WriteStage,
        WriteAction,
    ))
        ensures
            step_holds(
                params.spec_source(),
                params.spec_destination(),
                params.spec_overwrite(),
                stage,
                event,
                r.0,
                r.1,
            ),
    {
        step(params, stage, event)
    }
}

} // verus!
