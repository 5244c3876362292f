//! What a run tells the user: how many operations of each kind there are,
//! which one is running, and which one failed.

use vstd::prelude::*;
use vstd::string::StringExecFns;
use crate::dispatch::CommandKind;
use crate::errors::BrixError;
use crate::loader::CommandList;
use crate::paths::{display_path, displayed};
use crate::text::{join2, text_of_chars};

verus! {

/// The status with which a run ends that went well.
pub const EXIT_SUCCESS: i32 = 0;

/// The status with which a run ends that failed.
pub const EXIT_FAILURE: i32 = 2;

/// The kinds of `commands`, in order.
pub open spec fn kinds_of(commands: Seq<(CommandKind, crate::command::ProcessedCommandParams)>) -> Seq<
    CommandKind,
> {
    Seq::new(commands.len(), |i: int| commands[i].0)
}

/// How many of `kinds` are `kind`.
pub open spec fn count_of(kinds: Seq<CommandKind>, kind: CommandKind) -> nat
    decreases kinds.len(),
{
    if kinds.len() == 0 {
        0
    } else {
        count_of(kinds.drop_last(), kind) + if kinds.last() == kind {
            1nat
        } else {
            0nat
        }
    }
}

/// No more of `kinds` are `kind` than there are.
pub proof fn lemma_count_bound(kinds: Seq<CommandKind>, kind: CommandKind)
    ensures
        count_of(kinds, kind) <= kinds.len(),
    decreases kinds.len(),
{
    if kinds.len() > 0 {
        lemma_count_bound(kinds.drop_last(), kind);
    }
}

/// The longer the list, the more of a kind it holds: counting in a part
/// from the start never passes the count in the whole.
pub proof fn lemma_count_prefix(kinds: Seq<CommandKind>, n: int, kind: CommandKind)
    requires
        0 <= n <= kinds.len(),
    ensures
        count_of(kinds.take(n), kind) <= count_of(kinds, kind),
    decreases kinds.len() - n,
{
    if n < kinds.len() {
        lemma_count_prefix(kinds, n + 1, kind);
        assert(kinds.take(n + 1).drop_last() =~= kinds.take(n));
    } else {
        assert(kinds.take(n) =~= kinds);
    }
}

/// Counts the operations of `kind` among the first `n` of `commands`.
pub fn count_kind(commands: &CommandList, n: usize, kind: CommandKind) -> (c: usize)
    requires
        n <= commands@.len(),
    ensures
        c == count_of(kinds_of(commands@).take(n as int), kind),
{
    let mut c: usize = 0;
    let mut i: usize = 0;
    let ghost kinds = kinds_of(commands@);
    assert(kinds.take(0) =~= Seq::<CommandKind>::empty());
    while i < n
        invariant
            i <= n <= commands@.len(),
            kinds == kinds_of(commands@),
            c == count_of(kinds.take(i as int), kind),
            c <= i,
        decreases n - i,
    {
        proof {
            assert(kinds.take(i + 1).drop_last() =~= kinds.take(i as int));
            assert(kinds.take(i + 1).last() == commands@[i as int].0);
        }
        if commands[i].0 == kind {
            c += 1;
        }
        i += 1;
    }
    c
}

/// A digit as a character.
pub open spec fn digit(d: nat) -> char {
    if d == 0 {
        '0'
    } else if d == 1 {
        '1'
    } else if d == 2 {
        '2'
    } else if d == 3 {
        '3'
    } else if d == 4 {
        '4'
    } else if d == 5 {
        '5'
    } else if d == 6 {
        '6'
    } else if d == 7 {
        '7'
    } else if d == 8 {
        '8'
    } else {
        '9'
    }
}

/// A number in decimal.
pub open spec fn decimal(n: nat) -> Seq<char>
    decreases n,
{
    if n < 10 {
        seq![digit(n)]
    } else {
        decimal(n / 10).push(digit(n % 10))
    }
}

fn digit_char(d: usize) -> (c: char)
    requires
        d < 10,
    ensures
        c == digit(d as nat),
{
    if d == 0 {
        '0'
    } else if d == 1 {
        '1'
    } else if d == 2 {
        '2'
    } else if d == 3 {
        '3'
    } else if d == 4 {
        '4'
    } else if d == 5 {
        '5'
    } else if d == 6 {
        '6'
    } else if d == 7 {
        '7'
    } else if d == 8 {
        '8'
    } else {
        '9'
    }
}

/// Writes a number in decimal.
pub fn to_decimal(n: usize) -> (s: String)
    ensures
        s@ == decimal(n as nat),
{
    let mut reversed: Vec<char> = Vec::new();
    let mut rest: usize = n;
    reversed.push(digit_char(rest % 10));
    rest = rest / 10;
    let ghost mut done: Seq<char> = seq![digit((n % 10) as nat)];
    // `done` holds the digits found so far, the highest first
    while rest > 0
        invariant
            reversed@.len() == done.len(),
            done.len() > 0,
            forall|j: int| 0 <= j < done.len() ==> reversed@[j] == done[done.len() - 1 - j],
            decimal(n as nat) == if rest == 0 {
                done
            } else {
                decimal(rest as nat) + done
            },
        decreases rest,
    {
        let d = digit_char(rest % 10);
        proof {
            let before = done;
            done = seq![d] + before;
            if rest < 10 {
                assert(decimal(rest as nat) + before =~= done);
            } else {
                assert(decimal(rest as nat) + before =~= decimal((rest / 10) as nat) + done);
            }
        }
        reversed.push(d);
        rest = rest / 10;
    }
    let mut digits: Vec<char> = Vec::new();
    let mut i: usize = reversed.len();
    while i > 0
        invariant
            i <= reversed@.len(),
            reversed@.len() == done.len(),
            forall|j: int| 0 <= j < done.len() ==> reversed@[j] == done[done.len() - 1 - j],
            digits@ == done.take(done.len() - i),
        decreases i,
    {
        i -= 1;
        digits.push(reversed[i]);
        assert(digits@ =~= done.take(done.len() - i));
    }
    assert(done.take(done.len() as int) =~= done);
    text_of_chars(&digits)
}

/// Every kind of operation, in the order in which totals are shown.
pub open spec fn every_kind() -> Seq<CommandKind> {
    seq![
        CommandKind::Copy,
        CommandKind::Exec,
        CommandKind::Mkdir,
        CommandKind::SearchReplace,
        CommandKind::Template,
    ]
}

/// The totals of the kinds in `order` that occur among `kinds`, each as the
/// kind's name, a multiplication sign and the number, with commas between
/// them.
pub open spec fn totals_message(kinds: Seq<CommandKind>, order: Seq<CommandKind>) -> Seq<char>
    decreases order.len(),
{
    if order.len() == 0 {
        Seq::empty()
    } else {
        let head = totals_message(kinds, order.drop_last());
        let kind = order.last();
        let part = kind.spec_name() + " \u{d7}"@ + decimal(count_of(kinds, kind));
        if count_of(kinds, kind) == 0 {
            head
        } else if head.len() == 0 {
            part
        } else {
            head + ", "@ + part
        }
    }
}

/// Writes how many operations of each kind a run holds, before any of them
/// runs; kinds that do not occur are left out.
pub fn totals_line(commands: &CommandList) -> (line: String)
    ensures
        line@ == totals_message(kinds_of(commands@), every_kind()),
{
    let order = vec![
        CommandKind::Copy,
        CommandKind::Exec,
        CommandKind::Mkdir,
        CommandKind::SearchReplace,
        CommandKind::Template,
    ];
    assert(order@ =~= every_kind());
    let ghost kinds = kinds_of(commands@);
    let mut line = String::new();
    let mut i: usize = 0;
    assert(order@.take(0) =~= Seq::<CommandKind>::empty());
    while i < order.len()
        invariant
            i <= order@.len(),
            kinds == kinds_of(commands@),
            line@ == totals_message(kinds, order@.take(i as int)),
        decreases order@.len() - i,
    {
        proof {
            assert(order@.take(i + 1).drop_last() =~= order@.take(i as int));
            assert(order@.take(i + 1).last() == order@[i as int]);
            assert(kinds.take(commands@.len() as int) =~= kinds);
        }
        let kind = order[i];
        let count = count_kind(commands, commands.len(), kind);
        if count > 0 {
            let empty = line.as_str().unicode_len() == 0;
            if !empty {
                line.append(", ");
            }
            line.append(kind.name());
            line.append(" \u{d7}");
            line.append(to_decimal(count).as_str());
            assert(line@ =~= totals_message(kinds, order@.take(i + 1)));
        }
        i += 1;
    }
    assert(order@.take(order@.len() as int) =~= order@);
    line
}

/// The line that says which operation is running: its name, and the
/// operation's number among the `total` operations of its kind.
pub open spec fn progress_message(name: Seq<char>, number: nat, total: nat) -> Seq<char> {
    "RUNNING "@ + name + " ("@ + decimal(number) + "/"@ + decimal(total) + ")"@
}

/// The line that says that an operation failed: its name, its number among
/// the operations of its kind, and the declaration it stands in.
pub open spec fn failure_message(name: Seq<char>, number: nat, config_file: Seq<char>) -> Seq<char> {
    "Error running "@ + name + " command ("@ + decimal(number) + ") in '"@ + displayed(
        config_file,
    ) + "'"@
}

/// Where the operation at `index` stands among those of its kind.
#[derive(Debug, Clone, Copy, PartialEq, Eq, Structural)]
pub struct Position {
    /// Its number among the operations of its kind, the first being 1.
    pub number: usize,
    /// How many operations of its kind there are.
    pub total: usize,
}

/// Finds where the operation at `index` stands among those of its kind.
pub fn position(commands: &CommandList, index: usize) -> (p: Position)
    requires
        index < commands@.len(),
    ensures
        p.number == count_of(kinds_of(commands@).take(index as int), commands@[index as int].0)
            + 1,
        p.total == count_of(kinds_of(commands@), commands@[index as int].0),
        1 <= p.number <= p.total,
{
    let kind = commands[index].0;
    let before = count_kind(commands, index, kind);
    let total = count_kind(commands, commands.len(), kind);
    proof {
        let kinds = kinds_of(commands@);
        assert(kinds.take(commands@.len() as int) =~= kinds);
        lemma_count_bound(kinds, kind);
        lemma_count_prefix(kinds, index + 1, kind);
        assert(kinds.take(index + 1).drop_last() =~= kinds.take(index as int));
        assert(kinds.take(index + 1).last() == kind);
    }
    Position { number: before + 1, total }
}

/// Writes the line that says which operation is running.
pub fn progress_line(kind: CommandKind, position: Position) -> (line: String)
    ensures
        line@ == progress_message(
            kind.spec_name(),
            position.number as nat,
            position.total as nat,
        ),
{
    let number = to_decimal(position.number);
    let total = to_decimal(position.total);
    join2("RUNNING ", kind.name()).concat(" (").concat(number.as_str()).concat("/").concat(
        total.as_str(),
    ).concat(")")
}

/// Writes the line that says that an operation failed.
pub fn failure_line(kind: CommandKind, position: Position, config_file: &str) -> (line: String)
    ensures
        line@ == failure_message(kind.spec_name(), position.number as nat, config_file@),
{
    let number = to_decimal(position.number);
    let shown = display_path(config_file);
    join2("Error running ", kind.name()).concat(" command (").concat(number.as_str()).concat(
        ") in '",
    ).concat(shown.as_str()).concat("'")
}

/// What a run does next.
#[derive(Debug)]
pub enum RunAction {
    /// Tell the user `line` and run the operation at `index`.
    Run { index: usize, line: String },
    /// Every operation has run: the run ends with `status`.
    Done { status: i32 },
    /// An operation failed: tell the user `line` and `error`; no further
    /// operation runs, and the run ends with `status`.
    Failed { status: i32, line: String, error: BrixError },
}

/// The number of the operation at `index` among those of its kind.
pub open spec fn number_of(kinds: Seq<CommandKind>, index: int) -> nat {
    count_of(kinds.take(index), kinds[index]) + 1
}

/// Whether `action` is what a run does next, when `ran` of its operations
/// have run and the last of them ended with `last`: after a failure the run
/// ends with the failure status and the line that names the failed
/// operation and its number; after the last operation it ends with the
/// success status; else the operation at `ran` runs next, under the line
/// that gives its name, its number and the total of its kind.
pub open spec fn advance_holds(
    kinds: Seq<CommandKind>,
    ran: usize,
    last: Result<(), BrixError>,
    config_file: Seq<char>,
    action: RunAction,
) -> bool {
    match last {
        Err(error) => action is Failed && action->Failed_status == EXIT_FAILURE
            && action->error == error && action->Failed_line@ == failure_message(
            kinds[ran - 1].spec_name(),
            number_of(kinds, ran - 1),
            config_file,
        ),
        Ok(_) => if ran < kinds.len() {
            action is Run && action->index == ran && action->Run_line@ == progress_message(
                kinds[ran as int].spec_name(),
                number_of(kinds, ran as int),
                count_of(kinds, kinds[ran as int]),
            )
        } else {
            action is Done && action->Done_status == EXIT_SUCCESS
        },
    }
}

/// Decides what a run does next. The caller starts with `ran` at 0 and
/// `Ok`, runs the operation it is handed, and comes back with one more in
/// `ran` and the operation's result.
pub fn advance(
    commands: &CommandList,
    ran: usize,
    last: Result<(), BrixError>,
    config_file: &str,
) -> (action: RunAction)
    requires
        ran <= commands@.len(),
        last is Err ==> ran > 0,
    ensures
        advance_holds(kinds_of(commands@), ran, last, config_file@, action),
{
    match last {
        Err(error) => {
            let at = position(commands, ran - 1);
            RunAction::Failed {
                status: EXIT_FAILURE,
                line: failure_line(commands[ran - 1].0, at, config_file),
                error,
            }
        },
        Ok(_) => {
            if ran < commands.len() {
                let at = position(commands, ran);
                RunAction::Run { index: ran, line: progress_line(commands[ran].0, at) }
            } else {
                RunAction::Done { status: EXIT_SUCCESS }
            }
        },
    }
}

/// The error that a declaration which could not be loaded ends with.
pub fn loading_error(config_file: &str, err: &BrixError) -> (e: BrixError)
    ensures
        e.kind is None,
        e.message@ == "Error loading config at '"@ + displayed(config_file@) + "':\n"@
            + err.spec_display(),
{
    let shown = display_path(config_file);
    let text = err.display();
    BrixError {
        kind: None,
        message: join2("Error loading config at '", shown.as_str()).concat("':\n").concat(
            text.as_str(),
        ),
    }
}

} // verus!
