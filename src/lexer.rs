use vstd::prelude::*;

use crate::crud::{added, create_task, delete_task, read_task, update_task};
use crate::error::{CliError, CrudError};
use crate::store::{has_id, transitioned, TaskStore};
use crate::task::{views, Task, TaskState, TaskView};

verus! {

/// An ASCII decimal digit.
pub open spec fn is_digit(c: char) -> bool {
    '0' <= c <= '9'
}

/// The value of a run of decimal digits.
pub open spec fn digits_value(d: Seq<char>) -> int
    decreases d.len(),
{
    if d.len() == 0 {
        0
    } else {
        10 * digits_value(d.drop_last()) + ((d.last() as u32) - ('0' as u32))
    }
}

/// The integer that `s` writes in decimal: an optional `+` or `-` followed by
/// one or more digits and nothing else; `None` for any other text, or for a
/// value outside the range of `i64`.
pub open spec fn decimal_value(s: Seq<char>) -> Option<int> {
    let signed = s.len() > 0 && (s[0] == '+' || s[0] == '-');
    let body = if signed {
        s.skip(1)
    } else {
        s
    };
    let magnitude = digits_value(body);
    let v = if signed && s[0] == '-' {
        -magnitude
    } else {
        magnitude
    };
    if body.len() > 0 && (forall|i: int| 0 <= i < body.len() ==> is_digit(#[trigger] body[i])) && i64::MIN
        <= v <= i64::MAX {
        Some(v)
    } else {
        None
    }
}

/// Relies on `str::parse::<i64>` (`i64::from_str`): it accepts an optional
/// sign followed by ASCII digits only, and fails when the value overflows.
#[verifier::external_body]
fn parse_i64(s: &str) -> (r: Result<i64, core::num::ParseIntError>)
    ensures
        match decimal_value(s@) {
            Some(v) => r matches Ok(n) && n == v,
            None => r is Err,
        },
{
    s.parse::<i64>()
}

/// Reads an identifier argument written in decimal.
pub fn parse_num(num_string: String) -> (r: Result<i64, CliError>)
    ensures
        match decimal_value(num_string@) {
            Some(v) => r matches Ok(n) && n == v,
            None => r matches Err(CliError::InvalidArgumentFormat(_)),
        },
{
    match parse_i64(num_string.as_str()) {
        Ok(n) => Ok(n),
        Err(e) => Err(CliError::InvalidArgumentFormat(e)),
    }
}

/// The views of a sequence of strings.
pub open spec fn string_views(v: Seq<String>) -> Seq<Seq<char>> {
    v.map_values(|s: String| s@)
}

/// The words joined with single spaces between them.
pub open spec fn joined(words: Seq<Seq<char>>) -> Seq<char>
    decreases words.len(),
{
    if words.len() == 0 {
        Seq::empty()
    } else if words.len() == 1 {
        words[0]
    } else {
        joined(words.drop_last()) + seq![' '] + words.last()
    }
}

/// The words of `add`'s argument list, joined by single spaces into a title.
pub fn join_words(words: &Vec<String>) -> (r: String)
    ensures
        r@ == joined(string_views(words@)),
{
    let ghost w = string_views(words@);
    let mut out = String::new();
    let mut i: usize = 0;
    proof {
        reveal_strlit(" ");
        assert(w.take(0) =~= Seq::<Seq<char>>::empty());
    }
    while i < words.len()
        invariant
            0 <= i <= words@.len(),
            w == string_views(words@),
            out@ == joined(w.take(i as int)),
            " "@ == seq![' '],
        decreases words@.len() - i,
    {
        if i > 0 {
            out.append(" ");
        }
        out.append(words[i].as_str());
        proof {
            let next = w.take(i + 1);
            assert(next.drop_last() =~= w.take(i as int));
            assert(next.last() == words@[i as int]@);
            assert(out@ =~= joined(next));
        }
        i = i + 1;
    }
    assert(w.take(i as int) =~= w);
    out
}

/// A command of the command surface, each with its raw arguments.
#[derive(Clone, Debug, PartialEq, Eq)]
pub enum Command {
    Add { create_args: Vec<String> },
    Show { task_id: Option<String> },
    Start { task_id: String },
    Block { task_id: String },
    Someday { task_id: String },
    Cancel { task_id: String },
    Pause { task_id: String },
    Finish { task_id: String },
    Delete { task_id: String },
}

/// What a command hands back to be shown.
#[derive(Clone, Debug, PartialEq, Eq)]
pub enum Reply {
    /// The task just added.
    Added(Task),
    /// The tasks asked for.
    Shown(Vec<Task>),
    /// The task whose state was just set.
    Updated(Task),
    /// The task that a delete command names: the caller asks for a yes or a
    /// no and passes the answer to `delete_task`.
    ConfirmDelete(Task),
}

/// The state that a state-changing command sets.
pub open spec fn target_state(c: Command) -> Option<TaskState> {
    match c {
        Command::Start { .. } => Some(TaskState::Started),
        Command::Block { .. } => Some(TaskState::Blocked),
        Command::Someday { .. } => Some(TaskState::Someday),
        Command::Cancel { .. } => Some(TaskState::Cancelled),
        Command::Pause { .. } => Some(TaskState::Paused),
        Command::Finish { .. } => Some(TaskState::Finished),
        _ => None,
    }
}

/// The outcome of looking up the task named by identifier argument `arg`:
/// `found` says what holds of the reply when the task exists.
pub open spec fn lookup_outcome(
    before: Seq<TaskView>,
    arg: Seq<char>,
    r: Result<Reply, CliError>,
    found: spec_fn(int) -> bool,
) -> bool {
    match decimal_value(arg) {
        None => r matches Err(CliError::InvalidArgumentFormat(_)),
        Some(id) => if has_id(before, id) {
            found(id)
        } else {
            r == Err::<Reply, CliError>(CliError::CrudError(CrudError::TaskNotFound))
        },
    }
}

/// What running command `c` on table `before` gives, and the table after.
pub open spec fn command_outcome(
    c: Command,
    before: Seq<TaskView>,
    r: Result<Reply, CliError>,
    after: Seq<TaskView>,
) -> bool {
    match c {
        Command::Add { create_args } => {
            let title = joined(string_views(create_args@));
            match r {
                Ok(Reply::Added(t)) => added(before, title, Ok(t), after),
                Err(CliError::CrudError(e)) => added(before, title, Err(e), after),
                _ => false,
            }
        },
        Command::Show { task_id: None } => {
            &&& r matches Ok(Reply::Shown(v)) && views(v@) == before
            &&& after == before
        },
        Command::Show { task_id: Some(a) } => {
            &&& lookup_outcome(
                before,
                a@,
                r,
                |id: int| r matches Ok(Reply::Shown(v)) && views(v@) == seq![before[id - 1]],
            )
            &&& after == before
        },
        Command::Delete { task_id } => {
            &&& lookup_outcome(
                before,
                task_id@,
                r,
                |id: int| r matches Ok(Reply::ConfirmDelete(t)) && t@ == before[id - 1],
            )
            &&& after == before
        },
        Command::Start { task_id }
        | Command::Block { task_id }
        | Command::Someday { task_id }
        | Command::Cancel { task_id }
        | Command::Pause { task_id }
        | Command::Finish { task_id } => state_outcome(before, task_id@, target_state(c)->0, r, after),
    }
}

/// What a command that sets state `st` on the task named by `arg` gives.
pub open spec fn state_outcome(
    before: Seq<TaskView>,
    arg: Seq<char>,
    st: TaskState,
    r: Result<Reply, CliError>,
    after: Seq<TaskView>,
) -> bool {
    match decimal_value(arg) {
        None => r matches Err(CliError::InvalidArgumentFormat(_)) && after == before,
        Some(id) => if has_id(before, id) {
            &&& after == transitioned(before, id, st)
            &&& r matches Ok(Reply::Updated(t)) && t@ == after[id - 1]
        } else {
            &&& r == Err::<Reply, CliError>(CliError::CrudError(CrudError::TaskNotFound))
            &&& after == before
        },
    }
}

/// Sets state `st` on the task named by identifier argument `arg`.
fn change_state(store: &mut TaskStore, arg: String, st: TaskState) -> (r: Result<Reply, CliError>)
    requires
        old(store).wf(),
    ensures
        final(store).wf(),
        state_outcome(old(store)@, arg@, st, r, final(store)@),
{
    let id = match parse_num(arg) {
        Ok(n) => n,
        Err(e) => return Err(e),
    };
    match update_task(store, id, st) {
        Ok(t) => Ok(Reply::Updated(t)),
        Err(e) => Err(CliError::CrudError(e)),
    }
}

/// Runs one command against the table.
pub fn parse_cli(store: &mut TaskStore, command: Command) -> (r: Result<Reply, CliError>)
    requires
        old(store).wf(),
        old(store)@.len() + 1 < i64::MAX,
    ensures
        final(store).wf(),
        command_outcome(command, old(store)@, r, final(store)@),
{
    match command {
        Command::Add { create_args } => {
            let title = join_words(&create_args);
            match create_task(store, title) {
                Ok(t) => Ok(Reply::Added(t)),
                Err(e) => Err(CliError::CrudError(e)),
            }
        },
        Command::Show { task_id } => {
            let id = match task_id {
                Some(a) => match parse_num(a) {
                    Ok(n) => Some(n),
                    Err(e) => return Err(e),
                },
                None => None,
            };
            match read_task(store, id) {
                Ok(v) => Ok(Reply::Shown(v)),
                Err(e) => Err(CliError::CrudError(e)),
            }
        },
        Command::Start { task_id } => change_state(store, task_id, TaskState::Started),
        Command::Block { task_id } => change_state(store, task_id, TaskState::Blocked),
        Command::Someday { task_id } => change_state(store, task_id, TaskState::Someday),
        Command::Cancel { task_id } => change_state(store, task_id, TaskState::Cancelled),
        Command::Pause { task_id } => change_state(store, task_id, TaskState::Paused),
        Command::Finish { task_id } => change_state(store, task_id, TaskState::Finished),
        Command::Delete { task_id } => {
            let id = match parse_num(task_id) {
                Ok(n) => n,
                Err(e) => return Err(e),
            };
            match store.find_by_id(id) {
                Ok(t) => Ok(Reply::ConfirmDelete(t)),
                Err(e) => Err(CliError::CrudError(e)),
            }
        },
    }
}

} // verus!
