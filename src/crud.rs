use vstd::prelude::*;

use crate::error::CrudError;
use crate::store::{dense_has_id, deleted, has_id, has_key, has_title, transitioned, TaskStore};
use crate::task::{is_blank, is_key_shape, title_is_blank, views, Task, TaskState, TaskView};

verus! {

/// The outcome of a delete request that found its task.
#[derive(Clone, Debug, PartialEq, Eq)]
pub enum Deletion {
    /// The task was removed; it is given as it was before.
    Deleted(Task),
    /// The caller declined; nothing changed.
    NotDeleted,
}

/// What adding a task titled `title` to table `before` may give: `EmptyTitle`
/// for a blank title, `DuplicateTitle` for a taken one, else a new pending
/// row under the next identifier with a fresh key that no row has, or
/// `DuplicateKey` should the fresh key clash with a stored one (so only when
/// some stored key has the shape of a fresh key). Failures change nothing.
pub open spec fn added(
    before: Seq<TaskView>,
    title: Seq<char>,
    r: Result<Task, CrudError>,
    after: Seq<TaskView>,
) -> bool {
    &&& is_blank(title) ==> r == Err::<Task, CrudError>(CrudError::EmptyTitle)
    &&& !is_blank(title) && has_title(before, title) ==> r == Err::<Task, CrudError>(CrudError::DuplicateTitle)
    &&& !is_blank(title) && !has_title(before, title) ==> (r is Ok || r == Err::<Task, CrudError>(
        CrudError::DuplicateKey,
    ))
    &&& r == Err::<Task, CrudError>(CrudError::DuplicateKey) ==> exists|i: int|
        0 <= i < before.len() && is_key_shape(#[trigger] before[i].uuid)
    &&& r matches Ok(t) ==> {
        &&& t.id == before.len() + 1
        &&& t.title@ == title
        &&& t.state == TaskState::Pending
        &&& !t.project
        &&& t.parent@.len() == 0
        &&& is_key_shape(t.uuid@)
        &&& !has_key(before, t.uuid@)
        &&& after == before.push(t@)
    }
    &&& r is Err ==> after == before
}

/// Adds a pending task titled `title` under the next identifier, with a fresh
/// external key. Fails with `EmptyTitle` for a blank title and with
/// `DuplicateTitle` when the title is taken; a fresh key that clashes with a
/// stored one gives `DuplicateKey`. On failure the table is unchanged.
pub fn create_task(store: &mut TaskStore, title: String) -> (r: Result<Task, CrudError>)
    requires
        old(store).wf(),
        old(store)@.len() + 1 < i64::MAX,
    ensures
        final(store).wf(),
        added(old(store)@, title@, r, final(store)@),
{
    if title_is_blank(title.as_str()) {
        return Err(CrudError::EmptyTitle);
    }
    let id = store.next_identifier();
    let task = Task::new(title, id);
    let row = task.duplicate();
    match store.insert(row) {
        Ok(()) => Ok(task),
        Err(e) => Err(e),
    }
}

/// With an identifier, the one task that has it (`TaskNotFound` if none);
/// without, every task in storage order, whatever its state.
pub fn read_task(store: &TaskStore, task_id: Option<i64>) -> (r: Result<Vec<Task>, CrudError>)
    requires
        store.wf(),
    ensures
        match task_id {
            None => r matches Ok(v) && views(v@) == store@,
            Some(id) => {
                &&& has_id(store@, id as int) <==> r is Ok
                &&& r matches Ok(v) ==> views(v@) == seq![store@[id - 1]]
                &&& r is Err ==> r == Err::<Vec<Task>, CrudError>(CrudError::TaskNotFound)
            },
        },
{
    match task_id {
        None => Ok(store.find_all()),
        Some(id) => match store.find_by_id(id) {
            Ok(t) => {
                let mut v: Vec<Task> = Vec::new();
                v.push(t);
                assert(views(v@) =~= seq![store@[id - 1]]);
                Ok(v)
            },
            Err(e) => Err(e),
        },
    }
}

/// Moves the task with identifier `task_id` to `task_state`, whatever its
/// current state, and returns it as it now is. `TaskNotFound`, with the
/// table unchanged, if there is no such task.
pub fn update_task(store: &mut TaskStore, task_id: i64, task_state: TaskState) -> (r: Result<Task, CrudError>)
    requires
        old(store).wf(),
    ensures
        final(store).wf(),
        has_id(old(store)@, task_id as int) <==> r is Ok,
        r matches Ok(t) ==> {
            &&& final(store)@ == transitioned(old(store)@, task_id as int, task_state)
            &&& t@ == final(store)@[task_id - 1]
        },
        r is Err ==> r == Err::<Task, CrudError>(CrudError::TaskNotFound) && final(store)@ == old(store)@,
{
    match store.update_status(task_id, task_state) {
        Ok(()) => {
            proof {
                dense_has_id(old(store)@, task_id as int);
                dense_has_id(store@, task_id as int);
            }
            store.find_by_id(task_id)
        },
        Err(e) => Err(e),
    }
}

/// Deletes the task with identifier `task_id` when `confirmed`, renumbering
/// the later ones; otherwise leaves the table as it is. `TaskNotFound`, with
/// the table unchanged, if there is no such task.
pub fn delete_task(store: &mut TaskStore, task_id: i64, confirmed: bool) -> (r: Result<Deletion, CrudError>)
    requires
        old(store).wf(),
    ensures
        final(store).wf(),
        !has_id(old(store)@, task_id as int) ==> {
            &&& r == Err::<Deletion, CrudError>(CrudError::TaskNotFound)
            &&& final(store)@ == old(store)@
        },
        has_id(old(store)@, task_id as int) && confirmed ==> {
            &&& r matches Ok(Deletion::Deleted(t)) && t@ == old(store)@[task_id - 1]
            &&& final(store)@ == deleted(old(store)@, task_id as int)
        },
        has_id(old(store)@, task_id as int) && !confirmed ==> {
            &&& r == Ok::<Deletion, CrudError>(Deletion::NotDeleted)
            &&& final(store)@ == old(store)@
        },
{
    let task = match store.find_by_id(task_id) {
        Ok(t) => t,
        Err(e) => return Err(e),
    };
    if !confirmed {
        return Ok(Deletion::NotDeleted);
    }
    match store.delete_and_renumber(task_id) {
        Ok(()) => Ok(Deletion::Deleted(task)),
        Err(e) => Err(e),
    }
}

} // verus!
