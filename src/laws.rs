use vstd::prelude::*;
use vstd::set_lib::{lemma_int_range, set_int_range};

use crate::crud::added;
use crate::store::{
    deleted, dense_has_id, deleted_well_formed, has_id, has_key, has_title, id_set, transitioned,
    well_formed,
};
use crate::error::CrudError;
use crate::task::{is_blank, is_key_shape, Task, TaskState, TaskView};

verus! {

/// In a well-formed table the identifiers in use are exactly 1..=N.
pub proof fn ids_are_one_to_n(s: Seq<TaskView>)
    requires
        well_formed(s),
    ensures
        id_set(s) == Set::new(|k: int| 1 <= k <= s.len()),
{
    assert forall|k: int| id_set(s).contains(k) <==> 1 <= k <= s.len() by {
        dense_has_id(s, k);
    }
    assert(id_set(s) =~= Set::new(|k: int| 1 <= k <= s.len()));
}

/// After a delete the table is still well formed and its identifiers are
/// exactly 1..=N for the N rows that are left.
pub proof fn delete_keeps_ids_dense(s: Seq<TaskView>, id: int)
    requires
        well_formed(s),
        has_id(s, id),
    ensures
        well_formed(deleted(s, id)),
        deleted(s, id).len() == s.len() - 1,
        id_set(deleted(s, id)) == Set::new(|k: int| 1 <= k <= deleted(s, id).len()),
{
    dense_has_id(s, id);
    deleted_well_formed(s, id);
    ids_are_one_to_n(deleted(s, id));
}

/// The number of rows of `s` whose identifier is below `id`.
pub open spec fn rank(s: Seq<TaskView>, id: int) -> int {
    Set::new(|j: int| 0 <= j < s.len() && s[j].id < id).len() as int
}

/// After a delete, every remaining task's identifier is one more than the
/// number of remaining tasks whose identifier was smaller before it.
pub proof fn delete_renumbers_by_rank(s: Seq<TaskView>, id: int)
    requires
        well_formed(s),
        has_id(s, id),
    ensures
        forall|i: int|
            0 <= i < s.len() - 1 ==> (#[trigger] deleted(s, id)[i]).id == rank(
                s.remove(id - 1),
                s.remove(id - 1)[i].id,
            ) + 1,
{
    dense_has_id(s, id);
    let rest = s.remove(id - 1);
    assert forall|i: int| 0 <= i < s.len() - 1 implies (#[trigger] deleted(s, id)[i]).id == rank(
        rest,
        rest[i].id,
    ) + 1 by {
        let below = Set::new(|j: int| 0 <= j < rest.len() && rest[j].id < rest[i].id);
        assert forall|j: int| below.contains(j) <==> set_int_range(0, i).contains(j) by {
            if 0 <= j < rest.len() {
                let oj = if j < id - 1 { j } else { j + 1 };
                let oi = if i < id - 1 { i } else { i + 1 };
                assert(rest[j] == s[oj] && rest[i] == s[oi]);
            }
        }
        assert(below =~= set_int_range(0, i));
        lemma_int_range(0, i);
    }
}

/// The external keys of the rows, in storage order.
pub open spec fn keys(s: Seq<TaskView>) -> Seq<Seq<char>> {
    s.map_values(|t: TaskView| t.uuid)
}

/// A delete removes the key of the deleted row and no other: every other row
/// keeps its key, title, state and creation time, in the same order, and
/// only its identifier may change.
pub proof fn delete_keeps_other_keys(s: Seq<TaskView>, id: int)
    requires
        well_formed(s),
        has_id(s, id),
    ensures
        keys(deleted(s, id)) == keys(s).remove(id - 1),
        forall|i: int|
            0 <= i < s.len() - 1 ==> {
                let old_row = #[trigger] s.remove(id - 1)[i];
                let new_row = deleted(s, id)[i];
                &&& new_row.uuid == old_row.uuid
                &&& new_row.title == old_row.title
                &&& new_row.state == old_row.state
                &&& new_row.created == old_row.created
            },
{
    dense_has_id(s, id);
    assert(keys(deleted(s, id)) =~= keys(s).remove(id - 1));
}

/// A transition leaves every row's key in place.
pub proof fn transition_keeps_keys(s: Seq<TaskView>, id: int, st: TaskState)
    requires
        well_formed(s),
        has_id(s, id),
    ensures
        keys(transitioned(s, id, st)) == keys(s),
{
    dense_has_id(s, id);
    assert(keys(transitioned(s, id, st)) =~= keys(s));
}

/// One operation on the table: an add (title, external key, creation time),
/// a transition, or a delete by identifier.
pub enum Step {
    Add(Seq<char>, Seq<char>, Seq<char>),
    Transition(int, TaskState),
    Delete(int),
}

/// The row that an add appends to table `s`.
pub open spec fn new_row(s: Seq<TaskView>, title: Seq<char>, key: Seq<char>, created: Seq<char>) -> TaskView {
    TaskView {
        state: TaskState::Pending,
        title,
        id: (s.len() + 1) as int,
        uuid: key,
        created,
        project: false,
        parent: Seq::empty(),
    }
}

/// The table after one step. An add with a blank or taken title, a taken
/// key, or no identifier left, and a step naming no task, change nothing.
pub open spec fn apply_step(s: Seq<TaskView>, step: Step) -> Seq<TaskView> {
    match step {
        Step::Add(title, key, created) => if !is_blank(title) && !has_title(s, title) && !has_key(s, key)
            && s.len() + 1 < i64::MAX {
            s.push(new_row(s, title, key, created))
        } else {
            s
        },
        Step::Transition(id, st) => if has_id(s, id) {
            transitioned(s, id, st)
        } else {
            s
        },
        Step::Delete(id) => if has_id(s, id) {
            deleted(s, id)
        } else {
            s
        },
    }
}

/// The table after a run of steps, in order.
pub open spec fn apply_steps(s: Seq<TaskView>, steps: Seq<Step>) -> Seq<TaskView>
    decreases steps.len(),
{
    if steps.len() == 0 {
        s
    } else {
        apply_step(apply_steps(s, steps.drop_last()), steps.last())
    }
}

/// A successful `create_task` is the add step with the key and creation
/// time that it drew.
pub proof fn created_task_is_add_step(before: Seq<TaskView>, title: Seq<char>, t: Task, after: Seq<TaskView>)
    requires
        before.len() + 1 < i64::MAX,
        added(before, title, Ok(t), after),
    ensures
        after == apply_step(before, Step::Add(title, t.uuid@, t.created@)),
{
    assert(t.parent@ =~= Seq::<char>::empty());
    assert(t@ == new_row(before, title, t.uuid@, t.created@));
}

/// An add, as `create_task` states it, keeps identifiers dense: afterwards
/// they are exactly 1..=N for the N rows then stored. On a table where no
/// stored key has the shape of a fresh key (an empty one, say), a title that
/// is neither blank nor taken is always added, as row N + 1.
pub proof fn add_keeps_ids_dense(
    before: Seq<TaskView>,
    title: Seq<char>,
    r: Result<Task, CrudError>,
    after: Seq<TaskView>,
)
    requires
        well_formed(before),
        before.len() + 1 < i64::MAX,
        added(before, title, r, after),
    ensures
        well_formed(after),
        id_set(after) == Set::new(|k: int| 1 <= k <= after.len()),
        !is_blank(title) && !has_title(before, title) && (forall|i: int|
            0 <= i < before.len() ==> !is_key_shape(#[trigger] before[i].uuid)) ==> {
            &&& r is Ok
            &&& after.len() == before.len() + 1
            &&& after[before.len() as int].id == before.len() + 1
            &&& after[before.len() as int].title == title
            &&& after[before.len() as int].state == TaskState::Pending
        },
{
    if let Ok(t) = r {
        created_task_is_add_step(before, title, t, after);
        step_keeps_well_formed(before, Step::Add(title, t.uuid@, t.created@));
    }
    ids_are_one_to_n(after);
}

/// Every step keeps the table well formed.
pub proof fn step_keeps_well_formed(s: Seq<TaskView>, step: Step)
    requires
        well_formed(s),
    ensures
        well_formed(apply_step(s, step)),
{
    match step {
        Step::Add(title, key, created) => {
            let after = apply_step(s, step);
            if after != s {
                let row = new_row(s, title, key, created);
                assert(after == s.push(row));
                assert forall|i: int, j: int|
                    0 <= i < after.len() && 0 <= j < after.len() && i != j implies (#[trigger] after[i]).title
                        != (#[trigger] after[j]).title && after[i].uuid != after[j].uuid by {
                    if i == s.len() {
                        assert(after[j] == s[j]);
                    } else if j == s.len() {
                        assert(after[i] == s[i]);
                    }
                }
            }
        },
        Step::Transition(id, st) => {
            if has_id(s, id) {
                transition_is_total(s, id, st);
            }
        },
        Step::Delete(id) => {
            if has_id(s, id) {
                dense_has_id(s, id);
                deleted_well_formed(s, id);
            }
        },
    }
}

/// Through any run of adds, transitions and deletes the table stays well
/// formed, so after every step, deletes included, the identifiers in use are
/// exactly 1..=N for the N rows then stored.
pub proof fn steps_keep_ids_dense(s: Seq<TaskView>, steps: Seq<Step>)
    requires
        well_formed(s),
    ensures
        well_formed(apply_steps(s, steps)),
        id_set(apply_steps(s, steps)) == Set::new(|k: int| 1 <= k <= apply_steps(s, steps).len()),
    decreases steps.len(),
{
    if steps.len() > 0 {
        steps_keep_ids_dense(s, steps.drop_last());
        step_keeps_well_formed(apply_steps(s, steps.drop_last()), steps.last());
    }
    ids_are_one_to_n(apply_steps(s, steps));
}

/// No delete among the steps removes the row whose key is `key`.
pub open spec fn spares_key(s: Seq<TaskView>, steps: Seq<Step>, key: Seq<char>) -> bool {
    forall|n: int|
        0 <= n < steps.len() ==> match #[trigger] steps[n] {
            Step::Delete(id) => {
                let before = apply_steps(s, steps.take(n));
                has_id(before, id) ==> before[id - 1].uuid != key
            },
            _ => true,
        }
}

/// Across any run of adds, transitions and deletes of other tasks, a task keeps
/// its external key: the row that had key `key`, title `title` and creation
/// time `created` is still there with all three.
pub proof fn key_survives_steps(
    s: Seq<TaskView>,
    steps: Seq<Step>,
    key: Seq<char>,
    title: Seq<char>,
    created: Seq<char>,
)
    requires
        well_formed(s),
        exists|i: int| 0 <= i < s.len() && #[trigger] s[i] .uuid == key && s[i].title == title && s[i].created == created,
        spares_key(s, steps, key),
    ensures
        well_formed(apply_steps(s, steps)),
        exists|j: int|
            0 <= j < apply_steps(s, steps).len() && #[trigger] apply_steps(s, steps)[j].uuid == key
                && apply_steps(s, steps)[j].title == title && apply_steps(s, steps)[j].created == created,
    decreases steps.len(),
{
    if steps.len() > 0 {
        let prefix = steps.drop_last();
        assert forall|n: int| 0 <= n < prefix.len() implies match #[trigger] prefix[n] {
            Step::Delete(id) => {
                let before = apply_steps(s, prefix.take(n));
                has_id(before, id) ==> before[id - 1].uuid != key
            },
            _ => true,
        } by {
            assert(prefix.take(n) =~= steps.take(n));
            assert(prefix[n] == steps[n]);
        }
        key_survives_steps(s, prefix, key, title, created);
        let before = apply_steps(s, prefix);
        let j = choose|j: int|
            0 <= j < before.len() && #[trigger] before[j].uuid == key && before[j].title == title
                && before[j].created == created;
        let last = steps.last();
        assert(steps.take(steps.len() - 1) =~= prefix);
        assert(steps[steps.len() - 1] == last);
        match last {
            Step::Add(..) => {
                step_keeps_well_formed(before, last);
                let after = apply_step(before, last);
                assert(after[j] == before[j]);
            },
            Step::Transition(id, st) => {
                if has_id(before, id) {
                    dense_has_id(before, id);
                    let after = transitioned(before, id, st);
                    assert(after[j].uuid == key && after[j].title == title && after[j].created == created);
                    assert(well_formed(after));
                }
            },
            Step::Delete(id) => {
                if has_id(before, id) {
                    dense_has_id(before, id);
                    deleted_well_formed(before, id);
                    let after = deleted(before, id);
                    assert(j != id - 1);
                    let nj = if j < id - 1 { j } else { j - 1 };
                    assert(after[nj].uuid == key && after[nj].title == title && after[nj].created == created);
                }
            },
        }
    }
}

/// From any state, a transition to any state (the same one included)
/// succeeds on an existing task, keeps the table well formed, and a lookup by
/// the same identifier then finds the task in the new state.
pub proof fn transition_is_total(s: Seq<TaskView>, id: int, st: TaskState)
    requires
        well_formed(s),
        has_id(s, id),
    ensures
        well_formed(transitioned(s, id, st)),
        has_id(transitioned(s, id, st), id),
        transitioned(s, id, st)[id - 1].state == st,
        transitioned(s, id, st)[id - 1].id == id,
{
    dense_has_id(s, id);
    dense_has_id(transitioned(s, id, st), id);
}

/// Deleting identifier `id` moves every later task down by one (the task
/// that was `k + 1` is now `k`), and the former largest identifier then names
/// no task.
pub proof fn delete_shifts_later_ids(s: Seq<TaskView>, id: int)
    requires
        well_formed(s),
        has_id(s, id),
    ensures
        forall|k: int|
            id <= k < s.len() ==> #[trigger] deleted(s, id)[k - 1] == (TaskView { id: k, ..s[k] }),
        !has_id(deleted(s, id), (s.len() as int)),
{
    dense_has_id(s, id);
    deleted_well_formed(s, id);
    dense_has_id(deleted(s, id), s.len() as int);
}

} // verus!
