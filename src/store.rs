use vstd::prelude::*;

use crate::error::CrudError;
use crate::task::{is_blank, title_is_blank, views, Task, TaskState, TaskView};

verus! {

/// Identifiers run 1, 2, ..., N in storage order.
pub open spec fn dense(s: Seq<TaskView>) -> bool {
    forall|i: int| 0 <= i < s.len() ==> (#[trigger] s[i]).id == i + 1
}

/// No two rows share a title.
pub open spec fn distinct_titles(s: Seq<TaskView>) -> bool {
    forall|i: int, j: int|
        0 <= i < s.len() && 0 <= j < s.len() && i != j ==> (#[trigger] s[i]).title != (#[trigger] s[j]).title
}

/// No two rows share an external key.
pub open spec fn distinct_keys(s: Seq<TaskView>) -> bool {
    forall|i: int, j: int|
        0 <= i < s.len() && 0 <= j < s.len() && i != j ==> (#[trigger] s[i]).uuid != (#[trigger] s[j]).uuid
}

/// Every row has a title that is not blank.
pub open spec fn titles_present(s: Seq<TaskView>) -> bool {
    forall|i: int| 0 <= i < s.len() ==> !is_blank((#[trigger] s[i]).title)
}

/// The invariant of the task table.
pub open spec fn well_formed(s: Seq<TaskView>) -> bool {
    &&& dense(s)
    &&& titles_present(s)
    &&& distinct_titles(s)
    &&& distinct_keys(s)
    &&& s.len() < i64::MAX
}

/// Some row has identifier `id`.
pub open spec fn has_id(s: Seq<TaskView>, id: int) -> bool {
    exists|i: int| 0 <= i < s.len() && (#[trigger] s[i]).id == id
}

/// Some row has this title.
pub open spec fn has_title(s: Seq<TaskView>, title: Seq<char>) -> bool {
    exists|i: int| 0 <= i < s.len() && (#[trigger] s[i]).title == title
}

/// Some row has this external key.
pub open spec fn has_key(s: Seq<TaskView>, key: Seq<char>) -> bool {
    exists|i: int| 0 <= i < s.len() && (#[trigger] s[i]).uuid == key
}

/// The set of identifiers in use.
pub open spec fn id_set(s: Seq<TaskView>) -> Set<int> {
    Set::new(|id: int| has_id(s, id))
}

/// The rows in order, each given identifier position + 1.
pub open spec fn renumbered(s: Seq<TaskView>) -> Seq<TaskView> {
    Seq::new(s.len(), |i: int| TaskView { id: i + 1, ..s[i] })
}

/// The table after the row with identifier `id` (under `dense`, at position
/// `id - 1`) is removed and the rest renumbered.
pub open spec fn deleted(s: Seq<TaskView>, id: int) -> Seq<TaskView> {
    renumbered(s.remove(id - 1))
}

/// The table after the row with identifier `id` takes state `st`.
pub open spec fn transitioned(s: Seq<TaskView>, id: int, st: TaskState) -> Seq<TaskView> {
    s.update(id - 1, TaskView { state: st, ..s[id - 1] })
}

/// Under `dense`, identifier `id` is in use exactly when it lies in 1..=N.
pub proof fn dense_has_id(s: Seq<TaskView>, id: int)
    requires
        dense(s),
    ensures
        has_id(s, id) <==> 1 <= id <= s.len(),
        1 <= id <= s.len() ==> s[id - 1].id == id,
{
    if 1 <= id <= s.len() {
        assert(s[id - 1].id == id);
    }
}

/// Removing a row and renumbering keeps the table's invariant.
pub proof fn deleted_well_formed(s: Seq<TaskView>, id: int)
    requires
        well_formed(s),
        1 <= id <= s.len(),
    ensures
        well_formed(deleted(s, id)),
        deleted(s, id).len() == s.len() - 1,
{
    let k = id - 1;
    let d = deleted(s, id);
    assert forall|i: int, j: int|
        0 <= i < d.len() && 0 <= j < d.len() && i != j implies (#[trigger] d[i]).title != (#[trigger] d[j]).title
            && d[i].uuid != d[j].uuid by {
        let oi = if i < k { i } else { i + 1 };
        let oj = if j < k { j } else { j + 1 };
        assert(d[i].title == s[oi].title && d[i].uuid == s[oi].uuid);
        assert(d[j].title == s[oj].title && d[j].uuid == s[oj].uuid);
    }
}

/// Whether every row has a title that is not blank.
fn rows_have_titles(rows: &Vec<Task>) -> (r: bool)
    ensures
        r == titles_present(views(rows@)),
{
    let ghost s = views(rows@);
    let mut i: usize = 0;
    while i < rows.len()
        invariant
            0 <= i <= rows@.len(),
            s == views(rows@),
            forall|j: int| 0 <= j < i ==> !is_blank((#[trigger] s[j]).title),
        decreases rows@.len() - i,
    {
        if title_is_blank(rows[i].title.as_str()) {
            assert(is_blank(s[i as int].title));
            return false;
        }
        i = i + 1;
    }
    true
}

/// Whether no two of the rows share a title.
fn rows_have_distinct_titles(rows: &Vec<Task>) -> (r: bool)
    ensures
        r == distinct_titles(views(rows@)),
{
    let ghost s = views(rows@);
    let mut i: usize = 0;
    while i < rows.len()
        invariant
            0 <= i <= rows@.len(),
            s == views(rows@),
            forall|a: int, b: int|
                0 <= a < i && 0 <= b < s.len() && a != b ==> (#[trigger] s[a]).title != (#[trigger] s[b]).title,
        decreases rows@.len() - i,
    {
        let mut j: usize = 0;
        while j < rows.len()
            invariant
                0 <= i < rows@.len(),
                0 <= j <= rows@.len(),
                s == views(rows@),
                forall|a: int, b: int|
                    0 <= a < i && 0 <= b < s.len() && a != b ==> (#[trigger] s[a]).title != (#[trigger] s[b]).title,
                forall|b: int| 0 <= b < j && b != i ==> s[i as int].title != (#[trigger] s[b]).title,
            decreases rows@.len() - j,
        {
            if j != i && rows[i].title == rows[j].title {
                assert(s[i as int].title == s[j as int].title);
                return false;
            }
            j = j + 1;
        }
        i = i + 1;
    }
    true
}

/// Whether no two of the rows share an external key.
fn rows_have_distinct_keys(rows: &Vec<Task>) -> (r: bool)
    ensures
        r == distinct_keys(views(rows@)),
{
    let ghost s = views(rows@);
    let mut i: usize = 0;
    while i < rows.len()
        invariant
            0 <= i <= rows@.len(),
            s == views(rows@),
            forall|a: int, b: int|
                0 <= a < i && 0 <= b < s.len() && a != b ==> (#[trigger] s[a]).uuid != (#[trigger] s[b]).uuid,
        decreases rows@.len() - i,
    {
        let mut j: usize = 0;
        while j < rows.len()
            invariant
                0 <= i < rows@.len(),
                0 <= j <= rows@.len(),
                s == views(rows@),
                forall|a: int, b: int|
                    0 <= a < i && 0 <= b < s.len() && a != b ==> (#[trigger] s[a]).uuid != (#[trigger] s[b]).uuid,
                forall|b: int| 0 <= b < j && b != i ==> s[i as int].uuid != (#[trigger] s[b]).uuid,
            decreases rows@.len() - j,
        {
            if j != i && rows[i].uuid == rows[j].uuid {
                assert(s[i as int].uuid == s[j as int].uuid);
                return false;
            }
            j = j + 1;
        }
        i = i + 1;
    }
    true
}

/// The durable table of tasks.
pub struct TaskStore {
    tasks: Vec<Task>,
}

impl View for TaskStore {
    type V = Seq<TaskView>;

    closed spec fn view(&self) -> Seq<TaskView> {
        views(self.tasks@)
    }
}

impl TaskStore {
    /// The invariant of this table.
    pub open spec fn wf(&self) -> bool {
        well_formed(self@)
    }

    /// An empty table.
    pub fn new() -> (r: TaskStore)
        ensures
            r@ == Seq::<TaskView>::empty(),
            r.wf(),
    {
        TaskStore { tasks: Vec::new() }
    }

    /// A table of the given rows, in the given order, with identifiers
    /// reassigned as 1..N: the corrective pass that closes any gap left in
    /// stored identifiers. Fails with `EmptyTitle` when a row's title is
    /// blank, else with `DuplicateTitle` when two rows share a title, else
    /// with `DuplicateKey` when two share an external key.
    pub fn restore(rows: Vec<Task>) -> (r: Result<TaskStore, CrudError>)
        requires
            rows@.len() < i64::MAX,
        ensures
            !titles_present(views(rows@)) ==> r == Err::<TaskStore, CrudError>(CrudError::EmptyTitle),
            titles_present(views(rows@)) && !distinct_titles(views(rows@))
                ==> r == Err::<TaskStore, CrudError>(CrudError::DuplicateTitle),
            titles_present(views(rows@)) && distinct_titles(views(rows@)) && !distinct_keys(views(rows@))
                ==> r == Err::<TaskStore, CrudError>(CrudError::DuplicateKey),
            titles_present(views(rows@)) && distinct_titles(views(rows@)) && distinct_keys(views(rows@))
                ==> r is Ok,
            r matches Ok(st) ==> st.wf() && st@ == renumbered(views(rows@)),
    {
        if !rows_have_titles(&rows) {
            return Err(CrudError::EmptyTitle);
        }
        if !rows_have_distinct_titles(&rows) {
            return Err(CrudError::DuplicateTitle);
        }
        if !rows_have_distinct_keys(&rows) {
            return Err(CrudError::DuplicateKey);
        }
        let ghost target = renumbered(views(rows@));
        let mut tasks: Vec<Task> = Vec::new();
        let mut i: usize = 0;
        while i < rows.len()
            invariant
                0 <= i <= rows@.len(),
                rows@.len() < i64::MAX,
                target == renumbered(views(rows@)),
                tasks@.len() == i,
                forall|j: int| 0 <= j < i ==> (#[trigger] tasks@[j])@ == target[j],
            decreases rows@.len() - i,
        {
            let mut t = rows[i].duplicate();
            t.id = (i + 1) as i64;
            assert(t@ == target[i as int]);
            tasks.push(t);
            i = i + 1;
        }
        let st = TaskStore { tasks };
        assert(st@ =~= target);
        Ok(st)
    }

    /// The number of rows.
    pub fn len(&self) -> (r: usize)
        ensures
            r == self@.len(),
    {
        self.tasks.len()
    }

    /// The identifier the next inserted row gets: the largest in use plus
    /// one, or 1 for an empty table.
    pub fn next_identifier(&self) -> (r: i64)
        requires
            self.wf(),
        ensures
            r == self@.len() + 1,
            forall|i: int| 0 <= i < self@.len() ==> (#[trigger] self@[i]).id < r,
            self@.len() > 0 ==> has_id(self@, r - 1),
            self@.len() == 0 ==> r == 1,
    {
        let n = self.tasks.len();
        if n == 0 {
            1
        } else {
            assert(self@[n - 1] == self.tasks@[n - 1]@);
            proof {
                dense_has_id(self@, n as int);
            }
            self.tasks[n - 1].id + 1
        }
    }

    /// Whether some row has this title.
    fn contains_title(&self, title: &String) -> (r: bool)
        ensures
            r == has_title(self@, title@),
    {
        let mut i: usize = 0;
        while i < self.tasks.len()
            invariant
                0 <= i <= self.tasks@.len(),
                forall|j: int| 0 <= j < i ==> (#[trigger] self@[j]).title != title@,
            decreases self.tasks@.len() - i,
        {
            if self.tasks[i].title == *title {
                assert(self@[i as int].title == title@);
                return true;
            }
            i = i + 1;
        }
        false
    }

    /// Whether some row has this external key.
    fn contains_key(&self, key: &String) -> (r: bool)
        ensures
            r == has_key(self@, key@),
    {
        let mut i: usize = 0;
        while i < self.tasks.len()
            invariant
                0 <= i <= self.tasks@.len(),
                forall|j: int| 0 <= j < i ==> (#[trigger] self@[j]).uuid != key@,
            decreases self.tasks@.len() - i,
        {
            if self.tasks[i].uuid == *key {
                assert(self@[i as int].uuid == key@);
                return true;
            }
            i = i + 1;
        }
        false
    }

    /// Writes a new row, which must carry the next identifier. Fails with
    /// `EmptyTitle` when its title is blank, else with `DuplicateTitle` or
    /// `DuplicateKey` when another row has its title or external key; the
    /// table is then unchanged.
    pub fn insert(&mut self, task: Task) -> (r: Result<(), CrudError>)
        requires
            old(self).wf(),
            task.id == old(self)@.len() + 1,
            old(self)@.len() + 1 < i64::MAX,
        ensures
            final(self).wf(),
            is_blank(task.title@) ==> r == Err::<(), CrudError>(CrudError::EmptyTitle),
            !is_blank(task.title@) && has_title(old(self)@, task.title@)
                ==> r == Err::<(), CrudError>(CrudError::DuplicateTitle),
            !is_blank(task.title@) && !has_title(old(self)@, task.title@) && has_key(old(self)@, task.uuid@)
                ==> r == Err::<(), CrudError>(CrudError::DuplicateKey),
            !is_blank(task.title@) && !has_title(old(self)@, task.title@) && !has_key(old(self)@, task.uuid@)
                ==> r is Ok,
            r is Ok ==> final(self)@ == old(self)@.push(task@),
            r is Err ==> final(self)@ == old(self)@,
    {
        if title_is_blank(task.title.as_str()) {
            return Err(CrudError::EmptyTitle);
        }
        if self.contains_title(&task.title) {
            return Err(CrudError::DuplicateTitle);
        }
        if self.contains_key(&task.uuid) {
            return Err(CrudError::DuplicateKey);
        }
        self.tasks.push(task);
        assert(self@ =~= old(self)@.push(task@));
        Ok(())
    }

    /// All rows, in storage order.
    pub fn find_all(&self) -> (r: Vec<Task>)
        ensures
            views(r@) == self@,
    {
        let mut out: Vec<Task> = Vec::new();
        let mut i: usize = 0;
        while i < self.tasks.len()
            invariant
                0 <= i <= self.tasks@.len(),
                self@.len() == self.tasks@.len(),
                out@.len() == i,
                forall|j: int| 0 <= j < i ==> (#[trigger] out@[j])@ == self@[j],
            decreases self.tasks@.len() - i,
        {
            let t = self.tasks[i].duplicate();
            assert(t@ == self@[i as int]);
            out.push(t);
            i = i + 1;
        }
        assert(views(out@) =~= self@);
        out
    }

    /// The row with identifier `id`; `TaskNotFound` if there is none.
    pub fn find_by_id(&self, id: i64) -> (r: Result<Task, CrudError>)
        requires
            self.wf(),
        ensures
            has_id(self@, id as int) <==> r is Ok,
            r matches Ok(t) ==> t@ == self@[id - 1] && t.id == id,
            r is Err ==> r == Err::<Task, CrudError>(CrudError::TaskNotFound),
    {
        proof {
            dense_has_id(self@, id as int);
        }
        if id < 1 || id > self.tasks.len() as i64 {
            return Err(CrudError::TaskNotFound);
        }
        let t = self.tasks[(id - 1) as usize].duplicate();
        Ok(t)
    }

    /// Sets the state of the row with identifier `id`; `TaskNotFound`, with
    /// the table unchanged, if there is none.
    pub fn update_status(&mut self, id: i64, state: TaskState) -> (r: Result<(), CrudError>)
        requires
            old(self).wf(),
        ensures
            final(self).wf(),
            has_id(old(self)@, id as int) <==> r is Ok,
            r is Ok ==> final(self)@ == transitioned(old(self)@, id as int, state),
            r is Err ==> r == Err::<(), CrudError>(CrudError::TaskNotFound) && final(self)@ == old(self)@,
    {
        proof {
            dense_has_id(self@, id as int);
        }
        if id < 1 || id > self.tasks.len() as i64 {
            return Err(CrudError::TaskNotFound);
        }
        let k = (id - 1) as usize;
        let mut t = self.tasks[k].duplicate();
        t.state = state;
        self.tasks.set(k, t);
        assert(self@ =~= transitioned(old(self)@, id as int, state));
        Ok(())
    }

    /// Removes the row with identifier `id` and gives every later row the
    /// identifier one lower, so that identifiers stay 1..N in the same order.
    /// `TaskNotFound`, with the table unchanged, if there is no such row.
    pub fn delete_and_renumber(&mut self, id: i64) -> (r: Result<(), CrudError>)
        requires
            old(self).wf(),
        ensures
            final(self).wf(),
            has_id(old(self)@, id as int) <==> r is Ok,
            r is Ok ==> final(self)@ == deleted(old(self)@, id as int),
            r is Err ==> r == Err::<(), CrudError>(CrudError::TaskNotFound) && final(self)@ == old(self)@,
    {
        proof {
            dense_has_id(self@, id as int);
        }
        if id < 1 || id > self.tasks.len() as i64 {
            return Err(CrudError::TaskNotFound);
        }
        let k = (id - 1) as usize;
        let ghost target = deleted(old(self)@, id as int);
        let ghost rest = old(self)@.remove(k as int);
        self.tasks.remove(k);
        assert(self@ =~= rest);
        let mut i: usize = k;
        while i < self.tasks.len()
            invariant
                k <= i <= self.tasks@.len(),
                self@.len() == rest.len(),
                self@.len() == self.tasks@.len(),
                rest.len() < i64::MAX,
                target == renumbered(rest),
                well_formed(old(self)@),
                k == id - 1,
                k < old(self)@.len(),
                rest == old(self)@.remove(k as int),
                forall|j: int| 0 <= j < i ==> (#[trigger] self@[j]) == target[j],
                forall|j: int| i <= j < self@.len() ==> (#[trigger] self@[j]) == rest[j],
            decreases self.tasks@.len() - i,
        {
            let ghost before = self@;
            assert(before[i as int] == self.tasks@[i as int]@);
            let mut t = self.tasks[i].duplicate();
            t.id = (i + 1) as i64;
            assert(t@ == target[i as int]);
            self.tasks.set(i, t);
            assert(self@ =~= before.update(i as int, t@));
            i = i + 1;
        }
        proof {
            assert forall|j: int| 0 <= j < k implies (#[trigger] self@[j]) == target[j] by {
                assert(rest[j] == old(self)@[j]);
            }
            assert(self@ =~= target);
            deleted_well_formed(old(self)@, id as int);
        }
        Ok(())
    }
}

} // verus!
