use vstd::prelude::*;

verus! {

/// What one stored task is, as the contracts see it.
pub ghost struct TaskRow {
    pub id: i32,
    pub description: Seq<char>,
    pub completed: bool,
}

/// A task as the store hands it out.
pub struct Task {
    pub id: i32,
    pub description: String,
    pub completed: bool,
}

impl View for Task {
    type V = TaskRow;

    open spec fn view(&self) -> TaskRow {
        TaskRow { id: self.id, description: self.description@, completed: self.completed }
    }
}

/// The contents of a sequence of tasks.
pub open spec fn views(s: Seq<Task>) -> Seq<TaskRow> {
    s.map_values(|t: Task| t@)
}

/// The values that a new task is created from; the store picks the id.
pub struct NewTask {
    pub description: String,
}

/// The contents of the task table: its rows, oldest first, and the id that
/// the next insert receives.
pub ghost struct StoreModel {
    pub rows: Seq<TaskRow>,
    pub next_id: int,
}

impl StoreModel {
    /// Ids are positive, unique, ascending in storage order and below the next id.
    pub open spec fn wf(self) -> bool {
        &&& 1 <= self.next_id <= i32::MAX
        &&& forall|i: int, j: int|
            0 <= i < j < self.rows.len() ==> #[trigger] self.rows[i].id < #[trigger] self.rows[j].id
        &&& forall|i: int| 0 <= i < self.rows.len() ==> 1 <= #[trigger] self.rows[i].id < self.next_id
    }

    pub open spec fn has(self, id: i32) -> bool {
        exists|i: int| 0 <= i < self.rows.len() && #[trigger] self.rows[i].id == id
    }

    /// A full listing: newest (highest id) first.
    pub open spec fn listing(self) -> Seq<TaskRow> {
        self.rows.reverse()
    }

    /// Another id can still be assigned.
    pub open spec fn can_insert(self) -> bool {
        self.next_id < i32::MAX
    }

    pub open spec fn inserted(self, description: Seq<char>) -> StoreModel {
        StoreModel {
            rows: self.rows.push(
                TaskRow { id: self.next_id as i32, description, completed: false },
            ),
            next_id: self.next_id + 1,
        }
    }

    pub open spec fn toggled(self, id: i32) -> StoreModel {
        StoreModel {
            rows: self.rows.map_values(|t: TaskRow| flip_if(t, id)),
            next_id: self.next_id,
        }
    }

    pub open spec fn deleted(self, id: i32) -> StoreModel {
        StoreModel { rows: self.rows.filter(other_than(id)), next_id: self.next_id }
    }
}

/// Holds of a row whose id is not `id`.
pub open spec fn other_than(id: i32) -> spec_fn(TaskRow) -> bool {
    |t: TaskRow| t.id != id
}

/// The row with `completed` negated when its id is `id`, else the row itself.
pub open spec fn flip_if(t: TaskRow, id: i32) -> TaskRow {
    if t.id == id {
        TaskRow { completed: !t.completed, ..t }
    } else {
        t
    }
}

/// An insert that the store could not perform.
#[derive(PartialEq, Eq, Structural, Debug, Clone, Copy)]
pub enum StoreError {
    /// Every id that a row can hold has been assigned.
    IdsExhausted,
}

/// An in-memory model of the task table: rows in ascending id order, and the
/// id counter. The proofs and tests run the store's four operations against
/// it; the server runs the same statements against its database itself.
/// Each operation is one step; none spans two calls.
pub struct TaskStore {
    rows: Vec<Task>,
    next_id: i32,
}

impl View for TaskStore {
    type V = StoreModel;

    closed spec fn view(&self) -> StoreModel {
        StoreModel {
            rows: views(self.rows@),
            next_id: self.next_id as int,
        }
    }
}

impl TaskStore {
    /// An empty table whose first row will receive id 1.
    pub fn new() -> (r: TaskStore)
        ensures
            r@.wf(),
            r@.rows.len() == 0,
            r@.next_id == 1,
    {
        let r = TaskStore { rows: Vec::new(), next_id: 1 };
        assert(r@.rows =~= Seq::<TaskRow>::empty());
        r
    }
}

impl Task {
    /// A field-for-field copy.
    pub fn duplicate(&self) -> (r: Task)
        ensures
            r@ == self@,
    {
        Task { id: self.id, description: self.description.clone(), completed: self.completed }
    }

    /// Every task, newest first.
    pub fn all(conn: &TaskStore) -> (r: Vec<Task>)
        requires
            conn@.wf(),
        ensures
            views(r@) == conn@.listing(),
    {
        let n = conn.rows.len();
        let mut out: Vec<Task> = Vec::new();
        let mut i: usize = n;
        while i > 0
            invariant
                n == conn.rows@.len(),
                i <= n,
                out@.len() == n - i,
                forall|k: int| 0 <= k < out@.len() ==> #[trigger] out@[k]@ == conn.rows@[n - 1 - k]@,
            decreases i,
        {
            i = i - 1;
            out.push(conn.rows[i].duplicate());
        }
        assert(views(out@) =~= conn@.listing());
        out
    }

    /// Adds a row holding `todo.description`, not completed, under the next
    /// id; returns the number of rows written.
    pub fn insert(todo: NewTask, conn: &mut TaskStore) -> (r: Result<usize, StoreError>)
        requires
            old(conn)@.wf(),
        ensures
            final(conn)@.wf(),
            old(conn)@.can_insert() ==> r == Ok::<usize, StoreError>(1) && final(conn)@
                == old(conn)@.inserted(todo.description@),
            !old(conn)@.can_insert() ==> r == Err::<usize, StoreError>(StoreError::IdsExhausted)
                && final(conn)@ == old(conn)@,
    {
        if conn.next_id == i32::MAX {
            return Err(StoreError::IdsExhausted);
        }
        let ghost before = conn@;
        let id = conn.next_id;
        conn.rows.push(Task { id, description: todo.description, completed: false });
        conn.next_id = id + 1;
        assert(conn@.rows =~= before.inserted(todo.description@).rows);
        Ok(1)
    }

    /// Negates `completed` on the row with this id. False when there is no
    /// such row, and then nothing changes.
    pub fn toggle_with_id(id: i32, conn: &mut TaskStore) -> (r: bool)
        requires
            old(conn)@.wf(),
        ensures
            r == old(conn)@.has(id),
            final(conn)@ == old(conn)@.toggled(id),
            final(conn)@.wf(),
    {
        let ghost before = conn@;
        let n = conn.rows.len();
        let mut i: usize = 0;
        while i < n
            invariant
                n == conn.rows@.len(),
                conn@ == before,
                before == old(conn)@,
                before.wf(),
                i <= n,
                forall|k: int| 0 <= k < i ==> #[trigger] conn.rows@[k].id != id,
            decreases n - i,
        {
            if conn.rows[i].id == id {
                let mut t = conn.rows[i].duplicate();
                t.completed = !t.completed;
                let ghost old_rows = conn.rows@;
                conn.rows.set(i, t);
                assert(conn@.rows =~= before.toggled(id).rows) by {
                    assert forall|k: int| 0 <= k < n implies #[trigger] conn@.rows[k]
                        == flip_if(before.rows[k], id) by {
                        assert(before.rows[k] == old_rows[k]@);
                        if k != i {
                            if k < i {
                                assert(before.rows[k].id < before.rows[i as int].id);
                            } else {
                                assert(before.rows[i as int].id < before.rows[k].id);
                            }
                        }
                    }
                }
                assert(before.rows[i as int].id == id);
                assert(conn@ == before.toggled(id));
                return true;
            }
            i = i + 1;
        }
        assert(conn@.rows =~= before.toggled(id).rows) by {
            assert forall|k: int| 0 <= k < n implies #[trigger] before.rows[k] == flip_if(
                before.rows[k],
                id,
            ) by {
                assert(conn.rows@[k].id != id);
            }
        }
        assert(!before.has(id)) by {
            assert forall|k: int| 0 <= k < n implies #[trigger] before.rows[k].id != id by {
                assert(conn.rows@[k].id != id);
            }
        }
        assert(conn@ == before.toggled(id));
        false
    }

    /// Removes the row with this id, if any. Deleting an id that no row
    /// holds succeeds and changes nothing.
    pub fn delete_with_id(id: i32, conn: &mut TaskStore) -> (r: bool)
        requires
            old(conn)@.wf(),
        ensures
            r,
            final(conn)@ == old(conn)@.deleted(id),
            final(conn)@.wf(),
    {
        let ghost before = conn@;
        let n = conn.rows.len();
        let mut kept: Vec<Task> = Vec::new();
        let mut i: usize = 0;
        while i < n
            invariant
                n == conn.rows@.len(),
                conn@ == before,
                i <= n,
                views(kept@) == before.rows.take(i as int).filter(other_than(id)),
            decreases n - i,
        {
            let ghost prefix = before.rows.take(i as int);
            proof {
                assert(before.rows.take(i + 1) =~= prefix.push(before.rows[i as int]));
                prefix.lemma_filter_push(before.rows[i as int], other_than(id));
                assert(before.rows[i as int] == conn.rows@[i as int]@);
                assert(other_than(id)(before.rows[i as int]) == (conn.rows@[i as int].id != id));
                assert(before.rows.take(i + 1).filter(other_than(id)) == prefix.push(
                    before.rows[i as int],
                ).filter(other_than(id)));
            }
            if conn.rows[i].id != id {
                let ghost old_kept = kept@;
                kept.push(conn.rows[i].duplicate());
                assert(views(kept@) =~= views(old_kept).push(before.rows[i as int]));
            }
            i = i + 1;
        }
        assert(before.rows.take(n as int) =~= before.rows);
        conn.rows = kept;
        assert(conn@.rows == before.deleted(id).rows);
        proof {
            lemma_filter_keeps_wf(before, id);
        }
        true
    }
}

/// Deleting rows keeps ids ascending and below the counter.
pub proof fn lemma_filter_keeps_wf(m: StoreModel, id: i32)
    requires
        m.wf(),
    ensures
        m.deleted(id).wf(),
    decreases m.rows.len(),
{
    let keep = other_than(id);
    if m.rows.len() == 0 {
        reveal(Seq::filter);
        assert(m.deleted(id).rows.len() == 0);
    } else {
        let last = m.rows.last();
        let shorter = StoreModel { rows: m.rows.drop_last(), next_id: m.next_id };
        lemma_filter_keeps_wf(shorter, id);
        assert(m.rows =~= shorter.rows.push(last));
        shorter.rows.lemma_filter_push(last, keep);
        let fs = shorter.rows.filter(keep);
        assert forall|j: int| 0 <= j < fs.len() implies #[trigger] fs[j].id < last.id by {
            assert(fs.contains(fs[j]));
            shorter.rows.lemma_filter_contains_rev(keep, fs[j]);
            let k = choose|k: int| 0 <= k < shorter.rows.len() && shorter.rows[k] == fs[j];
            assert(m.rows[k] == fs[j]);
        }
        if keep(last) {
            let d = fs.push(last);
            assert(m.deleted(id).rows == d);
            assert forall|i: int, j: int| 0 <= i < j < d.len() implies #[trigger] d[i].id
                < #[trigger] d[j].id by {
                assert(d[i] == fs[i]);
                if j == fs.len() {
                    assert(fs[i].id < last.id);
                } else {
                    assert(d[j] == fs[j]);
                    assert(shorter.deleted(id).rows[i].id < shorter.deleted(id).rows[j].id);
                }
            }
            assert(1 <= last.id < m.next_id) by {
                assert(m.rows[m.rows.len() - 1] == last);
            }
            assert forall|i: int| 0 <= i < d.len() implies 1 <= #[trigger] d[i].id < m.next_id by {
                if i < fs.len() {
                    assert(d[i] == shorter.deleted(id).rows[i]);
                }
            }
        } else {
            assert(m.deleted(id).rows == fs);
        }
    }
}

} // verus!
