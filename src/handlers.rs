use vstd::prelude::*;

use crate::task::{views, NewTask, StoreModel, Task, TaskStore};

verus! {

/// How many workers, each holding one connection of its own, serve the
/// requests.
pub const NUM_DB_THREADS: usize = 3;

/// Add a task with this description.
pub struct CreateTask {
    pub description: String,
}

/// List every task, newest first.
pub struct AllTasks;

/// Flip `completed` on the task with this id.
pub struct ToggleTask {
    pub id: i32,
}

/// Remove the task with this id.
pub struct DeleteTask {
    pub id: i32,
}

/// One unit of database work, as handed to a worker.
pub enum WorkRequest {
    ListAll(AllTasks),
    Create(CreateTask),
    Toggle(ToggleTask),
    Delete(DeleteTask),
}

/// What a worker sends back for one request. A failure carries no detail.
pub enum WorkResult {
    Tasks(Vec<Task>),
    Done,
    Failed,
}

/// The worker's answer to a mutation, from whether its statement succeeded.
pub fn done_if(ok: bool) -> (r: WorkResult)
    ensures
        ok <==> r is Done,
        !ok <==> r is Failed,
{
    if ok {
        WorkResult::Done
    } else {
        WorkResult::Failed
    }
}

/// The value a toggle writes, from what reading the row gave: the negated
/// flag, or nothing to write when the row could not be read.
pub fn toggled_status(read: Option<bool>) -> (r: Option<bool>)
    ensures
        r == match read {
            Some(c) => Some(!c),
            None => None::<bool>,
        },
{
    match read {
        Some(c) => Some(!c),
        None => None,
    }
}

/// The store after `req` has run, and whether it succeeded.
pub open spec fn outcome(m: StoreModel, req: WorkRequest) -> (StoreModel, bool) {
    match req {
        WorkRequest::ListAll(_) => (m, true),
        WorkRequest::Create(c) => if m.can_insert() {
            (m.inserted(c.description@), true)
        } else {
            (m, false)
        },
        WorkRequest::Toggle(t) => (m.toggled(t.id), m.has(t.id)),
        WorkRequest::Delete(d) => (m.deleted(d.id), true),
    }
}

impl TaskStore {
    /// Runs one request against the in-memory model of the table, as a
    /// worker runs it against its connection. Errors become a `Failed`
    /// result; the store stays usable for the next request.
    pub fn handle(&mut self, req: WorkRequest) -> (r: WorkResult)
        requires
            old(self)@.wf(),
        ensures
            final(self)@.wf(),
            final(self)@ == outcome(old(self)@, req).0,
            (req is ListAll) ==> (r matches WorkResult::Tasks(ts) && views(ts@) == old(
                self,
            )@.listing()),
            !(req is ListAll) ==> (outcome(old(self)@, req).1 <==> r is Done),
            !(req is ListAll) ==> (!outcome(old(self)@, req).1 <==> r is Failed),
    {
        match req {
            WorkRequest::ListAll(_) => WorkResult::Tasks(Task::all(self)),
            WorkRequest::Create(c) => {
                let new_task = NewTask { description: c.description };
                match Task::insert(new_task, self) {
                    Ok(_) => WorkResult::Done,
                    Err(_) => WorkResult::Failed,
                }
            },
            WorkRequest::Toggle(t) => done_if(Task::toggle_with_id(t.id, self)),
            WorkRequest::Delete(d) => done_if(Task::delete_with_id(d.id, self)),
        }
    }
}

} // verus!
