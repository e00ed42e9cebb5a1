use vstd::prelude::*;

use crate::api::{create_request_flash, create_result_flash, empty_description_flash, task_added_flash};
use crate::flash::{cleared, shown, stored, FlashView};
use crate::handlers::{outcome, WorkRequest};
use crate::task::{StoreModel, TaskRow};

verus! {

/// The store after each request of `reqs` has run, in order.
pub open spec fn run(m: StoreModel, reqs: Seq<WorkRequest>) -> StoreModel
    decreases reqs.len(),
{
    if reqs.len() == 0 {
        m
    } else {
        run(outcome(m, reqs[0]).0, reqs.drop_first())
    }
}

/// The store after a task has been created for each description, in order.
pub open spec fn inserted_all(m: StoreModel, descriptions: Seq<Seq<char>>) -> StoreModel
    decreases descriptions.len(),
{
    if descriptions.len() == 0 {
        m
    } else {
        inserted_all(m.inserted(descriptions[0]), descriptions.drop_first())
    }
}

/// An insert keeps the table well formed.
pub proof fn lemma_inserted_wf(m: StoreModel, description: Seq<char>)
    requires
        m.wf(),
        m.can_insert(),
    ensures
        m.inserted(description).wf(),
{
    let n = m.inserted(description);
    assert forall|i: int| 0 <= i < m.rows.len() implies #[trigger] n.rows[i] == m.rows[i] by {}
}

/// A toggle keeps every id where it was.
pub proof fn lemma_toggled_wf(m: StoreModel, id: i32)
    requires
        m.wf(),
    ensures
        m.toggled(id).wf(),
        m.toggled(id).has(id) == m.has(id),
{
    let t = m.toggled(id);
    assert forall|i: int| 0 <= i < m.rows.len() implies #[trigger] t.rows[i].id == m.rows[i].id by {}
    if m.has(id) {
        let i = choose|i: int| 0 <= i < m.rows.len() && #[trigger] m.rows[i].id == id;
        assert(t.rows[i].id == id);
    }
    if t.has(id) {
        let i = choose|i: int| 0 <= i < t.rows.len() && #[trigger] t.rows[i].id == id;
        assert(m.rows[i].id == id);
    }
}

/// A delete leaves no row with that id.
pub proof fn lemma_deleted_lacks(m: StoreModel, id: i32)
    ensures
        !m.deleted(id).has(id),
{
    broadcast use vstd::seq_lib::group_filter_ensures;

    let d = m.deleted(id);
    assert forall|i: int| 0 <= i < d.rows.len() implies #[trigger] d.rows[i].id != id by {
        m.rows.lemma_filter_pred(crate::task::other_than(id), i);
    }
}

/// Every request keeps the table well formed, and never brings back an id
/// below the counter that no row holds.
pub proof fn lemma_outcome_keeps_gone(m: StoreModel, req: WorkRequest, id: i32)
    requires
        m.wf(),
        id < m.next_id,
        !m.has(id),
    ensures
        outcome(m, req).0.wf(),
        id < outcome(m, req).0.next_id,
        !outcome(m, req).0.has(id),
{
    match req {
        WorkRequest::ListAll(_) => {},
        WorkRequest::Create(c) => {
            if m.can_insert() {
                lemma_inserted_wf(m, c.description@);
                let n = m.inserted(c.description@);
                if n.has(id) {
                    let i = choose|i: int| 0 <= i < n.rows.len() && #[trigger] n.rows[i].id == id;
                    if i < m.rows.len() {
                        assert(m.rows[i] == n.rows[i]);
                    }
                }
            }
        },
        WorkRequest::Toggle(t) => {
            lemma_toggled_wf(m, t.id);
            let n = m.toggled(t.id);
            if n.has(id) {
                let i = choose|i: int| 0 <= i < n.rows.len() && #[trigger] n.rows[i].id == id;
                assert(m.rows[i].id == n.rows[i].id);
            }
        },
        WorkRequest::Delete(d) => {
            crate::task::lemma_filter_keeps_wf(m, d.id);
            broadcast use vstd::seq_lib::group_filter_ensures;

            let n = m.deleted(d.id);
            if n.has(id) {
                let i = choose|i: int| 0 <= i < n.rows.len() && #[trigger] n.rows[i].id == id;
                assert(n.rows.contains(n.rows[i]));
                m.rows.lemma_filter_contains_rev(crate::task::other_than(d.id), n.rows[i]);
            }
        },
    }
}

/// Creating a task with any non-empty description and then listing gives
/// that task first, not completed, ahead of every earlier task.
pub proof fn lemma_create_then_list(m: StoreModel, description: Seq<char>)
    requires
        m.wf(),
        m.can_insert(),
        description.len() > 0,
    ensures
        m.inserted(description).listing().len() == m.listing().len() + 1,
        m.inserted(description).listing()[0] == (TaskRow {
            id: m.next_id as i32,
            description,
            completed: false,
        }),
        m.inserted(description).listing().drop_first() == m.listing(),
{
    assert(m.inserted(description).listing().drop_first() =~= m.listing());
}

/// Toggling the same id twice gives back the table as it was.
pub proof fn lemma_toggle_twice(m: StoreModel, id: i32)
    ensures
        m.toggled(id).toggled(id) == m,
{
    assert(m.toggled(id).toggled(id).rows =~= m.rows);
}

/// After a task is deleted no later listing holds its id, whatever requests
/// follow; deleting it again succeeds and changes nothing.
pub proof fn lemma_delete_is_final(m: StoreModel, id: i32, later: Seq<WorkRequest>)
    requires
        m.wf(),
        m.has(id),
    ensures
        !run(m.deleted(id), later).has(id),
        m.deleted(id).deleted(id) == m.deleted(id),
    decreases later.len(),
{
    lemma_deleted_lacks(m, id);
    crate::task::lemma_filter_keeps_wf(m, id);
    assert(id < m.next_id) by {
        let i = choose|i: int| 0 <= i < m.rows.len() && #[trigger] m.rows[i].id == id;
    }
    lemma_run_keeps_gone(m.deleted(id), id, later);
    lemma_delete_absent(m.deleted(id), id);
}

/// Deleting an id that no row holds changes nothing.
pub proof fn lemma_delete_absent(m: StoreModel, id: i32)
    requires
        !m.has(id),
    ensures
        m.deleted(id) == m,
    decreases m.rows.len(),
{
    if m.rows.len() > 0 {
        let shorter = StoreModel { rows: m.rows.drop_last(), next_id: m.next_id };
        assert(!shorter.has(id)) by {
            if shorter.has(id) {
                let i = choose|i: int| 0 <= i < shorter.rows.len() && #[trigger] shorter.rows[i].id == id;
                assert(m.rows[i].id == id);
            }
        }
        lemma_delete_absent(shorter, id);
        assert(m.rows =~= shorter.rows.push(m.rows.last()));
        shorter.rows.lemma_filter_push(m.rows.last(), crate::task::other_than(id));
        assert(m.rows[m.rows.len() - 1].id != id);
    } else {
        reveal(Seq::filter);
    }
    assert(m.deleted(id).rows =~= m.rows);
}

/// An id that is gone stays gone through any sequence of requests.
pub proof fn lemma_run_keeps_gone(m: StoreModel, id: i32, reqs: Seq<WorkRequest>)
    requires
        m.wf(),
        id < m.next_id,
        !m.has(id),
    ensures
        !run(m, reqs).has(id),
    decreases reqs.len(),
{
    if reqs.len() > 0 {
        lemma_outcome_keeps_gone(m, reqs[0], id);
        lemma_run_keeps_gone(outcome(m, reqs[0]).0, id, reqs.drop_first());
    }
}

/// `k` creates, completed in any order, add exactly `k` rows, each holding
/// one of the descriptions, with ids distinct from each other and from
/// every earlier row.
pub proof fn lemma_creates_add_rows(m: StoreModel, descriptions: Seq<Seq<char>>)
    requires
        m.wf(),
        m.next_id + descriptions.len() <= i32::MAX,
    ensures
        inserted_all(m, descriptions).wf(),
        inserted_all(m, descriptions).rows.len() == m.rows.len() + descriptions.len(),
        inserted_all(m, descriptions).rows.take(m.rows.len() as int) == m.rows,
        forall|k: int|
            0 <= k < descriptions.len() ==> (#[trigger] inserted_all(m, descriptions).rows[m.rows.len()
                + k]).description == descriptions[k],
        forall|i: int, j: int|
            0 <= i < j < inserted_all(m, descriptions).rows.len() ==> #[trigger] inserted_all(
                m,
                descriptions,
            ).rows[i].id != #[trigger] inserted_all(m, descriptions).rows[j].id,
    decreases descriptions.len(),
{
    let r = inserted_all(m, descriptions);
    if descriptions.len() == 0 {
        assert(m.rows.take(m.rows.len() as int) =~= m.rows);
    } else {
        lemma_inserted_wf(m, descriptions[0]);
        let m1 = m.inserted(descriptions[0]);
        let rest = descriptions.drop_first();
        lemma_creates_add_rows(m1, rest);
        assert(r == inserted_all(m1, rest));
        assert(r.rows.take(m1.rows.len() as int) == m1.rows);
        assert(r.rows.take(m.rows.len() as int) =~= m.rows) by {
            assert forall|i: int| 0 <= i < m.rows.len() implies #[trigger] r.rows[i] == m.rows[i] by {
                assert(r.rows.take(m1.rows.len() as int)[i] == m1.rows[i]);
            }
        }
        assert forall|k: int| 0 <= k < descriptions.len() implies (#[trigger] r.rows[m.rows.len()
            + k]).description == descriptions[k] by {
            if k == 0 {
                assert(r.rows.take(m1.rows.len() as int)[m.rows.len() as int] == m1.rows[m.rows.len() as int]);
            } else {
                assert(r.rows[m1.rows.len() + (k - 1)].description == rest[k - 1]);
            }
        }
    }
}

/// An empty description yields the error notification; a non-empty one
/// never writes it, whether the store succeeds or fails.
pub proof fn lemma_create_flash(description: Seq<char>, before: Option<FlashView>, failed: bool)
    ensures
        description.len() == 0 ==> create_request_flash(description, before) == Some(
            empty_description_flash(),
        ),
        description.len() > 0 && before != Some(empty_description_flash()) ==> create_result_flash(
            failed,
            create_request_flash(description, before),
        ) != Some(empty_description_flash()),
{
    reveal_strlit("success");
    reveal_strlit("error");
    assert(task_added_flash().kind[0] != empty_description_flash().kind[0]);
}

/// A notification stored by one request is shown by the next render of the
/// list page and not by the one after it.
pub proof fn lemma_flash_shown_once(f: FlashView)
    ensures
        shown(stored(f)) == Some(f),
        shown(cleared(stored(f))) == None::<FlashView>,
{
}

} // verus!
