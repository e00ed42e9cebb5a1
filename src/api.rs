use vstd::prelude::*;

use crate::flash::{cleared, error_view, flash_of, shown, success_view, Flash, FlashView, Session};
use crate::handlers::{AllTasks, CreateTask, DeleteTask, ToggleTask, WorkRequest, WorkResult};
use crate::http::{bad_request, internal_server_error, location_of, redirect_to, Response};
use crate::task::{views, Task};

verus! {

/// The form that creates a task.
pub struct CreateForm {
    pub description: String,
}

/// The id taken from the path `/todo/{id}`.
pub struct UpdateParams {
    pub id: i32,
}

/// The hidden form field that names the intended method of a POST to
/// `/todo/{id}`.
pub struct UpdateForm {
    pub _method: String,
}

/// What a POST to `/todo/{id}` asks for.
#[derive(PartialEq, Eq, Structural, Debug, Clone, Copy)]
pub enum Override {
    Toggle,
    Delete,
}

/// `put` asks for a toggle, `delete` for a delete; nothing else is understood.
pub open spec fn override_of(method: Seq<char>) -> Option<Override> {
    if method == "put"@ {
        Some(Override::Toggle)
    } else if method == "delete"@ {
        Some(Override::Delete)
    } else {
        None
    }
}

/// What the bridge does next with a request: hand work to the pool, or
/// answer at once without touching the store.
pub enum Dispatch {
    Submit(WorkRequest),
    Respond(Response),
}

/// What the list page shows: every task, newest first, and the notification
/// that was pending, if any.
pub struct IndexPage {
    pub tasks: Vec<Task>,
    pub msg: Option<Flash>,
}

/// The list page, or the response that replaces it when the store failed.
pub enum IndexOutcome {
    Page(IndexPage),
    Failed(Response),
}

pub open spec fn empty_description_flash() -> FlashView {
    error_view("Description cannot be empty"@)
}

pub open spec fn task_added_flash() -> FlashView {
    success_view("Task successfully added"@)
}

/// The session's notification after a create request was classified.
pub open spec fn create_request_flash(description: Seq<char>, before: Option<FlashView>) -> Option<
    FlashView,
> {
    if description.len() == 0 {
        Some(empty_description_flash())
    } else {
        before
    }
}

/// The session's notification after the pool answered a create.
pub open spec fn create_result_flash(failed: bool, before: Option<FlashView>) -> Option<FlashView> {
    if failed {
        before
    } else {
        Some(task_added_flash())
    }
}

/// A 302 to the list page.
pub open spec fn is_redirect_home(r: Response) -> bool {
    r.status == 302 && location_of(r) == Some("/"@)
}

/// Classifies the override field; decided before any work is scheduled.
pub fn parse_override(method: &String) -> (r: Option<Override>)
    ensures
        r == override_of(method@),
{
    let put = "put".to_owned();
    let delete = "delete".to_owned();
    if *method == put {
        Some(Override::Toggle)
    } else if *method == delete {
        Some(Override::Delete)
    } else {
        None
    }
}

/// The list page always asks the pool for every task.
pub fn handle_index() -> (r: WorkRequest)
    ensures
        r is ListAll,
{
    WorkRequest::ListAll(AllTasks)
}

/// Builds the list page from the pool's answer. The pending notification is
/// shown once and cleared; a failure gives a 500 and leaves the session alone.
pub fn complete_index(result: WorkResult, session: &mut Session) -> (r: IndexOutcome)
    ensures
        result matches WorkResult::Tasks(ts) ==> (r matches IndexOutcome::Page(p) && views(
            p.tasks@,
        ) == views(ts@) && flash_of(p.msg) == shown(old(session)@)),
        result is Tasks ==> final(session)@ == cleared(old(session)@),
        !(result is Tasks) ==> (r matches IndexOutcome::Failed(resp) && resp.status == 500
            && resp.body@ == "500 Internal Server Error"@),
        !(result is Tasks) ==> final(session)@ == old(session)@,
{
    match result {
        WorkResult::Tasks(tasks) => {
            let msg = session.read_and_clear_flash();
            IndexOutcome::Page(IndexPage { tasks, msg })
        },
        _ => IndexOutcome::Failed(internal_server_error()),
    }
}

/// An empty description is refused here: the session gets an error
/// notification and the client is sent back to the list, with no work
/// scheduled. Otherwise the description goes to the pool as it is.
pub fn handle_create(form: &CreateForm, session: &mut Session) -> (r: Dispatch)
    ensures
        final(session)@ == create_request_flash(form.description@, old(session)@),
        form.description@.len() == 0 ==> (r matches Dispatch::Respond(resp) && is_redirect_home(
            resp,
        )),
        form.description@.len() > 0 ==> (r matches Dispatch::Submit(WorkRequest::Create(c))
            && c.description@ == form.description@),
{
    if form.description.as_str().is_empty() {
        session.set_flash(Flash::error("Description cannot be empty"));
        Dispatch::Respond(redirect_to("/"))
    } else {
        Dispatch::Submit(
            WorkRequest::Create(CreateTask { description: form.description.clone() }),
        )
    }
}

/// After a create: on success a notification and a redirect to the list,
/// on failure a 500 with the session untouched.
pub fn complete_create(result: &WorkResult, session: &mut Session) -> (r: Response)
    ensures
        final(session)@ == create_result_flash(result is Failed, old(session)@),
        !(result is Failed) ==> is_redirect_home(r),
        (result is Failed) ==> r.status == 500 && r.body@ == "500 Internal Server Error"@,
{
    match result {
        WorkResult::Failed => internal_server_error(),
        _ => {
            session.set_flash(Flash::success("Task successfully added"));
            redirect_to("/")
        },
    }
}

/// Routes a POST to `/todo/{id}` by its override field: a toggle or a
/// delete of that id, or a 400 with no work scheduled.
pub fn handle_update_or_delete(params: &UpdateParams, form: &UpdateForm) -> (r: Dispatch)
    ensures
        override_of(form._method@) == Some(Override::Toggle) ==> (r matches Dispatch::Submit(
            WorkRequest::Toggle(t),
        ) && t.id == params.id),
        override_of(form._method@) == Some(Override::Delete) ==> (r matches Dispatch::Submit(
            WorkRequest::Delete(d),
        ) && d.id == params.id),
        override_of(form._method@) is None ==> (r matches Dispatch::Respond(resp) && resp.status
            == 400 && resp.body@ == "400 Bad Request"@),
{
    match parse_override(&form._method) {
        Some(Override::Toggle) => Dispatch::Submit(WorkRequest::Toggle(ToggleTask { id: params.id })),
        Some(Override::Delete) => Dispatch::Submit(WorkRequest::Delete(DeleteTask { id: params.id })),
        None => Dispatch::Respond(bad_request()),
    }
}

/// After a toggle or delete: a redirect to the list, or a 500 on failure.
pub fn complete_update(result: &WorkResult) -> (r: Response)
    ensures
        !(result is Failed) ==> is_redirect_home(r),
        (result is Failed) ==> r.status == 500 && r.body@ == "500 Internal Server Error"@,
{
    match result {
        WorkResult::Failed => internal_server_error(),
        _ => redirect_to("/"),
    }
}

} // verus!
