use actix_todo::api::{
    complete_create, complete_index, complete_update, handle_create, handle_index,
    handle_update_or_delete, parse_override, CreateForm, Dispatch, IndexOutcome, IndexPage,
    Override, UpdateForm, UpdateParams,
};
use actix_todo::flash::{Flash, Session};
use actix_todo::handlers::{
    done_if, toggled_status, AllTasks, CreateTask, DeleteTask, ToggleTask, WorkRequest,
    WorkResult, NUM_DB_THREADS,
};
use actix_todo::http::{bad_request, internal_server_error, not_found, redirect_to, Response};
use actix_todo::task::{NewTask, Task, TaskStore};

fn list(store: &mut TaskStore) -> Vec<Task> {
    match store.handle(WorkRequest::ListAll(AllTasks)) {
        WorkResult::Tasks(ts) => ts,
        _ => panic!("listing failed"),
    }
}

fn create(store: &mut TaskStore, session: &mut Session, description: &str) -> Response {
    let form = CreateForm { description: description.to_string() };
    match handle_create(&form, session) {
        Dispatch::Submit(req) => {
            let result = store.handle(req);
            complete_create(&result, session)
        }
        Dispatch::Respond(resp) => resp,
    }
}

fn update(store: &mut TaskStore, id: i32, method: &str) -> Response {
    let params = UpdateParams { id };
    let form = UpdateForm { _method: method.to_string() };
    match handle_update_or_delete(&params, &form) {
        Dispatch::Submit(req) => {
            let result = store.handle(req);
            complete_update(&result)
        }
        Dispatch::Respond(resp) => resp,
    }
}

fn render(store: &mut TaskStore, session: &mut Session) -> IndexPage {
    let result = store.handle(handle_index());
    match complete_index(result, session) {
        IndexOutcome::Page(p) => p,
        IndexOutcome::Failed(_) => panic!("render failed"),
    }
}

fn is_redirect_home(r: &Response) -> bool {
    r.status == 302 && r.location.as_deref() == Some("/") && r.body.is_empty()
}

fn flash_pair(f: &Option<Flash>) -> Option<(String, String)> {
    f.as_ref().map(|f| (f.kind.clone(), f.message.clone()))
}

#[test]
fn create_then_list_puts_new_task_first() {
    let mut store = TaskStore::new();
    Task::insert(NewTask { description: "first".to_string() }, &mut store).unwrap();
    Task::insert(NewTask { description: "second".to_string() }, &mut store).unwrap();
    let all = Task::all(&store);
    assert_eq!(all.len(), 2);
    assert_eq!(all[0].id, 2);
    assert_eq!(all[0].description, "second");
    assert!(!all[0].completed);
    assert_eq!(all[1].id, 1);
    assert_eq!(all[1].description, "first");
}

#[test]
fn insert_reports_one_row() {
    let mut store = TaskStore::new();
    let r = Task::insert(NewTask { description: "x".to_string() }, &mut store);
    assert_eq!(r, Ok(1));
}

#[test]
fn empty_store_lists_nothing() {
    let store = TaskStore::new();
    assert!(Task::all(&store).is_empty());
}

#[test]
fn toggle_twice_restores_completed() {
    let mut store = TaskStore::new();
    Task::insert(NewTask { description: "a".to_string() }, &mut store).unwrap();
    assert!(Task::toggle_with_id(1, &mut store));
    assert!(Task::all(&store)[0].completed);
    assert!(Task::toggle_with_id(1, &mut store));
    assert!(!Task::all(&store)[0].completed);
}

#[test]
fn toggle_touches_only_its_id() {
    let mut store = TaskStore::new();
    Task::insert(NewTask { description: "a".to_string() }, &mut store).unwrap();
    Task::insert(NewTask { description: "b".to_string() }, &mut store).unwrap();
    assert!(Task::toggle_with_id(1, &mut store));
    let all = Task::all(&store);
    assert!(!all[0].completed);
    assert!(all[1].completed);
}

#[test]
fn toggle_of_missing_id_fails() {
    let mut store = TaskStore::new();
    assert!(!Task::toggle_with_id(7, &mut store));
    assert!(matches!(store.handle(WorkRequest::Toggle(ToggleTask { id: 7 })), WorkResult::Failed));
    assert_eq!(update(&mut store, 7, "put").status, 500);
}

#[test]
fn delete_removes_and_second_delete_is_a_no_op() {
    let mut store = TaskStore::new();
    Task::insert(NewTask { description: "a".to_string() }, &mut store).unwrap();
    Task::insert(NewTask { description: "b".to_string() }, &mut store).unwrap();
    assert!(Task::delete_with_id(1, &mut store));
    let all = Task::all(&store);
    assert_eq!(all.len(), 1);
    assert_eq!(all[0].id, 2);
    assert!(Task::delete_with_id(1, &mut store));
    assert_eq!(Task::all(&store).len(), 1);
    assert!(matches!(store.handle(WorkRequest::Delete(DeleteTask { id: 1 })), WorkResult::Done));
    Task::insert(NewTask { description: "c".to_string() }, &mut store).unwrap();
    assert!(Task::all(&store).iter().all(|t| t.id != 1));
}

#[test]
fn empty_description_sets_error_flash_without_work() {
    let mut session = Session::new();
    let form = CreateForm { description: String::new() };
    match handle_create(&form, &mut session) {
        Dispatch::Respond(r) => assert!(is_redirect_home(&r)),
        Dispatch::Submit(_) => panic!("an empty description reached the pool"),
    }
    let mut store = TaskStore::new();
    let page = render(&mut store, &mut session);
    assert_eq!(
        flash_pair(&page.msg),
        Some(("error".to_string(), "Description cannot be empty".to_string()))
    );
    assert!(page.tasks.is_empty());
}

#[test]
fn well_formed_description_never_sets_error_flash() {
    let mut session = Session::new();
    let form = CreateForm { description: "buy milk".to_string() };
    match handle_create(&form, &mut session) {
        Dispatch::Submit(WorkRequest::Create(c)) => assert_eq!(c.description, "buy milk"),
        _ => panic!("expected a create request"),
    }
    assert!(session.flash.is_none());
    let r = complete_create(&WorkResult::Failed, &mut session);
    assert_eq!(r.status, 500);
    assert!(session.flash.is_none());
}

#[test]
fn k_creates_give_k_rows_with_unique_ids() {
    let mut store = TaskStore::new();
    let mut session = Session::new();
    let k = 5;
    for i in 0..k {
        let r = create(&mut store, &mut session, &format!("task {}", i));
        assert!(is_redirect_home(&r));
    }
    let all = list(&mut store);
    assert_eq!(all.len(), k);
    let mut ids: Vec<i32> = all.iter().map(|t| t.id).collect();
    ids.sort();
    ids.dedup();
    assert_eq!(ids.len(), k);
}

#[test]
fn flash_is_shown_on_exactly_the_next_render() {
    let mut store = TaskStore::new();
    let mut session = Session::new();
    session.set_flash(Flash::success("done"));
    let first = render(&mut store, &mut session);
    assert_eq!(flash_pair(&first.msg), Some(("success".to_string(), "done".to_string())));
    let second = render(&mut store, &mut session);
    assert!(second.msg.is_none());
}

#[test]
fn a_new_flash_replaces_an_unread_one() {
    let mut session = Session::new();
    session.set_flash(Flash::error("old"));
    session.set_flash(Flash::success("new"));
    let f = session.read_and_clear_flash();
    assert_eq!(flash_pair(&f), Some(("success".to_string(), "new".to_string())));
    assert!(session.read_and_clear_flash().is_none());
}

#[test]
fn patch_override_is_bad_request_and_leaves_task_alone() {
    let mut store = TaskStore::new();
    for i in 0..5 {
        Task::insert(NewTask { description: format!("t{}", i) }, &mut store).unwrap();
    }
    let before: Vec<(i32, bool)> = Task::all(&store).iter().map(|t| (t.id, t.completed)).collect();
    let r = update(&mut store, 5, "patch");
    assert_eq!(r.status, 400);
    assert_eq!(r.body, "400 Bad Request");
    let after: Vec<(i32, bool)> = Task::all(&store).iter().map(|t| (t.id, t.completed)).collect();
    assert_eq!(before, after);
}

#[test]
fn end_to_end_buy_milk() {
    let mut store = TaskStore::new();
    let mut session = Session::new();
    let r = create(&mut store, &mut session, "buy milk");
    assert!(is_redirect_home(&r));
    let page = render(&mut store, &mut session);
    assert_eq!(page.tasks.len(), 1);
    assert_eq!(page.tasks[0].description, "buy milk");
    assert_eq!(
        flash_pair(&page.msg),
        Some(("success".to_string(), "Task successfully added".to_string()))
    );
    let r = update(&mut store, 1, "put");
    assert!(is_redirect_home(&r));
    let page = render(&mut store, &mut session);
    assert_eq!(page.tasks[0].id, 1);
    assert!(page.tasks[0].completed);
    assert!(page.msg.is_none());
}

#[test]
fn delete_override_removes_task() {
    let mut store = TaskStore::new();
    let mut session = Session::new();
    create(&mut store, &mut session, "a");
    let r = update(&mut store, 1, "delete");
    assert!(is_redirect_home(&r));
    assert!(list(&mut store).is_empty());
}

#[test]
fn override_values_are_classified() {
    assert_eq!(parse_override(&"put".to_string()), Some(Override::Toggle));
    assert_eq!(parse_override(&"delete".to_string()), Some(Override::Delete));
    assert_eq!(parse_override(&"PUT".to_string()), None);
    assert_eq!(parse_override(&String::new()), None);
    assert_eq!(parse_override(&"patch".to_string()), None);
}

#[test]
fn update_requests_carry_the_path_id() {
    let params = UpdateParams { id: 9 };
    let form = UpdateForm { _method: "put".to_string() };
    assert!(matches!(
        handle_update_or_delete(&params, &form),
        Dispatch::Submit(WorkRequest::Toggle(ToggleTask { id: 9 }))
    ));
    let form = UpdateForm { _method: "delete".to_string() };
    assert!(matches!(
        handle_update_or_delete(&params, &form),
        Dispatch::Submit(WorkRequest::Delete(DeleteTask { id: 9 }))
    ));
}

#[test]
fn failed_listing_gives_500_and_keeps_flash() {
    let mut session = Session::new();
    session.set_flash(Flash::success("kept"));
    match complete_index(WorkResult::Failed, &mut session) {
        IndexOutcome::Failed(r) => {
            assert_eq!(r.status, 500);
            assert_eq!(r.body, "500 Internal Server Error");
        }
        IndexOutcome::Page(_) => panic!("expected a failure"),
    }
    assert!(session.flash.is_some());
}

#[test]
fn successful_create_sets_success_flash() {
    let mut session = Session::new();
    let r = complete_create(&WorkResult::Done, &mut session);
    assert!(is_redirect_home(&r));
    assert_eq!(
        flash_pair(&session.flash),
        Some(("success".to_string(), "Task successfully added".to_string()))
    );
}

#[test]
fn worker_create_request_adds_a_row() {
    let mut store = TaskStore::new();
    let r = store.handle(WorkRequest::Create(CreateTask { description: "w".to_string() }));
    assert!(matches!(r, WorkResult::Done));
    let all = list(&mut store);
    assert_eq!(all[0].description, "w");
}

#[test]
fn fixed_responses() {
    let r = not_found();
    assert_eq!((r.status, r.body.as_str()), (404, "Not Found"));
    let r = bad_request();
    assert_eq!((r.status, r.body.as_str()), (400, "400 Bad Request"));
    let r = internal_server_error();
    assert_eq!((r.status, r.body.as_str()), (500, "500 Internal Server Error"));
    let r = redirect_to("/elsewhere");
    assert_eq!(r.status, 302);
    assert_eq!(r.location.as_deref(), Some("/elsewhere"));
}

#[test]
fn flash_constructors() {
    let f = Flash::success("ok");
    assert_eq!((f.kind.as_str(), f.message.as_str()), ("success", "ok"));
    let f = Flash::error("bad");
    assert_eq!((f.kind.as_str(), f.message.as_str()), ("error", "bad"));
}

#[test]
fn pool_has_three_workers() {
    assert_eq!(NUM_DB_THREADS, 3);
}

#[test]
fn statement_outcome_maps_to_result() {
    assert!(matches!(done_if(true), WorkResult::Done));
    assert!(matches!(done_if(false), WorkResult::Failed));
}

#[test]
fn toggle_writes_the_negated_flag() {
    assert_eq!(toggled_status(Some(false)), Some(true));
    assert_eq!(toggled_status(Some(true)), Some(false));
    assert_eq!(toggled_status(None), None);
}

#[test]
fn failure_responses_carry_fixed_bodies() {
    let mut session = Session::new();
    let r = complete_create(&WorkResult::Failed, &mut session);
    assert_eq!((r.status, r.body.as_str()), (500, "500 Internal Server Error"));
    let r = complete_update(&WorkResult::Failed);
    assert_eq!((r.status, r.body.as_str()), (500, "500 Internal Server Error"));
    let params = UpdateParams { id: 5 };
    let form = UpdateForm { _method: "patch".to_string() };
    match handle_update_or_delete(&params, &form) {
        Dispatch::Respond(r) => assert_eq!((r.status, r.body.as_str()), (400, "400 Bad Request")),
        Dispatch::Submit(_) => panic!("an unknown override reached the pool"),
    }
}
