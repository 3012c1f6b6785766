use foxboard::error::AppError;
use foxboard::models::{AuthenticatedUser, TaskType, UserModel};
use foxboard::project_messages::{CreateLabelMessage, CreateProjectMessage};
use foxboard::project_routes::{create_label_route, create_project_route};
use foxboard::store::Store;
use foxboard::task_messages::CreateOrUpdateTaskMessage;
use foxboard::task_routes::{
    create_task_route, delete_task_route, diff_labels, get_task_route, update_task_route,
};

fn task_owner(store: &mut Store, name: &str) -> AuthenticatedUser {
    let mut user = UserModel {
        username: name.to_string(),
        password_hash: "h".to_string(),
        id: 0,
        is_admin: false,
    };
    foxboard::store::create_user(store, &mut user).unwrap();
    AuthenticatedUser { user, token: format!("{name}-token") }
}

fn agent() -> Option<&'static str> {
    Some("agent")
}

fn peer() -> Option<String> {
    Some("10.0.0.1".to_string())
}

fn task_body(project_id: u128, title: &str, labels: Option<Vec<u128>>) -> CreateOrUpdateTaskMessage {
    CreateOrUpdateTaskMessage {
        title: title.to_string(),
        project_id,
        column_id: None,
        assignee_id: None,
        creator_id: None,
        deadline: None,
        estimation: None,
        state_id: None,
        parent_id: None,
        task_type: 0,
        labels,
    }
}

#[test]
fn label_diff_adds_and_removes_exactly_the_difference() {
    // Stored {A, B}, requested {B, C}: one addition (C), one removal (A).
    let a: u128 = 101;
    let b: u128 = 102;
    let c: u128 = 103;
    let (adds, removes) = diff_labels(&vec![b, c], &vec![a, b]);
    assert_eq!(adds, vec![c]);
    assert_eq!(removes, vec![a]);
}

#[test]
fn label_diff_of_equal_sets_is_empty() {
    let (adds, removes) = diff_labels(&vec![1, 2], &vec![1, 2]);
    assert!(adds.is_empty());
    assert!(removes.is_empty());
}

#[test]
fn task_creation_attaches_its_labels() {
    let mut store = Store::new();
    let owner = task_owner(&mut store, "kit");
    let project = create_project_route(
        &mut store,
        &owner,
        CreateProjectMessage { name: "board".to_string(), public: false },
        agent(),
        peer(),
    )
    .unwrap();
    let bug = create_label_route(
        &mut store,
        &owner,
        project.id,
        CreateLabelMessage { name: "bug".to_string() },
        agent(),
        peer(),
    )
    .unwrap();
    let m = create_task_route(
        &mut store,
        &owner,
        task_body(project.id, "fix it", Some(vec![bug.id])),
        agent(),
        peer(),
    )
    .unwrap();
    assert_eq!(m.title, "fix it");
    assert_eq!(m.labels, Some(vec![bug.id]));
    assert_eq!(store.tasks.len(), 1);
    assert_eq!(store.task_labels.len(), 1);
    assert_eq!(store.task_labels[0].task_id, m.id);
    assert_eq!(store.task_labels[0].label_id, bug.id);
}

#[test]
fn strangers_cannot_create_tasks() {
    let mut store = Store::new();
    let owner = task_owner(&mut store, "kit");
    let stranger = task_owner(&mut store, "who");
    let project = create_project_route(
        &mut store,
        &owner,
        CreateProjectMessage { name: "board".to_string(), public: true },
        agent(),
        peer(),
    )
    .unwrap();
    let e = create_task_route(
        &mut store,
        &stranger,
        task_body(project.id, "nope", None),
        agent(),
        peer(),
    )
    .unwrap_err();
    assert!(matches!(e, AppError::Unauthorized { .. }));
    assert!(store.tasks.is_empty());
}

#[test]
fn task_update_diffs_the_label_set() {
    let mut store = Store::new();
    let owner = task_owner(&mut store, "kit");
    let project = create_project_route(
        &mut store,
        &owner,
        CreateProjectMessage { name: "board".to_string(), public: false },
        agent(),
        peer(),
    )
    .unwrap();
    let la = create_label_route(&mut store, &owner, project.id,
        CreateLabelMessage { name: "a".to_string() }, agent(), peer()).unwrap();
    let lb = create_label_route(&mut store, &owner, project.id,
        CreateLabelMessage { name: "b".to_string() }, agent(), peer()).unwrap();
    let lc = create_label_route(&mut store, &owner, project.id,
        CreateLabelMessage { name: "c".to_string() }, agent(), peer()).unwrap();
    let task = create_task_route(
        &mut store,
        &owner,
        task_body(project.id, "t", Some(vec![la.id, lb.id])),
        agent(),
        peer(),
    )
    .unwrap();
    let m = update_task_route(
        &mut store,
        &owner,
        task.id,
        task_body(project.id, "t", Some(vec![lb.id, lc.id])),
        agent(),
        peer(),
    )
    .unwrap();
    assert_eq!(m.labels, Some(vec![lb.id, lc.id]));
    // Exactly one removal (a) and one addition (c); b was never detached.
    let mut attached: Vec<u128> = store.task_labels.iter().map(|tl| tl.label_id).collect();
    attached.sort();
    assert_eq!(attached, vec![lb.id, lc.id]);
}

#[test]
fn task_update_patches_the_stored_row() {
    let mut store = Store::new();
    let owner = task_owner(&mut store, "kit");
    let project = create_project_route(
        &mut store,
        &owner,
        CreateProjectMessage { name: "board".to_string(), public: false },
        agent(),
        peer(),
    )
    .unwrap();
    let task = create_task_route(
        &mut store,
        &owner,
        task_body(project.id, "before", None),
        agent(),
        peer(),
    )
    .unwrap();
    let mut body = task_body(project.id, "after", None);
    body.estimation = Some(5);
    body.deadline = Some(1_700_000_000_000);
    let m = update_task_route(&mut store, &owner, task.id, body, agent(), peer()).unwrap();
    assert_eq!(m.id, task.id);
    assert_eq!(m.title, "after");
    assert_eq!(m.estimation, Some(5));
    assert_eq!(m.deadline, Some(1_700_000_000_000));
    assert_eq!(store.tasks[0].title, "after");
}

#[test]
fn unrepresentable_deadlines_are_dropped() {
    let mut body = task_body(1, "t", None);
    body.deadline = Some(1_700_000_000_000);
    assert_eq!(body.to_model().deadline, Some(1_700_000_000_000));
    let mut body = task_body(1, "t", None);
    body.deadline = Some(i64::MAX);
    assert_eq!(body.to_model().deadline, None);
    let body = task_body(1, "t", None);
    assert_eq!(body.to_model().deadline, None);
}

#[test]
fn reading_a_task_lists_its_labels() {
    let mut store = Store::new();
    let owner = task_owner(&mut store, "kit");
    let project = create_project_route(
        &mut store,
        &owner,
        CreateProjectMessage { name: "board".to_string(), public: false },
        agent(),
        peer(),
    )
    .unwrap();
    let bug = create_label_route(&mut store, &owner, project.id,
        CreateLabelMessage { name: "bug".to_string() }, agent(), peer()).unwrap();
    let task = create_task_route(
        &mut store,
        &owner,
        task_body(project.id, "t", Some(vec![bug.id])),
        agent(),
        peer(),
    )
    .unwrap();
    let m = get_task_route(&mut store, &owner, task.id, agent(), peer()).unwrap();
    assert_eq!(m.labels, Some(vec![bug.id]));
    assert_eq!(m.title, "t");
}

#[test]
fn reading_a_missing_task_is_not_found() {
    let mut store = Store::new();
    let owner = task_owner(&mut store, "kit");
    let e = get_task_route(&mut store, &owner, 55, agent(), peer()).unwrap_err();
    assert!(matches!(e, AppError::NotFound { .. }));
}

#[test]
fn deleting_a_task_removes_it_and_its_attachments() {
    let mut store = Store::new();
    let owner = task_owner(&mut store, "kit");
    let project = create_project_route(
        &mut store,
        &owner,
        CreateProjectMessage { name: "board".to_string(), public: false },
        agent(),
        peer(),
    )
    .unwrap();
    let bug = create_label_route(&mut store, &owner, project.id,
        CreateLabelMessage { name: "bug".to_string() }, agent(), peer()).unwrap();
    let task = create_task_route(
        &mut store,
        &owner,
        task_body(project.id, "t", Some(vec![bug.id])),
        agent(),
        peer(),
    )
    .unwrap();
    let m = delete_task_route(&mut store, &owner, task.id, agent(), peer()).unwrap();
    assert!(m.success);
    assert!(store.tasks.is_empty());
    assert!(store.task_labels.is_empty());
    assert_eq!(store.labels.len(), 1);
}

#[test]
fn deleting_a_task_is_reserved_to_the_owner() {
    let mut store = Store::new();
    let owner = task_owner(&mut store, "kit");
    let editor = task_owner(&mut store, "pal");
    let project = create_project_route(
        &mut store,
        &owner,
        CreateProjectMessage { name: "board".to_string(), public: false },
        agent(),
        peer(),
    )
    .unwrap();
    foxboard::store::grant_project_permission(
        &mut store,
        editor.user.id,
        project.id,
        foxboard::permissions::Permissions::Editor,
    )
    .unwrap();
    let task = create_task_route(
        &mut store,
        &editor,
        task_body(project.id, "t", None),
        agent(),
        peer(),
    )
    .unwrap();
    // An editor may create and update tasks, but deletion takes the owner.
    let e = delete_task_route(&mut store, &editor, task.id, agent(), peer()).unwrap_err();
    assert!(matches!(e, AppError::Unauthorized { .. }));
    assert_eq!(store.tasks.len(), 1);
    assert!(delete_task_route(&mut store, &owner, task.id, agent(), peer()).unwrap().success);
    assert!(store.tasks.is_empty());
}

#[test]
fn tasks_need_a_title_and_a_stored_project() {
    let mut store = Store::new();
    let owner = task_owner(&mut store, "kit");
    let project = create_project_route(
        &mut store,
        &owner,
        CreateProjectMessage { name: "board".to_string(), public: false },
        agent(),
        peer(),
    )
    .unwrap();
    let e = create_task_route(
        &mut store,
        &owner,
        task_body(project.id, "", None),
        agent(),
        peer(),
    )
    .unwrap_err();
    assert!(matches!(e, AppError::RequestError { .. }));
    assert!(store.tasks.is_empty());
}

#[test]
fn task_type_defaults_to_standard() {
    assert_eq!(TaskType::default(), TaskType::Standard);
}
