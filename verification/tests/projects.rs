use foxboard::error::AppError;
use foxboard::models::{AuthenticatedUser, ProjectModel, UserModel};
use foxboard::permissions::Permissions;
use foxboard::project_messages::{
    CreateLabelMessage, CreateProjectColumnMessage, CreateProjectMessage, UpdateProjectColumnMessage,
    UpdateProjectMessage,
};
use foxboard::project_routes::{
    create_column_route, create_label_route, create_project_route, delete_column_route,
    delete_project_route, get_project_route, get_projects_route, update_column_route,
    update_project_route,
};
use foxboard::store::{grant_project_permission, Store};
use foxboard::util::Pagination;

fn admin_caller(store: &mut Store) -> AuthenticatedUser {
    let mut user = UserModel {
        username: "root".to_string(),
        password_hash: "h".to_string(),
        id: 0,
        is_admin: true,
    };
    foxboard::store::create_user(store, &mut user).unwrap();
    AuthenticatedUser { user, token: "root-token".to_string() }
}

fn member_caller(store: &mut Store, name: &str) -> AuthenticatedUser {
    let mut user = UserModel {
        username: name.to_string(),
        password_hash: "h".to_string(),
        id: 0,
        is_admin: false,
    };
    foxboard::store::create_user(store, &mut user).unwrap();
    AuthenticatedUser { user, token: format!("{name}-token") }
}

fn ua() -> Option<&'static str> {
    Some("agent")
}

fn ip() -> Option<String> {
    Some("10.0.0.1".to_string())
}

#[test]
fn created_project_belongs_to_its_creator() {
    let mut store = Store::new();
    let owner = member_caller(&mut store, "kit");
    let msg = CreateProjectMessage { name: "board".to_string(), public: false };
    let m = create_project_route(&mut store, &owner, msg, ua(), ip()).unwrap();
    assert_eq!(m.owner_id, owner.user.id);
    assert_eq!(m.name, "board");
    assert!(!m.public);
    assert_eq!(store.projects.len(), 1);
    assert_eq!(store.projects[0].id, m.id);
}

#[test]
fn patch_with_only_a_name_keeps_visibility_and_owner() {
    let mut project = ProjectModel {
        name: "before".to_string(),
        public: true,
        id: 9,
        owner_id: 77,
    };
    let patch = UpdateProjectMessage { name: Some("X".to_string()), public: None, owner_id: None };
    patch.update_project(&mut project);
    assert_eq!(project.name, "X");
    assert!(project.public);
    assert_eq!(project.owner_id, 77);
    assert_eq!(project.id, 9);
}

#[test]
fn patch_requirements_escalate_on_sensitive_fields() {
    let name_only = UpdateProjectMessage { name: Some("X".to_string()), public: None, owner_id: None };
    assert_eq!(name_only.get_requirements(), Permissions::Editor);
    let flips_public = UpdateProjectMessage { name: None, public: Some(false), owner_id: None };
    assert_eq!(flips_public.get_requirements(), Permissions::Owner);
    let transfers = UpdateProjectMessage { name: None, public: None, owner_id: Some(3) };
    assert_eq!(transfers.get_requirements(), Permissions::Owner);
}

#[test]
fn update_project_route_applies_the_patch() {
    let mut store = Store::new();
    let owner = member_caller(&mut store, "kit");
    let created = create_project_route(
        &mut store,
        &owner,
        CreateProjectMessage { name: "board".to_string(), public: false },
        ua(),
        ip(),
    )
    .unwrap();
    let patch = UpdateProjectMessage { name: Some("renamed".to_string()), public: None, owner_id: None };
    let m = update_project_route(&mut store, &owner, created.id, patch, ua(), ip()).unwrap();
    assert_eq!(m.name, "renamed");
    assert!(!m.public);
    assert_eq!(m.owner_id, owner.user.id);
    assert_eq!(store.projects[0].name, "renamed");
}

#[test]
fn editor_grant_cannot_change_visibility() {
    let mut store = Store::new();
    let owner = member_caller(&mut store, "kit");
    let editor = member_caller(&mut store, "pal");
    let created = create_project_route(
        &mut store,
        &owner,
        CreateProjectMessage { name: "board".to_string(), public: false },
        ua(),
        ip(),
    )
    .unwrap();
    grant_project_permission(&mut store, editor.user.id, created.id, Permissions::Editor).unwrap();
    let rename = UpdateProjectMessage { name: Some("n".to_string()), public: None, owner_id: None };
    assert!(update_project_route(&mut store, &editor, created.id, rename, ua(), ip()).is_ok());
    let expose = UpdateProjectMessage { name: None, public: Some(true), owner_id: None };
    let e = update_project_route(&mut store, &editor, created.id, expose, ua(), ip()).unwrap_err();
    assert!(matches!(e, AppError::Unauthorized { .. }));
    assert!(!store.projects[0].public);
}

#[test]
fn stranger_cannot_read_a_private_project() {
    let mut store = Store::new();
    let owner = member_caller(&mut store, "kit");
    let stranger = member_caller(&mut store, "who");
    let created = create_project_route(
        &mut store,
        &owner,
        CreateProjectMessage { name: "board".to_string(), public: false },
        ua(),
        ip(),
    )
    .unwrap();
    let e = get_project_route(&mut store, &stranger, created.id, ua(), ip()).unwrap_err();
    assert!(matches!(e, AppError::Unauthorized { .. }));
}

#[test]
fn anyone_can_read_a_public_project() {
    let mut store = Store::new();
    let owner = member_caller(&mut store, "kit");
    let stranger = member_caller(&mut store, "who");
    let created = create_project_route(
        &mut store,
        &owner,
        CreateProjectMessage { name: "board".to_string(), public: true },
        ua(),
        ip(),
    )
    .unwrap();
    let m = get_project_route(&mut store, &stranger, created.id, ua(), ip()).unwrap();
    assert_eq!(m.id, created.id);
    assert_eq!(m.labels.unwrap().len(), 0);
    assert_eq!(m.columns.unwrap().len(), 0);
}

#[test]
fn reading_a_missing_project_is_not_found() {
    let mut store = Store::new();
    let owner = member_caller(&mut store, "kit");
    let e = get_project_route(&mut store, &owner, 424242, ua(), ip()).unwrap_err();
    assert!(matches!(e, AppError::NotFound { .. }));
}

#[test]
fn project_read_carries_labels_and_columns() {
    let mut store = Store::new();
    let owner = member_caller(&mut store, "kit");
    let created = create_project_route(
        &mut store,
        &owner,
        CreateProjectMessage { name: "board".to_string(), public: false },
        ua(),
        ip(),
    )
    .unwrap();
    create_label_route(
        &mut store,
        &owner,
        created.id,
        CreateLabelMessage { name: "bug".to_string() },
        ua(),
        ip(),
    )
    .unwrap();
    create_column_route(
        &mut store,
        &owner,
        created.id,
        CreateProjectColumnMessage { name: "todo".to_string(), card_limit: None, index: 0 },
        ua(),
        ip(),
    )
    .unwrap();
    let m = get_project_route(&mut store, &owner, created.id, ua(), ip()).unwrap();
    let labels = m.labels.unwrap();
    let columns = m.columns.unwrap();
    assert_eq!(labels.len(), 1);
    assert_eq!(labels[0].name, "bug");
    assert_eq!(columns.len(), 1);
    assert_eq!(columns[0].name, "todo");
    assert_eq!(columns[0].card_limit, 0);
}

#[test]
fn column_patch_keeps_identity_and_project() {
    let mut store = Store::new();
    let owner = member_caller(&mut store, "kit");
    let created = create_project_route(
        &mut store,
        &owner,
        CreateProjectMessage { name: "board".to_string(), public: false },
        ua(),
        ip(),
    )
    .unwrap();
    let col = create_column_route(
        &mut store,
        &owner,
        created.id,
        CreateProjectColumnMessage { name: "todo".to_string(), card_limit: Some(4), index: 1 },
        ua(),
        ip(),
    )
    .unwrap();
    let patch = UpdateProjectColumnMessage { name: None, index: Some(2), card_limit: None };
    let m = update_column_route(&mut store, &owner, created.id, col.id, patch, ua(), ip())
        .unwrap();
    assert_eq!(m.id, col.id);
    assert_eq!(m.project_id, created.id);
    assert_eq!(m.name, "todo");
    assert_eq!(m.index, 2);
    assert_eq!(m.card_limit, 4);
}

#[test]
fn columns_come_back_in_board_order() {
    let mut store = Store::new();
    let owner = member_caller(&mut store, "kit");
    let created = create_project_route(
        &mut store,
        &owner,
        CreateProjectMessage { name: "board".to_string(), public: false },
        ua(),
        ip(),
    )
    .unwrap();
    for (name, index) in [("late", 2), ("early", 0), ("mid-a", 1), ("mid-b", 1)] {
        create_column_route(
            &mut store,
            &owner,
            created.id,
            CreateProjectColumnMessage { name: name.to_string(), card_limit: None, index },
            ua(),
            ip(),
        )
        .unwrap();
    }
    let m = get_project_route(&mut store, &owner, created.id, ua(), ip()).unwrap();
    let names: Vec<String> = m.columns.unwrap().into_iter().map(|c| c.name).collect();
    // Ascending by index; the two columns sharing an index keep creation order.
    assert_eq!(names, vec!["early", "mid-a", "mid-b", "late"]);
}

#[test]
fn deleting_a_column_is_reserved_to_the_owner() {
    let mut store = Store::new();
    let owner = member_caller(&mut store, "kit");
    let editor = member_caller(&mut store, "pal");
    let created = create_project_route(
        &mut store,
        &owner,
        CreateProjectMessage { name: "board".to_string(), public: false },
        ua(),
        ip(),
    )
    .unwrap();
    grant_project_permission(&mut store, editor.user.id, created.id, Permissions::Editor).unwrap();
    let col = create_column_route(
        &mut store,
        &owner,
        created.id,
        CreateProjectColumnMessage { name: "todo".to_string(), card_limit: None, index: 0 },
        ua(),
        ip(),
    )
    .unwrap();
    // An editor may add columns but not remove them: deletion takes the owner.
    let e = delete_column_route(&mut store, &editor, created.id, col.id, ua(), ip())
        .unwrap_err();
    assert!(matches!(e, AppError::Unauthorized { .. }));
    assert_eq!(store.columns.len(), 1);
    assert!(delete_column_route(&mut store, &owner, created.id, col.id, ua(), ip()).is_ok());
    assert!(store.columns.is_empty());
}

#[test]
fn creating_with_an_empty_name_is_rejected() {
    let mut store = Store::new();
    let owner = member_caller(&mut store, "kit");
    let e = create_project_route(
        &mut store,
        &owner,
        CreateProjectMessage { name: String::new(), public: false },
        ua(),
        ip(),
    )
    .unwrap_err();
    assert!(matches!(e, AppError::RequestError { .. }));
    assert!(store.projects.is_empty());
    let created = create_project_route(
        &mut store,
        &owner,
        CreateProjectMessage { name: "board".to_string(), public: false },
        ua(),
        ip(),
    )
    .unwrap();
    let e = create_column_route(
        &mut store,
        &owner,
        created.id,
        CreateProjectColumnMessage { name: String::new(), card_limit: None, index: 0 },
        ua(),
        ip(),
    )
    .unwrap_err();
    assert!(matches!(e, AppError::RequestError { .. }));
    let e = create_label_route(
        &mut store,
        &owner,
        created.id,
        CreateLabelMessage { name: String::new() },
        ua(),
        ip(),
    )
    .unwrap_err();
    assert!(matches!(e, AppError::RequestError { .. }));
    assert!(store.columns.is_empty());
    assert!(store.labels.is_empty());
}

#[test]
fn child_rows_need_a_stored_project() {
    let mut store = Store::new();
    let root = admin_caller(&mut store);
    // An administrator passes the permission gate, so the dangling reference
    // surfaces as the foreign-key violation the table would raise.
    let e = create_column_route(
        &mut store,
        &root,
        424242,
        CreateProjectColumnMessage { name: "todo".to_string(), card_limit: None, index: 0 },
        ua(),
        ip(),
    )
    .unwrap_err();
    assert!(matches!(e, AppError::DBError { .. }));
    assert!(store.columns.is_empty());
}

#[test]
fn deleting_a_project_cascades_to_its_children() {
    let mut store = Store::new();
    let owner = member_caller(&mut store, "kit");
    let keeper = member_caller(&mut store, "other");
    let doomed = create_project_route(
        &mut store,
        &owner,
        CreateProjectMessage { name: "doomed".to_string(), public: false },
        ua(),
        ip(),
    )
    .unwrap();
    let kept = create_project_route(
        &mut store,
        &keeper,
        CreateProjectMessage { name: "kept".to_string(), public: false },
        ua(),
        ip(),
    )
    .unwrap();
    create_column_route(
        &mut store,
        &owner,
        doomed.id,
        CreateProjectColumnMessage { name: "todo".to_string(), card_limit: None, index: 0 },
        ua(),
        ip(),
    )
    .unwrap();
    create_label_route(
        &mut store,
        &owner,
        doomed.id,
        CreateLabelMessage { name: "bug".to_string() },
        ua(),
        ip(),
    )
    .unwrap();
    create_column_route(
        &mut store,
        &keeper,
        kept.id,
        CreateProjectColumnMessage { name: "other".to_string(), card_limit: None, index: 0 },
        ua(),
        ip(),
    )
    .unwrap();
    grant_project_permission(&mut store, keeper.user.id, doomed.id, Permissions::Reader).unwrap();
    let m = delete_project_route(&mut store, &owner, doomed.id, ua(), ip()).unwrap();
    assert!(m.success);
    assert_eq!(store.projects.len(), 1);
    assert_eq!(store.projects[0].id, kept.id);
    assert_eq!(store.columns.len(), 1);
    assert_eq!(store.columns[0].project_id, kept.id);
    assert!(store.labels.is_empty());
    assert!(store.grants.is_empty());
}

#[test]
fn only_the_owner_or_an_admin_may_delete_a_project() {
    let mut store = Store::new();
    let owner = member_caller(&mut store, "kit");
    let stranger = member_caller(&mut store, "who");
    let created = create_project_route(
        &mut store,
        &owner,
        CreateProjectMessage { name: "board".to_string(), public: true },
        ua(),
        ip(),
    )
    .unwrap();
    let e = delete_project_route(&mut store, &stranger, created.id, ua(), ip()).unwrap_err();
    assert!(matches!(e, AppError::Unauthorized { .. }));
    assert_eq!(store.projects.len(), 1);
    let root = admin_caller(&mut store);
    assert!(delete_project_route(&mut store, &root, created.id, ua(), ip()).unwrap().success);
    assert!(store.projects.is_empty());
}

#[test]
fn project_listing_shows_own_and_public_projects() {
    let mut store = Store::new();
    let kit = member_caller(&mut store, "kit");
    let pal = member_caller(&mut store, "pal");
    create_project_route(
        &mut store,
        &kit,
        CreateProjectMessage { name: "mine".to_string(), public: false },
        ua(),
        ip(),
    )
    .unwrap();
    create_project_route(
        &mut store,
        &pal,
        CreateProjectMessage { name: "theirs-private".to_string(), public: false },
        ua(),
        ip(),
    )
    .unwrap();
    create_project_route(
        &mut store,
        &pal,
        CreateProjectMessage { name: "theirs-public".to_string(), public: true },
        ua(),
        ip(),
    )
    .unwrap();
    let pag = Pagination { page: 1, count: 50 };
    let page = get_projects_route(&mut store, &kit, pag, ua(), ip()).unwrap();
    assert_eq!(page.total, 2);
    assert_eq!(page.items.len(), 2);
    assert_eq!(page.items[0].name, "mine");
    assert_eq!(page.items[1].name, "theirs-public");
    let root = admin_caller(&mut store);
    let page = get_projects_route(&mut store, &root, pag, ua(), ip()).unwrap();
    assert_eq!(page.total, 3);
}

#[test]
fn project_listing_pages_and_reports_totals() {
    let mut store = Store::new();
    let root = admin_caller(&mut store);
    for k in 0..5 {
        create_project_route(
            &mut store,
            &root,
            CreateProjectMessage { name: format!("p{k}"), public: false },
            ua(),
            ip(),
        )
        .unwrap();
    }
    let page = get_projects_route(&mut store, &root, Pagination { page: 2, count: 2 }, ua(), ip())
        .unwrap();
    assert_eq!(page.total, 5);
    assert_eq!(page.count, 2);
    assert_eq!(page.items[0].name, "p2");
    assert_eq!(page.items[1].name, "p3");
    let beyond = get_projects_route(
        &mut store,
        &root,
        Pagination { page: 9, count: 2 },
        ua(),
        ip(),
    )
    .unwrap();
    // An empty page carries no window row, so the reported total is zero.
    assert_eq!(beyond.total, 0);
    assert!(beyond.items.is_empty());
}
