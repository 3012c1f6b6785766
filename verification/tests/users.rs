use foxboard::auth::authenticate;
use foxboard::error::AppError;
use foxboard::models::AuthenticatedUser;
use foxboard::project_messages::CreateProjectMessage;
use foxboard::project_routes::{create_project_route, get_project_route};
use foxboard::store::Store;
use foxboard::user_handler::handle_create_initial_admin;
use foxboard::user_messages::{CreateUserMessage, LoginMessage, UpdateUserMessage};
use foxboard::user_routes::{
    create_user_route, delete_user_route, get_user_route, get_users_route, login_route,
    update_user_route, username_available_route,
};
use foxboard::util::Pagination;

fn booted_store() -> Store {
    let mut store = Store::new();
    handle_create_initial_admin(&mut store, "root", "rootpw").unwrap();
    store
}

fn login_as(store: &mut Store, username: &str, password: &str) -> AuthenticatedUser {
    let msg = LoginMessage { username: username.to_string(), password: password.to_string() };
    let token = login_route(store, msg, Some("agent"), Some("ip".to_string())).unwrap().token;
    let header = format!("Bearer {token}");
    authenticate(store, Some(header.as_str())).unwrap()
}

fn signup(store: &mut Store, admin: &AuthenticatedUser, name: &str, pw: &str) {
    let msg = CreateUserMessage::new(name.to_string(), pw.to_string(), false);
    create_user_route(store, admin, msg, Some("agent"), Some("ip".to_string())).unwrap();
}

fn empty_patch() -> UpdateUserMessage {
    UpdateUserMessage { is_admin: None, username: None, id: None, new_password: None, old_password: None }
}

#[test]
fn signup_needs_an_administrator() {
    let mut store = booted_store();
    let root = login_as(&mut store, "root", "rootpw");
    signup(&mut store, &root, "kit", "kitpw");
    let kit = login_as(&mut store, "kit", "kitpw");
    let msg = CreateUserMessage::new("pal".to_string(), "palpw".to_string(), false);
    let e = create_user_route(&mut store, &kit, msg, Some("agent"), Some("ip".to_string()))
        .unwrap_err();
    assert!(matches!(e, AppError::Unauthorized { .. }));
    assert_eq!(store.users.len(), 2);
}

#[test]
fn duplicate_usernames_violate_the_unique_constraint() {
    let mut store = booted_store();
    let root = login_as(&mut store, "root", "rootpw");
    signup(&mut store, &root, "kit", "kitpw");
    let msg = CreateUserMessage::new("kit".to_string(), "other".to_string(), false);
    let e = create_user_route(&mut store, &root, msg, Some("agent"), Some("ip".to_string()))
        .unwrap_err();
    assert!(matches!(e, AppError::DBError { .. }));
}

#[test]
fn password_change_requires_the_old_password() {
    let mut store = booted_store();
    let root = login_as(&mut store, "root", "rootpw");
    signup(&mut store, &root, "kit", "first");
    let kit = login_as(&mut store, "kit", "first");
    // A wrong old password is a silent no-op: the update succeeds and the
    // credential is untouched.
    let mut patch = empty_patch();
    patch.new_password = Some("second".to_string());
    patch.old_password = Some("wrong".to_string());
    assert!(update_user_route(&mut store, &kit, patch, Some("agent"), Some("ip".to_string()))
        .is_ok());
    assert!(store.users[1].check_password("first").unwrap());
    assert!(!store.users[1].check_password("second").unwrap());
    // The right old password rotates the credential.
    let mut patch = empty_patch();
    patch.new_password = Some("second".to_string());
    patch.old_password = Some("first".to_string());
    assert!(update_user_route(&mut store, &kit, patch, Some("agent"), Some("ip".to_string()))
        .is_ok());
    assert!(store.users[1].check_password("second").unwrap());
    assert!(!store.users[1].check_password("first").unwrap());
}

#[test]
fn password_change_without_the_old_one_is_rejected() {
    let mut store = booted_store();
    let root = login_as(&mut store, "root", "rootpw");
    signup(&mut store, &root, "kit", "first");
    let kit = login_as(&mut store, "kit", "first");
    let mut patch = empty_patch();
    patch.new_password = Some("second".to_string());
    let e = update_user_route(&mut store, &kit, patch, Some("agent"), Some("ip".to_string()))
        .unwrap_err();
    assert!(matches!(e, AppError::RequestError { .. }));
    assert!(store.users[1].check_password("first").unwrap());
}

#[test]
fn only_admins_touch_other_users_or_the_admin_flag() {
    let mut store = booted_store();
    let root = login_as(&mut store, "root", "rootpw");
    signup(&mut store, &root, "kit", "kitpw");
    let kit = login_as(&mut store, "kit", "kitpw");
    let root_id = store.users[0].id;
    // Renaming someone else's record takes an administrator.
    let mut patch = empty_patch();
    patch.id = Some(root_id);
    patch.username = Some("gotcha".to_string());
    let e = update_user_route(&mut store, &kit, patch, Some("agent"), Some("ip".to_string()))
        .unwrap_err();
    assert!(matches!(e, AppError::Unauthorized { .. }));
    // So does granting oneself the admin flag.
    let mut patch = empty_patch();
    patch.is_admin = Some(true);
    let e = update_user_route(&mut store, &kit, patch, Some("agent"), Some("ip".to_string()))
        .unwrap_err();
    assert!(matches!(e, AppError::Unauthorized { .. }));
    assert!(!store.users[1].is_admin);
    // An administrator may do both.
    let kit_id = store.users[1].id;
    let mut patch = empty_patch();
    patch.id = Some(kit_id);
    patch.is_admin = Some(true);
    let m = update_user_route(&mut store, &root, patch, Some("agent"), Some("ip".to_string()))
        .unwrap();
    assert!(m.is_admin);
    assert!(store.users[1].is_admin);
}

#[test]
fn renaming_yourself_keeps_everything_else() {
    let mut store = booted_store();
    let root = login_as(&mut store, "root", "rootpw");
    signup(&mut store, &root, "kit", "kitpw");
    let kit = login_as(&mut store, "kit", "kitpw");
    let mut patch = empty_patch();
    patch.username = Some("kat".to_string());
    let m = update_user_route(&mut store, &kit, patch, Some("agent"), Some("ip".to_string()))
        .unwrap();
    assert_eq!(m.username, "kat");
    assert_eq!(m.id, kit.user.id);
    assert!(!m.is_admin);
    assert!(store.users[1].check_password("kitpw").unwrap());
}

#[test]
fn user_listing_is_for_administrators_only() {
    let mut store = booted_store();
    let root = login_as(&mut store, "root", "rootpw");
    signup(&mut store, &root, "kit", "kitpw");
    let pag = Pagination { page: 1, count: 50 };
    let page = get_users_route(&mut store, &root, pag, Some("agent"), Some("ip".to_string()))
        .unwrap();
    assert_eq!(page.total, 2);
    assert_eq!(page.items[0].username, "root");
    assert_eq!(page.items[1].username, "kit");
    let kit = login_as(&mut store, "kit", "kitpw");
    let e = get_users_route(&mut store, &kit, pag, Some("agent"), Some("ip".to_string()))
        .unwrap_err();
    assert!(matches!(e, AppError::Unauthorized { .. }));
}

#[test]
fn username_availability_reflects_the_table() {
    let mut store = booted_store();
    let root = login_as(&mut store, "root", "rootpw");
    let taken = username_available_route(&mut store, &root, "root", Some("agent"),
        Some("ip".to_string())).unwrap();
    assert!(!taken.success);
    let free = username_available_route(&mut store, &root, "kit", Some("agent"),
        Some("ip".to_string())).unwrap();
    assert!(free.success);
}

#[test]
fn users_may_delete_themselves_and_admins_anyone() {
    let mut store = booted_store();
    let root = login_as(&mut store, "root", "rootpw");
    signup(&mut store, &root, "kit", "kitpw");
    signup(&mut store, &root, "pal", "palpw");
    let kit = login_as(&mut store, "kit", "kitpw");
    let pal_id = store.users[2].id;
    let e = delete_user_route(&mut store, &kit, pal_id, Some("agent"), Some("ip".to_string()))
        .unwrap_err();
    assert!(matches!(e, AppError::Unauthorized { .. }));
    assert!(delete_user_route(&mut store, &kit, kit.user.id, Some("agent"),
        Some("ip".to_string())).unwrap().success);
    assert!(delete_user_route(&mut store, &root, pal_id, Some("agent"),
        Some("ip".to_string())).unwrap().success);
    assert_eq!(store.users.len(), 1);
    assert_eq!(store.users[0].username, "root");
}

#[test]
fn reading_a_user_defaults_to_the_caller() {
    let mut store = booted_store();
    let root = login_as(&mut store, "root", "rootpw");
    signup(&mut store, &root, "kit", "kitpw");
    let kit = login_as(&mut store, "kit", "kitpw");
    let root_id = store.users[0].id;
    let me = get_user_route(&mut store, &kit, None, Some("agent"), Some("ip".to_string()))
        .unwrap();
    assert_eq!(me.username, "kit");
    // A non-admin asking for someone else still gets their own record.
    let still_me = get_user_route(&mut store, &kit, Some(root_id), Some("agent"),
        Some("ip".to_string())).unwrap();
    assert_eq!(still_me.username, "kit");
    let other = get_user_route(&mut store, &root, Some(kit.user.id), Some("agent"),
        Some("ip".to_string())).unwrap();
    assert_eq!(other.username, "kit");
}

#[test]
fn login_then_create_then_deny_strangers_end_to_end() {
    let mut store = booted_store();
    // Login with valid credentials returns a usable token.
    let root = login_as(&mut store, "root", "rootpw");
    signup(&mut store, &root, "kit", "kitpw");
    signup(&mut store, &root, "who", "whopw");
    let kit = login_as(&mut store, "kit", "kitpw");
    // Creating a project with that token succeeds and names the caller owner.
    let msg = CreateProjectMessage { name: "secret plans".to_string(), public: false };
    let created = create_project_route(&mut store, &kit, msg, Some("agent"),
        Some("ip".to_string())).unwrap();
    assert_eq!(created.owner_id, kit.user.id);
    // A second user without a grant is denied on the private project.
    let who = login_as(&mut store, "who", "whopw");
    let e = get_project_route(&mut store, &who, created.id, Some("agent"),
        Some("ip".to_string())).unwrap_err();
    assert!(matches!(e, AppError::Unauthorized { .. }));
    // The owner still reads it.
    assert!(get_project_route(&mut store, &kit, created.id, Some("agent"),
        Some("ip".to_string())).is_ok());
}

#[test]
fn session_refresh_records_the_latest_client() {
    let mut store = booted_store();
    let root = login_as(&mut store, "root", "rootpw");
    get_user_route(&mut store, &root, None, Some("fresh-agent"),
        Some("10.1.1.1".to_string())).unwrap();
    assert_eq!(store.sessions.len(), 1);
    assert_eq!(store.sessions[0].user_agent, "fresh-agent");
    assert_eq!(store.sessions[0].ip_addr, "10.1.1.1");
}

#[test]
fn error_messages_are_readable() {
    let e = foxboard::error::not_found("Project Not Found");
    assert_eq!(e.message(), "Project Not Found");
    let e = foxboard::error::db_error("down");
    assert!(matches!(e, AppError::DBError { .. }));
    let e = foxboard::error::bad_request("bad");
    assert!(matches!(e, AppError::RequestError { .. }));
    let e = foxboard::error::auth_error("no");
    assert!(matches!(e, AppError::AuthError { .. }));
    let e = foxboard::error::forbidden("no");
    assert!(matches!(e, AppError::Forbidden { .. }));
    let e = foxboard::error::unauthorized("no");
    assert!(matches!(e, AppError::Unauthorized { .. }));
}
