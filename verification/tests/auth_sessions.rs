use foxboard::auth::{authenticate, extract_bearer_token};
use foxboard::error::AppError;
use foxboard::models::{UserModel, UserSessionModel};
use foxboard::store::{
    create_user, create_user_session, get_user_from_session, update_user_session, Store,
};
use foxboard::user_handler::{handle_create_initial_admin, handle_token_update};
use foxboard::user_messages::{CreateUserMessage, LoginMessage};
use foxboard::user_routes::login_route;

fn store_with_admin() -> Store {
    let mut store = Store::new();
    handle_create_initial_admin(&mut store, "root", "rootpw").unwrap();
    store
}

#[test]
fn bearer_prefix_extracts_the_remainder() {
    assert_eq!(extract_bearer_token(Some("Bearer abc")).unwrap(), "abc");
}

#[test]
fn bearer_without_prefix_is_an_auth_error() {
    let e = extract_bearer_token(Some("abcxyz")).unwrap_err();
    assert!(matches!(e, AppError::AuthError { .. }));
}

#[test]
fn missing_header_is_an_auth_error() {
    let e = extract_bearer_token(None).unwrap_err();
    assert!(matches!(e, AppError::AuthError { .. }));
}

#[test]
fn bearer_prefix_is_case_sensitive_and_spaced() {
    assert!(extract_bearer_token(Some("bearer abc")).is_err());
    assert!(extract_bearer_token(Some("Bearerabc")).is_err());
    assert!(extract_bearer_token(Some("Bearer ")).unwrap().is_empty());
}

#[test]
fn session_round_trip_returns_the_user() {
    let mut store = Store::new();
    let mut user = UserModel {
        username: "kit".to_string(),
        password_hash: "x".to_string(),
        id: 0,
        is_admin: false,
    };
    create_user(&mut store, &mut user).unwrap();
    let session = UserSessionModel::new("token-1", "agent", "10.0.0.1".to_string(), user.id);
    create_user_session(&mut store, session).unwrap();
    let resolved = get_user_from_session(&store, "token-1").unwrap().unwrap();
    assert_eq!(resolved.id, user.id);
    assert_eq!(resolved.username, "kit");
}

#[test]
fn unknown_token_resolves_to_nobody() {
    let store = store_with_admin();
    assert!(get_user_from_session(&store, "no-such-token").unwrap().is_none());
}

#[test]
fn touch_updates_metadata_and_keeps_the_user() {
    let mut store = Store::new();
    let session = UserSessionModel::new("token-1", "agent-a", "10.0.0.1".to_string(), 5);
    create_user_session(&mut store, session).unwrap();
    let refresh = UserSessionModel::new("token-1", "agent-b", "10.9.9.9".to_string(), 77);
    update_user_session(&mut store, refresh).unwrap();
    assert_eq!(store.sessions.len(), 1);
    assert_eq!(store.sessions[0].user_agent, "agent-b");
    assert_eq!(store.sessions[0].ip_addr, "10.9.9.9");
    assert_eq!(store.sessions[0].user_id, 5);
    assert_eq!(store.sessions[0].token, "token-1");
}

#[test]
fn handle_token_update_demands_client_metadata() {
    let mut store = Store::new();
    let user = UserModel {
        username: "kit".to_string(),
        password_hash: String::new(),
        id: 5,
        is_admin: false,
    };
    let e = handle_token_update(&mut store, &user, "t", None, Some("ip".to_string())).unwrap_err();
    assert!(matches!(e, AppError::RequestError { .. }));
    let e = handle_token_update(&mut store, &user, "t", Some("agent"), None).unwrap_err();
    assert!(matches!(e, AppError::RequestError { .. }));
    assert!(handle_token_update(&mut store, &user, "t", Some("agent"), Some("ip".to_string()))
        .is_ok());
}

#[test]
fn initial_admin_bootstrap_is_idempotent() {
    let mut store = Store::new();
    handle_create_initial_admin(&mut store, "root", "rootpw").unwrap();
    assert_eq!(store.users.len(), 1);
    assert!(store.users[0].is_admin);
    assert_eq!(store.users[0].username, "root");
    handle_create_initial_admin(&mut store, "root", "otherpw").unwrap();
    assert_eq!(store.users.len(), 1);
}

#[test]
fn login_issues_a_session_token() {
    let mut store = store_with_admin();
    let msg = LoginMessage { username: "root".to_string(), password: "rootpw".to_string() };
    let token = login_route(&mut store, msg, Some("agent"), Some("ip".to_string()))
        .unwrap()
        .token;
    // 64 random bytes, base64-encoded with padding: 88 characters.
    assert_eq!(token.len(), 88);
    assert_eq!(store.sessions.len(), 1);
    assert_eq!(store.sessions[0].token, token);
    assert_eq!(store.sessions[0].user_id, store.users[0].id);
}

#[test]
fn login_with_wrong_password_is_rejected() {
    let mut store = store_with_admin();
    let msg = LoginMessage { username: "root".to_string(), password: "nope".to_string() };
    let e = login_route(&mut store, msg, Some("agent"), Some("ip".to_string())).unwrap_err();
    assert!(matches!(e, AppError::RequestError { .. }));
    assert!(store.sessions.is_empty());
}

#[test]
fn login_with_unknown_username_is_rejected_as_bad_credentials() {
    let mut store = store_with_admin();
    let msg = LoginMessage { username: "ghost".to_string(), password: "x".to_string() };
    let e = login_route(&mut store, msg, Some("agent"), Some("ip".to_string())).unwrap_err();
    assert!(matches!(e, AppError::RequestError { .. }));
    assert!(store.sessions.is_empty());
}

#[test]
fn login_without_user_agent_is_rejected() {
    let mut store = store_with_admin();
    let msg = LoginMessage { username: "root".to_string(), password: "rootpw".to_string() };
    let e = login_route(&mut store, msg, None, Some("ip".to_string())).unwrap_err();
    assert!(matches!(e, AppError::RequestError { .. }));
}

#[test]
fn authenticate_resolves_a_live_bearer_token() {
    let mut store = store_with_admin();
    let msg = LoginMessage { username: "root".to_string(), password: "rootpw".to_string() };
    let token = login_route(&mut store, msg, Some("agent"), Some("ip".to_string()))
        .unwrap()
        .token;
    let header = format!("Bearer {token}");
    let caller = authenticate(&store, Some(header.as_str())).unwrap();
    assert_eq!(caller.user.username, "root");
    assert_eq!(caller.token, token);
}

#[test]
fn authenticate_rejects_a_dead_token() {
    let store = store_with_admin();
    let e = authenticate(&store, Some("Bearer stale")).unwrap_err();
    assert!(matches!(e, AppError::NotFound { .. }));
    let e = authenticate(&store, Some("stale")).unwrap_err();
    assert!(matches!(e, AppError::AuthError { .. }));
}

#[test]
fn password_hash_round_trips_through_the_credential_store() {
    let msg = CreateUserMessage::new("kit".to_string(), "hunter2".to_string(), false);
    let user = UserModel::from_message(msg);
    assert_ne!(user.password_hash, "hunter2");
    assert!(user.password_hash.len() > 0);
    assert!(user.check_password("hunter2").unwrap());
    assert!(!user.check_password("hunter3").unwrap());
}

#[test]
fn empty_credential_cannot_be_checked() {
    let user = UserModel {
        username: "kit".to_string(),
        password_hash: String::new(),
        id: 1,
        is_admin: false,
    };
    let e = user.check_password("anything").unwrap_err();
    assert!(matches!(e, AppError::CryptError { .. }));
}
