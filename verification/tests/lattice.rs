use foxboard::permissions::Permissions;
use foxboard::error::AppError;
use foxboard::models::{ProjectModel, Ressource, UserModel};
use foxboard::resolver::help_get_project_permissions;
use foxboard::models::AuthenticatedUser;
use foxboard::store::{grant_project_permission, Store};
use foxboard::util::{Page, Pagination};

fn plain_user(id: u128, name: &str, admin: bool) -> UserModel {
    UserModel {
        username: name.to_string(),
        password_hash: String::new(),
        id,
        is_admin: admin,
    }
}

fn caller(user: UserModel) -> AuthenticatedUser {
    AuthenticatedUser { user, token: "tok".to_string() }
}

fn project(id: u128, owner: u128, public: bool) -> ProjectModel {
    ProjectModel { name: "board".to_string(), public, id, owner_id: owner, }
}

#[test]
fn from_i32_maps_every_level() {
    assert_eq!(Permissions::from_i32(0), Permissions::Admin);
    assert_eq!(Permissions::from_i32(1), Permissions::Owner);
    assert_eq!(Permissions::from_i32(2), Permissions::Editor);
    assert_eq!(Permissions::from_i32(3), Permissions::Reader);
    assert_eq!(Permissions::from_i32(4), Permissions::NoAccess);
    assert_eq!(Permissions::from_i32(-1), Permissions::NoAccess);
    assert_eq!(Permissions::from_i32(99), Permissions::NoAccess);
}

#[test]
fn satisfies_follows_the_lattice_order() {
    assert!(Permissions::Admin.satisfies(&Permissions::Owner));
    assert!(Permissions::Admin.satisfies(&Permissions::NoAccess));
    assert!(Permissions::Owner.satisfies(&Permissions::Editor));
    assert!(Permissions::Editor.satisfies(&Permissions::Editor));
    assert!(Permissions::Reader.satisfies(&Permissions::NoAccess));
    assert!(!Permissions::Reader.satisfies(&Permissions::Editor));
    assert!(!Permissions::NoAccess.satisfies(&Permissions::Reader));
    assert!(!Permissions::Editor.satisfies(&Permissions::Owner));
}

#[test]
fn default_permission_is_no_access() {
    assert_eq!(Permissions::default(), Permissions::NoAccess);
}

#[test]
fn admin_resolves_admin_regardless_of_ownership() {
    let store = Store::new();
    let admin = caller(plain_user(7, "root", true));
    let somebody_elses = project(40, 99, false);
    let perm = help_get_project_permissions(&admin, &somebody_elses, &store).unwrap();
    assert_eq!(perm, Permissions::Admin);
}

#[test]
fn non_admin_never_resolves_admin() {
    let mut store = Store::new();
    grant_project_permission(&mut store, 5, 40, Permissions::Editor).unwrap();
    let user = caller(plain_user(5, "kit", false));
    let owned = project(40, 5, false);
    let granted = project(40, 99, false);
    assert_ne!(help_get_project_permissions(&user, &owned, &store).unwrap(), Permissions::Admin);
    assert_ne!(help_get_project_permissions(&user, &granted, &store).unwrap(), Permissions::Admin);
}

#[test]
fn owner_resolves_owner() {
    let store = Store::new();
    let user = caller(plain_user(5, "kit", false));
    let owned = project(40, 5, false);
    assert_eq!(help_get_project_permissions(&user, &owned, &store).unwrap(), Permissions::Owner);
}

#[test]
fn public_project_resolves_reader_for_strangers() {
    let store = Store::new();
    let user = caller(plain_user(5, "kit", false));
    let public = project(40, 99, true);
    assert_eq!(help_get_project_permissions(&user, &public, &store).unwrap(), Permissions::Reader);
}

#[test]
fn private_ungranted_project_resolves_no_access() {
    let mut store = Store::new();
    let mut private = project(0, 99, false);
    foxboard::store::create_project(&mut store, &mut private).unwrap();
    let user = caller(plain_user(5, "kit", false));
    let perm = help_get_project_permissions(&user, &private, &store).unwrap();
    assert_eq!(perm, Permissions::NoAccess);
    assert!(!perm.satisfies(&Permissions::Reader));
    assert!(!perm.satisfies(&Permissions::Editor));
}

#[test]
fn explicit_grant_decides_for_collaborators() {
    let mut store = Store::new();
    let mut private = project(0, 99, false);
    foxboard::store::create_project(&mut store, &mut private).unwrap();
    grant_project_permission(&mut store, 5, private.id, Permissions::Editor).unwrap();
    let user = caller(plain_user(5, "kit", false));
    let perm = help_get_project_permissions(&user, &private, &store).unwrap();
    assert_eq!(perm, Permissions::Editor);
}

#[test]
fn user_record_grants_owner_to_itself() {
    let me = plain_user(5, "kit", false);
    assert_eq!(me.get_permissions(5), Some(Permissions::Owner));
    assert_eq!(me.get_permissions(6), None);
    assert_eq!(me.perms(), None);
    let root = plain_user(1, "root", true);
    assert_eq!(root.perms(), Some(Permissions::Admin));
}

#[test]
fn is_admin_demands_the_flag() {
    assert!(plain_user(1, "root", true).is_admin().is_ok());
    let e = plain_user(2, "kit", false).is_admin().unwrap_err();
    assert!(matches!(e, AppError::Unauthorized { .. }));
}

#[test]
fn pagination_validation_bounds_the_count() {
    assert!(Pagination { page: 1, count: 50 }.validate().is_ok());
    assert!(Pagination { page: 1, count: 200 }.validate().is_ok());
    let e = Pagination { page: 0, count: 50 }.validate().unwrap_err();
    assert!(matches!(e, AppError::RequestError { .. }));
    assert!(Pagination { page: 1, count: 0 }.validate().is_err());
    assert!(Pagination { page: 1, count: 201 }.validate().is_err());
    assert!(Pagination { page: -3, count: 10 }.validate().is_err());
}

#[test]
fn pagination_from_params_defaults_to_first_fifty() {
    let pag = Pagination::from_params(None, None).unwrap();
    assert_eq!(pag.page, 1);
    assert_eq!(pag.count, 50);
    let pag = Pagination::from_params(Some(3), Some(7)).unwrap();
    assert_eq!(pag.page, 3);
    assert_eq!(pag.count, 7);
    assert!(Pagination::from_params(Some(0), None).is_err());
}

#[test]
fn page_reports_the_slice_it_carries() {
    let pag = Pagination { page: 2, count: 2 };
    let page = Page::new(vec![10u32, 11u32], pag, 5);
    assert_eq!(page.page, 2);
    assert_eq!(page.count, 2);
    assert_eq!(page.total, 5);
    assert_eq!(page.items, vec![10u32, 11u32]);
}
