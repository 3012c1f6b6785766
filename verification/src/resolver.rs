//! The permission resolver: the three-tier rule that turns a caller and a
//! project into an effective permission, and the laws the lattice obeys.

use vstd::prelude::*;
use crate::error::AppError;
use crate::models::{spec_project_intrinsic, AuthenticatedUser, ProjectModel, ProjectView, Ressource, UserView};
use crate::permissions::Permissions;
use crate::store::{
    get_project_permission, spec_find_grant, spec_find_project, spec_project_permission, Store,
    StoreView,
};

verus! {

/// The effective permission of a caller over a project: an administrator is
/// `Admin` outright; otherwise the project's intrinsic rule (owner, public)
/// decides; otherwise the stored grant, defaulting to `NoAccess`.
pub open spec fn spec_resolve_permission(s: StoreView, u: UserView, p: ProjectView) -> Permissions {
    if u.is_admin {
        Permissions::Admin
    } else {
        match spec_project_intrinsic(p, u.id) {
            Some(perm) => perm,
            None => spec_project_permission(s, u.id, p.id),
        }
    }
}

/// Resolves the caller's effective permission over a fetched project: the
/// admin bypass and the intrinsic rule are evaluated in memory, and only a
/// collaborator's case reaches the grants table.
pub fn help_get_project_permissions(
    user: &AuthenticatedUser,
    proj: &ProjectModel,
    store: &Store,
) -> (r: Result<Permissions, AppError>)
    ensures
        r matches Ok(perm) && perm == spec_resolve_permission(store@, user.user@, proj@),
{
    if user.user.is_admin {
        Ok(Permissions::Admin)
    } else if let Some(perms) = proj.get_permissions(user.user.id) {
        Ok(perms)
    } else {
        get_project_permission(store, user.user.id, proj.id)
    }
}

/// A caller resolves to `Admin` on a project exactly when the caller is an
/// administrator — whatever the ownership, visibility or grants — as long as
/// no stored grant itself names `Admin`.
pub proof fn lemma_admin_iff_resolves_admin(s: StoreView, u: UserView, p: ProjectView)
    requires
        spec_find_grant(s.grants, u.id, p.id) matches Some(g) ==> g.perm != Permissions::Admin,
    ensures
        u.is_admin <==> spec_resolve_permission(s, u, p) == Permissions::Admin,
{
}

/// A non-admin caller owning a project resolves to `Owner` on it.
pub proof fn lemma_owner_resolves_owner(s: StoreView, u: UserView, p: ProjectView)
    requires
        !u.is_admin,
        u.id == p.owner_id,
    ensures
        spec_resolve_permission(s, u, p) == Permissions::Owner,
{
}

/// A non-admin, non-owner caller resolves to `Reader` on a public project.
pub proof fn lemma_public_resolves_reader(s: StoreView, u: UserView, p: ProjectView)
    requires
        !u.is_admin,
        u.id != p.owner_id,
        p.public,
    ensures
        spec_resolve_permission(s, u, p) == Permissions::Reader,
{
}

/// A non-admin, non-owner caller resolves to `NoAccess` on a stored private
/// project without a grant, and every operation that requires at least
/// `Reader` is denied.
pub proof fn lemma_private_ungranted_resolves_no_access(s: StoreView, u: UserView, p: ProjectView)
    requires
        !u.is_admin,
        u.id != p.owner_id,
        !p.public,
        spec_find_project(s.projects, p.id) == Some(p),
        spec_find_grant(s.grants, u.id, p.id) is None,
    ensures
        spec_resolve_permission(s, u, p) == Permissions::NoAccess,
        forall|required: Permissions|
            required != Permissions::NoAccess ==> !spec_resolve_permission(
                s,
                u,
                p,
            ).spec_satisfies(required),
{
}

} // verus!
