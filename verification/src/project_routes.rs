//! The project endpoints and those of a project's columns, labels and states.
//! Every route first refreshes the caller's session metadata, then resolves
//! the caller's effective permission and compares it against what the
//! operation requires.

use vstd::prelude::*;
use crate::error::{bad_request, not_found, unauthorized, AppError};
use crate::models::{
    AuthenticatedUser, LabelModel, LabelView, ProjectColumnModel, ProjectColumnView, ProjectView,
    StateView, UserView,
};
use crate::permissions::Permissions;
use crate::project_handler::{handle_get_projects, spec_listed_projects};
use crate::project_messages::{
    CreateLabelMessage, CreateProjectColumnMessage, CreateProjectMessage, CreateStateMessage,
    LabelMessage, ProjectColumnMessage, ProjectMessage, StateMessage, UpdateLabelMessage,
    UpdateProjectColumnMessage, UpdateProjectMessage, UpdateStateMessage,
};
use crate::resolver::{help_get_project_permissions, spec_resolve_permission};
use crate::store::{
    create_column, create_label, create_project, create_state, delete_column, delete_label,
    delete_project, delete_state, get_column, get_columns, get_label, get_labels, get_project,
    get_project_permission, get_state, spec_column_row_updated, spec_columns_of_project,
    spec_columns_outside, spec_columns_updated, spec_columns_without, spec_find_column,
    spec_find_label, spec_find_project, spec_find_state, spec_grants_outside,
    spec_label_row_updated, spec_labels_of_project, spec_labels_outside, spec_labels_updated,
    spec_labels_without, spec_project_permission, spec_projects_updated, spec_projects_without,
    spec_sort_by_index, spec_state_row_updated, spec_states_outside, spec_states_updated,
    spec_states_without, spec_task_labels_outside, spec_tasks_outside, update_column, update_label,
    update_project, update_state, Store, StoreView,
};
use crate::messages::SuccessMessage;
use crate::user_handler::{handle_token_update, spec_touched};
use crate::util::{Page, Pagination};

verus! {

/// Whether the caller may edit under a project: an administrator outright, or
/// anyone whose stored permission is at least `Editor`.
pub open spec fn spec_may_edit(s: StoreView, u: UserView, project_id: u128) -> bool {
    u.is_admin || spec_project_permission(s, u.id, project_id).spec_satisfies(Permissions::Editor)
}

/// Evaluates [`spec_may_edit`] against the store.
fn may_edit(store: &Store, user: &AuthenticatedUser, project_id: u128) -> (r: Result<
    bool,
    AppError,
>)
    ensures
        r matches Ok(b) && b == spec_may_edit(store@, user.user@, project_id),
{
    if user.user.is_admin {
        Ok(true)
    } else {
        match get_project_permission(store, user.user.id, project_id) {
            Ok(perm) => Ok(perm.satisfies(&Permissions::Editor)),
            Err(e) => Err(e),
        }
    }
}

/// Whether the caller may delete under a project: an administrator outright,
/// or anyone whose stored permission is at least `Owner`.
pub open spec fn spec_may_delete(s: StoreView, u: UserView, project_id: u128) -> bool {
    u.is_admin || spec_project_permission(s, u.id, project_id).spec_satisfies(Permissions::Owner)
}

/// Evaluates [`spec_may_delete`] against the store.
fn may_delete(store: &Store, user: &AuthenticatedUser, project_id: u128) -> (r: Result<
    bool,
    AppError,
>)
    ensures
        r matches Ok(b) && b == spec_may_delete(store@, user.user@, project_id),
{
    if user.user.is_admin {
        Ok(true)
    } else {
        match get_project_permission(store, user.user.id, project_id) {
            Ok(perm) => Ok(perm.satisfies(&Permissions::Owner)),
            Err(e) => Err(e),
        }
    }
}

/// Converts fetched label rows into their client representation, in order.
pub(crate) fn label_messages_of(models: Vec<LabelModel>) -> (r: Vec<LabelMessage>)
    ensures
        r@.len() == models@.len(),
        forall|j: int|
            0 <= j < models@.len() ==> ((#[trigger] r@[j]).id == models@[j]@.id && r@[j].name@
                == models@[j]@.name && r@[j].project_id == models@[j]@.project_id),
{
    let mut out: Vec<LabelMessage> = Vec::new();
    let n = models.len();
    let mut i: usize = 0;
    while i < n
        invariant
            n == models@.len(),
            i <= n,
            out@.len() == i,
            forall|j: int|
                0 <= j < i ==> ((#[trigger] out@[j]).id == models@[j]@.id && out@[j].name@
                    == models@[j]@.name && out@[j].project_id == models@[j]@.project_id),
        decreases n - i,
    {
        out.push(LabelMessage::from_model(models[i].clone()));
        i += 1;
    }
    out
}

/// Converts fetched column rows into their client representation, in order.
pub(crate) fn column_messages_of(models: Vec<ProjectColumnModel>) -> (r: Vec<ProjectColumnMessage>)
    ensures
        r@.len() == models@.len(),
        forall|j: int|
            0 <= j < models@.len() ==> ((#[trigger] r@[j]).id == models@[j]@.id && r@[j].name@
                == models@[j]@.name && r@[j].project_id == models@[j]@.project_id
                && r@[j].card_limit == models@[j]@.card_limit && r@[j].index
                == models@[j]@.index),
{
    let mut out: Vec<ProjectColumnMessage> = Vec::new();
    let n = models.len();
    let mut i: usize = 0;
    while i < n
        invariant
            n == models@.len(),
            i <= n,
            out@.len() == i,
            forall|j: int|
                0 <= j < i ==> ((#[trigger] out@[j]).id == models@[j]@.id && out@[j].name@
                    == models@[j]@.name && out@[j].project_id == models@[j]@.project_id
                    && out@[j].card_limit == models@[j]@.card_limit && out@[j].index
                    == models@[j]@.index),
        decreases n - i,
    {
        out.push(ProjectColumnMessage::from_model(models[i].clone()));
        i += 1;
    }
    out
}

/// Stores a project owned by the caller and answers with it; a project needs
/// a non-empty name.
pub fn create_project_route(
    store: &mut Store,
    user: &AuthenticatedUser,
    msg: CreateProjectMessage,
    user_agent: Option<&str>,
    ip_addr: Option<String>,
) -> (r: Result<ProjectMessage, AppError>)
    requires
        old(store).spec_can_mint(),
    ensures
        !(user_agent is Some && ip_addr is Some) ==> (r matches Err(e) && e is RequestError && final(store)@ == old(store)@),
        user_agent matches Some(ua) ==> (ip_addr matches Some(ip) ==> {
            let touched = spec_touched(old(store)@, user.token@, ua@, ip@, user.user@.id);
            &&& msg.name@.len() == 0 ==> (r matches Err(e) && e is RequestError && final(store)@
                == touched)
            &&& msg.name@.len() > 0 ==> (r matches Ok(m) && m.id == old(store)@.next_id && m.name@
                == msg.name@ && m.owner_id == user.user@.id && m.public == msg.public
                && m.labels is None && m.columns is None && final(store)@ == (StoreView {
                sessions: touched.sessions,
                projects: old(store)@.projects.push(
                    ProjectView {
                        id: old(store)@.next_id,
                        name: msg.name@,
                        public: msg.public,
                        owner_id: user.user@.id,
                    },
                ),
                next_id: (old(store)@.next_id + 1) as u128,
                ..old(store)@
            }))
        }),
{
    match handle_token_update(store, &user.user, user.token.as_str(), user_agent, ip_addr) {
        Ok(()) => (),
        Err(e) => {
            return Err(e);
        },
    }
    if msg.name.as_str().is_empty() {
        return Err(bad_request("project name must not be empty"));
    }
    match crate::project_handler::handle_create_project(msg, user.user.id, store) {
        Ok(m) => Ok(m),
        Err(e) => Err(e),
    }
}

/// Reads a project with its labels and columns, for any caller whose
/// effective permission is at least `Reader`.
pub fn get_project_route(
    store: &mut Store,
    user: &AuthenticatedUser,
    project_id: u128,
    user_agent: Option<&str>,
    ip_addr: Option<String>,
) -> (r: Result<ProjectMessage, AppError>)
    ensures
        !(user_agent is Some && ip_addr is Some) ==> (r matches Err(e) && e is RequestError && final(store)@ == old(store)@),
        user_agent matches Some(ua) ==> (ip_addr matches Some(ip) ==> {
            let touched = spec_touched(old(store)@, user.token@, ua@, ip@, user.user@.id);
            &&& final(store)@ == touched
            &&& spec_find_project(old(store)@.projects, project_id) is None ==> (r matches Err(e)
                && e is NotFound)
            &&& spec_find_project(old(store)@.projects, project_id) matches Some(p) ==> {
                &&& !spec_resolve_permission(old(store)@, user.user@, p).spec_satisfies(
                    Permissions::Reader,
                ) ==> (r matches Err(e) && e is Unauthorized)
                &&& spec_resolve_permission(old(store)@, user.user@, p).spec_satisfies(
                    Permissions::Reader,
                ) ==> (r matches Ok(m) && m.id == p.id && m.name@ == p.name && m.owner_id
                    == p.owner_id && m.public == p.public && (m.labels matches Some(ls) && {
                    let rows = spec_labels_of_project(old(store)@.labels, project_id);
                    &&& ls@.len() == rows.len()
                    &&& forall|j: int|
                        0 <= j < rows.len() ==> ((#[trigger] ls@[j]).id == rows[j].id
                            && ls@[j].name@ == rows[j].name && ls@[j].project_id
                            == rows[j].project_id)
                }) && (m.columns matches Some(cs) && {
                    let rows = spec_sort_by_index(
                        spec_columns_of_project(old(store)@.columns, project_id),
                    );
                    &&& cs@.len() == rows.len()
                    &&& forall|j: int|
                        0 <= j < rows.len() ==> ((#[trigger] cs@[j]).id == rows[j].id
                            && cs@[j].name@ == rows[j].name && cs@[j].project_id
                            == rows[j].project_id && cs@[j].card_limit == rows[j].card_limit
                            && cs@[j].index == rows[j].index)
                }))
            }
        }),
{
    match handle_token_update(store, &user.user, user.token.as_str(), user_agent, ip_addr) {
        Ok(()) => (),
        Err(e) => {
            return Err(e);
        },
    }
    let found = match get_project(store, project_id) {
        Ok(o) => o,
        Err(e) => {
            return Err(e);
        },
    };
    let proj = match found {
        Some(p) => p,
        None => {
            return Err(not_found("Project Not Found"));
        },
    };
    let req = Permissions::Reader;
    let perms = match help_get_project_permissions(user, &proj, store) {
        Ok(p) => p,
        Err(e) => {
            return Err(e);
        },
    };
    if perms.satisfies(&req) {
        let labels = match get_labels(store, project_id) {
            Ok(v) => v,
            Err(e) => {
                return Err(e);
            },
        };
        let columns = match get_columns(store, project_id) {
            Ok(v) => v,
            Err(e) => {
                return Err(e);
            },
        };
        let ghost label_views = labels.deep_view();
        let ghost column_views = columns.deep_view();
        let label_msgs = label_messages_of(labels);
        let column_msgs = column_messages_of(columns);
        proof {
            assert(forall|j: int|
                0 <= j < label_views.len() ==> label_views[j] == #[trigger] labels@[j]@);
            assert(forall|j: int|
                0 <= j < column_views.len() ==> column_views[j] == #[trigger] columns@[j]@);
        }
        let mut msg = ProjectMessage::from_model(proj);
        msg.labels = Some(label_msgs);
        msg.columns = Some(column_msgs);
        Ok(msg)
    } else {
        Err(unauthorized("Not allowed"))
    }
}

/// Lists the page of projects the caller is entitled to see.
pub fn get_projects_route(
    store: &mut Store,
    user: &AuthenticatedUser,
    pag: Pagination,
    user_agent: Option<&str>,
    ip_addr: Option<String>,
) -> (r: Result<Page<ProjectMessage>, AppError>)
    requires
        pag.spec_valid(),
        old(store)@.projects.len() <= i64::MAX,
    ensures
        !(user_agent is Some && ip_addr is Some) ==> (r matches Err(e) && e is RequestError && final(store)@ == old(store)@),
        user_agent matches Some(ua) ==> (ip_addr matches Some(ip) ==> {
            let touched = spec_touched(old(store)@, user.token@, ua@, ip@, user.user@.id);
            &&& final(store)@ == touched
            &&& r matches Ok(page) && {
                let listed = spec_listed_projects(old(store)@, user.user@);
                let items = crate::util::spec_page_items(listed, pag);
                &&& page.page == pag.page
                &&& page.total == crate::util::spec_page_total(listed, pag)
                &&& page.count == items.len()
                &&& page.items@.len() == items.len()
                &&& forall|j: int|
                    0 <= j < items.len() ==> ((#[trigger] page.items@[j]).id == items[j].id
                        && page.items@[j].name@ == items[j].name && page.items@[j].owner_id
                        == items[j].owner_id && page.items@[j].public == items[j].public)
            }
        }),
{
    match handle_token_update(store, &user.user, user.token.as_str(), user_agent, ip_addr) {
        Ok(()) => (),
        Err(e) => {
            return Err(e);
        },
    }
    handle_get_projects(pag, &user.user, store)
}

/// Removes a project, with everything under it, for an administrator or a
/// caller whose stored permission on it is at least `Owner`.
pub fn delete_project_route(
    store: &mut Store,
    user: &AuthenticatedUser,
    project_id: u128,
    user_agent: Option<&str>,
    ip_addr: Option<String>,
) -> (r: Result<SuccessMessage, AppError>)
    ensures
        !(user_agent is Some && ip_addr is Some) ==> (r matches Err(e) && e is RequestError && final(store)@ == old(store)@),
        user_agent matches Some(ua) ==> (ip_addr matches Some(ip) ==> {
            let touched = spec_touched(old(store)@, user.token@, ua@, ip@, user.user@.id);
            let allowed = spec_may_delete(old(store)@, user.user@, project_id);
            &&& !allowed ==> (r matches Err(e) && e is Unauthorized && final(store)@ == touched)
            &&& allowed ==> (r matches Ok(m) && m.success && final(store)@ == (StoreView {
                sessions: touched.sessions,
                projects: spec_projects_without(old(store)@.projects, project_id),
                columns: spec_columns_outside(old(store)@.columns, project_id),
                labels: spec_labels_outside(old(store)@.labels, project_id),
                states: spec_states_outside(old(store)@.states, project_id),
                tasks: spec_tasks_outside(old(store)@.tasks, project_id),
                grants: spec_grants_outside(old(store)@.grants, project_id),
                task_labels: spec_task_labels_outside(
                    old(store)@.task_labels,
                    old(store)@.tasks,
                    old(store)@.labels,
                    project_id,
                ),
                ..old(store)@
            }))
        }),
{
    match handle_token_update(store, &user.user, user.token.as_str(), user_agent, ip_addr) {
        Ok(()) => (),
        Err(e) => {
            return Err(e);
        },
    }
    let allowed = match may_delete(store, user, project_id) {
        Ok(b) => b,
        Err(e) => {
            return Err(e);
        },
    };
    if allowed {
        match delete_project(store, project_id) {
            Ok(()) => Ok(SuccessMessage::new(true)),
            Err(e) => Err(e),
        }
    } else {
        Err(unauthorized("Insufficient permissions on Project"))
    }
}

/// Patches a project: a name change takes an editor, while touching the
/// visibility or the owner is reserved to the owner (or an administrator).
pub fn update_project_route(
    store: &mut Store,
    user: &AuthenticatedUser,
    project_id: u128,
    msg: UpdateProjectMessage,
    user_agent: Option<&str>,
    ip_addr: Option<String>,
) -> (r: Result<ProjectMessage, AppError>)
    ensures
        !(user_agent is Some && ip_addr is Some) ==> (r matches Err(e) && e is RequestError && final(store)@ == old(store)@),
        user_agent matches Some(ua) ==> (ip_addr matches Some(ip) ==> {
            let touched = spec_touched(old(store)@, user.token@, ua@, ip@, user.user@.id);
            &&& spec_find_project(old(store)@.projects, project_id) is None ==> (r matches Err(e)
                && e is NotFound && final(store)@ == touched)
            &&& spec_find_project(old(store)@.projects, project_id) matches Some(p) ==> {
                let allowed = spec_resolve_permission(old(store)@, user.user@, p).spec_satisfies(
                    msg.spec_requirements(),
                );
                &&& !allowed ==> (r matches Err(e) && e is Unauthorized && final(store)@
                    == touched)
                &&& allowed ==> (r matches Ok(m) && {
                    let patched = msg.spec_apply(p);
                    &&& m.id == patched.id
                    &&& m.name@ == patched.name
                    &&& m.owner_id == patched.owner_id
                    &&& m.public == patched.public
                    &&& final(store)@ == (StoreView {
                        sessions: touched.sessions,
                        projects: spec_projects_updated(old(store)@.projects, patched),
                        ..old(store)@
                    })
                })
            }
        }),
{
    match handle_token_update(store, &user.user, user.token.as_str(), user_agent, ip_addr) {
        Ok(()) => (),
        Err(e) => {
            return Err(e);
        },
    }
    let found = match get_project(store, project_id) {
        Ok(o) => o,
        Err(e) => {
            return Err(e);
        },
    };
    let mut project = match found {
        Some(p) => p,
        None => {
            return Err(not_found("Project not found"));
        },
    };
    let req = msg.get_requirements();
    let perms = match help_get_project_permissions(user, &project, store) {
        Ok(p) => p,
        Err(e) => {
            return Err(e);
        },
    };
    if perms.satisfies(&req) {
        msg.update_project(&mut project);
        match update_project(store, &mut project) {
            Ok(()) => (),
            Err(e) => {
                return Err(e);
            },
        }
        Ok(ProjectMessage::from_model(project))
    } else {
        Err(unauthorized("Not Authorized to update project"))
    }
}

/// Adds a column to a stored project, for a caller who may edit it; a
/// column needs a non-empty name.
pub fn create_column_route(
    store: &mut Store,
    user: &AuthenticatedUser,
    project_id: u128,
    msg: CreateProjectColumnMessage,
    user_agent: Option<&str>,
    ip_addr: Option<String>,
) -> (r: Result<ProjectColumnMessage, AppError>)
    requires
        old(store).spec_can_mint(),
    ensures
        !(user_agent is Some && ip_addr is Some) ==> (r matches Err(e) && e is RequestError && final(store)@ == old(store)@),
        user_agent matches Some(ua) ==> (ip_addr matches Some(ip) ==> {
            let touched = spec_touched(old(store)@, user.token@, ua@, ip@, user.user@.id);
            &&& msg.name@.len() == 0 ==> (r matches Err(e) && e is RequestError && final(store)@
                == touched)
            &&& (msg.name@.len() > 0 && !spec_may_edit(old(store)@, user.user@, project_id)) ==> (
            r matches Err(e) && e is Unauthorized && final(store)@ == touched)
            &&& (msg.name@.len() > 0 && spec_may_edit(old(store)@, user.user@, project_id)
                && spec_find_project(old(store)@.projects, project_id) is None) ==> (r matches Err(
                e,
            ) && e is DBError && final(store)@ == touched)
            &&& (msg.name@.len() > 0 && spec_may_edit(old(store)@, user.user@, project_id)
                && spec_find_project(old(store)@.projects, project_id) is Some) ==> (r matches Ok(m)
                && {
                let created = ProjectColumnView {
                    id: old(store)@.next_id,
                    name: msg.name@,
                    project_id: project_id,
                    index: msg.index,
                    card_limit: (match msg.card_limit {
                        Some(l) => l,
                        None => 0,
                    }),
                };
                &&& m.id == created.id
                &&& m.name@ == created.name
                &&& m.project_id == created.project_id
                &&& m.index == created.index
                &&& m.card_limit == created.card_limit
                &&& final(store)@ == (StoreView {
                    sessions: touched.sessions,
                    columns: old(store)@.columns.push(created),
                    next_id: (old(store)@.next_id + 1) as u128,
                    ..old(store)@
                })
            })
        }),
{
    match handle_token_update(store, &user.user, user.token.as_str(), user_agent, ip_addr) {
        Ok(()) => (),
        Err(e) => {
            return Err(e);
        },
    }
    if msg.name.as_str().is_empty() {
        return Err(bad_request("column name must not be empty"));
    }
    let allowed = match may_edit(store, user, project_id) {
        Ok(b) => b,
        Err(e) => {
            return Err(e);
        },
    };
    if allowed {
        let mut new_column = msg.to_model(project_id);
        match create_column(store, &mut new_column) {
            Ok(()) => Ok(ProjectColumnMessage::from_model(new_column)),
            Err(e) => Err(e),
        }
    } else {
        Err(unauthorized("Insufficient permissions"))
    }
}

/// Adds a label to a stored project, for a caller who may edit it; a label
/// needs a non-empty name.
pub fn create_label_route(
    store: &mut Store,
    user: &AuthenticatedUser,
    project_id: u128,
    msg: CreateLabelMessage,
    user_agent: Option<&str>,
    ip_addr: Option<String>,
) -> (r: Result<LabelMessage, AppError>)
    requires
        old(store).spec_can_mint(),
    ensures
        !(user_agent is Some && ip_addr is Some) ==> (r matches Err(e) && e is RequestError && final(store)@ == old(store)@),
        user_agent matches Some(ua) ==> (ip_addr matches Some(ip) ==> {
            let touched = spec_touched(old(store)@, user.token@, ua@, ip@, user.user@.id);
            &&& msg.name@.len() == 0 ==> (r matches Err(e) && e is RequestError && final(store)@
                == touched)
            &&& (msg.name@.len() > 0 && !spec_may_edit(old(store)@, user.user@, project_id)) ==> (
            r matches Err(e) && e is Unauthorized && final(store)@ == touched)
            &&& (msg.name@.len() > 0 && spec_may_edit(old(store)@, user.user@, project_id)
                && spec_find_project(old(store)@.projects, project_id) is None) ==> (r matches Err(
                e,
            ) && e is DBError && final(store)@ == touched)
            &&& (msg.name@.len() > 0 && spec_may_edit(old(store)@, user.user@, project_id)
                && spec_find_project(old(store)@.projects, project_id) is Some) ==> (r matches Ok(m)
                && m.id == old(store)@.next_id && m.name@ == msg.name@ && m.project_id == project_id
                && final(store)@ == (StoreView {
                sessions: touched.sessions,
                labels: old(store)@.labels.push(
                    LabelView { id: old(store)@.next_id, name: msg.name@, project_id: project_id },
                ),
                next_id: (old(store)@.next_id + 1) as u128,
                ..old(store)@
            }))
        }),
{
    match handle_token_update(store, &user.user, user.token.as_str(), user_agent, ip_addr) {
        Ok(()) => (),
        Err(e) => {
            return Err(e);
        },
    }
    if msg.name.as_str().is_empty() {
        return Err(bad_request("label name must not be empty"));
    }
    let allowed = match may_edit(store, user, project_id) {
        Ok(b) => b,
        Err(e) => {
            return Err(e);
        },
    };
    if allowed {
        let mut new_label = msg.to_model(project_id);
        match create_label(store, &mut new_label) {
            Ok(()) => Ok(LabelMessage::from_model(new_label)),
            Err(e) => Err(e),
        }
    } else {
        Err(unauthorized("Insufficient permissions"))
    }
}

/// Adds a workflow state to a stored project, for a caller who may edit it;
/// a state needs a non-empty name.
pub fn create_state_route(
    store: &mut Store,
    user: &AuthenticatedUser,
    project_id: u128,
    msg: CreateStateMessage,
    user_agent: Option<&str>,
    ip_addr: Option<String>,
) -> (r: Result<StateMessage, AppError>)
    requires
        old(store).spec_can_mint(),
    ensures
        !(user_agent is Some && ip_addr is Some) ==> (r matches Err(e) && e is RequestError && final(store)@ == old(store)@),
        user_agent matches Some(ua) ==> (ip_addr matches Some(ip) ==> {
            let touched = spec_touched(old(store)@, user.token@, ua@, ip@, user.user@.id);
            &&& msg.name@.len() == 0 ==> (r matches Err(e) && e is RequestError && final(store)@
                == touched)
            &&& (msg.name@.len() > 0 && !spec_may_edit(old(store)@, user.user@, project_id)) ==> (
            r matches Err(e) && e is Unauthorized && final(store)@ == touched)
            &&& (msg.name@.len() > 0 && spec_may_edit(old(store)@, user.user@, project_id)
                && spec_find_project(old(store)@.projects, project_id) is None) ==> (r matches Err(
                e,
            ) && e is DBError && final(store)@ == touched)
            &&& (msg.name@.len() > 0 && spec_may_edit(old(store)@, user.user@, project_id)
                && spec_find_project(old(store)@.projects, project_id) is Some) ==> (r matches Ok(m)
                && m.id == old(store)@.next_id && m.name@ == msg.name@ && m.project_id == project_id
                && final(store)@ == (StoreView {
                sessions: touched.sessions,
                states: old(store)@.states.push(
                    StateView { id: old(store)@.next_id, name: msg.name@, project_id: project_id },
                ),
                next_id: (old(store)@.next_id + 1) as u128,
                ..old(store)@
            }))
        }),
{
    match handle_token_update(store, &user.user, user.token.as_str(), user_agent, ip_addr) {
        Ok(()) => (),
        Err(e) => {
            return Err(e);
        },
    }
    if msg.name.as_str().is_empty() {
        return Err(bad_request("state name must not be empty"));
    }
    let allowed = match may_edit(store, user, project_id) {
        Ok(b) => b,
        Err(e) => {
            return Err(e);
        },
    };
    if allowed {
        let mut new_state = msg.to_model(project_id);
        match create_state(store, &mut new_state) {
            Ok(()) => Ok(StateMessage::from_model(new_state)),
            Err(e) => Err(e),
        }
    } else {
        Err(unauthorized("Insufficient permissions"))
    }
}

/// Patches a column, for a caller who may edit its project.
pub fn update_column_route(
    store: &mut Store,
    user: &AuthenticatedUser,
    project_id: u128,
    column_id: u128,
    msg: UpdateProjectColumnMessage,
    user_agent: Option<&str>,
    ip_addr: Option<String>,
) -> (r: Result<ProjectColumnMessage, AppError>)
    ensures
        !(user_agent is Some && ip_addr is Some) ==> (r matches Err(e) && e is RequestError && final(store)@ == old(store)@),
        user_agent matches Some(ua) ==> (ip_addr matches Some(ip) ==> {
            let touched = spec_touched(old(store)@, user.token@, ua@, ip@, user.user@.id);
            &&& !spec_may_edit(old(store)@, user.user@, project_id) ==> (r matches Err(e)
                && e is Unauthorized && final(store)@ == touched)
            &&& (spec_may_edit(old(store)@, user.user@, project_id) && spec_find_column(
                old(store)@.columns,
                column_id,
            ) is None) ==> (r matches Err(e) && e is NotFound && final(store)@ == touched)
            &&& spec_find_column(old(store)@.columns, column_id) matches Some(c0) ==> (
            spec_may_edit(old(store)@, user.user@, project_id) ==> (r matches Ok(m) && {
                let patched = msg.spec_apply(c0);
                &&& m.id == patched.id
                &&& m.name@ == patched.name
                &&& m.project_id == patched.project_id
                &&& m.index == patched.index
                &&& m.card_limit == patched.card_limit
                &&& final(store)@ == (StoreView {
                    sessions: touched.sessions,
                    columns: spec_columns_updated(old(store)@.columns, patched),
                    ..old(store)@
                })
            }))
        }),
{
    match handle_token_update(store, &user.user, user.token.as_str(), user_agent, ip_addr) {
        Ok(()) => (),
        Err(e) => {
            return Err(e);
        },
    }
    let allowed = match may_edit(store, user, project_id) {
        Ok(b) => b,
        Err(e) => {
            return Err(e);
        },
    };
    if allowed {
        let found = match get_column(store, column_id) {
            Ok(o) => o,
            Err(e) => {
                return Err(e);
            },
        };
        let mut col = match found {
            Some(c) => c,
            None => {
                return Err(not_found("Column not found"));
            },
        };
        msg.update_model(&mut col);
        match update_column(store, &col) {
            Ok(()) => Ok(ProjectColumnMessage::from_model(col)),
            Err(e) => Err(e),
        }
    } else {
        Err(unauthorized("Insufficient permissions"))
    }
}

/// Patches a label, for a caller who may edit its project.
pub fn update_label_route(
    store: &mut Store,
    user: &AuthenticatedUser,
    project_id: u128,
    label_id: u128,
    msg: UpdateLabelMessage,
    user_agent: Option<&str>,
    ip_addr: Option<String>,
) -> (r: Result<LabelMessage, AppError>)
    ensures
        !(user_agent is Some && ip_addr is Some) ==> (r matches Err(e) && e is RequestError && final(store)@ == old(store)@),
        user_agent matches Some(ua) ==> (ip_addr matches Some(ip) ==> {
            let touched = spec_touched(old(store)@, user.token@, ua@, ip@, user.user@.id);
            &&& !spec_may_edit(old(store)@, user.user@, project_id) ==> (r matches Err(e)
                && e is Unauthorized && final(store)@ == touched)
            &&& (spec_may_edit(old(store)@, user.user@, project_id) && spec_find_label(
                old(store)@.labels,
                label_id,
            ) is None) ==> (r matches Err(e) && e is NotFound && final(store)@ == touched)
            &&& spec_find_label(old(store)@.labels, label_id) matches Some(l0) ==> (spec_may_edit(
                old(store)@,
                user.user@,
                project_id,
            ) ==> (r matches Ok(m) && {
                let patched = LabelView { id: l0.id, project_id: l0.project_id, name: msg.name@ };
                &&& m.id == patched.id
                &&& m.name@ == patched.name
                &&& m.project_id == patched.project_id
                &&& final(store)@ == (StoreView {
                    sessions: touched.sessions,
                    labels: spec_labels_updated(old(store)@.labels, patched),
                    ..old(store)@
                })
            }))
        }),
{
    match handle_token_update(store, &user.user, user.token.as_str(), user_agent, ip_addr) {
        Ok(()) => (),
        Err(e) => {
            return Err(e);
        },
    }
    let allowed = match may_edit(store, user, project_id) {
        Ok(b) => b,
        Err(e) => {
            return Err(e);
        },
    };
    if allowed {
        let found = match get_label(store, label_id) {
            Ok(o) => o,
            Err(e) => {
                return Err(e);
            },
        };
        let mut lab = match found {
            Some(l) => l,
            None => {
                return Err(not_found("label not found"));
            },
        };
        msg.update_model(&mut lab);
        match update_label(store, &lab) {
            Ok(()) => Ok(LabelMessage::from_model(lab)),
            Err(e) => Err(e),
        }
    } else {
        Err(unauthorized("Insufficient permissions"))
    }
}

/// Patches a workflow state, for a caller who may edit its project.
pub fn update_state_route(
    store: &mut Store,
    user: &AuthenticatedUser,
    project_id: u128,
    state_id: u128,
    msg: UpdateStateMessage,
    user_agent: Option<&str>,
    ip_addr: Option<String>,
) -> (r: Result<StateMessage, AppError>)
    ensures
        !(user_agent is Some && ip_addr is Some) ==> (r matches Err(e) && e is RequestError && final(store)@ == old(store)@),
        user_agent matches Some(ua) ==> (ip_addr matches Some(ip) ==> {
            let touched = spec_touched(old(store)@, user.token@, ua@, ip@, user.user@.id);
            &&& !spec_may_edit(old(store)@, user.user@, project_id) ==> (r matches Err(e)
                && e is Unauthorized && final(store)@ == touched)
            &&& (spec_may_edit(old(store)@, user.user@, project_id) && spec_find_state(
                old(store)@.states,
                state_id,
            ) is None) ==> (r matches Err(e) && e is NotFound && final(store)@ == touched)
            &&& spec_find_state(old(store)@.states, state_id) matches Some(s0) ==> (spec_may_edit(
                old(store)@,
                user.user@,
                project_id,
            ) ==> (r matches Ok(m) && {
                let patched = StateView { id: s0.id, project_id: s0.project_id, name: msg.name@ };
                &&& m.id == patched.id
                &&& m.name@ == patched.name
                &&& m.project_id == patched.project_id
                &&& final(store)@ == (StoreView {
                    sessions: touched.sessions,
                    states: spec_states_updated(old(store)@.states, patched),
                    ..old(store)@
                })
            }))
        }),
{
    match handle_token_update(store, &user.user, user.token.as_str(), user_agent, ip_addr) {
        Ok(()) => (),
        Err(e) => {
            return Err(e);
        },
    }
    let allowed = match may_edit(store, user, project_id) {
        Ok(b) => b,
        Err(e) => {
            return Err(e);
        },
    };
    if allowed {
        let found = match get_state(store, state_id) {
            Ok(o) => o,
            Err(e) => {
                return Err(e);
            },
        };
        let mut state = match found {
            Some(s) => s,
            None => {
                return Err(not_found("state not found"));
            },
        };
        msg.update_model(&mut state);
        match update_state(store, &state) {
            Ok(()) => Ok(StateMessage::from_model(state)),
            Err(e) => Err(e),
        }
    } else {
        Err(unauthorized("Insufficient permissions"))
    }
}

/// Removes a column; deletion is the project owner's (or an administrator's).
pub fn delete_column_route(
    store: &mut Store,
    user: &AuthenticatedUser,
    project_id: u128,
    column_id: u128,
    user_agent: Option<&str>,
    ip_addr: Option<String>,
) -> (r: Result<SuccessMessage, AppError>)
    ensures
        !(user_agent is Some && ip_addr is Some) ==> (r matches Err(e) && e is RequestError && final(store)@ == old(store)@),
        user_agent matches Some(ua) ==> (ip_addr matches Some(ip) ==> {
            let touched = spec_touched(old(store)@, user.token@, ua@, ip@, user.user@.id);
            &&& !spec_may_delete(old(store)@, user.user@, project_id) ==> (r matches Err(e)
                && e is Unauthorized && final(store)@ == touched)
            &&& spec_may_delete(old(store)@, user.user@, project_id) ==> (r matches Ok(m)
                && m.success && final(store)@ == (StoreView {
                sessions: touched.sessions,
                columns: spec_columns_without(old(store)@.columns, column_id),
                ..old(store)@
            }))
        }),
{
    match handle_token_update(store, &user.user, user.token.as_str(), user_agent, ip_addr) {
        Ok(()) => (),
        Err(e) => {
            return Err(e);
        },
    }
    let allowed = match may_delete(store, user, project_id) {
        Ok(b) => b,
        Err(e) => {
            return Err(e);
        },
    };
    if allowed {
        match delete_column(store, column_id) {
            Ok(()) => Ok(SuccessMessage::new(true)),
            Err(e) => Err(e),
        }
    } else {
        Err(unauthorized("Insufficient permissions"))
    }
}

/// Removes a label; deletion is the project owner's (or an administrator's).
pub fn delete_label_route(
    store: &mut Store,
    user: &AuthenticatedUser,
    project_id: u128,
    label_id: u128,
    user_agent: Option<&str>,
    ip_addr: Option<String>,
) -> (r: Result<SuccessMessage, AppError>)
    ensures
        !(user_agent is Some && ip_addr is Some) ==> (r matches Err(e) && e is RequestError && final(store)@ == old(store)@),
        user_agent matches Some(ua) ==> (ip_addr matches Some(ip) ==> {
            let touched = spec_touched(old(store)@, user.token@, ua@, ip@, user.user@.id);
            &&& !spec_may_delete(old(store)@, user.user@, project_id) ==> (r matches Err(e)
                && e is Unauthorized && final(store)@ == touched)
            &&& spec_may_delete(old(store)@, user.user@, project_id) ==> (r matches Ok(m)
                && m.success && final(store)@ == (StoreView {
                sessions: touched.sessions,
                labels: spec_labels_without(old(store)@.labels, label_id),
                ..old(store)@
            }))
        }),
{
    match handle_token_update(store, &user.user, user.token.as_str(), user_agent, ip_addr) {
        Ok(()) => (),
        Err(e) => {
            return Err(e);
        },
    }
    let allowed = match may_delete(store, user, project_id) {
        Ok(b) => b,
        Err(e) => {
            return Err(e);
        },
    };
    if allowed {
        match delete_label(store, label_id) {
            Ok(()) => Ok(SuccessMessage::new(true)),
            Err(e) => Err(e),
        }
    } else {
        Err(unauthorized("Insufficient permissions"))
    }
}

/// Removes a workflow state; deletion is the project owner's (or an administrator's).
pub fn delete_state_route(
    store: &mut Store,
    user: &AuthenticatedUser,
    project_id: u128,
    state_id: u128,
    user_agent: Option<&str>,
    ip_addr: Option<String>,
) -> (r: Result<SuccessMessage, AppError>)
    ensures
        !(user_agent is Some && ip_addr is Some) ==> (r matches Err(e) && e is RequestError && final(store)@ == old(store)@),
        user_agent matches Some(ua) ==> (ip_addr matches Some(ip) ==> {
            let touched = spec_touched(old(store)@, user.token@, ua@, ip@, user.user@.id);
            &&& !spec_may_delete(old(store)@, user.user@, project_id) ==> (r matches Err(e)
                && e is Unauthorized && final(store)@ == touched)
            &&& spec_may_delete(old(store)@, user.user@, project_id) ==> (r matches Ok(m)
                && m.success && final(store)@ == (StoreView {
                sessions: touched.sessions,
                states: spec_states_without(old(store)@.states, state_id),
                ..old(store)@
            }))
        }),
{
    match handle_token_update(store, &user.user, user.token.as_str(), user_agent, ip_addr) {
        Ok(()) => (),
        Err(e) => {
            return Err(e);
        },
    }
    let allowed = match may_delete(store, user, project_id) {
        Ok(b) => b,
        Err(e) => {
            return Err(e);
        },
    };
    if allowed {
        match delete_state(store, state_id) {
            Ok(()) => Ok(SuccessMessage::new(true)),
            Err(e) => Err(e),
        }
    } else {
        Err(unauthorized("Insufficient permissions"))
    }
}

} // verus!
