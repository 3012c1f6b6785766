//! Project handlers: creation, ownership-gated reads and deletion, and the
//! listing a caller is entitled to.

use vstd::prelude::*;
use crate::error::{not_found, unauthorized, AppError};
use crate::models::{ProjectModel, ProjectView, UserModel, UserView};
use crate::project_messages::{CreateProjectMessage, ProjectMessage};
use crate::store::{
    create_project, delete_project, get_project, get_projects, list_projects,
    spec_columns_outside, spec_find_project, spec_grants_outside, spec_labels_outside,
    spec_projects_without, spec_states_outside, spec_task_labels_outside, spec_tasks_outside,
    spec_visible_projects, Store, StoreView,
};
use crate::util::{spec_page_items, spec_page_total, Page, Pagination};

verus! {

/// Stores a project for the caller and answers with its representation.
pub fn handle_create_project(msg: CreateProjectMessage, user_id: u128, store: &mut Store) -> (r:
    Result<ProjectMessage, AppError>)
    requires
        old(store).spec_can_mint(),
    ensures
        r matches Ok(m) && m.id == old(store)@.next_id && m.name@ == msg.name@ && m.owner_id
            == user_id && m.public == msg.public && m.labels is None && m.columns is None,
        final(store)@ == (StoreView {
            projects: old(store)@.projects.push(
                ProjectView {
                    id: old(store)@.next_id,
                    name: msg.name@,
                    public: msg.public,
                    owner_id: user_id,
                },
            ),
            next_id: (old(store)@.next_id + 1) as u128,
            ..old(store)@
        }),
{
    let mut new_project = msg.to_model(user_id);
    match create_project(store, &mut new_project) {
        Ok(()) => {
            proof {
                assert(new_project@ =~= (ProjectView {
                    id: old(store)@.next_id,
                    name: msg.name@,
                    public: msg.public,
                    owner_id: user_id,
                }));
            }
            Ok(ProjectMessage::from_model(new_project))
        },
        Err(e) => Err(e),
    }
}

/// Reads a project for its owner or an administrator; anyone else is turned
/// away, and an absent project is not found.
pub fn handle_get_project(user: &UserModel, project_id: u128, store: &Store) -> (r: Result<
    ProjectMessage,
    AppError,
>)
    ensures
        r matches Ok(m) ==> (spec_find_project(store@.projects, project_id) matches Some(p) && (
        user.is_admin || p.owner_id == user.id) && m.id == p.id && m.name@ == p.name && m.owner_id
            == p.owner_id && m.public == p.public && m.labels is None && m.columns is None),
        r is Ok <==> (spec_find_project(store@.projects, project_id) matches Some(p) && (
        user.is_admin || p.owner_id == user.id)),
        r matches Err(e) ==> (spec_find_project(store@.projects, project_id) is None
            <==> e is NotFound) && (spec_find_project(store@.projects, project_id) is Some
            <==> e is Unauthorized),
{
    let found = match get_project(store, project_id) {
        Ok(o) => o,
        Err(e) => {
            return Err(e);
        },
    };
    let proj = match found {
        Some(p) => p,
        None => {
            return Err(not_found("Project Not Found"));
        },
    };
    let msg = ProjectMessage::from_model(proj);
    if user.is_admin || msg.owner_id == user.id {
        Ok(msg)
    } else {
        Err(unauthorized("Not allowed"))
    }
}

/// The projects a listing shows the caller: everything for an administrator,
/// otherwise the caller's own and the public ones.
pub open spec fn spec_listed_projects(s: StoreView, u: UserView) -> Seq<ProjectView> {
    if u.is_admin {
        s.projects
    } else {
        spec_visible_projects(s.projects, u.id)
    }
}

/// Converts fetched project rows into their client representation, in order.
pub(crate) fn project_messages_of(models: Vec<ProjectModel>) -> (r: Vec<ProjectMessage>)
    ensures
        r@.len() == models@.len(),
        forall|j: int|
            0 <= j < models@.len() ==> ((#[trigger] r@[j]).id == models@[j]@.id && r@[j].name@
                == models@[j]@.name && r@[j].owner_id == models@[j]@.owner_id && r@[j].public
                == models@[j]@.public && r@[j].labels is None && r@[j].columns is None),
{
    let mut out: Vec<ProjectMessage> = Vec::new();
    let n = models.len();
    let mut i: usize = 0;
    while i < n
        invariant
            n == models@.len(),
            i <= n,
            out@.len() == i,
            forall|j: int|
                0 <= j < i ==> ((#[trigger] out@[j]).id == models@[j]@.id && out@[j].name@
                    == models@[j]@.name && out@[j].owner_id == models@[j]@.owner_id
                    && out@[j].public == models@[j]@.public && out@[j].labels is None
                    && out@[j].columns is None),
        decreases n - i,
    {
        out.push(ProjectMessage::from_model(models[i].clone()));
        i += 1;
    }
    out
}

/// Lists the page of projects the caller is entitled to see, with the
/// reported total.
pub fn handle_get_projects(pag: Pagination, user: &UserModel, store: &Store) -> (r: Result<
    Page<ProjectMessage>,
    AppError,
>)
    requires
        pag.spec_valid(),
        store@.projects.len() <= i64::MAX,
    ensures
        r matches Ok(page) && {
            let listed = spec_listed_projects(store@, user@);
            let items = spec_page_items(listed, pag);
            &&& page.page == pag.page
            &&& page.total == spec_page_total(listed, pag)
            &&& page.count == items.len()
            &&& page.items@.len() == items.len()
            &&& forall|j: int|
                0 <= j < items.len() ==> ((#[trigger] page.items@[j]).id == items[j].id
                    && page.items@[j].name@ == items[j].name && page.items@[j].owner_id
                    == items[j].owner_id && page.items@[j].public == items[j].public)
        },
{
    let fetched = if user.is_admin {
        match list_projects(store, pag) {
            Ok(p) => p,
            Err(e) => {
                return Err(e);
            },
        }
    } else {
        match get_projects(store, user.id, pag) {
            Ok(p) => p,
            Err(e) => {
                return Err(e);
            },
        }
    };
    let (est, projects) = fetched;
    let ghost fetched_views = projects.deep_view();
    let messages = project_messages_of(projects);
    proof {
        assert(spec_page_items(spec_listed_projects(store@, user@), pag).len() <= pag.count);
        assert(forall|j: int|
            0 <= j < fetched_views.len() ==> fetched_views[j] == #[trigger] projects@[j]@);
    }
    Ok(Page::new(messages, pag, est))
}

/// Removes a project for its owner or an administrator, with everything under
/// it; for anyone else, or for an absent project, nothing happens and nothing
/// is reported.
pub fn handle_delete_project(project_id: u128, user: &UserModel, store: &mut Store) -> (r: Result<
    (),
    AppError,
>)
    ensures
        r is Ok,
        (spec_find_project(old(store)@.projects, project_id) matches Some(p) && (user.is_admin
            || user.id == p.owner_id)) ==> final(store)@ == (StoreView {
            projects: spec_projects_without(old(store)@.projects, project_id),
            columns: spec_columns_outside(old(store)@.columns, project_id),
            labels: spec_labels_outside(old(store)@.labels, project_id),
            states: spec_states_outside(old(store)@.states, project_id),
            tasks: spec_tasks_outside(old(store)@.tasks, project_id),
            grants: spec_grants_outside(old(store)@.grants, project_id),
            task_labels: spec_task_labels_outside(
                old(store)@.task_labels,
                old(store)@.tasks,
                old(store)@.labels,
                project_id,
            ),
            ..old(store)@
        }),
        !(spec_find_project(old(store)@.projects, project_id) matches Some(p) && (user.is_admin
            || user.id == p.owner_id)) ==> final(store)@ == old(store)@,
{
    let found = match get_project(store, project_id) {
        Ok(o) => o,
        Err(e) => {
            return Err(e);
        },
    };
    if let Some(proj) = found {
        if user.is_admin || user.id == proj.owner_id {
            match delete_project(store, project_id) {
                Ok(()) => {
                    return Ok(());
                },
                Err(e) => {
                    return Err(e);
                },
            }
        }
    }
    Ok(())
}

} // verus!
