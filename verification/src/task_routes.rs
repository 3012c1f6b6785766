//! The task endpoints. A task carries a set of labels; an update diffs the
//! requested set against the stored one and applies only the additions and
//! removals, leaving common labels untouched.

use vstd::prelude::*;
use crate::error::{bad_request, not_found, unauthorized, AppError};
use crate::models::{AuthenticatedUser, LabelModel, LabelView, TaskView, UserView};
use crate::permissions::Permissions;
use crate::store::{
    add_task_label, create_task, delete_task, get_project_permission, get_task, get_task_labels,
    remove_task_label, spec_find_project, spec_find_task, spec_project_permission,
    spec_task_label_rows,
    spec_task_labels_without, spec_task_labels_without_task, spec_tasks_updated,
    spec_tasks_without, update_task, Store, StoreView, TaskLabel,
};
use crate::task_messages::{CreateOrUpdateTaskMessage, TaskMessage};
use crate::user_handler::{handle_token_update, spec_touched};
use crate::messages::SuccessMessage;

verus! {

/// Whether the caller may read a project's tasks: an administrator outright,
/// or anyone whose stored permission on the project is at least `Reader`.
pub open spec fn spec_may_read(s: StoreView, u: UserView, project_id: u128) -> bool {
    u.is_admin || spec_project_permission(s, u.id, project_id).spec_satisfies(Permissions::Reader)
}

/// Whether the caller may edit a project's tasks: an administrator outright,
/// or anyone whose stored permission on the project is at least `Editor`.
pub open spec fn spec_task_may_edit(s: StoreView, u: UserView, project_id: u128) -> bool {
    u.is_admin || spec_project_permission(s, u.id, project_id).spec_satisfies(Permissions::Editor)
}

/// Whether the caller may delete a project's tasks: an administrator
/// outright, or anyone whose stored permission on the project is at least
/// `Owner`.
pub open spec fn spec_task_may_delete(s: StoreView, u: UserView, project_id: u128) -> bool {
    u.is_admin || spec_project_permission(s, u.id, project_id).spec_satisfies(Permissions::Owner)
}

/// Keeps the identifiers that are not among `ids`.
pub open spec fn id_not_in(ids: Seq<u128>) -> spec_fn(u128) -> bool {
    |x: u128| !ids.contains(x)
}

/// The labels a task update must attach: the requested ones not yet stored,
/// in requested order.
pub open spec fn spec_added_labels(new_ids: Seq<u128>, old_ids: Seq<u128>) -> Seq<u128> {
    new_ids.filter(id_not_in(old_ids))
}

/// The labels a task update must detach: the stored ones no longer requested,
/// in stored order.
pub open spec fn spec_removed_labels(new_ids: Seq<u128>, old_ids: Seq<u128>) -> Seq<u128> {
    old_ids.filter(id_not_in(new_ids))
}

/// A label is added exactly when it is requested but not stored, and removed
/// exactly when it is stored but no longer requested; a label on both sides
/// is neither.
pub proof fn lemma_label_diff(new_ids: Seq<u128>, old_ids: Seq<u128>)
    ensures
        forall|x: u128|
            #[trigger] spec_added_labels(new_ids, old_ids).contains(x) <==> (new_ids.contains(x)
                && !old_ids.contains(x)),
        forall|x: u128|
            #[trigger] spec_removed_labels(new_ids, old_ids).contains(x) <==> (old_ids.contains(x)
                && !new_ids.contains(x)),
{
    broadcast use vstd::seq_lib::group_filter_ensures;
    broadcast use vstd::prelude::Seq::lemma_filter_contains_rev;

    assert forall|x: u128| #[trigger] spec_added_labels(new_ids, old_ids).contains(x) implies (
    new_ids.contains(x) && !old_ids.contains(x)) by {
        let adds = spec_added_labels(new_ids, old_ids);
        let k = choose|k: int| 0 <= k < adds.len() && adds[k] == x;
        assert(id_not_in(old_ids)(adds[k]));
    }
    assert forall|x: u128| (new_ids.contains(x) && !old_ids.contains(x)) implies #[trigger] spec_added_labels(
        new_ids,
        old_ids,
    ).contains(x) by {
        let k = choose|k: int| 0 <= k < new_ids.len() && new_ids[k] == x;
        assert(id_not_in(old_ids)(new_ids[k]));
        assert(new_ids.filter(id_not_in(old_ids)).contains(new_ids[k]));
    }
    assert forall|x: u128| #[trigger] spec_removed_labels(new_ids, old_ids).contains(x) implies (
    old_ids.contains(x) && !new_ids.contains(x)) by {
        let removes = spec_removed_labels(new_ids, old_ids);
        let k = choose|k: int| 0 <= k < removes.len() && removes[k] == x;
        assert(id_not_in(new_ids)(removes[k]));
    }
    assert forall|x: u128| (old_ids.contains(x) && !new_ids.contains(x)) implies #[trigger] spec_removed_labels(
        new_ids,
        old_ids,
    ).contains(x) by {
        let k = choose|k: int| 0 <= k < old_ids.len() && old_ids[k] == x;
        assert(id_not_in(new_ids)(old_ids[k]));
        assert(old_ids.filter(id_not_in(new_ids)).contains(old_ids[k]));
    }
}

/// Whether an identifier occurs in the list.
fn contains_id(ids: &Vec<u128>, x: u128) -> (r: bool)
    ensures
        r == ids@.contains(x),
{
    let n = ids.len();
    let mut i: usize = 0;
    while i < n
        invariant
            n == ids@.len(),
            i <= n,
            forall|j: int| 0 <= j < i ==> ids@[j] != x,
        decreases n - i,
    {
        if ids[i] == x {
            return true;
        }
        i += 1;
    }
    proof {
        assert(!ids@.contains(x));
    }
    false
}

/// The identifiers of fetched label rows, in order.
fn ids_of_labels(labels: &Vec<LabelModel>) -> (r: Vec<u128>)
    ensures
        r@ == labels.deep_view().map_values(|l: LabelView| l.id),
{
    let mut out: Vec<u128> = Vec::new();
    let n = labels.len();
    let mut i: usize = 0;
    while i < n
        invariant
            n == labels@.len(),
            i <= n,
            out@.len() == i,
            forall|j: int| 0 <= j < i ==> out@[j] == labels@[j]@.id,
        decreases n - i,
    {
        out.push(labels[i].id);
        i += 1;
    }
    proof {
        assert(out@ =~= labels.deep_view().map_values(|l: LabelView| l.id));
    }
    out
}

/// Splits a requested label set against the stored one: the additions (in
/// requested order) and the removals (in stored order); labels on both sides
/// appear in neither.
pub fn diff_labels(new_ids: &Vec<u128>, old_ids: &Vec<u128>) -> (r: (Vec<u128>, Vec<u128>))
    ensures
        r.0@ == spec_added_labels(new_ids@, old_ids@),
        r.1@ == spec_removed_labels(new_ids@, old_ids@),
{
    broadcast use vstd::prelude::Seq::lemma_filter_push;

    let mut adds: Vec<u128> = Vec::new();
    let n = new_ids.len();
    let mut i: usize = 0;
    proof {
        reveal(Seq::filter);
        assert(new_ids@.take(0int) =~= Seq::<u128>::empty());
    }
    while i < n
        invariant
            n == new_ids@.len(),
            i <= n,
            adds@ == spec_added_labels(new_ids@.take(i as int), old_ids@),
        decreases n - i,
    {
        proof {
            assert(new_ids@.take((i + 1) as int) =~= new_ids@.take(i as int).push(
                new_ids@[i as int],
            ));
            new_ids@.take(i as int).lemma_filter_push(new_ids@[i as int], id_not_in(old_ids@));
            assert(id_not_in(old_ids@)(new_ids@[i as int]) == !old_ids@.contains(
                new_ids@[i as int],
            ));
        }
        if !contains_id(old_ids, new_ids[i]) {
            adds.push(new_ids[i]);
        }
        i += 1;
    }
    proof {
        assert(new_ids@.take(n as int) =~= new_ids@);
    }
    let mut removes: Vec<u128> = Vec::new();
    let m = old_ids.len();
    let mut k: usize = 0;
    proof {
        reveal(Seq::filter);
        assert(old_ids@.take(0int) =~= Seq::<u128>::empty());
    }
    while k < m
        invariant
            m == old_ids@.len(),
            k <= m,
            removes@ == spec_removed_labels(new_ids@, old_ids@.take(k as int)),
        decreases m - k,
    {
        proof {
            assert(old_ids@.take((k + 1) as int) =~= old_ids@.take(k as int).push(
                old_ids@[k as int],
            ));
            old_ids@.take(k as int).lemma_filter_push(old_ids@[k as int], id_not_in(new_ids@));
            assert(id_not_in(new_ids@)(old_ids@[k as int]) == !new_ids@.contains(
                old_ids@[k as int],
            ));
        }
        if !contains_id(new_ids, old_ids[k]) {
            removes.push(old_ids[k]);
        }
        k += 1;
    }
    proof {
        assert(old_ids@.take(m as int) =~= old_ids@);
    }
    (adds, removes)
}

/// The attachments of `task_id` for each of `ids`, in order.
pub open spec fn spec_attachments(task_id: u128, ids: Seq<u128>) -> Seq<TaskLabel> {
    ids.map_values(|lid: u128| TaskLabel { task_id, label_id: lid })
}

/// The attachment table after each of the given labels is detached from the
/// task, in order.
pub open spec fn spec_detach_all(
    task_labels: Seq<TaskLabel>,
    task_id: u128,
    removes: Seq<u128>,
) -> Seq<TaskLabel>
    decreases removes.len(),
{
    if removes.len() == 0 {
        task_labels
    } else {
        spec_detach_all(
            spec_task_labels_without(task_labels, task_id, removes[0]),
            task_id,
            removes.drop_first(),
        )
    }
}

/// The label identifiers a task message carries; an absent set counts empty.
pub open spec fn spec_message_labels(msg: CreateOrUpdateTaskMessage) -> Seq<u128> {
    match msg.labels {
        Some(v) => v@,
        None => Seq::empty(),
    }
}

/// Stores a task with its labels, for a caller who may edit the stored
/// project the task names; a task needs a non-empty title.
#[verifier::loop_isolation(false)]
pub fn create_task_route(
    store: &mut Store,
    user: &AuthenticatedUser,
    msg: CreateOrUpdateTaskMessage,
    user_agent: Option<&str>,
    ip_addr: Option<String>,
) -> (r: Result<TaskMessage, AppError>)
    requires
        old(store).spec_can_mint(),
    ensures
        !(user_agent is Some && ip_addr is Some) ==> (r matches Err(e) && e is RequestError && final(store)@ == old(store)@),
        user_agent matches Some(ua) ==> (ip_addr matches Some(ip) ==> {
            let touched = spec_touched(old(store)@, user.token@, ua@, ip@, user.user@.id);
            &&& msg.title@.len() == 0 ==> (r matches Err(e) && e is RequestError && final(store)@
                == touched)
            &&& (msg.title@.len() > 0 && !spec_task_may_edit(
                old(store)@,
                user.user@,
                msg.project_id,
            )) ==> (r matches Err(e) && e is Unauthorized && final(store)@ == touched)
            &&& (msg.title@.len() > 0 && spec_task_may_edit(old(store)@, user.user@, msg.project_id)
                && spec_find_project(old(store)@.projects, msg.project_id) is None) ==> (
            r matches Err(e) && e is DBError && final(store)@ == touched)
            &&& (msg.title@.len() > 0 && spec_task_may_edit(old(store)@, user.user@, msg.project_id)
                && spec_find_project(old(store)@.projects, msg.project_id) is Some) ==> (
            r matches Ok(m) && {
                let created = TaskView {
                    id: old(store)@.next_id,
                    title: msg.title@,
                    project_id: msg.project_id,
                    column_id: msg.column_id,
                    assignee_id: msg.assignee_id,
                    creator_id: msg.creator_id,
                    deadline: msg.spec_deadline(),
                    estimation: msg.estimation,
                    state_id: msg.state_id,
                    parent_id: msg.parent_id,
                    task_type: msg.task_type,
                };
                &&& m.id == created.id
                &&& m.title@ == created.title
                &&& m.project_id == created.project_id
                &&& m.column_id == created.column_id
                &&& m.assignee_id == created.assignee_id
                &&& m.creator_id == created.creator_id
                &&& m.deadline == created.deadline
                &&& m.estimation == created.estimation
                &&& m.state_id == created.state_id
                &&& m.parent_id == created.parent_id
                &&& m.task_type == created.task_type
                &&& m.labels matches Some(ls) && ls@ == spec_message_labels(msg)
                &&& final(store)@ == (StoreView {
                    sessions: touched.sessions,
                    tasks: old(store)@.tasks.push(created),
                    task_labels: old(store)@.task_labels + spec_attachments(
                        old(store)@.next_id,
                        spec_message_labels(msg),
                    ),
                    next_id: (old(store)@.next_id + 1) as u128,
                    ..old(store)@
                })
            })
        }),
{
    match handle_token_update(store, &user.user, user.token.as_str(), user_agent, ip_addr) {
        Ok(()) => (),
        Err(e) => {
            return Err(e);
        },
    }
    if msg.title.as_str().is_empty() {
        return Err(bad_request("task title must not be empty"));
    }
    let mut msg = msg;
    let labels: Vec<u128> = match msg.labels.take() {
        Some(v) => v,
        None => Vec::new(),
    };
    let ghost label_ids = labels@;
    let mut task = msg.to_model();
    let allowed = if user.user.is_admin {
        true
    } else {
        match get_project_permission(store, user.user.id, task.project_id) {
            Ok(perm) => perm.satisfies(&Permissions::Editor),
            Err(e) => {
                return Err(e);
            },
        }
    };
    if !allowed {
        return Err(unauthorized("You shall not pass"));
    }
    match create_task(store, &mut task) {
        Ok(()) => (),
        Err(e) => {
            return Err(e);
        },
    }
    let task_id = task.id;
    let ghost base = store@;
    let n = labels.len();
    let mut i: usize = 0;
    proof {
        assert(base.task_labels + spec_attachments(task_id, label_ids.take(0int)) =~= base.task_labels);
        assert(store@ =~= (StoreView {
            task_labels: base.task_labels + spec_attachments(task_id, label_ids.take(0int)),
            ..base
        }));
    }
    while i < n
        invariant
            n == labels@.len(),
            i <= n,
            store@ == (StoreView {
                task_labels: base.task_labels + spec_attachments(
                    task_id,
                    label_ids.take(i as int),
                ),
                ..base
            }),
        decreases n - i,
    {
        match add_task_label(store, task_id, labels[i]) {
            Ok(()) => (),
            Err(e) => {
                return Err(e);
            },
        }
        proof {
            assert(label_ids.take((i + 1) as int) =~= label_ids.take(i as int).push(
                label_ids[i as int],
            ));
            assert(base.task_labels + spec_attachments(task_id, label_ids.take((i + 1) as int))
                =~= (base.task_labels + spec_attachments(task_id, label_ids.take(i as int))).push(
                TaskLabel { task_id, label_id: label_ids[i as int] },
            ));
            assert(store@ =~= (StoreView {
                task_labels: base.task_labels + spec_attachments(
                    task_id,
                    label_ids.take((i + 1) as int),
                ),
                ..base
            }));
        }
        i += 1;
    }
    proof {
        assert(label_ids.take(n as int) =~= label_ids);
    }
    let mut rmsg = TaskMessage::from_model(task);
    rmsg.labels = Some(labels);
    Ok(rmsg)
}

/// Patches a task and diffs its label set: requested labels not yet stored
/// are attached, stored ones no longer requested are detached, and labels on
/// both sides are left untouched.
#[verifier::loop_isolation(false)]
pub fn update_task_route(
    store: &mut Store,
    user: &AuthenticatedUser,
    task_id: u128,
    msg: CreateOrUpdateTaskMessage,
    user_agent: Option<&str>,
    ip_addr: Option<String>,
) -> (r: Result<TaskMessage, AppError>)
    ensures
        !(user_agent is Some && ip_addr is Some) ==> (r matches Err(e) && e is RequestError && final(store)@ == old(store)@),
        user_agent matches Some(ua) ==> (ip_addr matches Some(ip) ==> {
            let touched = spec_touched(old(store)@, user.token@, ua@, ip@, user.user@.id);
            &&& spec_find_task(old(store)@.tasks, task_id) is None ==> (r matches Err(e)
                && e is NotFound && final(store)@ == touched)
            &&& spec_find_task(old(store)@.tasks, task_id) matches Some(t0) ==> {
                let patched = msg.spec_apply(t0);
                let old_ids = spec_task_label_rows(
                    old(store)@.task_labels,
                    old(store)@.labels,
                    task_id,
                ).map_values(|l: LabelView| l.id);
                let new_ids = spec_message_labels(msg);
                let adds = spec_added_labels(new_ids, old_ids);
                let removes = spec_removed_labels(new_ids, old_ids);
                &&& !spec_task_may_edit(old(store)@, user.user@, t0.project_id) ==> (r matches Err(
                    e,
                ) && e is Unauthorized && final(store)@ == touched)
                &&& spec_task_may_edit(old(store)@, user.user@, t0.project_id) ==> (r matches Ok(m)
                    && {
                    &&& m.id == patched.id
                    &&& m.title@ == patched.title
                    &&& m.project_id == patched.project_id
                    &&& m.column_id == patched.column_id
                    &&& m.assignee_id == patched.assignee_id
                    &&& m.creator_id == patched.creator_id
                    &&& m.deadline == patched.deadline
                    &&& m.estimation == patched.estimation
                    &&& m.state_id == patched.state_id
                    &&& m.parent_id == patched.parent_id
                    &&& m.task_type == patched.task_type
                    &&& m.labels matches Some(ls) && ls@ == new_ids
                    &&& final(store)@ == (StoreView {
                        sessions: touched.sessions,
                        tasks: spec_tasks_updated(old(store)@.tasks, patched),
                        task_labels: spec_detach_all(
                            old(store)@.task_labels + spec_attachments(task_id, adds),
                            task_id,
                            removes,
                        ),
                        ..old(store)@
                    })
                })
            }
        }),
{
    match handle_token_update(store, &user.user, user.token.as_str(), user_agent, ip_addr) {
        Ok(()) => (),
        Err(e) => {
            return Err(e);
        },
    }
    let mut msg = msg;
    let new_labels: Vec<u128> = match msg.labels.take() {
        Some(v) => v,
        None => Vec::new(),
    };
    let ghost new_ids = new_labels@;
    let found = match get_task(store, task_id) {
        Ok(o) => o,
        Err(e) => {
            return Err(e);
        },
    };
    let mut task = match found {
        Some(t) => t,
        None => {
            return Err(not_found("Task not found"));
        },
    };
    let ghost t0 = task@;
    msg.update_model(&mut task);
    let allowed = if user.user.is_admin {
        true
    } else {
        match get_project_permission(store, user.user.id, task.project_id) {
            Ok(perm) => perm.satisfies(&Permissions::Editor),
            Err(e) => {
                return Err(e);
            },
        }
    };
    let old_label_rows = match get_task_labels(store, task_id) {
        Ok(v) => v,
        Err(e) => {
            return Err(e);
        },
    };
    if !allowed {
        return Err(unauthorized("You shall not pass"));
    }
    let old_ids_vec = ids_of_labels(&old_label_rows);
    let ghost old_ids = old_ids_vec@;
    match update_task(store, &mut task) {
        Ok(()) => (),
        Err(e) => {
            return Err(e);
        },
    }
    let (adds, removes) = diff_labels(&new_labels, &old_ids_vec);
    let ghost adds_v = adds@;
    let ghost removes_v = removes@;

    let ghost base = store@;
    let n = adds.len();
    let mut i: usize = 0;
    proof {
        assert(base.task_labels + spec_attachments(task_id, adds_v.take(0int)) =~= base.task_labels);
        assert(store@ =~= (StoreView {
            task_labels: base.task_labels + spec_attachments(task_id, adds_v.take(0int)),
            ..base
        }));
    }
    while i < n
        invariant
            n == adds@.len(),
            i <= n,
            store@ == (StoreView {
                task_labels: base.task_labels + spec_attachments(task_id, adds_v.take(i as int)),
                ..base
            }),
        decreases n - i,
    {
        match add_task_label(store, task_id, adds[i]) {
            Ok(()) => (),
            Err(e) => {
                return Err(e);
            },
        }
        proof {
            assert(adds_v.take((i + 1) as int) =~= adds_v.take(i as int).push(adds_v[i as int]));
            assert(base.task_labels + spec_attachments(task_id, adds_v.take((i + 1) as int)) =~= (
            base.task_labels + spec_attachments(task_id, adds_v.take(i as int))).push(
                TaskLabel { task_id, label_id: adds_v[i as int] },
            ));
            assert(store@ =~= (StoreView {
                task_labels: base.task_labels + spec_attachments(
                    task_id,
                    adds_v.take((i + 1) as int),
                ),
                ..base
            }));
        }
        i += 1;
    }
    proof {
        assert(adds_v.take(n as int) =~= adds_v);
    }

    let ghost after_adds = store@;
    let m = removes.len();
    let mut k: usize = 0;
    proof {
        assert(removes_v.skip(0int) =~= removes_v);
    }
    while k < m
        invariant
            m == removes@.len(),
            k <= m,
            spec_detach_all(after_adds.task_labels, task_id, removes_v) == spec_detach_all(
                store@.task_labels,
                task_id,
                removes_v.skip(k as int),
            ),
            store@ == (StoreView { task_labels: store@.task_labels, ..after_adds }),
        decreases m - k,
    {
        let ghost before = store@.task_labels;
        match remove_task_label(store, task_id, removes[k]) {
            Ok(()) => (),
            Err(e) => {
                return Err(e);
            },
        }
        proof {
            assert(removes_v.skip(k as int)[0] == removes_v[k as int]);
            assert(removes_v.skip(k as int).drop_first() =~= removes_v.skip((k + 1) as int));
            assert(store@.task_labels == spec_task_labels_without(
                before,
                task_id,
                removes_v[k as int],
            ));
        }
        k += 1;
    }
    proof {
        assert(removes_v.skip(m as int) =~= Seq::<u128>::empty());
        assert(spec_detach_all(store@.task_labels, task_id, removes_v.skip(m as int))
            == store@.task_labels);
        assert(store@ =~= (StoreView {
            sessions: after_adds.sessions,
            tasks: after_adds.tasks,
            task_labels: spec_detach_all(after_adds.task_labels, task_id, removes_v),
            ..after_adds
        }));
    }
    let mut rmsg = TaskMessage::from_model(task);
    rmsg.labels = Some(new_labels);
    Ok(rmsg)
}

/// Removes a task, with its label attachments; deletion is the project
/// owner's (or an administrator's).
pub fn delete_task_route(
    store: &mut Store,
    user: &AuthenticatedUser,
    task_id: u128,
    user_agent: Option<&str>,
    ip_addr: Option<String>,
) -> (r: Result<SuccessMessage, AppError>)
    ensures
        !(user_agent is Some && ip_addr is Some) ==> (r matches Err(e) && e is RequestError && final(store)@ == old(store)@),
        user_agent matches Some(ua) ==> (ip_addr matches Some(ip) ==> {
            let touched = spec_touched(old(store)@, user.token@, ua@, ip@, user.user@.id);
            &&& spec_find_task(old(store)@.tasks, task_id) is None ==> (r matches Err(e)
                && e is NotFound && final(store)@ == touched)
            &&& spec_find_task(old(store)@.tasks, task_id) matches Some(t0) ==> {
                &&& !spec_task_may_delete(old(store)@, user.user@, t0.project_id) ==> (r matches Err(
                    e,
                ) && e is Unauthorized && final(store)@ == touched)
                &&& spec_task_may_delete(old(store)@, user.user@, t0.project_id) ==> (r matches Ok(m)
                    && m.success && final(store)@ == (StoreView {
                    sessions: touched.sessions,
                    tasks: spec_tasks_without(old(store)@.tasks, task_id),
                    task_labels: spec_task_labels_without_task(old(store)@.task_labels, task_id),
                    ..old(store)@
                }))
            }
        }),
{
    match handle_token_update(store, &user.user, user.token.as_str(), user_agent, ip_addr) {
        Ok(()) => (),
        Err(e) => {
            return Err(e);
        },
    }
    let found = match get_task(store, task_id) {
        Ok(o) => o,
        Err(e) => {
            return Err(e);
        },
    };
    let task = match found {
        Some(t) => t,
        None => {
            return Err(not_found("task not found"));
        },
    };
    let allowed = if user.user.is_admin {
        true
    } else {
        match get_project_permission(store, user.user.id, task.project_id) {
            Ok(perm) => perm.satisfies(&Permissions::Owner),
            Err(e) => {
                return Err(e);
            },
        }
    };
    if allowed {
        match delete_task(store, task_id) {
            Ok(()) => Ok(SuccessMessage::new(true)),
            Err(e) => Err(e),
        }
    } else {
        Err(unauthorized("You cannot do that"))
    }
}

/// Reads a task with its labels, for a caller who may read its project.
pub fn get_task_route(
    store: &mut Store,
    user: &AuthenticatedUser,
    task_id: u128,
    user_agent: Option<&str>,
    ip_addr: Option<String>,
) -> (r: Result<TaskMessage, AppError>)
    ensures
        !(user_agent is Some && ip_addr is Some) ==> (r matches Err(e) && e is RequestError && final(store)@ == old(store)@),
        user_agent matches Some(ua) ==> (ip_addr matches Some(ip) ==> {
            let touched = spec_touched(old(store)@, user.token@, ua@, ip@, user.user@.id);
            &&& final(store)@ == touched
            &&& spec_find_task(old(store)@.tasks, task_id) is None ==> (r matches Err(e)
                && e is NotFound)
            &&& spec_find_task(old(store)@.tasks, task_id) matches Some(t0) ==> {
                &&& !spec_may_read(old(store)@, user.user@, t0.project_id) ==> (r matches Err(e)
                    && e is Unauthorized)
                &&& spec_may_read(old(store)@, user.user@, t0.project_id) ==> (r matches Ok(m) && {
                    let label_ids = spec_task_label_rows(
                        old(store)@.task_labels,
                        old(store)@.labels,
                        task_id,
                    ).map_values(|l: LabelView| l.id);
                    &&& m.id == t0.id
                    &&& m.title@ == t0.title
                    &&& m.project_id == t0.project_id
                    &&& m.column_id == t0.column_id
                    &&& m.assignee_id == t0.assignee_id
                    &&& m.creator_id == t0.creator_id
                    &&& m.deadline == t0.deadline
                    &&& m.estimation == t0.estimation
                    &&& m.state_id == t0.state_id
                    &&& m.parent_id == t0.parent_id
                    &&& m.task_type == t0.task_type
                    &&& m.labels matches Some(ls) && ls@ == label_ids
                })
            }
        }),
{
    match handle_token_update(store, &user.user, user.token.as_str(), user_agent, ip_addr) {
        Ok(()) => (),
        Err(e) => {
            return Err(e);
        },
    }
    let found = match get_task(store, task_id) {
        Ok(o) => o,
        Err(e) => {
            return Err(e);
        },
    };
    let task = match found {
        Some(t) => t,
        None => {
            return Err(not_found("task not found"));
        },
    };
    let allowed = if user.user.is_admin {
        true
    } else {
        match get_project_permission(store, user.user.id, task.project_id) {
            Ok(perm) => perm.satisfies(&Permissions::Reader),
            Err(e) => {
                return Err(e);
            },
        }
    };
    if allowed {
        let rows = match get_task_labels(store, task_id) {
            Ok(v) => v,
            Err(e) => {
                return Err(e);
            },
        };
        let label_ids = ids_of_labels(&rows);
        let mut rmsg = TaskMessage::from_model(task);
        rmsg.labels = Some(label_ids);
        Ok(rmsg)
    } else {
        Err(unauthorized("You cannot do that"))
    }
}

} // verus!
