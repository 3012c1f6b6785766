//! The data store: one in-memory table per entity, insertion-ordered as the
//! rows were created, with the exact contract of every operation the services
//! perform on it. Fresh identifiers come from a store-wide counter.

use vstd::prelude::*;
use crate::error::{db_error, AppError};
use crate::models::{
    LabelModel, LabelView, ProjectColumnModel, ProjectColumnView, ProjectModel, ProjectView,
    StateModel, StateView, TaskModel, TaskView, UserModel, UserSessionModel, UserSessionView,
    UserView,
};
use crate::permissions::Permissions;
use crate::util::{page_slice, spec_page_items, spec_page_total, Pagination};

verus! {

/// An explicit (user, project) permission record, consulted when neither the
/// admin flag nor an intrinsic rule decides.
#[derive(Clone, Copy, Debug, PartialEq, Eq, Structural)]
pub struct PermissionGrant {
    pub user_id: u128,
    pub project_id: u128,
    pub perm: Permissions,
}

/// One label attached to one task.
#[derive(Clone, Copy, Debug, PartialEq, Eq, Structural)]
pub struct TaskLabel {
    pub task_id: u128,
    pub label_id: u128,
}

/// Abstract value of a [`Store`].
#[verifier::ext_equal]
pub struct StoreView {
    pub users: Seq<UserView>,
    pub sessions: Seq<UserSessionView>,
    pub projects: Seq<ProjectView>,
    pub grants: Seq<PermissionGrant>,
    pub columns: Seq<ProjectColumnView>,
    pub labels: Seq<LabelView>,
    pub states: Seq<StateView>,
    pub tasks: Seq<TaskView>,
    pub task_labels: Seq<TaskLabel>,
    pub next_id: u128,
}

/// The tables behind the services.
#[derive(Debug)]
pub struct Store {
    pub users: Vec<UserModel>,
    pub sessions: Vec<UserSessionModel>,
    pub projects: Vec<ProjectModel>,
    pub grants: Vec<PermissionGrant>,
    pub columns: Vec<ProjectColumnModel>,
    pub labels: Vec<LabelModel>,
    pub states: Vec<StateModel>,
    pub tasks: Vec<TaskModel>,
    pub task_labels: Vec<TaskLabel>,
    pub next_id: u128,
}

impl View for Store {
    type V = StoreView;

    open spec fn view(&self) -> StoreView {
        StoreView {
            users: self.users.deep_view(),
            sessions: self.sessions.deep_view(),
            projects: self.projects.deep_view(),
            grants: self.grants@,
            columns: self.columns.deep_view(),
            labels: self.labels.deep_view(),
            states: self.states.deep_view(),
            tasks: self.tasks.deep_view(),
            task_labels: self.task_labels@,
            next_id: self.next_id,
        }
    }
}

impl Store {
    /// Whether the identifier counter can still mint a fresh identifier.
    pub open spec fn spec_can_mint(self) -> bool {
        self@.next_id < u128::MAX
    }

    /// An empty store; identifiers start at 1, leaving 0 for the placeholder
    /// creation messages carry.
    pub fn new() -> (r: Self)
        ensures
            r@ == (StoreView {
                users: Seq::empty(),
                sessions: Seq::empty(),
                projects: Seq::empty(),
                grants: Seq::empty(),
                columns: Seq::empty(),
                labels: Seq::empty(),
                states: Seq::empty(),
                tasks: Seq::empty(),
                task_labels: Seq::empty(),
                next_id: 1,
            }),
    {
        let r = Store {
            users: Vec::new(),
            sessions: Vec::new(),
            projects: Vec::new(),
            grants: Vec::new(),
            columns: Vec::new(),
            labels: Vec::new(),
            states: Vec::new(),
            tasks: Vec::new(),
            task_labels: Vec::new(),
            next_id: 1,
        };
        proof {
            assert(r@ =~= (StoreView {
                users: Seq::empty(),
                sessions: Seq::empty(),
                projects: Seq::empty(),
                grants: Seq::empty(),
                columns: Seq::empty(),
                labels: Seq::empty(),
                states: Seq::empty(),
                tasks: Seq::empty(),
                task_labels: Seq::empty(),
                next_id: 1,
            }));
        }
        r
    }
}

impl Default for Store {
    fn default() -> (r: Self)
        ensures
            r@.users.len() == 0 && r@.sessions.len() == 0 && r@.projects.len() == 0
                && r@.grants.len() == 0 && r@.columns.len() == 0 && r@.labels.len() == 0
                && r@.states.len() == 0 && r@.tasks.len() == 0 && r@.task_labels.len() == 0
                && r@.next_id == 1,
    {
        Store::new()
    }
}

/// The first user whose identifier matches, in table order.
pub open spec fn spec_find_user_by_id(users: Seq<UserView>, id: u128) -> Option<UserView>
    decreases users.len(),
{
    if users.len() == 0 {
        None
    } else if users[0].id == id {
        Some(users[0])
    } else {
        spec_find_user_by_id(users.drop_first(), id)
    }
}

/// The first user whose username matches, in table order.
pub open spec fn spec_find_user_by_name(users: Seq<UserView>, name: Seq<char>) -> Option<UserView>
    decreases users.len(),
{
    if users.len() == 0 {
        None
    } else if users[0].username == name {
        Some(users[0])
    } else {
        spec_find_user_by_name(users.drop_first(), name)
    }
}

/// The first session whose token matches, in table order.
pub open spec fn spec_find_session(sessions: Seq<UserSessionView>, token: Seq<char>) -> Option<
    UserSessionView,
>
    decreases sessions.len(),
{
    if sessions.len() == 0 {
        None
    } else if sessions[0].token == token {
        Some(sessions[0])
    } else {
        spec_find_session(sessions.drop_first(), token)
    }
}

/// The first project whose identifier matches, in table order.
pub open spec fn spec_find_project(projects: Seq<ProjectView>, id: u128) -> Option<ProjectView>
    decreases projects.len(),
{
    if projects.len() == 0 {
        None
    } else if projects[0].id == id {
        Some(projects[0])
    } else {
        spec_find_project(projects.drop_first(), id)
    }
}

/// The first grant for the given user and project, in table order.
pub open spec fn spec_find_grant(grants: Seq<PermissionGrant>, user_id: u128, project_id: u128) -> Option<
    PermissionGrant,
>
    decreases grants.len(),
{
    if grants.len() == 0 {
        None
    } else if grants[0].user_id == user_id && grants[0].project_id == project_id {
        Some(grants[0])
    } else {
        spec_find_grant(grants.drop_first(), user_id, project_id)
    }
}

/// The first column whose identifier matches, in table order.
pub open spec fn spec_find_column(columns: Seq<ProjectColumnView>, id: u128) -> Option<
    ProjectColumnView,
>
    decreases columns.len(),
{
    if columns.len() == 0 {
        None
    } else if columns[0].id == id {
        Some(columns[0])
    } else {
        spec_find_column(columns.drop_first(), id)
    }
}

/// The first label whose identifier matches, in table order.
pub open spec fn spec_find_label(labels: Seq<LabelView>, id: u128) -> Option<LabelView>
    decreases labels.len(),
{
    if labels.len() == 0 {
        None
    } else if labels[0].id == id {
        Some(labels[0])
    } else {
        spec_find_label(labels.drop_first(), id)
    }
}

/// The first state whose identifier matches, in table order.
pub open spec fn spec_find_state(states: Seq<StateView>, id: u128) -> Option<StateView>
    decreases states.len(),
{
    if states.len() == 0 {
        None
    } else if states[0].id == id {
        Some(states[0])
    } else {
        spec_find_state(states.drop_first(), id)
    }
}

/// The first task whose identifier matches, in table order.
pub open spec fn spec_find_task(tasks: Seq<TaskView>, id: u128) -> Option<TaskView>
    decreases tasks.len(),
{
    if tasks.len() == 0 {
        None
    } else if tasks[0].id == id {
        Some(tasks[0])
    } else {
        spec_find_task(tasks.drop_first(), id)
    }
}

/// The user a bearer token resolves to: the token's session joined to the
/// session's user.
pub open spec fn spec_user_from_session(s: StoreView, token: Seq<char>) -> Option<UserView> {
    match spec_find_session(s.sessions, token) {
        Some(sess) => spec_find_user_by_id(s.users, sess.user_id),
        None => None,
    }
}

/// Stores a fresh account. The store stands in for the database here: a taken
/// username violates the table's uniqueness constraint and surfaces as a
/// database error; otherwise the account is appended with a fresh identifier,
/// written back into `user`.
pub fn create_user(store: &mut Store, user: &mut UserModel) -> (r: Result<(), AppError>)
    requires
        old(store).spec_can_mint(),
    ensures
        r is Ok <==> spec_find_user_by_name(old(store)@.users, old(user).username@) is None,
        r matches Err(e) ==> e is DBError && *final(user) == *old(user) && final(store)@ == old(
            store,
        )@,
        r is Ok ==> final(user)@ == (UserView {
            id: old(store)@.next_id,
            username: old(user)@.username,
            password_hash: old(user)@.password_hash,
            is_admin: old(user)@.is_admin,
        }) && final(store)@ == (StoreView {
            users: old(store)@.users.push(final(user)@),
            next_id: (old(store)@.next_id + 1) as u128,
            ..old(store)@
        }),
{
    let taken = match get_user_by_name(store, user.username.as_str()) {
        Ok(o) => o.is_some(),
        Err(e) => {
            return Err(e);
        },
    };
    if taken {
        return Err(db_error("users.username: unique constraint violated"));
    }
    user.id = store.next_id;
    store.next_id = store.next_id + 1;
    store.users.push(user.clone());
    proof {
        assert(user@ =~= (UserView {
            id: old(store)@.next_id,
            username: old(user)@.username,
            password_hash: old(user)@.password_hash,
            is_admin: old(user)@.is_admin,
        }));
        assert(store@ =~= (StoreView {
            users: old(store)@.users.push(user@),
            next_id: (old(store)@.next_id + 1) as u128,
            ..old(store)@
        }));
    }
    Ok(())
}

/// The stored user row after an update writes `v` over it: every column but
/// the identifier is overwritten; any other row is untouched.
pub open spec fn spec_user_row_updated(u: UserView, v: UserView) -> UserView {
    if u.id == v.id {
        UserView {
            id: u.id,
            username: v.username,
            password_hash: v.password_hash,
            is_admin: v.is_admin,
        }
    } else {
        u
    }
}

/// The user table after `v` is written over every row with its identifier.
pub open spec fn spec_users_updated(users: Seq<UserView>, v: UserView) -> Seq<UserView> {
    users.map_values(|u: UserView| spec_user_row_updated(u, v))
}

/// Writes a user's username, credential and admin flag back over every row
/// with its identifier.
pub fn update_user(store: &mut Store, user: &UserModel) -> (r: Result<(), AppError>)
    ensures
        r is Ok,
        final(store)@ == (StoreView {
            users: spec_users_updated(old(store)@.users, user@),
            ..old(store)@
        }),
{
    let ghost old_users = store@.users;
    let n = store.users.len();
    let mut i: usize = 0;
    while i < n
        invariant
            n == store.users@.len(),
            i <= n,
            store@.users.len() == n,
            old_users.len() == n,
            forall|j: int|
                0 <= j < i ==> store@.users[j] == spec_user_row_updated(old_users[j], user@),
            forall|j: int| i <= j < n ==> store@.users[j] == old_users[j],
            store@ == (StoreView { users: store@.users, ..old(store)@ }),
            old_users == old(store)@.users,
        decreases n - i,
    {
        let ghost pre = store@.users;
        let ghost pre_v = store.users@;
        proof {
            assert(pre[i as int] == pre_v[i as int]@);
        }
        if store.users[i].id == user.id {
            let row = user.clone();
            proof {
                assert(row@ =~= spec_user_row_updated(old_users[i as int], user@));
            }
            store.users[i] = row;
            proof {
                assert(store.users@ == pre_v.update(i as int, row));
                assert forall|j: int| 0 <= j < n implies #[trigger] store@.users[j] == (if j
                    == i {
                    row@
                } else {
                    pre[j]
                }) by {
                    assert(store@.users[j] == store.users@[j]@);
                    if j != i {
                        assert(store.users@[j] == pre_v[j]);
                        assert(pre[j] == pre_v[j]@);
                    }
                }
            }
        }
        i += 1;
    }
    proof {
        assert(store@.users =~= spec_users_updated(old_users, user@));
        assert(store@ =~= (StoreView {
            users: spec_users_updated(old(store)@.users, user@),
            ..old(store)@
        }));
    }
    Ok(())
}

/// Lists a page of the users, in creation order, with the reported total.
pub fn get_users(store: &Store, pag: Pagination) -> (r: Result<(i64, Vec<UserModel>), AppError>)
    requires
        pag.spec_valid(),
        store@.users.len() <= i64::MAX,
    ensures
        r matches Ok(p) && p.1.deep_view() == spec_page_items(store@.users, pag) && p.0
            == spec_page_total(store@.users, pag),
{
    let mut all: Vec<UserModel> = Vec::new();
    let n = store.users.len();
    let mut i: usize = 0;
    proof {
        assert(all.deep_view() =~= store@.users.take(0int));
    }
    while i < n
        invariant
            n == store.users@.len(),
            i <= n,
            all.deep_view() == store@.users.take(i as int),
        decreases n - i,
    {
        let ghost prev_deep = all.deep_view();
        let c = store.users[i].clone();
        proof {
            assert(c.deep_view() == store@.users[i as int]);
        }
        all.push(c);
        proof {
            assert(all.deep_view() =~= prev_deep.push(store@.users[i as int]));
            assert(all.deep_view() =~= store@.users.take((i + 1) as int));
        }
        i += 1;
    }
    proof {
        assert(all.deep_view() =~= store@.users);
        assert(all@.len() == all.deep_view().len());
    }
    let items = page_slice(all, &pag);
    let total: i64 = if items.is_empty() {
        0
    } else {
        store.users.len() as i64
    };
    proof {
        assert(items.deep_view() =~= spec_page_items(store@.users, pag));
        assert(items@.len() == items.deep_view().len());
    }
    Ok((total, items))
}

/// Resolves a bearer token: the token's session joined to its user; no match
/// is `None`, not an error.
pub fn get_user_from_session(store: &Store, session_token: &str) -> (r: Result<
    Option<UserModel>,
    AppError,
>)
    ensures
        r matches Ok(o) && o.deep_view() == spec_user_from_session(store@, session_token@),
{
    let ghost sessions_v = store@.sessions;
    let needle: String = session_token.to_owned();
    let n = store.sessions.len();
    let mut i: usize = 0;
    proof {
        assert(sessions_v.skip(0int) =~= sessions_v);
    }
    while i < n
        invariant
            n == store.sessions@.len(),
            i <= n,
            sessions_v == store@.sessions,
            needle@ == session_token@,
            spec_find_session(sessions_v.skip(i as int), session_token@) == spec_find_session(
                sessions_v,
                session_token@,
            ),
        decreases n - i,
    {
        proof {
            assert(sessions_v.skip(i as int)[0] == sessions_v[i as int]);
        }
        if store.sessions[i].token == needle {
            let user_id = store.sessions[i].user_id;
            return match get_user_by_id(store, user_id) {
                Ok(o) => Ok(o),
                Err(e) => Err(e),
            };
        }
        proof {
            assert(sessions_v.skip(i as int).drop_first() =~= sessions_v.skip((i + 1) as int));
        }
        i += 1;
    }
    proof {
        assert(sessions_v.skip(n as int) =~= Seq::<UserSessionView>::empty());
    }
    Ok(None)
}

/// Looks a user up by exact username; no match is `None`, not an error.
pub fn get_user_by_name(store: &Store, username: &str) -> (r: Result<Option<UserModel>, AppError>)
    ensures
        r matches Ok(o) && o.deep_view() == spec_find_user_by_name(store@.users, username@),
{
    let ghost users_v = store@.users;
    let needle: String = username.to_owned();
    let n = store.users.len();
    let mut i: usize = 0;
    proof {
        assert(users_v.skip(0int) =~= users_v);
    }
    while i < n
        invariant
            n == store.users@.len(),
            i <= n,
            users_v == store@.users,
            needle@ == username@,
            spec_find_user_by_name(users_v.skip(i as int), username@) == spec_find_user_by_name(
                users_v,
                username@,
            ),
        decreases n - i,
    {
        proof {
            assert(users_v.skip(i as int)[0] == users_v[i as int]);
        }
        if store.users[i].username == needle {
            return Ok(Some(store.users[i].clone()));
        }
        proof {
            assert(users_v.skip(i as int).drop_first() =~= users_v.skip((i + 1) as int));
        }
        i += 1;
    }
    proof {
        assert(users_v.skip(n as int) =~= Seq::<UserView>::empty());
    }
    Ok(None)
}

/// Looks a user up by identifier; no match is `None`, not an error.
pub fn get_user_by_id(store: &Store, id: u128) -> (r: Result<Option<UserModel>, AppError>)
    ensures
        r matches Ok(o) && o.deep_view() == spec_find_user_by_id(store@.users, id),
{
    let ghost users_v = store@.users;
    let n = store.users.len();
    let mut i: usize = 0;
    proof {
        assert(users_v.skip(0int) =~= users_v);
    }
    while i < n
        invariant
            n == store.users@.len(),
            i <= n,
            users_v == store@.users,
            spec_find_user_by_id(users_v.skip(i as int), id) == spec_find_user_by_id(users_v, id),
        decreases n - i,
    {
        proof {
            assert(users_v.skip(i as int)[0] == users_v[i as int]);
        }
        if store.users[i].id == id {
            return Ok(Some(store.users[i].clone()));
        }
        proof {
            assert(users_v.skip(i as int).drop_first() =~= users_v.skip((i + 1) as int));
        }
        i += 1;
    }
    proof {
        assert(users_v.skip(n as int) =~= Seq::<UserView>::empty());
    }
    Ok(None)
}

/// Appends a fresh session. No uniqueness check is made: the token carries
/// enough entropy that a collision is not worth a round trip.
pub fn create_user_session(store: &mut Store, session: UserSessionModel) -> (r: Result<
    (),
    AppError,
>)
    ensures
        r is Ok,
        final(store)@ == (StoreView {
            sessions: old(store)@.sessions.push(session@),
            ..old(store)@
        }),
{
    let ghost sv = session@;
    store.sessions.push(session);
    proof {
        assert(store@.sessions =~= old(store)@.sessions.push(sv));
        assert(store@ =~= (StoreView { sessions: old(store)@.sessions.push(sv), ..old(store)@ }));
    }
    Ok(())
}

/// The stored session row after a metadata refresh for `v`'s token: the
/// user-agent and address are overwritten, the token and user kept; any other
/// row is untouched.
pub open spec fn spec_session_row_touched(
    s: UserSessionView,
    v: UserSessionView,
) -> UserSessionView {
    if s.token == v.token {
        UserSessionView {
            token: s.token,
            user_agent: v.user_agent,
            ip_addr: v.ip_addr,
            user_id: s.user_id,
        }
    } else {
        s
    }
}

/// The session table after a metadata refresh for `v`'s token.
pub open spec fn spec_sessions_touched(
    sessions: Seq<UserSessionView>,
    v: UserSessionView,
) -> Seq<UserSessionView> {
    sessions.map_values(|s: UserSessionView| spec_session_row_touched(s, v))
}

/// Refreshes the client metadata of every session carrying the given token;
/// the bound user never changes.
pub fn update_user_session(store: &mut Store, session: UserSessionModel) -> (r: Result<
    (),
    AppError,
>)
    ensures
        r is Ok,
        final(store)@ == (StoreView {
            sessions: spec_sessions_touched(old(store)@.sessions, session@),
            ..old(store)@
        }),
{
    let ghost old_sessions = store@.sessions;
    let ghost sv = session@;
    let n = store.sessions.len();
    let mut i: usize = 0;
    while i < n
        invariant
            n == store.sessions@.len(),
            i <= n,
            store@.sessions.len() == n,
            old_sessions.len() == n,
            forall|j: int|
                0 <= j < i ==> store@.sessions[j] == spec_session_row_touched(old_sessions[j], sv),
            forall|j: int| i <= j < n ==> store@.sessions[j] == old_sessions[j],
            store@ == (StoreView { sessions: store@.sessions, ..old(store)@ }),
            old_sessions == old(store)@.sessions,
            sv == session@,
        decreases n - i,
    {
        let ghost pre = store@.sessions;
        let ghost pre_v = store.sessions@;
        proof {
            assert(pre[i as int] == pre_v[i as int]@);
        }
        if store.sessions[i].token == session.token {
            let row = UserSessionModel {
                token: store.sessions[i].token.clone(),
                user_agent: session.user_agent.clone(),
                ip_addr: session.ip_addr.clone(),
                user_id: store.sessions[i].user_id,
            };
            proof {
                assert(row@ =~= spec_session_row_touched(old_sessions[i as int], sv));
            }
            store.sessions[i] = row;
            proof {
                assert(store.sessions@ == pre_v.update(i as int, row));
                assert forall|j: int| 0 <= j < n implies #[trigger] store@.sessions[j] == (if j
                    == i {
                    row@
                } else {
                    pre[j]
                }) by {
                    assert(store@.sessions[j] == store.sessions@[j]@);
                    if j != i {
                        assert(store.sessions@[j] == pre_v[j]);
                        assert(pre[j] == pre_v[j]@);
                    }
                }
            }
        }
        i += 1;
    }
    proof {
        assert(store@.sessions =~= spec_sessions_touched(old_sessions, sv));
        assert(store@ =~= (StoreView {
            sessions: spec_sessions_touched(old(store)@.sessions, session@),
            ..old(store)@
        }));
    }
    Ok(())
}

/// Whether no user holds the given username yet.
pub fn check_username_available(store: &Store, username: &str) -> (r: Result<bool, AppError>)
    ensures
        r matches Ok(b) && b == (spec_find_user_by_name(store@.users, username@) is None),
{
    match get_user_by_name(store, username) {
        Ok(o) => Ok(o.is_none()),
        Err(e) => Err(e),
    }
}

/// Keeps the users that do not carry the given identifier.
pub open spec fn user_keep(id: u128) -> spec_fn(UserView) -> bool {
    |u: UserView| u.id != id
}

/// The user table without the rows of the given identifier.
pub open spec fn spec_users_without(users: Seq<UserView>, id: u128) -> Seq<UserView> {
    users.filter(user_keep(id))
}

/// Removes every user with the given identifier.
pub fn delete_user(store: &mut Store, id: u128) -> (r: Result<(), AppError>)
    ensures
        r is Ok,
        final(store)@ == (StoreView {
            users: spec_users_without(old(store)@.users, id),
            ..old(store)@
        }),
{
    let ghost old_users = store@.users;
    let mut kept: Vec<UserModel> = Vec::new();
    let n = store.users.len();
    let mut i: usize = 0;
    proof {
        reveal(Seq::filter);
        assert(old_users.take(0int) =~= Seq::<UserView>::empty());
        assert(kept.deep_view() =~= spec_users_without(old_users.take(0int), id));
    }
    while i < n
        invariant
            n == store.users@.len(),
            i <= n,
            old_users == store@.users,
            kept.deep_view() == spec_users_without(old_users.take(i as int), id),
        decreases n - i,
    {
        proof {
            assert(old_users.take((i + 1) as int) =~= old_users.take(i as int).push(
                old_users[i as int],
            ));
            assert(old_users[i as int] == store.users@[i as int]@);
            old_users.take(i as int).lemma_filter_push(old_users[i as int], user_keep(id));
            assert(user_keep(id)(old_users[i as int]) == (old_users[i as int].id != id));
            assert(spec_users_without(old_users.take((i + 1) as int), id) == (
            if old_users[i as int].id != id {
                spec_users_without(old_users.take(i as int), id).push(old_users[i as int])
            } else {
                spec_users_without(old_users.take(i as int), id)
            }));
        }
        let ghost kprev = kept@;
        let ghost kprev_deep = kept.deep_view();
        if store.users[i].id != id {
            let c = store.users[i].clone();
            proof {
                assert(c.deep_view() == old_users[i as int]);
            }
            kept.push(c);
            proof {
                assert(kept.deep_view() =~= kprev_deep.push(old_users[i as int]));
            }
        }
        i += 1;
    }
    proof {
        assert(old_users.take(n as int) =~= old_users);
    }
    store.users = kept;
    proof {
        assert(store@ =~= (StoreView {
            users: spec_users_without(old(store)@.users, id),
            ..old(store)@
        }));
    }
    Ok(())
}


/// Appends a fresh project with a fresh identifier, written back into `proj`.
pub fn create_project(store: &mut Store, proj: &mut ProjectModel) -> (r: Result<(), AppError>)
    requires
        old(store).spec_can_mint(),
    ensures
        r is Ok,
        final(proj)@ == (ProjectView {
            id: old(store)@.next_id,
            name: old(proj)@.name,
            public: old(proj)@.public,
            owner_id: old(proj)@.owner_id,
        }),
        final(store)@ == (StoreView {
            projects: old(store)@.projects.push(final(proj)@),
            next_id: (old(store)@.next_id + 1) as u128,
            ..old(store)@
        }),
{
    proj.id = store.next_id;
    store.next_id = store.next_id + 1;
    store.projects.push(proj.clone());
    proof {
        assert(proj@ =~= (ProjectView {
            id: old(store)@.next_id,
            name: old(proj)@.name,
            public: old(proj)@.public,
            owner_id: old(proj)@.owner_id,
        }));
        assert(store@ =~= (StoreView {
            projects: old(store)@.projects.push(proj@),
            next_id: (old(store)@.next_id + 1) as u128,
            ..old(store)@
        }));
    }
    Ok(())
}

/// Looks a project up by identifier; no match is `None`, not an error.
pub fn get_project(store: &Store, id: u128) -> (r: Result<Option<ProjectModel>, AppError>)
    ensures
        r matches Ok(o) && o.deep_view() == spec_find_project(store@.projects, id),
{
    let ghost projects_v = store@.projects;
    let n = store.projects.len();
    let mut i: usize = 0;
    proof {
        assert(projects_v.skip(0int) =~= projects_v);
    }
    while i < n
        invariant
            n == store.projects@.len(),
            i <= n,
            projects_v == store@.projects,
            spec_find_project(projects_v.skip(i as int), id) == spec_find_project(projects_v, id),
        decreases n - i,
    {
        proof {
            assert(projects_v.skip(i as int)[0] == projects_v[i as int]);
        }
        if store.projects[i].id == id {
            return Ok(Some(store.projects[i].clone()));
        }
        proof {
            assert(projects_v.skip(i as int).drop_first() =~= projects_v.skip((i + 1) as int));
        }
        i += 1;
    }
    proof {
        assert(projects_v.skip(n as int) =~= Seq::<ProjectView>::empty());
    }
    Ok(None)
}

/// Keeps the projects a user may see in a listing: the user's own and the
/// public ones.
pub open spec fn project_visible(owner_id: u128) -> spec_fn(ProjectView) -> bool {
    |p: ProjectView| p.owner_id == owner_id || p.public
}

/// The projects a listing shows a user, in creation order.
pub open spec fn spec_visible_projects(projects: Seq<ProjectView>, owner_id: u128) -> Seq<
    ProjectView,
> {
    projects.filter(project_visible(owner_id))
}

/// Lists a page of the projects the user owns or that are public, with the
/// reported total of all such projects.
pub fn get_projects(store: &Store, owner_id: u128, pag: Pagination) -> (r: Result<
    (i64, Vec<ProjectModel>),
    AppError,
>)
    requires
        pag.spec_valid(),
        store@.projects.len() <= i64::MAX,
    ensures
        r matches Ok(p) && p.1.deep_view() == spec_page_items(
            spec_visible_projects(store@.projects, owner_id),
            pag,
        ) && p.0 == spec_page_total(spec_visible_projects(store@.projects, owner_id), pag),
{
    let ghost all_v = store@.projects;
    let mut visible: Vec<ProjectModel> = Vec::new();
    let n = store.projects.len();
    let mut i: usize = 0;
    proof {
        reveal(Seq::filter);
        assert(all_v.take(0int) =~= Seq::<ProjectView>::empty());
        assert(visible.deep_view() =~= spec_visible_projects(all_v.take(0int), owner_id));
    }
    while i < n
        invariant
            n == store.projects@.len(),
            i <= n,
            all_v == store@.projects,
            visible.deep_view() == spec_visible_projects(all_v.take(i as int), owner_id),
        decreases n - i,
    {
        proof {
            assert(all_v.take((i + 1) as int) =~= all_v.take(i as int).push(all_v[i as int]));
            assert(all_v[i as int] == store.projects@[i as int]@);
            all_v.take(i as int).lemma_filter_push(all_v[i as int], project_visible(owner_id));
            assert(project_visible(owner_id)(all_v[i as int]) == (all_v[i as int].owner_id
                == owner_id || all_v[i as int].public));
        }
        let ghost vprev_deep = visible.deep_view();
        if store.projects[i].owner_id == owner_id || store.projects[i].public {
            let c = store.projects[i].clone();
            proof {
                assert(c.deep_view() == all_v[i as int]);
            }
            visible.push(c);
            proof {
                assert(visible.deep_view() =~= vprev_deep.push(all_v[i as int]));
            }
        }
        i += 1;
    }
    proof {
        assert(all_v.take(n as int) =~= all_v);
        broadcast use vstd::seq_lib::group_filter_ensures;

        assert(spec_visible_projects(all_v, owner_id).len() <= all_v.len());
        assert(visible@.len() == visible.deep_view().len());
    }
    let ghost vis_v = visible.deep_view();
    let total_rows = visible.len();
    let items = page_slice(visible, &pag);
    let total: i64 = if items.is_empty() {
        0
    } else {
        total_rows as i64
    };
    proof {
        assert(items.deep_view() =~= spec_page_items(vis_v, pag));
        assert(items@.len() == items.deep_view().len());
    }
    Ok((total, items))
}

/// Lists a page of all projects, in creation order, with the reported total.
pub fn list_projects(store: &Store, pag: Pagination) -> (r: Result<
    (i64, Vec<ProjectModel>),
    AppError,
>)
    requires
        pag.spec_valid(),
        store@.projects.len() <= i64::MAX,
    ensures
        r matches Ok(p) && p.1.deep_view() == spec_page_items(store@.projects, pag) && p.0
            == spec_page_total(store@.projects, pag),
{
    let mut all: Vec<ProjectModel> = Vec::new();
    let n = store.projects.len();
    let mut i: usize = 0;
    proof {
        assert(all.deep_view() =~= store@.projects.take(0int));
    }
    while i < n
        invariant
            n == store.projects@.len(),
            i <= n,
            all.deep_view() == store@.projects.take(i as int),
        decreases n - i,
    {
        let ghost prev_deep = all.deep_view();
        let c = store.projects[i].clone();
        proof {
            assert(c.deep_view() == store@.projects[i as int]);
        }
        all.push(c);
        proof {
            assert(all.deep_view() =~= prev_deep.push(store@.projects[i as int]));
            assert(all.deep_view() =~= store@.projects.take((i + 1) as int));
        }
        i += 1;
    }
    proof {
        assert(all.deep_view() =~= store@.projects);
        assert(all@.len() == all.deep_view().len());
    }
    let items = page_slice(all, &pag);
    let total: i64 = if items.is_empty() {
        0
    } else {
        store.projects.len() as i64
    };
    proof {
        assert(items.deep_view() =~= spec_page_items(store@.projects, pag));
        assert(items@.len() == items.deep_view().len());
    }
    Ok((total, items))
}

/// The stored project row after an update writes `v` over it: name,
/// visibility and owner are overwritten; any other row is untouched.
pub open spec fn spec_project_row_updated(p: ProjectView, v: ProjectView) -> ProjectView {
    if p.id == v.id {
        ProjectView { id: p.id, name: v.name, public: v.public, owner_id: v.owner_id }
    } else {
        p
    }
}

/// The project table after `v` is written over every row with its identifier.
pub open spec fn spec_projects_updated(projects: Seq<ProjectView>, v: ProjectView) -> Seq<
    ProjectView,
> {
    projects.map_values(|p: ProjectView| spec_project_row_updated(p, v))
}

/// Writes a project's name, visibility and owner back over every row with its
/// identifier.
pub fn update_project(store: &mut Store, proj: &mut ProjectModel) -> (r: Result<(), AppError>)
    ensures
        r is Ok,
        *final(proj) == *old(proj),
        final(store)@ == (StoreView {
            projects: spec_projects_updated(old(store)@.projects, old(proj)@),
            ..old(store)@
        }),
{
    let ghost old_projects = store@.projects;
    let n = store.projects.len();
    let mut i: usize = 0;
    while i < n
        invariant
            n == store.projects@.len(),
            i <= n,
            store@.projects.len() == n,
            old_projects.len() == n,
            forall|j: int|
                0 <= j < i ==> store@.projects[j] == spec_project_row_updated(
                    old_projects[j],
                    proj@,
                ),
            forall|j: int| i <= j < n ==> store@.projects[j] == old_projects[j],
            store@ == (StoreView { projects: store@.projects, ..old(store)@ }),
            old_projects == old(store)@.projects,
            *proj == *old(proj),
        decreases n - i,
    {
        let ghost pre = store@.projects;
        let ghost pre_v = store.projects@;
        proof {
            assert(pre[i as int] == pre_v[i as int]@);
        }
        if store.projects[i].id == proj.id {
            let row = proj.clone();
            proof {
                assert(row@ =~= spec_project_row_updated(old_projects[i as int], proj@));
            }
            store.projects[i] = row;
            proof {
                assert(store.projects@ == pre_v.update(i as int, row));
                assert forall|j: int| 0 <= j < n implies #[trigger] store@.projects[j] == (if j
                    == i {
                    row@
                } else {
                    pre[j]
                }) by {
                    assert(store@.projects[j] == store.projects@[j]@);
                    if j != i {
                        assert(store.projects@[j] == pre_v[j]);
                        assert(pre[j] == pre_v[j]@);
                    }
                }
            }
        }
        i += 1;
    }
    proof {
        assert(store@.projects =~= spec_projects_updated(old_projects, proj@));
        assert(store@ =~= (StoreView {
            projects: spec_projects_updated(old(store)@.projects, old(proj)@),
            ..old(store)@
        }));
    }
    Ok(())
}

/// The permission the grants table yields for a user on a project, after the
/// owner rule: the owner of an existing project is its `Owner`; otherwise the
/// stored grant decides; no grant, or no such project, is `NoAccess`.
pub open spec fn spec_project_permission(s: StoreView, user_id: u128, project_id: u128) -> Permissions {
    match spec_find_project(s.projects, project_id) {
        Some(p) => if p.owner_id == user_id {
            Permissions::Owner
        } else {
            match spec_find_grant(s.grants, user_id, project_id) {
                Some(g) => g.perm,
                None => Permissions::NoAccess,
            }
        },
        None => Permissions::NoAccess,
    }
}

/// Resolves the stored permission of a user on a project: ownership first,
/// then the explicit grant, defaulting to `NoAccess`.
#[verifier::loop_isolation(false)]
pub fn get_project_permission(store: &Store, user_id: u128, project_id: u128) -> (r: Result<
    Permissions,
    AppError,
>)
    ensures
        r matches Ok(perm) && perm == spec_project_permission(store@, user_id, project_id),
{
    let proj = match get_project(store, project_id) {
        Ok(o) => o,
        Err(e) => {
            return Err(e);
        },
    };
    match proj {
        None => Ok(Permissions::NoAccess),
        Some(p) => {
            proof {
                assert(spec_find_project(store@.projects, project_id) == Some(p@));
            }
            if p.owner_id == user_id {
                Ok(Permissions::Owner)
            } else {
                let ghost grants_v = store@.grants;
                let n = store.grants.len();
                let mut i: usize = 0;
                proof {
                    assert(grants_v.skip(0int) =~= grants_v);
                }
                while i < n
                    invariant
                        n == store.grants@.len(),
                        i <= n,
                        grants_v == store@.grants,
                        spec_find_grant(grants_v.skip(i as int), user_id, project_id)
                            == spec_find_grant(grants_v, user_id, project_id),
                    decreases n - i,
                {
                    proof {
                        assert(grants_v.skip(i as int)[0] == grants_v[i as int]);
                    }
                    if store.grants[i].user_id == user_id && store.grants[i].project_id
                        == project_id {
                        proof {
                            assert(spec_find_grant(grants_v, user_id, project_id) == Some(
                                grants_v[i as int],
                            ));
                            assert(spec_find_project(store@.projects, project_id) == Some(p@));
                            assert(p@.owner_id != user_id);
                            assert(spec_find_grant(store@.grants, user_id, project_id) == Some(
                                grants_v[i as int],
                            ));
                            assert(spec_project_permission(store@, user_id, project_id)
                                == grants_v[i as int].perm);
                        }
                        return Ok(store.grants[i].perm);
                    }
                    proof {
                        assert(grants_v.skip(i as int).drop_first() =~= grants_v.skip(
                            (i + 1) as int,
                        ));
                    }
                    i += 1;
                }
                proof {
                    assert(grants_v.skip(n as int) =~= Seq::<PermissionGrant>::empty());
                }
                Ok(Permissions::NoAccess)
            }
        },
    }
}

/// Records an explicit permission grant for a collaborator on a project.
pub fn grant_project_permission(store: &mut Store, user_id: u128, project_id: u128, perm: Permissions) -> (r: Result<
    (),
    AppError,
>)
    ensures
        r is Ok,
        final(store)@ == (StoreView {
            grants: old(store)@.grants.push(
                PermissionGrant { user_id, project_id, perm },
            ),
            ..old(store)@
        }),
{
    store.grants.push(PermissionGrant { user_id, project_id, perm });
    proof {
        assert(store@ =~= (StoreView {
            grants: old(store)@.grants.push(PermissionGrant { user_id, project_id, perm }),
            ..old(store)@
        }));
    }
    Ok(())
}

/// Keeps the projects that do not carry the given identifier.
pub open spec fn project_keep(id: u128) -> spec_fn(ProjectView) -> bool {
    |p: ProjectView| p.id != id
}

/// The project table without the rows of the given identifier.
pub open spec fn spec_projects_without(projects: Seq<ProjectView>, id: u128) -> Seq<ProjectView> {
    projects.filter(project_keep(id))
}

/// Keeps the columns of other projects.
pub open spec fn column_outside(project_id: u128) -> spec_fn(ProjectColumnView) -> bool {
    |c: ProjectColumnView| c.project_id != project_id
}

/// The column table without the given project's columns.
pub open spec fn spec_columns_outside(columns: Seq<ProjectColumnView>, project_id: u128) -> Seq<
    ProjectColumnView,
> {
    columns.filter(column_outside(project_id))
}

/// Keeps the labels of other projects.
pub open spec fn label_outside(project_id: u128) -> spec_fn(LabelView) -> bool {
    |l: LabelView| l.project_id != project_id
}

/// The label table without the given project's labels.
pub open spec fn spec_labels_outside(labels: Seq<LabelView>, project_id: u128) -> Seq<LabelView> {
    labels.filter(label_outside(project_id))
}

/// Keeps the states of other projects.
pub open spec fn state_outside(project_id: u128) -> spec_fn(StateView) -> bool {
    |s: StateView| s.project_id != project_id
}

/// The state table without the given project's states.
pub open spec fn spec_states_outside(states: Seq<StateView>, project_id: u128) -> Seq<StateView> {
    states.filter(state_outside(project_id))
}

/// Keeps the tasks of other projects.
pub open spec fn task_outside(project_id: u128) -> spec_fn(TaskView) -> bool {
    |t: TaskView| t.project_id != project_id
}

/// The task table without the given project's tasks.
pub open spec fn spec_tasks_outside(tasks: Seq<TaskView>, project_id: u128) -> Seq<TaskView> {
    tasks.filter(task_outside(project_id))
}

/// Keeps the grants on other projects.
pub open spec fn grant_outside(project_id: u128) -> spec_fn(PermissionGrant) -> bool {
    |g: PermissionGrant| g.project_id != project_id
}

/// The grant table without the given project's grants.
pub open spec fn spec_grants_outside(grants: Seq<PermissionGrant>, project_id: u128) -> Seq<
    PermissionGrant,
> {
    grants.filter(grant_outside(project_id))
}

/// Whether the task a label attachment refers to belongs to the project.
pub open spec fn spec_ref_task_in_project(tasks: Seq<TaskView>, task_id: u128, project_id: u128) -> bool {
    match spec_find_task(tasks, task_id) {
        Some(t) => t.project_id == project_id,
        None => false,
    }
}

/// Whether the label a label attachment refers to belongs to the project.
pub open spec fn spec_ref_label_in_project(labels: Seq<LabelView>, label_id: u128, project_id: u128) -> bool {
    match spec_find_label(labels, label_id) {
        Some(l) => l.project_id == project_id,
        None => false,
    }
}

/// Keeps the attachments that touch neither a task nor a label of the project.
pub open spec fn task_label_outside(
    tasks: Seq<TaskView>,
    labels: Seq<LabelView>,
    project_id: u128,
) -> spec_fn(TaskLabel) -> bool {
    |tl: TaskLabel|
        !spec_ref_task_in_project(tasks, tl.task_id, project_id) && !spec_ref_label_in_project(
            labels,
            tl.label_id,
            project_id,
        )
}

/// The attachment table without everything that referenced the project's
/// tasks or labels.
pub open spec fn spec_task_labels_outside(
    task_labels: Seq<TaskLabel>,
    tasks: Seq<TaskView>,
    labels: Seq<LabelView>,
    project_id: u128,
) -> Seq<TaskLabel> {
    task_labels.filter(task_label_outside(tasks, labels, project_id))
}

/// Whether the first task of that identifier belongs to the project.
fn ref_task_in_project(tasks: &Vec<TaskModel>, task_id: u128, project_id: u128) -> (r: bool)
    ensures
        r == spec_ref_task_in_project(tasks.deep_view(), task_id, project_id),
{
    let ghost tasks_v = tasks.deep_view();
    let n = tasks.len();
    let mut i: usize = 0;
    proof {
        assert(tasks_v.skip(0int) =~= tasks_v);
        assert(tasks_v.len() == tasks@.len());
    }
    while i < n
        invariant
            n == tasks@.len(),
            i <= n,
            tasks_v == tasks.deep_view(),
            tasks_v.len() == n,
            spec_find_task(tasks_v.skip(i as int), task_id) == spec_find_task(tasks_v, task_id),
        decreases n - i,
    {
        proof {
            assert(tasks_v.skip(i as int)[0] == tasks_v[i as int]);
            assert(tasks_v[i as int] == tasks@[i as int]@);
        }
        if tasks[i].id == task_id {
            return tasks[i].project_id == project_id;
        }
        proof {
            assert(tasks_v.skip(i as int).drop_first() =~= tasks_v.skip((i + 1) as int));
        }
        i += 1;
    }
    proof {
        assert(tasks_v.skip(n as int) =~= Seq::<TaskView>::empty());
    }
    false
}

/// Whether the first label of that identifier belongs to the project.
fn ref_label_in_project(labels: &Vec<LabelModel>, label_id: u128, project_id: u128) -> (r: bool)
    ensures
        r == spec_ref_label_in_project(labels.deep_view(), label_id, project_id),
{
    let ghost labels_v = labels.deep_view();
    let n = labels.len();
    let mut i: usize = 0;
    proof {
        assert(labels_v.skip(0int) =~= labels_v);
        assert(labels_v.len() == labels@.len());
    }
    while i < n
        invariant
            n == labels@.len(),
            i <= n,
            labels_v == labels.deep_view(),
            labels_v.len() == n,
            spec_find_label(labels_v.skip(i as int), label_id) == spec_find_label(
                labels_v,
                label_id,
            ),
        decreases n - i,
    {
        proof {
            assert(labels_v.skip(i as int)[0] == labels_v[i as int]);
            assert(labels_v[i as int] == labels@[i as int]@);
        }
        if labels[i].id == label_id {
            return labels[i].project_id == project_id;
        }
        proof {
            assert(labels_v.skip(i as int).drop_first() =~= labels_v.skip((i + 1) as int));
        }
        i += 1;
    }
    proof {
        assert(labels_v.skip(n as int) =~= Seq::<LabelView>::empty());
    }
    false
}

/// Removes a project and everything under it: its columns, labels, states,
/// tasks, grants, and the label attachments of those tasks and labels, so
/// that no reference is left dangling.
pub fn delete_project(store: &mut Store, id: u128) -> (r: Result<(), AppError>)
    ensures
        r is Ok,
        final(store)@ == (StoreView {
            projects: spec_projects_without(old(store)@.projects, id),
            columns: spec_columns_outside(old(store)@.columns, id),
            labels: spec_labels_outside(old(store)@.labels, id),
            states: spec_states_outside(old(store)@.states, id),
            tasks: spec_tasks_outside(old(store)@.tasks, id),
            grants: spec_grants_outside(old(store)@.grants, id),
            task_labels: spec_task_labels_outside(
                old(store)@.task_labels,
                old(store)@.tasks,
                old(store)@.labels,
                id,
            ),
            ..old(store)@
        }),
{
    let ghost tasks_v = store@.tasks;
    let ghost labels_v = store@.labels;

    // The attachments must be diffed against the tables before those shrink.
    let ghost old_tls = store@.task_labels;
    let mut kept_tls: Vec<TaskLabel> = Vec::new();
    let n_tl = store.task_labels.len();
    let mut i: usize = 0;
    proof {
        reveal(Seq::filter);
        assert(old_tls.take(0int) =~= Seq::<TaskLabel>::empty());
    }
    while i < n_tl
        invariant
            n_tl == store.task_labels@.len(),
            i <= n_tl,
            old_tls == store@.task_labels,
            tasks_v == store@.tasks,
            labels_v == store@.labels,
            store.tasks@.len() == tasks_v.len(),
            store.labels@.len() == labels_v.len(),
            tasks_v == store.tasks.deep_view(),
            labels_v == store.labels.deep_view(),
            kept_tls@ == spec_task_labels_outside(old_tls.take(i as int), tasks_v, labels_v, id),
        decreases n_tl - i,
    {
        proof {
            assert(old_tls.take((i + 1) as int) =~= old_tls.take(i as int).push(
                old_tls[i as int],
            ));
            old_tls.take(i as int).lemma_filter_push(
                old_tls[i as int],
                task_label_outside(tasks_v, labels_v, id),
            );
        }
        let tl = store.task_labels[i];
        let in_task = ref_task_in_project(&store.tasks, tl.task_id, id);
        let in_label = ref_label_in_project(&store.labels, tl.label_id, id);
        proof {
            assert(task_label_outside(tasks_v, labels_v, id)(old_tls[i as int]) == (!in_task
                && !in_label));
        }
        if !in_task && !in_label {
            kept_tls.push(tl);
        }
        i += 1;
    }
    proof {
        assert(old_tls.take(n_tl as int) =~= old_tls);
    }
    store.task_labels = kept_tls;

    remove_projects_by_id(&mut store.projects, id);
    remove_columns_of_project(&mut store.columns, id);
    remove_labels_of_project(&mut store.labels, id);
    remove_states_of_project(&mut store.states, id);
    remove_tasks_of_project(&mut store.tasks, id);

    let ghost old_grants = store@.grants;
    let mut kept_grants: Vec<PermissionGrant> = Vec::new();
    let n_g = store.grants.len();
    let mut k: usize = 0;
    proof {
        reveal(Seq::filter);
        assert(old_grants.take(0int) =~= Seq::<PermissionGrant>::empty());
    }
    while k < n_g
        invariant
            n_g == store.grants@.len(),
            k <= n_g,
            old_grants == store@.grants,
            kept_grants@ == spec_grants_outside(old_grants.take(k as int), id),
        decreases n_g - k,
    {
        proof {
            assert(old_grants.take((k + 1) as int) =~= old_grants.take(k as int).push(
                old_grants[k as int],
            ));
            old_grants.take(k as int).lemma_filter_push(old_grants[k as int], grant_outside(id));
            assert(grant_outside(id)(old_grants[k as int]) == (old_grants[k as int].project_id
                != id));
        }
        if store.grants[k].project_id != id {
            kept_grants.push(store.grants[k]);
        }
        k += 1;
    }
    proof {
        assert(old_grants.take(n_g as int) =~= old_grants);
    }
    store.grants = kept_grants;

    proof {
        assert(store@ =~= (StoreView {
            projects: spec_projects_without(old(store)@.projects, id),
            columns: spec_columns_outside(old(store)@.columns, id),
            labels: spec_labels_outside(old(store)@.labels, id),
            states: spec_states_outside(old(store)@.states, id),
            tasks: spec_tasks_outside(old(store)@.tasks, id),
            grants: spec_grants_outside(old(store)@.grants, id),
            task_labels: spec_task_labels_outside(
                old(store)@.task_labels,
                old(store)@.tasks,
                old(store)@.labels,
                id,
            ),
            ..old(store)@
        }));
    }
    Ok(())
}

/// Removes every project row with the given identifier.
fn remove_projects_by_id(projects: &mut Vec<ProjectModel>, id: u128)
    ensures
        final(projects).deep_view() == spec_projects_without(old(projects).deep_view(), id),
{
    let ghost old_v = projects.deep_view();
    let mut kept: Vec<ProjectModel> = Vec::new();
    let n = projects.len();
    let mut i: usize = 0;
    proof {
        reveal(Seq::filter);
        assert(old_v.len() == projects@.len());
        assert(old_v.take(0int) =~= Seq::<ProjectView>::empty());
        assert(kept.deep_view() =~= spec_projects_without(old_v.take(0int), id));
    }
    while i < n
        invariant
            n == projects@.len(),
            i <= n,
            old_v == projects.deep_view(),
            old_v.len() == n,
            kept.deep_view() == spec_projects_without(old_v.take(i as int), id),
        decreases n - i,
    {
        proof {
            assert(old_v.take((i + 1) as int) =~= old_v.take(i as int).push(old_v[i as int]));
            assert(old_v[i as int] == projects@[i as int]@);
            old_v.take(i as int).lemma_filter_push(old_v[i as int], project_keep(id));
            assert(project_keep(id)(old_v[i as int]) == (old_v[i as int].id != id));
        }
        let ghost kprev_deep = kept.deep_view();
        if projects[i].id != id {
            let c = projects[i].clone();
            proof {
                assert(c.deep_view() == old_v[i as int]);
            }
            kept.push(c);
            proof {
                assert(kept.deep_view() =~= kprev_deep.push(old_v[i as int]));
            }
        }
        i += 1;
    }
    proof {
        assert(old_v.take(n as int) =~= old_v);
    }
    *projects = kept;
}

/// Removes every column of the given project.
fn remove_columns_of_project(columns: &mut Vec<ProjectColumnModel>, project_id: u128)
    ensures
        final(columns).deep_view() == spec_columns_outside(old(columns).deep_view(), project_id),
{
    let ghost old_v = columns.deep_view();
    let mut kept: Vec<ProjectColumnModel> = Vec::new();
    let n = columns.len();
    let mut i: usize = 0;
    proof {
        reveal(Seq::filter);
        assert(old_v.len() == columns@.len());
        assert(old_v.take(0int) =~= Seq::<ProjectColumnView>::empty());
        assert(kept.deep_view() =~= spec_columns_outside(old_v.take(0int), project_id));
    }
    while i < n
        invariant
            n == columns@.len(),
            i <= n,
            old_v == columns.deep_view(),
            old_v.len() == n,
            kept.deep_view() == spec_columns_outside(old_v.take(i as int), project_id),
        decreases n - i,
    {
        proof {
            assert(old_v.take((i + 1) as int) =~= old_v.take(i as int).push(old_v[i as int]));
            assert(old_v[i as int] == columns@[i as int]@);
            old_v.take(i as int).lemma_filter_push(old_v[i as int], column_outside(project_id));
            assert(column_outside(project_id)(old_v[i as int]) == (old_v[i as int].project_id
                != project_id));
        }
        let ghost kprev_deep = kept.deep_view();
        if columns[i].project_id != project_id {
            let c = columns[i].clone();
            proof {
                assert(c.deep_view() == old_v[i as int]);
            }
            kept.push(c);
            proof {
                assert(kept.deep_view() =~= kprev_deep.push(old_v[i as int]));
            }
        }
        i += 1;
    }
    proof {
        assert(old_v.take(n as int) =~= old_v);
    }
    *columns = kept;
}

/// Removes every label of the given project.
fn remove_labels_of_project(labels: &mut Vec<LabelModel>, project_id: u128)
    ensures
        final(labels).deep_view() == spec_labels_outside(old(labels).deep_view(), project_id),
{
    let ghost old_v = labels.deep_view();
    let mut kept: Vec<LabelModel> = Vec::new();
    let n = labels.len();
    let mut i: usize = 0;
    proof {
        reveal(Seq::filter);
        assert(old_v.len() == labels@.len());
        assert(old_v.take(0int) =~= Seq::<LabelView>::empty());
        assert(kept.deep_view() =~= spec_labels_outside(old_v.take(0int), project_id));
    }
    while i < n
        invariant
            n == labels@.len(),
            i <= n,
            old_v == labels.deep_view(),
            old_v.len() == n,
            kept.deep_view() == spec_labels_outside(old_v.take(i as int), project_id),
        decreases n - i,
    {
        proof {
            assert(old_v.take((i + 1) as int) =~= old_v.take(i as int).push(old_v[i as int]));
            assert(old_v[i as int] == labels@[i as int]@);
            old_v.take(i as int).lemma_filter_push(old_v[i as int], label_outside(project_id));
            assert(label_outside(project_id)(old_v[i as int]) == (old_v[i as int].project_id
                != project_id));
        }
        let ghost kprev_deep = kept.deep_view();
        if labels[i].project_id != project_id {
            let c = labels[i].clone();
            proof {
                assert(c.deep_view() == old_v[i as int]);
            }
            kept.push(c);
            proof {
                assert(kept.deep_view() =~= kprev_deep.push(old_v[i as int]));
            }
        }
        i += 1;
    }
    proof {
        assert(old_v.take(n as int) =~= old_v);
    }
    *labels = kept;
}

/// Removes every state of the given project.
fn remove_states_of_project(states: &mut Vec<StateModel>, project_id: u128)
    ensures
        final(states).deep_view() == spec_states_outside(old(states).deep_view(), project_id),
{
    let ghost old_v = states.deep_view();
    let mut kept: Vec<StateModel> = Vec::new();
    let n = states.len();
    let mut i: usize = 0;
    proof {
        reveal(Seq::filter);
        assert(old_v.len() == states@.len());
        assert(old_v.take(0int) =~= Seq::<StateView>::empty());
        assert(kept.deep_view() =~= spec_states_outside(old_v.take(0int), project_id));
    }
    while i < n
        invariant
            n == states@.len(),
            i <= n,
            old_v == states.deep_view(),
            old_v.len() == n,
            kept.deep_view() == spec_states_outside(old_v.take(i as int), project_id),
        decreases n - i,
    {
        proof {
            assert(old_v.take((i + 1) as int) =~= old_v.take(i as int).push(old_v[i as int]));
            assert(old_v[i as int] == states@[i as int]@);
            old_v.take(i as int).lemma_filter_push(old_v[i as int], state_outside(project_id));
            assert(state_outside(project_id)(old_v[i as int]) == (old_v[i as int].project_id
                != project_id));
        }
        let ghost kprev_deep = kept.deep_view();
        if states[i].project_id != project_id {
            let c = states[i].clone();
            proof {
                assert(c.deep_view() == old_v[i as int]);
            }
            kept.push(c);
            proof {
                assert(kept.deep_view() =~= kprev_deep.push(old_v[i as int]));
            }
        }
        i += 1;
    }
    proof {
        assert(old_v.take(n as int) =~= old_v);
    }
    *states = kept;
}

/// Removes every task of the given project.
fn remove_tasks_of_project(tasks: &mut Vec<TaskModel>, project_id: u128)
    ensures
        final(tasks).deep_view() == spec_tasks_outside(old(tasks).deep_view(), project_id),
{
    let ghost old_v = tasks.deep_view();
    let mut kept: Vec<TaskModel> = Vec::new();
    let n = tasks.len();
    let mut i: usize = 0;
    proof {
        reveal(Seq::filter);
        assert(old_v.len() == tasks@.len());
        assert(old_v.take(0int) =~= Seq::<TaskView>::empty());
        assert(kept.deep_view() =~= spec_tasks_outside(old_v.take(0int), project_id));
    }
    while i < n
        invariant
            n == tasks@.len(),
            i <= n,
            old_v == tasks.deep_view(),
            old_v.len() == n,
            kept.deep_view() == spec_tasks_outside(old_v.take(i as int), project_id),
        decreases n - i,
    {
        proof {
            assert(old_v.take((i + 1) as int) =~= old_v.take(i as int).push(old_v[i as int]));
            assert(old_v[i as int] == tasks@[i as int]@);
            old_v.take(i as int).lemma_filter_push(old_v[i as int], task_outside(project_id));
            assert(task_outside(project_id)(old_v[i as int]) == (old_v[i as int].project_id
                != project_id));
        }
        let ghost kprev_deep = kept.deep_view();
        if tasks[i].project_id != project_id {
            let c = tasks[i].clone();
            proof {
                assert(c.deep_view() == old_v[i as int]);
            }
            kept.push(c);
            proof {
                assert(kept.deep_view() =~= kprev_deep.push(old_v[i as int]));
            }
        }
        i += 1;
    }
    proof {
        assert(old_v.take(n as int) =~= old_v);
    }
    *tasks = kept;
}


/// Appends a fresh column with a fresh identifier, written back into `col`.
/// The store stands in for the database here: a column naming a project that
/// is not on file violates the foreign key and surfaces as a database error.
pub fn create_column(store: &mut Store, col: &mut ProjectColumnModel) -> (r: Result<(), AppError>)
    requires
        old(store).spec_can_mint(),
    ensures
        r is Ok <==> spec_find_project(old(store)@.projects, old(col).project_id) is Some,
        r matches Err(e) ==> e is DBError && *final(col) == *old(col) && final(store)@ == old(
            store,
        )@,
        r is Ok ==> final(col)@ == (ProjectColumnView {
            id: old(store)@.next_id,
            name: old(col)@.name,
            card_limit: old(col)@.card_limit,
            project_id: old(col)@.project_id,
            index: old(col)@.index,
        }) && final(store)@ == (StoreView {
            columns: old(store)@.columns.push(final(col)@),
            next_id: (old(store)@.next_id + 1) as u128,
            ..old(store)@
        }),
{
    let parent = match get_project(store, col.project_id) {
        Ok(o) => o,
        Err(e) => {
            return Err(e);
        },
    };
    if parent.is_none() {
        return Err(db_error("project_columns.project_id: foreign key violated"));
    }
    col.id = store.next_id;
    store.next_id = store.next_id + 1;
    store.columns.push(col.clone());
    proof {
        assert(col@ =~= (ProjectColumnView {
            id: old(store)@.next_id,
            name: old(col)@.name,
            card_limit: old(col)@.card_limit,
            project_id: old(col)@.project_id,
            index: old(col)@.index,
        }));
        assert(store@ =~= (StoreView {
            columns: old(store)@.columns.push(col@),
            next_id: (old(store)@.next_id + 1) as u128,
            ..old(store)@
        }));
    }
    Ok(())
}

/// Appends a fresh label with a fresh identifier, written back into `lab`.
/// The store stands in for the database here: a label naming a project that
/// is not on file violates the foreign key and surfaces as a database error.
pub fn create_label(store: &mut Store, lab: &mut LabelModel) -> (r: Result<(), AppError>)
    requires
        old(store).spec_can_mint(),
    ensures
        r is Ok <==> spec_find_project(old(store)@.projects, old(lab).project_id) is Some,
        r matches Err(e) ==> e is DBError && *final(lab) == *old(lab) && final(store)@ == old(
            store,
        )@,
        r is Ok ==> final(lab)@ == (LabelView {
            id: old(store)@.next_id,
            name: old(lab)@.name,
            project_id: old(lab)@.project_id,
        }) && final(store)@ == (StoreView {
            labels: old(store)@.labels.push(final(lab)@),
            next_id: (old(store)@.next_id + 1) as u128,
            ..old(store)@
        }),
{
    let parent = match get_project(store, lab.project_id) {
        Ok(o) => o,
        Err(e) => {
            return Err(e);
        },
    };
    if parent.is_none() {
        return Err(db_error("labels.project_id: foreign key violated"));
    }
    lab.id = store.next_id;
    store.next_id = store.next_id + 1;
    store.labels.push(lab.clone());
    proof {
        assert(lab@ =~= (LabelView {
            id: old(store)@.next_id,
            name: old(lab)@.name,
            project_id: old(lab)@.project_id,
        }));
        assert(store@ =~= (StoreView {
            labels: old(store)@.labels.push(lab@),
            next_id: (old(store)@.next_id + 1) as u128,
            ..old(store)@
        }));
    }
    Ok(())
}

/// Appends a fresh state with a fresh identifier, written back into `state`.
/// The store stands in for the database here: a state naming a project that
/// is not on file violates the foreign key and surfaces as a database error.
pub fn create_state(store: &mut Store, state: &mut StateModel) -> (r: Result<(), AppError>)
    requires
        old(store).spec_can_mint(),
    ensures
        r is Ok <==> spec_find_project(old(store)@.projects, old(state).project_id) is Some,
        r matches Err(e) ==> e is DBError && *final(state) == *old(state) && final(store)@ == old(
            store,
        )@,
        r is Ok ==> final(state)@ == (StateView {
            id: old(store)@.next_id,
            name: old(state)@.name,
            project_id: old(state)@.project_id,
        }) && final(store)@ == (StoreView {
            states: old(store)@.states.push(final(state)@),
            next_id: (old(store)@.next_id + 1) as u128,
            ..old(store)@
        }),
{
    let parent = match get_project(store, state.project_id) {
        Ok(o) => o,
        Err(e) => {
            return Err(e);
        },
    };
    if parent.is_none() {
        return Err(db_error("states.project_id: foreign key violated"));
    }
    state.id = store.next_id;
    store.next_id = store.next_id + 1;
    store.states.push(state.clone());
    proof {
        assert(state@ =~= (StateView {
            id: old(store)@.next_id,
            name: old(state)@.name,
            project_id: old(state)@.project_id,
        }));
        assert(store@ =~= (StoreView {
            states: old(store)@.states.push(state@),
            next_id: (old(store)@.next_id + 1) as u128,
            ..old(store)@
        }));
    }
    Ok(())
}

/// Looks a column up by identifier; no match is `None`, not an error.
#[verifier::loop_isolation(false)]
pub fn get_column(store: &Store, id: u128) -> (r: Result<Option<ProjectColumnModel>, AppError>)
    ensures
        r matches Ok(o) && o.deep_view() == spec_find_column(store@.columns, id),
{
    let ghost columns_v = store@.columns;
    let n = store.columns.len();
    let mut i: usize = 0;
    proof {
        assert(columns_v.skip(0int) =~= columns_v);
    }
    while i < n
        invariant
            i <= n,
            spec_find_column(columns_v.skip(i as int), id) == spec_find_column(columns_v, id),
        decreases n - i,
    {
        proof {
            assert(columns_v.skip(i as int)[0] == columns_v[i as int]);
        }
        if store.columns[i].id == id {
            return Ok(Some(store.columns[i].clone()));
        }
        proof {
            assert(columns_v.skip(i as int).drop_first() =~= columns_v.skip((i + 1) as int));
        }
        i += 1;
    }
    proof {
        assert(columns_v.skip(n as int) =~= Seq::<ProjectColumnView>::empty());
    }
    Ok(None)
}

/// Looks a label up by identifier; no match is `None`, not an error.
#[verifier::loop_isolation(false)]
pub fn get_label(store: &Store, id: u128) -> (r: Result<Option<LabelModel>, AppError>)
    ensures
        r matches Ok(o) && o.deep_view() == spec_find_label(store@.labels, id),
{
    let ghost labels_v = store@.labels;
    let n = store.labels.len();
    let mut i: usize = 0;
    proof {
        assert(labels_v.skip(0int) =~= labels_v);
    }
    while i < n
        invariant
            i <= n,
            spec_find_label(labels_v.skip(i as int), id) == spec_find_label(labels_v, id),
        decreases n - i,
    {
        proof {
            assert(labels_v.skip(i as int)[0] == labels_v[i as int]);
        }
        if store.labels[i].id == id {
            return Ok(Some(store.labels[i].clone()));
        }
        proof {
            assert(labels_v.skip(i as int).drop_first() =~= labels_v.skip((i + 1) as int));
        }
        i += 1;
    }
    proof {
        assert(labels_v.skip(n as int) =~= Seq::<LabelView>::empty());
    }
    Ok(None)
}

/// Looks a state up by identifier; no match is `None`, not an error.
#[verifier::loop_isolation(false)]
pub fn get_state(store: &Store, id: u128) -> (r: Result<Option<StateModel>, AppError>)
    ensures
        r matches Ok(o) && o.deep_view() == spec_find_state(store@.states, id),
{
    let ghost states_v = store@.states;
    let n = store.states.len();
    let mut i: usize = 0;
    proof {
        assert(states_v.skip(0int) =~= states_v);
    }
    while i < n
        invariant
            i <= n,
            spec_find_state(states_v.skip(i as int), id) == spec_find_state(states_v, id),
        decreases n - i,
    {
        proof {
            assert(states_v.skip(i as int)[0] == states_v[i as int]);
        }
        if store.states[i].id == id {
            return Ok(Some(store.states[i].clone()));
        }
        proof {
            assert(states_v.skip(i as int).drop_first() =~= states_v.skip((i + 1) as int));
        }
        i += 1;
    }
    proof {
        assert(states_v.skip(n as int) =~= Seq::<StateView>::empty());
    }
    Ok(None)
}

/// The stored column row after an update writes `v` over it: name, index and
/// card limit are overwritten, the identifier and project kept; any other row
/// is untouched.
pub open spec fn spec_column_row_updated(c: ProjectColumnView, v: ProjectColumnView) -> ProjectColumnView {
    if c.id == v.id {
        ProjectColumnView {
            id: c.id,
            project_id: c.project_id,
            name: v.name,
            index: v.index,
            card_limit: v.card_limit,
        }
    } else {
        c
    }
}

/// The column table after `v` is written over every row with its identifier.
pub open spec fn spec_columns_updated(columns: Seq<ProjectColumnView>, v: ProjectColumnView) -> Seq<
    ProjectColumnView,
> {
    columns.map_values(|c: ProjectColumnView| spec_column_row_updated(c, v))
}

/// Writes a column's name, index and card limit back over every row with its
/// identifier.
pub fn update_column(store: &mut Store, col: &ProjectColumnModel) -> (r: Result<(), AppError>)
    ensures
        r is Ok,
        final(store)@ == (StoreView {
            columns: spec_columns_updated(old(store)@.columns, col@),
            ..old(store)@
        }),
{
    let ghost old_columns = store@.columns;
    let n = store.columns.len();
    let mut i: usize = 0;
    while i < n
        invariant
            n == store.columns@.len(),
            i <= n,
            store@.columns.len() == n,
            old_columns.len() == n,
            forall|j: int|
                0 <= j < i ==> store@.columns[j] == spec_column_row_updated(old_columns[j], col@),
            forall|j: int| i <= j < n ==> store@.columns[j] == old_columns[j],
            store@ == (StoreView { columns: store@.columns, ..old(store)@ }),
            old_columns == old(store)@.columns,
        decreases n - i,
    {
        let ghost pre = store@.columns;
        let ghost pre_v = store.columns@;
        proof {
            assert(pre[i as int] == pre_v[i as int]@);
        }
        if store.columns[i].id == col.id {
            let row = ProjectColumnModel {
                name: col.name.clone(),
                card_limit: col.card_limit,
                id: store.columns[i].id,
                project_id: store.columns[i].project_id,
                index: col.index,
            };
            proof {
                assert(row@ =~= spec_column_row_updated(old_columns[i as int], col@));
            }
            store.columns[i] = row;
            proof {
                assert(store.columns@ == pre_v.update(i as int, row));
                assert forall|j: int| 0 <= j < n implies #[trigger] store@.columns[j] == (if j
                    == i {
                    row@
                } else {
                    pre[j]
                }) by {
                    assert(store@.columns[j] == store.columns@[j]@);
                    if j != i {
                        assert(store.columns@[j] == pre_v[j]);
                        assert(pre[j] == pre_v[j]@);
                    }
                }
            }
        }
        i += 1;
    }
    proof {
        assert(store@.columns =~= spec_columns_updated(old_columns, col@));
        assert(store@ =~= (StoreView {
            columns: spec_columns_updated(old(store)@.columns, col@),
            ..old(store)@
        }));
    }
    Ok(())
}

/// The stored label row after an update writes `v` over it: only the name is
/// overwritten; any other row is untouched.
pub open spec fn spec_label_row_updated(l: LabelView, v: LabelView) -> LabelView {
    if l.id == v.id {
        LabelView { id: l.id, project_id: l.project_id, name: v.name }
    } else {
        l
    }
}

/// The label table after `v` is written over every row with its identifier.
pub open spec fn spec_labels_updated(labels: Seq<LabelView>, v: LabelView) -> Seq<LabelView> {
    labels.map_values(|l: LabelView| spec_label_row_updated(l, v))
}

/// Writes a label's name back over every row with its identifier.
pub fn update_label(store: &mut Store, lab: &LabelModel) -> (r: Result<(), AppError>)
    ensures
        r is Ok,
        final(store)@ == (StoreView {
            labels: spec_labels_updated(old(store)@.labels, lab@),
            ..old(store)@
        }),
{
    let ghost old_labels = store@.labels;
    let n = store.labels.len();
    let mut i: usize = 0;
    while i < n
        invariant
            n == store.labels@.len(),
            i <= n,
            store@.labels.len() == n,
            old_labels.len() == n,
            forall|j: int|
                0 <= j < i ==> store@.labels[j] == spec_label_row_updated(old_labels[j], lab@),
            forall|j: int| i <= j < n ==> store@.labels[j] == old_labels[j],
            store@ == (StoreView { labels: store@.labels, ..old(store)@ }),
            old_labels == old(store)@.labels,
        decreases n - i,
    {
        let ghost pre = store@.labels;
        let ghost pre_v = store.labels@;
        proof {
            assert(pre[i as int] == pre_v[i as int]@);
        }
        if store.labels[i].id == lab.id {
            let row = LabelModel {
                name: lab.name.clone(),
                id: store.labels[i].id,
                project_id: store.labels[i].project_id,
            };
            proof {
                assert(row@ =~= spec_label_row_updated(old_labels[i as int], lab@));
            }
            store.labels[i] = row;
            proof {
                assert(store.labels@ == pre_v.update(i as int, row));
                assert forall|j: int| 0 <= j < n implies #[trigger] store@.labels[j] == (if j
                    == i {
                    row@
                } else {
                    pre[j]
                }) by {
                    assert(store@.labels[j] == store.labels@[j]@);
                    if j != i {
                        assert(store.labels@[j] == pre_v[j]);
                        assert(pre[j] == pre_v[j]@);
                    }
                }
            }
        }
        i += 1;
    }
    proof {
        assert(store@.labels =~= spec_labels_updated(old_labels, lab@));
        assert(store@ =~= (StoreView {
            labels: spec_labels_updated(old(store)@.labels, lab@),
            ..old(store)@
        }));
    }
    Ok(())
}

/// The stored state row after an update writes `v` over it: only the name is
/// overwritten; any other row is untouched.
pub open spec fn spec_state_row_updated(s: StateView, v: StateView) -> StateView {
    if s.id == v.id {
        StateView { id: s.id, project_id: s.project_id, name: v.name }
    } else {
        s
    }
}

/// The state table after `v` is written over every row with its identifier.
pub open spec fn spec_states_updated(states: Seq<StateView>, v: StateView) -> Seq<StateView> {
    states.map_values(|s: StateView| spec_state_row_updated(s, v))
}

/// Writes a state's name back over every row with its identifier.
pub fn update_state(store: &mut Store, state: &StateModel) -> (r: Result<(), AppError>)
    ensures
        r is Ok,
        final(store)@ == (StoreView {
            states: spec_states_updated(old(store)@.states, state@),
            ..old(store)@
        }),
{
    let ghost old_states = store@.states;
    let n = store.states.len();
    let mut i: usize = 0;
    while i < n
        invariant
            n == store.states@.len(),
            i <= n,
            store@.states.len() == n,
            old_states.len() == n,
            forall|j: int|
                0 <= j < i ==> store@.states[j] == spec_state_row_updated(old_states[j], state@),
            forall|j: int| i <= j < n ==> store@.states[j] == old_states[j],
            store@ == (StoreView { states: store@.states, ..old(store)@ }),
            old_states == old(store)@.states,
        decreases n - i,
    {
        let ghost pre = store@.states;
        let ghost pre_v = store.states@;
        proof {
            assert(pre[i as int] == pre_v[i as int]@);
        }
        if store.states[i].id == state.id {
            let row = StateModel {
                name: state.name.clone(),
                id: store.states[i].id,
                project_id: store.states[i].project_id,
            };
            proof {
                assert(row@ =~= spec_state_row_updated(old_states[i as int], state@));
            }
            store.states[i] = row;
            proof {
                assert(store.states@ == pre_v.update(i as int, row));
                assert forall|j: int| 0 <= j < n implies #[trigger] store@.states[j] == (if j
                    == i {
                    row@
                } else {
                    pre[j]
                }) by {
                    assert(store@.states[j] == store.states@[j]@);
                    if j != i {
                        assert(store.states@[j] == pre_v[j]);
                        assert(pre[j] == pre_v[j]@);
                    }
                }
            }
        }
        i += 1;
    }
    proof {
        assert(store@.states =~= spec_states_updated(old_states, state@));
        assert(store@ =~= (StoreView {
            states: spec_states_updated(old(store)@.states, state@),
            ..old(store)@
        }));
    }
    Ok(())
}

/// Keeps the columns that do not carry the given identifier.
pub open spec fn column_keep(id: u128) -> spec_fn(ProjectColumnView) -> bool {
    |c: ProjectColumnView| c.id != id
}

/// The column table without the rows of the given identifier.
pub open spec fn spec_columns_without(columns: Seq<ProjectColumnView>, id: u128) -> Seq<
    ProjectColumnView,
> {
    columns.filter(column_keep(id))
}

/// Removes every column with the given identifier.
pub fn delete_column(store: &mut Store, column_id: u128) -> (r: Result<(), AppError>)
    ensures
        r is Ok,
        final(store)@ == (StoreView {
            columns: spec_columns_without(old(store)@.columns, column_id),
            ..old(store)@
        }),
{
    let ghost old_v = store@.columns;
    let mut kept: Vec<ProjectColumnModel> = Vec::new();
    let n = store.columns.len();
    let mut i: usize = 0;
    proof {
        reveal(Seq::filter);
        assert(old_v.take(0int) =~= Seq::<ProjectColumnView>::empty());
        assert(kept.deep_view() =~= spec_columns_without(old_v.take(0int), column_id));
    }
    while i < n
        invariant
            n == store.columns@.len(),
            i <= n,
            old_v == store@.columns,
            kept.deep_view() == spec_columns_without(old_v.take(i as int), column_id),
        decreases n - i,
    {
        proof {
            assert(old_v.take((i + 1) as int) =~= old_v.take(i as int).push(old_v[i as int]));
            assert(old_v[i as int] == store.columns@[i as int]@);
            old_v.take(i as int).lemma_filter_push(old_v[i as int], column_keep(column_id));
            assert(column_keep(column_id)(old_v[i as int]) == (old_v[i as int].id != column_id));
        }
        let ghost kprev_deep = kept.deep_view();
        if store.columns[i].id != column_id {
            let c = store.columns[i].clone();
            proof {
                assert(c.deep_view() == old_v[i as int]);
            }
            kept.push(c);
            proof {
                assert(kept.deep_view() =~= kprev_deep.push(old_v[i as int]));
            }
        }
        i += 1;
    }
    proof {
        assert(old_v.take(n as int) =~= old_v);
    }
    store.columns = kept;
    proof {
        assert(store@ =~= (StoreView {
            columns: spec_columns_without(old(store)@.columns, column_id),
            ..old(store)@
        }));
    }
    Ok(())
}

/// Keeps the labels that do not carry the given identifier.
pub open spec fn label_keep(id: u128) -> spec_fn(LabelView) -> bool {
    |l: LabelView| l.id != id
}

/// The label table without the rows of the given identifier.
pub open spec fn spec_labels_without(labels: Seq<LabelView>, id: u128) -> Seq<LabelView> {
    labels.filter(label_keep(id))
}

/// Removes every label with the given identifier.
pub fn delete_label(store: &mut Store, label_id: u128) -> (r: Result<(), AppError>)
    ensures
        r is Ok,
        final(store)@ == (StoreView {
            labels: spec_labels_without(old(store)@.labels, label_id),
            ..old(store)@
        }),
{
    let ghost old_v = store@.labels;
    let mut kept: Vec<LabelModel> = Vec::new();
    let n = store.labels.len();
    let mut i: usize = 0;
    proof {
        reveal(Seq::filter);
        assert(old_v.take(0int) =~= Seq::<LabelView>::empty());
        assert(kept.deep_view() =~= spec_labels_without(old_v.take(0int), label_id));
    }
    while i < n
        invariant
            n == store.labels@.len(),
            i <= n,
            old_v == store@.labels,
            kept.deep_view() == spec_labels_without(old_v.take(i as int), label_id),
        decreases n - i,
    {
        proof {
            assert(old_v.take((i + 1) as int) =~= old_v.take(i as int).push(old_v[i as int]));
            assert(old_v[i as int] == store.labels@[i as int]@);
            old_v.take(i as int).lemma_filter_push(old_v[i as int], label_keep(label_id));
            assert(label_keep(label_id)(old_v[i as int]) == (old_v[i as int].id != label_id));
        }
        let ghost kprev_deep = kept.deep_view();
        if store.labels[i].id != label_id {
            let c = store.labels[i].clone();
            proof {
                assert(c.deep_view() == old_v[i as int]);
            }
            kept.push(c);
            proof {
                assert(kept.deep_view() =~= kprev_deep.push(old_v[i as int]));
            }
        }
        i += 1;
    }
    proof {
        assert(old_v.take(n as int) =~= old_v);
    }
    store.labels = kept;
    proof {
        assert(store@ =~= (StoreView {
            labels: spec_labels_without(old(store)@.labels, label_id),
            ..old(store)@
        }));
    }
    Ok(())
}

/// Keeps the states that do not carry the given identifier.
pub open spec fn state_keep(id: u128) -> spec_fn(StateView) -> bool {
    |s: StateView| s.id != id
}

/// The state table without the rows of the given identifier.
pub open spec fn spec_states_without(states: Seq<StateView>, id: u128) -> Seq<StateView> {
    states.filter(state_keep(id))
}

/// Removes every state with the given identifier.
pub fn delete_state(store: &mut Store, state_id: u128) -> (r: Result<(), AppError>)
    ensures
        r is Ok,
        final(store)@ == (StoreView {
            states: spec_states_without(old(store)@.states, state_id),
            ..old(store)@
        }),
{
    let ghost old_v = store@.states;
    let mut kept: Vec<StateModel> = Vec::new();
    let n = store.states.len();
    let mut i: usize = 0;
    proof {
        reveal(Seq::filter);
        assert(old_v.take(0int) =~= Seq::<StateView>::empty());
        assert(kept.deep_view() =~= spec_states_without(old_v.take(0int), state_id));
    }
    while i < n
        invariant
            n == store.states@.len(),
            i <= n,
            old_v == store@.states,
            kept.deep_view() == spec_states_without(old_v.take(i as int), state_id),
        decreases n - i,
    {
        proof {
            assert(old_v.take((i + 1) as int) =~= old_v.take(i as int).push(old_v[i as int]));
            assert(old_v[i as int] == store.states@[i as int]@);
            old_v.take(i as int).lemma_filter_push(old_v[i as int], state_keep(state_id));
            assert(state_keep(state_id)(old_v[i as int]) == (old_v[i as int].id != state_id));
        }
        let ghost kprev_deep = kept.deep_view();
        if store.states[i].id != state_id {
            let c = store.states[i].clone();
            proof {
                assert(c.deep_view() == old_v[i as int]);
            }
            kept.push(c);
            proof {
                assert(kept.deep_view() =~= kprev_deep.push(old_v[i as int]));
            }
        }
        i += 1;
    }
    proof {
        assert(old_v.take(n as int) =~= old_v);
    }
    store.states = kept;
    proof {
        assert(store@ =~= (StoreView {
            states: spec_states_without(old(store)@.states, state_id),
            ..old(store)@
        }));
    }
    Ok(())
}

/// Keeps the columns of the given project.
pub open spec fn column_within(project_id: u128) -> spec_fn(ProjectColumnView) -> bool {
    |c: ProjectColumnView| c.project_id == project_id
}

/// The given project's columns, in creation order.
pub open spec fn spec_columns_of_project(columns: Seq<ProjectColumnView>, project_id: u128) -> Seq<
    ProjectColumnView,
> {
    columns.filter(column_within(project_id))
}

/// A column placed among columns already in board order: after every column
/// whose index is at most its own, before the rest, so that equal indexes
/// keep their creation order.
pub open spec fn spec_insert_by_index(s: Seq<ProjectColumnView>, c: ProjectColumnView) -> Seq<
    ProjectColumnView,
>
    decreases s.len(),
{
    if s.len() == 0 {
        seq![c]
    } else if s.last().index <= c.index {
        s.push(c)
    } else {
        spec_insert_by_index(s.drop_last(), c).push(s.last())
    }
}

/// Columns in board order: ascending by index, creation order among equal
/// indexes.
pub open spec fn spec_sort_by_index(s: Seq<ProjectColumnView>) -> Seq<ProjectColumnView>
    decreases s.len(),
{
    if s.len() == 0 {
        Seq::empty()
    } else {
        spec_insert_by_index(spec_sort_by_index(s.drop_last()), s.last())
    }
}

/// Orders fetched columns by board position, stably.
#[verifier::loop_isolation(false)]
fn sort_columns_by_index(cols: Vec<ProjectColumnModel>) -> (r: Vec<ProjectColumnModel>)
    ensures
        r.deep_view() == spec_sort_by_index(cols.deep_view()),
{
    let ghost cols_v = cols.deep_view();
    let mut sorted: Vec<ProjectColumnModel> = Vec::new();
    let n = cols.len();
    let mut k: usize = 0;
    proof {
        assert(cols_v.len() == cols@.len());
        assert(cols_v.take(0int) =~= Seq::<ProjectColumnView>::empty());
        assert(sorted.deep_view() =~= spec_sort_by_index(cols_v.take(0int)));
    }
    while k < n
        invariant
            k <= n,
            sorted.deep_view() == spec_sort_by_index(cols_v.take(k as int)),
        decreases n - k,
    {
        let c = cols[k].clone();
        let ghost cv = cols_v[k as int];
        let ghost sorted_v = sorted.deep_view();
        proof {
            assert(c.deep_view() == cv);
            assert(cols_v.take((k + 1) as int).drop_last() =~= cols_v.take(k as int));
            assert(cols_v.take((k + 1) as int).last() == cv);
        }
        let mut p = sorted.len();
        proof {
            assert(sorted_v.len() == sorted@.len());
            assert(sorted_v.take(p as int) =~= sorted_v);
            assert(sorted_v.skip(p as int) =~= Seq::<ProjectColumnView>::empty());
            assert(spec_insert_by_index(sorted_v, cv) =~= spec_insert_by_index(
                sorted_v.take(p as int),
                cv,
            ) + sorted_v.skip(p as int));
        }
        while p > 0 && sorted[p - 1].index > c.index
            invariant
                p <= sorted@.len(),
                spec_insert_by_index(sorted_v, cv) =~= spec_insert_by_index(
                    sorted_v.take(p as int),
                    cv,
                ) + sorted_v.skip(p as int),
            decreases p,
        {
            proof {
                assert(sorted_v.take(p as int).last() == sorted_v[p - 1]);
                assert(sorted_v.take(p as int).drop_last() =~= sorted_v.take((p - 1) as int));
                assert(sorted_v[p - 1] == sorted@[p - 1]@);
                assert(spec_insert_by_index(sorted_v.take(p as int), cv) == spec_insert_by_index(
                    sorted_v.take((p - 1) as int),
                    cv,
                ).push(sorted_v[p - 1]));
                assert(spec_insert_by_index(sorted_v.take((p - 1) as int), cv).push(
                    sorted_v[p - 1],
                ) + sorted_v.skip(p as int) =~= spec_insert_by_index(
                    sorted_v.take((p - 1) as int),
                    cv,
                ) + sorted_v.skip((p - 1) as int));
            }
            p -= 1;
        }
        proof {
            if p == 0 {
                assert(sorted_v.take(0int) =~= Seq::<ProjectColumnView>::empty());
                assert(spec_insert_by_index(sorted_v.take(0int), cv) =~= seq![cv]);
            } else {
                assert(sorted_v.take(p as int).last() == sorted_v[p - 1]);
                assert(sorted_v[p - 1] == sorted@[p - 1]@);
                assert(spec_insert_by_index(sorted_v.take(p as int), cv) == sorted_v.take(
                    p as int,
                ).push(cv));
            }
        }
        sorted.insert(p, c);
        proof {
            assert(sorted.deep_view() =~= sorted_v.take(p as int).push(cv) + sorted_v.skip(
                p as int,
            ));
            assert(sorted_v.take(p as int).push(cv) + sorted_v.skip(p as int)
                =~= spec_insert_by_index(sorted_v, cv));
            assert(sorted.deep_view() =~= spec_sort_by_index(cols_v.take((k + 1) as int)));
        }
        k += 1;
    }
    proof {
        assert(cols_v.take(n as int) =~= cols_v);
    }
    sorted
}

/// Lists a project's columns in board order: ascending by index, creation
/// order among equal indexes.
pub fn get_columns(store: &Store, project_id: u128) -> (r: Result<
    Vec<ProjectColumnModel>,
    AppError,
>)
    ensures
        r matches Ok(v) && v.deep_view() == spec_sort_by_index(
            spec_columns_of_project(store@.columns, project_id),
        ),
{
    let ghost all_v = store@.columns;
    let mut out: Vec<ProjectColumnModel> = Vec::new();
    let n = store.columns.len();
    let mut i: usize = 0;
    proof {
        reveal(Seq::filter);
        assert(all_v.take(0int) =~= Seq::<ProjectColumnView>::empty());
        assert(out.deep_view() =~= spec_columns_of_project(all_v.take(0int), project_id));
    }
    while i < n
        invariant
            n == store.columns@.len(),
            i <= n,
            all_v == store@.columns,
            out.deep_view() == spec_columns_of_project(all_v.take(i as int), project_id),
        decreases n - i,
    {
        proof {
            assert(all_v.take((i + 1) as int) =~= all_v.take(i as int).push(all_v[i as int]));
            assert(all_v[i as int] == store.columns@[i as int]@);
            all_v.take(i as int).lemma_filter_push(all_v[i as int], column_within(project_id));
            assert(column_within(project_id)(all_v[i as int]) == (all_v[i as int].project_id
                == project_id));
        }
        let ghost oprev_deep = out.deep_view();
        if store.columns[i].project_id == project_id {
            let c = store.columns[i].clone();
            proof {
                assert(c.deep_view() == all_v[i as int]);
            }
            out.push(c);
            proof {
                assert(out.deep_view() =~= oprev_deep.push(all_v[i as int]));
            }
        }
        i += 1;
    }
    proof {
        assert(all_v.take(n as int) =~= all_v);
    }
    Ok(sort_columns_by_index(out))
}

/// Keeps the labels of the given project.
pub open spec fn label_within(project_id: u128) -> spec_fn(LabelView) -> bool {
    |l: LabelView| l.project_id == project_id
}

/// The given project's labels, in creation order.
pub open spec fn spec_labels_of_project(labels: Seq<LabelView>, project_id: u128) -> Seq<
    LabelView,
> {
    labels.filter(label_within(project_id))
}

/// Lists a project's labels, in creation order.
pub fn get_labels(store: &Store, project_id: u128) -> (r: Result<Vec<LabelModel>, AppError>)
    ensures
        r matches Ok(v) && v.deep_view() == spec_labels_of_project(store@.labels, project_id),
{
    let ghost all_v = store@.labels;
    let mut out: Vec<LabelModel> = Vec::new();
    let n = store.labels.len();
    let mut i: usize = 0;
    proof {
        reveal(Seq::filter);
        assert(all_v.take(0int) =~= Seq::<LabelView>::empty());
        assert(out.deep_view() =~= spec_labels_of_project(all_v.take(0int), project_id));
    }
    while i < n
        invariant
            n == store.labels@.len(),
            i <= n,
            all_v == store@.labels,
            out.deep_view() == spec_labels_of_project(all_v.take(i as int), project_id),
        decreases n - i,
    {
        proof {
            assert(all_v.take((i + 1) as int) =~= all_v.take(i as int).push(all_v[i as int]));
            assert(all_v[i as int] == store.labels@[i as int]@);
            all_v.take(i as int).lemma_filter_push(all_v[i as int], label_within(project_id));
            assert(label_within(project_id)(all_v[i as int]) == (all_v[i as int].project_id
                == project_id));
        }
        let ghost oprev_deep = out.deep_view();
        if store.labels[i].project_id == project_id {
            let c = store.labels[i].clone();
            proof {
                assert(c.deep_view() == all_v[i as int]);
            }
            out.push(c);
            proof {
                assert(out.deep_view() =~= oprev_deep.push(all_v[i as int]));
            }
        }
        i += 1;
    }
    proof {
        assert(all_v.take(n as int) =~= all_v);
    }
    Ok(out)
}

/// Keeps the states of the given project.
pub open spec fn state_within(project_id: u128) -> spec_fn(StateView) -> bool {
    |s: StateView| s.project_id == project_id
}

/// The given project's states, in creation order.
pub open spec fn spec_states_of_project(states: Seq<StateView>, project_id: u128) -> Seq<
    StateView,
> {
    states.filter(state_within(project_id))
}

/// Lists a project's states, in creation order.
pub fn get_states(store: &Store, project_id: u128) -> (r: Result<Vec<StateModel>, AppError>)
    ensures
        r matches Ok(v) && v.deep_view() == spec_states_of_project(store@.states, project_id),
{
    let ghost all_v = store@.states;
    let mut out: Vec<StateModel> = Vec::new();
    let n = store.states.len();
    let mut i: usize = 0;
    proof {
        reveal(Seq::filter);
        assert(all_v.take(0int) =~= Seq::<StateView>::empty());
        assert(out.deep_view() =~= spec_states_of_project(all_v.take(0int), project_id));
    }
    while i < n
        invariant
            n == store.states@.len(),
            i <= n,
            all_v == store@.states,
            out.deep_view() == spec_states_of_project(all_v.take(i as int), project_id),
        decreases n - i,
    {
        proof {
            assert(all_v.take((i + 1) as int) =~= all_v.take(i as int).push(all_v[i as int]));
            assert(all_v[i as int] == store.states@[i as int]@);
            all_v.take(i as int).lemma_filter_push(all_v[i as int], state_within(project_id));
            assert(state_within(project_id)(all_v[i as int]) == (all_v[i as int].project_id
                == project_id));
        }
        let ghost oprev_deep = out.deep_view();
        if store.states[i].project_id == project_id {
            let c = store.states[i].clone();
            proof {
                assert(c.deep_view() == all_v[i as int]);
            }
            out.push(c);
            proof {
                assert(out.deep_view() =~= oprev_deep.push(all_v[i as int]));
            }
        }
        i += 1;
    }
    proof {
        assert(all_v.take(n as int) =~= all_v);
    }
    Ok(out)
}


/// Appends a fresh task with a fresh identifier, written back into `model`.
/// The store stands in for the database here: a task naming a project that is
/// not on file violates the foreign key and surfaces as a database error.
pub fn create_task(store: &mut Store, model: &mut TaskModel) -> (r: Result<(), AppError>)
    requires
        old(store).spec_can_mint(),
    ensures
        r is Ok <==> spec_find_project(old(store)@.projects, old(model).project_id) is Some,
        r matches Err(e) ==> e is DBError && *final(model) == *old(model) && final(store)@ == old(
            store,
        )@,
        r is Ok ==> final(model)@ == (TaskView { id: old(store)@.next_id, ..old(model)@ })
            && final(store)@ == (StoreView {
            tasks: old(store)@.tasks.push(final(model)@),
            next_id: (old(store)@.next_id + 1) as u128,
            ..old(store)@
        }),
{
    let parent = match get_project(store, model.project_id) {
        Ok(o) => o,
        Err(e) => {
            return Err(e);
        },
    };
    if parent.is_none() {
        return Err(db_error("tasks.project_id: foreign key violated"));
    }
    model.id = store.next_id;
    store.next_id = store.next_id + 1;
    store.tasks.push(model.clone());
    proof {
        assert(model@ =~= (TaskView { id: old(store)@.next_id, ..old(model)@ }));
        assert(store@ =~= (StoreView {
            tasks: old(store)@.tasks.push(model@),
            next_id: (old(store)@.next_id + 1) as u128,
            ..old(store)@
        }));
    }
    Ok(())
}

/// The stored task row after an update writes `v` over it: every column but
/// the identifier is overwritten; any other row is untouched.
pub open spec fn spec_task_row_updated(t: TaskView, v: TaskView) -> TaskView {
    if t.id == v.id {
        TaskView { id: t.id, ..v }
    } else {
        t
    }
}

/// The task table after `v` is written over every row with its identifier.
pub open spec fn spec_tasks_updated(tasks: Seq<TaskView>, v: TaskView) -> Seq<TaskView> {
    tasks.map_values(|t: TaskView| spec_task_row_updated(t, v))
}

/// Writes a task's fields back over every row with its identifier.
pub fn update_task(store: &mut Store, model: &mut TaskModel) -> (r: Result<(), AppError>)
    ensures
        r is Ok,
        *final(model) == *old(model),
        final(store)@ == (StoreView {
            tasks: spec_tasks_updated(old(store)@.tasks, old(model)@),
            ..old(store)@
        }),
{
    let ghost old_tasks = store@.tasks;
    let n = store.tasks.len();
    let mut i: usize = 0;
    while i < n
        invariant
            n == store.tasks@.len(),
            i <= n,
            store@.tasks.len() == n,
            old_tasks.len() == n,
            forall|j: int|
                0 <= j < i ==> store@.tasks[j] == spec_task_row_updated(old_tasks[j], model@),
            forall|j: int| i <= j < n ==> store@.tasks[j] == old_tasks[j],
            store@ == (StoreView { tasks: store@.tasks, ..old(store)@ }),
            old_tasks == old(store)@.tasks,
            *model == *old(model),
        decreases n - i,
    {
        let ghost pre = store@.tasks;
        let ghost pre_v = store.tasks@;
        proof {
            assert(pre[i as int] == pre_v[i as int]@);
        }
        if store.tasks[i].id == model.id {
            let row = model.clone();
            proof {
                assert(row@ =~= spec_task_row_updated(old_tasks[i as int], model@));
            }
            store.tasks[i] = row;
            proof {
                assert(store.tasks@ == pre_v.update(i as int, row));
                assert forall|j: int| 0 <= j < n implies #[trigger] store@.tasks[j] == (if j
                    == i {
                    row@
                } else {
                    pre[j]
                }) by {
                    assert(store@.tasks[j] == store.tasks@[j]@);
                    if j != i {
                        assert(store.tasks@[j] == pre_v[j]);
                        assert(pre[j] == pre_v[j]@);
                    }
                }
            }
        }
        i += 1;
    }
    proof {
        assert(store@.tasks =~= spec_tasks_updated(old_tasks, model@));
        assert(store@ =~= (StoreView {
            tasks: spec_tasks_updated(old(store)@.tasks, old(model)@),
            ..old(store)@
        }));
    }
    Ok(())
}

/// Looks a task up by identifier; no match is `None`, not an error.
#[verifier::loop_isolation(false)]
pub fn get_task(store: &Store, task_id: u128) -> (r: Result<Option<TaskModel>, AppError>)
    ensures
        r matches Ok(o) && o.deep_view() == spec_find_task(store@.tasks, task_id),
{
    let ghost tasks_v = store@.tasks;
    let n = store.tasks.len();
    let mut i: usize = 0;
    proof {
        assert(tasks_v.skip(0int) =~= tasks_v);
    }
    while i < n
        invariant
            i <= n,
            spec_find_task(tasks_v.skip(i as int), task_id) == spec_find_task(tasks_v, task_id),
        decreases n - i,
    {
        proof {
            assert(tasks_v.skip(i as int)[0] == tasks_v[i as int]);
        }
        if store.tasks[i].id == task_id {
            return Ok(Some(store.tasks[i].clone()));
        }
        proof {
            assert(tasks_v.skip(i as int).drop_first() =~= tasks_v.skip((i + 1) as int));
        }
        i += 1;
    }
    proof {
        assert(tasks_v.skip(n as int) =~= Seq::<TaskView>::empty());
    }
    Ok(None)
}

/// Keeps the tasks that do not carry the given identifier.
pub open spec fn task_keep(id: u128) -> spec_fn(TaskView) -> bool {
    |t: TaskView| t.id != id
}

/// The task table without the rows of the given identifier.
pub open spec fn spec_tasks_without(tasks: Seq<TaskView>, id: u128) -> Seq<TaskView> {
    tasks.filter(task_keep(id))
}

/// Keeps the attachments of other tasks.
pub open spec fn task_label_of_other_task(task_id: u128) -> spec_fn(TaskLabel) -> bool {
    |tl: TaskLabel| tl.task_id != task_id
}

/// The attachment table without the given task's attachments.
pub open spec fn spec_task_labels_without_task(task_labels: Seq<TaskLabel>, task_id: u128) -> Seq<
    TaskLabel,
> {
    task_labels.filter(task_label_of_other_task(task_id))
}

/// Removes every task with the given identifier, and its label attachments,
/// so that no reference is left dangling.
pub fn delete_task(store: &mut Store, task_id: u128) -> (r: Result<(), AppError>)
    ensures
        r is Ok,
        final(store)@ == (StoreView {
            tasks: spec_tasks_without(old(store)@.tasks, task_id),
            task_labels: spec_task_labels_without_task(old(store)@.task_labels, task_id),
            ..old(store)@
        }),
{
    let ghost old_tasks = store@.tasks;
    let mut kept: Vec<TaskModel> = Vec::new();
    let n = store.tasks.len();
    let mut i: usize = 0;
    proof {
        reveal(Seq::filter);
        assert(old_tasks.take(0int) =~= Seq::<TaskView>::empty());
        assert(kept.deep_view() =~= spec_tasks_without(old_tasks.take(0int), task_id));
    }
    while i < n
        invariant
            n == store.tasks@.len(),
            i <= n,
            old_tasks == store@.tasks,
            kept.deep_view() == spec_tasks_without(old_tasks.take(i as int), task_id),
        decreases n - i,
    {
        proof {
            assert(old_tasks.take((i + 1) as int) =~= old_tasks.take(i as int).push(
                old_tasks[i as int],
            ));
            assert(old_tasks[i as int] == store.tasks@[i as int]@);
            old_tasks.take(i as int).lemma_filter_push(old_tasks[i as int], task_keep(task_id));
            assert(task_keep(task_id)(old_tasks[i as int]) == (old_tasks[i as int].id != task_id));
        }
        let ghost kprev_deep = kept.deep_view();
        if store.tasks[i].id != task_id {
            let c = store.tasks[i].clone();
            proof {
                assert(c.deep_view() == old_tasks[i as int]);
            }
            kept.push(c);
            proof {
                assert(kept.deep_view() =~= kprev_deep.push(old_tasks[i as int]));
            }
        }
        i += 1;
    }
    proof {
        assert(old_tasks.take(n as int) =~= old_tasks);
    }
    store.tasks = kept;

    let ghost old_tls = store@.task_labels;
    let mut kept_tls: Vec<TaskLabel> = Vec::new();
    let n_tl = store.task_labels.len();
    let mut k: usize = 0;
    proof {
        reveal(Seq::filter);
        assert(old_tls.take(0int) =~= Seq::<TaskLabel>::empty());
    }
    while k < n_tl
        invariant
            n_tl == store.task_labels@.len(),
            k <= n_tl,
            old_tls == store@.task_labels,
            kept_tls@ == spec_task_labels_without_task(old_tls.take(k as int), task_id),
        decreases n_tl - k,
    {
        proof {
            assert(old_tls.take((k + 1) as int) =~= old_tls.take(k as int).push(
                old_tls[k as int],
            ));
            old_tls.take(k as int).lemma_filter_push(
                old_tls[k as int],
                task_label_of_other_task(task_id),
            );
            assert(task_label_of_other_task(task_id)(old_tls[k as int]) == (
            old_tls[k as int].task_id != task_id));
        }
        if store.task_labels[k].task_id != task_id {
            kept_tls.push(store.task_labels[k]);
        }
        k += 1;
    }
    proof {
        assert(old_tls.take(n_tl as int) =~= old_tls);
    }
    store.task_labels = kept_tls;
    proof {
        assert(store@ =~= (StoreView {
            tasks: spec_tasks_without(old(store)@.tasks, task_id),
            task_labels: spec_task_labels_without_task(old(store)@.task_labels, task_id),
            ..old(store)@
        }));
    }
    Ok(())
}

/// Keeps the tasks of the given project.
pub open spec fn task_within(project_id: u128) -> spec_fn(TaskView) -> bool {
    |t: TaskView| t.project_id == project_id
}

/// The given project's tasks, in creation order.
pub open spec fn spec_tasks_of_project(tasks: Seq<TaskView>, project_id: u128) -> Seq<TaskView> {
    tasks.filter(task_within(project_id))
}

/// Lists a project's tasks, in creation order.
pub fn get_tasks_by_project(store: &Store, project_id: u128) -> (r: Result<Vec<TaskModel>, AppError>)
    ensures
        r matches Ok(v) && v.deep_view() == spec_tasks_of_project(store@.tasks, project_id),
{
    let ghost all_v = store@.tasks;
    let mut out: Vec<TaskModel> = Vec::new();
    let n = store.tasks.len();
    let mut i: usize = 0;
    proof {
        reveal(Seq::filter);
        assert(all_v.take(0int) =~= Seq::<TaskView>::empty());
        assert(out.deep_view() =~= spec_tasks_of_project(all_v.take(0int), project_id));
    }
    while i < n
        invariant
            n == store.tasks@.len(),
            i <= n,
            all_v == store@.tasks,
            out.deep_view() == spec_tasks_of_project(all_v.take(i as int), project_id),
        decreases n - i,
    {
        proof {
            assert(all_v.take((i + 1) as int) =~= all_v.take(i as int).push(all_v[i as int]));
            assert(all_v[i as int] == store.tasks@[i as int]@);
            all_v.take(i as int).lemma_filter_push(all_v[i as int], task_within(project_id));
            assert(task_within(project_id)(all_v[i as int]) == (all_v[i as int].project_id
                == project_id));
        }
        let ghost oprev_deep = out.deep_view();
        if store.tasks[i].project_id == project_id {
            let c = store.tasks[i].clone();
            proof {
                assert(c.deep_view() == all_v[i as int]);
            }
            out.push(c);
            proof {
                assert(out.deep_view() =~= oprev_deep.push(all_v[i as int]));
            }
        }
        i += 1;
    }
    proof {
        assert(all_v.take(n as int) =~= all_v);
    }
    Ok(out)
}

/// Attaches a label to a task.
pub fn add_task_label(store: &mut Store, task_id: u128, label_id: u128) -> (r: Result<(), AppError>)
    ensures
        r is Ok,
        final(store)@ == (StoreView {
            task_labels: old(store)@.task_labels.push(TaskLabel { task_id, label_id }),
            ..old(store)@
        }),
{
    store.task_labels.push(TaskLabel { task_id, label_id });
    proof {
        assert(store@ =~= (StoreView {
            task_labels: old(store)@.task_labels.push(TaskLabel { task_id, label_id }),
            ..old(store)@
        }));
    }
    Ok(())
}

/// Keeps the attachments other than the given (task, label) pair.
pub open spec fn task_label_keep(task_id: u128, label_id: u128) -> spec_fn(TaskLabel) -> bool {
    |tl: TaskLabel| !(tl.task_id == task_id && tl.label_id == label_id)
}

/// The attachment table without the given (task, label) pair.
pub open spec fn spec_task_labels_without(
    task_labels: Seq<TaskLabel>,
    task_id: u128,
    label_id: u128,
) -> Seq<TaskLabel> {
    task_labels.filter(task_label_keep(task_id, label_id))
}

/// Detaches a label from a task.
pub fn remove_task_label(store: &mut Store, task_id: u128, label_id: u128) -> (r: Result<
    (),
    AppError,
>)
    ensures
        r is Ok,
        final(store)@ == (StoreView {
            task_labels: spec_task_labels_without(old(store)@.task_labels, task_id, label_id),
            ..old(store)@
        }),
{
    let ghost old_tls = store@.task_labels;
    let mut kept: Vec<TaskLabel> = Vec::new();
    let n = store.task_labels.len();
    let mut i: usize = 0;
    proof {
        reveal(Seq::filter);
        assert(old_tls.take(0int) =~= Seq::<TaskLabel>::empty());
    }
    while i < n
        invariant
            n == store.task_labels@.len(),
            i <= n,
            old_tls == store@.task_labels,
            kept@ == spec_task_labels_without(old_tls.take(i as int), task_id, label_id),
        decreases n - i,
    {
        proof {
            assert(old_tls.take((i + 1) as int) =~= old_tls.take(i as int).push(
                old_tls[i as int],
            ));
            old_tls.take(i as int).lemma_filter_push(
                old_tls[i as int],
                task_label_keep(task_id, label_id),
            );
            assert(task_label_keep(task_id, label_id)(old_tls[i as int]) == !(
            old_tls[i as int].task_id == task_id && old_tls[i as int].label_id == label_id));
        }
        let tl = store.task_labels[i];
        if !(tl.task_id == task_id && tl.label_id == label_id) {
            kept.push(tl);
        }
        i += 1;
    }
    proof {
        assert(old_tls.take(n as int) =~= old_tls);
    }
    store.task_labels = kept;
    proof {
        assert(store@ =~= (StoreView {
            task_labels: spec_task_labels_without(old(store)@.task_labels, task_id, label_id),
            ..old(store)@
        }));
    }
    Ok(())
}

/// The labels attached to a task: for each attachment of the task, in table
/// order, the label row it refers to, where that label still exists.
pub open spec fn spec_task_label_rows(
    task_labels: Seq<TaskLabel>,
    labels: Seq<LabelView>,
    task_id: u128,
) -> Seq<LabelView>
    decreases task_labels.len(),
{
    if task_labels.len() == 0 {
        Seq::empty()
    } else {
        let init = spec_task_label_rows(task_labels.drop_last(), labels, task_id);
        if task_labels.last().task_id == task_id {
            match spec_find_label(labels, task_labels.last().label_id) {
                Some(l) => init.push(l),
                None => init,
            }
        } else {
            init
        }
    }
}

/// Lists the labels attached to a task, in attachment order.
#[verifier::loop_isolation(false)]
pub fn get_task_labels(store: &Store, task_id: u128) -> (r: Result<Vec<LabelModel>, AppError>)
    ensures
        r matches Ok(v) && v.deep_view() == spec_task_label_rows(
            store@.task_labels,
            store@.labels,
            task_id,
        ),
{
    let ghost tls_v = store@.task_labels;
    let ghost labels_v = store@.labels;
    let mut out: Vec<LabelModel> = Vec::new();
    let n = store.task_labels.len();
    let mut i: usize = 0;
    proof {
        assert(tls_v.take(0int) =~= Seq::<TaskLabel>::empty());
        assert(out.deep_view() =~= spec_task_label_rows(tls_v.take(0int), labels_v, task_id));
    }
    while i < n
        invariant
            i <= n,
            out.deep_view() == spec_task_label_rows(tls_v.take(i as int), labels_v, task_id),
        decreases n - i,
    {
        proof {
            assert(tls_v.take((i + 1) as int).drop_last() =~= tls_v.take(i as int));
            assert(tls_v.take((i + 1) as int).last() == tls_v[i as int]);
        }
        let tl = store.task_labels[i];
        let ghost oprev_deep = out.deep_view();
        if tl.task_id == task_id {
            let found = match get_label(store, tl.label_id) {
                Ok(o) => o,
                Err(e) => {
                    return Err(e);
                },
            };
            if let Some(l) = found {
                proof {
                    assert(spec_find_label(labels_v, tls_v[i as int].label_id) == Some(l@));
                    assert(l.deep_view() == l@);
                }
                out.push(l);
                proof {
                    assert(out.deep_view() =~= oprev_deep.push(l@));
                }
            }
        }
        i += 1;
    }
    proof {
        assert(tls_v.take(n as int) =~= tls_v);
    }
    Ok(out)
}


/// Appending a session leaves earlier tokens' resolutions alone and makes the
/// new token resolve to the new session, where it was free before.
proof fn lemma_find_session_push(sessions: Seq<UserSessionView>, x: UserSessionView, t: Seq<char>)
    ensures
        spec_find_session(sessions.push(x), t) == (match spec_find_session(sessions, t) {
            Some(y) => Some(y),
            None => if x.token == t {
                Some(x)
            } else {
                None
            },
        }),
    decreases sessions.len(),
{
    if sessions.len() == 0 {
        assert(sessions.push(x).len() == 1);
        assert(sessions.push(x)[0] == x);
        assert(sessions.push(x).drop_first() =~= Seq::<UserSessionView>::empty());
        assert(spec_find_session(Seq::<UserSessionView>::empty(), t) is None);
        assert(spec_find_session(sessions, t) is None);
    } else {
        assert(sessions.push(x).len() == sessions.len() + 1);
        assert(sessions.push(x)[0] == sessions[0]);
        assert(sessions.push(x).drop_first() =~= sessions.drop_first().push(x));
        lemma_find_session_push(sessions.drop_first(), x, t);
        if sessions[0].token == t {
            assert(spec_find_session(sessions, t) == Some(sessions[0]));
            assert(spec_find_session(sessions.push(x), t) == Some(sessions[0]));
        } else {
            assert(spec_find_session(sessions, t) == spec_find_session(
                sessions.drop_first(),
                t,
            ));
            assert(spec_find_session(sessions.push(x), t) == spec_find_session(
                sessions.drop_first().push(x),
                t,
            ));
        }
    }
}

/// Session round trip: resolving the token under which a session was just
/// stored yields exactly the session's user, provided the token was not bound
/// before and the user is on file.
pub proof fn lemma_session_round_trip(s: StoreView, sess: UserSessionView, u: UserView)
    requires
        spec_find_session(s.sessions, sess.token) is None,
        spec_find_user_by_id(s.users, sess.user_id) == Some(u),
    ensures
        spec_user_from_session(
            (StoreView { sessions: s.sessions.push(sess), ..s }),
            sess.token,
        ) == Some(u),
{
    lemma_find_session_push(s.sessions, sess, sess.token);
}

} // verus!
