//! The persistent entities: users, sessions, projects and their children, and
//! the intrinsic permission rules each resource grants by itself. Identifiers
//! are held as 128-bit integers.

use vstd::prelude::*;
use vstd::string::StringSliceAdditionalSpecFns;
use vstd::utf8::encode_utf8;
use crate::permissions::Permissions;
use crate::error::{unauthorized, AppError};
use crate::crypto::{argon2_decodable, argon2_encoded, argon2_verifies, argon2_hash, argon2_verify, argon2_error_message, os_random_bytes};
use crate::user_messages::CreateUserMessage;

verus! {

/// Salt length, in bytes, used when a password is (re)hashed.
pub const SALT_LEN: usize = 12;

/// Whether `h` is an encoded hash of the password bytes `pw` under some salt
/// of the length this library uses.
pub open spec fn spec_is_hash_of(h: Seq<char>, pw: Seq<u8>) -> bool {
    exists|salt: Seq<u8>| salt.len() == SALT_LEN && h == argon2_encoded(pw, salt)
}

/// Abstract value of a [`UserModel`].
#[verifier::ext_equal]
pub struct UserView {
    pub username: Seq<char>,
    pub password_hash: Seq<char>,
    pub id: u128,
    pub is_admin: bool,
}

/// An account: unique identity, unique username, an encoded password
/// credential, and an administrator flag.
#[derive(Debug)]
pub struct UserModel {
    pub username: String,
    pub password_hash: String,
    pub id: u128,
    pub is_admin: bool,
}

impl View for UserModel {
    type V = UserView;

    open spec fn view(&self) -> UserView {
        UserView {
            username: self.username@,
            password_hash: self.password_hash@,
            id: self.id,
            is_admin: self.is_admin,
        }
    }
}

impl DeepView for UserModel {
    type V = UserView;

    open spec fn deep_view(&self) -> UserView {
        self@
    }
}

impl Clone for UserModel {
    fn clone(&self) -> (r: Self)
        ensures
            r@ == self@,
    {
        UserModel {
            username: self.username.clone(),
            password_hash: self.password_hash.clone(),
            id: self.id,
            is_admin: self.is_admin,
        }
    }
}

impl UserModel {
    /// The permission this user's own record intrinsically grants a caller.
    pub open spec fn spec_perms(self) -> Option<Permissions> {
        if self.is_admin {
            Some(Permissions::Admin)
        } else {
            None
        }
    }

    /// Replaces the stored credential with a fresh salted hash of `new_pw`.
    pub fn change_password(&mut self, new_pw: &str)
        requires
            new_pw.spec_bytes().len() <= 0xFFFF_FFFFu64,
        ensures
            spec_is_hash_of(final(self).password_hash@, new_pw.spec_bytes()),
            final(self).username == old(self).username,
            final(self).id == old(self).id,
            final(self).is_admin == old(self).is_admin,
    {
        let salt = os_random_bytes(SALT_LEN);
        self.password_hash = argon2_hash(new_pw, &salt);
        proof {
            let s = salt@;
            assert(s.len() == SALT_LEN && self.password_hash@ == argon2_encoded(
                new_pw.spec_bytes(),
                s,
            ));
        }
    }

    /// Demands the administrator flag; an ordinary user is turned away.
    pub fn is_admin(&self) -> (r: Result<(), AppError>)
        ensures
            r is Ok <==> self.is_admin,
            r matches Err(e) ==> e is Unauthorized,
    {
        if !self.is_admin {
            Err(unauthorized("Admin required"))
        } else {
            Ok(())
        }
    }

    /// Verifies a candidate password against the stored credential: a
    /// mismatch is `Ok(false)`, not an error. The check fails exactly when the
    /// stored hash is malformed (an empty one in particular) or the candidate
    /// exceeds the verifier's length bound.
    pub fn check_password(&self, password: &str) -> (r: Result<bool, AppError>)
        ensures
            r matches Ok(b) ==> b == argon2_verifies(self.password_hash@, password.spec_bytes()),
            r is Ok <==> (argon2_decodable(self.password_hash@) && password.spec_bytes().len()
                <= 0xFFFF_FFFFu64),
            r matches Err(e) ==> e is CryptError,
            self.password_hash@.len() == 0 ==> r is Err,
    {
        match argon2_verify(self.password_hash.as_str(), password) {
            Ok(b) => Ok(b),
            Err(e) => Err(AppError::CryptError { msg: argon2_error_message(&e) }),
        }
    }

    /// The caller-independent permission of this user over anything: an
    /// administrator short-circuits to `Admin`, anyone else to no opinion.
    pub fn perms(&self) -> (r: Option<Permissions>)
        ensures
            r == self.spec_perms(),
    {
        if self.is_admin {
            Some(Permissions::Admin)
        } else {
            None
        }
    }

    /// Builds a fresh account from a signup message: the password is salted
    /// and hashed, the identifier is left for the store to assign, and the
    /// admin flag defaults to off.
    pub fn from_message(value: CreateUserMessage) -> (r: Self)
        requires
            encode_utf8(value.password@).len() <= 0xFFFF_FFFFu64,
        ensures
            r.username == value.username,
            r.id == 0,
            r.is_admin == (value.is_admin matches Some(true)),
            spec_is_hash_of(r.password_hash@, encode_utf8(value.password@)),
    {
        let salt = os_random_bytes(SALT_LEN);
        let hash = argon2_hash(value.password.as_str(), &salt);
        proof {
            let s = salt@;
            assert(s.len() == SALT_LEN && hash@ == argon2_encoded(
                encode_utf8(value.password@),
                s,
            ));
        }
        UserModel {
            username: value.username,
            password_hash: hash,
            id: 0,
            is_admin: match value.is_admin {
                Some(b) => b,
                None => false,
            },
        }
    }
}

/// A caller whose bearer token resolved to a live session.
#[derive(Debug)]
pub struct AuthenticatedUser {
    pub user: UserModel,
    pub token: String,
}

/// Abstract value of a [`UserSessionModel`].
#[verifier::ext_equal]
pub struct UserSessionView {
    pub token: Seq<char>,
    pub user_agent: Seq<char>,
    pub ip_addr: Seq<char>,
    pub user_id: u128,
}

/// A live session: an opaque bearer token bound to a user, with the client
/// metadata seen on the most recent request.
#[derive(Debug)]
pub struct UserSessionModel {
    pub token: String,
    pub user_agent: String,
    pub ip_addr: String,
    pub user_id: u128,
}

impl View for UserSessionModel {
    type V = UserSessionView;

    open spec fn view(&self) -> UserSessionView {
        UserSessionView {
            token: self.token@,
            user_agent: self.user_agent@,
            ip_addr: self.ip_addr@,
            user_id: self.user_id,
        }
    }
}

impl DeepView for UserSessionModel {
    type V = UserSessionView;

    open spec fn deep_view(&self) -> UserSessionView {
        self@
    }
}

impl Clone for UserSessionModel {
    fn clone(&self) -> (r: Self)
        ensures
            r@ == self@,
    {
        UserSessionModel {
            token: self.token.clone(),
            user_agent: self.user_agent.clone(),
            ip_addr: self.ip_addr.clone(),
            user_id: self.user_id,
        }
    }
}

impl UserSessionModel {
    pub fn new(token: &str, user_agent: &str, ip_addr: String, user_id: u128) -> (r: Self)
        ensures
            r@ == (UserSessionView {
                token: token@,
                user_agent: user_agent@,
                ip_addr: ip_addr@,
                user_id: user_id,
            }),
    {
        UserSessionModel { token: token.to_owned(), user_agent: user_agent.to_owned(), ip_addr, user_id }
    }
}

/// Abstract value of a [`ProjectModel`].
#[verifier::ext_equal]
pub struct ProjectView {
    pub name: Seq<char>,
    pub public: bool,
    pub id: u128,
    pub owner_id: u128,
}

/// An owned board: it has exactly one owner and may be publicly readable.
#[derive(Debug)]
pub struct ProjectModel {
    pub name: String,
    pub public: bool,
    pub id: u128,
    pub owner_id: u128,
}

impl View for ProjectModel {
    type V = ProjectView;

    open spec fn view(&self) -> ProjectView {
        ProjectView { name: self.name@, public: self.public, id: self.id, owner_id: self.owner_id }
    }
}

impl DeepView for ProjectModel {
    type V = ProjectView;

    open spec fn deep_view(&self) -> ProjectView {
        self@
    }
}

impl Clone for ProjectModel {
    fn clone(&self) -> (r: Self)
        ensures
            r@ == self@,
    {
        ProjectModel {
            name: self.name.clone(),
            public: self.public,
            id: self.id,
            owner_id: self.owner_id,
        }
    }
}

/// The permission a project's own fields grant a user: its owner is `Owner`,
/// anyone may read it while it is public, and otherwise it has no opinion.
pub open spec fn spec_project_intrinsic(p: ProjectView, user_id: u128) -> Option<Permissions> {
    if user_id == p.owner_id {
        Some(Permissions::Owner)
    } else if p.public {
        Some(Permissions::Reader)
    } else {
        None
    }
}

/// The permission a user record grants a caller: each user owns itself.
pub open spec fn spec_user_intrinsic(u: UserView, user_id: u128) -> Option<Permissions> {
    if u.id == user_id {
        Some(Permissions::Owner)
    } else {
        None
    }
}

/// A resource with an intrinsic rule: a permission level derivable from the
/// resource's own fields, before any stored grant is consulted.
pub trait Ressource {
    /// What the intrinsic rule yields for `user_id`.
    spec fn spec_intrinsic(&self, user_id: u128) -> Option<Permissions>;

    /// Evaluates the intrinsic rule, in memory.
    fn get_permissions(&self, user_id: u128) -> (r: Option<Permissions>)
        ensures
            r == self.spec_intrinsic(user_id),
        ;
}

impl Ressource for UserModel {
    open spec fn spec_intrinsic(&self, user_id: u128) -> Option<Permissions> {
        spec_user_intrinsic(self@, user_id)
    }

    fn get_permissions(&self, user_id: u128) -> (r: Option<Permissions>) {
        if self.id == user_id {
            Some(Permissions::Owner)
        } else {
            None
        }
    }
}

impl Ressource for ProjectModel {
    open spec fn spec_intrinsic(&self, user_id: u128) -> Option<Permissions> {
        spec_project_intrinsic(self@, user_id)
    }

    fn get_permissions(&self, user_id: u128) -> (r: Option<Permissions>) {
        if user_id == self.owner_id {
            Some(Permissions::Owner)
        } else if self.public {
            Some(Permissions::Reader)
        } else {
            None
        }
    }
}

/// Abstract value of a [`ProjectColumnModel`].
#[verifier::ext_equal]
pub struct ProjectColumnView {
    pub name: Seq<char>,
    pub card_limit: i32,
    pub id: u128,
    pub project_id: u128,
    pub index: i32,
}

/// A column of a project's board, with an ordering position and a card limit.
#[derive(Debug)]
pub struct ProjectColumnModel {
    pub name: String,
    pub card_limit: i32,
    pub id: u128,
    pub project_id: u128,
    pub index: i32,
}

impl View for ProjectColumnModel {
    type V = ProjectColumnView;

    open spec fn view(&self) -> ProjectColumnView {
        ProjectColumnView {
            name: self.name@,
            card_limit: self.card_limit,
            id: self.id,
            project_id: self.project_id,
            index: self.index,
        }
    }
}

impl DeepView for ProjectColumnModel {
    type V = ProjectColumnView;

    open spec fn deep_view(&self) -> ProjectColumnView {
        self@
    }
}

impl Clone for ProjectColumnModel {
    fn clone(&self) -> (r: Self)
        ensures
            r@ == self@,
    {
        ProjectColumnModel {
            name: self.name.clone(),
            card_limit: self.card_limit,
            id: self.id,
            project_id: self.project_id,
            index: self.index,
        }
    }
}

/// Abstract value of a [`LabelModel`].
#[verifier::ext_equal]
pub struct LabelView {
    pub name: Seq<char>,
    pub id: u128,
    pub project_id: u128,
}

/// A label defined by a project, attachable to its tasks.
#[derive(Debug)]
pub struct LabelModel {
    pub name: String,
    pub id: u128,
    pub project_id: u128,
}

impl View for LabelModel {
    type V = LabelView;

    open spec fn view(&self) -> LabelView {
        LabelView { name: self.name@, id: self.id, project_id: self.project_id }
    }
}

impl DeepView for LabelModel {
    type V = LabelView;

    open spec fn deep_view(&self) -> LabelView {
        self@
    }
}

impl Clone for LabelModel {
    fn clone(&self) -> (r: Self)
        ensures
            r@ == self@,
    {
        LabelModel { name: self.name.clone(), id: self.id, project_id: self.project_id }
    }
}

/// Abstract value of a [`StateModel`].
#[verifier::ext_equal]
pub struct StateView {
    pub name: Seq<char>,
    pub id: u128,
    pub project_id: u128,
}

/// A workflow state defined by a project.
#[derive(Debug)]
pub struct StateModel {
    pub name: String,
    pub id: u128,
    pub project_id: u128,
}

impl View for StateModel {
    type V = StateView;

    open spec fn view(&self) -> StateView {
        StateView { name: self.name@, id: self.id, project_id: self.project_id }
    }
}

impl DeepView for StateModel {
    type V = StateView;

    open spec fn deep_view(&self) -> StateView {
        self@
    }
}

impl Clone for StateModel {
    fn clone(&self) -> (r: Self)
        ensures
            r@ == self@,
    {
        StateModel { name: self.name.clone(), id: self.id, project_id: self.project_id }
    }
}

/// Abstract value of a [`TaskModel`].
#[verifier::ext_equal]
pub struct TaskView {
    pub title: Seq<char>,
    pub id: u128,
    pub project_id: u128,
    pub column_id: Option<u128>,
    pub assignee_id: Option<u128>,
    pub creator_id: Option<u128>,
    pub deadline: Option<i64>,
    pub estimation: Option<i32>,
    pub state_id: Option<u128>,
    pub parent_id: Option<u128>,
    pub task_type: i32,
}

/// A task of a project: optionally placed in a column, assigned, given a
/// state, a parent, a deadline (milliseconds since the epoch) and an effort
/// estimation.
#[derive(Debug)]
pub struct TaskModel {
    pub title: String,
    pub id: u128,
    pub project_id: u128,
    pub column_id: Option<u128>,
    pub assignee_id: Option<u128>,
    pub creator_id: Option<u128>,
    pub deadline: Option<i64>,
    pub estimation: Option<i32>,
    pub state_id: Option<u128>,
    pub parent_id: Option<u128>,
    pub task_type: i32,
}

impl View for TaskModel {
    type V = TaskView;

    open spec fn view(&self) -> TaskView {
        TaskView {
            title: self.title@,
            id: self.id,
            project_id: self.project_id,
            column_id: self.column_id,
            assignee_id: self.assignee_id,
            creator_id: self.creator_id,
            deadline: self.deadline,
            estimation: self.estimation,
            state_id: self.state_id,
            parent_id: self.parent_id,
            task_type: self.task_type,
        }
    }
}

impl DeepView for TaskModel {
    type V = TaskView;

    open spec fn deep_view(&self) -> TaskView {
        self@
    }
}

impl Clone for TaskModel {
    fn clone(&self) -> (r: Self)
        ensures
            r@ == self@,
    {
        TaskModel {
            title: self.title.clone(),
            id: self.id,
            project_id: self.project_id,
            column_id: self.column_id,
            assignee_id: self.assignee_id,
            creator_id: self.creator_id,
            deadline: self.deadline,
            estimation: self.estimation,
            state_id: self.state_id,
            parent_id: self.parent_id,
            task_type: self.task_type,
        }
    }
}

/// The kind of a task.
#[derive(Clone, Copy, Debug, PartialEq, Eq, Structural)]
pub enum TaskType {
    Standard,
    Repeatable,
}

impl Default for TaskType {
    fn default() -> (r: Self)
        ensures
            r == TaskType::Standard,
    {
        TaskType::Standard
    }
}

} // verus!
