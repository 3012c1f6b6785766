//! The user endpoints: login, signup, self-service and administrative
//! updates, listing, and deletion. Every authenticated route first refreshes
//! the caller's session metadata, then enforces its permission rule.

use vstd::prelude::*;
use vstd::utf8::encode_utf8;
use crate::crypto::{argon2_decodable, argon2_verifies, base64_encode, base64_standard, os_random_bytes};
use crate::error::{bad_request, not_found, unauthorized, AppError};
use crate::models::{spec_is_hash_of, AuthenticatedUser, UserModel, UserSessionModel, UserSessionView, UserView};
use crate::permissions::Permissions;
use crate::store::{
    create_user, create_user_session, delete_user, get_user_by_id, get_user_by_name, get_users,
    spec_find_user_by_id, spec_find_user_by_name, spec_users_updated, spec_users_without, update_user, Store, StoreView,
};
use crate::user_handler::{handle_token_update, spec_touched};
use crate::user_messages::{CreateUserMessage, LoginMessage, LoginTokenMessage, UpdateUserMessage, UserMessage};
use crate::messages::SuccessMessage;
use crate::util::{spec_page_items, spec_page_total, Page, Pagination};

verus! {

/// The permission a caller holds over a user record: an administrator holds
/// `Admin`, the record's own user holds `Owner`, anyone else nothing.
pub open spec fn spec_get_user_permissions(u: UserView, user_id: u128) -> Permissions {
    if u.is_admin {
        Permissions::Admin
    } else if u.id == user_id {
        Permissions::Owner
    } else {
        Permissions::NoAccess
    }
}

pub fn get_user_permissions(user: &AuthenticatedUser, user_id: u128) -> (r: Permissions)
    ensures
        r == spec_get_user_permissions(user.user@, user_id),
{
    if user.user.is_admin {
        Permissions::Admin
    } else if user.user.id == user_id {
        Permissions::Owner
    } else {
        Permissions::NoAccess
    }
}

/// Converts fetched user rows into their client representation, in order; the
/// credential stays behind.
pub(crate) fn user_messages_of(models: Vec<UserModel>) -> (r: Vec<UserMessage>)
    ensures
        r@.len() == models@.len(),
        forall|j: int|
            0 <= j < models@.len() ==> ((#[trigger] r@[j]).id == models@[j]@.id && r@[j].username@
                == models@[j]@.username && r@[j].is_admin == models@[j]@.is_admin),
{
    let mut out: Vec<UserMessage> = Vec::new();
    let n = models.len();
    let mut i: usize = 0;
    while i < n
        invariant
            n == models@.len(),
            i <= n,
            out@.len() == i,
            forall|j: int|
                0 <= j < i ==> ((#[trigger] out@[j]).id == models@[j]@.id && out@[j].username@
                    == models@[j]@.username && out@[j].is_admin == models@[j]@.is_admin),
        decreases n - i,
    {
        out.push(UserMessage::from_model(models[i].clone()));
        i += 1;
    }
    out
}

/// Signs a fresh user up: only an administrator may do so, the username must
/// not be empty, and it must still be free, as the user table's uniqueness
/// constraint demands.
pub fn create_user_route(
    store: &mut Store,
    user: &AuthenticatedUser,
    msg: CreateUserMessage,
    user_agent: Option<&str>,
    ip_addr: Option<String>,
) -> (r: Result<UserMessage, AppError>)
    requires
        old(store).spec_can_mint(),
        encode_utf8(msg.password@).len() <= 0xFFFF_FFFFu64,
    ensures
        !(user_agent is Some && ip_addr is Some) ==> (r matches Err(e) && e is RequestError && final(store)@ == old(store)@),
        user_agent matches Some(ua) ==> (ip_addr matches Some(ip) ==> {
            let touched = spec_touched(old(store)@, user.token@, ua@, ip@, user.user@.id);
            &&& msg.username@.len() == 0 ==> (r matches Err(e) && e is RequestError
                && final(store)@ == touched)
            &&& (msg.username@.len() > 0 && !user.user@.is_admin) ==> (r matches Err(e)
                && e is Unauthorized && final(store)@ == touched)
            &&& (msg.username@.len() > 0 && user.user@.is_admin && spec_find_user_by_name(
                old(store)@.users,
                msg.username@,
            ) is Some) ==> (r matches Err(e) && e is DBError && final(store)@ == touched)
            &&& (msg.username@.len() > 0 && user.user@.is_admin && spec_find_user_by_name(
                old(store)@.users,
                msg.username@,
            ) is None) ==> (r matches Ok(m) && m.username@ == msg.username@ && m.id == old(
                store,
            )@.next_id && m.is_admin == (msg.is_admin matches Some(true)) && exists|h: Seq<char>|
                spec_is_hash_of(h, encode_utf8(msg.password@)) && final(store)@ == (StoreView {
                    sessions: touched.sessions,
                    users: old(store)@.users.push(
                        UserView {
                            username: msg.username@,
                            password_hash: h,
                            id: old(store)@.next_id,
                            is_admin: (msg.is_admin matches Some(true)),
                        },
                    ),
                    next_id: (old(store)@.next_id + 1) as u128,
                    ..old(store)@
                }))
        }),
{
    match handle_token_update(store, &user.user, user.token.as_str(), user_agent, ip_addr) {
        Ok(()) => (),
        Err(e) => {
            return Err(e);
        },
    }
    if msg.username.as_str().is_empty() {
        return Err(bad_request("username must not be empty"));
    }
    match user.user.is_admin() {
        Ok(()) => (),
        Err(e) => {
            return Err(e);
        },
    }
    let ghost msg_username = msg.username@;
    let ghost msg_is_admin = msg.is_admin;
    let mut new_user = UserModel::from_message(msg);
    let ghost h = new_user.password_hash@;
    match create_user(store, &mut new_user) {
        Ok(()) => {
            proof {
                assert(new_user@ =~= (UserView {
                    username: msg_username,
                    password_hash: h,
                    id: old(store)@.next_id,
                    is_admin: (msg_is_admin matches Some(true)),
                }));
            }
            Ok(UserMessage::from_model(new_user))
        },
        Err(e) => Err(e),
    }
}

/// Logs a user in: when the offered password verifies against the stored
/// credential, a fresh 64-byte random token is base64-encoded, a session is
/// stored under it, and the token is returned. Login succeeds exactly when
/// the request carries the client metadata, the username is on file, the
/// stored credential is checkable and the password verifies; an unknown
/// username or a wrong password is a malformed request, and only an unusable
/// stored credential is a cryptography error.
pub fn login_route(
    store: &mut Store,
    msg: LoginMessage,
    user_agent: Option<&str>,
    ip_addr: Option<String>,
) -> (r: Result<LoginTokenMessage, AppError>)
    ensures
        r matches Err(e) ==> (final(store)@ == old(store)@ && (e is RequestError
            || e is CryptError)),
        spec_find_user_by_name(old(store)@.users, msg.username@) is None ==> (r matches Err(e)
            && e is RequestError),
        !(user_agent is Some && ip_addr is Some) ==> (r matches Err(e) && e is RequestError),
        user_agent matches Some(ua) ==> (ip_addr matches Some(ip) ==> {
            &&& r is Ok <==> (spec_find_user_by_name(old(store)@.users, msg.username@) matches Some(
                u,
            ) && argon2_decodable(u.password_hash) && encode_utf8(msg.password@).len()
                <= 0xFFFF_FFFFu64 && argon2_verifies(u.password_hash, encode_utf8(msg.password@)))
            &&& (spec_find_user_by_name(old(store)@.users, msg.username@) matches Some(u)
                && argon2_decodable(u.password_hash) && encode_utf8(msg.password@).len()
                <= 0xFFFF_FFFFu64 && !argon2_verifies(
                u.password_hash,
                encode_utf8(msg.password@),
            )) ==> (r matches Err(e) && e is RequestError)
            &&& r matches Ok(t) ==> (spec_find_user_by_name(old(store)@.users, msg.username@)
                matches Some(u) && argon2_verifies(u.password_hash, encode_utf8(msg.password@)) && (
            exists|bytes: Seq<u8>| bytes.len() == 64 && t.token@ == base64_standard(bytes))
                && final(store)@ == (StoreView {
                sessions: old(store)@.sessions.push(
                    UserSessionView {
                        token: t.token@,
                        user_agent: ua@,
                        ip_addr: ip@,
                        user_id: u.id,
                    },
                ),
                ..old(store)@
            }))
        }),
{
    let found = match get_user_by_name(store, msg.username.as_str()) {
        Ok(o) => o,
        Err(e) => {
            return Err(e);
        },
    };
    let user = match found {
        Some(u) => u,
        None => {
            return Err(bad_request("username or password wrong"));
        },
    };
    let ua = match user_agent {
        Some(ua) => ua,
        None => {
            return Err(bad_request("Missing User Agent Header"));
        },
    };
    let ip = match ip_addr {
        Some(ip) => ip,
        None => {
            return Err(bad_request("IP Address Missing"));
        },
    };
    let ghost ip_view = ip@;
    let token_bin = os_random_bytes(64);
    let token = base64_encode(&token_bin);
    match user.check_password(msg.password.as_str()) {
        Ok(true) => {
            let session = UserSessionModel::new(token.as_str(), ua, ip, user.id);
            match create_user_session(store, session) {
                Ok(()) => {
                    proof {
                        assert(store@ =~= (StoreView {
                            sessions: old(store)@.sessions.push(
                                UserSessionView {
                                    token: token@,
                                    user_agent: ua@,
                                    ip_addr: ip_view,
                                    user_id: user.id,
                                },
                            ),
                            ..old(store)@
                        }));
                    }
                    Ok(LoginTokenMessage::new(token.as_str()))
                },
                Err(e) => Err(e),
            }
        },
        Ok(false) => Err(bad_request("username or password wrong")),
        Err(e) => Err(e),
    }
}

/// Updates a user record: a non-admin caller may only touch their own record,
/// must not touch the admin flag, and changes the password only by presenting
/// the old one; a failed old-password check silently keeps the credential.
pub fn update_user_route(
    store: &mut Store,
    user: &AuthenticatedUser,
    msg: UpdateUserMessage,
    user_agent: Option<&str>,
    ip_addr: Option<String>,
) -> (r: Result<UserMessage, AppError>)
    requires
        msg.new_password matches Some(p) ==> encode_utf8(p@).len() <= 0xFFFF_FFFFu64,
    ensures
        !(user_agent is Some && ip_addr is Some) ==> (r matches Err(e) && e is RequestError && final(store)@ == old(store)@),
        user_agent matches Some(ua) ==> (ip_addr matches Some(ip) ==> {
            let touched = spec_touched(old(store)@, user.token@, ua@, ip@, user.user@.id);
            let target = (match msg.id {
                Some(i) => i,
                None => user.user@.id,
            });
            let allowed = spec_get_user_permissions(user.user@, target).spec_satisfies(
                msg.spec_requirements(user.user@.id),
            );
            let valid = user.user@.is_admin || (msg.new_password is Some <==> msg.old_password
                is Some);
            &&& !valid ==> (r matches Err(e) && e is RequestError && final(store)@ == touched)
            &&& (valid && !allowed) ==> (r matches Err(e) && e is Unauthorized && final(store)@
                == touched)
            &&& (valid && allowed && spec_find_user_by_id(old(store)@.users, target) is None) ==> (
            r matches Err(e) && e is NotFound && final(store)@ == touched)
            &&& spec_find_user_by_id(old(store)@.users, target) matches Some(u0) ==> (valid
                && allowed) ==> {
                &&& r is Ok <==> (msg.new_password is None || (argon2_decodable(u0.password_hash)
                    && msg.spec_old_password_bytes().len() <= 0xFFFF_FFFFu64))
                &&& r matches Err(e) ==> (e is CryptError && final(store)@ == touched)
                &&& r matches Ok(m) ==> exists|patched: UserView|
                    #![trigger spec_users_updated(old(store)@.users, patched)]
                    {
                        &&& patched.id == u0.id
                        &&& patched.username == (match msg.username {
                            Some(n) => n@,
                            None => u0.username,
                        })
                        &&& patched.is_admin == (match msg.is_admin {
                            Some(b) => b,
                            None => u0.is_admin,
                        })
                        &&& (msg.new_password is None ==> patched.password_hash
                            == u0.password_hash)
                        &&& (msg.new_password matches Some(np) ==> ((argon2_verifies(
                            u0.password_hash,
                            msg.spec_old_password_bytes(),
                        ) ==> spec_is_hash_of(patched.password_hash, encode_utf8(np@))) && (
                        !argon2_verifies(
                            u0.password_hash,
                            msg.spec_old_password_bytes(),
                        ) ==> patched.password_hash == u0.password_hash)))
                        &&& final(store)@ == (StoreView {
                            sessions: touched.sessions,
                            users: spec_users_updated(old(store)@.users, patched),
                            ..old(store)@
                        })
                        &&& m.id == patched.id
                        &&& m.username@ == patched.username
                        &&& m.is_admin == patched.is_admin
                    }
            }
        }),
{
    match handle_token_update(store, &user.user, user.token.as_str(), user_agent, ip_addr) {
        Ok(()) => (),
        Err(e) => {
            return Err(e);
        },
    }
    match msg.validate(user) {
        Ok(()) => (),
        Err(e) => {
            return Err(e);
        },
    }
    let req = msg.get_requirements(user.user.id);
    let target = match msg.id {
        Some(i) => i,
        None => user.user.id,
    };
    let perms = get_user_permissions(user, target);
    if !perms.satisfies(&req) {
        return Err(unauthorized("You cannot do this"));
    }
    let found = match get_user_by_id(store, target) {
        Ok(o) => o,
        Err(e) => {
            return Err(e);
        },
    };
    let mut mod_user = match found {
        Some(u) => u,
        None => {
            return Err(not_found("User not found"));
        },
    };
    let ghost u0 = mod_user@;
    match msg.update_user(&mut mod_user) {
        Ok(()) => (),
        Err(e) => {
            return Err(e);
        },
    }
    let ghost h = mod_user.password_hash@;
    match update_user(store, &mod_user) {
        Ok(()) => (),
        Err(e) => {
            return Err(e);
        },
    }
    proof {
        assert(mod_user@ =~= (UserView {
            id: u0.id,
            username: (match msg.username {
                Some(n) => n@,
                None => u0.username,
            }),
            is_admin: (match msg.is_admin {
                Some(b) => b,
                None => u0.is_admin,
            }),
            password_hash: h,
        }));
    }
    Ok(UserMessage::from_model(mod_user))
}

/// Lists a page of all users for an administrator.
pub fn get_users_route(
    store: &mut Store,
    user: &AuthenticatedUser,
    pag: Pagination,
    user_agent: Option<&str>,
    ip_addr: Option<String>,
) -> (r: Result<Page<UserMessage>, AppError>)
    requires
        pag.spec_valid(),
        old(store)@.users.len() <= i64::MAX,
    ensures
        !(user_agent is Some && ip_addr is Some) ==> (r matches Err(e) && e is RequestError && final(store)@ == old(store)@),
        user_agent matches Some(ua) ==> (ip_addr matches Some(ip) ==> {
            let touched = spec_touched(old(store)@, user.token@, ua@, ip@, user.user@.id);
            &&& final(store)@ == touched
            &&& !user.user@.is_admin ==> (r matches Err(e) && e is Unauthorized)
            &&& user.user@.is_admin ==> (r matches Ok(page) && {
                let items = spec_page_items(old(store)@.users, pag);
                &&& page.page == pag.page
                &&& page.total == spec_page_total(old(store)@.users, pag)
                &&& page.count == items.len()
                &&& page.items@.len() == items.len()
                &&& forall|j: int|
                    0 <= j < items.len() ==> ((#[trigger] page.items@[j]).id == items[j].id
                        && page.items@[j].username@ == items[j].username
                        && page.items@[j].is_admin == items[j].is_admin)
            })
        }),
{
    match handle_token_update(store, &user.user, user.token.as_str(), user_agent, ip_addr) {
        Ok(()) => (),
        Err(e) => {
            return Err(e);
        },
    }
    match user.user.is_admin() {
        Ok(()) => (),
        Err(e) => {
            return Err(e);
        },
    }
    let fetched = match get_users(store, pag) {
        Ok(p) => p,
        Err(e) => {
            return Err(e);
        },
    };
    let (estimate, users) = fetched;
    let ghost fetched_views = users.deep_view();
    let messages = user_messages_of(users);
    proof {
        assert(spec_page_items(store@.users, pag).len() <= pag.count);
        assert(forall|j: int|
            0 <= j < fetched_views.len() ==> fetched_views[j] == #[trigger] users@[j]@);
    }
    Ok(Page::new(messages, pag, estimate))
}

/// Whether a username is still free.
pub fn username_available_route(
    store: &mut Store,
    user: &AuthenticatedUser,
    username: &str,
    user_agent: Option<&str>,
    ip_addr: Option<String>,
) -> (r: Result<SuccessMessage, AppError>)
    ensures
        !(user_agent is Some && ip_addr is Some) ==> (r matches Err(e) && e is RequestError && final(store)@ == old(store)@),
        user_agent matches Some(ua) ==> (ip_addr matches Some(ip) ==> {
            &&& final(store)@ == spec_touched(old(store)@, user.token@, ua@, ip@, user.user@.id)
            &&& r matches Ok(m) && m.success == (spec_find_user_by_name(
                old(store)@.users,
                username@,
            ) is None)
        }),
{
    match handle_token_update(store, &user.user, user.token.as_str(), user_agent, ip_addr) {
        Ok(()) => (),
        Err(e) => {
            return Err(e);
        },
    }
    match crate::store::check_username_available(store, username) {
        Ok(b) => Ok(SuccessMessage::new(b)),
        Err(e) => Err(e),
    }
}

/// Removes a user: administrators may remove anyone, anyone may remove
/// themselves.
pub fn delete_user_route(
    store: &mut Store,
    user: &AuthenticatedUser,
    id: u128,
    user_agent: Option<&str>,
    ip_addr: Option<String>,
) -> (r: Result<SuccessMessage, AppError>)
    ensures
        !(user_agent is Some && ip_addr is Some) ==> (r matches Err(e) && e is RequestError && final(store)@ == old(store)@),
        user_agent matches Some(ua) ==> (ip_addr matches Some(ip) ==> {
            let touched = spec_touched(old(store)@, user.token@, ua@, ip@, user.user@.id);
            &&& !(user.user@.is_admin || user.user@.id == id) ==> (r matches Err(e)
                && e is Unauthorized && final(store)@ == touched)
            &&& (user.user@.is_admin || user.user@.id == id) ==> (r matches Ok(m) && m.success
                && final(store)@ == (StoreView {
                sessions: touched.sessions,
                users: spec_users_without(old(store)@.users, id),
                ..old(store)@
            }))
        }),
{
    match handle_token_update(store, &user.user, user.token.as_str(), user_agent, ip_addr) {
        Ok(()) => (),
        Err(e) => {
            return Err(e);
        },
    }
    if user.user.is_admin || user.user.id == id {
        match delete_user(store, id) {
            Ok(()) => (),
            Err(e) => {
                return Err(e);
            },
        }
        Ok(SuccessMessage::new(true))
    } else {
        Err(unauthorized("I cannot let you do that"))
    }
}

/// Reads a user record: an administrator may name any user; anyone else gets
/// their own record.
pub fn get_user_route(
    store: &mut Store,
    user: &AuthenticatedUser,
    query_user_id: Option<u128>,
    user_agent: Option<&str>,
    ip_addr: Option<String>,
) -> (r: Result<UserMessage, AppError>)
    ensures
        !(user_agent is Some && ip_addr is Some) ==> (r matches Err(e) && e is RequestError && final(store)@ == old(store)@),
        user_agent matches Some(ua) ==> (ip_addr matches Some(ip) ==> {
            let touched = spec_touched(old(store)@, user.token@, ua@, ip@, user.user@.id);
            let target = (match query_user_id {
                Some(q) => if user.user@.is_admin {
                    q
                } else {
                    user.user@.id
                },
                None => user.user@.id,
            });
            &&& final(store)@ == touched
            &&& spec_find_user_by_id(old(store)@.users, target) is None ==> (r matches Err(e)
                && e is NotFound)
            &&& spec_find_user_by_id(old(store)@.users, target) matches Some(u0) ==> (r matches Ok(
                m,
            ) && m.id == u0.id && m.username@ == u0.username && m.is_admin == u0.is_admin)
        }),
{
    match handle_token_update(store, &user.user, user.token.as_str(), user_agent, ip_addr) {
        Ok(()) => (),
        Err(e) => {
            return Err(e);
        },
    }
    let id = match query_user_id {
        Some(q) => if user.user.is_admin {
            q
        } else {
            user.user.id
        },
        None => user.user.id,
    };
    let found = match get_user_by_id(store, id) {
        Ok(o) => o,
        Err(e) => {
            return Err(e);
        },
    };
    match found {
        Some(u) => Ok(UserMessage::from_model(u)),
        None => Err(not_found("User not found")),
    }
}

} // verus!
