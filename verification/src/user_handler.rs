//! Cross-cutting user handlers: the once-only bootstrap of the configured
//! administrator, and the per-request session metadata refresh.

use vstd::prelude::*;
use vstd::utf8::encode_utf8;
use crate::error::{bad_request, AppError};
use crate::models::{spec_is_hash_of, UserModel, UserSessionModel, UserSessionView, UserView};
use crate::store::{
    create_user, create_user_session, get_user_by_name, spec_find_user_by_name,
    spec_sessions_touched, update_user_session, Store, StoreView,
};
use crate::user_messages::CreateUserMessage;

verus! {

/// The store after the metadata of every session under `token` is refreshed.
pub open spec fn spec_touched(
    s: StoreView,
    token: Seq<char>,
    user_agent: Seq<char>,
    ip_addr: Seq<char>,
    user_id: u128,
) -> StoreView {
    StoreView {
        sessions: spec_sessions_touched(
            s.sessions,
            UserSessionView { token, user_agent, ip_addr, user_id },
        ),
        ..s
    }
}

/// Refreshes the session metadata for the caller's token: the keep-alive side
/// effect of every authenticated request. A request without a user-agent or a
/// peer address is malformed.
pub fn handle_token_update(
    store: &mut Store,
    user: &UserModel,
    token: &str,
    user_agent: Option<&str>,
    ip_addr: Option<String>,
) -> (r: Result<(), AppError>)
    ensures
        r is Ok <==> (user_agent is Some && ip_addr is Some),
        r matches Err(e) ==> e is RequestError && final(store)@ == old(store)@,
        user_agent matches Some(ua) ==> (ip_addr matches Some(ip) ==> final(store)@
            == spec_touched(old(store)@, token@, ua@, ip@, user.id)),
{
    let ua = match user_agent {
        Some(ua) => ua,
        None => {
            return Err(bad_request("Missing User Agent Header"));
        },
    };
    let ip = match ip_addr {
        Some(ip) => ip,
        None => {
            return Err(bad_request("IP Address Missing"));
        },
    };
    let ghost ip_view = ip@;
    let session = UserSessionModel::new(token, ua, ip, user.id);
    match update_user_session(store, session) {
        Ok(()) => {
            proof {
                assert(store@ =~= spec_touched(old(store)@, token@, ua@, ip_view, user.id));
            }
            Ok(())
        },
        Err(e) => Err(e),
    }
}

/// Creates the configured administrator account once at startup: when no user
/// of that name exists yet, one is stored with the initial password and the
/// admin flag set; otherwise nothing happens.
pub fn handle_create_initial_admin(
    store: &mut Store,
    admin_user: &str,
    admin_initial_password: &str,
) -> (r: Result<(), AppError>)
    requires
        old(store).spec_can_mint(),
        encode_utf8(admin_initial_password@).len() <= 0xFFFF_FFFFu64,
    ensures
        r is Ok,
        spec_find_user_by_name(old(store)@.users, admin_user@) is Some ==> final(store)@ == old(
            store,
        )@,
        spec_find_user_by_name(old(store)@.users, admin_user@) is None ==> exists|h: Seq<char>|
            spec_is_hash_of(h, encode_utf8(admin_initial_password@)) && final(store)@ == (StoreView {
                users: old(store)@.users.push(
                    UserView {
                        username: admin_user@,
                        password_hash: h,
                        id: old(store)@.next_id,
                        is_admin: true,
                    },
                ),
                next_id: (old(store)@.next_id + 1) as u128,
                ..old(store)@
            }),
{
    let existing = match get_user_by_name(store, admin_user) {
        Ok(o) => o,
        Err(e) => {
            return Err(e);
        },
    };
    if existing.is_none() {
        let msg = CreateUserMessage::new(admin_user.to_owned(), admin_initial_password.to_owned(), true);
        let mut new_user = UserModel::from_message(msg);
        let ghost h = new_user.password_hash@;
        match create_user(store, &mut new_user) {
            Ok(()) => {
                proof {
                    assert(spec_is_hash_of(h, encode_utf8(admin_initial_password@)) && store@
                        == (StoreView {
                        users: old(store)@.users.push(
                            UserView {
                                username: admin_user@,
                                password_hash: h,
                                id: old(store)@.next_id,
                                is_admin: true,
                            },
                        ),
                        next_id: (old(store)@.next_id + 1) as u128,
                        ..old(store)@
                    })) by {
                        assert(new_user@ =~= (UserView {
                            username: admin_user@,
                            password_hash: h,
                            id: old(store)@.next_id,
                            is_admin: true,
                        }));
                        assert(store@ =~= (StoreView {
                            users: old(store)@.users.push(new_user@),
                            next_id: (old(store)@.next_id + 1) as u128,
                            ..old(store)@
                        }));
                    }
                }
                Ok(())
            },
            Err(e) => Err(e),
        }
    } else {
        Ok(())
    }
}

} // verus!
