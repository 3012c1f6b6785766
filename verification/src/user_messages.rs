//! Request and response bodies for the user endpoints, and the patch rules a
//! user update obeys.

use vstd::prelude::*;
use vstd::string::StringSliceAdditionalSpecFns;
use vstd::utf8::encode_utf8;
use crate::crypto::{argon2_decodable, argon2_verifies};
use crate::error::{bad_request, AppError};
use crate::models::{spec_is_hash_of, AuthenticatedUser, UserModel, UserView};
use crate::permissions::Permissions;

verus! {

/// Body of a signup request.
#[derive(Debug)]
pub struct CreateUserMessage {
    pub username: String,
    pub password: String,
    pub is_admin: Option<bool>,
}

impl CreateUserMessage {
    pub fn new(username: String, password: String, is_admin: bool) -> (r: Self)
        ensures
            r.username == username,
            r.password == password,
            r.is_admin == Some(is_admin),
    {
        Self { username, password, is_admin: Some(is_admin) }
    }
}

/// A user as presented to clients: the credential never leaves the server.
#[derive(Debug)]
pub struct UserMessage {
    pub username: String,
    pub id: u128,
    pub is_admin: bool,
}

impl UserMessage {
    pub fn from_model(value: UserModel) -> (r: Self)
        ensures
            r.username == value.username,
            r.id == value.id,
            r.is_admin == value.is_admin,
    {
        Self { username: value.username, is_admin: value.is_admin, id: value.id }
    }
}

/// Body of a login request.
#[derive(Debug)]
pub struct LoginMessage {
    pub username: String,
    pub password: String,
}

/// Reply to a successful login: the bearer token of the fresh session.
#[derive(Debug)]
pub struct LoginTokenMessage {
    pub token: String,
}

impl LoginTokenMessage {
    pub fn new(token: &str) -> (r: Self)
        ensures
            r.token@ == token@,
    {
        Self { token: token.to_owned() }
    }
}

/// Body of a user update: absent fields are left unchanged. A password change
/// carries the new password together with the old one for re-verification.
#[derive(Debug)]
pub struct UpdateUserMessage {
    pub is_admin: Option<bool>,
    pub username: Option<String>,
    pub id: Option<u128>,
    pub new_password: Option<String>,
    pub old_password: Option<String>,
}

impl UpdateUserMessage {
    /// The bytes of the old password offered for re-verification; an absent
    /// one counts as empty.
    pub open spec fn spec_old_password_bytes(self) -> Seq<u8> {
        match self.old_password {
            Some(op) => encode_utf8(op@),
            None => Seq::empty(),
        }
    }

    /// The permission an update demands: touching the admin flag or another
    /// user's record takes an administrator, anything else the record's owner.
    pub open spec fn spec_requirements(self, user_id: u128) -> Permissions {
        if (self.id matches Some(i) && i != user_id) || self.is_admin is Some {
            Permissions::Admin
        } else {
            Permissions::Owner
        }
    }

    /// A non-admin caller must present the new and the old password together.
    pub fn validate(&self, user: &AuthenticatedUser) -> (r: Result<(), AppError>)
        ensures
            r is Ok <==> (user.user.is_admin || (self.new_password is Some <==> self.old_password
                is Some)),
            r matches Err(e) ==> e is RequestError,
    {
        if !user.user.is_admin && self.new_password.is_some() != self.old_password.is_some() {
            Err(bad_request("Need new and old password to verify"))
        } else {
            Ok(())
        }
    }

    pub fn get_requirements(&self, user_id: u128) -> (r: Permissions)
        ensures
            r == self.spec_requirements(user_id),
    {
        let id_differs = match self.id {
            Some(i) => i != user_id,
            None => false,
        };
        if id_differs || self.is_admin.is_some() {
            Permissions::Admin
        } else {
            Permissions::Owner
        }
    }

    /// Applies the patch to a user record. The username and admin flag are
    /// overwritten where present. A new password is stored only when the old
    /// one verifies against the current credential; a failed verification
    /// leaves the credential unchanged and is not an error. A credential that
    /// cannot be checked at all surfaces as an error.
    pub fn update_user(self, mod_user: &mut UserModel) -> (r: Result<(), AppError>)
        requires
            self.new_password matches Some(p) ==> encode_utf8(p@).len() <= 0xFFFF_FFFFu64,
        ensures
            final(mod_user).id == old(mod_user).id,
            final(mod_user).username@ == (match self.username {
                Some(n) => n@,
                None => old(mod_user).username@,
            }),
            final(mod_user).is_admin == (match self.is_admin {
                Some(b) => b,
                None => old(mod_user).is_admin,
            }),
            self.new_password is None ==> r is Ok && final(mod_user).password_hash@ == old(
                mod_user,
            ).password_hash@,
            r is Ok <==> (self.new_password is None || (argon2_decodable(
                old(mod_user).password_hash@,
            ) && self.spec_old_password_bytes().len() <= 0xFFFF_FFFFu64)),
            r matches Err(e) ==> e is CryptError && final(mod_user).password_hash@ == old(
                mod_user,
            ).password_hash@,
            self.new_password matches Some(np) ==> {
                &&& (r is Ok && !argon2_verifies(
                    old(mod_user).password_hash@,
                    self.spec_old_password_bytes(),
                )) ==> final(mod_user).password_hash@ == old(mod_user).password_hash@
                &&& (r is Ok && argon2_verifies(
                    old(mod_user).password_hash@,
                    self.spec_old_password_bytes(),
                )) ==> spec_is_hash_of(final(mod_user).password_hash@, encode_utf8(np@))
            },
    {
        let UpdateUserMessage { is_admin, username, id: _, new_password, old_password } = self;
        if let Some(u) = username {
            mod_user.username = u;
        }
        if let Some(b) = is_admin {
            mod_user.is_admin = b;
        }
        if let Some(np) = new_password {
            let old_pw: String = match old_password {
                Some(p) => p,
                None => {
                    let empty: String = "".to_owned();
                    proof {
                        reveal_strlit("");
                        assert(encode_utf8(Seq::<char>::empty()) =~= Seq::<u8>::empty());
                    }
                    empty
                },
            };
            match mod_user.check_password(old_pw.as_str()) {
                Ok(true) => {
                    mod_user.change_password(np.as_str());
                    Ok(())
                },
                Ok(false) => Ok(()),
                Err(e) => Err(e),
            }
        } else {
            Ok(())
        }
    }
}

} // verus!
