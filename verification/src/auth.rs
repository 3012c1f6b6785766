//! Authentication extraction: reading the bearer token out of the
//! `Authorization` header and resolving it to a caller through the session
//! registry.

use vstd::prelude::*;
use vstd::string::StrSliceExecFns;
use crate::error::{auth_error, not_found, AppError};
use crate::models::AuthenticatedUser;
use crate::store::{get_user_from_session, spec_user_from_session, Store};

verus! {

/// Whether a header value carries the exact bearer prefix: `"Bearer "`,
/// case-sensitive, trailing space included.
pub open spec fn spec_has_bearer_prefix(h: Seq<char>) -> bool {
    h.len() >= 7 && h[0] == 'B' && h[1] == 'e' && h[2] == 'a' && h[3] == 'r' && h[4] == 'e' && h[5]
        == 'r' && h[6] == ' '
}

/// The token a bearer header carries: everything after the prefix.
pub open spec fn spec_bearer_token(h: Seq<char>) -> Seq<char> {
    h.subrange(7, h.len() as int)
}

/// Extracts the session token from an `Authorization` header: the header must
/// be present and start with `"Bearer "`; the remainder is the token. A
/// missing or malformed header is an authentication error.
pub fn extract_bearer_token(header: Option<&str>) -> (r: Result<String, AppError>)
    ensures
        r matches Ok(t) ==> (header matches Some(h) && spec_has_bearer_prefix(h@) && t@
            == spec_bearer_token(h@)),
        r is Ok <==> (header matches Some(h) && spec_has_bearer_prefix(h@)),
        r matches Err(e) ==> e is AuthError,
{
    match header {
        None => Err(auth_error("Auth header missing")),
        Some(h) => {
            let n = h.unicode_len();
            if n < 7 {
                return Err(auth_error("Doesnt start with 'Bearer '"));
            }
            if h.get_char(0) == 'B' && h.get_char(1) == 'e' && h.get_char(2) == 'a' && h.get_char(3)
                == 'r' && h.get_char(4) == 'e' && h.get_char(5) == 'r' && h.get_char(6) == ' ' {
                let token = h.substring_char(7, n);
                Ok(token.to_owned())
            } else {
                Err(auth_error("Doesnt start with 'Bearer '"))
            }
        },
    }
}

/// Resolves a request's caller: reads the bearer token out of the header and
/// looks its session up; the session's user, with the token, becomes the
/// caller. A missing or malformed header is an authentication error; a token
/// without a live session is not found.
pub fn authenticate(store: &Store, auth_header: Option<&str>) -> (r: Result<
    AuthenticatedUser,
    AppError,
>)
    ensures
        r matches Ok(a) ==> (auth_header matches Some(h) && spec_has_bearer_prefix(h@) && a.token@
            == spec_bearer_token(h@) && spec_user_from_session(store@, spec_bearer_token(h@))
            == Some(a.user@)),
        r is Ok <==> (auth_header matches Some(h) && spec_has_bearer_prefix(h@)
            && spec_user_from_session(store@, spec_bearer_token(h@)) is Some),
        r matches Err(e) ==> e is AuthError || e is NotFound,
{
    let token = match extract_bearer_token(auth_header) {
        Ok(t) => t,
        Err(e) => {
            return Err(e);
        },
    };
    let user = match get_user_from_session(store, token.as_str()) {
        Ok(o) => o,
        Err(e) => {
            return Err(e);
        },
    };
    match user {
        Some(u) => Ok(AuthenticatedUser { user: u, token }),
        None => Err(not_found("Could not find user by token")),
    }
}

} // verus!
