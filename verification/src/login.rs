//! The login flow: one lookup, one verification, one session.

use vstd::prelude::*;
use vstd::utf8::encode_utf8;

use crate::credentials::{auth_outcome, Account, User};
use crate::hashing::argon2_verdict;
use crate::http::{Failure, Status};
use crate::models::LoginData;
use crate::session::{carries, issue, session_cookie, token_shaped, SessionCookie};
use crate::store::StoreError;

verus! {

/// What the store answered to a lookup, as the contracts speak of it.
pub open spec fn lookup_view(found: Result<Option<User>, StoreError>) -> Result<
    Option<Account>,
    StoreError,
> {
    match found {
        Ok(Some(user)) => Ok(Some(user@)),
        Ok(None) => Ok(None),
        Err(e) => Err(e),
    }
}

/// How a login ends, given what the lookup of the username brought and the
/// password that was sent: a store that fails is reported as such; an unknown
/// user and a password that the stored hash does not accept, for whatever
/// reason, are one and the same failure.
pub open spec fn login_outcome(
    found: Result<Option<Account>, StoreError>,
    password: Seq<char>,
) -> Result<(), Failure> {
    match found {
        Err(_) => Err(Failure::StoreUnavailable),
        Ok(None) => Err(Failure::Auth),
        Ok(Some(account)) => match auth_outcome(
            argon2_verdict(account.password, encode_utf8(password)),
        ) {
            Ok(()) => Ok(()),
            Err(_) => Err(Failure::Auth),
        },
    }
}

/// The username to look up for a login.
pub fn login_query(login_data: &LoginData) -> (username: &str)
    ensures
        username@ == login_data.username@,
{
    login_data.username.as_str()
}

/// Ends a login, given the answer `found` of the store to the lookup of the
/// username. On success the result is the cookie of a fresh session; the
/// response has no body.
pub fn try_login(login_data: &LoginData, found: Result<Option<User>, StoreError>) -> (r: Result<
    SessionCookie,
    Status,
>)
    ensures
        match login_outcome(lookup_view(found), login_data.password@) {
            Ok(()) => r matches Ok(cookie) && carries(cookie, cookie.value@) && token_shaped(
                cookie.value@,
            ),
            Err(failure) => r matches Err(status) && status == failure.status(),
        },
{
    match found {
        Ok(Some(user)) => match user.verify_password(&login_data.password) {
            Ok(()) => Ok(session_cookie(issue())),
            Err(_) => Err(Failure::Auth.to_status()),
        },
        Ok(None) => Err(Failure::Auth.to_status()),
        Err(_) => Err(Failure::StoreUnavailable.to_status()),
    }
}

} // verus!
