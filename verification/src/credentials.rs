//! The credential model: the stored account record, its opaque hashed
//! password, and the one way a candidate password is held against it.

use vstd::prelude::*;
use vstd::std_specs::convert::FromSpecImpl;
use vstd::utf8::encode_utf8;

use crate::hashing::{argon2_verdict, check_password, Verdict};

verus! {

/// An Argon2 encoding (algorithm, parameters, salt and digest in one text).
/// It is made from a fresh hash or from a stored value, and is never compared
/// for equality: a candidate password is checked with
/// [`User::verify_password`].
#[derive(Debug, Clone)]
pub struct HashedPassword(String);

impl View for HashedPassword {
    type V = Seq<char>;

    closed spec fn view(&self) -> Seq<char> {
        self.0@
    }
}

impl From<String> for HashedPassword {
    fn from(hash: String) -> (r: Self) {
        Self(hash)
    }
}

impl FromSpecImpl<String> for HashedPassword {
    open spec fn obeys_from_spec() -> bool {
        true
    }

    closed spec fn from_spec(hash: String) -> Self {
        HashedPassword(hash)
    }
}

impl HashedPassword {
    /// A hashed password made from a text holds that text.
    pub proof fn from_keeps_text(hash: String)
        ensures
            <HashedPassword as vstd::std_specs::convert::FromSpec<String>>::from_spec(hash)@
                == hash@,
    {
    }

    /// The encoding as text, for the store.
    pub fn as_str(&self) -> (text: &str)
        ensures
            text@ == self@,
    {
        self.0.as_str()
    }
}

/// A stored account: the username, which identifies it, and the hashed
/// password.
#[derive(Debug, Clone)]
pub struct User {
    pub username: String,
    pub password: HashedPassword,
}

/// An account as the contracts speak of it: the two texts.
pub ghost struct Account {
    pub username: Seq<char>,
    pub password: Seq<char>,
}

impl View for User {
    type V = Account;

    open spec fn view(&self) -> Account {
        Account { username: self.username@, password: self.password@ }
    }
}

/// Why a candidate password was not accepted.
#[derive(Clone, Copy, Debug, PartialEq, Eq, Structural)]
pub enum AuthError {
    /// The stored text is no encoding that Argon2 can work with.
    MalformedHash,
    /// Argon2 answers that the candidate is not the password.
    PasswordMismatch,
}

/// What a verdict of Argon2 means for the caller.
pub open spec fn auth_outcome(verdict: Verdict) -> Result<(), AuthError> {
    match verdict {
        Verdict::Match => Ok(()),
        Verdict::Mismatch => Err(AuthError::PasswordMismatch),
        Verdict::Unusable => Err(AuthError::MalformedHash),
    }
}

/// Turns a verdict of Argon2 into acceptance or the error that names the
/// cause.
pub fn verdict_to_result(verdict: Verdict) -> (r: Result<(), AuthError>)
    ensures
        r == auth_outcome(verdict),
{
    match verdict {
        Verdict::Match => Ok(()),
        Verdict::Mismatch => Err(AuthError::PasswordMismatch),
        Verdict::Unusable => Err(AuthError::MalformedHash),
    }
}

impl User {
    /// Checks that `password` is the password of this account. A stored text
    /// that is no valid encoding fails with `MalformedHash`; against a valid
    /// one Argon2 verifies the candidate, and a candidate that it does not
    /// accept fails with `PasswordMismatch`. Nothing is changed.
    pub fn verify_password(&self, password: &String) -> (r: Result<(), AuthError>)
        ensures
            r == auth_outcome(argon2_verdict(self.password@, encode_utf8(password@))),
    {
        verdict_to_result(check_password(self.password.as_str(), password.as_str()))
    }
}

/// The public face of an account: the username, and never the password.
#[derive(Debug, Clone)]
pub struct UserResponse {
    pub username: String,
}

impl From<User> for UserResponse {
    fn from(value: User) -> (r: Self) {
        UserResponse { username: value.username }
    }
}

impl FromSpecImpl<User> for UserResponse {
    open spec fn obeys_from_spec() -> bool {
        true
    }

    open spec fn from_spec(value: User) -> Self {
        UserResponse { username: value.username }
    }
}

impl From<&User> for UserResponse {
    fn from(value: &User) -> (r: Self) {
        UserResponse { username: value.username.clone() }
    }
}

impl FromSpecImpl<&User> for UserResponse {
    open spec fn obeys_from_spec() -> bool {
        true
    }

    open spec fn from_spec(value: &User) -> Self {
        UserResponse { username: value.username }
    }
}

} // verus!
