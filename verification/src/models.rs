//! The transient request records of the two user-facing flows.

use vstd::prelude::*;

verus! {

/// What a client sends to log in. The password is the plaintext, held in
/// memory only.
pub struct LoginData {
    pub username: String,
    pub password: String,
}

/// What a client sends to sign up. The password is the plaintext, held in
/// memory only.
pub struct SignupData {
    pub username: String,
    pub password: String,
}

} // verus!
