//! The password hasher: salted Argon2 encodings, and the verdict of Argon2 on
//! a candidate password held against a stored encoding.

use argon2::password_hash::rand_core::OsRng;
use argon2::password_hash::{PasswordHash, PasswordHasher, PasswordVerifier, Salt, SaltString};
use argon2::Argon2;
use vstd::prelude::*;
use vstd::utf8::encode_utf8;

use crate::models::SignupData;

verus! {

/// The error type of the password hashing crates.
#[verifier::external_type_specification]
#[verifier::external_body]
pub struct ExHashError(argon2::password_hash::Error);

/// What Argon2 says of a candidate password held against a stored encoding.
#[derive(Clone, Copy, Debug, PartialEq, Eq, Structural)]
pub enum Verdict {
    /// The encoding is one of the candidate.
    Match,
    /// Argon2 answers that the candidate is not the password: the digest is
    /// of another password, or the encoding holds no digest.
    Mismatch,
    /// The text is no encoding that the default Argon2 can work with.
    Unusable,
}

/// Hashing failed; no encoding was produced.
#[derive(Clone, Copy, Debug, PartialEq, Eq, Structural)]
pub struct HashingFailure;

/// The verdict of the default Argon2 on the password `password` held against
/// the text `encoded`. It depends on the two texts alone.
pub uninterp spec fn argon2_verdict(encoded: Seq<char>, password: Seq<u8>) -> Verdict;

/// The encoding that the default Argon2 gives the password `password` under
/// the salt whose text is `salt`, or none where Argon2 or the salt's own
/// rules refuse. It depends on the two texts alone.
pub uninterp spec fn argon2_encoding(password: Seq<u8>, salt: Seq<char>) -> Option<Seq<char>>;

/// Calls `SaltString::generate` on the operating system's random number
/// generator and hands the salt out as its text. Nothing is claimed of the
/// salt that comes back.
#[verifier::external_body]
fn fresh_salt() -> String {
    SaltString::generate(&mut OsRng).as_str().to_owned()
}

/// Reads the salt with `Salt::from_b64`, calls
/// `Argon2::default().hash_password` and writes the hash out as text.
/// Claimed: the outcome is a function of the password and the salt's text,
/// and an encoding that comes back is one that the default Argon2 accepts
/// for the same password.
#[verifier::external_body]
fn argon2_encode(password: &[u8], salt: &str) -> (r: Result<String, argon2::password_hash::Error>)
    ensures
        match r {
            Ok(encoded) => argon2_encoding(password@, salt@) == Some(encoded@),
            Err(_) => argon2_encoding(password@, salt@) is None,
        },
        r matches Ok(encoded) ==> argon2_verdict(encoded@, password@) == Verdict::Match,
{
    let salt = Salt::from_b64(salt)?;
    Argon2::default().hash_password(password, salt).map(|hash| hash.to_string())
}

/// Parses `encoded` with `PasswordHash::new` and hands the result to
/// `Argon2::default().verify_password`. Claimed: the outcome is a function of
/// the two texts. `Mismatch` stands for the crate's error `Password`,
/// `Unusable` for a text that does not parse and for every other error.
/// Argon2 works with the memory that the encoding names; where the machine
/// does not have it, the call does not return.
#[verifier::external_body]
fn argon2_check(encoded: &str, password: &[u8]) -> (verdict: Verdict)
    ensures
        verdict == argon2_verdict(encoded@, password@),
{
    match PasswordHash::new(encoded) {
        Ok(parsed) => match Argon2::default().verify_password(password, &parsed) {
            Ok(()) => Verdict::Match,
            Err(argon2::password_hash::Error::Password) => Verdict::Mismatch,
            Err(_) => Verdict::Unusable,
        },
        Err(_) => Verdict::Unusable,
    }
}

/// Turns the hasher's own result into the library's: the encoding as it
/// came, or the one failure that stands for every error of the hasher.
pub fn hashing_result(attempt: Result<String, argon2::password_hash::Error>) -> (r: Result<
    String,
    HashingFailure,
>)
    ensures
        hashed_view(r) == match attempt {
            Ok(encoded) => Ok::<Seq<char>, HashingFailure>(encoded@),
            Err(_) => Err(HashingFailure),
        },
{
    match attempt {
        Ok(encoded) => Ok(encoded),
        Err(_) => Err(HashingFailure),
    }
}

/// Hashes the password of a signup request under a fresh random salt. The
/// result is what Argon2 gives the password under some salt: whether hashing
/// succeeds is Argon2's to say, and an encoding that is returned accepts the
/// password.
pub fn create_password_hash(signup_data: &SignupData) -> (r: Result<String, HashingFailure>)
    ensures
        exists|salt: Seq<char>|
            hashed_view(r) == encoding_outcome(
                #[trigger] argon2_encoding(encode_utf8(signup_data.password@), salt),
            ),
        r matches Ok(encoded) ==> argon2_verdict(encoded@, encode_utf8(signup_data.password@))
            == Verdict::Match,
{
    let salt = fresh_salt();
    let r = hash_with_salt(signup_data.password.as_str(), salt.as_str());
    assert(hashed_view(r) == encoding_outcome(
        argon2_encoding(encode_utf8(signup_data.password@), salt@),
    ));
    r
}

/// The result of hashing as the contracts speak of it.
pub open spec fn hashed_view(hashed: Result<String, HashingFailure>) -> Result<
    Seq<char>,
    HashingFailure,
> {
    match hashed {
        Ok(encoded) => Ok(encoded@),
        Err(e) => Err(e),
    }
}

/// What hashing gives, told from what Argon2 gives: its encoding, or the
/// failure where it gave none.
pub open spec fn encoding_outcome(encoding: Option<Seq<char>>) -> Result<
    Seq<char>,
    HashingFailure,
> {
    match encoding {
        Some(encoded) => Ok(encoded),
        None => Err(HashingFailure),
    }
}

/// Hashes `password` under the salt whose text is `salt`: the encoding that
/// Argon2 gives the two, which accepts the password, or the failure where
/// Argon2 or the salt's own rules refuse.
pub fn hash_with_salt(password: &str, salt: &str) -> (r: Result<String, HashingFailure>)
    ensures
        hashed_view(r) == encoding_outcome(argon2_encoding(encode_utf8(password@), salt@)),
        r matches Ok(encoded) ==> argon2_verdict(encoded@, encode_utf8(password@))
            == Verdict::Match,
{
    hashing_result(argon2_encode(password.as_bytes(), salt))
}

/// Holds the candidate `password` against the stored text `encoded`.
pub fn check_password(encoded: &str, password: &str) -> (verdict: Verdict)
    ensures
        verdict == argon2_verdict(encoded@, encode_utf8(password@)),
{
    argon2_check(encoded, password.as_bytes())
}

} // verus!
