//! The signup flow as a machine: each step takes the state and the answer to
//! what was last asked of the store, and says what to ask next or how to
//! respond. The caller talks to the database; every decision is made here.

use vstd::prelude::*;
use vstd::utf8::encode_utf8;

use crate::credentials::{Account, HashedPassword, User, UserResponse};
use crate::hashing::{
    argon2_verdict, create_password_hash, hashed_view, HashingFailure, Verdict,
};
use crate::http::{Failure, Status};
use crate::models::SignupData;
use crate::provisioning::{create_role_statement, create_role_text, grant_statement, grant_text};
use crate::store::StoreError;
use crate::validation::{email_shaped, is_valid_email};

verus! {

/// Where a signup stands.
#[derive(Clone, Copy, Debug, PartialEq, Eq, Structural)]
pub enum SignupState {
    /// Nothing has been done.
    Start,
    /// The store was asked whether the username is taken.
    FindingUser,
    /// The store was asked to write the account's row.
    InsertingUser,
    /// The database was asked to create the account's role.
    CreatingRole,
    /// The database was asked to grant the read group to the role.
    GrantingRole,
    /// The response was given.
    Finished,
}

/// What happened since the last step.
#[derive(Debug)]
pub enum SignupEvent {
    /// The request arrived.
    Begin,
    /// The lookup was answered.
    Found(Option<User>),
    /// The write or the statement went through.
    Done,
    /// The store or the database failed.
    Failed(StoreError),
}

/// An event as the contracts speak of it.
pub ghost enum Event {
    Begin,
    Found(Option<Account>),
    Done,
    Failed(StoreError),
}

impl View for SignupEvent {
    type V = Event;

    open spec fn view(&self) -> Event {
        match self {
            SignupEvent::Begin => Event::Begin,
            SignupEvent::Found(Some(user)) => Event::Found(Some(user@)),
            SignupEvent::Found(None) => Event::Found(None),
            SignupEvent::Done => Event::Done,
            SignupEvent::Failed(e) => Event::Failed(*e),
        }
    }
}

/// What the caller is to do next.
#[derive(Debug)]
pub enum SignupAction {
    /// Look the username up in the user table.
    FindUser { username: String },
    /// Write the account's row.
    InsertUser { username: String, password: HashedPassword },
    /// Run an administrative statement.
    Execute { statement: String },
    /// Answer the client: the new account's public face, or the code of the
    /// failure.
    Respond(Result<UserResponse, Status>),
}

/// An action as the contracts speak of it.
pub ghost enum Request {
    FindUser { username: Seq<char> },
    InsertUser { username: Seq<char>, password: Seq<char> },
    Execute { statement: Seq<char> },
    Respond(Result<Seq<char>, Status>),
}

impl View for SignupAction {
    type V = Request;

    open spec fn view(&self) -> Request {
        match self {
            SignupAction::FindUser { username } => Request::FindUser { username: username@ },
            SignupAction::InsertUser { username, password } => Request::InsertUser {
                username: username@,
                password: password@,
            },
            SignupAction::Execute { statement } => Request::Execute { statement: statement@ },
            SignupAction::Respond(Ok(created)) => Request::Respond(Ok(created.username@)),
            SignupAction::Respond(Err(status)) => Request::Respond(Err(*status)),
        }
    }
}

/// The end of a signup that failed.
pub open spec fn refused(failure: Failure) -> (SignupState, Request) {
    (SignupState::Finished, Request::Respond(Err(failure.status())))
}

/// The end of a signup that was driven against its own order: an event that
/// does not answer what the state had asked for.
pub open spec fn out_of_order() -> (SignupState, Request) {
    (SignupState::Finished, Request::Respond(Err(Status::InternalServerError)))
}

/// The step that follows a lookup which found the username free: with the
/// password hashed, the row is to be written; without, nothing has been
/// written and nothing will be.
pub open spec fn insert_request(username: Seq<char>, hashed: Result<Seq<char>, HashingFailure>) -> (
    SignupState,
    Request,
) {
    match hashed {
        Ok(encoded) => (
            SignupState::InsertingUser,
            Request::InsertUser { username, password: encoded },
        ),
        Err(_) => refused(Failure::Hashing),
    }
}

/// The steps from the written row to the response: the row, then the role,
/// then the grant. A violated unique key at the write is the conflict that
/// the lookup did not see; a failure after the write leaves the row in
/// place and is reported.
pub open spec fn database_step(
    state: SignupState,
    username: Seq<char>,
    password: Seq<char>,
    event: Event,
) -> (SignupState, Request) {
    match (state, event) {
        (SignupState::InsertingUser, Event::Done) => (
            SignupState::CreatingRole,
            Request::Execute { statement: create_role_text(username, password) },
        ),
        (SignupState::InsertingUser, Event::Failed(StoreError::Conflict)) => refused(
            Failure::Conflict,
        ),
        (SignupState::InsertingUser, Event::Failed(StoreError::StoreUnavailable)) => refused(
            Failure::StoreUnavailable,
        ),
        (SignupState::CreatingRole, Event::Done) => (
            SignupState::GrantingRole,
            Request::Execute { statement: grant_text(username) },
        ),
        (SignupState::CreatingRole, Event::Failed(_)) => refused(Failure::Provision),
        (SignupState::GrantingRole, Event::Done) => (
            SignupState::Finished,
            Request::Respond(Ok(username)),
        ),
        (SignupState::GrantingRole, Event::Failed(_)) => refused(Failure::Provision),
        _ => out_of_order(),
    }
}

/// One step of a signup. `hashed` is what hashing the password gives; it is
/// looked at in one step only, the one that follows a lookup which found the
/// username free.
pub open spec fn signup_step(
    state: SignupState,
    username: Seq<char>,
    password: Seq<char>,
    event: Event,
    hashed: Result<Seq<char>, HashingFailure>,
) -> (SignupState, Request) {
    match (state, event) {
        (SignupState::Start, Event::Begin) => if email_shaped(encode_utf8(username)) {
            (SignupState::FindingUser, Request::FindUser { username })
        } else {
            refused(Failure::Validation)
        },
        (SignupState::Start, _) => out_of_order(),
        (SignupState::FindingUser, Event::Found(Some(_))) => refused(Failure::Conflict),
        (SignupState::FindingUser, Event::Found(None)) => insert_request(username, hashed),
        (SignupState::FindingUser, Event::Failed(_)) => refused(Failure::StoreUnavailable),
        (SignupState::FindingUser, _) => out_of_order(),
        _ => database_step(state, username, password, event),
    }
}

/// Whether a step hashes the password.
pub open spec fn hashes(state: SignupState, event: Event) -> bool {
    state == SignupState::FindingUser && event == Event::Found(None)
}

/// Ends a signup with the code of `failure`.
fn refuse(failure: Failure) -> (r: (SignupState, SignupAction))
    ensures
        (r.0, r.1@) == refused(failure),
{
    (SignupState::Finished, SignupAction::Respond(Err(failure.to_status())))
}

/// Ends a signup that was driven against its own order.
fn reject_out_of_order() -> (r: (SignupState, SignupAction))
    ensures
        (r.0, r.1@) == out_of_order(),
{
    (SignupState::Finished, SignupAction::Respond(Err(Status::InternalServerError)))
}

/// The step that follows the hashing of the password: asks for the row to be
/// written, or ends the signup where hashing failed.
pub fn insert_user_into_db(
    signup_data: &SignupData,
    hashed: Result<String, HashingFailure>,
) -> (r: (SignupState, SignupAction))
    ensures
        (r.0, r.1@) == insert_request(signup_data.username@, hashed_view(hashed)),
{
    match hashed {
        Ok(encoded) => {
            let password = HashedPassword::from(encoded);
            proof {
                HashedPassword::from_keeps_text(encoded);
            }
            (
                SignupState::InsertingUser,
                SignupAction::InsertUser { username: signup_data.username.clone(), password },
            )
        },
        Err(_) => refuse(Failure::Hashing),
    }
}

/// One step from the written row to the response.
pub fn perform_database_operations(
    state: SignupState,
    signup_data: &SignupData,
    event: SignupEvent,
) -> (r: (SignupState, SignupAction))
    ensures
        (r.0, r.1@) == database_step(
            state,
            signup_data.username@,
            signup_data.password@,
            event@,
        ),
{
    match state {
        SignupState::InsertingUser => match event {
            SignupEvent::Done => (
                SignupState::CreatingRole,
                SignupAction::Execute {
                    statement: create_role_statement(
                        signup_data.username.as_str(),
                        signup_data.password.as_str(),
                    ),
                },
            ),
            SignupEvent::Failed(StoreError::Conflict) => refuse(Failure::Conflict),
            SignupEvent::Failed(StoreError::StoreUnavailable) => refuse(Failure::StoreUnavailable),
            _ => reject_out_of_order(),
        },
        SignupState::CreatingRole => match event {
            SignupEvent::Done => (
                SignupState::GrantingRole,
                SignupAction::Execute { statement: grant_statement(signup_data.username.as_str()) },
            ),
            SignupEvent::Failed(_) => refuse(Failure::Provision),
            _ => reject_out_of_order(),
        },
        SignupState::GrantingRole => match event {
            SignupEvent::Done => (
                SignupState::Finished,
                SignupAction::Respond(Ok(UserResponse { username: signup_data.username.clone() })),
            ),
            SignupEvent::Failed(_) => refuse(Failure::Provision),
            _ => reject_out_of_order(),
        },
        _ => reject_out_of_order(),
    }
}

/// One step of a signup. The flow starts in `Start` with `Begin`; each
/// action but `Respond` is answered with the event that tells how it went,
/// until the step gives `Respond`.
///
/// Whether hashing succeeds is the hasher's to say, so the step that hashes
/// is pinned down up to that: it is the step for some result of hashing, and
/// a hash among the results is one that accepts the password.
pub fn signup(state: SignupState, signup_data: &SignupData, event: SignupEvent) -> (r: (
    SignupState,
    SignupAction,
))
    ensures
        exists|hashed: Result<Seq<char>, HashingFailure>|
            {
                &&& (r.0, r.1@) == #[trigger] signup_step(
                    state,
                    signup_data.username@,
                    signup_data.password@,
                    event@,
                    hashed,
                )
                &&& hashed matches Ok(encoded) ==> argon2_verdict(
                    encoded,
                    encode_utf8(signup_data.password@),
                ) == Verdict::Match
            },
        !hashes(state, event@) ==> (r.0, r.1@) == signup_step(
            state,
            signup_data.username@,
            signup_data.password@,
            event@,
            Err(HashingFailure),
        ),
{
    let ghost seen = event@;
    let ghost mut hashed_as: Result<Seq<char>, HashingFailure> = Err(HashingFailure);
    let r = match state {
        SignupState::Start => match event {
            SignupEvent::Begin => if is_valid_email(signup_data.username.as_str()) {
                (
                    SignupState::FindingUser,
                    SignupAction::FindUser { username: signup_data.username.clone() },
                )
            } else {
                refuse(Failure::Validation)
            },
            _ => reject_out_of_order(),
        },
        SignupState::FindingUser => match event {
            SignupEvent::Found(Some(_)) => refuse(Failure::Conflict),
            SignupEvent::Found(None) => {
                let hashed = create_password_hash(signup_data);
                proof {
                    hashed_as = hashed_view(hashed);
                }
                insert_user_into_db(signup_data, hashed)
            },
            SignupEvent::Failed(_) => refuse(Failure::StoreUnavailable),
            _ => reject_out_of_order(),
        },
        _ => perform_database_operations(state, signup_data, event),
    };
    assert((r.0, r.1@) == signup_step(
        state,
        signup_data.username@,
        signup_data.password@,
        seen,
        hashed_as,
    ));
    r
}

} // verus!
