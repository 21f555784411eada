use user_accounts::credentials::{HashedPassword, User};
use user_accounts::hashing::{check_password, HashingFailure, Verdict};
use user_accounts::http::Status;
use user_accounts::models::SignupData;
use user_accounts::signup::{
    insert_user_into_db, perform_database_operations, signup, SignupAction, SignupEvent,
    SignupState,
};
use user_accounts::store::StoreError;

fn request(username: &str, password: &str) -> SignupData {
    SignupData { username: username.to_string(), password: password.to_string() }
}

fn taken() -> User {
    User {
        username: "a@b.com".to_string(),
        password: HashedPassword::from("$argon2id$v=19$abc".to_string()),
    }
}

fn refused_with(step: (SignupState, SignupAction), status: Status) {
    assert_eq!(step.0, SignupState::Finished);
    match step.1 {
        SignupAction::Respond(Err(given)) => assert_eq!(given, status),
        other => panic!("expected a refusal, got {:?}", other),
    }
}

#[test]
fn a_well_shaped_username_is_looked_up() {
    let data = request("a@b.com", "Secret123");
    let (state, action) = signup(SignupState::Start, &data, SignupEvent::Begin);
    assert_eq!(state, SignupState::FindingUser);
    match action {
        SignupAction::FindUser { username } => assert_eq!(username, "a@b.com"),
        other => panic!("expected a lookup, got {:?}", other),
    }
}

#[test]
fn a_misshaped_username_is_a_bad_request_at_once() {
    for username in ["noat.com", "a@b", "x@y.c", "@missing.com", "trailing@"] {
        let data = request(username, "Secret123");
        refused_with(signup(SignupState::Start, &data, SignupEvent::Begin), Status::BadRequest);
    }
}

#[test]
fn a_taken_username_is_a_conflict() {
    let data = request("a@b.com", "Secret123");
    let step = signup(SignupState::FindingUser, &data, SignupEvent::Found(Some(taken())));
    refused_with(step, Status::Conflict);
}

#[test]
fn a_failing_lookup_is_service_unavailable() {
    let data = request("a@b.com", "Secret123");
    let step = signup(
        SignupState::FindingUser,
        &data,
        SignupEvent::Failed(StoreError::StoreUnavailable),
    );
    refused_with(step, Status::ServiceUnavailable);
}

#[test]
fn a_free_username_gets_its_row_with_a_hash() {
    let data = request("a@b.com", "Secret123");
    let (state, action) = signup(SignupState::FindingUser, &data, SignupEvent::Found(None));
    assert_eq!(state, SignupState::InsertingUser);
    match action {
        SignupAction::InsertUser { username, password } => {
            assert_eq!(username, "a@b.com");
            assert_ne!(password.as_str(), "Secret123");
            assert_eq!(check_password(password.as_str(), "Secret123"), Verdict::Match);
        }
        other => panic!("expected a write, got {:?}", other),
    }
}

#[test]
fn a_failed_hashing_is_an_internal_error() {
    let data = request("a@b.com", "Secret123");
    refused_with(insert_user_into_db(&data, Err(HashingFailure)), Status::InternalServerError);
}

#[test]
fn a_hash_goes_into_the_row_as_it_is() {
    let data = request("a@b.com", "Secret123");
    let (state, action) = insert_user_into_db(&data, Ok("$argon2id$v=19$abc".to_string()));
    assert_eq!(state, SignupState::InsertingUser);
    match action {
        SignupAction::InsertUser { username, password } => {
            assert_eq!(username, "a@b.com");
            assert_eq!(password.as_str(), "$argon2id$v=19$abc");
        }
        other => panic!("expected a write, got {:?}", other),
    }
}

#[test]
fn a_written_row_is_followed_by_the_role() {
    let data = request("a@b.com", "Secret123");
    let (state, action) = signup(SignupState::InsertingUser, &data, SignupEvent::Done);
    assert_eq!(state, SignupState::CreatingRole);
    match action {
        SignupAction::Execute { statement } => {
            assert_eq!(statement, "CREATE USER \"a@b.com\" WITH PASSWORD E'Secret123';")
        }
        other => panic!("expected a statement, got {:?}", other),
    }
}

#[test]
fn a_violated_unique_key_at_the_write_is_a_conflict() {
    let data = request("a@b.com", "Secret123");
    let step = signup(SignupState::InsertingUser, &data, SignupEvent::Failed(StoreError::Conflict));
    refused_with(step, Status::Conflict);
}

#[test]
fn a_failing_write_is_service_unavailable() {
    let data = request("a@b.com", "Secret123");
    let step = signup(
        SignupState::InsertingUser,
        &data,
        SignupEvent::Failed(StoreError::StoreUnavailable),
    );
    refused_with(step, Status::ServiceUnavailable);
}

#[test]
fn a_created_role_is_followed_by_the_grant() {
    let data = request("a@b.com", "Secret123");
    let (state, action) = signup(SignupState::CreatingRole, &data, SignupEvent::Done);
    assert_eq!(state, SignupState::GrantingRole);
    match action {
        SignupAction::Execute { statement } => {
            assert_eq!(statement, "GRANT housing_reader TO \"a@b.com\";")
        }
        other => panic!("expected a statement, got {:?}", other),
    }
}

#[test]
fn a_failing_role_creation_is_service_unavailable() {
    let data = request("a@b.com", "Secret123");
    for error in [StoreError::StoreUnavailable, StoreError::Conflict] {
        let step = signup(SignupState::CreatingRole, &data, SignupEvent::Failed(error));
        refused_with(step, Status::ServiceUnavailable);
    }
}

#[test]
fn a_failing_grant_is_service_unavailable() {
    let data = request("a@b.com", "Secret123");
    for error in [StoreError::StoreUnavailable, StoreError::Conflict] {
        let step = signup(SignupState::GrantingRole, &data, SignupEvent::Failed(error));
        refused_with(step, Status::ServiceUnavailable);
    }
}

#[test]
fn a_granted_group_ends_the_signup_with_the_username() {
    let data = request("a@b.com", "Secret123");
    let (state, action) = signup(SignupState::GrantingRole, &data, SignupEvent::Done);
    assert_eq!(state, SignupState::Finished);
    match action {
        SignupAction::Respond(Ok(created)) => assert_eq!(created.username, "a@b.com"),
        other => panic!("expected success, got {:?}", other),
    }
}

#[test]
fn an_event_out_of_order_ends_the_signup() {
    let data = request("a@b.com", "Secret123");
    refused_with(
        signup(SignupState::Start, &data, SignupEvent::Done),
        Status::InternalServerError,
    );
    refused_with(
        signup(SignupState::Start, &data, SignupEvent::Found(None)),
        Status::InternalServerError,
    );
    refused_with(
        signup(SignupState::FindingUser, &data, SignupEvent::Done),
        Status::InternalServerError,
    );
    refused_with(
        signup(SignupState::InsertingUser, &data, SignupEvent::Found(None)),
        Status::InternalServerError,
    );
    refused_with(
        signup(SignupState::CreatingRole, &data, SignupEvent::Begin),
        Status::InternalServerError,
    );
    refused_with(
        signup(SignupState::Finished, &data, SignupEvent::Done),
        Status::InternalServerError,
    );
}

#[test]
fn the_write_phase_takes_no_step_from_the_first_two_states() {
    let data = request("a@b.com", "Secret123");
    refused_with(
        perform_database_operations(SignupState::Start, &data, SignupEvent::Begin),
        Status::InternalServerError,
    );
    refused_with(
        perform_database_operations(SignupState::FindingUser, &data, SignupEvent::Found(None)),
        Status::InternalServerError,
    );
}

#[test]
fn the_write_phase_steps_as_the_signup_does() {
    let data = request("a@b.com", "Secret123");
    let (state, action) =
        perform_database_operations(SignupState::InsertingUser, &data, SignupEvent::Done);
    assert_eq!(state, SignupState::CreatingRole);
    assert!(matches!(action, SignupAction::Execute { .. }));
}
