use user_accounts::credentials::{HashedPassword, User};
use user_accounts::hashing::create_password_hash;
use user_accounts::http::Status;
use user_accounts::login::{login_query, try_login};
use user_accounts::models::{LoginData, SignupData};
use user_accounts::session::SameSite;
use user_accounts::store::StoreError;

fn stored(username: &str, password: &str) -> User {
    let request = SignupData { username: username.to_string(), password: password.to_string() };
    let encoded = create_password_hash(&request).unwrap();
    User { username: username.to_string(), password: HashedPassword::from(encoded) }
}

fn attempt(username: &str, password: &str) -> LoginData {
    LoginData { username: username.to_string(), password: password.to_string() }
}

#[test]
fn the_username_is_looked_up() {
    assert_eq!(login_query(&attempt("a@b.com", "Secret123")), "a@b.com");
}

#[test]
fn the_right_password_opens_a_session() {
    let found = Ok(Some(stored("a@b.com", "Secret123")));
    let cookie = try_login(&attempt("a@b.com", "Secret123"), found).unwrap();
    assert_eq!(cookie.name, "session_id");
    assert_eq!(cookie.value.len(), 36);
    assert!(cookie.http_only);
    assert_eq!(cookie.same_site, SameSite::Lax);
    assert_eq!(cookie.path, "/");
    assert_eq!(cookie.max_age, None);
}

#[test]
fn a_wrong_password_is_unauthorized() {
    let found = Ok(Some(stored("a@b.com", "Secret123")));
    let status = try_login(&attempt("a@b.com", "wrong"), found).unwrap_err();
    assert_eq!(status, Status::Unauthorized);
    assert_eq!(status.code(), 401);
}

#[test]
fn an_unknown_user_is_unauthorized() {
    let status = try_login(&attempt("nobody@b.com", "Secret123"), Ok(None)).unwrap_err();
    assert_eq!(status, Status::Unauthorized);
}

#[test]
fn a_wrong_password_and_an_unknown_user_get_the_same_code() {
    let known = try_login(&attempt("a@b.com", "wrong"), Ok(Some(stored("a@b.com", "Secret123"))));
    let unknown = try_login(&attempt("nobody@b.com", "wrong"), Ok(None));
    assert_eq!(known.unwrap_err(), unknown.unwrap_err());
}

#[test]
fn a_malformed_stored_hash_is_unauthorized() {
    let user = User {
        username: "a@b.com".to_string(),
        password: HashedPassword::from("Secret123".to_string()),
    };
    let status = try_login(&attempt("a@b.com", "Secret123"), Ok(Some(user))).unwrap_err();
    assert_eq!(status, Status::Unauthorized);
}

#[test]
fn a_failing_store_is_service_unavailable() {
    let status = try_login(&attempt("a@b.com", "Secret123"), Err(StoreError::StoreUnavailable))
        .unwrap_err();
    assert_eq!(status, Status::ServiceUnavailable);
    assert_eq!(status.code(), 503);
}

#[test]
fn two_logins_get_two_sessions() {
    let user = stored("a@b.com", "Secret123");
    let first = try_login(&attempt("a@b.com", "Secret123"), Ok(Some(user.clone()))).unwrap();
    let second = try_login(&attempt("a@b.com", "Secret123"), Ok(Some(user))).unwrap();
    assert_ne!(first.value, second.value);
}
