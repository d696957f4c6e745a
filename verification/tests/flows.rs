use ems::error::{ApiError, DbFailure};
use ems::login::{
    check_login_request, complete_login, found_user, issue_auth_response, password_accepted, verify_login, UserRecord,
};
use ems::signup::{
    check_signup_request, finish_signup, new_user, signup_outcome, user_from_hash, InsertOutcome, NewUser,
};
use ems::structures::{LoginRequest, SignupRequest};

const SECRET: &str = "flow-secret";

fn login_req(u: &str, p: &str) -> LoginRequest {
    LoginRequest { username: u.to_string(), password: p.to_string() }
}

fn signup_req(u: &str, p: &str) -> SignupRequest {
    SignupRequest { username: u.to_string(), password: p.to_string() }
}

fn row(id: Option<&str>, password: &str) -> UserRecord {
    UserRecord { id: id.map(|s| s.to_string()), password_hash: bcrypt::hash(password, 4).unwrap() }
}

#[test]
fn empty_fields_are_refused() {
    assert_eq!(check_login_request(&login_req("", "pw")).err(), Some(ApiError::MissingFields));
    assert_eq!(check_login_request(&login_req("u", "")).err(), Some(ApiError::MissingFields));
    assert!(check_login_request(&login_req("u", "pw")).is_ok());
    assert_eq!(check_signup_request(&signup_req("", "")).err(), Some(ApiError::MissingFields));
    assert!(check_signup_request(&signup_req("u", "pw")).is_ok());
}

#[test]
fn failed_lookup_is_db_error() {
    let r = complete_login(&login_req("u", "pw"), Err(DbFailure), SECRET);
    assert_eq!(r.err(), Some(ApiError::DbError));
    assert_eq!(found_user(Err(DbFailure)).err(), Some(ApiError::DbError));
}

#[test]
fn unknown_user_is_invalid_credentials() {
    let r = complete_login(&login_req("u", "pw"), Ok(None), SECRET);
    assert_eq!(r.err(), Some(ApiError::InvalidCredentials));
}

#[test]
fn wrong_password_is_invalid_credentials() {
    let r = complete_login(&login_req("u", "nope"), Ok(Some(row(Some("id-1"), "pw"))), SECRET);
    assert_eq!(r.err(), Some(ApiError::InvalidCredentials));
}

#[test]
fn malformed_stored_hash_is_hash_error() {
    let rec = UserRecord { id: Some("id-1".to_string()), password_hash: "plain".to_string() };
    let r = complete_login(&login_req("u", "pw"), Ok(Some(rec)), SECRET);
    assert_eq!(r.err(), Some(ApiError::HashError));
    let err = bcrypt::verify("pw", "plain").unwrap_err();
    assert_eq!(password_accepted(Err(err)).err(), Some(ApiError::HashError));
}

#[test]
fn right_password_issues_token_for_the_user() {
    let resp = complete_login(&login_req("u", "pw"), Ok(Some(row(Some("id-1"), "pw"))), SECRET).ok().unwrap();
    assert_eq!(resp.user_id, "id-1");
    let header = format!("Bearer {}", resp.token);
    let user = ems::extractors::authenticate(Some(header.as_bytes()), SECRET).ok().unwrap();
    assert_eq!(user.0, "id-1");
}

#[test]
fn null_user_id_reads_as_empty() {
    let resp = complete_login(&login_req("u", "pw"), Ok(Some(row(None, "pw"))), SECRET).ok().unwrap();
    assert_eq!(resp.user_id, "");
}

#[test]
fn new_user_row_is_well_formed() {
    let user = new_user(&signup_req("alice", "wonderland")).unwrap();
    assert_eq!(user.username, "alice");
    assert_eq!(user.user_id.len(), 36);
    assert_eq!(user.user_id.as_bytes()[14], b'4');
    assert!(uuid::Uuid::parse_str(&user.user_id).is_ok());
    assert!(user.password_hash.starts_with("$2b$12$"));
    assert_eq!(user.password_hash.len(), 60);
    assert!(bcrypt::verify("wonderland", &user.password_hash).unwrap());
    assert!(chrono::DateTime::parse_from_rfc3339(&user.date_joined).is_ok());
    let again = new_user(&signup_req("alice", "wonderland")).unwrap();
    assert_ne!(user.user_id, again.user_id);
    assert_ne!(user.password_hash, again.password_hash);
}

fn fixed_user() -> NewUser {
    NewUser {
        user_id: "11111111-2222-4333-8444-555555555555".to_string(),
        username: "bob".to_string(),
        password_hash: bcrypt::hash("pw", 4).unwrap(),
        date_joined: "2024-01-01T00:00:00+00:00".to_string(),
    }
}

#[test]
fn taken_username_is_conflict() {
    let r = finish_signup(&fixed_user(), InsertOutcome::UniqueViolation, SECRET);
    assert_eq!(r.err(), Some(ApiError::UsernameTaken));
    assert_eq!(ApiError::UsernameTaken.status(), 409);
}

#[test]
fn other_insert_failure_is_db_error() {
    let r = finish_signup(&fixed_user(), InsertOutcome::Failed, SECRET);
    assert_eq!(r.err(), Some(ApiError::DbError));
}

#[test]
fn stored_user_gets_a_token() {
    let user = fixed_user();
    let resp = finish_signup(&user, InsertOutcome::Inserted, SECRET).ok().unwrap();
    assert_eq!(resp.user_id, user.user_id);
    let header = format!("Bearer {}", resp.token);
    let auth = ems::extractors::authenticate(Some(header.as_bytes()), SECRET).ok().unwrap();
    assert_eq!(auth.0, user.user_id);
}

#[test]
fn signed_up_user_can_log_in() {
    let req = signup_req("carol", "secret123");
    let user = new_user(&req).unwrap();
    let stored = UserRecord { id: Some(user.user_id.clone()), password_hash: user.password_hash.clone() };
    let resp = complete_login(&login_req("carol", "secret123"), Ok(Some(stored)), SECRET).ok().unwrap();
    assert_eq!(resp.user_id, user.user_id);
    let header = format!("Bearer {}", resp.token);
    let auth = ems::extractors::authenticate(Some(header.as_bytes()), SECRET).ok().unwrap();
    assert_eq!(auth.0, user.user_id);
}

#[test]
fn unknown_user_and_wrong_password_answer_alike() {
    let a = complete_login(&login_req("u", "x"), Ok(None), SECRET).err().unwrap();
    let b = complete_login(&login_req("u", "x"), Ok(Some(row(Some("i"), "y"))), SECRET).err().unwrap();
    assert_eq!(a, b);
    assert_eq!(a.status(), b.status());
    assert_eq!(a.message(), b.message());
}

#[test]
fn test_login() {
    let payload = login_req("test_user_1", "secret123");
    assert!(check_login_request(&payload).is_ok());
    let stored = row(Some("id-test-user-1"), "secret123");
    let response = complete_login(&payload, Ok(Some(stored)), SECRET);
    assert!(response.is_ok());
}

#[test]
fn test_signup() {
    let payload = signup_req("test_user_1", "secret123");
    assert!(check_signup_request(&payload).is_ok());
    let user = new_user(&payload).unwrap();
    // The user exists already in the database.
    let response = finish_signup(&user, InsertOutcome::UniqueViolation, SECRET);
    assert!(!response.is_ok());
}

#[test]
fn test_signup_of_existing_account() {
    let payload = signup_req("test_user_1", "secret123");
    assert!(check_signup_request(&payload).is_ok());
    let user = new_user(&payload).unwrap();
    // A fresh in-memory database stores the row.
    let response = finish_signup(&user, InsertOutcome::Inserted, SECRET);
    assert!(response.is_ok());
}

#[test]
fn failed_hash_gives_no_user() {
    let err = bcrypt::verify("pw", "not-a-hash").unwrap_err();
    assert!(user_from_hash(&signup_req("dave", "pw"), Err(err)).is_none());
}

#[test]
fn given_hash_is_stored_in_the_row() {
    let hash = bcrypt::hash("pw", 4).unwrap();
    let user = user_from_hash(&signup_req("dave", "pw"), Ok(hash.clone())).unwrap();
    assert_eq!(user.password_hash, hash);
    assert_eq!(user.username, "dave");
    assert_eq!(user.user_id.len(), 36);
    assert!(chrono::DateTime::parse_from_rfc3339(&user.date_joined).is_ok());
}

#[test]
fn login_check_names_the_user_or_refuses() {
    assert_eq!(verify_login(&login_req("u", "pw"), Ok(Some(row(Some("id-9"), "pw")))).ok().unwrap(), "id-9");
    assert_eq!(verify_login(&login_req("u", "x"), Ok(Some(row(Some("id-9"), "pw")))).err(), Some(ApiError::InvalidCredentials));
    assert_eq!(verify_login(&login_req("u", "x"), Err(DbFailure)).err(), Some(ApiError::DbError));
}

#[test]
fn auth_response_carries_id_and_token() {
    let resp = issue_auth_response("id-7".to_string(), SECRET).ok().unwrap();
    assert_eq!(resp.user_id, "id-7");
    let header = format!("Bearer {}", resp.token);
    assert!(ems::extractors::authenticate(Some(header.as_bytes()), SECRET).is_ok());
}

#[test]
fn signup_outcome_decides_before_the_token() {
    let user = fixed_user();
    assert_eq!(signup_outcome(&user, InsertOutcome::Inserted).ok().unwrap(), user.user_id);
    assert_eq!(signup_outcome(&user, InsertOutcome::UniqueViolation).err(), Some(ApiError::UsernameTaken));
    assert_eq!(signup_outcome(&user, InsertOutcome::Failed).err(), Some(ApiError::DbError));
}

#[test]
fn auth_response_at_a_given_time_is_exact() {
    let resp = ems::login::issue_auth_response_at("id-7".to_string(), SECRET, 1_000).ok().unwrap();
    assert_eq!(resp.user_id, "id-7");
    assert_eq!(resp.token, ems::jwt::create_jwt_at("id-7", SECRET, 1_000).ok().unwrap());
    let late = ems::login::issue_auth_response_at("id-7".to_string(), SECRET, ems::clock::MAX_TIMESTAMP);
    assert_eq!(late.err(), Some(ApiError::TokenCreationFailed));
}
