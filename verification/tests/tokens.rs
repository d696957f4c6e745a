use ems::clock::MAX_TIMESTAMP;
use ems::jwt::{create_jwt, create_jwt_at, TOKEN_LIFETIME_DAYS};

fn claims_of(token: &str, secret: &str) -> serde_json::Value {
    let mut validation = jsonwebtoken::Validation::new(jsonwebtoken::Algorithm::HS256);
    validation.validate_exp = false;
    validation.required_spec_claims.clear();
    jsonwebtoken::decode::<serde_json::Value>(
        token,
        &jsonwebtoken::DecodingKey::from_secret(secret.as_bytes()),
        &validation,
    )
    .unwrap()
    .claims
}

#[test]
fn token_names_user_and_expires_seven_days_later() {
    let token = create_jwt_at("abc", "s3cret", 1_700_000_000).ok().unwrap();
    let claims = claims_of(&token, "s3cret");
    assert_eq!(claims.to_string(), "{\"sub\":\"abc\",\"exp\":1700604800}");
    assert_eq!(TOKEN_LIFETIME_DAYS, 7);
}

#[test]
fn token_is_signed_with_hs256_default_header() {
    let token = create_jwt_at("abc", "s3cret", 0).ok().unwrap();
    let header = jsonwebtoken::decode_header(&token).unwrap();
    assert_eq!(header.alg, jsonwebtoken::Algorithm::HS256);
    assert_eq!(header.typ.as_deref(), Some("JWT"));
    assert_eq!(claims_of(&token, "s3cret")["exp"], 604800);
}

#[test]
fn token_is_a_function_of_its_inputs() {
    let a = create_jwt_at("abc", "k", 1_234).ok().unwrap();
    let b = create_jwt_at("abc", "k", 1_234).ok().unwrap();
    assert_eq!(a, b);
    let c = create_jwt_at("abd", "k", 1_234).ok().unwrap();
    assert_ne!(a, c);
    let d = create_jwt_at("abc", "k2", 1_234).ok().unwrap();
    assert_ne!(a, d);
}

#[test]
fn latest_issuable_time_still_gets_a_token() {
    let now = MAX_TIMESTAMP - 7 * 86400;
    let token = create_jwt_at("abc", "k", now).ok().unwrap();
    assert_eq!(claims_of(&token, "k")["exp"].as_i64().unwrap(), MAX_TIMESTAMP);
}

#[test]
fn create_jwt_uses_the_current_time() {
    let token = create_jwt("abc", "k").ok().unwrap();
    let claims = claims_of(&token, "k");
    let now = chrono::Utc::now().timestamp();
    let exp = claims["exp"].as_i64().unwrap();
    assert!(exp >= now + 7 * 86400 - 5 && exp <= now + 7 * 86400);
    assert_eq!(claims["sub"], "abc");
}

#[test]
fn token_subject_is_escaped_json() {
    let token = create_jwt_at("a\"b", "k", 10).ok().unwrap();
    assert_eq!(claims_of(&token, "k")["sub"], "a\"b");
}

#[test]
fn unissuable_times_get_no_token() {
    assert_eq!(create_jwt_at("abc", "k", MAX_TIMESTAMP - 7 * 86400 + 1).err(), Some(ems::error::ApiError::TokenCreationFailed));
    assert_eq!(create_jwt_at("abc", "k", MAX_TIMESTAMP).err(), Some(ems::error::ApiError::TokenCreationFailed));
    assert_eq!(create_jwt_at("abc", "k", -1).err(), Some(ems::error::ApiError::TokenCreationFailed));
}
