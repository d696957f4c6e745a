use ems::chat::{check_new_chat, finish_new_chat, new_chat_record, other_user_found, str_equal, NewChat};
use ems::clock::UtcInstant;
use ems::config::{Config, ConfigError};
use ems::error::{ApiError, DbFailure};
use ems::health::{health_status, readiness_status};
use ems::structures::CreateChatRequest;

fn chat_req(other: &str) -> CreateChatRequest {
    CreateChatRequest { other_user_id: other.to_string() }
}

#[test]
fn empty_other_user_is_refused_first() {
    assert_eq!(check_new_chat("", &chat_req("")).err(), Some(ApiError::EmptyPayload));
    assert_eq!(check_new_chat("me", &chat_req("")).err(), Some(ApiError::EmptyPayload));
}

#[test]
fn chat_with_yourself_is_refused() {
    assert_eq!(check_new_chat("me", &chat_req("me")).err(), Some(ApiError::SelfChat));
    assert!(check_new_chat("me", &chat_req("you")).is_ok());
    assert!(str_equal("a", "a"));
    assert!(!str_equal("a", "ab"));
}

#[test]
fn other_user_lookup_outcomes() {
    assert_eq!(other_user_found(Err(DbFailure)).err(), Some(ApiError::DbError));
    assert_eq!(other_user_found(Ok(false)).err(), Some(ApiError::OtherUserNotFound));
    assert!(other_user_found(Ok(true)).is_ok());
}

#[test]
fn new_chat_ids_are_version_4() {
    let chat = new_chat_record();
    assert_eq!((chat.id >> 76) & 0xf, 4);
    assert_eq!((chat.id >> 62) & 0x3, 2);
    assert!(chat.created_at.secs > 1_600_000_000);
    assert!(chat.created_at.nanos < 1_000_000_000);
}

#[test]
fn chat_response_lists_both_users() {
    let chat = NewChat {
        id: 0x67e5_5044_10b1_426f_9247_bb68_0e5f_e0c8,
        created_at: UtcInstant { secs: 1_700_000_000, nanos: 0 },
    };
    let resp = finish_new_chat(Ok(()), "alice", &chat_req("bob"), &chat).ok().unwrap();
    assert_eq!(resp.id, "67e55044-10b1-426f-9247-bb680e5fe0c8");
    assert_eq!(resp.participants, vec!["alice".to_string(), "bob".to_string()]);
    assert_eq!(resp.created_at, "Tue, 14 Nov 2023 22:13:20 +0000");
}

#[test]
fn failed_chat_insert_is_db_error() {
    let chat = NewChat { id: 1, created_at: UtcInstant { secs: 0, nanos: 0 } };
    assert_eq!(finish_new_chat(Err(DbFailure), "a", &chat_req("b"), &chat).err(), Some(ApiError::DbError));
}

#[test]
fn uuid_text_pads_leading_zeros() {
    let chat = NewChat { id: 0xab, created_at: UtcInstant { secs: 86_400, nanos: 5 } };
    let resp = finish_new_chat(Ok(()), "a", &chat_req("b"), &chat).ok().unwrap();
    assert_eq!(resp.id, "00000000-0000-0000-0000-0000000000ab");
    assert_eq!(resp.created_at, "Fri, 2 Jan 1970 00:00:00 +0000");
}

#[test]
fn probes_answer_fixed_texts() {
    assert_eq!(health_status(), (200, "Ok"));
    assert_eq!(readiness_status(Ok(())), (200, "ready"));
    assert_eq!(readiness_status(Err(DbFailure)), (503, "db unavailable"));
}

#[test]
fn every_refusal_has_its_status_and_text() {
    let all = [
        (ApiError::MissingFields, 400, "Missing fields"),
        (ApiError::InvalidCredentials, 401, "Invalid credentials"),
        (ApiError::DbError, 500, "DB error"),
        (ApiError::HashError, 500, "Hash error"),
        (ApiError::TokenCreationFailed, 500, "Token creation failed"),
        (ApiError::UsernameTaken, 409, "Username already taken"),
        (ApiError::EmptyPayload, 400, "Empty payload"),
        (ApiError::SelfChat, 400, "Cannot create chat with yourself"),
        (ApiError::OtherUserNotFound, 404, "Other user not found"),
        (ApiError::MissingAuthHeader, 401, "Missing authorization header"),
        (ApiError::InvalidHeader, 401, "Invalid header"),
        (ApiError::InvalidAuthScheme, 401, "Invalid auth scheme"),
        (ApiError::InvalidToken, 401, "Invalid token"),
        (ApiError::MissingUserId, 401, "Missing user_id"),
    ];
    for (e, code, text) in all {
        assert_eq!(e.status(), code);
        assert_eq!(e.message(), text);
        assert!(e.status() >= 400 && e.status() < 600);
    }
}

fn s(v: &str) -> Option<String> {
    Some(v.to_string())
}

#[test]
fn config_requires_three_settings_in_order() {
    assert_eq!(Config::from_vars(None, None, None, None).err(), Some(ConfigError::MissingDatabaseUrl));
    assert_eq!(Config::from_vars(s("db"), None, None, None).err(), Some(ConfigError::MissingJwtSecret));
    assert_eq!(Config::from_vars(s("db"), s("k"), None, None).err(), Some(ConfigError::MissingIpAddress));
    assert_eq!(ConfigError::MissingDatabaseUrl.message(), "DATABASE_URL must be set");
    assert_eq!(ConfigError::MissingJwtSecret.message(), "JWT_SECRET must be set");
    assert_eq!(ConfigError::MissingIpAddress.message(), "Ip address not set");
}

#[test]
fn config_port_defaults_to_8080() {
    let c = Config::from_vars(s("sqlite::memory:"), s("k"), s("127.0.0.1"), None).ok().unwrap();
    assert_eq!(c.port, "8080");
    assert_eq!(c.database_url, "sqlite::memory:");
    assert_eq!(c.jwt_secret, "k");
    assert_eq!(c.socket_address(), "127.0.0.1:8080");
    let c = Config::from_vars(s("d"), s("k"), s("0.0.0.0"), s("3000")).ok().unwrap();
    assert_eq!(c.socket_address(), "0.0.0.0:3000");
}
