use vstd::prelude::*;

use crate::crypto::{bcrypt_verify, bcrypt_verify_outcome};
use crate::error::{refused, ApiError, DbFailure};
use crate::clock::{clock_reading, lemma_clock_reading_valid, UtcInstant, MAX_TIMESTAMP};
use crate::crypto::{exp_claim, sub_string};
use crate::jwt::{create_jwt, create_jwt_at, issuable_at, issued_at, spec_jwt_at, token_result_view};
use crate::structures::{AuthResponse, LoginRequest};

verus! {

/// The row that the user lookup finds: the user's id (a column that may
/// hold NULL) and the stored password hash.
pub struct UserRecord {
    pub id: Option<String>,
    pub password_hash: String,
}

/// Both the username and the password are non-empty.
pub open spec fn credentials_present(username: Seq<char>, password: Seq<char>) -> bool {
    username.len() > 0 && password.len() > 0
}

/// The user id of a found row; a NULL id reads as the empty string.
pub open spec fn record_user_id(rec: UserRecord) -> Seq<char> {
    match rec.id {
        Some(id) => id@,
        None => Seq::<char>::empty(),
    }
}

/// Refuses a login or signup whose username or password is empty.
pub fn check_credentials(username: &str, password: &str) -> (r: Result<(), ApiError>)
    ensures
        r is Ok <==> credentials_present(username@, password@),
        r matches Err(e) ==> e == ApiError::MissingFields,
{
    if username.is_empty() || password.is_empty() {
        Err(ApiError::MissingFields)
    } else {
        Ok(())
    }
}

/// The first step of a login: the request must name a user and a
/// password before the user is looked up.
pub fn check_login_request(req: &LoginRequest) -> (r: Result<(), ApiError>)
    ensures
        r is Ok <==> credentials_present(req.username@, req.password@),
        r matches Err(e) ==> e == ApiError::MissingFields,
{
    check_credentials(req.username.as_str(), req.password.as_str())
}

/// Reads the answer of the user lookup: a failed query is `DbError`, an
/// unknown user `InvalidCredentials`, else the found row.
pub fn found_user(lookup: Result<Option<UserRecord>, DbFailure>) -> (r: Result<UserRecord, ApiError>)
    ensures
        lookup is Err ==> r == Err::<UserRecord, ApiError>(ApiError::DbError),
        lookup matches Ok(None) ==> r == Err::<UserRecord, ApiError>(ApiError::InvalidCredentials),
        lookup matches Ok(Some(rec)) ==> r == Ok::<UserRecord, ApiError>(rec),
{
    match lookup {
        Err(_) => Err(ApiError::DbError),
        Ok(None) => Err(ApiError::InvalidCredentials),
        Ok(Some(rec)) => Ok(rec),
    }
}

/// Reads the answer of the password check: a hash that cannot be checked
/// is `HashError`, a wrong password `InvalidCredentials`.
pub fn password_accepted(verified: Result<bool, bcrypt::BcryptError>) -> (r: Result<(), ApiError>)
    ensures
        verified is Err ==> r == Err::<(), ApiError>(ApiError::HashError),
        verified matches Ok(b) ==> (if b {
            r is Ok
        } else {
            r == Err::<(), ApiError>(ApiError::InvalidCredentials)
        }),
{
    match verified {
        Err(_) => Err(ApiError::HashError),
        Ok(true) => Ok(()),
        Ok(false) => Err(ApiError::InvalidCredentials),
    }
}

/// The id of a found user; a NULL id becomes the empty string.
pub fn stored_user_id(rec: &UserRecord) -> (id: String)
    ensures
        id@ == record_user_id(*rec),
{
    match &rec.id {
        Some(id) => id.clone(),
        None => String::new(),
    }
}

/// What a login decides once the user has been looked up, before any
/// token is issued: the id of the user to issue it for, or the refusal.
pub open spec fn spec_login_check(password: Seq<char>, lookup: Result<Option<UserRecord>, DbFailure>) -> Result<
    Seq<char>,
    ApiError,
> {
    match lookup {
        Err(_) => Err(ApiError::DbError),
        Ok(None) => Err(ApiError::InvalidCredentials),
        Ok(Some(rec)) => match bcrypt_verify_outcome(password, rec.password_hash@) {
            None => Err(ApiError::HashError),
            Some(false) => Err(ApiError::InvalidCredentials),
            Some(true) => Ok(record_user_id(rec)),
        },
    }
}

/// An unknown username and a wrong password for a known one get the same
/// refusal, so the answer does not tell which usernames exist.
pub proof fn lemma_unknown_user_like_wrong_password(password: Seq<char>, rec: UserRecord)
    requires
        bcrypt_verify_outcome(password, rec.password_hash@) == Some(false),
    ensures
        spec_login_check(password, Ok(None)) == spec_login_check(password, Ok(Some(rec))),
        spec_login_check(password, Ok(None)) == Err::<Seq<char>, ApiError>(ApiError::InvalidCredentials),
{
}

/// The checks of a login once the user has been looked up: the password
/// is checked against the stored bcrypt hash; the answer is the id of the
/// user to issue a token for, or the refusal.
pub fn verify_login(req: &LoginRequest, lookup: Result<Option<UserRecord>, DbFailure>) -> (r: Result<String, ApiError>)
    ensures
        match spec_login_check(req.password@, lookup) {
            Err(e) => refused(r, e),
            Ok(user_id) => r matches Ok(id) && id@ == user_id,
        },
{
    let rec = match found_user(lookup) {
        Ok(rec) => rec,
        Err(e) => return Err(e),
    };
    let user_id = stored_user_id(&rec);
    let verified = bcrypt_verify(req.password.as_str(), rec.password_hash.as_str());
    match password_accepted(verified) {
        Ok(()) => {},
        Err(e) => return Err(e),
    }
    Ok(user_id)
}

/// An auth answer taken by the characters of its token and its user id.
pub open spec fn auth_result_view(r: Result<AuthResponse, ApiError>) -> Result<(Seq<char>, Seq<char>), ApiError> {
    match r {
        Ok(resp) => Ok((resp.token@, resp.user_id@)),
        Err(e) => Err(e),
    }
}

/// The answer for `user_id` under `secret` at the time `now`: the token
/// issued then and the id itself, or the failure to issue one.
pub open spec fn spec_auth_at(user_id: Seq<char>, secret: Seq<char>, now: i64) -> Result<
    (Seq<char>, Seq<char>),
    ApiError,
> {
    match spec_jwt_at(user_id, secret, now) {
        Ok(t) => Ok((t, user_id)),
        Err(e) => Err(e),
    }
}

/// What a login answers at the time `now`, once the user has been looked
/// up: the refusal of the login check, or the answer for the user's id.
pub open spec fn spec_complete_login(
    password: Seq<char>,
    lookup: Result<Option<UserRecord>, DbFailure>,
    secret: Seq<char>,
    now: i64,
) -> Result<(Seq<char>, Seq<char>), ApiError> {
    match spec_login_check(password, lookup) {
        Err(e) => Err(e),
        Ok(user_id) => spec_auth_at(user_id, secret, now),
    }
}

/// The auth answer `r` is the one for `user_id` under `secret` at the time
/// of a reading of the clock.
pub open spec fn answered_at_clock(user_id: Seq<char>, secret: Seq<char>, r: Result<AuthResponse, ApiError>) -> bool {
    exists|t: UtcInstant|
        #[trigger] clock_reading(t) && spec_auth_at(user_id, secret, t.secs) == auth_result_view(r) && (r matches Ok(
            resp,
        ) ==> issued_at(resp.token@, user_id, secret, t.secs))
}

/// An answer for a user issued at a reading of the clock names that user
/// in its `user_id` and in the token's `sub` claim, and its token expires
/// exactly seven days (604800 seconds) after that reading; the only
/// failure is `TokenCreationFailed`, when that reading is so late that
/// the expiry would pass the last second `chrono` can represent.
pub proof fn lemma_answer_expires_a_week_after_the_clock(
    user_id: Seq<char>,
    secret: Seq<char>,
    r: Result<AuthResponse, ApiError>,
)
    requires
        answered_at_clock(user_id, secret, r),
        MAX_TIMESTAMP <= usize::MAX,
    ensures
        r matches Ok(resp) ==> resp.user_id@ == user_id && sub_string(resp.token@) == Some(user_id) && exists|
            t: UtcInstant,
        | #[trigger] clock_reading(t) && exp_claim(resp.token@) == Some((t.secs + 604800) as u64),
        r is Err ==> r == Err::<AuthResponse, ApiError>(ApiError::TokenCreationFailed) && exists|t: UtcInstant|
            #[trigger] clock_reading(t) && t.secs + 604800 > MAX_TIMESTAMP,
{
    let t = choose|t: UtcInstant|
        #[trigger] clock_reading(t) && spec_auth_at(user_id, secret, t.secs) == auth_result_view(r) && (r matches Ok(
            resp,
        ) ==> issued_at(resp.token@, user_id, secret, t.secs));
    lemma_clock_reading_valid(t);
    assert(clock_reading(t));
}

/// The answer to a successful login or signup as if the current time
/// were `now`: the token issued for `user_id` under `secret` at that time,
/// and the id itself.
pub fn issue_auth_response_at(user_id: String, secret: &str, now: i64) -> (r: Result<AuthResponse, ApiError>)
    ensures
        auth_result_view(r) == spec_auth_at(user_id@, secret@, now),
        r matches Ok(resp) ==> issued_at(resp.token@, user_id@, secret@, now),
{
    let token = match create_jwt_at(user_id.as_str(), secret, now) {
        Ok(t) => t,
        Err(e) => return Err(e),
    };
    Ok(AuthResponse { token, user_id })
}

/// The answer to a successful login or signup: a token for `user_id`
/// under `secret`, issued at the time the clock reads, and the id itself.
pub fn issue_auth_response(user_id: String, secret: &str) -> (r: Result<AuthResponse, ApiError>)
    ensures
        exists|now: i64|
            0 <= now <= MAX_TIMESTAMP && #[trigger] spec_auth_at(user_id@, secret@, now) == auth_result_view(r)
                && (r matches Ok(resp) ==> issued_at(resp.token@, user_id@, secret@, now)),
        answered_at_clock(user_id@, secret@, r),
{
    let ghost id = user_id@;
    let issued = create_jwt(user_id.as_str(), secret);
    let ghost t = choose|t: UtcInstant|
        #[trigger] clock_reading(t) && spec_jwt_at(id, secret@, t.secs) == token_result_view(issued) && (issued matches Ok(
            tok,
        ) ==> issued_at(tok@, id, secret@, t.secs));
    let ghost now = choose|now: i64|
        0 <= now <= MAX_TIMESTAMP && #[trigger] spec_jwt_at(id, secret@, now) == token_result_view(issued)
            && (issued matches Ok(t) ==> issued_at(t@, id, secret@, now));
    let token = match issued {
        Ok(t) => t,
        Err(e) => {
            assert(spec_auth_at(id, secret@, now) == Err::<(Seq<char>, Seq<char>), ApiError>(e));
            assert(clock_reading(t) && spec_auth_at(id, secret@, t.secs) == auth_result_view(
                Err::<AuthResponse, ApiError>(e),
            ));
            return Err(e);
        },
    };
    let r = Ok(AuthResponse { token, user_id });
    assert(spec_auth_at(id, secret@, now) == auth_result_view(r));
    assert(clock_reading(t) && spec_auth_at(id, secret@, t.secs) == auth_result_view(r));
    r
}

/// The last step of a login, once the user has been looked up: the
/// password is checked against the stored bcrypt hash and, if it
/// matches, a token is issued for the user's id under `secret` at the
/// time the clock reads.
pub fn complete_login(req: &LoginRequest, lookup: Result<Option<UserRecord>, DbFailure>, secret: &str) -> (r: Result<
    AuthResponse,
    ApiError,
>)
    ensures
        exists|now: i64|
            0 <= now <= MAX_TIMESTAMP && #[trigger] spec_complete_login(req.password@, lookup, secret@, now)
                == auth_result_view(r) && (r matches Ok(resp) ==> issued_at(resp.token@, resp.user_id@, secret@, now)),
        spec_login_check(req.password@, lookup) matches Ok(id) ==> answered_at_clock(id, secret@, r),
{
    let ghost password = req.password@;
    let ghost found = lookup;
    let user_id = match verify_login(req, lookup) {
        Ok(id) => id,
        Err(e) => {
            assert(spec_complete_login(password, found, secret@, 0) == auth_result_view(Err::<AuthResponse, ApiError>(e)));
            return Err(e);
        },
    };
    let ghost id = user_id@;
    let r = issue_auth_response(user_id, secret);
    let ghost now = choose|now: i64|
        0 <= now <= MAX_TIMESTAMP && #[trigger] spec_auth_at(id, secret@, now) == auth_result_view(r)
            && (r matches Ok(resp) ==> issued_at(resp.token@, id, secret@, now));
    assert(spec_complete_login(password, found, secret@, now) == auth_result_view(r));
    r
}

} // verus!
