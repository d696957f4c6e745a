use vstd::prelude::*;

use crate::clock::{
    clock_reading, format_rfc3339, lemma_clock_reading_valid, lemma_read_clock, rfc3339_text, utc_now, UtcInstant,
};
use crate::crypto::{bcrypt_hash, bcrypt_prefix, bcrypt_verify_outcome};
use crate::error::{refused, ApiError, DbFailure};
use crate::ids::{drawn_uuid, is_v4, lemma_draw_uuid, lemma_drawn_uuid_is_v4, new_v4, uuid_string, uuid_text};
use crate::clock::MAX_TIMESTAMP;
use crate::jwt::{expiry_for, issuable_at, issued_at};
use crate::crypto::jwt_hs256_token;
use crate::login::{
    answered_at_clock, auth_result_view, check_credentials, credentials_present, issue_auth_response, record_user_id, spec_auth_at,
    spec_complete_login, spec_login_check, UserRecord,
};
use crate::structures::{AuthResponse, SignupRequest};

verus! {

/// The bcrypt cost that passwords are hashed with (`bcrypt::DEFAULT_COST`).
pub const PASSWORD_HASH_COST: u32 = 12;

/// A user about to be stored: a fresh id, the chosen name, the bcrypt
/// hash of the password and the time of joining in RFC 3339.
pub struct NewUser {
    pub user_id: String,
    pub username: String,
    pub password_hash: String,
    pub date_joined: String,
}

/// What the database made of storing a new user.
#[derive(Debug, Clone, Copy, PartialEq, Eq, Structural)]
pub enum InsertOutcome {
    /// The row was stored.
    Inserted,
    /// A row with the same username exists already.
    UniqueViolation,
    /// Any other failure.
    Failed,
}

/// `user` is what `new_user` makes of the request: a version 4 UUID as
/// id, the request's username, a bcrypt hash of cost 12 that verifies
/// against the request's password, and the current time as join date.
pub open spec fn is_new_user_for(user: NewUser, req: SignupRequest) -> bool {
    &&& exists|id: u128| is_v4(id) && user.user_id@ == #[trigger] uuid_text(id)
    &&& user.username@ == req.username@
    &&& user.password_hash@.len() == 60
    &&& user.password_hash@.subrange(0, 7) == bcrypt_prefix(PASSWORD_HASH_COST)
    &&& bcrypt_verify_outcome(req.password@, user.password_hash@) == Some(true)
    &&& exists|t: UtcInstant| t.valid() && user.date_joined@ == #[trigger] rfc3339_text(t.secs, t.nanos)
}

/// The id and the join date of `user` come from their sources: the id is
/// the text of a freshly drawn UUID, the join date the RFC 3339 text of a
/// reading of the clock.
pub open spec fn stamped_by_sources(user: NewUser) -> bool {
    &&& exists|id: u128| #[trigger] drawn_uuid(id) && user.user_id@ == uuid_text(id)
    &&& exists|t: UtcInstant| #[trigger] clock_reading(t) && user.date_joined@ == rfc3339_text(t.secs, t.nanos)
}

/// A stored user's id is the 36-character text of a version 4 UUID that
/// was freshly drawn, and the user joined at a reading of the clock, a
/// valid instant, written in RFC 3339.
pub proof fn lemma_new_user_is_drawn_and_dated(user: NewUser)
    requires
        stamped_by_sources(user),
    ensures
        exists|id: u128| #[trigger] drawn_uuid(id) && is_v4(id) && user.user_id@ == uuid_text(id) && user.user_id@.len() == 36,
        exists|t: UtcInstant|
            #[trigger] clock_reading(t) && t.valid() && user.date_joined@ == rfc3339_text(t.secs, t.nanos),
{
    let id = choose|id: u128| #[trigger] drawn_uuid(id) && user.user_id@ == uuid_text(id);
    let t = choose|t: UtcInstant| #[trigger] clock_reading(t) && user.date_joined@ == rfc3339_text(t.secs, t.nanos);
    lemma_drawn_uuid_is_v4(id);
    lemma_clock_reading_valid(t);
    assert(drawn_uuid(id));
    assert(clock_reading(t));
}

/// The first step of a signup: the request must name a user and a
/// password.
pub fn check_signup_request(req: &SignupRequest) -> (r: Result<(), ApiError>)
    ensures
        r is Ok <==> credentials_present(req.username@, req.password@),
        r matches Err(e) ==> e == ApiError::MissingFields,
{
    check_credentials(req.username.as_str(), req.password.as_str())
}

/// Completes the user row from the outcome of hashing the password: a
/// failed hash gives `None`; a hash gives the row with that hash, the
/// request's username, a random version 4 UUID as id, and the current
/// time in RFC 3339 as join date.
pub fn user_from_hash(req: &SignupRequest, hashed: Result<String, bcrypt::BcryptError>) -> (r: Option<NewUser>)
    ensures
        hashed is Err ==> r is None,
        hashed matches Ok(h) ==> (r matches Some(user) && {
            &&& user.password_hash@ == h@
            &&& user.username@ == req.username@
            &&& exists|id: u128| is_v4(id) && user.user_id@ == #[trigger] uuid_text(id)
            &&& exists|t: UtcInstant| t.valid() && user.date_joined@ == #[trigger] rfc3339_text(t.secs, t.nanos)
        }),
        hashed is Ok ==> (r matches Some(user) && stamped_by_sources(user)),
{
    let password_hash = match hashed {
        Ok(h) => h,
        Err(_) => return None,
    };
    let id = new_v4();
    proof {
        lemma_draw_uuid(id);
    }
    let user_id = uuid_string(id);
    let now = utc_now();
    proof {
        lemma_read_clock(now);
    }
    let date_joined = format_rfc3339(now);
    let user = NewUser { user_id, username: req.username.clone(), password_hash, date_joined };
    proof {
        assert(is_v4(id) && user.user_id@ == uuid_text(id));
        assert(now.valid() && user.date_joined@ == rfc3339_text(now.secs, now.nanos));
        assert(drawn_uuid(id) && clock_reading(now));
    }
    Some(user)
}

/// Builds the user row to store: hashes the password with bcrypt at cost
/// 12 under a fresh salt, draws a random version 4 UUID as the id, and
/// stamps the current time. `None` when hashing fails (the system's
/// randomness could not be read); what each outcome of the hashing gives
/// is stated by `user_from_hash`.
pub fn new_user(req: &SignupRequest) -> (r: Option<NewUser>)
    ensures
        r matches Some(user) ==> is_new_user_for(user, *req),
        r matches Some(user) ==> stamped_by_sources(user),
{
    let hashed = bcrypt_hash(req.password.as_str(), PASSWORD_HASH_COST);
    user_from_hash(req, hashed)
}

/// What the database's answer to storing the user decides: a stored user
/// is to get a token for their id, a taken username is `UsernameTaken`,
/// any other failure `DbError`.
pub fn signup_outcome(user: &NewUser, outcome: InsertOutcome) -> (r: Result<String, ApiError>)
    ensures
        outcome == InsertOutcome::UniqueViolation ==> refused(r, ApiError::UsernameTaken),
        outcome == InsertOutcome::Failed ==> refused(r, ApiError::DbError),
        outcome == InsertOutcome::Inserted ==> (r matches Ok(id) && id@ == user.user_id@),
{
    match outcome {
        InsertOutcome::Inserted => Ok(user.user_id.clone()),
        InsertOutcome::UniqueViolation => Err(ApiError::UsernameTaken),
        InsertOutcome::Failed => Err(ApiError::DbError),
    }
}

/// What a signup answers at the time `now`, once the row has been offered
/// to the database: the refusal for a taken username or a failed insert,
/// else the answer for the new user's id.
pub open spec fn spec_finish_signup(user_id: Seq<char>, outcome: InsertOutcome, secret: Seq<char>, now: i64) -> Result<
    (Seq<char>, Seq<char>),
    ApiError,
> {
    match outcome {
        InsertOutcome::Inserted => spec_auth_at(user_id, secret, now),
        InsertOutcome::UniqueViolation => Err(ApiError::UsernameTaken),
        InsertOutcome::Failed => Err(ApiError::DbError),
    }
}

/// The last step of a signup, once the row has been offered to the
/// database: a stored user gets a token for their id under `secret`,
/// issued at the time the clock reads; a taken username is
/// `UsernameTaken`, any other failure `DbError`.
pub fn finish_signup(user: &NewUser, outcome: InsertOutcome, secret: &str) -> (r: Result<AuthResponse, ApiError>)
    ensures
        exists|now: i64|
            0 <= now <= MAX_TIMESTAMP && #[trigger] spec_finish_signup(user.user_id@, outcome, secret@, now)
                == auth_result_view(r) && (r matches Ok(resp) ==> issued_at(resp.token@, user.user_id@, secret@, now)),
        outcome == InsertOutcome::Inserted ==> answered_at_clock(user.user_id@, secret@, r),
{
    let user_id = match signup_outcome(user, outcome) {
        Ok(id) => id,
        Err(e) => {
            assert(spec_finish_signup(user.user_id@, outcome, secret@, 0) == auth_result_view(
                Err::<AuthResponse, ApiError>(e),
            ));
            return Err(e);
        },
    };
    let r = issue_auth_response(user_id, secret);
    let ghost now = choose|now: i64|
        0 <= now <= MAX_TIMESTAMP && #[trigger] spec_auth_at(user.user_id@, secret@, now) == auth_result_view(r)
            && (r matches Ok(resp) ==> issued_at(resp.token@, user.user_id@, secret@, now));
    assert(spec_finish_signup(user.user_id@, outcome, secret@, now) == auth_result_view(r));
    r
}

/// A user who signed up can log in with the same password: once the row
/// that signup built is the one the login lookup finds, the login check
/// passes and names the signed-up user's id, and at every time at which a
/// token can be issued the login answers the token for that id, issued
/// then, together with the id.
pub proof fn lemma_signup_then_login(
    req: SignupRequest,
    user: NewUser,
    rec: UserRecord,
    secret: Seq<char>,
    now: i64,
)
    requires
        is_new_user_for(user, req),
        rec.id matches Some(id) && id@ == user.user_id@,
        rec.password_hash@ == user.password_hash@,
    ensures
        spec_login_check(req.password@, Ok::<Option<UserRecord>, DbFailure>(Some(rec))) == Ok::<
            Seq<char>,
            ApiError,
        >(user.user_id@),
        issuable_at(now) ==> spec_complete_login(req.password@, Ok::<Option<UserRecord>, DbFailure>(Some(rec)), secret, now)
            == Ok::<(Seq<char>, Seq<char>), ApiError>(
            (jwt_hs256_token((user.user_id@, expiry_for(now)), secret), user.user_id@),
        ),
{
    assert(record_user_id(rec) == user.user_id@);
}

} // verus!
