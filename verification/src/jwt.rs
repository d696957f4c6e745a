use vstd::prelude::*;

use crate::clock::{clock_reading, lemma_read_clock, timestamp_after_days, utc_now, UtcInstant, MAX_TIMESTAMP, SECS_PER_DAY};
use crate::crypto::{exp_claim, hs256_accepts, jwt_encode, jwt_hs256_token, sub_string};
use crate::error::ApiError;
use crate::structures::Claims;

verus! {

/// How long an issued token stays valid, in days.
pub const TOKEN_LIFETIME_DAYS: i64 = 7;

/// The expiry written into a token issued at `now`: seven days later.
pub open spec fn expiry_for(now: i64) -> usize {
    (now + TOKEN_LIFETIME_DAYS * SECS_PER_DAY) as usize
}

/// A current time at which a token can be issued: not before the epoch,
/// with an expiry that `chrono` can represent.
pub open spec fn issuable_at(now: i64) -> bool {
    0 <= now && now + TOKEN_LIFETIME_DAYS * SECS_PER_DAY <= MAX_TIMESTAMP
}

/// What is known of a token issued for `user_id` under `secret` at the
/// time `now`: it is the signed claims `{sub: user_id, exp: now + 7 days}`,
/// it passes the signature check under `secret`, and its payload carries
/// that `sub` string and that `exp` number.
pub open spec fn issued_at(token: Seq<char>, user_id: Seq<char>, secret: Seq<char>, now: i64) -> bool {
    &&& token == jwt_hs256_token((user_id, expiry_for(now)), secret)
    &&& hs256_accepts(token, secret)
    &&& sub_string(token) == Some(user_id)
    &&& exp_claim(token) == Some(expiry_for(now) as u64)
}

/// The answer to issuing a token for `user_id` under `secret` at the time
/// `now`: the signed claims where the time is issuable, else
/// `TokenCreationFailed`.
pub open spec fn spec_jwt_at(user_id: Seq<char>, secret: Seq<char>, now: i64) -> Result<Seq<char>, ApiError> {
    if issuable_at(now) {
        Ok(jwt_hs256_token((user_id, expiry_for(now)), secret))
    } else {
        Err(ApiError::TokenCreationFailed)
    }
}

/// A token answer taken by the characters of the token.
pub open spec fn token_result_view(r: Result<String, ApiError>) -> Result<Seq<char>, ApiError> {
    match r {
        Ok(t) => Ok(t@),
        Err(e) => Err(e),
    }
}

/// Issues the token for `user_id` as if the current time were `now`
/// (seconds since the epoch): the claims name the user and expire seven
/// days after `now`, signed with HS256 under `secret`. A time before the
/// epoch, or one whose expiry `chrono` cannot represent, issues nothing
/// and is answered `TokenCreationFailed`.
pub fn create_jwt_at(user_id: &str, secret: &str, now: i64) -> (r: Result<String, ApiError>)
    ensures
        token_result_view(r) == spec_jwt_at(user_id@, secret@, now),
        r matches Ok(t) ==> issued_at(t@, user_id@, secret@, now),
{
    if now < 0 || now > MAX_TIMESTAMP - TOKEN_LIFETIME_DAYS * SECS_PER_DAY {
        return Err(ApiError::TokenCreationFailed);
    }
    let exp = match timestamp_after_days(now, TOKEN_LIFETIME_DAYS) {
        Some(t) => t,
        None => return Err(ApiError::TokenCreationFailed),
    };
    let claims = Claims { sub: String::from_str(user_id), exp: exp as usize };
    match jwt_encode(&claims, secret) {
        Ok(token) => Ok(token),
        Err(_) => Err(ApiError::TokenCreationFailed),
    }
}

/// The token answer `r` is the one issued for `user_id` under `secret` at
/// the time of a reading of the clock.
pub open spec fn issued_at_clock(user_id: Seq<char>, secret: Seq<char>, r: Result<String, ApiError>) -> bool {
    exists|t: UtcInstant|
        #[trigger] clock_reading(t) && spec_jwt_at(user_id, secret, t.secs) == token_result_view(r) && (r matches Ok(
            tok,
        ) ==> issued_at(tok@, user_id, secret, t.secs))
}

/// Issues a token for `user_id` that expires seven days from now, signed
/// with HS256 under `secret`: the answer of `create_jwt_at` at the time
/// the clock reads. Where the clock is so late that the expiry would pass
/// the last second `chrono` can represent (after the year 262142), no
/// token is issued and the answer is `TokenCreationFailed`.
pub fn create_jwt(user_id: &str, secret: &str) -> (r: Result<String, ApiError>)
    ensures
        exists|now: i64|
            0 <= now <= MAX_TIMESTAMP && #[trigger] spec_jwt_at(user_id@, secret@, now) == token_result_view(r)
                && (r matches Ok(t) ==> issued_at(t@, user_id@, secret@, now)),
        issued_at_clock(user_id@, secret@, r),
{
    let now = utc_now();
    proof {
        lemma_read_clock(now);
    }
    let r = create_jwt_at(user_id, secret, now.secs);
    assert(clock_reading(now) && spec_jwt_at(user_id@, secret@, now.secs) == token_result_view(r));
    r
}

/// Two tokens issued for the same user under the same secret in the same
/// second are the same token: nothing random goes into a token.
pub proof fn lemma_same_second_same_token(
    t1: Seq<char>,
    t2: Seq<char>,
    user_id: Seq<char>,
    secret: Seq<char>,
    now: i64,
)
    requires
        issued_at(t1, user_id, secret, now),
        issued_at(t2, user_id, secret, now),
    ensures
        t1 == t2,
{
}

/// A token issued at an issuable time carries, as its `sub` claim, the
/// user it was issued for and, as its `exp` claim, the time seven days
/// (604800 seconds) later. (Where `usize` is too narrow for such times,
/// the expiry is cut down to it, as `timestamp() as usize` does.)
pub proof fn lemma_issued_claims(token: Seq<char>, user_id: Seq<char>, secret: Seq<char>, now: i64)
    requires
        issued_at(token, user_id, secret, now),
        issuable_at(now),
        MAX_TIMESTAMP <= usize::MAX,
    ensures
        sub_string(token) == Some(user_id),
        exp_claim(token) == Some((now + 604800) as u64),
{
}

} // verus!
