use vstd::prelude::*;

use crate::structures::Claims;

verus! {

/// The error type of the `bcrypt` crate.
#[verifier::external_type_specification]
#[verifier::external_body]
pub struct ExBcryptError(bcrypt::BcryptError);

/// The error type of the `jsonwebtoken` crate.
#[verifier::external_type_specification]
#[verifier::external_body]
pub struct ExJwtError(jsonwebtoken::errors::Error);

/// What `bcrypt::verify(password, hash)` answers: `None` where it fails
/// (a malformed hash), else whether the password matches the hash.
pub uninterp spec fn bcrypt_verify_outcome(password: Seq<char>, hash: Seq<char>) -> Option<bool>;

/// The token that `jsonwebtoken::encode` produces for the given claims
/// under the default HS256 header and an HMAC key made of the secret's
/// bytes.
pub uninterp spec fn jwt_hs256_token(claims: (Seq<char>, usize), secret: Seq<char>) -> Seq<char>;

/// Whether `jsonwebtoken::decode`, under `Validation::new(HS256)` and
/// `DecodingKey::from_secret` of the secret's bytes, gets past every step
/// that reads only the token and the secret: the token splits into
/// `header.payload.signature`, the header is base64url JSON naming HS256,
/// the signature is the base64url HMAC-SHA256 of `header.payload` under
/// the secret, and the payload is base64url JSON.
pub uninterp spec fn hs256_accepts(token: Seq<char>, secret: Seq<char>) -> bool;

/// The `sub` member of the token's payload (the base64url-decoded JSON
/// object between the first and the second dot) as a string value: `None`
/// where the payload has no such member or it is not a JSON string.
pub uninterp spec fn sub_string(token: Seq<char>) -> Option<Seq<char>>;

/// The `exp` member of the token's payload as `jsonwebtoken` reads it for
/// validation: a JSON number taken as a `u64`; `None` where the member is
/// absent or not such a number.
pub uninterp spec fn exp_claim(token: Seq<char>) -> Option<u64>;

/// The characters of an optional string.
pub open spec fn opt_string_view(o: Option<String>) -> Option<Seq<char>> {
    match o {
        Some(s) => Some(s@),
        None => None,
    }
}

/// Two decimal digits of a number below 100.
pub open spec fn two_digits(n: u32) -> Seq<char> {
    seq![(48 + n / 10) as char, (48 + n % 10) as char]
}

/// The first seven characters of a version-2b bcrypt hash of this cost.
pub open spec fn bcrypt_prefix(cost: u32) -> Seq<char> {
    seq!['$', '2', 'b', '$'] + two_digits(cost) + seq!['$']
}

/// `bcrypt::verify`: recomputes the hash of `password` with the salt and
/// cost read from `hash` and compares. The answer depends on the two
/// arguments alone and is named by `bcrypt_verify_outcome`.
#[verifier::external_body]
pub(crate) fn bcrypt_verify(password: &str, hash: &str) -> (r: Result<bool, bcrypt::BcryptError>)
    ensures
        r is Ok <==> bcrypt_verify_outcome(password@, hash@) is Some,
        r matches Ok(b) ==> bcrypt_verify_outcome(password@, hash@) == Some(b),
{
    bcrypt::verify(password, hash)
}

/// `bcrypt::hash`: hashes `password` under a fresh random salt. The salt
/// comes from the operating system, so two calls differ; what holds of
/// every outcome: a cost outside 4..=31 is refused, and a returned hash
/// is 60 characters long, starts with `$2b$`, the two-digit cost and `$`,
/// and is one that `bcrypt::verify` accepts for the same password. When
/// the system's randomness fails the call fails; that case is not stated.
#[verifier::external_body]
pub(crate) fn bcrypt_hash(password: &str, cost: u32) -> (r: Result<String, bcrypt::BcryptError>)
    ensures
        !(4 <= cost <= 31) ==> r is Err,
        r matches Ok(h) ==> {
            &&& h@.len() == 60
            &&& h@.subrange(0, 7) == bcrypt_prefix(cost)
            &&& bcrypt_verify_outcome(password@, h@) == Some(true)
        },
{
    bcrypt::hash(password, cost)
}

/// `jsonwebtoken::encode` with the default (HS256) header and
/// `EncodingKey::from_secret` of the secret's bytes, the claims given as
/// the JSON object `{"sub": .., "exp": ..}` in that order. The token is a
/// function of the claims and the secret, named by `jwt_hs256_token`. The
/// call never fails here: the header's HS256 and the key are both of the
/// HMAC family, the header and an object of a string and a number always
/// serialise, and HMAC signing cannot fail. The payload of the token is
/// the base64url JSON of that object, so it carries the `sub` string and
/// the `exp` number given; `decode` recomputes the same HMAC over the same
/// `header.payload` under the same secret, so the token passes its
/// signature check.
#[verifier::external_body]
pub(crate) fn jwt_encode(claims: &Claims, secret: &str) -> (r: Result<String, jsonwebtoken::errors::Error>)
    ensures
        r is Ok,
        r matches Ok(t) ==> t@ == jwt_hs256_token(claims@, secret@),
        r matches Ok(t) ==> hs256_accepts(t@, secret@),
        r matches Ok(t) ==> sub_string(t@) == Some(claims.sub@),
        r matches Ok(t) ==> exp_claim(t@) == Some(claims.exp as u64),
{
    let mut object = serde_json::Map::new();
    object.insert("sub".to_string(), serde_json::Value::String(claims.sub.clone()));
    object.insert("exp".to_string(), serde_json::Value::from(claims.exp));
    let key = jsonwebtoken::EncodingKey::from_secret(secret.as_bytes());
    jsonwebtoken::encode(&jsonwebtoken::Header::default(), &object, &key)
}

/// `jsonwebtoken::decode` of the token as a JSON value, under an HS256
/// `Validation` and `DecodingKey::from_secret` of the secret's bytes,
/// followed by the string value of its `sub` claim (`None` where the
/// claims have no such member or it is not a string). An answer `Ok` means
/// the token passed the signature and format checks under the secret and
/// carries an `exp` claim (the one claim the default validation requires),
/// and it holds the `sub` string of its payload. Whether the `exp` claim
/// is more than 60 seconds past is decided against the current time, so
/// whether a token that passes the other checks is accepted is left
/// unsaid.
#[verifier::external_body]
pub(crate) fn jwt_decode_subject(token: &str, secret: &str) -> (r: Result<Option<String>, jsonwebtoken::errors::Error>)
    ensures
        r is Ok ==> hs256_accepts(token@, secret@),
        r is Ok ==> exp_claim(token@) is Some,
        r matches Ok(o) ==> opt_string_view(o) == sub_string(token@),
{
    let key = jsonwebtoken::DecodingKey::from_secret(secret.as_bytes());
    let validation = jsonwebtoken::Validation::new(jsonwebtoken::Algorithm::HS256);
    jsonwebtoken::decode::<serde_json::Value>(token, &key, &validation)
        .map(|data| data.claims.get("sub").and_then(|v| v.as_str()).map(|s| s.to_string()))
}

/// `d` is an answer that `jwt_decode_subject` can give for the token
/// `token` under the secret `secret`. Only a call of `jwt_decode_subject`
/// shows this of a value.
pub closed spec fn decoder_outcome(
    token: Seq<char>,
    secret: Seq<char>,
    d: Result<Option<String>, jsonwebtoken::errors::Error>,
) -> bool {
    exists|tok: &str, key: &str|
        tok@ == token && key@ == secret && #[trigger] call_ensures(jwt_decode_subject, (tok, key), d)
}

/// An answer of the decoder is one its contract allows: an accepted token
/// passed the checks under the secret, carries an `exp` claim, and gives
/// back its `sub` string.
pub proof fn lemma_decoder_outcome(
    token: Seq<char>,
    secret: Seq<char>,
    d: Result<Option<String>, jsonwebtoken::errors::Error>,
)
    requires
        decoder_outcome(token, secret, d),
    ensures
        d is Ok ==> hs256_accepts(token, secret),
        d is Ok ==> exp_claim(token) is Some,
        d matches Ok(o) ==> opt_string_view(o) == sub_string(token),
{
}

/// What a call of `jwt_decode_subject` returned is one of its answers.
pub(crate) proof fn lemma_decoded(token: &str, secret: &str, d: Result<Option<String>, jsonwebtoken::errors::Error>)
    requires
        call_ensures(jwt_decode_subject, (token, secret), d),
    ensures
        decoder_outcome(token@, secret@, d),
{
}

} // verus!
