use vstd::prelude::*;

use crate::crypto::{decoder_outcome, exp_claim, hs256_accepts, jwt_decode_subject, lemma_decoded, sub_string};
use crate::error::{refused, ApiError};
use crate::jwt::issued_at;
use crate::text::{all_ascii, ascii_chars, ascii_string};

verus! {

/// The user on whose behalf a request is made, as named by the `sub`
/// claim of its bearer token.
pub struct AuthenticatedUser(pub String);

/// A header byte that `HeaderValue::to_str` accepts: visible ASCII or tab.
pub open spec fn is_visible_ascii(b: u8) -> bool {
    (32 <= b && b < 127) || b == 9
}

/// The header value can be read as text.
pub open spec fn header_is_text(bytes: Seq<u8>) -> bool {
    forall|i: int| 0 <= i < bytes.len() ==> is_visible_ascii(#[trigger] bytes[i])
}

/// The bytes of `Bearer `.
pub open spec fn bearer_prefix() -> Seq<u8> {
    seq![66u8, 101u8, 97u8, 114u8, 101u8, 114u8, 32u8]
}

/// The header value starts with `Bearer `.
pub open spec fn has_bearer_prefix(bytes: Seq<u8>) -> bool {
    bytes.len() >= 7 && bytes.subrange(0, 7) == bearer_prefix()
}

/// What the bearer-token step makes of an `authorization` header: the
/// token text after `Bearer `, or the refusal.
pub open spec fn spec_bearer_token(header: Option<Seq<u8>>) -> Result<Seq<char>, ApiError> {
    match header {
        None => Err(ApiError::MissingAuthHeader),
        Some(h) => if !header_is_text(h) {
            Err(ApiError::InvalidHeader)
        } else if !has_bearer_prefix(h) {
            Err(ApiError::InvalidAuthScheme)
        } else {
            Ok(ascii_chars(h.subrange(7, h.len() as int)))
        },
    }
}

/// The bytes of an optional header value.
pub open spec fn header_bytes(header: Option<&[u8]>) -> Option<Seq<u8>> {
    match header {
        Some(h) => Some(h@),
        None => None,
    }
}

/// A header built as `Bearer ` followed by a token of visible ASCII is
/// read back as exactly that token.
pub proof fn lemma_bearer_header_round_trip(token: Seq<u8>)
    requires
        header_is_text(token),
    ensures
        spec_bearer_token(Some(bearer_prefix() + token)) == Ok::<Seq<char>, ApiError>(ascii_chars(token)),
{
    let h = bearer_prefix() + token;
    assert(h.subrange(0, 7) =~= bearer_prefix());
    assert(h.subrange(7, h.len() as int) =~= token);
    assert forall|i: int| 0 <= i < h.len() implies is_visible_ascii(#[trigger] h[i]) by {
        if i >= 7 {
            assert(h[i] == token[i - 7]);
        }
    }
}

/// A header that does not start with `Bearer ` is never read as a token,
/// whatever follows.
pub proof fn lemma_other_scheme_refused(header: Seq<u8>)
    requires
        !has_bearer_prefix(header),
    ensures
        spec_bearer_token(Some(header)) is Err,
{
}

/// Checks that every byte of a header value is visible ASCII or tab, as
/// `HeaderValue::to_str` does before it hands out the text.
pub fn header_value_is_text(bytes: &[u8]) -> (ok: bool)
    ensures
        ok == header_is_text(bytes@),
{
    let mut i: usize = 0;
    while i < bytes.len()
        invariant
            i <= bytes.len(),
            forall|j: int| 0 <= j < i ==> is_visible_ascii(#[trigger] bytes@[j]),
        decreases bytes.len() - i,
    {
        let b = bytes[i];
        if !((32 <= b && b < 127) || b == 9) {
            return false;
        }
        i = i + 1;
    }
    true
}

/// Checks for the `Bearer ` scheme at the start of a header value.
pub fn starts_with_bearer(bytes: &[u8]) -> (ok: bool)
    ensures
        ok == has_bearer_prefix(bytes@),
{
    if bytes.len() < 7 {
        return false;
    }
    let ok = bytes[0] == 66 && bytes[1] == 101 && bytes[2] == 97 && bytes[3] == 114
        && bytes[4] == 101 && bytes[5] == 114 && bytes[6] == 32;
    proof {
        if ok {
            assert(bytes@.subrange(0, 7) =~= bearer_prefix());
        } else if bytes@.subrange(0, 7) == bearer_prefix() {
            assert(bytes@.subrange(0, 7)[0] == 66 && bytes@.subrange(0, 7)[6] == 32);
        }
    }
    ok
}

/// Reads the bearer token out of the raw `authorization` header value,
/// if there is one: a missing header, a value that is not visible ASCII,
/// and a scheme other than `Bearer ` are each refused with their own
/// error, in that order.
pub fn bearer_token(header: Option<&[u8]>) -> (r: Result<String, ApiError>)
    ensures
        r matches Ok(t) ==> spec_bearer_token(header_bytes(header)) == Ok::<Seq<char>, ApiError>(t@),
        r matches Err(e) ==> spec_bearer_token(header_bytes(header)) == Err::<Seq<char>, ApiError>(e),
{
    match header {
        None => Err(ApiError::MissingAuthHeader),
        Some(h) => {
            if !header_value_is_text(h) {
                return Err(ApiError::InvalidHeader);
            }
            if !starts_with_bearer(h) {
                return Err(ApiError::InvalidAuthScheme);
            }
            let mut rest: Vec<u8> = Vec::new();
            let mut i: usize = 7;
            while i < h.len()
                invariant
                    7 <= i <= h.len(),
                    header_is_text(h@),
                    rest@ == h@.subrange(7, i as int),
                decreases h.len() - i,
            {
                rest.push(h[i]);
                i = i + 1;
                proof {
                    assert(rest@ =~= h@.subrange(7, i as int));
                }
            }
            proof {
                assert forall|j: int| 0 <= j < rest@.len() implies #[trigger] rest@[j] < 128 by {
                    assert(rest@[j] == h@[j + 7]);
                    assert(is_visible_ascii(h@[j + 7]));
                }
            }
            Ok(ascii_string(rest))
        },
    }
}

/// Turns the decoder's answer into the authenticated user: a token the
/// decoder refused is `InvalidToken`, a token without a `sub` string is
/// `MissingUserId`, else the user is the `sub` string, the id stored at
/// login or signup.
pub fn user_from_subject(decoded: Result<Option<String>, jsonwebtoken::errors::Error>) -> (r: Result<
    AuthenticatedUser,
    ApiError,
>)
    ensures
        match decoded {
            Err(_) => refused(r, ApiError::InvalidToken),
            Ok(None) => refused(r, ApiError::MissingUserId),
            Ok(Some(s)) => r matches Ok(u) && u.0@ == s@,
        },
{
    match decoded {
        Err(_) => Err(ApiError::InvalidToken),
        Ok(None) => Err(ApiError::MissingUserId),
        Ok(Some(s)) => Ok(AuthenticatedUser(s)),
    }
}

/// What `authenticate` answers for the header bytes `header` under
/// `secret`: a header without a bearer token is refused as
/// `spec_bearer_token` says; a bearer token that fails the signature and
/// format checks under the secret, or carries no `exp` claim, is
/// `InvalidToken`; a user is only ever the `sub` string of a token that
/// passed those checks; `MissingUserId` only ever answers such a token
/// without a `sub` string. Of a token that passes the checks, whether it
/// has expired is decided against the clock, so such a token is either
/// accepted or refused as `InvalidToken`.
pub open spec fn authenticate_answer(header: Option<Seq<u8>>, secret: Seq<char>, r: Result<AuthenticatedUser, ApiError>) -> bool {
    match spec_bearer_token(header) {
        Err(e) => refused(r, e),
        Ok(t) => {
            &&& !hs256_accepts(t, secret) ==> refused(r, ApiError::InvalidToken)
            &&& exp_claim(t) is None ==> refused(r, ApiError::InvalidToken)
            &&& r matches Ok(u) ==> hs256_accepts(t, secret) && sub_string(t) == Some(u.0@)
            &&& refused(r, ApiError::MissingUserId) ==> hs256_accepts(t, secret) && exp_claim(t) is Some
                && sub_string(t) is None
            &&& (r is Ok || refused(r, ApiError::InvalidToken) || refused(r, ApiError::MissingUserId))
        },
    }
}

/// What the decoder's answer `d` for a bearer token makes of the request:
/// a refused token is `InvalidToken`, an accepted one without a `sub`
/// string is `MissingUserId`, an accepted one with a `sub` string
/// authenticates as that string.
pub open spec fn answer_from_decoding(
    d: Result<Option<String>, jsonwebtoken::errors::Error>,
    r: Result<AuthenticatedUser, ApiError>,
) -> bool {
    match d {
        Err(_) => refused(r, ApiError::InvalidToken),
        Ok(None) => refused(r, ApiError::MissingUserId),
        Ok(Some(s)) => r matches Ok(u) && u.0@ == s@,
    }
}

/// The answer to a request follows from its header and from the answer
/// the decoder gave for its bearer token under `secret`.
pub open spec fn decided_by_decoder(header: Option<Seq<u8>>, secret: Seq<char>, r: Result<AuthenticatedUser, ApiError>) -> bool {
    match spec_bearer_token(header) {
        Err(e) => refused(r, e),
        Ok(t) => exists|d: Result<Option<String>, jsonwebtoken::errors::Error>|
            #[trigger] decoder_outcome(t, secret, d) && answer_from_decoding(d, r),
    }
}

/// Authenticates a request from its raw `authorization` header value and
/// the signing secret: the header must carry `Bearer <token>`, and the
/// token must pass HS256 verification under the secret (signature, an
/// `exp` claim, and expiry); the user is the `sub` string of the token.
pub fn authenticate(header: Option<&[u8]>, secret: &str) -> (r: Result<AuthenticatedUser, ApiError>)
    ensures
        authenticate_answer(header_bytes(header), secret@, r),
        decided_by_decoder(header_bytes(header), secret@, r),
{
    let token = match bearer_token(header) {
        Ok(t) => t,
        Err(e) => return Err(e),
    };
    let tok = token.as_str();
    let decoded = jwt_decode_subject(tok, secret);
    let ghost d = decoded;
    proof {
        lemma_decoded(tok, secret, decoded);
    }
    let r = user_from_subject(decoded);
    assert(decoder_outcome(token@, secret@, d) && answer_from_decoding(d, r));
    r
}

/// A token issued for a user, sent as `Bearer <token>` and checked under
/// the secret it was signed with, authenticates as that user or, once it
/// has expired, is refused as `InvalidToken`: it is never taken for
/// another user, nor for a token without one.
pub proof fn lemma_issued_token_authenticates(
    token: Seq<u8>,
    user_id: Seq<char>,
    secret: Seq<char>,
    now: i64,
    r: Result<AuthenticatedUser, ApiError>,
)
    requires
        header_is_text(token),
        issued_at(ascii_chars(token), user_id, secret, now),
        authenticate_answer(Some(bearer_prefix() + token), secret, r),
    ensures
        r matches Ok(u) ==> u.0@ == user_id,
        r is Ok || refused(r, ApiError::InvalidToken),
{
    lemma_bearer_header_round_trip(token);
}

/// The decoder alone decides whether a bearer token authenticates: a
/// request is refused as `InvalidToken` exactly when the decoder refused
/// its token, and a token the decoder accepted with a `sub` string
/// authenticates as that string, whatever the secret or the token.
pub proof fn lemma_decoder_decides(header: Seq<u8>, secret: Seq<char>, r: Result<AuthenticatedUser, ApiError>)
    requires
        decided_by_decoder(Some(header), secret, r),
        spec_bearer_token(Some(header)) is Ok,
    ensures
        exists|d: Result<Option<String>, jsonwebtoken::errors::Error>|
            #[trigger] decoder_outcome(spec_bearer_token(Some(header))->Ok_0, secret, d) && (d is Err
                <==> refused(r, ApiError::InvalidToken)) && (d matches Ok(Some(s)) ==> r matches Ok(u) && u.0@
                == s@),
{
    let t = spec_bearer_token(Some(header))->Ok_0;
    let d = choose|d: Result<Option<String>, jsonwebtoken::errors::Error>|
        #[trigger] decoder_outcome(t, secret, d) && answer_from_decoding(d, r);
    assert(decoder_outcome(t, secret, d));
}

} // verus!
