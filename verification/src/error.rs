use vstd::prelude::*;

verus! {

/// Every way a request can be refused. Each variant carries one HTTP
/// status code and one fixed message text.
#[derive(Debug, Clone, Copy, PartialEq, Eq, Structural)]
pub enum ApiError {
    /// 400: the username or the password is empty.
    MissingFields,
    /// 401: unknown user, or wrong password.
    InvalidCredentials,
    /// 500: the database could not answer.
    DbError,
    /// 500: the stored password hash could not be checked.
    HashError,
    /// 500: no token could be signed.
    TokenCreationFailed,
    /// 409: the username is already registered.
    UsernameTaken,
    /// 400: the chat request names no other user.
    EmptyPayload,
    /// 400: a user asked for a chat with themselves.
    SelfChat,
    /// 404: the other user of a chat request does not exist.
    OtherUserNotFound,
    /// 401: the request carries no `authorization` header.
    MissingAuthHeader,
    /// 401: the `authorization` header holds bytes that are not visible ASCII.
    InvalidHeader,
    /// 401: the `authorization` header does not start with `Bearer `.
    InvalidAuthScheme,
    /// 401: the bearer token was not accepted.
    InvalidToken,
    /// 401: the accepted token names no subject.
    MissingUserId,
}

impl ApiError {
    /// The HTTP status code of this refusal.
    pub open spec fn spec_status(self) -> u16 {
        match self {
            ApiError::MissingFields => 400,
            ApiError::InvalidCredentials => 401,
            ApiError::DbError => 500,
            ApiError::HashError => 500,
            ApiError::TokenCreationFailed => 500,
            ApiError::UsernameTaken => 409,
            ApiError::EmptyPayload => 400,
            ApiError::SelfChat => 400,
            ApiError::OtherUserNotFound => 404,
            ApiError::MissingAuthHeader => 401,
            ApiError::InvalidHeader => 401,
            ApiError::InvalidAuthScheme => 401,
            ApiError::InvalidToken => 401,
            ApiError::MissingUserId => 401,
        }
    }

    /// The message text sent with this refusal.
    pub open spec fn spec_message(self) -> Seq<char> {
        match self {
            ApiError::MissingFields => "Missing fields"@,
            ApiError::InvalidCredentials => "Invalid credentials"@,
            ApiError::DbError => "DB error"@,
            ApiError::HashError => "Hash error"@,
            ApiError::TokenCreationFailed => "Token creation failed"@,
            ApiError::UsernameTaken => "Username already taken"@,
            ApiError::EmptyPayload => "Empty payload"@,
            ApiError::SelfChat => "Cannot create chat with yourself"@,
            ApiError::OtherUserNotFound => "Other user not found"@,
            ApiError::MissingAuthHeader => "Missing authorization header"@,
            ApiError::InvalidHeader => "Invalid header"@,
            ApiError::InvalidAuthScheme => "Invalid auth scheme"@,
            ApiError::InvalidToken => "Invalid token"@,
            ApiError::MissingUserId => "Missing user_id"@,
        }
    }

    /// The HTTP status code of this refusal.
    pub fn status(&self) -> (code: u16)
        ensures
            code == self.spec_status(),
    {
        match self {
            ApiError::MissingFields => 400,
            ApiError::InvalidCredentials => 401,
            ApiError::DbError => 500,
            ApiError::HashError => 500,
            ApiError::TokenCreationFailed => 500,
            ApiError::UsernameTaken => 409,
            ApiError::EmptyPayload => 400,
            ApiError::SelfChat => 400,
            ApiError::OtherUserNotFound => 404,
            ApiError::MissingAuthHeader => 401,
            ApiError::InvalidHeader => 401,
            ApiError::InvalidAuthScheme => 401,
            ApiError::InvalidToken => 401,
            ApiError::MissingUserId => 401,
        }
    }

    /// The message text sent with this refusal.
    pub fn message(&self) -> (text: &'static str)
        ensures
            text@ == self.spec_message(),
    {
        match self {
            ApiError::MissingFields => "Missing fields",
            ApiError::InvalidCredentials => "Invalid credentials",
            ApiError::DbError => "DB error",
            ApiError::HashError => "Hash error",
            ApiError::TokenCreationFailed => "Token creation failed",
            ApiError::UsernameTaken => "Username already taken",
            ApiError::EmptyPayload => "Empty payload",
            ApiError::SelfChat => "Cannot create chat with yourself",
            ApiError::OtherUserNotFound => "Other user not found",
            ApiError::MissingAuthHeader => "Missing authorization header",
            ApiError::InvalidHeader => "Invalid header",
            ApiError::InvalidAuthScheme => "Invalid auth scheme",
            ApiError::InvalidToken => "Invalid token",
            ApiError::MissingUserId => "Missing user_id",
        }
    }
}

/// The outcome is a refusal with exactly this error.
pub open spec fn refused<T>(r: Result<T, ApiError>, e: ApiError) -> bool {
    r matches Err(f) && f == e
}

/// Every refusal is answered with a client-error or server-error status:
/// no request that fails is ever reported as a success.
pub proof fn lemma_refusal_status_is_error(e: ApiError)
    ensures
        400 <= e.spec_status() < 600,
        e.spec_status() != 200,
{
}

} // verus!

verus! {

/// The database could not carry out a query; what went wrong is not
/// looked at.
#[derive(Debug, Clone, Copy, PartialEq, Eq, Structural)]
pub struct DbFailure;

} // verus!
