use vstd::prelude::*;

verus! {

/// The claims of an issued token: the user it names and when it expires
/// (seconds since the Unix epoch).
pub struct Claims {
    pub sub: String,
    pub exp: usize,
}

impl View for Claims {
    type V = (Seq<char>, usize);

    open spec fn view(&self) -> (Seq<char>, usize) {
        (self.sub@, self.exp)
    }
}

/// The body of a login request.
pub struct LoginRequest {
    pub username: String,
    pub password: String,
}

/// The body of a signup request.
pub struct SignupRequest {
    pub username: String,
    pub password: String,
}

/// The answer to a successful login or signup.
pub struct AuthResponse {
    pub token: String,
    pub user_id: String,
}

/// The body of a request for a new chat with another user.
pub struct CreateChatRequest {
    pub other_user_id: String,
}

/// The answer to a successful chat creation.
pub struct CreateChatResponse {
    pub id: String,
    pub participants: Vec<String>,
    pub created_at: String,
}

} // verus!
