use vstd::prelude::*;

use crate::clock::{
    clock_reading, format_rfc2822, lemma_clock_reading_valid, lemma_read_clock, rfc2822_text, utc_now, UtcInstant,
    MAX_RFC2822_TIMESTAMP,
};
use crate::error::{refused, ApiError, DbFailure};
use crate::ids::{drawn_uuid, is_v4, lemma_draw_uuid, lemma_drawn_uuid_is_v4, new_v4, uuid_string, uuid_text};
use crate::structures::{CreateChatRequest, CreateChatResponse};

verus! {

/// A chat about to be stored: its id and its creation time.
#[derive(Debug, Clone, Copy, PartialEq, Eq, Structural)]
pub struct NewChat {
    pub id: u128,
    pub created_at: UtcInstant,
}

/// What the checks of a chat request decide, before the database is
/// asked anything.
pub open spec fn spec_chat_request_check(user_id: Seq<char>, other_user_id: Seq<char>) -> Result<(), ApiError> {
    if other_user_id.len() == 0 {
        Err(ApiError::EmptyPayload)
    } else if user_id == other_user_id {
        Err(ApiError::SelfChat)
    } else {
        Ok(())
    }
}

/// A chat that passes the request checks has two participants, and they
/// are different users.
pub proof fn lemma_chat_participants_differ(user_id: Seq<char>, other_user_id: Seq<char>)
    requires
        spec_chat_request_check(user_id, other_user_id) is Ok,
    ensures
        user_id != other_user_id,
        other_user_id.len() > 0,
{
}

/// The first step of creating a chat: the request must name another
/// user, and not the requesting user.
pub fn check_new_chat(user_id: &str, req: &CreateChatRequest) -> (r: Result<(), ApiError>)
    ensures
        match spec_chat_request_check(user_id@, req.other_user_id@) {
            Ok(()) => r is Ok,
            Err(e) => refused(r, e),
        },
{
    if req.other_user_id.as_str().is_empty() {
        return Err(ApiError::EmptyPayload);
    }
    let other = req.other_user_id.as_str();
    if str_equal(user_id, other) {
        return Err(ApiError::SelfChat);
    }
    Ok(())
}

/// Compares two strings character by character.
pub fn str_equal(a: &str, b: &str) -> (eq: bool)
    ensures
        eq == (a@ == b@),
{
    let a_owned = String::from_str(a);
    let b_owned = String::from_str(b);
    a_owned == b_owned
}

/// Reads the answer of the lookup of the other user: a failed query is
/// `DbError`, an unknown (or deleted) user `OtherUserNotFound`.
pub fn other_user_found(lookup: Result<bool, DbFailure>) -> (r: Result<(), ApiError>)
    ensures
        lookup is Err ==> refused(r, ApiError::DbError),
        lookup == Ok::<bool, DbFailure>(false) ==> refused(r, ApiError::OtherUserNotFound),
        lookup == Ok::<bool, DbFailure>(true) ==> r is Ok,
{
    match lookup {
        Err(_) => Err(ApiError::DbError),
        Ok(false) => Err(ApiError::OtherUserNotFound),
        Ok(true) => Ok(()),
    }
}

/// Draws the id of a new chat (a random version 4 UUID) and stamps the
/// current time.
pub fn new_chat_record() -> (chat: NewChat)
    ensures
        is_v4(chat.id),
        chat.created_at.valid(),
        drawn_uuid(chat.id),
        clock_reading(chat.created_at),
{
    let id = new_v4();
    proof {
        lemma_draw_uuid(id);
    }
    let created_at = utc_now();
    proof {
        lemma_read_clock(created_at);
    }
    NewChat { id, created_at }
}

/// The chat a request creates is named by the text of a freshly drawn
/// version 4 UUID and dated by a reading of the clock: whatever record
/// `new_chat_record` gave, the answer `finish_new_chat` builds from it
/// carries that UUID's 36-character hyphenated text as its id and the
/// RFC 2822 text of that reading as its creation time.
pub proof fn lemma_chat_answer_is_drawn_and_dated(chat: NewChat, resp_id: Seq<char>, resp_created_at: Seq<char>)
    requires
        drawn_uuid(chat.id),
        clock_reading(chat.created_at),
        resp_id == uuid_text(chat.id),
        resp_created_at == rfc2822_text(chat.created_at.secs, chat.created_at.nanos),
    ensures
        exists|id: u128| #[trigger] drawn_uuid(id) && is_v4(id) && resp_id == uuid_text(id) && resp_id.len() == 36,
        exists|t: UtcInstant|
            #[trigger] clock_reading(t) && t.valid() && resp_created_at == rfc2822_text(t.secs, t.nanos),
{
    lemma_drawn_uuid_is_v4(chat.id);
    lemma_clock_reading_valid(chat.created_at);
    assert(drawn_uuid(chat.id));
    assert(clock_reading(chat.created_at));
}

/// The last step of creating a chat, once the chat row has been offered
/// to the database (the rows of its two participants are written
/// afterwards, their outcome not looked at): a failed insert is
/// `DbError`; else the answer names the chat by its hyphenated id, lists
/// the requesting user then the other user, and gives the creation time
/// in RFC 2822.
pub fn finish_new_chat(inserted: Result<(), DbFailure>, user_id: &str, req: &CreateChatRequest, chat: &NewChat) -> (r:
    Result<CreateChatResponse, ApiError>)
    requires
        chat.created_at.valid(),
        inserted is Ok ==> chat.created_at.secs <= MAX_RFC2822_TIMESTAMP,
    ensures
        inserted is Err ==> refused(r, ApiError::DbError),
        inserted is Ok ==> (r matches Ok(resp) && {
            &&& resp.id@ == uuid_text(chat.id)
            &&& resp.participants@.len() == 2
            &&& resp.participants@[0]@ == user_id@
            &&& resp.participants@[1]@ == req.other_user_id@
            &&& resp.created_at@ == rfc2822_text(chat.created_at.secs, chat.created_at.nanos)
        }),
{
    match inserted {
        Err(_) => Err(ApiError::DbError),
        Ok(()) => {
            let id = uuid_string(chat.id);
            let mut participants: Vec<String> = Vec::new();
            participants.push(String::from_str(user_id));
            participants.push(req.other_user_id.clone());
            let created_at = format_rfc2822(chat.created_at);
            Ok(CreateChatResponse { id, participants, created_at })
        },
    }
}

} // verus!
