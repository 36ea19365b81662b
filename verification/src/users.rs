//! The user directory kept in the `users` and `messages` tables: the queries
//! the bot runs, and what it makes of their rows.
use vstd::prelude::*;

verus! {

/// The query for the aliases of the Telegram user `t_id`.
pub open spec fn alias_query_text(t_id: Seq<char>) -> Seq<char> {
    "SELECT alias FROM users WHERE t_uid = "@ + t_id
}

/// The query for the TeamSpeak nickname of the user with database id `id`.
pub open spec fn ts_name_query_text(id: Seq<char>) -> Seq<char> {
    "SELECT ts_name FROM users WHERE id = "@ + id
}

/// A user to be added to the `users` table.
#[derive(Debug)]
pub struct NewUser {
    pub t_uid: String,
    pub first_name: String,
    pub last_name: String,
    pub alias: String,
}

/// A row for the `messages` table.
#[derive(Debug)]
pub struct MessageLog {
    pub user_id: i64,
    pub message: String,
    pub chat_id: i64,
    pub message_id: i64,
    pub timestamp: i64,
}

/// The query for the aliases of the Telegram user `t_id` (a decimal id, not
/// something a user can type, so it is placed in the query text as it is).
pub fn alias_query(t_id: &str) -> (q: String)
    ensures
        q@ == alias_query_text(t_id@),
{
    let mut q = "SELECT alias FROM users WHERE t_uid = ".to_owned();
    q.append(t_id);
    q
}

/// The query for the TeamSpeak nickname of the user with database id `id`.
pub fn ts_name_query(id: &str) -> (q: String)
    ensures
        q@ == ts_name_query_text(id@),
{
    let mut q = "SELECT ts_name FROM users WHERE id = ".to_owned();
    q.append(id);
    q
}

/// The first value of a one-column result, or the empty string when there is none.
pub fn first_or_empty(rows: &Vec<String>) -> (s: String)
    ensures
        rows.len() > 0 ==> s@ == rows@[0]@,
        rows.len() == 0 ==> s@ == Seq::<char>::empty(),
{
    if rows.len() != 0 {
        rows[0].clone()
    } else {
        String::new()
    }
}

/// What an alias lookup for the Telegram user `t_id` gives, once the query
/// returned `aliases`: the first alias, if there is one; otherwise the empty
/// string, and, when the caller knows the user's `(first name, last name,
/// alias)`, the user to add to the directory. A user who already has an
/// alias is never added again.
pub fn resolve_alias(aliases: &Vec<String>, t_id: &str, name: Option<(String, String, String)>) -> (r: (
    String,
    Option<NewUser>,
))
    ensures
        aliases.len() > 0 ==> r.0@ == aliases@[0]@ && r.1 is None,
        aliases.len() == 0 ==> r.0@ == Seq::<char>::empty() && match name {
            None => r.1 is None,
            Some((first, last, alias)) => r.1 matches Some(u) && u.t_uid@ == t_id@ && u.first_name
                == first && u.last_name == last && u.alias == alias,
        },
{
    if aliases.len() != 0 {
        (aliases[0].clone(), None)
    } else {
        let new_user = match name {
            Some((first, last, alias)) => Some(
                NewUser { t_uid: t_id.to_owned(), first_name: first, last_name: last, alias },
            ),
            None => None,
        };
        (String::new(), new_user)
    }
}

/// The row that records a chat message; a message without text is recorded
/// with an empty text.
pub fn message_log(user_id: i64, text: Option<String>, chat_id: i64, message_id: i64, timestamp: i64) -> (m: MessageLog)
    ensures
        m.user_id == user_id,
        m.chat_id == chat_id,
        m.message_id == message_id,
        m.timestamp == timestamp,
        match text {
            Some(t) => m.message == t,
            None => m.message@ == Seq::<char>::empty(),
        },
{
    let message = match text {
        Some(t) => t,
        None => String::new(),
    };
    MessageLog { user_id, message, chat_id, message_id, timestamp }
}

/// Law: the directory queries select by the given id, placed verbatim at
/// the end of the query text.
pub proof fn lemma_query_texts(id: Seq<char>)
    ensures
        alias_query_text(id) == "SELECT alias FROM users WHERE t_uid = "@ + id,
        ts_name_query_text(id) == "SELECT ts_name FROM users WHERE id = "@ + id,
        alias_query_text(id).subrange(alias_query_text(id).len() - id.len(), alias_query_text(id).len() as int)
            == id,
{
    assert(alias_query_text(id).subrange(alias_query_text(id).len() - id.len(), alias_query_text(id).len() as int)
        =~= id);
}

} // verus!
