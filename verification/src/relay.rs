//! The log chat: messages posted there are relayed to the TeamSpeak server
//! under the sender's name instead of being handled as commands.
use vstd::prelude::*;
use crate::text::{decimal, signed_decimal, i64_to_decimal, u32_to_decimal, same_text};
use crate::chance::random_u32;

verus! {

/// The name a relayed message is sent under before its suffixes: the
/// sender's alias, or "first last" when the sender has none.
pub open spec fn sender_name(alias: Seq<char>, first: Seq<char>, last: Seq<char>) -> Seq<char> {
    if alias.len() == 0 {
        first + " "@ + last
    } else {
        alias
    }
}

/// The full name a relayed message is sent under: [`sender_name`], then
/// `random` in decimal when the sender is the configured exception, then " (Log)".
pub open spec fn relay_name_text(
    alias: Seq<char>,
    first: Seq<char>,
    last: Seq<char>,
    sender_id: int,
    exception_id: Seq<char>,
    random: u32,
) -> Seq<char> {
    sender_name(alias, first, last) + (if signed_decimal(sender_id) == exception_id {
        decimal(random as nat)
    } else {
        Seq::<char>::empty()
    }) + " (Log)"@
}

/// Whether the chat `chat_id` is the configured log chat `log_chat_id`
/// (compared as the decimal text of the id).
pub fn is_log_chat(chat_id: i64, log_chat_id: &str) -> (b: bool)
    ensures
        b == (signed_decimal(chat_id as int) == log_chat_id@),
{
    let id = i64_to_decimal(chat_id);
    same_text(id.as_str(), log_chat_id)
}

/// The full name for a relayed message, given the number `random` to mark
/// the configured exception with.
pub fn relay_name_with(
    alias: &str,
    first: &str,
    last: &str,
    sender_id: i64,
    exception_id: &str,
    random: u32,
) -> (s: String)
    ensures
        s@ == relay_name_text(alias@, first@, last@, sender_id as int, exception_id@, random),
{
    let mut s = if alias.unicode_len() == 0 {
        let mut n = first.to_owned();
        n.append(" ");
        n.append(last);
        n
    } else {
        alias.to_owned()
    };
    let id = i64_to_decimal(sender_id);
    if same_text(id.as_str(), exception_id) {
        let r = u32_to_decimal(random);
        s.append(r.as_str());
    }
    s.append(" (Log)");
    assert(s@ =~= relay_name_text(alias@, first@, last@, sender_id as int, exception_id@, random));
    s
}

/// The full name for a relayed message; the configured exception gets a
/// freshly drawn random number.
pub fn relay_name(alias: &str, first: &str, last: &str, sender_id: i64, exception_id: &str) -> (s: String)
    ensures
        exists|random: u32| s@ == relay_name_text(alias@, first@, last@, sender_id as int, exception_id@, random),
{
    let id = i64_to_decimal(sender_id);
    let random = if same_text(id.as_str(), exception_id) {
        random_u32()
    } else {
        0
    };
    relay_name_with(alias, first, last, sender_id, exception_id, random)
}

/// Law: every relayed message is marked as coming from the log chat: its
/// name ends in " (Log)".
pub proof fn lemma_relay_name_marked(
    alias: Seq<char>,
    first: Seq<char>,
    last: Seq<char>,
    sender_id: int,
    exception_id: Seq<char>,
    random: u32,
)
    ensures
        ({
            let name = relay_name_text(alias, first, last, sender_id, exception_id, random);
            name.len() >= 6 && name.subrange(name.len() - 6, name.len() as int) == " (Log)"@
        }),
{
    let name = relay_name_text(alias, first, last, sender_id, exception_id, random);
    reveal_strlit(" (Log)");
    let prefix = sender_name(alias, first, last) + (if signed_decimal(sender_id) == exception_id {
        decimal(random as nat)
    } else {
        Seq::<char>::empty()
    });
    assert(name == prefix + " (Log)"@);
    assert(name.subrange(name.len() - 6, name.len() as int) =~= " (Log)"@);
}

/// Law: a relayed message goes out under the sender's alias followed by
/// " (Log)"; a sender without alias goes out as "first last (Log)"; only the
/// configured exception user, recognised by the decimal text of the id,
/// gets the drawn number, in decimal, between name and " (Log)".
pub proof fn lemma_relay_name_parts(
    alias: Seq<char>,
    first: Seq<char>,
    last: Seq<char>,
    sender_id: int,
    exception_id: Seq<char>,
    random: u32,
)
    ensures
        ({
            let base = if alias.len() == 0 { first + " "@ + last } else { alias };
            let mark = if signed_decimal(sender_id) == exception_id {
                decimal(random as nat)
            } else {
                Seq::<char>::empty()
            };
            relay_name_text(alias, first, last, sender_id, exception_id, random) == base + mark + " (Log)"@
        }),
{
}

} // verus!
