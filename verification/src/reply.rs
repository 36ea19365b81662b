//! Automatic replies: the rules stored in the `replies` table, how a rule is
//! triggered by a message, and which answer a message gets.
use vstd::prelude::*;
use crate::text::{has_substring, lowercase, to_lowercase, contains_str, same_text};

verus! {

/// How a rule's trigger is compared with a message.
#[derive(Clone, Copy, Debug, PartialEq, Eq, Structural)]
pub enum Comparator {
    Equals,
    Contains,
    Undefined,
}

/// What kind of answer a rule sends.
#[derive(Clone, Copy, Debug, PartialEq, Eq, Structural)]
pub enum ReplyType {
    Text,
    GifRandom,
    Undefined,
}

/// One automatic-reply rule.
#[derive(Debug)]
pub struct Reply {
    pub trigger: String,
    pub comparator: Comparator,
    pub ignore_case: bool,
    pub reply: String,
    pub reply_type: ReplyType,
    pub reply_flag: bool,
}

/// What the bot sends when a rule fires.
#[derive(Debug)]
pub enum ReplyAction {
    /// A text message; quoting the triggering message when `as_reply` holds.
    Text { text: String, as_reply: bool },
    /// A document (a GIF) given by its file id or URL; quoting the triggering
    /// message when `as_reply` holds.
    Document { file: String, as_reply: bool },
    /// The rule fired but its reply type is unknown: nothing is sent.
    Nothing,
}

/// The comparator stored under `code`: 0 is `Contains`, 1 is `Equals`.
pub open spec fn comparator_for(code: i8) -> Comparator {
    if code == 0 {
        Comparator::Contains
    } else if code == 1 {
        Comparator::Equals
    } else {
        Comparator::Undefined
    }
}

/// The reply type stored under `code`: 0 is `Text`, 3 is `GifRandom`.
pub open spec fn reply_type_for(code: i8) -> ReplyType {
    if code == 0 {
        ReplyType::Text
    } else if code == 3 {
        ReplyType::GifRandom
    } else {
        ReplyType::Undefined
    }
}

/// The message text as a rule compares it: lower-cased when the rule ignores case.
pub open spec fn compared_text(rule: Reply, data: Seq<char>) -> Seq<char> {
    if rule.ignore_case {
        lowercase(data)
    } else {
        data
    }
}

/// Whether `rule` fires on a message with text `data`.
pub open spec fn triggered(rule: Reply, data: Seq<char>) -> bool {
    match rule.comparator {
        Comparator::Equals => compared_text(rule, data) == rule.trigger@,
        Comparator::Contains => has_substring(compared_text(rule, data), rule.trigger@),
        Comparator::Undefined => false,
    }
}

/// Whether `action` is what `rule` answers with.
pub open spec fn answers_with(rule: Reply, action: ReplyAction) -> bool {
    match action {
        ReplyAction::Text { text, as_reply } => rule.reply_type == ReplyType::Text && text@
            == rule.reply@ && as_reply == rule.reply_flag,
        ReplyAction::Document { file, as_reply } => rule.reply_type == ReplyType::GifRandom
            && file@ == rule.reply@ && as_reply == rule.reply_flag,
        ReplyAction::Nothing => rule.reply_type == ReplyType::Undefined,
    }
}

/// `i` is the position of the first rule of `rules` that fires on `data`.
pub open spec fn first_triggered(rules: Seq<Reply>, data: Seq<char>, i: int) -> bool {
    &&& 0 <= i < rules.len()
    &&& triggered(rules[i], data)
    &&& forall|j: int| 0 <= j < i ==> !triggered(#[trigger] rules[j], data)
}

impl Comparator {
    /// Decodes the `comparator` column.
    pub fn from_code(code: i8) -> (c: Comparator)
        ensures
            c == comparator_for(code),
    {
        if code == 0 {
            Comparator::Contains
        } else if code == 1 {
            Comparator::Equals
        } else {
            Comparator::Undefined
        }
    }
}

impl ReplyType {
    /// Decodes the `reply_type` column.
    pub fn from_code(code: i8) -> (t: ReplyType)
        ensures
            t == reply_type_for(code),
    {
        if code == 0 {
            ReplyType::Text
        } else if code == 3 {
            ReplyType::GifRandom
        } else {
            ReplyType::Undefined
        }
    }
}

/// Decodes a boolean column: only 1 is true.
pub fn flag_from_code(code: i8) -> (b: bool)
    ensures
        b == (code == 1),
{
    code == 1
}

impl Reply {
    /// Builds a rule from a row `(trigger, comparator, ignore_case, reply,
    /// reply_type, reply_flag)` of the `replies` table.
    pub fn from_row(
        trigger: String,
        comparator: i8,
        ignore_case: i8,
        reply: String,
        reply_type: i8,
        reply_flag: i8,
    ) -> (r: Reply)
        ensures
            r.trigger == trigger,
            r.comparator == comparator_for(comparator),
            r.ignore_case == (ignore_case == 1),
            r.reply == reply,
            r.reply_type == reply_type_for(reply_type),
            r.reply_flag == (reply_flag == 1),
    {
        Reply {
            trigger,
            comparator: Comparator::from_code(comparator),
            ignore_case: flag_from_code(ignore_case),
            reply,
            reply_type: ReplyType::from_code(reply_type),
            reply_flag: flag_from_code(reply_flag),
        }
    }

    /// Whether this rule fires on a message with text `data`.
    pub fn is_triggered_by(&self, data: &str) -> (b: bool)
        ensures
            b == triggered(*self, data@),
    {
        let compared = if self.ignore_case {
            to_lowercase(data)
        } else {
            data.to_owned()
        };
        match self.comparator {
            Comparator::Equals => same_text(compared.as_str(), self.trigger.as_str()),
            Comparator::Contains => contains_str(compared.as_str(), self.trigger.as_str()),
            Comparator::Undefined => false,
        }
    }

    /// What this rule answers with when it fires.
    pub fn action(&self) -> (a: ReplyAction)
        ensures
            answers_with(*self, a),
    {
        match self.reply_type {
            ReplyType::Text => ReplyAction::Text { text: self.reply.clone(), as_reply: self.reply_flag },
            ReplyType::GifRandom => ReplyAction::Document {
                file: self.reply.clone(),
                as_reply: self.reply_flag,
            },
            ReplyType::Undefined => ReplyAction::Nothing,
        }
    }
}

/// The position of the first rule that fires on `data`, if any.
pub fn first_triggered_rule(rules: &Vec<Reply>, data: &str) -> (r: Option<usize>)
    ensures
        match r {
            Some(i) => first_triggered(rules@, data@, i as int),
            None => forall|j: int| 0 <= j < rules@.len() ==> !triggered(#[trigger] rules@[j], data@),
        },
{
    let mut i: usize = 0;
    while i < rules.len()
        invariant
            i <= rules.len(),
            forall|j: int| 0 <= j < i ==> !triggered(#[trigger] rules@[j], data@),
        decreases rules.len() - i,
    {
        if rules[i].is_triggered_by(data) {
            return Some(i);
        }
        i = i + 1;
    }
    None
}

/// The answer to a message with text `data`, given the rules in the order the
/// database returned them: the answer of the first rule that fires, or `None`
/// when no rule fires (the message is then not handled).
pub fn choose_reply(rules: &Vec<Reply>, data: &str) -> (r: Option<ReplyAction>)
    ensures
        r is Some <==> exists|i: int| 0 <= i < rules@.len() && triggered(#[trigger] rules@[i], data@),
        r matches Some(a) ==> exists|i: int| first_triggered(rules@, data@, i) && answers_with(rules@[i], a),
{
    match first_triggered_rule(rules, data) {
        Some(i) => Some(rules[i].action()),
        None => None,
    }
}

/// Law: a rule whose comparator is unknown never fires, whatever the message.
pub proof fn lemma_undefined_rule_never_fires(rule: Reply, data: Seq<char>)
    requires
        rule.comparator == Comparator::Undefined,
    ensures
        !triggered(rule, data),
{
}

/// Law: a rule that ignores case gives the same verdict on two messages with
/// the same lower-case form.
pub proof fn lemma_ignore_case_sees_lowercase_only(rule: Reply, a: Seq<char>, b: Seq<char>)
    requires
        rule.ignore_case,
        lowercase(a) == lowercase(b),
    ensures
        triggered(rule, a) == triggered(rule, b),
{
}

/// Law: an `Equals` rule fires exactly when the message text, lower-cased
/// when the rule ignores case, is the trigger itself; so it never fires on a
/// message whose compared text is longer or shorter than the trigger.
pub proof fn lemma_equals_rule_is_equality(rule: Reply, data: Seq<char>)
    requires
        rule.comparator == Comparator::Equals,
    ensures
        rule.ignore_case ==> (triggered(rule, data) <==> lowercase(data) == rule.trigger@),
        !rule.ignore_case ==> (triggered(rule, data) <==> data == rule.trigger@),
        triggered(rule, data) ==> (if rule.ignore_case { lowercase(data) } else { data }).len()
            == rule.trigger@.len(),
{
}

/// Law: a `Contains` rule fires exactly when the trigger occurs at some
/// position of the message text, lower-cased when the rule ignores case.
pub proof fn lemma_contains_rule_is_occurrence(rule: Reply, data: Seq<char>)
    requires
        rule.comparator == Comparator::Contains,
    ensures
        rule.ignore_case ==> (triggered(rule, data) <==> exists|i: int|
            0 <= i && i + rule.trigger@.len() <= lowercase(data).len() && #[trigger] lowercase(data).subrange(
                i,
                i + rule.trigger@.len(),
            ) == rule.trigger@),
        !rule.ignore_case ==> (triggered(rule, data) <==> exists|i: int|
            0 <= i && i + rule.trigger@.len() <= data.len() && #[trigger] data.subrange(
                i,
                i + rule.trigger@.len(),
            ) == rule.trigger@),
{
}

/// Law: the stored codes: comparator 0 means "contains", 1 means "equals";
/// reply type 0 is a text, 3 a GIF; every other code is undefined.
pub proof fn lemma_row_codes(code: i8)
    ensures
        comparator_for(code) == Comparator::Contains <==> code == 0,
        comparator_for(code) == Comparator::Equals <==> code == 1,
        reply_type_for(code) == ReplyType::Text <==> code == 0,
        reply_type_for(code) == ReplyType::GifRandom <==> code == 3,
{
}

} // verus!
