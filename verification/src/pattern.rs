//! Regular expressions, through the `regex` crate. A [`Pattern`] keeps the
//! source text it was compiled from, so that what a match returns can be
//! stated as a function of that text and of the haystack.
use vstd::prelude::*;

verus! {

#[verifier::external_type_specification]
#[verifier::external_body]
pub struct ExRegex(regex::Regex);

#[verifier::external_type_specification]
#[verifier::external_body]
pub struct ExRegexError(regex::Error);

/// Whether `regex::Regex::new` accepts `pattern` (with its default size limit).
pub uninterp spec fn regex_compiles(pattern: Seq<char>) -> bool;

/// Whether the regex compiled from `pattern` matches somewhere in `text`.
pub uninterp spec fn regex_matches(pattern: Seq<char>, text: Seq<char>) -> bool;

/// For the leftmost-first match of the regex compiled from `pattern` in
/// `text`: `None` when there is no match, `Some(None)` when capture group
/// `group` did not take part in it, else `Some(Some(s))` with the text that
/// the group matched.
pub uninterp spec fn regex_capture(pattern: Seq<char>, text: Seq<char>, group: nat) -> Option<
    Option<Seq<char>>,
>;

/// A compiled regular expression together with the text it was compiled from.
pub struct Pattern {
    source: String,
    regex: regex::Regex,
}

impl Pattern {
    /// The source text this pattern was compiled from.
    pub closed spec fn source(&self) -> Seq<char> {
        self.source@
    }

    /// Trusted: calls `regex::Regex::new`. Claims that it succeeds exactly when
    /// `regex_compiles(pattern@)`, and that the pattern it gives keeps `pattern`
    /// as its source.
    #[verifier::external_body]
    pub fn compile(pattern: &str) -> (r: Result<Pattern, regex::Error>)
        ensures
            r is Ok <==> regex_compiles(pattern@),
            r matches Ok(p) ==> p.source() == pattern@,
    {
        regex::Regex::new(pattern).map(|regex| Pattern { source: pattern.to_string(), regex })
    }

    /// Trusted: calls `regex::Regex::is_match`. Claims that the answer is
    /// `regex_matches` of this pattern's source and `text`.
    #[verifier::external_body]
    pub fn is_match(&self, text: &str) -> (r: bool)
        ensures
            r == regex_matches(self.source(), text@),
    {
        self.regex.is_match(text)
    }

    /// Trusted: calls `regex::Regex::captures`, then `Captures::get` and
    /// `Match::as_str`. Claims that the result is `regex_capture` of this
    /// pattern's source, `text` and `group`; that there is a capture exactly
    /// when `is_match` holds (both report whether any match exists); and that
    /// group 0, the whole match, always takes part in a match.
    #[verifier::external_body]
    pub fn capture(&self, text: &str, group: usize) -> (r: Option<Option<String>>)
        ensures
            r.deep_view() == regex_capture(self.source(), text@, group as nat),
            r is Some <==> regex_matches(self.source(), text@),
            group == 0 ==> (r is Some ==> r->0 is Some),
    {
        match self.regex.captures(text) {
            Some(caps) => Some(caps.get(group).map(|m| m.as_str().to_string())),
            None => None,
        }
    }
}

} // verus!
