//! Compiled regular-expression rules.
//!
//! A [`Rule`] pairs a compiled `regex::Regex` with the pattern text it was
//! compiled from. The only way to obtain a `Rule` is [`Rule::new`], so the
//! pattern that a rule reports is always the one its regex was built from.

use vstd::prelude::*;

verus! {

/// The compiled regular expression of the `regex` crate.
#[verifier::external_type_specification]
#[verifier::external_body]
pub struct ExRegex(regex::Regex);

/// The error that `regex::Regex::new` reports for a pattern it refuses.
#[verifier::external_type_specification]
#[verifier::external_body]
pub struct ExRegexError(regex::Error);

/// Whether `regex::Regex::new` accepts `pattern` (with its default limits).
pub uninterp spec fn regex_compiles(pattern: Seq<char>) -> bool;

/// Whether the regular expression written as `pattern` matches somewhere in
/// `haystack`, as `regex::Regex::is_match` decides it.
pub uninterp spec fn regex_is_match(pattern: Seq<char>, haystack: Seq<char>) -> bool;

/// Why a rule could not be built.
#[derive(Debug, PartialEq, Eq, Structural)]
pub enum RuleError {
    /// The pattern is not a regular expression that the `regex` crate accepts.
    InvalidPattern,
}

/// A regular expression together with the pattern it was compiled from.
pub struct Rule {
    regex: regex::Regex,
    source: Ghost<Seq<char>>,
}

impl View for Rule {
    type V = Seq<char>;

    /// The pattern text that the rule was compiled from.
    closed spec fn view(&self) -> Seq<char> {
        self.source@
    }
}

/// Compiles `pattern` with `regex::Regex::new`.
///
/// Trusted: the call succeeds exactly when the pattern is accepted
/// (`regex_compiles`), and the rule it yields reports `pattern` as its source.
#[verifier::external_body]
fn compile_regex(pattern: &str) -> (r: Result<Rule, regex::Error>)
    ensures
        r is Ok <==> regex_compiles(pattern@),
        r matches Ok(rule) ==> rule@ == pattern@,
{
    match regex::Regex::new(pattern) {
        Ok(regex) => Ok(Rule { regex, source: Ghost(pattern@) }),
        Err(e) => Err(e),
    }
}

/// Runs `regex::Regex::is_match` of the rule's regex on `haystack`.
///
/// Trusted: the answer is `regex_is_match` of the rule's pattern and the
/// haystack, a function of those two texts alone.
#[verifier::external_body]
fn regex_matches(rule: &Rule, haystack: &str) -> (r: bool)
    ensures
        r == regex_is_match(rule@, haystack@),
{
    rule.regex.is_match(haystack)
}

/// Returns `regex::Regex::as_str` of the rule's regex.
///
/// Trusted: `as_str` gives back the original pattern text of the regex, which
/// is the rule's source.
#[verifier::external_body]
fn regex_source<'a>(rule: &'a Rule) -> (r: &'a str)
    ensures
        r@ == rule@,
{
    rule.regex.as_str()
}

impl Rule {
    /// Compiles `pattern` into a rule; fails exactly when the `regex` crate
    /// refuses the pattern.
    pub fn new(pattern: &str) -> (r: Result<Rule, RuleError>)
        ensures
            r is Ok <==> regex_compiles(pattern@),
            r matches Ok(rule) ==> rule@ == pattern@,
            r matches Err(e) ==> e == RuleError::InvalidPattern,
    {
        match compile_regex(pattern) {
            Ok(rule) => Ok(rule),
            Err(_) => Err(RuleError::InvalidPattern),
        }
    }

    /// Whether the rule matches somewhere in `haystack`.
    pub fn is_match(&self, haystack: &str) -> (r: bool)
        ensures
            r == regex_is_match(self@, haystack@),
    {
        regex_matches(self, haystack)
    }

    /// The pattern text the rule was compiled from.
    pub fn as_str(&self) -> (r: &str)
        ensures
            r@ == self@,
    {
        regex_source(self)
    }
}

} // verus!
