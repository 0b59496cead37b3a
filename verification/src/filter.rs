//! Admission of a candidate file by what it contains: an exclusion pattern
//! that always wins, and an inclusion pattern that must be found where one is
//! configured. Patterns are searched without regard to letter case.

use regex::Regex;
use vstd::prelude::*;
use vstd::string::*;

verus! {

/// Whether `regex` accepts `pattern` as a regular expression.
pub uninterp spec fn regex_compiles(pattern: Seq<char>) -> bool;

/// Whether the regular expression `pattern` matches somewhere in `text`.
pub uninterp spec fn regex_is_match(pattern: Seq<char>, text: Seq<char>) -> bool;

/// `regex::Regex::new` on `pattern`, then `regex::Regex::is_match` on `text`.
/// The result is `None` exactly when the crate rejects the pattern, which
/// depends on the pattern alone; otherwise it tells whether the compiled
/// expression matches anywhere in `text`. Nothing is claimed about which
/// patterns compile or what they match.
#[verifier::external_body]
fn regex_search(pattern: &str, text: &str) -> (found: Option<bool>)
    ensures
        found is Some <==> regex_compiles(pattern@),
        found is Some ==> found.unwrap() == regex_is_match(pattern@, text@),
{
    match Regex::new(pattern) {
        Ok(re) => Some(re.is_match(text)),
        Err(_) => None,
    }
}

/// The expression that searches for `pattern` without regard to letter case.
pub open spec fn insensitive(pattern: Seq<char>) -> Seq<char> {
    "(?i)"@ + pattern
}

/// Whether `pattern`, searched without regard to case, is a usable expression.
pub open spec fn pattern_usable(pattern: Option<String>) -> bool {
    match pattern {
        Some(p) => regex_compiles(insensitive(p@)),
        None => true,
    }
}

/// What searching `text` for an optional pattern yields: `None` without a
/// pattern, else whether it was found.
pub open spec fn hit(pattern: Option<String>, text: Seq<char>) -> Option<bool> {
    match pattern {
        Some(p) => Some(regex_is_match(insensitive(p@), text)),
        None => None,
    }
}

/// The admission rule. `excluded` and `included` are `None` where the
/// pattern is not configured, else whether the pattern was found.
pub open spec fn admitted(excluded: Option<bool>, included: Option<bool>) -> bool {
    excluded != Some(true) && included != Some(false)
}

/// Decides admission from the two search results.
pub fn decide(excluded: Option<bool>, included: Option<bool>) -> (r: bool)
    ensures
        r == admitted(excluded, included),
{
    match excluded {
        Some(true) => false,
        _ => match included {
            Some(false) => false,
            _ => true,
        },
    }
}

/// Builds the case-insensitive form of `pattern`.
pub fn insensitive_expression(pattern: &str) -> (s: String)
    ensures
        s@ == insensitive(pattern@),
{
    String::from_str("(?i)").concat(pattern)
}

/// Searches `text` for `pattern` without regard to case. `None` exactly when
/// the pattern is not a usable expression.
pub fn search(pattern: &str, text: &str) -> (found: Option<bool>)
    ensures
        found is Some <==> regex_compiles(insensitive(pattern@)),
        found is Some ==> found.unwrap() == regex_is_match(insensitive(pattern@), text@),
{
    let expression = insensitive_expression(pattern);
    regex_search(expression.as_str(), text)
}

/// Whether `pattern` can be searched for at all.
pub fn pattern_is_usable(pattern: &Option<String>) -> (b: bool)
    ensures
        b == pattern_usable(*pattern),
{
    match pattern {
        Some(p) => search(p.as_str(), "").is_some(),
        None => true,
    }
}

/// The content rules of one run.
#[derive(Clone, Debug)]
pub struct ContentFilter {
    /// Files in which this pattern is found are left out.
    pub exclude_pattern: Option<String>,
    /// Where set, only files in which this pattern is found are taken.
    pub include_pattern: Option<String>,
}

impl ContentFilter {
    /// Both patterns, as far as configured, are usable expressions.
    pub open spec fn usable(&self) -> bool {
        pattern_usable(self.exclude_pattern) && pattern_usable(self.include_pattern)
    }

    /// Whether a file with these contents is admitted.
    pub open spec fn admits_contents(&self, contents: Seq<char>) -> bool {
        admitted(hit(self.exclude_pattern, contents), hit(self.include_pattern, contents))
    }

    pub fn is_usable(&self) -> (b: bool)
        ensures
            b == self.usable(),
    {
        pattern_is_usable(&self.exclude_pattern) && pattern_is_usable(&self.include_pattern)
    }

    /// Decides whether a file with `contents` is admitted. `None` exactly
    /// when a configured pattern is not a usable expression.
    pub fn admits(&self, contents: &str) -> (r: Option<bool>)
        ensures
            r is Some <==> self.usable(),
            r is Some ==> r.unwrap() == self.admits_contents(contents@),
    {
        let excluded = match &self.exclude_pattern {
            Some(p) => match search(p.as_str(), contents) {
                Some(found) => Some(found),
                None => {
                    return None;
                },
            },
            None => None,
        };
        let included = match &self.include_pattern {
            Some(p) => match search(p.as_str(), contents) {
                Some(found) => Some(found),
                None => {
                    return None;
                },
            },
            None => None,
        };
        Some(decide(excluded, included))
    }
}

/// An exclusion pattern that is found keeps the file out, whatever the
/// inclusion pattern says.
pub proof fn lemma_exclusion_wins(filter: ContentFilter, contents: Seq<char>)
    requires
        hit(filter.exclude_pattern, contents) == Some(true),
    ensures
        !filter.admits_contents(contents),
{
}

/// Without patterns every file is admitted.
pub proof fn lemma_no_patterns_admit_all(filter: ContentFilter, contents: Seq<char>)
    requires
        filter.exclude_pattern is None,
        filter.include_pattern is None,
    ensures
        filter.usable(),
        filter.admits_contents(contents),
{
}

} // verus!
