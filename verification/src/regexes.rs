//! Regular-expression matching behind a trusted boundary.
//!
//! Bookmark namespaces and per-bookmark access rules are configured as
//! regexes.  The regex engine itself is an outside collaborator; matching is
//! named by uninterpreted functions of the pattern and the haystack, and the
//! rest of the library is verified against those names.

use vstd::prelude::*;

verus! {

/// Whether the regex engine accepts `pattern` as a valid pattern under its
/// default configuration.
pub uninterp spec fn regex_pattern_valid(pattern: Seq<char>) -> bool;

/// Whether `pattern`, compiled by the regex engine, matches anywhere inside
/// `text`.
pub uninterp spec fn regex_matches(pattern: Seq<char>, text: Seq<char>) -> bool;

/// Relies on regex::Regex::new and regex::Regex::is_match: whether a pattern
/// compiles depends on the pattern alone, and whether a compiled pattern
/// matches a haystack depends on the pattern and the haystack alone.
#[verifier::external_body]
fn regex_is_match(pattern: &str, text: &str) -> (r: Option<bool>)
    ensures
        r is Some <==> regex_pattern_valid(pattern@),
        r matches Some(b) ==> b == regex_matches(pattern@, text@),
{
    match regex::Regex::new(pattern) {
        Ok(re) => Some(re.is_match(text)),
        Err(_) => None,
    }
}

/// Relies on regex::Regex::new: whether a pattern compiles depends on the
/// pattern alone.
#[verifier::external_body]
fn regex_compiles(pattern: &str) -> (r: bool)
    ensures
        r == regex_pattern_valid(pattern@),
{
    regex::Regex::new(pattern).is_ok()
}

/// A regex that can be compared against other regexes.
///
/// Regexes are compared using the pattern they were constructed from.  This
/// is not a semantic comparison: two functionally equivalent regexes compare
/// as different when they were constructed from different patterns.
#[derive(Debug, Clone)]
pub struct ComparableRegex {
    pattern: String,
}

impl ComparableRegex {
    /// The pattern this regex was built from, as an abstract value.
    pub closed spec fn pattern_view(&self) -> Seq<char> {
        self.pattern@
    }

    /// A well-formed value holds a pattern that the regex engine accepts.
    pub closed spec fn wf(&self) -> bool {
        regex_pattern_valid(self.pattern@)
    }

    /// Compile a pattern into a comparable regex.  Returns `None` when the
    /// regex engine rejects the pattern.
    pub fn new(pattern: String) -> (r: Option<ComparableRegex>)
        ensures
            r is Some <==> regex_pattern_valid(pattern@),
            r matches Some(re) ==> re.pattern_view() == pattern@ && re.wf(),
    {
        if regex_compiles(pattern.as_str()) {
            Some(ComparableRegex { pattern })
        } else {
            None
        }
    }

    /// Extract the pattern from the wrapper.
    pub fn into_inner(self) -> (r: String)
        ensures
            r@ == self.pattern_view(),
    {
        self.pattern
    }

    /// The pattern string.
    pub fn as_str(&self) -> (r: &str)
        ensures
            r@ == self.pattern_view(),
    {
        self.pattern.as_str()
    }

    /// Whether this regex matches anywhere inside `text`.
    pub fn is_match(&self, text: &str) -> (r: bool)
        requires
            self.wf(),
        ensures
            r == regex_matches(self.pattern_view(), text@),
    {
        match regex_is_match(self.pattern.as_str(), text) {
            Some(b) => b,
            None => false,
        }
    }
}

impl PartialEq for ComparableRegex {
    /// Regexes compare equal when their patterns are identical strings.
    fn eq(&self, other: &ComparableRegex) -> (r: bool) {
        self.pattern == other.pattern
    }
}

impl vstd::std_specs::cmp::PartialEqSpecImpl for ComparableRegex {
    open spec fn obeys_eq_spec() -> bool {
        true
    }

    open spec fn eq_spec(&self, other: &ComparableRegex) -> bool {
        self.pattern_view() == other.pattern_view()
    }
}

impl Eq for ComparableRegex {
}

} // verus!
