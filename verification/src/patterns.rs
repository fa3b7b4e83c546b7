//! The boundary to the `regex` crate: compiled patterns and what is assumed
//! of them.
//!
//! A pattern's validity and the outcome of an unanchored search are both
//! functions of plain strings, so they are named by uninterpreted spec
//! functions, and the two wrappers below are the only places the crate
//! touches `regex`.

use vstd::prelude::*;

verus! {

/// Whether `regex::Regex::new` accepts the pattern. Compilation succeeds or
/// fails on the pattern string alone (the size limit it is checked against is
/// the builder's fixed default).
pub uninterp spec fn pattern_valid(pattern: Seq<char>) -> bool;

/// Whether an unanchored, case-sensitive search for the pattern matches
/// anywhere in the haystack: the result of `regex::Regex::is_match`, a
/// function of the pattern and the haystack alone.
pub uninterp spec fn pattern_matches(pattern: Seq<char>, haystack: Seq<char>) -> bool;

#[verifier::external_type_specification]
#[verifier::external_body]
pub struct ExRegex(regex::Regex);

/// A compiled matcher paired with the pattern it was compiled from.
///
/// The fields are private and `compile` is the only constructor, so every
/// value's `regex` was built by `regex::Regex::new` from its `source`.
#[derive(Debug)]
pub struct CompiledPattern {
    source: String,
    regex: regex::Regex,
}

impl View for CompiledPattern {
    type V = Seq<char>;

    closed spec fn view(&self) -> Seq<char> {
        self.source@
    }
}

impl CompiledPattern {
    /// Relies on `regex::Regex::new`: it returns `Ok` exactly when the
    /// pattern is one it accepts, and the error's message describes the
    /// offending syntax.
    #[verifier::external_body]
    pub(crate) fn compile(pattern: &str) -> (r: Result<CompiledPattern, String>)
        ensures
            r is Ok <==> pattern_valid(pattern@),
            r is Ok ==> r->Ok_0@ == pattern@,
    {
        match regex::Regex::new(pattern) {
            Ok(regex) => Ok(CompiledPattern { source: pattern.to_string(), regex }),
            Err(e) => Err(e.to_string()),
        }
    }

    /// Relies on `regex::Regex::is_match`: true if and only if the regex
    /// matches anywhere in the haystack, an outcome depending on the pattern
    /// and the haystack alone.
    #[verifier::external_body]
    pub(crate) fn is_match(&self, haystack: &str) -> (r: bool)
        ensures
            r == pattern_matches(self@, haystack@),
    {
        self.regex.is_match(haystack)
    }
}

} // verus!
