//! The pattern compiler: the one trusted boundary of the library.
//!
//! A [`Pattern`] pairs a matcher compiled by the `regex` crate with the
//! (ghost) pattern string it was compiled from.  Everything the rest of the
//! library claims about matching goes through the two uninterpreted names
//! below, so a compiled matcher is a pure function from text to boolean,
//! determined by its pattern string alone.

use vstd::prelude::*;

verus! {

/// Whether `regex::Regex::new` accepts `pat`: compilation succeeds or fails
/// as a pure function of the pattern string alone.
pub uninterp spec fn regex_valid(pat: Seq<char>) -> bool;

/// Whether the matcher compiled from `pat` matches anywhere inside `text`:
/// `regex::Regex::is_match` depends only on the pattern the matcher was
/// compiled from and on the text it is applied to.
pub uninterp spec fn regex_matches(pat: Seq<char>, text: Seq<char>) -> bool;

/// Declares `regex::Regex`, so that a compiled matcher can live inside a
/// library type; the value stays opaque here.
#[verifier::external_type_specification]
#[verifier::external_body]
pub struct ExRegex(regex::Regex);

/// Relies on `regex::Regex::new`: it returns `Ok` exactly when the pattern
/// is valid regular-expression syntax that fits the default compiled-size
/// limit, and compilation reads nothing but the pattern string.
#[verifier::external_body]
fn regex_new(pat: &str) -> (r: Option<regex::Regex>)
    ensures
        r is Some <==> regex_valid(pat@),
{
    regex::Regex::new(pat).ok()
}

/// A compiled matcher together with the pattern string it was compiled from.
///
/// Values exist only through [`Pattern::compile`], so the matcher inside
/// always belongs to the pattern string recorded in the ghost field.
pub struct Pattern {
    matcher: regex::Regex,
    src: Ghost<Seq<char>>,
}

impl Pattern {
    /// The pattern string this matcher was compiled from.
    pub closed spec fn src(&self) -> Seq<char> {
        self.src@
    }

    /// Compiles `pat` and records it as the source of the new matcher.
    pub fn compile(pat: &str) -> (r: Option<Pattern>)
        ensures
            r is Some <==> regex_valid(pat@),
            r matches Some(p) ==> p.src() == pat@,
    {
        match regex_new(pat) {
            Some(matcher) => Some(Pattern { matcher, src: Ghost(pat@) }),
            None => None,
        }
    }

    /// Relies on `regex::Regex::is_match`: whether a text matches depends
    /// only on the compiled pattern and on the text.  The `src` field names
    /// that pattern: [`Pattern::compile`] is the sole constructor, so the
    /// matcher inside was compiled from exactly `self.src()`.
    #[verifier::external_body]
    pub fn is_match(&self, text: &str) -> (r: bool)
        ensures
            r == regex_matches(self.src(), text@),
    {
        self.matcher.is_match(text)
    }
}

} // verus!
