//! Compiled substitution patterns, backed by the `regex` crate.
use vstd::prelude::*;

verus! {

#[verifier::external_type_specification]
#[verifier::external_body]
pub struct ExRegex(regex::Regex);

#[verifier::external_type_specification]
#[verifier::external_body]
pub struct ExRegexError(regex::Error);

/// Whether `regex::Regex::new` accepts a pattern; it depends on the pattern alone.
pub uninterp spec fn compiles(pattern: Seq<char>) -> bool;

/// What `regex::Regex::replace_all` returns for the regex compiled from `pattern`,
/// a haystack and a replacement template: every non-overlapping match replaced,
/// capture references in the template expanded.
pub uninterp spec fn replaced_all(
    pattern: Seq<char>,
    text: Seq<char>,
    replacement: Seq<char>,
) -> Seq<char>;

/// Relies on `regex::Regex::new`: it succeeds exactly on the patterns it accepts.
#[verifier::external_body]
fn compile(pattern: &str) -> (r: Result<regex::Regex, regex::Error>)
    ensures
        r is Ok <==> compiles(pattern@),
{
    regex::Regex::new(pattern)
}

/// A pattern together with its source text. Both fields are private and set only
/// by `Pattern::new`, so `regex` is always the compilation of `source`.
pub struct Pattern {
    regex: regex::Regex,
    source: String,
}

impl Pattern {
    /// The source text the pattern was compiled from.
    pub closed spec fn view(&self) -> Seq<char> {
        self.source@
    }

    /// Compiles `source`; `None` where the regex syntax rejects it.
    pub fn new(source: &str) -> (r: Option<Pattern>)
        ensures
            r is Some <==> compiles(source@),
            r matches Some(p) ==> p@ == source@,
    {
        match compile(source) {
            Ok(regex) => Some(Pattern { regex, source: String::from_str(source) }),
            Err(_) => None,
        }
    }

    /// The source text of the pattern.
    pub fn as_str(&self) -> (r: &str)
        ensures
            r@ == self@,
    {
        self.source.as_str()
    }

    /// Replaces every non-overlapping match in `text` by `replacement`.
    pub fn replace_all(&self, text: &str, replacement: &str) -> (r: String)
        ensures
            r@ == replaced_all(self@, text@, replacement@),
    {
        regex_replace_all(self, text, replacement)
    }
}

/// Relies on `regex::Regex::replace_all` with a `&str` template. The regex held in
/// `p` was compiled from `p@` (see `Pattern`), so the result is named over `p@`.
#[verifier::external_body]
fn regex_replace_all(p: &Pattern, text: &str, replacement: &str) -> (r: String)
    ensures
        r@ == replaced_all(p@, text@, replacement@),
{
    p.regex.replace_all(text, replacement).into_owned()
}

} // verus!
