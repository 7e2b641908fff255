//! Compiled name-match patterns, backed by the regex crate.

use vstd::prelude::*;
use crate::EngineError;

verus! {

/// Whether a pattern text is a valid regular expression (within the default
/// size limit), as `regex::Regex::new` decides it.
pub uninterp spec fn regex_valid(pattern: Seq<char>) -> bool;

/// Whether the text contains a match of the pattern, as
/// `regex::Regex::is_match` decides it.
pub uninterp spec fn regex_match(pattern: Seq<char>, text: Seq<char>) -> bool;

/// A compiled regular expression together with the pattern text it was
/// compiled from. Values are only built by `compile`, so the two fields
/// always belong together.
pub struct CompiledPattern {
    source: String,
    regex: regex::Regex,
}

#[verifier::external_type_specification]
#[verifier::external_body]
pub struct ExRegex(regex::Regex);

#[verifier::external_type_specification]
#[verifier::external_body]
pub struct ExRegexError(regex::Error);

impl CompiledPattern {
    /// The pattern text this value was compiled from.
    pub closed spec fn pattern(self) -> Seq<char> {
        self.source@
    }

    /// Relies on `regex::Regex::new`: compilation is a function of the
    /// pattern text alone, and succeeds exactly when the text is a valid
    /// regular expression within the default size limit.
    #[verifier::external_body]
    fn compile(pattern: &str) -> (r: Result<CompiledPattern, regex::Error>)
        ensures
            r is Ok <==> regex_valid(pattern@),
            r is Ok ==> r.unwrap().pattern() == pattern@,
    {
        match regex::Regex::new(pattern) {
            Ok(regex) => Ok(CompiledPattern { source: pattern.to_owned(), regex }),
            Err(e) => Err(e),
        }
    }

    /// Compile a pattern; an invalid pattern is a configuration error.
    pub fn new(pattern: &str) -> (r: Result<CompiledPattern, EngineError>)
        ensures
            r is Ok <==> regex_valid(pattern@),
            r is Ok ==> r.unwrap().pattern() == pattern@,
            r is Err ==> r == Err::<CompiledPattern, EngineError>(EngineError::InvalidPattern),
    {
        match Self::compile(pattern) {
            Ok(p) => Ok(p),
            Err(_) => Err(EngineError::InvalidPattern),
        }
    }

    /// Relies on `regex::Regex::is_match`: whether the text contains a match
    /// is a function of the pattern and the text alone. A `CompiledPattern`
    /// is only built by `compile`, from its own source text.
    #[verifier::external_body]
    pub(crate) fn is_match(&self, text: &str) -> (r: bool)
        ensures
            r == regex_match(self.pattern(), text@),
    {
        self.regex.is_match(text)
    }
}

} // verus!
