use vstd::prelude::*;
use regex::Error as RegexError;
use crate::rpc_id::{IMPLEMENTOR_PATTERN, NAME_PATTERN, implementor_syntax, name_syntax};

verus! {

/// `regex::Regex`, a compiled regular expression, opaque here.
#[verifier::external_type_specification]
#[verifier::external_body]
pub struct ExRegex(regex::Regex);

/// `regex::Error`, why a pattern did not compile, opaque here.
#[verifier::external_type_specification]
#[verifier::external_body]
pub struct ExRegexError(RegexError);

/// Whether `regex::Regex::new` accepts `pattern` (its syntax is valid and the compiled program
/// stays within the default size limit).
pub uninterp spec fn regex_compiles(pattern: Seq<char>) -> bool;

/// Whether the regex compiled from `pattern` finds a match anywhere in `haystack`.
pub uninterp spec fn regex_finds_match(pattern: Seq<char>, haystack: Seq<char>) -> bool;

/// A compiled regular expression together with the pattern it was compiled from.
///
/// Its fields are private to this module and `compile` is the only place that builds one, so
/// `compiled` is always the regex that `regex::Regex::new` made from `source`. That pairing
/// cannot be written as a type invariant, since the regex is opaque here.
pub struct Pattern {
    source: String,
    compiled: regex::Regex,
}

impl Pattern {
    /// The pattern this regex was compiled from.
    pub closed spec fn source(&self) -> Seq<char> {
        self.source@
    }

    /// Compiles `source` with `regex::Regex::new`. Trusted: the result is `Ok` exactly when the
    /// crate accepts the pattern, an `Ok` keeps the pattern it was compiled from, and the two
    /// patterns of RPC identifiers (plain anchors, ranges and repetitions, well within the size
    /// limit) are accepted.
    #[verifier::external_body]
    pub fn compile(source: String) -> (res: Result<Pattern, RegexError>)
        ensures
            res is Ok <==> regex_compiles(source@),
            res matches Ok(p) ==> p.source() == source@,
            source@ == NAME_PATTERN@ ==> res is Ok,
            source@ == IMPLEMENTOR_PATTERN@ ==> res is Ok,
    {
        match regex::Regex::new(source.as_str()) {
            Ok(compiled) => Ok(Pattern { source, compiled }),
            Err(e) => Err(e),
        }
    }

    /// Calls `regex::Regex::is_match`. Trusted: the result is the named outcome of matching the
    /// pattern against the haystack. For the two patterns of RPC identifiers the crate's
    /// documentation gives it in full: `^` and `$` anchor at the start and the end of the
    /// haystack, `[a-z]` is the range of characters from `a` to `z`, and `*` repeats zero or
    /// more times, so the match is exactly `name_syntax` or `implementor_syntax`.
    #[verifier::external_body]
    pub fn is_match(&self, haystack: &str) -> (res: bool)
        ensures
            res == regex_finds_match(self.source(), haystack@),
            self.source() == NAME_PATTERN@ ==> res == name_syntax(haystack@),
            self.source() == IMPLEMENTOR_PATTERN@ ==> res == implementor_syntax(haystack@),
    {
        self.compiled.is_match(haystack)
    }
}

} // verus!
