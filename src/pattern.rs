use vstd::prelude::*;

use regex::Regex;

use crate::header_analyzer::strings_view;

verus! {

#[verifier::external_type_specification]
#[verifier::external_body]
pub struct ExRegex(Regex);

#[verifier::external_type_specification]
#[verifier::external_body]
pub struct ExRegexError(regex::Error);

/// Whether `pattern` is accepted by the regex compiler.
pub uninterp spec fn pattern_is_valid(pattern: Seq<char>) -> bool;

/// Whether the regex compiled from `pattern` matches somewhere in `text`.
pub uninterp spec fn pattern_matches(pattern: Seq<char>, text: Seq<char>) -> bool;

/// Relies on `regex::Regex::new`: it returns `Ok` exactly for the patterns that
/// compile, which depends on the pattern text alone.
#[verifier::external_body]
fn compile(pattern: &str) -> (r: Result<Regex, regex::Error>)
    ensures
        r is Ok == pattern_is_valid(pattern@),
{
    Regex::new(pattern)
}

/// A pattern that was rejected by the regex compiler.
#[derive(Debug)]
pub struct PatternError {
    pub pattern: String,
}

/// An exploit-indicator pattern, compiled once and matched against header
/// names and values.
pub struct ExploitPattern {
    source: String,
    regex: Regex,
}

impl View for ExploitPattern {
    type V = Seq<char>;

    /// The pattern text the matcher was compiled from.
    closed spec fn view(&self) -> Seq<char> {
        self.source@
    }
}

impl ExploitPattern {
    /// Compiles `pattern`; fails exactly when the pattern is invalid.
    pub fn new(pattern: &str) -> (r: Result<ExploitPattern, PatternError>)
        ensures
            r is Ok == pattern_is_valid(pattern@),
            r matches Ok(p) ==> p@ == pattern@,
            r matches Err(e) ==> e.pattern@ == pattern@,
    {
        match compile(pattern) {
            Ok(regex) => Ok(ExploitPattern { source: String::from_str(pattern), regex }),
            Err(_) => Err(PatternError { pattern: String::from_str(pattern) }),
        }
    }

    /// Relies on `regex::Regex::is_match`: whether the regex matches somewhere
    /// in `text`. The `regex` field is only ever built by `Regex::new` from
    /// `source` (in `ExploitPattern::new`), so the result is that of the
    /// pattern this value views as.
    #[verifier::external_body]
    pub(crate) fn is_match(&self, text: &str) -> (r: bool)
        ensures
            r == pattern_matches(self@, text@),
    {
        self.regex.is_match(text)
    }
}

/// Every pattern text in `patterns`, as mathematical values.
pub open spec fn patterns_view(patterns: Seq<ExploitPattern>) -> Seq<Seq<char>> {
    patterns.map_values(|p: ExploitPattern| p@)
}

/// The index of the first pattern in `patterns` that is not valid.
pub open spec fn is_first_invalid(patterns: Seq<Seq<char>>, i: int) -> bool {
    0 <= i < patterns.len() && !pattern_is_valid(patterns[i]) && forall|j: int|
        0 <= j < i ==> pattern_is_valid(#[trigger] patterns[j])
}

/// Compiles every pattern in order, stopping at the first invalid one.
pub fn compile_patterns(patterns: &Vec<String>) -> (r: Result<Vec<ExploitPattern>, PatternError>)
    ensures
        r is Ok == (forall|j: int|
            0 <= j < patterns@.len() ==> pattern_is_valid(#[trigger] strings_view(patterns@)[j])),
        r matches Ok(v) ==> patterns_view(v@) == strings_view(patterns@),
        r matches Err(e) ==> exists|i: int|
            is_first_invalid(strings_view(patterns@), i) && e.pattern@ == #[trigger] strings_view(
                patterns@,
            )[i],
{
    let ghost texts = strings_view(patterns@);
    let mut compiled: Vec<ExploitPattern> = Vec::new();
    let mut i: usize = 0;
    while i < patterns.len()
        invariant
            i <= patterns@.len(),
            texts == strings_view(patterns@),
            compiled@.len() == i,
            patterns_view(compiled@) == texts.subrange(0, i as int),
            forall|j: int| 0 <= j < i ==> pattern_is_valid(#[trigger] texts[j]),
        decreases patterns@.len() - i,
    {
        match ExploitPattern::new(patterns[i].as_str()) {
            Ok(p) => {
                let ghost pv = p@;
                compiled.push(p);
                assert(patterns_view(compiled@)[i as int] == pv);
                assert(patterns_view(compiled@) =~= texts.subrange(0, i + 1));
            },
            Err(e) => {
                assert(is_first_invalid(texts, i as int));
                return Err(e);
            },
        }
        i = i + 1;
    }
    assert(texts.subrange(0, i as int) =~= texts);
    Ok(compiled)
}

} // verus!
