//! A compiled regular expression that keeps its source text.

use vstd::prelude::*;

verus! {

#[verifier::external_type_specification]
#[verifier::external_body]
pub struct ExRegex(fancy_regex::Regex);

/// Whether `source` parses and compiles as a pattern.
pub uninterp spec fn pattern_compiles(source: Seq<char>) -> bool;

/// The groups of the first match of `source` in `text`, group 0 being the whole
/// match; `None` when there is no match or the search gives up.
pub uninterp spec fn captured_groups(source: Seq<char>, text: Seq<char>) -> Option<
    Seq<Option<Seq<char>>>,
>;

/// A compiled pattern; its view is the source text it was compiled from.
#[derive(Debug)]
pub struct Pattern {
    source: String,
    regex: fancy_regex::Regex,
}

impl View for Pattern {
    type V = Seq<char>;

    closed spec fn view(&self) -> Seq<char> {
        self.source@
    }
}

/// The texts of captured groups, `None` where a group took no part in the match.
pub open spec fn group_texts(groups: Seq<Option<String>>) -> Seq<Option<Seq<char>>> {
    groups.map_values(
        |g: Option<String>|
            match g {
                Some(s) => Some(s@),
                None => None,
            },
    )
}

impl Pattern {
    pub fn as_str(&self) -> (r: &str)
        ensures
            r@ == self@,
    {
        self.source.as_str()
    }

    /// Whether two patterns were compiled from the same text.
    pub fn same_source(&self, other: &Pattern) -> (r: bool)
        ensures
            r == (self@ == other@),
    {
        self.source == other.source
    }
}

/// Relies on fancy_regex::Regex::new: it succeeds exactly on the patterns it can
/// parse and compile, which depends on the pattern text alone; the error is shown
/// through its Display.
#[verifier::external_body]
pub(crate) fn compile_pattern(source: &str) -> (r: Result<Pattern, String>)
    ensures
        r is Ok <==> pattern_compiles(source@),
        r matches Ok(p) ==> p@ == source@,
{
    match fancy_regex::Regex::new(source) {
        Ok(regex) => Ok(Pattern { source: source.to_string(), regex }),
        Err(e) => Err(e.to_string()),
    }
}

/// Relies on fancy_regex::Regex::captures: the groups of the first match, in the
/// order they appear in the pattern; a search error counts as no match.
#[verifier::external_body]
pub(crate) fn find_groups(p: &Pattern, text: &str) -> (r: Option<Vec<Option<String>>>)
    ensures
        r is None <==> captured_groups(p@, text@) is None,
        r matches Some(g) ==> captured_groups(p@, text@) == Some(group_texts(g@)),
{
    match p.regex.captures(text) {
        Ok(Some(c)) => Some(c.iter().map(|m| m.map(|m| m.as_str().to_string())).collect()),
        Ok(None) => None,
        Err(_) => None,
    }
}

} // verus!
