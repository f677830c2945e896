//! Regular-expression search, done by the `regex` crate.

use vstd::prelude::*;
use crate::text::opt_view;

verus! {

#[verifier::external_type_specification]
#[verifier::external_body]
pub struct ExRegex(regex::Regex);

/// Whether `regex::Regex::new` accepts the pattern.
pub uninterp spec fn pattern_compiles(pattern: Seq<char>) -> bool;

/// What `Regex::captures` finds for a pattern in a text: `None` when the
/// pattern does not match; otherwise the groups of the leftmost-first match,
/// group 0 being the whole match and group `i` the text of the `i`-th
/// parenthesised group (`None` where that group took no part).
pub uninterp spec fn captures_of(pattern: Seq<char>, text: Seq<char>) -> Option<Seq<Option<Seq<char>>>>;

/// A compiled regular expression together with its source text.
pub struct TextPattern {
    regex: regex::Regex,
    source: String,
}

impl TextPattern {
    /// The pattern's source text.
    pub closed spec fn source(&self) -> Seq<char> {
        self.source@
    }
}

/// The texts of a list of capture groups.
pub open spec fn groups_view(groups: Vec<Option<String>>) -> Seq<Option<Seq<char>>> {
    groups@.map_values(|g: Option<String>| opt_view(g))
}

/// `Regex::new`: the compiled pattern, or `None` where the crate refuses it.
#[verifier::external_body]
pub(crate) fn compile_pattern(pattern: &str) -> (r: Option<TextPattern>)
    ensures
        r is Some <==> pattern_compiles(pattern@),
        r matches Some(p) ==> p.source() == pattern@,
{
    match regex::Regex::new(pattern) {
        Ok(regex) => Some(TextPattern { regex, source: pattern.to_string() }),
        Err(_) => None,
    }
}

/// `Regex::captures`: the capture groups of the first match of the pattern
/// in `text` (each turned into an owned string), or `None`.
#[verifier::external_body]
pub(crate) fn find_captures(pattern: &TextPattern, text: &str) -> (r: Option<Vec<Option<String>>>)
    ensures
        match r {
            Some(groups) => captures_of(pattern.source(), text@) == Some(groups_view(groups)),
            None => captures_of(pattern.source(), text@) is None,
        },
{
    pattern.regex.captures(text).map(|caps| caps.iter().map(|m| m.map(|m| m.as_str().to_string())).collect())
}

/// Group `i` of a list of capture groups; `None` past its end.
pub open spec fn group_at(groups: Seq<Option<Seq<char>>>, i: int) -> Option<Seq<char>> {
    if 0 <= i < groups.len() {
        groups[i]
    } else {
        None
    }
}

/// The text of group `i`, if that group exists and took part.
pub fn group_text(groups: &Vec<Option<String>>, i: usize) -> (r: Option<String>)
    ensures
        opt_view(r) == group_at(groups_view(*groups), i as int),
{
    if i < groups.len() {
        match &groups[i] {
            Some(g) => Some(g.clone()),
            None => None,
        }
    } else {
        None
    }
}

} // verus!
