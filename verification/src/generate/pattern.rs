//! Regular expressions, as the crate `regex` compiles and matches them.

use regex::Regex;
use vstd::prelude::*;

verus! {

#[verifier::external_type_specification]
#[verifier::external_body]
pub struct ExRegex(Regex);

/// Whether `Regex::new` accepts `pattern`.
pub uninterp spec fn compiles(pattern: Seq<char>) -> bool;

/// The pattern that a regular expression was compiled from.
pub uninterp spec fn pattern_of(regex: Regex) -> Seq<char>;

/// What the first match of `pattern` in `line` captures: `None` where
/// there is no match, and else the text of every group, the whole match
/// first, with `None` for a group that took no part in the match.
pub uninterp spec fn groups_of(pattern: Seq<char>, line: Seq<char>) -> Option<Seq<Option<Seq<char>>>>;

/// `Regex::new`: compiles a pattern. Which patterns it accepts is not
/// stated here, only named: `compiles`. The regular expression that comes
/// back is one of the pattern that went in.
#[verifier::external_body]
pub(crate) fn compile(pattern: &str) -> (regex: Option<Regex>)
    ensures
        regex is Some <==> compiles(pattern@),
        regex is Some ==> pattern_of(regex->0) == pattern@,
{
    Regex::new(pattern).ok()
}

/// `Regex::captures`: the groups of the first match in `line`, each
/// copied out as a string. What they hold is not stated here, only named:
/// `groups_of`.
#[verifier::external_body]
pub(crate) fn captures(regex: &Regex, line: &str) -> (groups: Option<Vec<Option<String>>>)
    ensures
        groups.deep_view() == groups_of(pattern_of(*regex), line@),
{
    regex.captures(line).map(|found| found.iter().map(|group| group.map(|m| m.as_str().to_owned())).collect())
}

} // verus!
