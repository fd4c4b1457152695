//! Regular expressions, compiled and run by the `regex` crate.
use vstd::prelude::*;
use crate::text::opt_view;

verus! {

/// Whether `regex::Regex::new(pattern)` succeeds.
pub uninterp spec fn spec_regex_compiles(pattern: Seq<char>) -> bool;

/// What the first match of the compiled `pattern` in `haystack` (`captures`) holds for each
/// group named in `names` (`Captures::name`); `None` when it does not match.
pub uninterp spec fn spec_regex_captures(
    pattern: Seq<char>,
    haystack: Seq<char>,
    names: Seq<Seq<char>>,
) -> Option<Seq<Option<Seq<char>>>>;

/// Whether the compiled `pattern` matches somewhere in `haystack` (`is_match`).
pub uninterp spec fn spec_regex_is_match(pattern: Seq<char>, haystack: Seq<char>) -> bool;

pub open spec fn group_views(groups: Seq<Option<String>>) -> Seq<Option<Seq<char>>> {
    groups.map_values(|g: Option<String>| opt_view(g))
}

pub open spec fn name_views(names: Seq<&str>) -> Seq<Seq<char>> {
    names.map_values(|n: &str| n@)
}

/// Calls `regex::Regex::new(pattern)` and tells whether it succeeds.
#[verifier::external_body]
pub(crate) fn regex_compiles(pattern: &str) -> (res: bool)
    ensures
        res == spec_regex_compiles(pattern@),
{
    regex::Regex::new(pattern).is_ok()
}

/// Compiles `pattern` with `regex::Regex::new` and runs `captures(haystack)`; for a match,
/// returns what each group in `names` holds (`Captures::name`), one entry per name. `None`
/// when the pattern does not compile.
#[verifier::external_body]
pub(crate) fn regex_captures(pattern: &str, haystack: &str, names: &[&str]) -> (res: Option<
    Option<Vec<Option<String>>>,
>)
    ensures
        res is None <==> !spec_regex_compiles(pattern@),
        res matches Some(found) ==> match found {
            Some(groups) => groups@.len() == names@.len() && spec_regex_captures(
                pattern@,
                haystack@,
                name_views(names@),
            ) == Some(group_views(groups@)),
            None => spec_regex_captures(pattern@, haystack@, name_views(names@)) is None,
        },
{
    let re = regex::Regex::new(pattern).ok()?;
    Some(re.captures(haystack).map(
        |caps| names.iter().map(|n| caps.name(n).map(|m| m.as_str().to_owned())).collect(),
    ))
}

/// Compiles `pattern` with `regex::Regex::new` and runs `is_match(haystack)`; `None` when the
/// pattern does not compile.
#[verifier::external_body]
pub(crate) fn regex_is_match(pattern: &str, haystack: &str) -> (res: Option<bool>)
    ensures
        res is None <==> !spec_regex_compiles(pattern@),
        res matches Some(b) ==> b == spec_regex_is_match(pattern@, haystack@),
{
    Some(regex::Regex::new(pattern).ok()?.is_match(haystack))
}

} // verus!
