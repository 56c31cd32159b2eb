//! Case-insensitive regular expressions, compiled and run by the `regex` crate.
//! Every pattern of this project is compiled with `case_insensitive(true)`.
use vstd::prelude::*;

verus! {

/// What `Regex::is_match` answers for `text` when `pattern` is compiled
/// case-insensitively, or `None` when the pattern does not compile.
pub uninterp spec fn regex_finds(pattern: Seq<char>, text: Seq<char>) -> Option<bool>;

/// What `Regex::replace_all` leaves of `text` when every match of the
/// case-insensitive `pattern` is replaced by `replacement`, or `None` when the
/// pattern does not compile.
pub uninterp spec fn regex_replaced(pattern: Seq<char>, text: Seq<char>, replacement: Seq<char>) -> Option<Seq<char>>;

/// What `Regex::captures(text)` followed by `get(group)` gives for the
/// case-insensitive `pattern`: `Some(None)` when there is no match or the group
/// took no part in it, `None` when the pattern does not compile.
pub uninterp spec fn regex_captured(pattern: Seq<char>, text: Seq<char>, group: usize) -> Option<Option<Seq<char>>>;

/// Compiles `pattern` case-insensitively with `RegexBuilder` and asks
/// `Regex::is_match` about `text`. The contract names the answer; nothing
/// more about regular expressions is claimed.
#[verifier::external_body]
pub(crate) fn regex_is_match(pattern: &str, text: &str) -> (r: Option<bool>)
    ensures
        r == regex_finds(pattern@, text@),
{
    regex::RegexBuilder::new(pattern).case_insensitive(true).build().ok().map(|re| re.is_match(text))
}

/// Compiles `pattern` case-insensitively and runs `Regex::replace_all` on
/// `text`. The contract names the result.
#[verifier::external_body]
pub(crate) fn regex_replace_all(pattern: &str, text: &str, replacement: &str) -> (r: Option<String>)
    ensures
        r matches Some(s) ==> regex_replaced(pattern@, text@, replacement@) == Some(s@),
        r is None ==> regex_replaced(pattern@, text@, replacement@) is None,
{
    regex::RegexBuilder::new(pattern).case_insensitive(true).build().ok().map(
        |re| re.replace_all(text, replacement).into_owned(),
    )
}

/// Compiles `pattern` case-insensitively and returns capture group `group` of
/// the first match in `text` (`Regex::captures`, `Captures::get`). The contract
/// names the result.
#[verifier::external_body]
pub(crate) fn regex_capture(pattern: &str, text: &str, group: usize) -> (r: Option<Option<String>>)
    ensures
        r matches Some(Some(s)) ==> regex_captured(pattern@, text@, group) == Some(Some(s@)),
        r matches Some(None) ==> regex_captured(pattern@, text@, group) == Some(None::<Seq<char>>),
        r is None ==> regex_captured(pattern@, text@, group) is None,
{
    regex::RegexBuilder::new(pattern).case_insensitive(true).build().ok().map(
        |re| re.captures(text).and_then(|c| c.get(group)).map(|m| m.as_str().to_owned()),
    )
}

/// Whether `text` matches at least one of `patterns`, patterns that do not
/// compile counting as no match. This is what `RegexSet::is_match` answers for
/// a set built from the patterns.
pub open spec fn any_pattern_finds(patterns: Seq<Seq<char>>, text: Seq<char>) -> bool {
    exists|i: int| 0 <= i < patterns.len() && regex_finds(#[trigger] patterns[i], text) == Some(true)
}

/// Whether `text` matches at least one of `patterns`.
pub fn matches_any(patterns: &Vec<&str>, text: &str) -> (r: bool)
    ensures
        r == any_pattern_finds(patterns@.map_values(|p: &str| p@), text@),
{
    let ghost views = patterns@.map_values(|p: &str| p@);
    let n = patterns.len();
    let mut i: usize = 0;
    while i < n
        invariant
            n == patterns@.len(),
            views == patterns@.map_values(|p: &str| p@),
            i <= n,
            forall|k: int| 0 <= k < i ==> regex_finds(#[trigger] views[k], text@) != Some(true),
        decreases n - i,
    {
        let found = regex_is_match(patterns[i], text);
        if found == Some(true) {
            assert(views[i as int] == patterns@[i as int]@);
            return true;
        }
        i += 1;
    }
    false
}

} // verus!
