//! The fuzzy string matcher behind the search, wrapped for verified callers.

use vstd::prelude::*;
use fuzzy_matcher::FuzzyMatcher;
use fuzzy_matcher::skim::SkimMatcherV2;

verus! {

/// The score that `SkimMatcherV2` under its default configuration assigns
/// to matching `pattern` against `choice`, `None` when the pattern does not
/// match. The matcher is deterministic: the score is a function of the two
/// strings alone.
pub uninterp spec fn skim_score(choice: Seq<char>, pattern: Seq<char>) -> Option<int>;

/// Relies on fuzzy_matcher's `SkimMatcherV2::default` and its
/// `FuzzyMatcher::fuzzy_match`: the returned score depends on the two
/// strings alone, and an empty pattern always matches with score zero.
#[verifier::external_body]
pub fn fuzzy_match_score(choice: &str, pattern: &str) -> (r: Option<i64>)
    ensures
        r is Some <==> skim_score(choice@, pattern@) is Some,
        r matches Some(v) ==> skim_score(choice@, pattern@) == Some(v as int),
        pattern@.len() == 0 ==> r == Some(0i64),
{
    SkimMatcherV2::default().fuzzy_match(choice, pattern)
}

/// Whether the query fuzzy-matches the candidate at all; the search keeps a
/// snippet exactly when this holds of its keyword.
pub open spec fn fuzzy_matches(choice: Seq<char>, pattern: Seq<char>) -> bool {
    skim_score(choice, pattern) is Some
}

/// Decide whether the query fuzzy-matches the candidate.
pub fn is_fuzzy_match(choice: &str, pattern: &str) -> (r: bool)
    ensures
        r == fuzzy_matches(choice@, pattern@),
{
    fuzzy_match_score(choice, pattern).is_some()
}

} // verus!
