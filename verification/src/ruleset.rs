//! Trusted boundary to regex. A room's classification ruleset is a compiled
//! `regex::RegexSet`; what it matches on a given text is named, and the
//! verified classifier states its result through that name.

use vstd::prelude::*;
use regex::RegexSet;

verus! {

#[verifier::external_type_specification]
#[verifier::external_body]
pub struct ExRegexSet(RegexSet);

/// The indices of the patterns in a compiled set that match a text; a
/// function of the set and the text alone.
pub uninterp spec fn matches_of(set: RegexSet, text: Seq<char>) -> Seq<usize>;

/// The set that regex::RegexSet::new compiles from an ordered pattern list
/// (the empty set where a pattern is invalid); a function of the patterns
/// alone.
pub uninterp spec fn ruleset_of(patterns: Seq<Seq<char>>) -> RegexSet;

/// Relies on regex::RegexSet::new; a set holding an invalid pattern is
/// replaced by the empty set in place of an error.
#[verifier::external_body]
pub fn compile_ruleset(patterns: &Vec<String>) -> (r: RegexSet)
    ensures
        r == ruleset_of(patterns@.map_values(|p: String| p@)),
{
    match RegexSet::new(patterns.iter()) {
        Ok(s) => s,
        Err(_) => RegexSet::empty(),
    }
}

/// Relies on regex::RegexSet::matches: the indices of the matching patterns,
/// in ascending order.
#[verifier::external_body]
pub fn ruleset_matches(set: &RegexSet, text: &str) -> (r: Vec<usize>)
    ensures
        r@ == matches_of(*set, text@),
{
    set.matches(text).into_iter().collect()
}

} // verus!
