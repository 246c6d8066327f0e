//! `LIKE` patterns for filtering rows by username.

use vstd::prelude::*;

verus! {

/// The pattern that matches every username containing `needle` as a
/// substring: the needle enclosed in `%` wildcards.
pub fn like_contains_pattern(needle: &str) -> (pattern: String)
    ensures
        pattern@ == "%"@ + needle@ + "%"@,
{
    let mut pattern = String::from_str("%");
    pattern.append(needle);
    pattern.append("%");
    pattern
}

} // verus!
