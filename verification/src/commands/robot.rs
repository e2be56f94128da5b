//! `/vex team`: what the bot shows of a team.

use vstd::prelude::*;

verus! {

/// Where a team is: its city and region.
pub open spec fn team_location_text(city: Seq<char>, region: Seq<char>) -> Seq<char> {
    city + ", "@ + region
}

/// Writes where a team is.
pub fn team_location(city: &str, region: &str) -> (r: String)
    ensures
        r@ == team_location_text(city@, region@),
{
    let mut s = String::from_str(city);
    s.append(", ");
    s.append(region);
    s
}

} // verus!
