//! The RobotEvents API: its records and the addresses the bot asks it at.

pub mod model;

use vstd::prelude::*;
use crate::text::{decimal, push_int};

verus! {

/// The address that searches for teams by number.
pub open spec fn team_search_url_text(search: Seq<char>) -> Seq<char> {
    "https://www.robotevents.com/api/v2/teams?number="@ + search
}

/// The address that lists a team's skills results.
pub open spec fn team_skills_url_text(team_id: int) -> Seq<char> {
    "https://www.robotevents.com/api/v2/teams/"@ + decimal(team_id) + "/skills"@
}

/// The address of the search for teams numbered `search`.
pub fn team_search_url(search: &str) -> (r: String)
    ensures
        r@ == team_search_url_text(search@),
{
    let mut s = String::from_str("https://www.robotevents.com/api/v2/teams?number=");
    s.append(search);
    s
}

/// The address of the skills results of the team with id `team_id`.
pub fn team_skills_url(team_id: i32) -> (r: String)
    ensures
        r@ == team_skills_url_text(team_id as int),
{
    let mut s = String::from_str("https://www.robotevents.com/api/v2/teams/");
    push_int(&mut s, team_id as i128);
    s.append("/skills");
    s
}

} // verus!
