//! What the RobotEvents API answers, as the bot reads it.

use vstd::prelude::*;

verus! {

/// One page of results.
pub struct RobotEventsResponse<T> {
    pub meta: Meta,
    pub data: Vec<T>,
}

/// Where a page of results stands among all pages.
pub struct Meta {
    pub current_page: i32,
    pub first_page_url: String,
    pub from: i32,
    pub last_page: i32,
    pub last_page_url: String,
    pub next_page_url: Option<String>,
    pub path: String,
    pub per_page: i32,
    pub to: i32,
    pub total: i32,
}

/// A competition season.
pub struct Season {
    pub id: i32,
    pub program: IdInfo,
    pub start: String,
    pub years_start: i32,
    pub years_end: i32,
}

/// A reference to another record: its id, name and code.
pub struct IdInfo {
    pub id: i32,
    pub name: String,
    pub code: String,
}

/// A team's skills-challenge result at an event.
pub struct Skill {
    pub id: i32,
    pub event: IdInfo,
    pub team: IdInfo,
    pub _type: String,
    pub season: IdInfo,
    pub division: IdInfo,
    pub rank: i32,
    pub score: i32,
    pub attempts: i32,
}

} // verus!
