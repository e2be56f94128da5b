//! A user's row in the reminder bot's database.

use vstd::prelude::*;

verus! {

/// A Discord user known to the bot. The counters are empty until first set.
#[derive(Clone, Copy, Debug, PartialEq, Eq, Structural)]
pub struct User {
    /// The database id.
    pub id: i32,
    /// The Discord id, in its database form.
    pub user_id: i64,
    pub boop_score: Option<i32>,
    pub rps_wins: Option<i32>,
    pub missed_entries: Option<i32>,
}

} // verus!
