//! A user's row in the database.

use vstd::prelude::*;

verus! {

/// A Discord user known to the bot, with their boop score and missed entries.
#[derive(Clone, Copy, Debug, PartialEq, Eq, Structural)]
pub struct User {
    /// The database id.
    pub id: i32,
    /// The Discord id, in its database form.
    pub user_id: i64,
    pub boop_score: i64,
    pub missed_entries: i32,
}

} // verus!
