//! Reminders: a user has until `end_time` to do what is described, and may be
//! reminded at `remind_time`.

use vstd::prelude::*;
use crate::time::Timestamp;

verus! {

/// A reminder for a user in a guild.
#[derive(Clone, Debug)]
pub struct Reminder {
    pub id: i64,
    /// When the task is due.
    pub end_time: Timestamp,
    /// The database id of the user who has to do it.
    pub user_id: i64,
    /// The database id of the guild it was set in.
    pub guild_id: i64,
    pub description: String,
    /// When to remind the user, if at all.
    pub remind_time: Option<Timestamp>,
    /// Whether the reminder is still open.
    pub active: bool,
}

} // verus!
