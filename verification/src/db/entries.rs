//! Notebook entries: a user has until `end_time` to write the entry described.

use vstd::prelude::*;
use crate::time::Timestamp;

verus! {

/// A notebook entry someone has to write.
#[derive(Clone, Debug)]
pub struct Entry {
    pub id: i32,
    /// When the entry is due.
    pub end_time: Timestamp,
    /// The database id of the user who has to write it.
    pub user_id: i32,
    pub description: String,
    /// Whether the user still wants to be reminded before it is due.
    pub remind: bool,
    /// Whether the entry is still open.
    pub active: bool,
}

} // verus!
