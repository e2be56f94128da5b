//! Boop scores as the reminder bot stores them.

use vstd::prelude::*;

verus! {

/// The score of a user whose score column may be empty: an empty score counts as 0.
pub fn stored_score(column: Option<i64>) -> (r: i64)
    ensures
        r == (match column {
            Some(s) => s,
            None => 0,
        }),
{
    match column {
        Some(s) => s,
        None => 0,
    }
}

} // verus!
