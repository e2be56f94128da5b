//! Boop scores.

use vstd::prelude::*;

verus! {

/// A user's boop score.
#[derive(Clone, Copy, Debug, PartialEq, Eq, Structural)]
pub struct BoopScore {
    pub id: i32,
    pub score: i64,
    pub user_id: i64,
}

} // verus!
