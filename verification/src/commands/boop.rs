//! The boop button: every press adds one to the presser's score.

use vstd::prelude::*;
use crate::db::users::User;
use crate::text::{decimal, push_int};

verus! {

/// The score after one more boop, or `None` where the addition would overflow
/// (where `boop_count += 1` panics).
pub fn next_boop_score(score: i64) -> (r: Option<i64>)
    ensures
        r is Some <==> score < i64::MAX,
        r matches Some(n) ==> n == score + 1,
{
    if score < i64::MAX {
        Some(score + 1)
    } else {
        None
    }
}

/// The message that shows the score before the first press.
pub open spec fn current_score_text(score: int) -> Seq<char> {
    "current score: "@ + decimal(score)
}

/// The message shown before the first press.
pub fn current_score_message(score: i64) -> (r: String)
    ensures
        r@ == current_score_text(score as int),
{
    let mut s = String::from_str("current score: ");
    push_int(&mut s, score as i128);
    s
}

/// The message that shows the score after a press.
pub open spec fn boop_count_text(score: int) -> Seq<char> {
    "Boop count: "@ + decimal(score)
}

/// The message shown after a press.
pub fn boop_count_message(score: i64) -> (r: String)
    ensures
        r@ == boop_count_text(score as int),
{
    let mut s = String::from_str("Boop count: ");
    push_int(&mut s, score as i128);
    s
}

/// One line of the leaderboard: place, name and score.
pub open spec fn leaderboard_line(place: int, name: Seq<char>, score: int) -> Seq<char> {
    decimal(place) + ". "@ + name + " -- "@ + decimal(score)
}

/// The leaderboard: the users in the order given, numbered from 1, each with the name
/// at the same position in `names`.
pub open spec fn leaderboard_text(users: Seq<User>, names: Seq<String>) -> Seq<char>
    decreases users.len(),
{
    if users.len() == 0 {
        Seq::empty()
    } else {
        let k = users.len() - 1;
        leaderboard_text(users.drop_last(), names) + leaderboard_line(
            k + 1,
            names[k]@,
            users.last().boop_score as int,
        )
    }
}

/// Writes the leaderboard of `users`, named by `names` in the same order.
pub fn leaderboard_message(users: &Vec<User>, names: &Vec<String>) -> (r: String)
    requires
        names.len() == users.len(),
    ensures
        r@ == leaderboard_text(users@, names@),
{
    let mut s = String::new();
    let mut i: usize = 0;
    while i < users.len()
        invariant
            i <= users.len(),
            names.len() == users.len(),
            s@ == leaderboard_text(users@.take(i as int), names@),
        decreases users.len() - i,
    {
        let ghost before = s@;
        push_int(&mut s, (i + 1) as i128);
        s.append(". ");
        s.append(names[i].as_str());
        s.append(" -- ");
        push_int(&mut s, users[i].boop_score as i128);
        proof {
            let t = users@.take(i + 1);
            assert(t.drop_last() =~= users@.take(i as int));
            assert(s@ =~= before + leaderboard_line(i + 1, names@[i as int]@, users@[i as int].boop_score as int));
        }
        i = i + 1;
    }
    proof {
        assert(users@.take(users.len() as int) =~= users@);
    }
    s
}

} // verus!
