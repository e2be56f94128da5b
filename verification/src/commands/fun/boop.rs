//! The reminder bot's boop leaderboard, where users without a score are left out.

use vstd::prelude::*;
use crate::commands::lemma_take_last;
use crate::fred_db::users::User;
use crate::ids::{as_unsigned, discord_id};
use crate::text::{decimal, push_int};

verus! {

/// How many of `users` have a score.
pub open spec fn scored_count(users: Seq<User>) -> nat
    decreases users.len(),
{
    if users.len() == 0 {
        0
    } else {
        scored_count(users.drop_last()) + if users.last().boop_score is Some {
            1nat
        } else {
            0nat
        }
    }
}

/// The Discord ids of the users that have a score, in order.
pub open spec fn scored_ids(users: Seq<User>) -> Seq<u64>
    decreases users.len(),
{
    if users.len() == 0 {
        Seq::empty()
    } else if users.last().boop_score is Some {
        scored_ids(users.drop_last()).push(as_unsigned(users.last().user_id as int) as u64)
    } else {
        scored_ids(users.drop_last())
    }
}

/// One line of the leaderboard: place, name, score and a line break.
pub open spec fn board_line(place: int, name: Seq<char>, score: int) -> Seq<char> {
    decimal(place) + ". "@ + name + " -- "@ + decimal(score) + "\n"@
}

/// The leaderboard: the users that have a score, in order, numbered from 1, each named
/// by the next entry of `names`.
pub open spec fn board_text(users: Seq<User>, names: Seq<String>) -> Seq<char>
    decreases users.len(),
{
    if users.len() == 0 {
        Seq::empty()
    } else {
        let rest = board_text(users.drop_last(), names);
        let k = scored_count(users.drop_last()) as int;
        match users.last().boop_score {
            Some(score) => rest + board_line(k + 1, names[k]@, score as int),
            None => rest,
        }
    }
}

/// The users whose names the leaderboard needs: those with a score, in order.
pub fn leaderboard_user_ids(users: &Vec<User>) -> (r: Vec<u64>)
    ensures
        r@ == scored_ids(users@),
        r@.len() == scored_count(users@),
{
    let mut ids: Vec<u64> = Vec::new();
    let mut i: usize = 0;
    while i < users.len()
        invariant
            i <= users.len(),
            ids@ == scored_ids(users@.take(i as int)),
            ids@.len() == scored_count(users@.take(i as int)),
        decreases users.len() - i,
    {
        proof {
            lemma_take_last(users@, i as int);
        }
        if users[i].boop_score.is_some() {
            ids.push(discord_id(users[i].user_id));
        }
        i = i + 1;
    }
    proof {
        assert(users@.take(users.len() as int) =~= users@);
    }
    ids
}

/// Writes the leaderboard of `users`; `names` holds the names of the users that have a
/// score, in order.
pub fn leaderboard_message(users: &Vec<User>, names: &Vec<String>) -> (r: String)
    requires
        names.len() == scored_count(users@),
    ensures
        r@ == board_text(users@, names@),
{
    let mut s = String::new();
    let mut i: usize = 0;
    let mut place: usize = 0;
    while i < users.len()
        invariant
            i <= users.len(),
            names.len() == scored_count(users@),
            place == scored_count(users@.take(i as int)),
            place <= i,
            s@ == board_text(users@.take(i as int), names@),
        decreases users.len() - i,
    {
        proof {
            lemma_take_last(users@, i as int);
            lemma_scored_count_prefix(users@, i + 1);
        }
        match users[i].boop_score {
            Some(score) => {
                let ghost before = s@;
                push_int(&mut s, (place + 1) as i128);
                s.append(". ");
                s.append(names[place].as_str());
                s.append(" -- ");
                push_int(&mut s, score as i128);
                s.append("\n");
                proof {
                    assert(s@ =~= before + board_line(place + 1, names@[place as int]@, score as int));
                }
                place = place + 1;
            },
            None => {},
        }
        i = i + 1;
    }
    proof {
        assert(users@.take(users.len() as int) =~= users@);
    }
    s
}

/// Counting the users with a score in a prefix never gives more than in the whole.
proof fn lemma_scored_count_prefix(users: Seq<User>, k: int)
    requires
        0 <= k <= users.len(),
    ensures
        scored_count(users.take(k)) <= scored_count(users),
    decreases users.len(),
{
    if k < users.len() {
        lemma_scored_count_prefix(users.drop_last(), k);
        assert(users.drop_last().take(k) =~= users.take(k));
    } else {
        assert(users.take(k) =~= users);
    }
}

} // verus!
