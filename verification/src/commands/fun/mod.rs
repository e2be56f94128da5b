//! Games: rock-paper-scissors against the bot, and boops.

pub mod boop;

use vstd::prelude::*;
use rand::rngs::{OsRng, StdRng};
use rand::{Rng, SeedableRng};

verus! {

/// A hand in rock-paper-scissors.
#[derive(Clone, Copy, Debug, PartialEq, Eq, Structural)]
pub enum RPSOptions {
    Rock,
    Paper,
    Scissors,
}

/// Whether hand `a` beats hand `b`: rock blunts scissors, paper wraps rock,
/// scissors cut paper.
pub open spec fn beats(a: RPSOptions, b: RPSOptions) -> bool {
    ||| a == RPSOptions::Rock && b == RPSOptions::Scissors
    ||| a == RPSOptions::Paper && b == RPSOptions::Rock
    ||| a == RPSOptions::Scissors && b == RPSOptions::Paper
}

/// The hand the bot shows for a roll of 1, 2 or 3.
pub open spec fn hand_for_roll(roll: int) -> RPSOptions {
    if roll == 1 {
        RPSOptions::Rock
    } else if roll == 2 {
        RPSOptions::Paper
    } else {
        RPSOptions::Scissors
    }
}

/// The bot's answer when the player shows `player` and the bot `bot`.
pub open spec fn rps_reply(player: RPSOptions, bot: RPSOptions) -> Seq<char> {
    match (player, bot) {
        (RPSOptions::Rock, RPSOptions::Paper) => "Paper, I win!"@,
        (RPSOptions::Rock, RPSOptions::Scissors) => "Scissors, you win!"@,
        (RPSOptions::Rock, RPSOptions::Rock) => "Rock, it's a tie!"@,
        (RPSOptions::Paper, RPSOptions::Scissors) => "Scissors, I win!"@,
        (RPSOptions::Paper, RPSOptions::Rock) => "Rock, you win."@,
        (RPSOptions::Paper, RPSOptions::Paper) => "Paper, it's a tie!"@,
        (RPSOptions::Scissors, RPSOptions::Rock) => "Rock, I win!"@,
        (RPSOptions::Scissors, RPSOptions::Paper) => "Paper, you win!"@,
        (RPSOptions::Scissors, RPSOptions::Scissors) => "Scissors, it's a tie!"@,
    }
}

#[verifier::external_type_specification]
#[verifier::external_body]
pub struct ExStdRng(StdRng);

/// A random generator seeded from the operating system's random source, or `None`
/// when that source cannot be read.
///
/// Calls `StdRng::from_rng(OsRng)`, which reports a failure of the source as an
/// error. Nothing is claimed of the seed drawn.
#[verifier::external_body]
fn seeded_rng() -> Option<StdRng> {
    StdRng::from_rng(OsRng).ok()
}

/// Draws a number from `lo` to `hi`, both included.
///
/// Calls `gen_range(lo..=hi)` on the generator, which panics only on an empty range.
/// Claimed: the number lies in the range asked for. Which one comes up is chance and
/// left unsaid.
#[verifier::external_body]
fn roll(rng: &mut StdRng, lo: i32, hi: i32) -> (r: i32)
    requires
        lo <= hi,
    ensures
        lo <= r <= hi,
{
    rng.gen_range(lo..=hi)
}

/// Whether some roll from `lo` to `hi` gives the hand `h`.
pub open spec fn can_roll(lo: int, hi: int, h: RPSOptions) -> bool {
    exists|k: int| lo <= k <= hi && #[trigger] hand_for_roll(k) == h
}

/// The range of the roll that picks the bot's hand: from 1 to 3, so that every hand
/// can come up.
pub fn hand_roll_bounds() -> (r: (i32, i32))
    ensures
        r == (1i32, 3i32),
        forall|h: RPSOptions| #[trigger] can_roll(r.0 as int, r.1 as int, h),
{
    proof {
        assert forall|h: RPSOptions| #[trigger] can_roll(1, 3, h) by {
            lemma_every_hand_can_be_rolled(h);
        }
    }
    (1, 3)
}

/// The hand the bot shows for a roll.
pub fn hand_from_roll(roll: i32) -> (r: RPSOptions)
    requires
        1 <= roll <= 3,
    ensures
        r == hand_for_roll(roll as int),
{
    match roll {
        1 => RPSOptions::Rock,
        2 => RPSOptions::Paper,
        _ => RPSOptions::Scissors,
    }
}

/// The bot's answer to a round.
pub fn rps_response(player: RPSOptions, bot: RPSOptions) -> (r: &'static str)
    ensures
        r@ == rps_reply(player, bot),
{
    match (player, bot) {
        (RPSOptions::Rock, RPSOptions::Paper) => "Paper, I win!",
        (RPSOptions::Rock, RPSOptions::Scissors) => "Scissors, you win!",
        (RPSOptions::Rock, RPSOptions::Rock) => "Rock, it's a tie!",
        (RPSOptions::Paper, RPSOptions::Scissors) => "Scissors, I win!",
        (RPSOptions::Paper, RPSOptions::Rock) => "Rock, you win.",
        (RPSOptions::Paper, RPSOptions::Paper) => "Paper, it's a tie!",
        (RPSOptions::Scissors, RPSOptions::Rock) => "Rock, I win!",
        (RPSOptions::Scissors, RPSOptions::Paper) => "Paper, you win!",
        (RPSOptions::Scissors, RPSOptions::Scissors) => "Scissors, it's a tie!",
    }
}

/// A round decided by the roll `roll`: the bot shows the hand for the roll, whatever the
/// player shows, and answers.
pub fn rps_round(player: RPSOptions, roll: i32) -> (r: (RPSOptions, &'static str))
    requires
        1 <= roll <= 3,
    ensures
        r.0 == hand_for_roll(roll as int),
        r.1@ == rps_reply(player, r.0),
{
    let bot = hand_from_roll(roll);
    (bot, rps_response(player, bot))
}

/// Whatever the player shows, the roll can make the player win, tie or lose: some roll
/// in the bounds gives a hand the player beats, one gives the player's own hand, and
/// one gives a hand that beats the player's.
pub proof fn lemma_every_outcome_can_come_up(player: RPSOptions)
    ensures
        exists|k: int| 1 <= k <= 3 && #[trigger] beats(player, hand_for_roll(k)),
        exists|k: int| 1 <= k <= 3 && #[trigger] hand_for_roll(k) == player,
        exists|k: int| 1 <= k <= 3 && #[trigger] beats(hand_for_roll(k), player),
{
    match player {
        RPSOptions::Rock => {
            assert(beats(player, hand_for_roll(3)));
            assert(hand_for_roll(1) == player);
            assert(beats(hand_for_roll(2), player));
        },
        RPSOptions::Paper => {
            assert(beats(player, hand_for_roll(1)));
            assert(hand_for_roll(2) == player);
            assert(beats(hand_for_roll(3), player));
        },
        RPSOptions::Scissors => {
            assert(beats(player, hand_for_roll(2)));
            assert(hand_for_roll(3) == player);
            assert(beats(hand_for_roll(1), player));
        },
    }
}

/// Plays a round: the bot picks a hand by chance and answers. Returns the bot's hand
/// and its answer, or `None` when no randomness can be had.
pub fn rps(player: RPSOptions) -> (r: Option<(RPSOptions, &'static str)>)
    ensures
        r matches Some(p) ==> p.1@ == rps_reply(player, p.0),
{
    let mut rng = match seeded_rng() {
        Some(g) => g,
        None => {
            return None;
        },
    };
    let (lo, hi) = hand_roll_bounds();
    let (bot, reply) = rps_round(player, roll(&mut rng, lo, hi));
    Some((bot, reply))
}

/// Every hand can come up: the three rolls give the three hands.
pub proof fn lemma_every_hand_can_be_rolled(h: RPSOptions)
    ensures
        exists|roll: int| 1 <= roll <= 3 && hand_for_roll(roll) == h,
{
    match h {
        RPSOptions::Rock => assert(hand_for_roll(1) == h),
        RPSOptions::Paper => assert(hand_for_roll(2) == h),
        RPSOptions::Scissors => assert(hand_for_roll(3) == h),
    }
}

/// Each hand beats exactly one other hand and loses to exactly one; no hand beats itself.
pub proof fn lemma_beats_is_a_cycle(a: RPSOptions, b: RPSOptions)
    ensures
        !beats(a, a),
        beats(a, b) ==> !beats(b, a),
        a != b ==> (beats(a, b) || beats(b, a)),
{
}

/// The name the bot says for its hand.
pub open spec fn hand_name(h: RPSOptions) -> Seq<char> {
    match h {
        RPSOptions::Rock => "Rock"@,
        RPSOptions::Paper => "Paper"@,
        RPSOptions::Scissors => "Scissors"@,
    }
}

/// Who won, in the bot's words: a tie when the hands are equal, the bot when its hand
/// beats the player's, the player otherwise.
pub open spec fn verdict(player: RPSOptions, bot: RPSOptions) -> Seq<char> {
    if player == bot {
        "it's a tie!"@
    } else if beats(bot, player) {
        "I win!"@
    } else if player == RPSOptions::Paper {
        "you win."@
    } else {
        "you win!"@
    }
}

/// Every answer names the bot's hand and then the true winner: the bot claims the win
/// exactly when its hand beats the player's, and a tie exactly when the hands are equal.
pub proof fn lemma_reply_names_the_winner(player: RPSOptions, bot: RPSOptions)
    ensures
        rps_reply(player, bot) == hand_name(bot) + ", "@ + verdict(player, bot),
{
    reveal_strlit("Rock");
    reveal_strlit("Paper");
    reveal_strlit("Scissors");
    reveal_strlit(", ");
    reveal_strlit("it's a tie!");
    reveal_strlit("I win!");
    reveal_strlit("you win.");
    reveal_strlit("you win!");
    reveal_strlit("Paper, I win!");
    reveal_strlit("Scissors, you win!");
    reveal_strlit("Rock, it's a tie!");
    reveal_strlit("Scissors, I win!");
    reveal_strlit("Rock, you win.");
    reveal_strlit("Paper, it's a tie!");
    reveal_strlit("Rock, I win!");
    reveal_strlit("Paper, you win!");
    reveal_strlit("Scissors, it's a tie!");
    assert(rps_reply(player, bot) =~= hand_name(bot) + ", "@ + verdict(player, bot));
}

} // verus!
