//! What the bot keeps in its database, and what its polling loop decides for
//! each open entry.

pub mod basic;
pub mod boop;
pub mod entries;
pub mod guilds;
pub mod reminders;
pub mod users;

use vstd::prelude::*;
use crate::db::entries::Entry;
use crate::text::{decimal, mention, push_int, user_mention};
use crate::time::{Delta, Timestamp};

verus! {

/// How long before its deadline an entry's reminder goes out: thirty minutes, in nanoseconds.
pub open spec fn reminder_lead() -> int {
    1_800_000_000_000int
}

/// Whether the user should be reminded of `entry` at `now`: the entry asks for a
/// reminder and is due in less than thirty minutes (or is already past due).
pub open spec fn needs_reminder(entry: Entry, now: int) -> bool {
    entry.end_time@ - now < reminder_lead() && entry.remind
}

/// Whether `entry` is open and past due at `now`, so that its user is called out.
pub open spec fn is_overdue(entry: Entry, now: int) -> bool {
    now > entry.end_time@ && entry.active
}

/// Decides whether to send the reminder for `entry` at `now`.
pub fn entry_needs_reminder(entry: &Entry, now: &Timestamp) -> (r: bool)
    ensures
        r == needs_reminder(*entry, now@),
{
    let left = entry.end_time.since(now);
    let lead = Delta::try_minutes(30).unwrap();
    left.is_less_than(&lead) && entry.remind
}

/// Decides whether `entry` has expired at `now`.
pub fn entry_is_overdue(entry: &Entry, now: &Timestamp) -> (r: bool)
    ensures
        r == is_overdue(*entry, now@),
{
    now.is_after(&entry.end_time) && entry.active
}

/// Completing an entry (marking it inactive) ends the shaming: a completed entry is
/// never announced as expired, whenever the loop looks at it.
pub proof fn lemma_completed_entry_is_not_announced(entry: Entry, now: int)
    requires
        !entry.active,
    ensures
        !is_overdue(entry, now),
{
}

/// Once its reminder has been sent (the entry no longer asks for one), an entry is not
/// reminded of again.
pub proof fn lemma_reminder_goes_out_once(entry: Entry, now: int)
    requires
        !entry.remind,
    ensures
        !needs_reminder(entry, now),
{
}

/// An entry is only announced as expired after its deadline.
pub proof fn lemma_announced_only_after_deadline(entry: Entry, now: int)
    requires
        is_overdue(entry, now),
    ensures
        now > entry.end_time@,
{
}

/// The entry as one pass of the polling loop leaves it: once its reminder has been
/// sent (the pass looked at `send_at`) it no longer asks for one, and once it has been
/// announced as expired (the pass looked at `call_at`) it is marked complete.
pub open spec fn after_poll(entry: Entry, send_at: int, call_at: int) -> Entry {
    Entry {
        remind: if needs_reminder(entry, send_at) { false } else { entry.remind },
        active: if is_overdue(entry, call_at) { false } else { entry.active },
        ..entry
    }
}

/// Whether `next` can follow `prev` across one pass that looked at `send_at` and
/// `call_at`: the pass's own writes are made, and nothing asks for a reminder again or
/// reopens a completed entry. The writes made for the user's other entries in the same
/// pass (which complete entries as well) are allowed too.
pub open spec fn poll_successor(prev: Entry, next: Entry, send_at: int, call_at: int) -> bool {
    &&& (needs_reminder(prev, send_at) || !prev.remind) ==> !next.remind
    &&& (is_overdue(prev, call_at) || !prev.active) ==> !next.active
}

/// Whether `states` are the successive states of one entry over a run of the polling
/// loop, the pass over `states[i]` deciding at the times `times[i]`.
pub open spec fn poll_run(states: Seq<Entry>, times: Seq<(int, int)>) -> bool {
    &&& states.len() == times.len()
    &&& forall|i: int|
        0 <= i < states.len() - 1 ==> #[trigger] poll_successor(
            states[i],
            states[i + 1],
            times[i].0,
            times[i].1,
        )
}

/// How many of the first `n` passes of a run sent the entry's reminder.
pub open spec fn sends(states: Seq<Entry>, times: Seq<(int, int)>, n: nat) -> nat
    decreases n,
{
    if n == 0 {
        0
    } else {
        sends(states, times, (n - 1) as nat) + if needs_reminder(states[n - 1], times[n - 1].0) {
            1nat
        } else {
            0nat
        }
    }
}

/// How many of the first `n` passes of a run announced the entry as expired.
pub open spec fn callouts(states: Seq<Entry>, times: Seq<(int, int)>, n: nat) -> nat
    decreases n,
{
    if n == 0 {
        0
    } else {
        callouts(states, times, (n - 1) as nat) + if is_overdue(states[n - 1], times[n - 1].1) {
            1nat
        } else {
            0nat
        }
    }
}

/// The writes of one pass are a successor state.
pub proof fn lemma_after_poll_is_a_successor(entry: Entry, send_at: int, call_at: int)
    ensures
        poll_successor(entry, after_poll(entry, send_at, call_at), send_at, call_at),
{
}

/// A run in which each state is what the previous pass's own writes left is a run of
/// the polling loop.
pub proof fn lemma_after_poll_runs(states: Seq<Entry>, times: Seq<(int, int)>)
    requires
        states.len() == times.len(),
        forall|i: int|
            0 <= i < states.len() - 1 ==> states[i + 1] == #[trigger] after_poll(
                states[i],
                times[i].0,
                times[i].1,
            ),
    ensures
        poll_run(states, times),
{
    assert forall|i: int| 0 <= i < states.len() - 1 implies #[trigger] poll_successor(
        states[i],
        states[i + 1],
        times[i].0,
        times[i].1,
    ) by {
        lemma_after_poll_is_a_successor(states[i], times[i].0, times[i].1);
    }
}

/// The first `n` passes of a run remind of the entry and announce it at most once each,
/// and once they have, the next state no longer asks for a reminder (or is completed).
proof fn lemma_poll_run_prefix(states: Seq<Entry>, times: Seq<(int, int)>, n: nat)
    requires
        poll_run(states, times),
        n <= states.len(),
    ensures
        sends(states, times, n) <= 1,
        callouts(states, times, n) <= 1,
        n < states.len() && sends(states, times, n) == 1 ==> !states[n as int].remind,
        n < states.len() && callouts(states, times, n) == 1 ==> !states[n as int].active,
    decreases n,
{
    if n > 0 {
        let m = (n - 1) as nat;
        lemma_poll_run_prefix(states, times, m);
        if n < states.len() {
            assert(poll_successor(states[m as int], states[m as int + 1], times[m as int].0, times[m as int].1));
        }
    }
}

/// Over any run of the polling loop, the user is reminded of an entry at most once and
/// the entry is announced as expired at most once.
pub proof fn lemma_entry_reminded_and_announced_at_most_once(
    states: Seq<Entry>,
    times: Seq<(int, int)>,
)
    requires
        poll_run(states, times),
    ensures
        sends(states, times, states.len()) <= 1,
        callouts(states, times, states.len()) <= 1,
{
    lemma_poll_run_prefix(states, times, states.len());
}

/// What the polling loop does for an entry.
pub enum EntryAction {
    /// Send `text` as a direct message to the user with database id `user_db_id`, then
    /// stop reminding of the entry with id `entry_id`.
    Remind { user_db_id: i32, entry_id: i32, text: String },
    /// Announce in the notification channel that the user with database id
    /// `user_db_id` let the entry `description` expire, then mark that user's entries
    /// complete and count one more missed entry for them.
    CallOut { user_db_id: i32, description: String },
}

/// The reminder to send for `entry` at `now`, if it needs one.
pub fn entry_reminder_action(entry: &Entry, now: &Timestamp) -> (r: Option<EntryAction>)
    ensures
        r is Some <==> needs_reminder(*entry, now@),
        r matches Some(a) ==> a matches EntryAction::Remind { user_db_id, entry_id, text } && user_db_id
            == entry.user_id && entry_id == entry.id && text@ == reminder_text(entry.description@),
{
    if entry_needs_reminder(entry, now) {
        Some(
            EntryAction::Remind {
                user_db_id: entry.user_id,
                entry_id: entry.id,
                text: reminder_message(entry.description.as_str()),
            },
        )
    } else {
        None
    }
}

/// The call-out for `entry` at `now`, if it has expired.
pub fn entry_callout_action(entry: &Entry, now: &Timestamp) -> (r: Option<EntryAction>)
    ensures
        r is Some <==> is_overdue(*entry, now@),
        r matches Some(a) ==> a matches EntryAction::CallOut { user_db_id, description }
            && user_db_id == entry.user_id && description@ == entry.description@,
{
    if entry_is_overdue(entry, now) {
        Some(EntryAction::CallOut { user_db_id: entry.user_id, description: entry.description.clone() })
    } else {
        None
    }
}

/// The direct message that reminds a user of the task `description`.
pub open spec fn reminder_text(description: Seq<char>) -> Seq<char> {
    "Do your entry: "@ + description
}

/// The reminder sent for the task `description`.
pub fn reminder_message(description: &str) -> (r: String)
    ensures
        r@ == reminder_text(description@),
{
    let mut s = String::from_str("Do your entry: ");
    s.append(description);
    s
}

/// The announcement that the user `user` let the entry `description` expire, with
/// their count of missed entries.
pub open spec fn overdue_entry_text(user: int, description: Seq<char>, missed: int) -> Seq<char> {
    "\n                                **User:** "@ + mention(user)
        + " \n                                **Description:** "@ + description
        + " \n                                **Total missed entries:** "@ + decimal(missed)
        + " \n\n                                common "@ + mention(user)
        + " L\n                                "@
}

/// The announcement of an expired entry.
pub fn overdue_entry_message(user: u64, description: &str, missed_entries: i32) -> (r: String)
    ensures
        r@ == overdue_entry_text(user as int, description@, missed_entries as int),
{
    let m = user_mention(user);
    let mut s = String::from_str("\n                                **User:** ");
    s.append(m.as_str());
    s.append(" \n                                **Description:** ");
    s.append(description);
    s.append(" \n                                **Total missed entries:** ");
    push_int(&mut s, missed_entries as i128);
    s.append(" \n\n                                common ");
    s.append(m.as_str());
    s.append(" L\n                                ");
    s
}

} // verus!
