//! The reminder bot's database, and what its polling loop decides for each reminder.

pub mod boop;
pub mod users;

use vstd::prelude::*;
use crate::db::guilds::Guild;
use crate::db::reminders::Reminder;
use crate::db::{reminder_message, reminder_text};
use crate::ids::{as_unsigned, discord_id};
use crate::text::{decimal, mention, push_int, user_mention};
use crate::time::Timestamp;

verus! {

/// Whether the user should get the reminder at `now`: it asks for a reminder, that
/// time has passed, and the reminder is open.
pub open spec fn is_due(r: Reminder, now: int) -> bool {
    match r.remind_time {
        Some(t) => now > t@ && r.active,
        None => false,
    }
}

/// Whether the reminder is open and past due at `now`, so that its user is called out.
pub open spec fn is_overdue(r: Reminder, now: int) -> bool {
    now > r.end_time@ && r.active
}

/// A completed reminder (marked inactive) is neither sent nor announced as expired.
pub proof fn lemma_completed_reminder_is_quiet(r: Reminder, now: int)
    requires
        !r.active,
    ensures
        !is_due(r, now),
        !is_overdue(r, now),
{
}

/// Once the reminder has been sent (its remind time cleared), it is not sent again.
pub proof fn lemma_reminder_is_sent_once(r: Reminder, now: int)
    requires
        r.remind_time is None,
    ensures
        !is_due(r, now),
{
}

/// A reminder is only sent once its remind time has passed, and only announced as
/// expired once its deadline has passed.
pub proof fn lemma_reminder_timing(r: Reminder, now: int)
    ensures
        is_due(r, now) ==> (r.remind_time matches Some(t) && now > t@),
        is_overdue(r, now) ==> now > r.end_time@,
{
}

/// The reminder as one pass of the polling loop leaves it: once it has been sent (the
/// pass looked at `send_at`) its remind time is cleared, and once it has been announced
/// as expired (the pass looked at `call_at`) it is marked complete.
pub open spec fn after_poll(r: Reminder, send_at: int, call_at: int) -> Reminder {
    Reminder {
        remind_time: if is_due(r, send_at) { None } else { r.remind_time },
        active: if is_overdue(r, call_at) { false } else { r.active },
        ..r
    }
}

/// Whether `states` are the successive states of one reminder over a run of the polling
/// loop, the pass over `states[i]` deciding at the times `times[i]` and leaving
/// `states[i + 1]`: each pass makes its own writes to the reminder, and nothing else
/// writes it.
pub open spec fn poll_run(states: Seq<Reminder>, times: Seq<(int, int)>) -> bool {
    &&& states.len() == times.len()
    &&& forall|i: int|
        0 <= i < states.len() - 1 ==> states[i + 1] == #[trigger] after_poll(
            states[i],
            times[i].0,
            times[i].1,
        )
}

/// How many of the first `n` passes of a run sent the reminder.
pub open spec fn sends(states: Seq<Reminder>, times: Seq<(int, int)>, n: nat) -> nat
    decreases n,
{
    if n == 0 {
        0
    } else {
        sends(states, times, (n - 1) as nat) + if is_due(states[n - 1], times[n - 1].0) {
            1nat
        } else {
            0nat
        }
    }
}

/// How many of the first `n` passes of a run announced the reminder as expired.
pub open spec fn callouts(states: Seq<Reminder>, times: Seq<(int, int)>, n: nat) -> nat
    decreases n,
{
    if n == 0 {
        0
    } else {
        callouts(states, times, (n - 1) as nat) + if is_overdue(states[n - 1], times[n - 1].1) {
            1nat
        } else {
            0nat
        }
    }
}

/// The first `n` passes of a run send and announce the reminder at most once each, and
/// once they have, the next state has its remind time cleared (or is completed).
proof fn lemma_poll_run_prefix(states: Seq<Reminder>, times: Seq<(int, int)>, n: nat)
    requires
        poll_run(states, times),
        n <= states.len(),
    ensures
        sends(states, times, n) <= 1,
        callouts(states, times, n) <= 1,
        n < states.len() && sends(states, times, n) == 1 ==> states[n as int].remind_time is None,
        n < states.len() && callouts(states, times, n) == 1 ==> !states[n as int].active,
    decreases n,
{
    if n > 0 {
        let m = (n - 1) as nat;
        lemma_poll_run_prefix(states, times, m);
        if n < states.len() {
            assert(states[m as int + 1] == after_poll(states[m as int], times[m as int].0, times[m as int].1));
        }
    }
}

/// Over any run of the polling loop, a reminder is sent to its user at most once and
/// announced as expired at most once.
pub proof fn lemma_reminder_sent_and_announced_at_most_once(
    states: Seq<Reminder>,
    times: Seq<(int, int)>,
)
    requires
        poll_run(states, times),
    ensures
        sends(states, times, states.len()) <= 1,
        callouts(states, times, states.len()) <= 1,
{
    lemma_poll_run_prefix(states, times, states.len());
}

/// While none of the first `n` passes has sent the reminder, and none of them looked
/// past its deadline, the reminder keeps its remind time and stays open.
proof fn lemma_unsent_reminder_is_unchanged(states: Seq<Reminder>, times: Seq<(int, int)>, n: nat)
    requires
        poll_run(states, times),
        n < states.len(),
        forall|i: int| 0 <= i < n ==> #[trigger] times[i].1 <= states[0].end_time@,
    ensures
        states[n as int].end_time == states[0].end_time,
        sends(states, times, n) == 0 ==> states[n as int].remind_time == states[0].remind_time
            && states[n as int].active == states[0].active,
    decreases n,
{
    if n > 0 {
        let m = (n - 1) as nat;
        lemma_unsent_reminder_is_unchanged(states, times, m);
        assert(states[m as int + 1] == after_poll(states[m as int], times[m as int].0, times[m as int].1));
        assert(times[m as int].1 <= states[0].end_time@);
    }
}

/// Every open reminder is sent once its remind time has passed: in a run of the polling
/// loop that starts with the reminder open and asking to be reminded at `t`, a pass `j`
/// that looks past `t`, with no earlier pass having looked past the deadline, means the
/// reminder has been sent exactly once by the end of that pass.
pub proof fn lemma_reminder_is_sent_when_its_time_comes(
    states: Seq<Reminder>,
    times: Seq<(int, int)>,
    j: int,
)
    requires
        poll_run(states, times),
        0 <= j < states.len(),
        states[0].active,
        states[0].remind_time matches Some(t) && times[j].0 > t@,
        forall|i: int| 0 <= i < j ==> #[trigger] times[i].1 <= states[0].end_time@,
    ensures
        sends(states, times, (j + 1) as nat) == 1,
{
    lemma_unsent_reminder_is_unchanged(states, times, j as nat);
    lemma_poll_run_prefix(states, times, (j + 1) as nat);
}

/// Decides whether to send the reminder at `now`.
pub fn reminder_is_due(r: &Reminder, now: &Timestamp) -> (b: bool)
    ensures
        b == is_due(*r, now@),
{
    match &r.remind_time {
        Some(t) => now.is_after(t) && r.active,
        None => false,
    }
}

/// Decides whether the reminder has expired at `now`.
pub fn reminder_is_overdue(r: &Reminder, now: &Timestamp) -> (b: bool)
    ensures
        b == is_overdue(*r, now@),
{
    now.is_after(&r.end_time) && r.active
}

/// What the polling loop does for a reminder.
pub enum ReminderAction {
    /// Send `text` as a direct message to the user with database id `user_db_id`, then
    /// clear the remind time of the reminder with id `reminder_id`.
    Remind { user_db_id: i64, reminder_id: i64, text: String },
    /// Announce in the reminder channel of the guild with database id `guild_db_id` that
    /// the user with database id `user_db_id` let the reminder `description` expire,
    /// then mark the reminder with id `reminder_id` complete and count one more miss for
    /// the user.
    CallOut { user_db_id: i64, reminder_id: i64, guild_db_id: i64, description: String },
}

/// The reminder to send at `now`, if it is due.
pub fn reminder_send_action(r: &Reminder, now: &Timestamp) -> (a: Option<ReminderAction>)
    ensures
        a is Some <==> is_due(*r, now@),
        a matches Some(x) ==> x matches ReminderAction::Remind { user_db_id, reminder_id, text }
            && user_db_id == r.user_id && reminder_id == r.id && text@ == reminder_text(
            r.description@,
        ),
{
    if reminder_is_due(r, now) {
        Some(
            ReminderAction::Remind {
                user_db_id: r.user_id,
                reminder_id: r.id,
                text: reminder_message(r.description.as_str()),
            },
        )
    } else {
        None
    }
}

/// The call-out for a reminder at `now`, if it has expired.
pub fn reminder_callout_action(r: &Reminder, now: &Timestamp) -> (a: Option<ReminderAction>)
    ensures
        a is Some <==> is_overdue(*r, now@),
        a matches Some(x) ==> x matches ReminderAction::CallOut {
            user_db_id,
            reminder_id,
            guild_db_id,
            description,
        } && user_db_id == r.user_id && reminder_id == r.id && guild_db_id == r.guild_id
            && description@ == r.description@,
{
    if reminder_is_overdue(r, now) {
        Some(
            ReminderAction::CallOut {
                user_db_id: r.user_id,
                reminder_id: r.id,
                guild_db_id: r.guild_id,
                description: r.description.clone(),
            },
        )
    } else {
        None
    }
}

/// The channel where a guild's expired reminders are announced, or `None` where the
/// guild has none set (there the announcement cannot be made).
pub fn announcement_channel(guild: &Guild) -> (r: Option<u64>)
    ensures
        r is Some <==> guild.reminder_channel is Some,
        r matches Some(c) ==> c as int == as_unsigned(guild.reminder_channel->0 as int),
{
    match guild.reminder_channel {
        Some(c) => Some(discord_id(c)),
        None => None,
    }
}

/// The announcement that the user `user` let the reminder `description` expire, with
/// their count of missed reminders (an empty count reads 0).
pub open spec fn overdue_reminder_text(user: int, description: Seq<char>, missed: Option<i32>) -> Seq<char> {
    let m = match missed {
        Some(n) => n as int,
        None => 0,
    };
    "\n                                **User:** "@ + mention(user)
        + " \n                                **Description:** "@ + description
        + " \n                                **Total missed reminders:** "@ + decimal(m)
        + " \n                                "@
}

/// The announcement of an expired reminder.
pub fn overdue_reminder_message(user: u64, description: &str, missed: Option<i32>) -> (r: String)
    ensures
        r@ == overdue_reminder_text(user as int, description@, missed),
{
    let count: i32 = match missed {
        Some(n) => n,
        None => 0,
    };
    let m = user_mention(user);
    let mut s = String::from_str("\n                                **User:** ");
    s.append(m.as_str());
    s.append(" \n                                **Description:** ");
    s.append(description);
    s.append(" \n                                **Total missed reminders:** ");
    push_int(&mut s, count as i128);
    s.append(" \n                                ");
    s
}

} // verus!
