//! Reminder commands: setting a reminder and listing open reminders.

use vstd::prelude::*;
use crate::commands::lemma_take_last;
use crate::db::reminders::Reminder;
use crate::commands::entries::hours_span;
use crate::text::{decimal, mention, push_int, user_mention};
use crate::time::{instant_in_range, span_in_range, span_text, Delta, Timestamp};

verus! {

/// Which reminders `/reminder list` shows.
#[derive(Clone, Copy, Debug, PartialEq, Eq, Structural)]
pub enum ViewOptions {
    /// Open reminders of every user.
    All,
    /// The caller's reminders, open and expired.
    AuthorExpired,
    /// All reminders, open and expired.
    AllExpired,
    /// The caller's open reminders.
    Author,
}

/// The query that fetches the reminders to list.
#[derive(Clone, Copy, Debug, PartialEq, Eq, Structural)]
pub enum ReminderQuery {
    /// The open reminders of the caller.
    ActiveForUser,
    /// All reminders of the caller.
    AllForUser,
    /// The open reminders of everyone.
    Active,
    /// All reminders.
    All,
}

/// The query for a view; no view means the caller's open reminders.
pub open spec fn query_for(view: Option<ViewOptions>) -> ReminderQuery {
    match view {
        None => ReminderQuery::ActiveForUser,
        Some(ViewOptions::Author) => ReminderQuery::ActiveForUser,
        Some(ViewOptions::AuthorExpired) => ReminderQuery::AllForUser,
        Some(ViewOptions::All) => ReminderQuery::Active,
        Some(ViewOptions::AllExpired) => ReminderQuery::All,
    }
}

/// Chooses the reminders to fetch for `/reminder list`.
pub fn reminders_to_fetch(view: Option<ViewOptions>) -> (r: ReminderQuery)
    ensures
        r == query_for(view),
{
    match view {
        None => ReminderQuery::ActiveForUser,
        Some(ViewOptions::Author) => ReminderQuery::ActiveForUser,
        Some(ViewOptions::AuthorExpired) => ReminderQuery::AllForUser,
        Some(ViewOptions::All) => ReminderQuery::Active,
        Some(ViewOptions::AllExpired) => ReminderQuery::All,
    }
}

/// Whether a query fetches only the caller's reminders.
pub open spec fn fetches_only_callers(q: ReminderQuery) -> bool {
    q == ReminderQuery::ActiveForUser || q == ReminderQuery::AllForUser
}

/// Whether a query fetches only open reminders.
pub open spec fn fetches_only_open(q: ReminderQuery) -> bool {
    q == ReminderQuery::ActiveForUser || q == ReminderQuery::Active
}

/// What each view lists: the views that name the caller ("self", "self expired", and no
/// view at all) fetch only the caller's reminders and the others everyone's; the views
/// without "expired" fetch only open reminders and the others expired ones too; and the
/// "self" view lists the same reminders as no view.
pub proof fn lemma_views_select_reminders(view: Option<ViewOptions>)
    ensures
        fetches_only_callers(query_for(view)) <==> (view is None || view == Some(
            ViewOptions::Author,
        ) || view == Some(ViewOptions::AuthorExpired)),
        fetches_only_open(query_for(view)) <==> (view is None || view == Some(ViewOptions::Author)
            || view == Some(ViewOptions::All)),
        query_for(Some(ViewOptions::Author)) == query_for(None),
{
}

/// Who a new reminder is for: the caller when no one else is named, and a named user
/// only when the caller is a reminder master; `None` when the reminder is not made.
pub fn reminder_target(author: u64, target: Option<u64>, is_master: bool) -> (r: Option<u64>)
    ensures
        r == (match target {
            None => Some(author),
            Some(t) => if is_master {
                Some(t)
            } else {
                None
            },
        }),
{
    match target {
        None => Some(author),
        Some(t) => {
            if is_master {
                Some(t)
            } else {
                None
            }
        },
    }
}

/// A new reminder's deadline, and when to remind its user.
#[derive(Clone, Copy, Debug, PartialEq, Eq, Structural)]
pub struct ReminderPlan {
    pub end_time: Timestamp,
    pub remind_time: Option<Timestamp>,
}

/// Whether a reminder set at `now` for `hours` hours, reminding `remind` hours before
/// its end, can be computed (where neither `TimeDelta::hours` nor the date arithmetic
/// panics).
pub open spec fn reminder_plan_exists(now: int, hours: int, remind: Option<i32>) -> bool {
    &&& span_in_range(hours_span(hours))
    &&& instant_in_range(now + hours_span(hours))
    &&& match remind {
        Some(r) => instant_in_range(now + hours_span(hours) - hours_span(r as int)),
        None => true,
    }
}

/// Plans a reminder set at `now` for `hours` hours: it is due `hours` hours later, and
/// when `remind` is given the user is reminded that many hours before the end.
pub fn plan_reminder(now: &Timestamp, hours: i64, remind: Option<i32>) -> (r: Option<ReminderPlan>)
    ensures
        r is Some <==> reminder_plan_exists(now@, hours as int, remind),
        r matches Some(p) ==> {
            &&& p.end_time@ == now@ + hours_span(hours as int)
            &&& p.remind_time is Some <==> remind is Some
            &&& p.remind_time matches Some(t) ==> t@ == p.end_time@ - hours_span(remind->0 as int)
        },
{
    let span = match Delta::try_hours(hours) {
        Some(d) => d,
        None => {
            return None;
        },
    };
    let end_time = match now.checked_add(span) {
        Some(t) => t,
        None => {
            return None;
        },
    };
    let remind_time = match remind {
        None => None,
        Some(r) => {
            // an i32 count of hours always makes a valid span
            let before = Delta::try_hours(r as i64).unwrap();
            match end_time.checked_sub(before) {
                Some(t) => Some(t),
                None => {
                    return None;
                },
            }
        },
    };
    Some(ReminderPlan { end_time, remind_time })
}

/// The confirmation that a reminder was set: its user, how long it runs, what it is
/// for, and how long before the end the user is reminded (`false` for no reminder).
pub open spec fn reminder_created_text(
    user: int,
    duration: Seq<char>,
    description: Seq<char>,
    remind: Option<Seq<char>>,
) -> Seq<char> {
    let r = match remind {
        Some(t) => t,
        None => "false"@,
    };
    "\n                **User:** "@ + mention(user) + "\n                **Time to complete:** "@
        + duration + "\n                **Description:** "@ + description
        + "\n                **Remind:** "@ + r + "\n                "@
}

/// Confirms a new reminder, given the durations already written out.
pub fn reminder_created_message(
    user: u64,
    duration: &str,
    description: &str,
    remind: Option<&str>,
) -> (r: String)
    ensures
        r@ == reminder_created_text(
            user as int,
            duration@,
            description@,
            match remind {
                Some(t) => Some(t@),
                None => None,
            },
        ),
{
    let m = user_mention(user);
    let mut s = String::from_str("\n                **User:** ");
    s.append(m.as_str());
    s.append("\n                **Time to complete:** ");
    s.append(duration);
    s.append("\n                **Description:** ");
    s.append(description);
    s.append("\n                **Remind:** ");
    match remind {
        Some(t) => s.append(t),
        None => s.append("false"),
    }
    s.append("\n                ");
    s
}

/// The confirmation of a reminder planned as `plan` for `hours` hours: both durations
/// are written by `humantime`. `None` where a duration is negative, since a negative
/// duration cannot be written.
pub open spec fn reminder_reply(
    user: int,
    hours: int,
    description: Seq<char>,
    plan: ReminderPlan,
) -> Option<Seq<char>> {
    match span_text(hours_span(hours)) {
        None => None,
        Some(duration) => match plan.remind_time {
            None => Some(reminder_created_text(user, duration, description, None)),
            Some(t) => match span_text(plan.end_time@ - t@) {
                None => None,
                Some(remind) => Some(
                    reminder_created_text(user, duration, description, Some(remind)),
                ),
            },
        },
    }
}

/// The confirmation ends with its Remind field: the reminder's lead time when one is
/// set, and the word `false` when none is; a reminder without a lead time is confirmed
/// exactly as one whose lead time reads `false`.
pub proof fn lemma_confirmation_remind_field(
    user: int,
    duration: Seq<char>,
    description: Seq<char>,
    remind: Option<Seq<char>>,
)
    ensures
        reminder_created_text(user, duration, description, None) == reminder_created_text(
            user,
            duration,
            description,
            Some("false"@),
        ),
        ({
            let s = reminder_created_text(user, duration, description, remind);
            let field = match remind {
                Some(t) => t,
                None => "false"@,
            };
            let end = "\n                **Remind:** "@ + field + "\n                "@;
            s.len() >= end.len() && s.subrange(s.len() - end.len(), s.len() as int) == end
        }),
{
    let field = match remind {
        Some(t) => t,
        None => "false"@,
    };
    let head = "\n                **User:** "@ + mention(user) + "\n                **Time to complete:** "@
        + duration + "\n                **Description:** "@ + description;
    let end = "\n                **Remind:** "@ + field + "\n                "@;
    let s = reminder_created_text(user, duration, description, remind);
    assert(s =~= head + end);
    assert(s.subrange(head.len() as int, s.len() as int) =~= end);
}

/// A reminder planned without a remind time is confirmed with `false` in its Remind
/// field, and one planned with a remind time never is: its field is the written lead time.
pub proof fn lemma_reply_reports_the_planned_reminder(
    user: int,
    hours: int,
    description: Seq<char>,
    plan: ReminderPlan,
)
    ensures
        reminder_reply(user, hours, description, plan) matches Some(s) ==> match plan.remind_time {
            None => s == reminder_created_text(user, span_text(hours_span(hours))->0, description, Some("false"@)),
            Some(t) => s == reminder_created_text(
                user,
                span_text(hours_span(hours))->0,
                description,
                Some(span_text(plan.end_time@ - t@)->0),
            ),
        },
{
    lemma_confirmation_remind_field(user, span_text(hours_span(hours))->0, description, None);
}

/// Confirms the reminder planned as `plan` for `hours` hours.
pub fn reminder_created_reply(user: u64, hours: i64, description: &str, plan: &ReminderPlan) -> (r:
    Option<String>)
    requires
        span_in_range(hours_span(hours as int)),
    ensures
        match r {
            Some(s) => reminder_reply(user as int, hours as int, description@, *plan) == Some(s@),
            None => reminder_reply(user as int, hours as int, description@, *plan) is None,
        },
{
    let span = Delta::try_hours(hours).unwrap();
    let duration = match span.format() {
        Some(d) => d,
        None => {
            return None;
        },
    };
    match plan.remind_time {
        None => Some(reminder_created_message(user, duration.as_str(), description, None)),
        Some(t) => {
            let before = plan.end_time.since(&t);
            match before.format() {
                Some(remind) => Some(
                    reminder_created_message(
                        user,
                        duration.as_str(),
                        description,
                        Some(remind.as_str()),
                    ),
                ),
                None => None,
            }
        },
    }
}

/// The database ids of the users of `reminders`, in order.
pub open spec fn reminder_user_ids(reminders: Seq<Reminder>) -> Seq<i64> {
    Seq::new(reminders.len(), |i: int| reminders[i].user_id)
}

/// The time left on a reminder at `now`: written by `humantime` while the deadline is
/// ahead, `expired` for a closed reminder whose deadline has passed, and `None` for an
/// open reminder past its deadline (its time left cannot be written).
pub open spec fn time_left_text(r: Reminder, now: int) -> Option<Seq<char>> {
    if r.end_time@ >= now {
        span_text(r.end_time@ - now)
    } else if !r.active {
        Some("expired"@)
    } else {
        None
    }
}

/// One line of the reminder list: place, user, description and time left.
pub open spec fn reminder_line(place: int, name: Seq<char>, r: Reminder, left: Seq<char>) -> Seq<char> {
    decimal(place) + ". "@ + name + " -- "@ + r.description@ + " -- time left - "@ + left + "\n"@
}

/// The reminder list: every reminder fetched, open or expired, in order and numbered
/// from 1; the `k`th is shown with `names[k]` and time left `lefts[k]`.
pub open spec fn reminder_list_text(reminders: Seq<Reminder>, names: Seq<String>, lefts: Seq<Seq<char>>) -> Seq<char>
    decreases reminders.len(),
{
    if reminders.len() == 0 {
        Seq::empty()
    } else {
        let k = reminders.len() - 1;
        reminder_list_text(reminders.drop_last(), names, lefts) + reminder_line(
            k + 1,
            names[k]@,
            reminders.last(),
            lefts[k],
        )
    }
}

/// Whether the time left of every reminder can be written, the `k`th measured at `nows[k]`.
pub open spec fn all_writable(reminders: Seq<Reminder>, nows: Seq<Timestamp>) -> bool {
    forall|k: int| 0 <= k < reminders.len() ==> #[trigger] time_left_text(reminders[k], nows[k]@) is Some
}

/// The time left of each reminder, the `k`th measured at `nows[k]`.
pub open spec fn time_lefts(reminders: Seq<Reminder>, nows: Seq<Timestamp>) -> Seq<Seq<char>> {
    Seq::new(reminders.len(), |k: int| time_left_text(reminders[k], nows[k]@)->0)
}

/// The users whose names the list needs: those of every reminder, in order.
pub fn reminder_list_user_ids(reminders: &Vec<Reminder>) -> (r: Vec<i64>)
    ensures
        r@ == reminder_user_ids(reminders@),
{
    let mut ids: Vec<i64> = Vec::new();
    let mut i: usize = 0;
    while i < reminders.len()
        invariant
            i <= reminders.len(),
            ids@ =~= reminder_user_ids(reminders@.take(i as int)),
        decreases reminders.len() - i,
    {
        ids.push(reminders[i].user_id);
        i = i + 1;
    }
    proof {
        assert(reminders@.take(reminders.len() as int) =~= reminders@);
    }
    ids
}

/// The time left on a reminder at `now`.
pub fn reminder_time_left(r: &Reminder, now: &Timestamp) -> (s: Option<String>)
    ensures
        match s {
            Some(t) => time_left_text(*r, now@) == Some(t@),
            None => time_left_text(*r, now@) is None,
        },
{
    let left = r.end_time.since(now);
    match left.format() {
        Some(t) => Some(t),
        None => {
            if !r.active {
                Some(String::from_str("expired"))
            } else {
                None
            }
        },
    }
}

/// Writes the list of the reminders fetched; `names` and `lefts` hold, for each
/// reminder in order, its user's name and its time left.
pub fn reminder_list_message(reminders: &Vec<Reminder>, names: &Vec<String>, lefts: &Vec<String>) -> (r: String)
    requires
        names.len() == reminders.len(),
        lefts.len() == reminders.len(),
    ensures
        r@ == reminder_list_text(reminders@, names@, lefts@.map_values(|t: String| t@)),
{
    let mut s = String::new();
    let mut i: usize = 0;
    while i < reminders.len()
        invariant
            i <= reminders.len(),
            names.len() == reminders.len(),
            lefts.len() == reminders.len(),
            s@ == reminder_list_text(
                reminders@.take(i as int),
                names@,
                lefts@.map_values(|t: String| t@),
            ),
        decreases reminders.len() - i,
    {
        proof {
            lemma_take_last(reminders@, i as int);
        }
        let reminder = &reminders[i];
        let ghost before = s@;
        push_int(&mut s, (i + 1) as i128);
        s.append(". ");
        s.append(names[i].as_str());
        s.append(" -- ");
        s.append(reminder.description.as_str());
        s.append(" -- time left - ");
        s.append(lefts[i].as_str());
        s.append("\n");
        proof {
            assert(s@ =~= before + reminder_line(
                i + 1,
                names@[i as int]@,
                reminders@[i as int],
                lefts@.map_values(|t: String| t@)[i as int],
            ));
        }
        i = i + 1;
    }
    proof {
        assert(reminders@.take(reminders.len() as int) =~= reminders@);
    }
    s
}

/// Writes the list of the reminders fetched, measuring the `k`th one's time left at
/// `nows[k]`; `None` when an open reminder is already past its deadline, whose time
/// left cannot be written.
pub fn reminder_list_reply(reminders: &Vec<Reminder>, names: &Vec<String>, nows: &Vec<Timestamp>) -> (r:
    Option<String>)
    requires
        names.len() == reminders.len(),
        nows.len() == reminders.len(),
    ensures
        r is Some <==> all_writable(reminders@, nows@),
        r matches Some(s) ==> s@ == reminder_list_text(
            reminders@,
            names@,
            time_lefts(reminders@, nows@),
        ),
{
    let mut lefts: Vec<String> = Vec::new();
    let mut i: usize = 0;
    while i < reminders.len()
        invariant
            i <= reminders.len(),
            nows.len() == reminders.len(),
            lefts.len() == i,
            forall|k: int|
                0 <= k < i ==> #[trigger] time_left_text(reminders@[k], nows@[k]@) == Some(
                    lefts@[k]@,
                ),
        decreases reminders.len() - i,
    {
        match reminder_time_left(&reminders[i], &nows[i]) {
            Some(t) => {
                lefts.push(t);
            },
            None => {
                proof {
                    assert(time_left_text(reminders@[i as int], nows@[i as int]@) is None);
                }
                return None;
            },
        }
        i = i + 1;
    }
    proof {
        assert(lefts@.map_values(|t: String| t@) =~= time_lefts(reminders@, nows@));
    }
    Some(reminder_list_message(reminders, names, &lefts))
}

} // verus!

verus! {

/// The confirmation of a planned reminder states what was asked: it runs for the
/// requested hours, and reminds the requested hours before its end.
pub proof fn lemma_confirmation_shows_request(
    user: int,
    hours: int,
    description: Seq<char>,
    plan: ReminderPlan,
    remind: Option<i32>,
)
    requires
        hours >= 0,
        plan.remind_time is Some <==> remind is Some,
        plan.remind_time matches Some(t) ==> t@ == plan.end_time@ - hours_span(remind->0 as int),
        remind matches Some(r) ==> r >= 0,
    ensures
        reminder_reply(user, hours, description, plan) == Some(
            reminder_created_text(
                user,
                span_text(hours_span(hours))->0,
                description,
                match remind {
                    Some(r) => Some(span_text(hours_span(r as int))->0),
                    None => None,
                },
            ),
        ),
{
    assert(hours_span(hours) >= 0) by (nonlinear_arith)
        requires
            hours >= 0,
    ;
    if let Some(r) = remind {
        let t = plan.remind_time->0;
        assert(plan.end_time@ - t@ == hours_span(r as int));
        assert(hours_span(r as int) >= 0) by (nonlinear_arith)
            requires
                r >= 0,
        ;
    }
}

} // verus!
