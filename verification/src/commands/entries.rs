//! Notebook entry commands: setting an entry timer and listing open entries.

use vstd::prelude::*;
use crate::commands::lemma_take_last;
use crate::commands::checks::{fails_with, passes, CheckOutcome};
use crate::db::entries::Entry;
use crate::text::{decimal, mention, push_int, user_mention};
use crate::time::{instant_in_range, span_in_range, trunc_div, Delta, Timestamp};

verus! {

/// Which entries `/entry list` shows.
#[derive(Clone, Copy, Debug, PartialEq, Eq, Structural)]
pub enum ViewOptions {
    /// Open entries of every user.
    AllUsers,
    /// The caller's entries, open and expired.
    Expired,
    /// All entries, open and expired.
    All,
    /// The caller's open entries.
    Author,
}

/// The query that fetches the entries to list.
#[derive(Clone, Copy, Debug, PartialEq, Eq, Structural)]
pub enum EntryQuery {
    /// The open entries of the caller.
    ActiveForUser,
    /// All entries of the caller.
    AllForUser,
    /// The open entries of everyone.
    Active,
    /// All entries.
    All,
}

/// The query for a view; no view means the caller's open entries.
pub open spec fn query_for(view: Option<ViewOptions>) -> EntryQuery {
    match view {
        None => EntryQuery::ActiveForUser,
        Some(ViewOptions::Author) => EntryQuery::ActiveForUser,
        Some(ViewOptions::Expired) => EntryQuery::AllForUser,
        Some(ViewOptions::AllUsers) => EntryQuery::Active,
        Some(ViewOptions::All) => EntryQuery::All,
    }
}

/// Chooses the entries to fetch for `/entry list`.
pub fn entries_to_fetch(view: Option<ViewOptions>) -> (r: EntryQuery)
    ensures
        r == query_for(view),
{
    match view {
        None => EntryQuery::ActiveForUser,
        Some(ViewOptions::Author) => EntryQuery::ActiveForUser,
        Some(ViewOptions::Expired) => EntryQuery::AllForUser,
        Some(ViewOptions::AllUsers) => EntryQuery::Active,
        Some(ViewOptions::All) => EntryQuery::All,
    }
}

/// Only notebookers may set entry timers; the others are told so.
pub fn notebooker_outcome(is_notebooker: bool) -> (r: CheckOutcome)
    ensures
        is_notebooker ==> passes(r),
        !is_notebooker ==> fails_with(r, "You aren't a notebooker"@),
{
    if is_notebooker {
        CheckOutcome { passed: true, reply: None }
    } else {
        CheckOutcome { passed: false, reply: Some(String::from_str("You aren't a notebooker")) }
    }
}

/// A new entry's deadline and whether its user wants a reminder.
#[derive(Clone, Copy, Debug, PartialEq, Eq, Structural)]
pub struct EntryPlan {
    pub end_time: Timestamp,
    pub remind: bool,
}

/// The nanoseconds in `hours` hours.
pub open spec fn hours_span(hours: int) -> int {
    hours * 3_600_000_000_000
}

/// Plans an entry set at `now` for `hours` hours: it is due `hours` hours later, and
/// the user is reminded only when asked to. `None` where the deadline cannot be
/// computed (where `TimeDelta::hours` or `DateTime + TimeDelta` panics).
pub fn plan_entry(now: &Timestamp, hours: i64, remind: Option<bool>) -> (r: Option<EntryPlan>)
    ensures
        r is Some <==> (span_in_range(hours_span(hours as int)) && instant_in_range(
            now@ + hours_span(hours as int),
        )),
        r matches Some(p) ==> p.end_time@ == now@ + hours_span(hours as int) && p.remind == (
        match remind {
            Some(b) => b,
            None => false,
        }),
{
    let span = match Delta::try_hours(hours) {
        Some(d) => d,
        None => {
            return None;
        },
    };
    let end_time = match now.checked_add(span) {
        Some(t) => t,
        None => {
            return None;
        },
    };
    let remind = match remind {
        Some(b) => b,
        None => false,
    };
    Some(EntryPlan { end_time, remind })
}

/// The confirmation that an entry timer was set.
pub open spec fn entry_created_text(user: int, hours: int, description: Seq<char>) -> Seq<char> {
    "\n                **User:** "@ + mention(user) + "\n                **Time to complete:** "@
        + decimal(hours) + " hours\n                **Description:** "@ + description
        + "\n                "@
}

/// Confirms a new entry for the user `user`, due in `hours` hours.
pub fn entry_created_message(user: u64, hours: i64, description: &str) -> (r: String)
    ensures
        r@ == entry_created_text(user as int, hours as int, description@),
{
    let m = user_mention(user);
    let mut s = String::from_str("\n                **User:** ");
    s.append(m.as_str());
    s.append("\n                **Time to complete:** ");
    push_int(&mut s, hours as i128);
    s.append(" hours\n                **Description:** ");
    s.append(description);
    s.append("\n                ");
    s
}

/// The database ids of the users of `entries`, in order.
pub open spec fn entry_user_ids(entries: Seq<Entry>) -> Seq<i32> {
    Seq::new(entries.len(), |i: int| entries[i].user_id)
}

/// The whole minutes past the whole hours in `secs` seconds, rounded toward zero
/// (`secs % 3600 / 60` in Rust).
pub open spec fn minutes_past_hour(secs: int) -> int {
    trunc_div(secs - trunc_div(secs, 3600) * 3600, 60)
}

/// One line of the entry list: place, user, description, and the time left as whole
/// hours and the minutes past them (negative once the deadline has passed).
pub open spec fn entry_line(place: int, name: Seq<char>, entry: Entry, now: int) -> Seq<char> {
    let left = trunc_div(entry.end_time@ - now, 1_000_000_000);
    decimal(place) + ". "@ + name + " -- "@ + entry.description@ + " -- time left - "@
        + decimal(trunc_div(left, 3600)) + ":"@ + decimal(minutes_past_hour(left)) + "\n"@
}

/// The entry list: every entry fetched, open or expired, in order and numbered from 1;
/// the `k`th is shown with `names[k]` and the time left at `nows[k]`.
pub open spec fn entry_list_text(entries: Seq<Entry>, names: Seq<String>, nows: Seq<Timestamp>) -> Seq<char>
    decreases entries.len(),
{
    if entries.len() == 0 {
        Seq::empty()
    } else {
        let k = entries.len() - 1;
        entry_list_text(entries.drop_last(), names, nows) + entry_line(
            k + 1,
            names[k]@,
            entries.last(),
            nows[k]@,
        )
    }
}

/// The users whose names the list needs: those of every entry, in order.
pub fn entry_list_user_ids(entries: &Vec<Entry>) -> (r: Vec<i32>)
    ensures
        r@ == entry_user_ids(entries@),
{
    let mut ids: Vec<i32> = Vec::new();
    let mut i: usize = 0;
    while i < entries.len()
        invariant
            i <= entries.len(),
            ids@ =~= entry_user_ids(entries@.take(i as int)),
        decreases entries.len() - i,
    {
        ids.push(entries[i].user_id);
        i = i + 1;
    }
    proof {
        assert(entries@.take(entries.len() as int) =~= entries@);
    }
    ids
}

/// `a / b` rounded toward zero.
fn div_toward_zero(a: i128, b: i128) -> (r: i128)
    requires
        b > 0,
        a > i128::MIN,
    ensures
        r == trunc_div(a as int, b as int),
{
    if a >= 0 {
        a / b
    } else {
        -((-a) / b)
    }
}

/// Writes the time left as whole hours, a colon, and the minutes past them.
fn push_time_left(s: &mut String, left: &Delta)
    ensures
        final(s)@ == old(s)@ + decimal(trunc_div(trunc_div(left@, 1_000_000_000), 3600)) + ":"@
            + decimal(minutes_past_hour(trunc_div(left@, 1_000_000_000))),
{
    let secs = left.num_seconds() as i128;
    let hours = div_toward_zero(secs, 3600);
    proof {
        let a = secs as int;
        assert(-3600 * a <= hours * 3600 * 3600 <= 3600 * a || 3600 * a <= hours * 3600 * 3600
            <= -3600 * a) by (nonlinear_arith)
            requires
                hours as int == trunc_div(a, 3600),
        ;
    }
    let rest = secs - hours * 3600;
    let minutes = div_toward_zero(rest, 60);
    let ghost before = s@;
    push_int(s, hours);
    s.append(":");
    push_int(s, minutes);
    proof {
        assert(s@ =~= before + decimal(hours as int) + ":"@ + decimal(minutes as int));
    }
}

/// Writes the list of the entries fetched; `names` and `nows` hold, for each entry in
/// order, its user's name and the time at which its time left is measured.
pub fn entry_list_message(entries: &Vec<Entry>, names: &Vec<String>, nows: &Vec<Timestamp>) -> (r: String)
    requires
        names.len() == entries.len(),
        nows.len() == entries.len(),
    ensures
        r@ == entry_list_text(entries@, names@, nows@),
{
    let mut s = String::new();
    let mut i: usize = 0;
    while i < entries.len()
        invariant
            i <= entries.len(),
            names.len() == entries.len(),
            nows.len() == entries.len(),
            s@ == entry_list_text(entries@.take(i as int), names@, nows@),
        decreases entries.len() - i,
    {
        proof {
            lemma_take_last(entries@, i as int);
        }
        let entry = &entries[i];
        let ghost before = s@;
        let left = entry.end_time.since(&nows[i]);
        push_int(&mut s, (i + 1) as i128);
        s.append(". ");
        s.append(names[i].as_str());
        s.append(" -- ");
        s.append(entry.description.as_str());
        s.append(" -- time left - ");
        push_time_left(&mut s, &left);
        s.append("\n");
        proof {
            assert(s@ =~= before + entry_line(
                i + 1,
                names@[i as int]@,
                entries@[i as int],
                nows@[i as int]@,
            ));
        }
        i = i + 1;
    }
    proof {
        assert(entries@.take(entries.len() as int) =~= entries@);
    }
    s
}

} // verus!
