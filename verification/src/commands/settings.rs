//! `/settings`: a guild's reminder settings, updated by what the administrator gives.

use vstd::prelude::*;
use crate::db::guilds::{merged, Guild};
use crate::ids::{as_signed, db_id};

verus! {

/// A setting given to `/settings`, in its database form.
pub open spec fn given(id: Option<u64>) -> Option<i64> {
    match id {
        Some(v) => Some(as_signed(v as int) as i64),
        None => None,
    }
}

/// The settings `/settings` asks for in `guild`: the role and channel given, with the
/// database id left at 0.
pub open spec fn requested(guild: u64, role: Option<u64>, channel: Option<u64>) -> Guild {
    Guild {
        id: 0,
        guild_id: as_signed(guild as int) as i64,
        reminder_master_role: given(role),
        reminder_channel: given(channel),
    }
}

fn given_id(id: Option<u64>) -> (r: Option<i64>)
    ensures
        r == given(id),
{
    match id {
        Some(v) => Some(db_id(v)),
        None => None,
    }
}

/// The guild's new settings: each setting given to `/settings`, and the stored one
/// where none is given.
pub fn new_guild_settings(guild: u64, role: Option<u64>, channel: Option<u64>, stored: Guild) -> (r:
    Guild)
    ensures
        r == merged(requested(guild, role, channel), stored),
{
    let asked = Guild {
        id: 0,
        guild_id: db_id(guild),
        reminder_master_role: given_id(role),
        reminder_channel: given_id(channel),
    };
    asked.merge(stored)
}

/// A setting's name as shown, `None` when it is not set.
pub open spec fn shown(name: Option<Seq<char>>) -> Seq<char> {
    match name {
        Some(n) => n,
        None => "None"@,
    }
}

/// The reply to `/settings`: the guild and its reminder role and channel.
pub open spec fn settings_text(guild: Seq<char>, role: Option<Seq<char>>, channel: Option<Seq<char>>) -> Seq<char> {
    "\n                **Guild:** "@ + guild + "\n                **Reminder Master Role:** "@
        + shown(role) + "\n                **Reminder Channel:** "@ + shown(channel)
        + "\n                "@
}

/// The reply lists the guild, then the role, then the channel: it begins with the
/// guild's name and the role's (`None` when no role is set), ends with the channel's
/// (`None` when no channel is set), and so shows the channel the same whatever the role.
pub proof fn lemma_settings_fields(
    guild: Seq<char>,
    role: Option<Seq<char>>,
    channel: Option<Seq<char>>,
    other_role: Option<Seq<char>>,
)
    ensures
        ({
            let s = settings_text(guild, role, channel);
            let start = "\n                **Guild:** "@ + guild + "\n                **Reminder Master Role:** "@
                + match role {
                Some(n) => n,
                None => "None"@,
            };
            let end = "\n                **Reminder Channel:** "@ + match channel {
                Some(n) => n,
                None => "None"@,
            } + "\n                "@;
            &&& s == start + end
            &&& s.subrange(0, start.len() as int) == start
            &&& s.subrange(s.len() - end.len(), s.len() as int) == end
        }),
        ({
            let s = settings_text(guild, role, channel);
            let t = settings_text(guild, other_role, channel);
            let k = "\n                **Reminder Channel:** "@.len() + shown(channel).len() + "\n                "@.len();
            s.len() >= k && t.len() >= k && s.subrange(s.len() - k, s.len() as int) == t.subrange(
                t.len() - k,
                t.len() as int,
            )
        }),
{
    let start = "\n                **Guild:** "@ + guild + "\n                **Reminder Master Role:** "@
        + shown(role);
    let start2 = "\n                **Guild:** "@ + guild + "\n                **Reminder Master Role:** "@
        + shown(other_role);
    let end = "\n                **Reminder Channel:** "@ + shown(channel) + "\n                "@;
    let s = settings_text(guild, role, channel);
    let t = settings_text(guild, other_role, channel);
    assert(s =~= start + end);
    assert(t =~= start2 + end);
    assert(s.subrange(0, start.len() as int) =~= start);
    assert(s.subrange(start.len() as int, s.len() as int) =~= end);
    assert(t.subrange(start2.len() as int, t.len() as int) =~= end);
}

/// Answers `/settings` with the names of the guild, its reminder role and its channel.
pub fn settings_message(guild: &str, role: Option<&str>, channel: Option<&str>) -> (r: String)
    ensures
        r@ == settings_text(
            guild@,
            match role {
                Some(n) => Some(n@),
                None => None,
            },
            match channel {
                Some(n) => Some(n@),
                None => None,
            },
        ),
{
    let mut s = String::from_str("\n                **Guild:** ");
    s.append(guild);
    s.append("\n                **Reminder Master Role:** ");
    match role {
        Some(n) => s.append(n),
        None => s.append("None"),
    }
    s.append("\n                **Reminder Channel:** ");
    match channel {
        Some(n) => s.append(n),
        None => s.append("None"),
    }
    s.append("\n                ");
    s
}

} // verus!
