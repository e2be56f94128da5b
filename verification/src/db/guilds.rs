//! A guild's (server's) settings for reminders.

use vstd::prelude::*;

verus! {

/// The settings a guild keeps for reminders.
#[derive(Clone, Copy, Debug, PartialEq, Eq, Structural)]
pub struct Guild {
    pub id: i32,
    pub guild_id: i64,
    pub reminder_master_role: Option<i64>,
    pub reminder_channel: Option<i64>,
}

/// `a` where it is set, else `b`.
pub open spec fn first_set(a: Option<i64>, b: Option<i64>) -> Option<i64> {
    if a is None {
        b
    } else {
        a
    }
}

/// The settings of `new` completed by those of `old`: the ids of `new`, and each
/// setting of `new` where it is given, else the setting of `old`.
pub open spec fn merged(new: Guild, old: Guild) -> Guild {
    Guild {
        id: new.id,
        guild_id: new.guild_id,
        reminder_master_role: first_set(new.reminder_master_role, old.reminder_master_role),
        reminder_channel: first_set(new.reminder_channel, old.reminder_channel),
    }
}

impl Guild {
    /// Completes these settings with `other`'s: each setting that is not set here is
    /// taken from `other`; the ids stay those of `self`.
    pub fn merge(self, other: Guild) -> (r: Guild)
        ensures
            r == merged(self, other),
    {
        Guild {
            id: self.id,
            guild_id: self.guild_id,
            reminder_master_role: {
                if self.reminder_master_role.is_none() {
                    other.reminder_master_role
                } else {
                    self.reminder_master_role
                }
            },
            reminder_channel: {
                if self.reminder_channel.is_none() {
                    other.reminder_channel
                } else {
                    self.reminder_channel
                }
            },
        }
    }
}

/// Merging settings with themselves changes nothing.
pub proof fn lemma_merge_idempotent(g: Guild)
    ensures
        merged(g, g) == g,
{
}

/// Merging with settings that set nothing changes nothing.
pub proof fn lemma_merge_unset_right(g: Guild, other: Guild)
    requires
        other.reminder_master_role is None,
        other.reminder_channel is None,
    ensures
        merged(g, other) == g,
{
}

/// Settings that set everything are kept whole by a merge.
pub proof fn lemma_merge_complete_left(g: Guild, other: Guild)
    requires
        g.reminder_master_role is Some,
        g.reminder_channel is Some,
    ensures
        merged(g, other) == g,
{
}

/// A setting given in the new settings always wins; one left out keeps the old value.
pub proof fn lemma_merge_setting_wins(new: Guild, old: Guild)
    ensures
        new.reminder_master_role is Some ==> merged(new, old).reminder_master_role
            == new.reminder_master_role,
        new.reminder_master_role is None ==> merged(new, old).reminder_master_role
            == old.reminder_master_role,
        new.reminder_channel is Some ==> merged(new, old).reminder_channel
            == new.reminder_channel,
        new.reminder_channel is None ==> merged(new, old).reminder_channel
            == old.reminder_channel,
{
}

/// Merging is associative: completing with `b` then `c` is completing with `b`
/// completed by `c`.
pub proof fn lemma_merge_associative(a: Guild, b: Guild, c: Guild)
    ensures
        merged(merged(a, b), c) == merged(a, merged(b, c)),
{
}

} // verus!
