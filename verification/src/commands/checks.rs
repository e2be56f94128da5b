//! The checks that guard commands, and what each says when it fails.

use vstd::prelude::*;
use crate::db::guilds::Guild;
use crate::ids::{as_unsigned, discord_id};

verus! {

/// Whether a check lets the command run, and what the bot says to the caller.
#[derive(Clone, Debug)]
pub struct CheckOutcome {
    pub passed: bool,
    pub reply: Option<String>,
}

/// A check that fails with the given message.
pub open spec fn fails_with(c: CheckOutcome, message: Seq<char>) -> bool {
    &&& !c.passed
    &&& c.reply matches Some(m) && m@ == message
}

/// A check that passes silently.
pub open spec fn passes(c: CheckOutcome) -> bool {
    c.passed && c.reply is None
}

/// Only administrators pass; the others are told so.
pub fn administrator_outcome(is_administrator: bool) -> (r: CheckOutcome)
    ensures
        is_administrator ==> passes(r),
        !is_administrator ==> fails_with(r, "You aren't an administrator!"@),
{
    if is_administrator {
        CheckOutcome { passed: true, reply: None }
    } else {
        CheckOutcome { passed: false, reply: Some(String::from_str("You aren't an administrator!")) }
    }
}

/// The first step of the reminder-master check: the role to test the caller for, or
/// the failure when the guild has no such role configured.
pub enum MasterRoleStep {
    /// Test whether the caller has the role with this id.
    TestRole(u64),
    /// The check is decided.
    Decided(CheckOutcome),
}

/// Starts the reminder-master check from the guild's settings.
pub fn reminder_master_step(settings: &Guild) -> (r: MasterRoleStep)
    ensures
        match settings.reminder_master_role {
            Some(role) => r matches MasterRoleStep::TestRole(id) && id as int == as_unsigned(
                role as int,
            ),
            None => r matches MasterRoleStep::Decided(c) && fails_with(
                c,
                "Your server does not have the reminder master role configured"@,
            ),
        },
{
    match settings.reminder_master_role {
        Some(role) => MasterRoleStep::TestRole(discord_id(role)),
        None => MasterRoleStep::Decided(
            CheckOutcome {
                passed: false,
                reply: Some(
                    String::from_str(
                        "Your server does not have the reminder master role configured",
                    ),
                ),
            },
        ),
    }
}

/// Ends the reminder-master check once it is known whether the caller has the role.
pub fn reminder_master_outcome(has_role: bool) -> (r: CheckOutcome)
    ensures
        has_role ==> passes(r),
        !has_role ==> fails_with(
            r,
            "You need the reminder master role to be able to make reminders for other people"@,
        ),
{
    if has_role {
        CheckOutcome { passed: true, reply: None }
    } else {
        CheckOutcome {
            passed: false,
            reply: Some(
                String::from_str(
                    "You need the reminder master role to be able to make reminders for other people",
                ),
            ),
        }
    }
}

/// Reminders can only be made in a guild that has a reminder channel configured;
/// `settings` is `None` when the guild has no settings at all.
pub fn reminder_setting_outcome(settings: Option<&Guild>) -> (r: CheckOutcome)
    ensures
        match settings {
            Some(g) => if g.reminder_channel is Some {
                passes(r)
            } else {
                fails_with(r, "This server does not have the reminder channel configured."@)
            },
            None => fails_with(r, "There are no settings for this server."@),
        },
{
    match settings {
        Some(g) => {
            if g.reminder_channel.is_some() {
                CheckOutcome { passed: true, reply: None }
            } else {
                CheckOutcome {
                    passed: false,
                    reply: Some(
                        String::from_str(
                            "This server does not have the reminder channel configured.",
                        ),
                    ),
                }
            }
        },
        None => CheckOutcome {
            passed: false,
            reply: Some(String::from_str("There are no settings for this server.")),
        },
    }
}

} // verus!
