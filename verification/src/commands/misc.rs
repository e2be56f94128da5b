//! Miscellaneous commands: the bot's uptime.

use vstd::prelude::*;
use crate::time::{span_text, Timestamp};

verus! {

/// The topics that `/resources` offers to pick from.
#[derive(Clone, Copy, Debug, PartialEq, Eq, Structural)]
pub enum Resources {
    Programming,
    Building,
    Notebooking,
    General,
}

/// The reply to `/uptime`, given how long the bot has run, in words.
pub open spec fn uptime_text(running: Seq<char>) -> Seq<char> {
    running + " seconds"@
}

/// Answers `/uptime`, given how long the bot has run, in words.
pub fn uptime_message(running: &str) -> (r: String)
    ensures
        r@ == uptime_text(running@),
{
    let mut s = String::from_str(running);
    s.append(" seconds");
    s
}

/// Answers `/uptime` for a bot started at `start`, asked at `now`; `None` when `now` is
/// before `start`, since a negative running time cannot be written.
pub fn uptime_reply(start: &Timestamp, now: &Timestamp) -> (r: Option<String>)
    ensures
        match r {
            Some(s) => span_text(now@ - start@) matches Some(t) && s@ == uptime_text(t),
            None => span_text(now@ - start@) is None,
        },
{
    let running = now.since(start);
    match running.format() {
        Some(t) => Some(uptime_message(t.as_str())),
        None => None,
    }
}

/// Answers `/resources`, which reports how long the bot has been online, whatever topic
/// is picked: the same reply as `/uptime` for a bot started at `start`, asked at `now`.
pub fn resources_response(resource: Option<Resources>, start: &Timestamp, now: &Timestamp) -> (r:
    Option<String>)
    ensures
        match r {
            Some(s) => span_text(now@ - start@) matches Some(t) && s@ == uptime_text(t),
            None => span_text(now@ - start@) is None,
        },
{
    uptime_reply(start, now)
}

} // verus!
